use sysmon::explorer::{decode_command, join, ExplorerAction, ExplorerCommand, ExplorerState};
use sysmon::menu::{decode_menu_choice, menu_lines, MenuChoice};

#[test]
fn menu_choices_are_trimmed() {
    assert_eq!(decode_menu_choice("1\n"), MenuChoice::SystemStats);
    assert_eq!(decode_menu_choice("  2 \r\n"), MenuChoice::FileExplorer);
    assert_eq!(decode_menu_choice("3\n"), MenuChoice::Invalid);
    assert_eq!(decode_menu_choice("12"), MenuChoice::Invalid);
    assert_eq!(decode_menu_choice(""), MenuChoice::Invalid);
    assert_eq!(menu_lines().len(), 4);
}

#[test]
fn commands_decode() {
    assert!(matches!(decode_command("exit\n"), ExplorerCommand::Exit));
    assert!(matches!(decode_command("  ls  "), ExplorerCommand::List));
    match decode_command("cd  src \n") {
        ExplorerCommand::ChangeDirectory(a) => assert_eq!(a, "src"),
        other => panic!("unexpected {:?}", other),
    }
    match decode_command("cd cd docs") {
        ExplorerCommand::ChangeDirectory(a) => assert_eq!(a, "docs"),
        other => panic!("unexpected {:?}", other),
    }
    match decode_command(" frobnicate \n") {
        ExplorerCommand::Unknown(u) => assert_eq!(u, "frobnicate"),
        other => panic!("unexpected {:?}", other),
    }
    match decode_command("cd") {
        ExplorerCommand::Unknown(u) => assert_eq!(u, "cd"),
        other => panic!("unexpected {:?}", other),
    }
}

#[test]
fn join_follows_path_rules() {
    assert_eq!(join("/home/u", ".."), "/home/u/..");
    assert_eq!(join("/home/u/", "src"), "/home/u/src");
    assert_eq!(join("/home/u", "/etc"), "/etc");
    assert_eq!(join("", "src"), "src");
}

#[test]
fn new_state_defaults_to_root() {
    assert_eq!(ExplorerState::new(None).current_directory, "/");
    assert_eq!(
        ExplorerState::new(Some(String::from("/home/u"))).current_directory,
        "/home/u"
    );
}

#[test]
fn cd_parent_moves_when_directory_exists() {
    let mut st = ExplorerState::new(Some(String::from("/home/u")));
    let cmd = decode_command("cd ..");
    assert_eq!(st.resolve(".."), "/home/u/..");
    let action = st.handle(&cmd, true);
    assert!(matches!(action, ExplorerAction::Continue));
    assert_eq!(st.current_directory, "/home/u/..");
}

#[test]
fn cd_parent_stays_when_directory_missing() {
    let mut st = ExplorerState::new(Some(String::from("/home/u")));
    let cmd = decode_command("cd ..");
    match st.handle(&cmd, false) {
        ExplorerAction::Report(m) => assert_eq!(m, "Directory not found: .."),
        other => panic!("unexpected {:?}", other),
    }
    assert_eq!(st.current_directory, "/home/u");
}

#[test]
fn cd_to_absolute_directory() {
    let mut st = ExplorerState::new(Some(String::from("/home/u")));
    let cmd = decode_command("cd /var/log");
    assert!(matches!(st.handle(&cmd, true), ExplorerAction::Continue));
    assert_eq!(st.current_directory, "/var/log");
}

#[test]
fn exit_returns_to_menu_after_navigation() {
    let mut st = ExplorerState::new(Some(String::from("/")));
    for _ in 0..4 {
        let cmd = decode_command("cd deeper");
        st.handle(&cmd, true);
    }
    assert_eq!(st.current_directory, "/deeper/deeper/deeper/deeper");
    let cmd = decode_command("exit");
    assert!(matches!(st.handle(&cmd, false), ExplorerAction::ReturnToMenu));
    assert_eq!(st.current_directory, "/deeper/deeper/deeper/deeper");
}

#[test]
fn ls_and_unknown_keep_state() {
    let mut st = ExplorerState::new(Some(String::from("/tmp")));
    assert!(matches!(st.handle(&decode_command("ls"), true), ExplorerAction::Continue));
    match st.handle(&decode_command("rm -rf x"), true) {
        ExplorerAction::Report(m) => assert_eq!(m, "Unknown command: rm -rf x"),
        other => panic!("unexpected {:?}", other),
    }
    assert_eq!(st.current_directory, "/tmp");
}
