//! Fixed-width text for a snapshot: progress bars and report lines.
use vstd::prelude::*;
use crate::disk::{DiskUsage, usage_hundredths};
use crate::text::{decimal_string, decimal_text, hundredths_string, hundredths_text};

verus! {

/// Number of segments in a progress bar.
pub const BAR_LENGTH: u64 = 50;

/// Filled segments for a percentage of `h` hundredths: `floor(50 * v / 100)`
/// for the percentage `v = h / 100`, clamped to the bar's length.
pub open spec fn filled_count(h: nat) -> nat {
    let f = (50 * h) / 10000;
    if f > 50 { 50 } else { f }
}

/// `n` copies of the character `c`.
pub open spec fn repeat_char(c: char, n: nat) -> Seq<char> {
    Seq::new(n, |_i: int| c)
}

/// The 50 characters of a bar with `filled` leading `=` and spaces after.
pub open spec fn bar_text(filled: nat) -> Seq<char>
    recommends
        filled <= 50,
{
    repeat_char('=', filled) + repeat_char(' ', (50 - filled) as nat)
}

/// `label: [bar] value%`, with the value to two decimal places.
pub open spec fn progress_line_text(label: Seq<char>, h: nat) -> Seq<char> {
    label + seq![':', ' ', '['] + bar_text(filled_count(h)) + seq![']', ' '] + hundredths_text(h)
        + seq!['%']
}

/// Filled segment count of the bar for a percentage given in hundredths.
pub fn filled_segments(h: u64) -> (r: u64)
    ensures
        r == filled_count(h as nat),
        r <= BAR_LENGTH,
{
    let f = h / 200;
    assert((50 * (h as nat)) / 10000 == (h as nat) / 200) by (nonlinear_arith);
    if f > BAR_LENGTH {
        BAR_LENGTH
    } else {
        f
    }
}

fn push_repeated(s: &mut String, piece: &str, n: u64)
    requires
        piece@.len() == 1,
    ensures
        final(s)@ == old(s)@ + repeat_char(piece@[0], n as nat),
{
    let mut i: u64 = 0;
    while i < n
        invariant
            piece@.len() == 1,
            i <= n,
            s@ == old(s)@ + repeat_char(piece@[0], i as nat),
        decreases n - i,
    {
        s.append(piece);
        assert(s@ =~= old(s)@ + repeat_char(piece@[0], (i + 1) as nat));
        i = i + 1;
    }
}

/// The 50-character bar for a percentage given in hundredths; values above
/// 100 fill the whole bar.
pub fn progress_bar(h: u64) -> (r: String)
    ensures
        r@ == bar_text(filled_count(h as nat)),
        r@.len() == 50,
{
    let filled = filled_segments(h);
    let mut s = String::new();
    proof {
        reveal_strlit("=");
        reveal_strlit(" ");
    }
    push_repeated(&mut s, "=", filled);
    push_repeated(&mut s, " ", BAR_LENGTH - filled);
    assert(s@ =~= bar_text(filled_count(h as nat)));
    s
}

/// A labelled bar followed by the value: `CPU Usage: [====    ] 8.00%`.
pub fn progress_line(label: &str, h: u64) -> (r: String)
    ensures
        r@ == progress_line_text(label@, h as nat),
{
    let mut s = String::from_str(label);
    proof {
        reveal_strlit(": [");
        reveal_strlit("] ");
        reveal_strlit("%");
    }
    s.append(": [");
    let bar = progress_bar(h);
    s.append(bar.as_str());
    s.append("] ");
    let value = hundredths_string(h);
    s.append(value.as_str());
    s.append("%");
    assert(s@ =~= progress_line_text(label@, h as nat));
    s
}

/// The disk line: a bar of the used share, or `N/A` when no volume holds
/// any space.
pub open spec fn disk_line_text(u: DiskUsage) -> Seq<char> {
    if u.total == 0 {
        "Disk Usage: N/A"@
    } else {
        progress_line_text("Disk Usage"@, usage_hundredths(u.used as nat, u.total as nat))
    }
}

/// Renders the disk line of a snapshot.
pub fn disk_line(u: &DiskUsage) -> (r: String)
    requires
        u.used <= u.total,
    ensures
        r@ == disk_line_text(*u),
{
    match u.percent_hundredths() {
        Some(p) => progress_line("Disk Usage", p),
        None => String::from_str("Disk Usage: N/A"),
    }
}

/// `Memory Usage: used/total KB`.
pub open spec fn memory_line_text(used: nat, total: nat) -> Seq<char> {
    "Memory Usage: "@ + decimal_text(used) + seq!['/'] + decimal_text(total) + " KB"@
}

/// Renders the memory line of a snapshot.
pub fn memory_line(used_kb: u64, total_kb: u64) -> (r: String)
    ensures
        r@ == memory_line_text(used_kb as nat, total_kb as nat),
{
    proof {
        reveal_strlit("Memory Usage: ");
        reveal_strlit("/");
        reveal_strlit(" KB");
    }
    let mut s = String::from_str("Memory Usage: ");
    let used = decimal_string(used_kb);
    s.append(used.as_str());
    s.append("/");
    let total = decimal_string(total_kb);
    s.append(total.as_str());
    s.append(" KB");
    assert(s@ =~= memory_line_text(used_kb as nat, total_kb as nat));
    s
}

/// A directory entry: a type marker padded to seven characters, then the path.
pub open spec fn entry_line_text(is_dir: bool, path: Seq<char>) -> Seq<char> {
    if is_dir {
        "[DIR]  "@ + path
    } else {
        "[FILE] "@ + path
    }
}

/// Renders one entry of a directory listing.
pub fn entry_line(is_dir: bool, path: &str) -> (r: String)
    ensures
        r@ == entry_line_text(is_dir, path@),
{
    let mut s = if is_dir {
        String::from_str("[DIR]  ")
    } else {
        String::from_str("[FILE] ")
    };
    s.append(path);
    s
}

} // verus!
