use vstd::prelude::*;

use colored::Colorize;

use crate::entry::EntryKind;
use crate::walk::Line;

verus! {

/// The code that ends a styled span.
pub open spec fn reset_code() -> Seq<char> {
    seq!['\x1b', '[', '0', 'm']
}

/// The code that opens a bold red span.
pub open spec fn bold_red_code() -> Seq<char> {
    seq!['\x1b', '[', '1', ';', '3', '1', 'm']
}

/// The code that opens a red span.
pub open spec fn red_code() -> Seq<char> {
    seq!['\x1b', '[', '3', '1', 'm']
}

/// The code that opens a blue span.
pub open spec fn blue_code() -> Seq<char> {
    seq!['\x1b', '[', '3', '4', 'm']
}

pub open spec fn holds_reset(t: Seq<char>) -> bool {
    exists|i: int| 0 <= i && i + 4 <= t.len() && #[trigger] t.subrange(i, i + 4) == reset_code()
}

/// `r` is the text `t` as a terminal styler may print it: as it is, where colour is
/// off, or between the opening code `open` and the reset code. Where the text
/// itself holds a reset code the styler repeats `open` after it, so only the frame
/// is fixed then.
pub open spec fn painted(r: Seq<char>, t: Seq<char>, open: Seq<char>) -> bool {
    ||| r == t
    ||| r == open + t + reset_code()
    ||| holds_reset(t) && r.len() >= open.len() + 4 && r.take(open.len() as int) == open && r.skip(
        r.len() - 4,
    ) == reset_code()
}

/// The opening code each kind of entry is drawn with; `None` draws it plain.
pub open spec fn kind_code(kind: EntryKind) -> Option<Seq<char>> {
    match kind {
        EntryKind::Directory => Some(bold_red_code()),
        EntryKind::File => Some(blue_code()),
        EntryKind::Other => None,
    }
}

/// One tab per level of depth.
pub open spec fn indent(depth: nat) -> Seq<char> {
    Seq::new(depth, |_i: int| '\t')
}

/// Relies on colored's `red` and `bold` and the `Display` of `ColoredString`: the
/// text as it is when colour is off, else framed by "ESC[1;31m" and "ESC[0m".
/// Whether colour is on depends on the environment and the terminal.
#[verifier::external_body]
fn bold_red(t: &str) -> (r: String)
    ensures
        painted(r@, t@, bold_red_code()),
{
    t.red().bold().to_string()
}

/// Relies on colored's `red` and the `Display` of `ColoredString`: the text as it
/// is when colour is off, else framed by "ESC[31m" and "ESC[0m".
#[verifier::external_body]
fn red(t: &str) -> (r: String)
    ensures
        painted(r@, t@, red_code()),
{
    t.red().to_string()
}

/// Relies on colored's `blue` and the `Display` of `ColoredString`: the text as it
/// is when colour is off, else framed by "ESC[34m" and "ESC[0m".
#[verifier::external_body]
fn blue(t: &str) -> (r: String)
    ensures
        painted(r@, t@, blue_code()),
{
    t.blue().to_string()
}

/// Puts `text` after one tab per level of `depth`.
pub fn indented(depth: usize, text: &str) -> (r: String)
    ensures
        r@ == indent(depth as nat) + text@,
{
    let mut r = String::new();
    let mut i: usize = 0;
    while i < depth
        invariant
            i <= depth,
            r@ == indent(i as nat),
        decreases depth - i,
    {
        proof {
            reveal_strlit("\t");
        }
        r.append("\t");
        i += 1;
        assert(r@ =~= indent(i as nat));
    }
    r.append(text);
    r
}

/// Draws a line of the tree: the indent of its depth, then its name, styled by the
/// kind of entry.
pub fn render_line(line: &Line) -> (r: String)
    ensures
        r@.len() >= line.depth,
        r@.take(line.depth as int) == indent(line.depth as nat),
        kind_code(line.kind) matches Some(code) ==> painted(
            r@.skip(line.depth as int),
            line.name@,
            code,
        ),
        kind_code(line.kind) is None ==> r@.skip(line.depth as int) == line.name@,
{
    let styled = match line.kind {
        EntryKind::Directory => bold_red(line.name.as_str()),
        EntryKind::File => blue(line.name.as_str()),
        EntryKind::Other => line.name.clone(),
    };
    let r = indented(line.depth, styled.as_str());
    assert(r@.take(line.depth as int) =~= indent(line.depth as nat));
    assert(r@.skip(line.depth as int) =~= styled@);
    r
}

/// The message of a run whose root does not exist, its first word in red.
pub fn missing_root_message() -> (r: String)
    ensures
        exists|w: Seq<char>|
            painted(w, "Error"@, red_code()) && r@ == w + ": directory doesn't exist. Exiting..."@,
{
    let mut r = red("Error");
    let ghost w = r@;
    r.append(": directory doesn't exist. Exiting...");
    assert(painted(w, "Error"@, red_code()));
    r
}

} // verus!
