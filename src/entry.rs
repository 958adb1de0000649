use vstd::prelude::*;

verus! {

/// What an entry of the filesystem is, as far as the listing cares.
#[derive(Clone, Copy, Debug, PartialEq, Eq, Structural)]
pub enum EntryKind {
    Directory,
    File,
    /// Anything else: a device, a socket, a dangling link.
    Other,
}

/// What the filesystem answered about one path.
#[derive(Clone, Debug)]
pub struct Probe {
    /// Whether the path exists.
    pub exists: bool,
    pub kind: EntryKind,
    /// The final component of the path as text, if it has one that reads as text.
    pub name: Option<String>,
}

/// A name is hidden when it starts with a period.
pub open spec fn is_hidden_name(name: Seq<char>) -> bool {
    name.len() > 0 && name[0] == '.'
}

/// Tells whether an entry's name marks it as hidden.
pub fn is_hidden(name: &str) -> (r: bool)
    ensures
        r == is_hidden_name(name@),
{
    if name.unicode_len() == 0 {
        false
    } else {
        name.get_char(0) == '.'
    }
}

} // verus!
