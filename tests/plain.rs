use dirtree::{missing_root_message, render_line, EntryKind, Line};

fn line(depth: usize, name: &str, kind: EntryKind) -> Line {
    Line { depth, name: name.to_string(), kind }
}

#[test]
fn plain_lines() {
    colored::control::set_override(false);
    assert_eq!(render_line(&line(1, "src", EntryKind::Directory)), "\tsrc");
    assert_eq!(render_line(&line(2, "main.rs", EntryKind::File)), "\t\tmain.rs");
    assert_eq!(missing_root_message(), "Error: directory doesn't exist. Exiting...");
}
