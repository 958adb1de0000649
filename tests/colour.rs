use dirtree::{missing_root_message, render_line, EntryKind, Line};

fn line(depth: usize, name: &str, kind: EntryKind) -> Line {
    Line { depth, name: name.to_string(), kind }
}

#[test]
fn coloured_lines() {
    colored::control::set_override(true);
    assert_eq!(render_line(&line(1, "src", EntryKind::Directory)), "\t\x1b[1;31msrc\x1b[0m");
    assert_eq!(render_line(&line(2, "main.rs", EntryKind::File)), "\t\t\x1b[34mmain.rs\x1b[0m");
    assert_eq!(render_line(&line(0, "fifo", EntryKind::Other)), "fifo");
    assert_eq!(
        missing_root_message(),
        "\x1b[31mError\x1b[0m: directory doesn't exist. Exiting..."
    );
}
