use command_console::text::{appended, same_text};

#[test]
fn same_text_compares_character_by_character() {
    assert!(same_text("", ""));
    assert!(same_text("help", "help"));
    assert!(!same_text("help", "hello"));
    assert!(!same_text("help", "Help"));
    assert!(!same_text("help", "help "));
    assert!(same_text("\u{e9}t\u{e9}", "\u{e9}t\u{e9}"));
}

#[test]
fn appended_puts_the_tail_behind_the_head() {
    assert_eq!(appended("", ""), "");
    assert_eq!(appended("> ", "help"), "> help");
    assert_eq!(appended("a", ""), "a");
    assert_eq!(appended("", "b"), "b");
}
