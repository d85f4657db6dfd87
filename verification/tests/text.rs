use node_getter::text::{decode, same_text};

#[test]
fn same_text_is_equality() {
    assert!(same_text("", ""));
    assert!(same_text("program", "program"));
    assert!(same_text("größe", "größe"));
    assert!(!same_text("program", "programs"));
    assert!(!same_text("programs", "program"));
    assert!(!same_text("program", "progrem"));
    assert!(!same_text("Program", "program"));
    assert!(!same_text("", "a"));
    assert!(!same_text("a", ""));
    assert!(!same_text("é", "e"));
    assert!(!same_text("e\u{301}", "\u{e9}"));
}

#[test]
fn same_text_of_an_owned_and_a_borrowed_text() {
    let built = format!("{}_{}", "class", "declaration");
    assert!(same_text(&built, "class_declaration"));
    assert!(!same_text(&built, "class_definition"));
}

#[test]
fn decode_gives_the_text_of_the_bytes() {
    assert_eq!(decode(b""), Some(""));
    assert_eq!(decode(b"foo"), Some("foo"));
    assert_eq!(decode("h\u{e9}llo \u{4e16}\u{754c} \u{1f600}".as_bytes()), Some("héllo 世界 😀"));
    assert_eq!(decode(&[0xf0, 0x9f, 0x98, 0x80]), Some("😀"));
    assert_eq!(decode(b"a\0b"), Some("a\0b"));
}

#[test]
fn decode_refuses_what_is_no_text() {
    assert_eq!(decode(&[0xff]), None);
    assert_eq!(decode(&[0x80]), None);
    assert_eq!(decode(&[b'a', 0xc3]), None);
    assert_eq!(decode(&[0xc0, 0xaf]), None);
    assert_eq!(decode(&[0xe0, 0x80, 0xaf]), None);
    assert_eq!(decode(&[0xed, 0xa0, 0x80]), None);
    assert_eq!(decode(&[0xf4, 0x90, 0x80, 0x80]), None);
    assert_eq!(decode(&[0xf0, 0x9f, 0x98]), None);
}
