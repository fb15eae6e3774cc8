use verilated::doc::{extract_doc_comments, try_unescape, unescape_unicode, DocAttr};

#[test]
fn unescape_simple() {
    assert_eq!(try_unescape(""), Some(String::new()));
    assert_eq!(try_unescape("\" Hello world\""), Some(" Hello world".to_string()));
    assert_eq!(try_unescape("\"a\\tb\\nc\\rd\""), Some("a\tb\nc\rd".to_string()));
    assert_eq!(try_unescape("\"q\\\"x\\'y\\\\z\""), Some("q\"x'y\\z".to_string()));
    assert_eq!(try_unescape("plain"), Some("plain".to_string()));
}

#[test]
fn unescape_unicode_escapes() {
    assert_eq!(try_unescape("\"\\u{e9}t\\u{1F600}\""), Some("\u{e9}t\u{1F600}".to_string()));
    assert_eq!(try_unescape("\"\\u{}\""), None);
    assert_eq!(try_unescape("\"\\u{1234567}\""), None);
    assert_eq!(try_unescape("\"\\u{d800}\""), None);
    assert_eq!(try_unescape("\"\\u{41\""), None);
    assert_eq!(try_unescape("\"\\u41}\""), None);
    assert_eq!(try_unescape("\"\\q\""), None);
    assert_eq!(try_unescape("\"abc\\"), None);
    assert_eq!(unescape_unicode("41}", 0), Some(('A', 2)));
    assert_eq!(unescape_unicode("10FFFF}", 0), Some(('\u{10FFFF}', 6)));
    assert_eq!(unescape_unicode("110000}", 0), None);
    assert_eq!(unescape_unicode("zz", 0), None);
}

#[test]
fn doc_comments_collected() {
    let attrs = vec![
        DocAttr { is_doc: true, literals: vec!["\" First line\"".to_string()] },
        DocAttr { is_doc: false, literals: vec!["\"ignored\"".to_string()] },
        DocAttr { is_doc: true, literals: vec!["\" Tab\\there\"".to_string(), "\"bad\\x\"".to_string()] },
    ];
    assert_eq!(
        extract_doc_comments(&attrs),
        vec![" First line".to_string(), " Tab\there".to_string(), "\"bad\\x\"".to_string()]
    );
}
