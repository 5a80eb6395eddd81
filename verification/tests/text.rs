use hashmap_binding::string_map::StringMap;
use hashmap_binding::text::{find_terminator, marshal_text};
use hashmap_binding::TextError;

#[test]
fn terminator_is_the_first_nul() {
    assert_eq!(find_terminator(b""), None);
    assert_eq!(find_terminator(b"abc"), None);
    assert_eq!(find_terminator(b"\0"), Some(0));
    assert_eq!(find_terminator(b"abc\0"), Some(3));
    assert_eq!(find_terminator(b"ab\0c\0"), Some(2));
}

#[test]
fn marshal_copies_the_text_before_the_terminator() {
    assert_eq!(marshal_text(Some(b"lang\0")), Ok(String::from("lang")));
    assert_eq!(marshal_text(Some(b"\0")), Ok(String::new()));
    assert_eq!(marshal_text(Some(b"a\0b\0")), Ok(String::from("a")));
    assert_eq!(marshal_text(Some(b"\xc3\xa9t\xc3\xa9\0")), Ok(String::from("\u{e9}t\u{e9}")));
    assert_eq!(marshal_text(Some(b"\xf0\x9f\xa6\x80\0")), Ok(String::from("\u{1f980}")));
}

#[test]
fn marshal_skips_bad_bytes_after_the_terminator() {
    assert_eq!(marshal_text(Some(b"ok\0\xff\xfe")), Ok(String::from("ok")));
}

#[test]
fn marshal_names_each_failure() {
    assert_eq!(marshal_text(None), Err(TextError::NullPointer));
    assert_eq!(marshal_text(Some(b"")), Err(TextError::Unterminated));
    assert_eq!(marshal_text(Some(b"no end")), Err(TextError::Unterminated));
    assert_eq!(marshal_text(Some(b"\x80\0")), Err(TextError::InvalidUtf8));
    assert_eq!(marshal_text(Some(b"ab\xe2\x82\0")), Err(TextError::InvalidUtf8));
    assert_eq!(marshal_text(Some(b"\xff")), Err(TextError::Unterminated));
}

#[test]
fn string_map_keeps_one_value_for_each_key() {
    let mut map = StringMap::new();
    assert_eq!(map.len(), 0);
    assert_eq!(map.get("a"), None);
    map.insert(String::from("a"), String::from("1"));
    map.insert(String::from("b"), String::from("2"));
    map.insert(String::from("a"), String::from("3"));
    assert_eq!(map.len(), 2);
    assert_eq!(map.get("a"), Some(&String::from("3")));
    assert_eq!(map.get("b"), Some(&String::from("2")));
    assert_eq!(map.get("c"), None);
}
