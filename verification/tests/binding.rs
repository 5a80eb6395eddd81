use hashmap_binding::{
    create_hashmap, free_hashmap, hashmap_set_value, Handle, HandleError, HandleStatus, Registry,
    SetError, TextError,
};

fn value_of(registry: &Registry, map: Handle, key: &str) -> Option<String> {
    registry.lookup(map, key).unwrap().cloned()
}

#[test]
fn create_then_destroy_is_safe() {
    let mut registry = Registry::new();
    let map = create_hashmap(&mut registry).unwrap();
    assert_eq!(registry.status(map), HandleStatus::Live);
    assert_eq!(registry.entry_count(map), Ok(0));
    assert_eq!(free_hashmap(&mut registry, map), Ok(()));
    assert_eq!(registry.status(map), HandleStatus::Destroyed);
}

#[test]
fn new_registry_knows_no_handle() {
    let registry = Registry::new();
    assert_eq!(registry.status(Handle::from_bits(0)), HandleStatus::Unissued);
    assert_eq!(registry.status(Handle::from_bits(1 << 32)), HandleStatus::Unissued);
    assert_eq!(registry.entry_count(Handle::from_bits(1 << 32)), Err(HandleError::Unissued));
}

#[test]
fn set_value_overwrites_and_never_duplicates() {
    let mut registry = Registry::new();
    let map = create_hashmap(&mut registry).unwrap();
    assert_eq!(hashmap_set_value(&mut registry, map, Some(b"k\0"), Some(b"one\0")), Ok(()));
    assert_eq!(registry.entry_count(map), Ok(1));
    assert_eq!(hashmap_set_value(&mut registry, map, Some(b"k\0"), Some(b"two\0")), Ok(()));
    assert_eq!(registry.entry_count(map), Ok(1));
    assert_eq!(value_of(&registry, map, "k"), Some(String::from("two")));
    assert_eq!(free_hashmap(&mut registry, map), Ok(()));
}

#[test]
fn entry_count_is_the_number_of_distinct_keys() {
    let mut registry = Registry::new();
    let map = create_hashmap(&mut registry).unwrap();
    let keys: [&[u8]; 6] = [b"a\0", b"b\0", b"a\0", b"c\0", b"b\0", b"a\0"];
    for key in keys {
        assert_eq!(hashmap_set_value(&mut registry, map, Some(key), Some(b"v\0")), Ok(()));
    }
    assert_eq!(registry.entry_count(map), Ok(3));
    assert_eq!(value_of(&registry, map, "d"), None);
    assert_eq!(free_hashmap(&mut registry, map), Ok(()));
}

#[test]
fn destroy_after_many_inserts() {
    let mut registry = Registry::new();
    let map = create_hashmap(&mut registry).unwrap();
    for round in 0..3 {
        for i in 0..500 {
            let mut key = format!("key-{i}").into_bytes();
            key.push(0);
            let mut value = format!("value-{round}-{i}").into_bytes();
            value.push(0);
            assert_eq!(hashmap_set_value(&mut registry, map, Some(&key), Some(&value)), Ok(()));
        }
        assert_eq!(registry.entry_count(map), Ok(500));
    }
    assert_eq!(value_of(&registry, map, "key-499"), Some(String::from("value-2-499")));
    assert_eq!(free_hashmap(&mut registry, map), Ok(()));
    assert_eq!(registry.status(map), HandleStatus::Destroyed);
}

#[test]
fn independent_handles_are_independent() {
    let mut registry = Registry::new();
    let first = create_hashmap(&mut registry).unwrap();
    let second = create_hashmap(&mut registry).unwrap();
    assert_ne!(first, second);
    assert_eq!(hashmap_set_value(&mut registry, second, Some(b"k\0"), Some(b"kept\0")), Ok(()));
    assert_eq!(hashmap_set_value(&mut registry, first, Some(b"k\0"), Some(b"v\0")), Ok(()));
    assert_eq!(hashmap_set_value(&mut registry, first, Some(b"other\0"), Some(b"w\0")), Ok(()));
    assert_eq!(registry.entry_count(first), Ok(2));
    assert_eq!(registry.entry_count(second), Ok(1));
    assert_eq!(value_of(&registry, second, "k"), Some(String::from("kept")));
    assert_eq!(value_of(&registry, second, "other"), None);
    assert_eq!(free_hashmap(&mut registry, first), Ok(()));
    assert_eq!(registry.status(second), HandleStatus::Live);
    assert_eq!(value_of(&registry, second, "k"), Some(String::from("kept")));
    assert_eq!(free_hashmap(&mut registry, second), Ok(()));
}

#[test]
fn text_round_trip() {
    let mut registry = Registry::new();
    let map = create_hashmap(&mut registry).unwrap();
    let key = "cl\u{e9} \u{65e5}\u{672c}\u{8a9e}";
    let value = "na\u{ef}ve \u{1f980} plain";
    let mut key_bytes = key.as_bytes().to_vec();
    key_bytes.push(0);
    let mut value_bytes = value.as_bytes().to_vec();
    value_bytes.push(0);
    assert_eq!(
        hashmap_set_value(&mut registry, map, Some(&key_bytes), Some(&value_bytes)),
        Ok(())
    );
    let stored = value_of(&registry, map, key).unwrap();
    assert_eq!(stored.as_bytes(), &value_bytes[..value_bytes.len() - 1]);
    assert_eq!(registry.entry_count(map), Ok(1));
}

#[test]
fn text_ends_at_the_first_nul() {
    let mut registry = Registry::new();
    let map = create_hashmap(&mut registry).unwrap();
    assert_eq!(
        hashmap_set_value(&mut registry, map, Some(b"key\0tail\0"), Some(b"\0ignored")),
        Ok(())
    );
    assert_eq!(value_of(&registry, map, "key"), Some(String::new()));
    assert_eq!(value_of(&registry, map, "key\0tail"), None);
}

#[test]
fn null_pointer_is_rejected() {
    let mut registry = Registry::new();
    let map = create_hashmap(&mut registry).unwrap();
    assert_eq!(
        hashmap_set_value(&mut registry, map, None, Some(b"v\0")),
        Err(SetError::Key(TextError::NullPointer))
    );
    assert_eq!(
        hashmap_set_value(&mut registry, map, Some(b"k\0"), None),
        Err(SetError::Value(TextError::NullPointer))
    );
    assert_eq!(registry.entry_count(map), Ok(0));
}

#[test]
fn undecodable_text_is_rejected_every_time() {
    let mut registry = Registry::new();
    let map = create_hashmap(&mut registry).unwrap();
    assert_eq!(hashmap_set_value(&mut registry, map, Some(b"k\0"), Some(b"v\0")), Ok(()));
    let bad: [&[u8]; 5] = [
        b"\xff\0",
        b"\xc3\0",
        b"\xc0\xaf\0",
        b"\xed\xa0\x80\0",
        b"\xf4\x90\x80\x80\0",
    ];
    for _ in 0..3 {
        for bytes in bad {
            assert_eq!(
                hashmap_set_value(&mut registry, map, Some(bytes), Some(b"v\0")),
                Err(SetError::Key(TextError::InvalidUtf8))
            );
            assert_eq!(
                hashmap_set_value(&mut registry, map, Some(b"k\0"), Some(bytes)),
                Err(SetError::Value(TextError::InvalidUtf8))
            );
        }
    }
    assert_eq!(registry.entry_count(map), Ok(1));
    assert_eq!(value_of(&registry, map, "k"), Some(String::from("v")));
}

#[test]
fn unterminated_text_is_rejected() {
    let mut registry = Registry::new();
    let map = create_hashmap(&mut registry).unwrap();
    assert_eq!(
        hashmap_set_value(&mut registry, map, Some(b"key"), Some(b"v\0")),
        Err(SetError::Key(TextError::Unterminated))
    );
    assert_eq!(
        hashmap_set_value(&mut registry, map, Some(b"k\0"), Some(b"")),
        Err(SetError::Value(TextError::Unterminated))
    );
    assert_eq!(registry.entry_count(map), Ok(0));
}

#[test]
fn key_is_looked_at_before_value_and_handle() {
    let mut registry = Registry::new();
    let stale = Handle::from_bits(7);
    assert_eq!(
        hashmap_set_value(&mut registry, stale, None, Some(b"\xff\0")),
        Err(SetError::Key(TextError::NullPointer))
    );
    assert_eq!(
        hashmap_set_value(&mut registry, stale, Some(b"k\0"), Some(b"\xff\0")),
        Err(SetError::Value(TextError::InvalidUtf8))
    );
    assert_eq!(
        hashmap_set_value(&mut registry, stale, Some(b"k\0"), Some(b"v\0")),
        Err(SetError::Handle(HandleError::Unissued))
    );
}

#[test]
fn end_to_end_scenario() {
    let mut registry = Registry::new();
    let map = create_hashmap(&mut registry).unwrap();
    assert_eq!(hashmap_set_value(&mut registry, map, Some(b"lang\0"), Some(b"rust\0")), Ok(()));
    assert_eq!(hashmap_set_value(&mut registry, map, Some(b"lang\0"), Some(b"go\0")), Ok(()));
    assert_eq!(registry.entry_count(map), Ok(1));
    assert_eq!(value_of(&registry, map, "lang"), Some(String::from("go")));
    assert_eq!(free_hashmap(&mut registry, map), Ok(()));
}

#[test]
fn destroyed_handle_is_turned_down() {
    let mut registry = Registry::new();
    let map = create_hashmap(&mut registry).unwrap();
    assert_eq!(hashmap_set_value(&mut registry, map, Some(b"k\0"), Some(b"v\0")), Ok(()));
    assert_eq!(free_hashmap(&mut registry, map), Ok(()));
    assert_eq!(free_hashmap(&mut registry, map), Err(HandleError::Destroyed));
    assert_eq!(
        hashmap_set_value(&mut registry, map, Some(b"k\0"), Some(b"v\0")),
        Err(SetError::Handle(HandleError::Destroyed))
    );
    assert_eq!(registry.entry_count(map), Err(HandleError::Destroyed));
    assert_eq!(registry.lookup(map, "k"), Err(HandleError::Destroyed));
}

#[test]
fn unknown_handle_is_turned_down() {
    let mut registry = Registry::new();
    let map = create_hashmap(&mut registry).unwrap();
    let later = Handle::from_bits(map.to_bits() + (1 << 32));
    let elsewhere = Handle::from_bits(map.to_bits() + 1);
    for unknown in [Handle::from_bits(0), later, elsewhere] {
        assert_eq!(registry.status(unknown), HandleStatus::Unissued);
        assert_eq!(free_hashmap(&mut registry, unknown), Err(HandleError::Unissued));
        assert_eq!(
            hashmap_set_value(&mut registry, unknown, Some(b"k\0"), Some(b"v\0")),
            Err(SetError::Handle(HandleError::Unissued))
        );
    }
    assert_eq!(registry.status(map), HandleStatus::Live);
    assert_eq!(registry.entry_count(map), Ok(0));
}

#[test]
fn a_slot_is_reused_under_a_new_handle() {
    let mut registry = Registry::new();
    let first = create_hashmap(&mut registry).unwrap();
    assert_eq!(hashmap_set_value(&mut registry, first, Some(b"k\0"), Some(b"v\0")), Ok(()));
    assert_eq!(free_hashmap(&mut registry, first), Ok(()));
    let second = create_hashmap(&mut registry).unwrap();
    assert_ne!(first, second);
    assert_eq!(first.to_bits(), 1 << 32);
    assert_eq!(second.to_bits(), 2 << 32);
    assert_eq!(registry.status(first), HandleStatus::Destroyed);
    assert_eq!(registry.status(second), HandleStatus::Live);
    assert_eq!(registry.entry_count(second), Ok(0));
    assert_eq!(free_hashmap(&mut registry, first), Err(HandleError::Destroyed));
    assert_eq!(registry.status(second), HandleStatus::Live);
}

#[test]
fn handles_are_never_null() {
    let mut registry = Registry::new();
    for _ in 0..4 {
        let map = create_hashmap(&mut registry).unwrap();
        assert_ne!(map.to_bits(), 0);
        assert_eq!(free_hashmap(&mut registry, map), Ok(()));
    }
    let a = create_hashmap(&mut registry).unwrap();
    let b = create_hashmap(&mut registry).unwrap();
    assert_ne!(a.to_bits(), 0);
    assert_ne!(b.to_bits(), 0);
    assert_eq!(b.to_bits() & 0xffff_ffff, 1);
}

#[test]
fn handle_bits_hold_generation_and_slot() {
    let handle = Handle::from_bits(0x0000_0002_0000_0005);
    assert_eq!(handle, Handle { slot: 5, generation: 2 });
    assert_eq!(Handle { slot: 0xffff_ffff, generation: 1 }.to_bits(), 0x0000_0001_ffff_ffff);
    assert_eq!(Handle { slot: 0, generation: 0xffff_ffff }.to_bits(), 0xffff_ffff_0000_0000);
    assert_eq!(Handle { slot: 0, generation: 0 }.to_bits(), 0);
}

#[test]
fn vacated_slots_are_reused_last_first() {
    let mut registry = Registry::new();
    let a = create_hashmap(&mut registry).unwrap();
    let b = create_hashmap(&mut registry).unwrap();
    let c = create_hashmap(&mut registry).unwrap();
    assert_eq!(a, Handle { slot: 0, generation: 1 });
    assert_eq!(b, Handle { slot: 1, generation: 1 });
    assert_eq!(c, Handle { slot: 2, generation: 1 });
    assert_eq!(free_hashmap(&mut registry, a), Ok(()));
    assert_eq!(free_hashmap(&mut registry, c), Ok(()));
    assert_eq!(create_hashmap(&mut registry), Some(Handle { slot: 2, generation: 2 }));
    assert_eq!(create_hashmap(&mut registry), Some(Handle { slot: 0, generation: 2 }));
    assert_eq!(create_hashmap(&mut registry), Some(Handle { slot: 3, generation: 1 }));
    assert_eq!(registry.status(a), HandleStatus::Destroyed);
    assert_eq!(registry.status(b), HandleStatus::Live);
    assert_eq!(registry.status(c), HandleStatus::Destroyed);
}

#[test]
fn handle_bits_round_trip() {
    for bits in [0u64, 1, 0xffff_ffff, 1 << 32, 0x1234_5678_9abc_def0, u64::MAX] {
        assert_eq!(Handle::from_bits(bits).to_bits(), bits);
    }
    let mut registry = Registry::new();
    let map = create_hashmap(&mut registry).unwrap();
    assert_eq!(Handle::from_bits(map.to_bits()), map);
}
