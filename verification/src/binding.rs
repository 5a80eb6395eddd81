//! The three operations of the binding: create a map, set an entry, destroy
//! the map.
//!
//! A caller holds nothing but a handle. Each operation names the registry that
//! owns the maps, checks the handle against it, and answers a stale or unknown
//! handle with an error instead of touching memory that is gone.
use crate::handle::Handle;
use crate::registry::{HandleError, Registry, RegistryView};
use crate::string_map::StringMap;
use crate::text::{
    lemma_marshalled_round_trip, marshal_text, marshalled, readable, terminator, TextError,
};
use vstd::prelude::*;
use vstd::utf8::encode_utf8;

verus! {

/// Why an entry was not set.
#[derive(Clone, Copy, Debug, PartialEq, Eq, Structural)]
pub enum SetError {
    /// The key could not be turned into text.
    Key(TextError),
    /// The value could not be turned into text.
    Value(TextError),
    /// The handle does not name a live map.
    Handle(HandleError),
}

/// The answer to a request to set an entry: the key is looked at first, then
/// the value, then the handle.
pub open spec fn set_value_result(
    before: RegistryView,
    map: Handle,
    key: Option<Seq<u8>>,
    value: Option<Seq<u8>>,
) -> Result<(), SetError> {
    match (marshalled(key), marshalled(value), before.check(map)) {
        (Err(e), _, _) => Err(SetError::Key(e)),
        (Ok(_), Err(e), _) => Err(SetError::Value(e)),
        (Ok(_), Ok(_), Err(e)) => Err(SetError::Handle(e)),
        (Ok(_), Ok(_), Ok(_)) => Ok(()),
    }
}

/// The registry after a request to set an entry: the entry is in the map that
/// the handle names where the request is granted, and nothing has changed where
/// it is turned down.
pub open spec fn set_value_effect(
    before: RegistryView,
    map: Handle,
    key: Option<Seq<u8>>,
    value: Option<Seq<u8>>,
) -> RegistryView {
    if set_value_result(before, map, key, value) is Ok {
        before.with_entry(map, marshalled(key)->Ok_0, marshalled(value)->Ok_0)
    } else {
        before
    }
}

/// Makes a new, empty map and issues the handle that names it.
///
/// The handle has never been issued by this registry and is not null. Nothing
/// is issued only when no slot can be reused and none can be added.
pub fn create_hashmap(registry: &mut Registry) -> (issued: Option<Handle>)
    requires
        old(registry).wf(),
    ensures
        final(registry).wf(),
        issued == old(registry)@.next_handle(),
        final(registry)@ == old(registry)@.with_map(Map::empty()),
        issued matches Some(map) ==> old(registry)@.status(map) is Unissued && !map.is_null(),
{
    proof {
        registry.lemma_view_wf();
        registry@.lemma_next_handle_is_new();
    }
    registry.allocate(StringMap::new())
}

/// Binds the text behind `key` to the text behind `value` in the map that
/// `map` names, replacing what the key was bound to.
///
/// `key` and `value` are what can be read through the caller's two pointers.
/// The request is turned down, and nothing changes, when either is not a
/// NUL-terminated UTF-8 string or when `map` is not live.
pub fn hashmap_set_value(
    registry: &mut Registry,
    map: Handle,
    key: Option<&[u8]>,
    value: Option<&[u8]>,
) -> (res: Result<(), SetError>)
    requires
        old(registry).wf(),
    ensures
        final(registry).wf(),
        res == set_value_result(old(registry)@, map, readable(key), readable(value)),
        final(registry)@ == set_value_effect(old(registry)@, map, readable(key), readable(value)),
{
    let k = match marshal_text(key) {
        Ok(k) => k,
        Err(e) => {
            return Err(SetError::Key(e));
        },
    };
    let v = match marshal_text(value) {
        Ok(v) => v,
        Err(e) => {
            return Err(SetError::Value(e));
        },
    };
    match registry.insert(map, k, v) {
        Ok(()) => Ok(()),
        Err(e) => Err(SetError::Handle(e)),
    }
}

/// Destroys the map that `map` names. The handle is stale from then on.
///
/// A handle that is not live is turned down, and nothing changes: destroying a
/// map twice is an error, not a second release.
pub fn free_hashmap(registry: &mut Registry, map: Handle) -> (res: Result<(), HandleError>)
    requires
        old(registry).wf(),
    ensures
        final(registry).wf(),
        res == old(registry)@.check(map),
        final(registry)@ == (if res is Ok {
            old(registry)@.without(map)
        } else {
            old(registry)@
        }),
{
    match registry.reclaim(map) {
        Ok(_) => Ok(()),
        Err(e) => Err(e),
    }
}

/// A map that was just created can be destroyed: the request is granted, the
/// maps that were live before are all that is left, and the handle is spent.
pub proof fn lemma_create_then_destroy(before: RegistryView)
    requires
        before.wf(),
        before.next_handle() is Some,
    ensures
        ({
            let map = before.next_handle()->0;
            let created = before.with_map(Map::empty());
            &&& created.check(map) is Ok
            &&& created.live[map] == Map::<Seq<char>, Seq<char>>::empty()
            &&& created.without(map).live == before.live
            &&& created.without(map).destroyed == before.destroyed.insert(map)
            &&& created.without(map).status(map) is Destroyed
        }),
{
    before.lemma_next_handle_is_new();
    let map = before.next_handle()->0;
    assert(before.with_map(Map::empty()).without(map).live =~= before.live);
}

/// Setting a key twice leaves one entry for it, which holds the second value:
/// the registry is as if only the second request had been made, and the second
/// request adds no entry to the map.
pub proof fn lemma_set_value_overwrites(
    before: RegistryView,
    map: Handle,
    key: Option<Seq<u8>>,
    first: Option<Seq<u8>>,
    second: Option<Seq<u8>>,
)
    requires
        set_value_result(before, map, key, first) is Ok,
        marshalled(second) is Ok,
    ensures
        ({
            let once = set_value_effect(before, map, key, first);
            let twice = set_value_effect(once, map, key, second);
            &&& set_value_result(once, map, key, second) is Ok
            &&& twice == set_value_effect(before, map, key, second)
            &&& twice.live[map].contains_key(marshalled(key)->Ok_0)
            &&& twice.live[map][marshalled(key)->Ok_0] == marshalled(second)->Ok_0
            &&& twice.live[map].dom() == once.live[map].dom()
            &&& twice.live[map].len() == once.live[map].len()
        }),
{
    let once = set_value_effect(before, map, key, first);
    let twice = set_value_effect(once, map, key, second);
    let k = marshalled(key)->Ok_0;
    let entries = before.live[map];
    assert(entries.insert(k, marshalled(first)->Ok_0).insert(k, marshalled(second)->Ok_0)
        =~= entries.insert(k, marshalled(second)->Ok_0));
    assert(twice =~= set_value_effect(before, map, key, second));
    assert(twice.live[map].dom() =~= once.live[map].dom());
}

/// A granted request adds one entry when the key is new to the map and none
/// when it is not, so a map has as many entries as distinct keys were set.
pub proof fn lemma_set_value_counts_keys(
    before: RegistryView,
    map: Handle,
    key: Option<Seq<u8>>,
    value: Option<Seq<u8>>,
)
    requires
        before.wf(),
        set_value_result(before, map, key, value) is Ok,
    ensures
        ({
            let after = set_value_effect(before, map, key, value);
            let entries = before.live[map];
            &&& after.live[map].dom() == entries.dom().insert(marshalled(key)->Ok_0)
            &&& after.live[map].len() == if entries.contains_key(marshalled(key)->Ok_0) {
                entries.len()
            } else {
                entries.len() + 1
            }
        }),
{
    let after = set_value_effect(before, map, key, value);
    assert(after.live[map].dom() =~= before.live[map].dom().insert(marshalled(key)->Ok_0));
}

/// What is asked of one handle changes nothing for any other: creating a map,
/// setting an entry and destroying a map leave every other handle where it
/// stood, and every other live map as it was.
pub proof fn lemma_other_handles_untouched(
    before: RegistryView,
    map: Handle,
    other: Handle,
    key: Option<Seq<u8>>,
    value: Option<Seq<u8>>,
)
    requires
        other != map,
    ensures
        before.next_handle() == Some(map) ==> before.with_map(Map::empty()).status(other)
            == before.status(other),
        set_value_effect(before, map, key, value).status(other) == before.status(other),
        before.without(map).status(other) == before.status(other),
        before.live.contains_key(other) ==> {
            &&& before.next_handle() == Some(map) ==> before.with_map(Map::empty()).live[other]
                == before.live[other]
            &&& set_value_effect(before, map, key, value).live[other] == before.live[other]
            &&& before.without(map).live[other] == before.live[other]
        },
{
}

/// Text that was set comes back as it went in: the key and the value that the
/// map holds encode to the very bytes that stood before the two terminators.
pub proof fn lemma_set_value_keeps_bytes(
    before: RegistryView,
    map: Handle,
    key: Seq<u8>,
    value: Seq<u8>,
)
    requires
        set_value_result(before, map, Some(key), Some(value)) is Ok,
    ensures
        ({
            let after = set_value_effect(before, map, Some(key), Some(value));
            let k = marshalled(Some(key))->Ok_0;
            let v = marshalled(Some(value))->Ok_0;
            &&& after.live[map].contains_key(k)
            &&& after.live[map][k] == v
            &&& terminator(key) is Some
            &&& terminator(value) is Some
            &&& encode_utf8(k) == key.take(terminator(key)->0)
            &&& encode_utf8(v) == value.take(terminator(value)->0)
        }),
{
    lemma_marshalled_round_trip(key);
    lemma_marshalled_round_trip(value);
}

/// A key or a value that is not text is always turned down, whatever the
/// handle, and the registry is left as it was. The key's fault is reported
/// where both are at fault.
pub proof fn lemma_invalid_text_rejected(
    before: RegistryView,
    map: Handle,
    key: Option<Seq<u8>>,
    value: Option<Seq<u8>>,
)
    requires
        marshalled(key) is Err || marshalled(value) is Err,
    ensures
        set_value_effect(before, map, key, value) == before,
        marshalled(key) matches Err(e) ==> set_value_result(before, map, key, value) == Err::<
            (),
            SetError,
        >(SetError::Key(e)),
        marshalled(key) is Ok ==> set_value_result(before, map, key, value) == Err::<
            (),
            SetError,
        >(SetError::Value(marshalled(value)->Err_0)),
{
}

/// Setting an entry moves no handle, whether the request is granted or not:
/// every handle stands where it stood, and the slots are as they were.
pub proof fn lemma_set_value_keeps_status(
    before: RegistryView,
    map: Handle,
    any: Handle,
    key: Option<Seq<u8>>,
    value: Option<Seq<u8>>,
)
    ensures
        set_value_effect(before, map, key, value).status(any) == before.status(any),
        set_value_effect(before, map, key, value).destroyed == before.destroyed,
        set_value_effect(before, map, key, value).reusable == before.reusable,
        set_value_effect(before, map, key, value).slots == before.slots,
{
}

/// A live handle stays live, and names the same entries, until it is the one
/// destroyed: creating a map and destroying another map do not touch it.
pub proof fn lemma_live_until_destroyed(before: RegistryView, live: Handle, other: Handle)
    requires
        before.wf(),
        before.status(live) is Live,
    ensures
        before.with_map(Map::empty()).status(live) is Live,
        before.with_map(Map::empty()).live[live] == before.live[live],
        other != live ==> before.without(other).status(live) is Live,
        other != live ==> before.without(other).live[live] == before.live[live],
        before.without(live).status(live) is Destroyed,
{
    before.lemma_next_handle_is_new();
}

/// A destroyed handle stays destroyed: no later creation, setting or
/// destruction makes it live again, so every later use of it is turned down.
pub proof fn lemma_destroyed_is_final(
    before: RegistryView,
    stale: Handle,
    map: Handle,
    key: Option<Seq<u8>>,
    value: Option<Seq<u8>>,
)
    requires
        before.wf(),
        before.status(stale) is Destroyed,
    ensures
        before.with_map(Map::empty()).status(stale) is Destroyed,
        set_value_effect(before, map, key, value).status(stale) is Destroyed,
        before.without(map).status(stale) is Destroyed,
        set_value_result(before, stale, key, value) is Err,
        before.check(stale) == Err::<(), HandleError>(HandleError::Destroyed),
{
    before.lemma_next_handle_is_new();
}

} // verus!
