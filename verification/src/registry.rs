//! The registry that issues handles and tells live ones from stale ones.
//!
//! Maps live in numbered slots. A slot serves one tenant after another, and
//! counts them: the handle of a tenant holds the slot's number and the tenant's
//! generation. When a tenant leaves, every handle with its generation is stale
//! for good, because the slot never goes back to a generation it has used.
use crate::handle::Handle;
use crate::string_map::StringMap;
use vstd::prelude::*;

verus! {

/// Where a handle stands in the life of the map it names.
#[derive(Clone, Copy, Debug, PartialEq, Eq, Structural)]
pub enum HandleStatus {
    /// The registry has not issued this handle.
    Unissued,
    /// The handle names a map that can be used.
    Live,
    /// The map that the handle named was destroyed.
    Destroyed,
}

/// Why a handle was turned down.
#[derive(Clone, Copy, Debug, PartialEq, Eq, Structural)]
pub enum HandleError {
    /// The registry has not issued this handle.
    Unissued,
    /// The map that the handle named was destroyed.
    Destroyed,
}

/// The most slots a registry can have: one for each value of a handle's slot number.
pub open spec fn slot_limit() -> nat {
    0x1_0000_0000
}

/// What a registry holds, as a mathematical value.
#[verifier::ext_equal]
pub struct RegistryView {
    /// The maps that can be used, each under its handle.
    pub live: Map<Handle, Map<Seq<char>, Seq<char>>>,
    /// The handles whose maps were destroyed.
    pub destroyed: Set<Handle>,
    /// The handles under which the vacated slots will be used again, the next
    /// one to be issued last.
    pub reusable: Seq<Handle>,
    /// The number of slots made so far.
    pub slots: nat,
}

impl RegistryView {
    /// Where `handle` stands.
    pub open spec fn status(self, handle: Handle) -> HandleStatus {
        if self.live.contains_key(handle) {
            HandleStatus::Live
        } else if self.destroyed.contains(handle) {
            HandleStatus::Destroyed
        } else {
            HandleStatus::Unissued
        }
    }

    /// The answer to a request that needs `handle` to be live.
    pub open spec fn check(self, handle: Handle) -> Result<(), HandleError> {
        match self.status(handle) {
            HandleStatus::Live => Ok(()),
            HandleStatus::Destroyed => Err(HandleError::Destroyed),
            HandleStatus::Unissued => Err(HandleError::Unissued),
        }
    }

    /// The handle that the next map will be issued under: that of the slot
    /// vacated last, else the first of a new slot, else none.
    pub open spec fn next_handle(self) -> Option<Handle> {
        if self.reusable.len() > 0 {
            Some(self.reusable.last())
        } else if self.slots < slot_limit() {
            Some(Handle { slot: self.slots as u32, generation: 1 })
        } else {
            None
        }
    }

    /// The registry after it was asked to take `map` in.
    pub open spec fn with_map(self, map: Map<Seq<char>, Seq<char>>) -> RegistryView {
        match self.next_handle() {
            Some(handle) => RegistryView {
                live: self.live.insert(handle, map),
                destroyed: self.destroyed,
                reusable: if self.reusable.len() > 0 {
                    self.reusable.drop_last()
                } else {
                    self.reusable
                },
                slots: if self.reusable.len() > 0 {
                    self.slots
                } else {
                    self.slots + 1
                },
            },
            None => self,
        }
    }

    /// The registry after `key` was bound to `value` in the map that `handle` names.
    pub open spec fn with_entry(
        self,
        handle: Handle,
        key: Seq<char>,
        value: Seq<char>,
    ) -> RegistryView {
        RegistryView {
            live: self.live.insert(handle, self.live[handle].insert(key, value)),
            destroyed: self.destroyed,
            reusable: self.reusable,
            slots: self.slots,
        }
    }

    /// The registry after the map that `handle` names was destroyed. The slot
    /// can be used again unless this was its last generation.
    pub open spec fn without(self, handle: Handle) -> RegistryView {
        RegistryView {
            live: self.live.remove(handle),
            destroyed: self.destroyed.insert(handle),
            reusable: if handle.generation == u32::MAX {
                self.reusable
            } else {
                self.reusable.push(
                    Handle { slot: handle.slot, generation: (handle.generation + 1) as u32 },
                )
            },
            slots: self.slots,
        }
    }

    /// What holds of every registry: no handle is both live and destroyed; a
    /// handle that was issued names a slot that was made and has a generation
    /// other than zero; every live map is finite; and the handles kept for
    /// reuse have not been issued.
    pub open spec fn wf(self) -> bool {
        &&& self.slots <= slot_limit()
        &&& forall|handle: Handle| #[trigger]
            self.live.contains_key(handle) ==> {
                &&& !self.destroyed.contains(handle)
                &&& handle.slot < self.slots
                &&& handle.generation != 0
                &&& self.live[handle].dom().finite()
            }
        &&& forall|handle: Handle| #[trigger]
            self.destroyed.contains(handle) ==> handle.slot < self.slots && handle.generation != 0
        &&& forall|j: int|
            0 <= j < self.reusable.len() ==> {
                &&& self.status(#[trigger] self.reusable[j]) is Unissued
                &&& self.reusable[j].generation != 0
            }
    }

    /// The next handle to be issued is one that was never issued, and is not null.
    pub proof fn lemma_next_handle_is_new(self)
        requires
            self.wf(),
        ensures
            self.next_handle() matches Some(handle) ==> self.status(handle) is Unissued
                && !handle.is_null(),
    {
        if let Some(handle) = self.next_handle() {
            handle.lemma_null();
        }
    }
}

/// One slot: the generation it has reached, and its tenant.
///
/// With a tenant, `generation` is the tenant's. Without one, it is the
/// generation of the next tenant, or zero when the slot has used them all.
struct Slot {
    generation: u32,
    map: Option<StringMap>,
}

/// Owns the maps and issues the handles that name them.
pub struct Registry {
    slots: Vec<Slot>,
    vacant: Vec<u32>,
}

impl View for Registry {
    type V = RegistryView;

    closed spec fn view(&self) -> RegistryView {
        RegistryView {
            live: Map::new(
                |handle: Handle| self.slot_status(handle) is Live,
                |handle: Handle| self.slots@[handle.slot as int].map->0@,
            ),
            destroyed: Set::new(|handle: Handle| self.slot_status(handle) is Destroyed),
            reusable: Seq::new(
                self.vacant@.len(),
                |j: int|
                    Handle {
                        slot: self.vacant@[j],
                        generation: self.slots@[self.vacant@[j] as int].generation,
                    },
            ),
            slots: self.slots@.len(),
        }
    }
}

impl Registry {
    /// Where `handle` stands, read off its slot.
    closed spec fn slot_status(&self, handle: Handle) -> HandleStatus {
        if handle.generation == 0 || handle.slot >= self.slots@.len() {
            HandleStatus::Unissued
        } else {
            let slot = self.slots@[handle.slot as int];
            if slot.map is Some {
                if handle.generation == slot.generation {
                    HandleStatus::Live
                } else if handle.generation < slot.generation {
                    HandleStatus::Destroyed
                } else {
                    HandleStatus::Unissued
                }
            } else if slot.generation == 0 || handle.generation < slot.generation {
                HandleStatus::Destroyed
            } else {
                HandleStatus::Unissued
            }
        }
    }

    /// The slot at `index` has no tenant and has generations left.
    closed spec fn can_reuse(&self, index: u32) -> bool {
        &&& index < self.slots@.len()
        &&& self.slots@[index as int].map is None
        &&& self.slots@[index as int].generation != 0
    }

    /// The registry's own invariant. It holds of every registry that `new` made,
    /// whatever was done with it since.
    pub closed spec fn wf(&self) -> bool {
        &&& self.slots@.len() <= slot_limit()
        &&& forall|i: int|
            0 <= i < self.slots@.len() ==> match (#[trigger] self.slots@[i]).map {
                Some(map) => map.wf() && self.slots@[i].generation != 0,
                None => true,
            }
        &&& forall|j: int|
            0 <= j < self.vacant@.len() ==> self.can_reuse(#[trigger] self.vacant@[j])
        &&& forall|j: int, k: int|
            0 <= j < k < self.vacant@.len() ==> self.vacant@[j] != self.vacant@[k]
    }

    /// The view of a well-formed registry is well formed.
    pub proof fn lemma_view_wf(&self)
        requires
            self.wf(),
        ensures
            self@.wf(),
    {
        assert forall|handle: Handle| #[trigger]
            self@.live.contains_key(handle) implies self@.live[handle].dom().finite() by {
            self.slots@[handle.slot as int].map->0.lemma_finite();
        }
    }

    /// A registry with no maps, which has issued no handle.
    pub fn new() -> (registry: Self)
        ensures
            registry.wf(),
            registry@ == (RegistryView {
                live: Map::empty(),
                destroyed: Set::empty(),
                reusable: Seq::empty(),
                slots: 0,
            }),
    {
        let registry = Registry { slots: Vec::new(), vacant: Vec::new() };
        assert(registry@ =~= (RegistryView {
            live: Map::empty(),
            destroyed: Set::empty(),
            reusable: Seq::empty(),
            slots: 0,
        }));
        registry
    }

    /// Takes `map` in and issues the handle that names it from now on.
    ///
    /// The handle is one that this registry has never issued. Nothing is issued
    /// only when no slot can be reused and none can be added; `map` is then dropped.
    pub fn allocate(&mut self, map: StringMap) -> (issued: Option<Handle>)
        requires
            old(self).wf(),
            map.wf(),
        ensures
            final(self).wf(),
            issued == old(self)@.next_handle(),
            final(self)@ == old(self)@.with_map(map@),
    {
        match self.vacant.pop() {
            Some(index) => {
                let generation = self.slots[index as usize].generation;
                self.slots[index as usize].map = Some(map);
                let handle = Handle { slot: index, generation };
                proof {
                    assert(final(self)@ =~= old(self)@.with_map(map@));
                }
                Some(handle)
            },
            None => {
                if self.slots.len() <= u32::MAX as usize {
                    let index = self.slots.len() as u32;
                    self.slots.push(Slot { generation: 1, map: Some(map) });
                    let handle = Handle { slot: index, generation: 1 };
                    proof {
                        assert(final(self)@ =~= old(self)@.with_map(map@));
                    }
                    Some(handle)
                } else {
                    proof {
                        assert(final(self)@ =~= old(self)@);
                    }
                    None
                }
            },
        }
    }

    /// Gives up the map that `handle` names, and makes the handle stale for good.
    ///
    /// A handle that is not live is turned down, and nothing changes.
    pub fn reclaim(&mut self, handle: Handle) -> (res: Result<StringMap, HandleError>)
        requires
            old(self).wf(),
        ensures
            final(self).wf(),
            match res {
                Ok(map) => {
                    &&& old(self)@.status(handle) is Live
                    &&& map.wf()
                    &&& map@ == old(self)@.live[handle]
                    &&& final(self)@ == old(self)@.without(handle)
                },
                Err(e) => old(self)@.check(handle) == Err::<(), HandleError>(e) && final(self)@
                    == old(self)@,
            },
    {
        match self.status(handle) {
            HandleStatus::Live => {
                let index = handle.slot as usize;
                let map = self.slots[index].map.take().unwrap();
                let next = if handle.generation == u32::MAX {
                    0
                } else {
                    handle.generation + 1
                };
                self.slots[index].generation = next;
                if next != 0 {
                    self.vacant.push(handle.slot);
                }
                proof {
                    assert(final(self)@ =~= old(self)@.without(handle));
                }
                Ok(map)
            },
            HandleStatus::Destroyed => Err(HandleError::Destroyed),
            HandleStatus::Unissued => Err(HandleError::Unissued),
        }
    }

    /// Binds `key` to `value` in the map that `handle` names, replacing what
    /// `key` was bound to there. No other map changes.
    ///
    /// A handle that is not live is turned down, and nothing changes.
    pub fn insert(&mut self, handle: Handle, key: String, value: String) -> (res: Result<
        (),
        HandleError,
    >)
        requires
            old(self).wf(),
        ensures
            final(self).wf(),
            res == old(self)@.check(handle),
            match res {
                Ok(_) => final(self)@ == old(self)@.with_entry(handle, key@, value@),
                Err(_) => final(self)@ == old(self)@,
            },
    {
        match self.status(handle) {
            HandleStatus::Live => {
                let index = handle.slot as usize;
                let mut map = self.slots[index].map.take().unwrap();
                map.insert(key, value);
                self.slots[index].map = Some(map);
                proof {
                    assert(final(self)@ =~= old(self)@.with_entry(handle, key@, value@));
                }
                Ok(())
            },
            HandleStatus::Destroyed => Err(HandleError::Destroyed),
            HandleStatus::Unissued => Err(HandleError::Unissued),
        }
    }

    /// The map that `handle` names.
    fn tenant(&self, handle: Handle) -> (res: Result<&StringMap, HandleError>)
        requires
            self.wf(),
        ensures
            match res {
                Ok(map) => {
                    &&& self@.status(handle) is Live
                    &&& map.wf()
                    &&& map@ == self@.live[handle]
                },
                Err(e) => self@.check(handle) == Err::<(), HandleError>(e),
            },
    {
        if handle.generation == 0 || handle.slot as usize >= self.slots.len() {
            return Err(HandleError::Unissued);
        }
        let slot = &self.slots[handle.slot as usize];
        match &slot.map {
            Some(map) => {
                if handle.generation == slot.generation {
                    Ok(map)
                } else if handle.generation < slot.generation {
                    Err(HandleError::Destroyed)
                } else {
                    Err(HandleError::Unissued)
                }
            },
            None => {
                if slot.generation == 0 || handle.generation < slot.generation {
                    Err(HandleError::Destroyed)
                } else {
                    Err(HandleError::Unissued)
                }
            },
        }
    }

    /// Where `handle` stands.
    pub fn status(&self, handle: Handle) -> (status: HandleStatus)
        requires
            self.wf(),
        ensures
            status == self@.status(handle),
    {
        match self.tenant(handle) {
            Ok(_) => HandleStatus::Live,
            Err(HandleError::Destroyed) => HandleStatus::Destroyed,
            Err(HandleError::Unissued) => HandleStatus::Unissued,
        }
    }

    /// The number of entries of the map that `handle` names.
    pub fn entry_count(&self, handle: Handle) -> (res: Result<usize, HandleError>)
        requires
            self.wf(),
        ensures
            match res {
                Ok(count) => self@.status(handle) is Live && count == self@.live[handle].len(),
                Err(e) => self@.check(handle) == Err::<(), HandleError>(e),
            },
    {
        match self.tenant(handle) {
            Ok(map) => Ok(map.len()),
            Err(e) => Err(e),
        }
    }

    /// What `key` is bound to in the map that `handle` names, if anything.
    pub fn lookup(&self, handle: Handle, key: &str) -> (res: Result<Option<&String>, HandleError>)
        requires
            self.wf(),
        ensures
            match res {
                Ok(Some(value)) => {
                    &&& self@.status(handle) is Live
                    &&& self@.live[handle].contains_key(key@)
                    &&& value@ == self@.live[handle][key@]
                },
                Ok(None) => self@.status(handle) is Live && !self@.live[handle].contains_key(key@),
                Err(e) => self@.check(handle) == Err::<(), HandleError>(e),
            },
    {
        match self.tenant(handle) {
            Ok(map) => Ok(map.get(key)),
            Err(e) => Err(e),
        }
    }
}

} // verus!
