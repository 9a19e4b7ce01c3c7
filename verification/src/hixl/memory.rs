//! Reference-counted registration of device memory.
use std::collections::HashMap;
use vstd::prelude::*;

use crate::hixl::error::HixlError;
use crate::hixl::state::{EngineView, HixlEngineState};

verus! {

broadcast use vstd::std_specs::hash::group_hash_axioms;

/// HCCS transfers need addresses that are multiples of this (2 MB).
pub const HCCS_ALIGNMENT: usize = 0x20_0000;

/// The registration tables of an engine.
#[verifier::ext_equal]
pub struct MemTable {
    /// Regions known to the engine: address to (size, reference count).
    pub regions: Map<usize, (usize, usize)>,
    /// Aliases: address to (address of the owning region, reference count).
    pub aliases: Map<usize, (usize, usize)>,
}

/// What is left to do for a registration request.
#[derive(Debug, Clone, Copy, PartialEq, Eq, Structural)]
pub enum RegisterStep {
    /// The request is satisfied; the engine is not called.
    Registered,
    /// Register the region with the engine, then report what it returned.
    /// `misaligned_by` is the offset from the HCCS alignment, where that is a
    /// reason to warn.
    CallEngine { addr: usize, size: usize, misaligned_by: Option<usize> },
}

/// What is left to do for a release request.
#[derive(Debug, Clone, Copy, PartialEq, Eq, Structural)]
pub enum DeregisterStep {
    /// One reference is gone; the engine is not called.
    Released,
    /// The last reference is gone: deregister `addr` with the engine.
    CallEngine { addr: usize },
    /// The address was not registered; nothing changed.
    NotRegistered,
}

/// Whether `[addr, addr + size)` lies inside `[owner, owner + owner_size)`.
pub open spec fn range_inside(owner: usize, owner_size: usize, addr: usize, size: usize) -> bool {
    owner <= addr && addr + size <= owner + owner_size
}

/// The offset from the HCCS alignment, where it matters.
pub open spec fn misalignment(force_roce: bool, addr: usize) -> Option<usize> {
    if !force_roce && addr % HCCS_ALIGNMENT != 0 {
        Some(addr % HCCS_ALIGNMENT)
    } else {
        None
    }
}

/// `table` with one more reference to `key`, if it is there.
pub open spec fn retained(table: Map<usize, (usize, usize)>, key: usize) -> Map<
    usize,
    (usize, usize),
> {
    if table.contains_key(key) {
        table.insert(key, (table[key].0, (table[key].1 + 1) as usize))
    } else {
        table
    }
}

/// `table` with one reference to `key` fewer, if it is there; without the entry
/// when that was the last one.
pub open spec fn released(table: Map<usize, (usize, usize)>, key: usize) -> Map<
    usize,
    (usize, usize),
> {
    if !table.contains_key(key) {
        table
    } else if table[key].1 > 1 {
        table.insert(key, (table[key].0, (table[key].1 - 1) as usize))
    } else {
        table.remove(key)
    }
}

impl MemTable {
    /// Tables without entries.
    pub open spec fn empty() -> MemTable {
        MemTable { regions: Map::empty(), aliases: Map::empty() }
    }

    /// Every entry is referenced, and no address is a region and an alias at once.
    pub open spec fn wf(self) -> bool {
        &&& self.regions.dom().finite()
        &&& self.aliases.dom().finite()
        &&& forall|a: usize| #[trigger] self.regions.contains_key(a) ==> self.regions[a].1 >= 1
        &&& forall|a: usize| #[trigger] self.aliases.contains_key(a) ==> self.aliases[a].1 >= 1
        &&& forall|a: usize|
            self.regions.contains_key(a) ==> !#[trigger] self.aliases.contains_key(a)
    }

    /// Whether `addr` is neither a region nor an alias.
    pub open spec fn vacant(self, addr: usize) -> bool {
        !self.regions.contains_key(addr) && !self.aliases.contains_key(addr)
    }

    /// Whether `owner` is a registered region that holds the range.
    pub open spec fn holds(self, owner: usize, addr: usize, size: usize) -> bool {
        self.regions.contains_key(owner) && range_inside(
            owner,
            self.regions[owner].0,
            addr,
            size,
        )
    }

    /// Whether some registered region holds the range.
    pub open spec fn covered(self, addr: usize, size: usize) -> bool {
        exists|owner: usize| #[trigger] self.holds(owner, addr, size)
    }

    /// The counters that a registration of the range may increment are not at
    /// their limit.
    pub open spec fn has_room(self, alias_enabled: bool, addr: usize, size: usize) -> bool {
        &&& self.regions.contains_key(addr) ==> self.regions[addr].1 < usize::MAX
        &&& self.aliases.contains_key(addr) ==> {
            &&& self.aliases[addr].1 < usize::MAX
            &&& self.regions.contains_key(self.aliases[addr].0)
                ==> self.regions[self.aliases[addr].0].1 < usize::MAX
        }
        &&& alias_enabled && self.vacant(addr) ==> forall|owner: usize| #[trigger]
            self.holds(owner, addr, size) ==> self.regions[owner].1 < usize::MAX
    }

    /// One more reference to the region at `addr`.
    pub open spec fn retain_region(self, addr: usize) -> MemTable {
        MemTable { regions: retained(self.regions, addr), aliases: self.aliases }
    }

    /// One more reference to the alias at `addr`, and with it to its owner.
    pub open spec fn retain_alias(self, addr: usize) -> MemTable {
        MemTable {
            regions: retained(self.regions, self.aliases[addr].0),
            aliases: retained(self.aliases, addr),
        }
    }

    /// A first reference to `addr` as an alias of `owner`.
    pub open spec fn add_alias(self, addr: usize, owner: usize) -> MemTable {
        MemTable {
            regions: retained(self.regions, owner),
            aliases: self.aliases.insert(addr, (owner, 1)),
        }
    }

    /// A region that the engine has just registered.
    pub open spec fn add_region(self, addr: usize, size: usize) -> MemTable {
        MemTable { regions: self.regions.insert(addr, (size, 1)), aliases: self.aliases }
    }

    /// Whether the tables satisfy a registration of the range by themselves.
    pub open spec fn satisfies(self, alias_enabled: bool, addr: usize, size: usize) -> bool {
        !self.vacant(addr) || alias_enabled && self.covered(addr, size)
    }

    /// How a registration request moves the tables from `self` to `post`, and
    /// what is left to do then. Where several regions hold the range, any of
    /// them may become the owner.
    pub open spec fn register(
        self,
        alias_enabled: bool,
        force_roce: bool,
        addr: usize,
        size: usize,
        post: MemTable,
        step: RegisterStep,
    ) -> bool {
        if self.regions.contains_key(addr) {
            post == self.retain_region(addr) && step == RegisterStep::Registered
        } else if self.aliases.contains_key(addr) {
            post == self.retain_alias(addr) && step == RegisterStep::Registered
        } else if alias_enabled && self.covered(addr, size) {
            &&& exists|owner: usize| #[trigger]
                self.holds(owner, addr, size) && post == self.add_alias(addr, owner)
            &&& step == RegisterStep::Registered
        } else {
            &&& post == self
            &&& step == RegisterStep::CallEngine {
                addr,
                size,
                misaligned_by: misalignment(force_roce, addr),
            }
        }
    }

    /// The tables after one release of `addr`.
    pub open spec fn deregister(self, addr: usize) -> MemTable {
        if self.aliases.contains_key(addr) {
            MemTable {
                regions: released(self.regions, self.aliases[addr].0),
                aliases: released(self.aliases, addr),
            }
        } else {
            MemTable { regions: released(self.regions, addr), aliases: self.aliases }
        }
    }

    /// The region that a release of `addr` takes a reference from.
    pub open spec fn owner_of(self, addr: usize) -> usize {
        if self.aliases.contains_key(addr) {
            self.aliases[addr].0
        } else {
            addr
        }
    }

    /// What is left to do after one release of `addr`.
    pub open spec fn deregister_step(self, addr: usize) -> DeregisterStep {
        let owner = self.owner_of(addr);
        if self.regions.contains_key(owner) && self.regions[owner].1 <= 1 {
            DeregisterStep::CallEngine { addr: owner }
        } else if self.regions.contains_key(owner) || self.aliases.contains_key(addr) {
            DeregisterStep::Released
        } else {
            DeregisterStep::NotRegistered
        }
    }
}

impl HixlEngineState {
    /// Some registered region that holds the range, if there is one.
    pub fn find_containing_owner(&self, addr: usize, size: usize) -> (owner: Option<usize>)
        ensures
            match owner {
                Some(o) => self@.mem.holds(o, addr, size),
                None => !self@.mem.covered(addr, size),
            },
    {
        let ghost mem = self@.mem;
        for entry in it: self.registered_addrs.iter()
            invariant
                mem == self@.mem,
                it.seq().len() == mem.regions.dom().len(),
                forall|k: usize| #[trigger]
                    mem.regions.contains_key(k) ==> it.seq().contains((&k, &mem.regions[k])),
                forall|i: int|
                    #![trigger it.seq()[i]]
                    0 <= i < it.seq().len() ==> mem.regions.contains_key(*it.seq()[i].0)
                        && mem.regions[*it.seq()[i].0] == *it.seq()[i].1,
                forall|i: int|
                    0 <= i < it.index() ==> !mem.holds(*(#[trigger] it.seq()[i]).0, addr, size),
        {
            let owner: usize = *entry.0;
            let owner_size: usize = entry.1.0;
            if owner <= addr && size <= owner_size && addr - owner <= owner_size - size {
                return Some(owner);
            }
        }
        None
    }

    /// Tests whether the counters that a registration of the range may increment are
    /// below their limit.
    pub fn has_room(&self, addr: usize, size: usize) -> (room: bool)
        ensures
            room == self@.mem.has_room(self@.alias_enabled, addr, size),
    {
        let region: Option<(usize, usize)> = lookup(&self.registered_addrs, addr);
        let alias: Option<(usize, usize)> = lookup(&self.aliased_addrs, addr);
        if let Some((_, count)) = region {
            if count == usize::MAX {
                return false;
            }
        }
        if let Some((owner, count)) = alias {
            if count == usize::MAX {
                return false;
            }
            if let Some((_, owner_count)) = lookup(&self.registered_addrs, owner) {
                if owner_count == usize::MAX {
                    return false;
                }
            }
        }
        if !self.alias_enabled || region.is_some() || alias.is_some() {
            return true;
        }
        let ghost mem = self@.mem;
        for entry in it: self.registered_addrs.iter()
            invariant
                mem == self@.mem,
                self@.alias_enabled,
                mem.vacant(addr),
                forall|k: usize| #[trigger]
                    mem.regions.contains_key(k) ==> it.seq().contains((&k, &mem.regions[k])),
                forall|i: int|
                    #![trigger it.seq()[i]]
                    0 <= i < it.seq().len() ==> mem.regions.contains_key(*it.seq()[i].0)
                        && mem.regions[*it.seq()[i].0] == *it.seq()[i].1,
                forall|i: int|
                    0 <= i < it.index() && mem.holds(*(#[trigger] it.seq()[i]).0, addr, size)
                        ==> mem.regions[*it.seq()[i].0].1 < usize::MAX,
        {
            let owner: usize = *entry.0;
            let owner_size: usize = entry.1.0;
            if owner <= addr && size <= owner_size && addr - owner <= owner_size - size
                && entry.1.1 == usize::MAX {
                assert(mem.holds(owner, addr, size));
                return false;
            }
        }
        true
    }

    /// Records `addr` as an alias of the region at `owner`.
    pub fn add_alias(&mut self, addr: usize, owner: usize)
        requires
            old(self).wf(),
            old(self)@.mem.regions.contains_key(owner),
            old(self)@.mem.regions[owner].1 < usize::MAX,
            !old(self)@.mem.regions.contains_key(addr),
        ensures
            final(self).wf(),
            final(self)@ == (EngineView { mem: old(self)@.mem.add_alias(addr, owner), ..old(self)@ }),
    {
        self.aliased_addrs.insert(addr, (owner, 1));
        self.retain_region(owner);
    }

    /// Adds a reference to the region at `addr`, if there is one.
    fn retain_region(&mut self, addr: usize) -> (found: bool)
        requires
            old(self).wf(),
            old(self)@.mem.regions.contains_key(addr) ==> old(self)@.mem.regions[addr].1
                < usize::MAX,
        ensures
            final(self).wf(),
            final(self)@ == (EngineView { mem: old(self)@.mem.retain_region(addr), ..old(self)@ }),
            found == old(self)@.mem.regions.contains_key(addr),
    {
        let entry: Option<(usize, usize)> = lookup(&self.registered_addrs, addr);
        match entry {
            Some((size, count)) => {
                self.registered_addrs.insert(addr, (size, count + 1));
                true
            },
            None => false,
        }
    }

    /// Adds a reference to the alias at `addr` and to its owner, if there is one.
    fn retain_alias(&mut self, addr: usize) -> (found: bool)
        requires
            old(self).wf(),
            old(self)@.mem.has_room(false, addr, 0),
        ensures
            final(self).wf(),
            found == old(self)@.mem.aliases.contains_key(addr),
            found ==> final(self)@ == (EngineView {
                mem: old(self)@.mem.retain_alias(addr),
                ..old(self)@
            }),
            !found ==> final(self)@ == old(self)@,
    {
        let entry: Option<(usize, usize)> = lookup(&self.aliased_addrs, addr);
        match entry {
            Some((owner, count)) => {
                self.aliased_addrs.insert(addr, (owner, count + 1));
                self.retain_region(owner);
                true
            },
            None => false,
        }
    }

    /// Takes a reference from the region at `addr`.
    fn release_region(&mut self, addr: usize) -> (step: DeregisterStep)
        requires
            old(self).wf(),
        ensures
            final(self).wf(),
            final(self)@ == (EngineView {
                mem: MemTable {
                    regions: released(old(self)@.mem.regions, addr),
                    aliases: old(self)@.mem.aliases,
                },
                ..old(self)@
            }),
            step == (if !old(self)@.mem.regions.contains_key(addr) {
                DeregisterStep::NotRegistered
            } else if old(self)@.mem.regions[addr].1 > 1 {
                DeregisterStep::Released
            } else {
                DeregisterStep::CallEngine { addr }
            }),
    {
        let entry: Option<(usize, usize)> = lookup(&self.registered_addrs, addr);
        match entry {
            Some((size, count)) => {
                if count > 1 {
                    self.registered_addrs.insert(addr, (size, count - 1));
                    DeregisterStep::Released
                } else {
                    self.registered_addrs.remove(&addr);
                    DeregisterStep::CallEngine { addr }
                }
            },
            None => DeregisterStep::NotRegistered,
        }
    }

    /// Takes the decisions of [`register_mem_if_needed`] on an initialised engine.
    pub fn register(&mut self, addr: usize, size: usize) -> (step: RegisterStep)
        requires
            old(self).wf(),
            old(self)@.mem.has_room(old(self)@.alias_enabled, addr, size),
        ensures
            final(self).wf(),
            final(self)@ == (EngineView { mem: final(self)@.mem, ..old(self)@ }),
            old(self)@.mem.register(
                old(self)@.alias_enabled,
                old(self)@.force_roce,
                addr,
                size,
                final(self)@.mem,
                step,
            ),
    {
        if self.retain_region(addr) {
            return RegisterStep::Registered;
        }
        if self.retain_alias(addr) {
            return RegisterStep::Registered;
        }
        if self.alias_enabled {
            let found: Option<usize> = self.find_containing_owner(addr, size);
            if let Some(owner) = found {
                assert(self@.mem.holds(owner, addr, size));
                self.add_alias(addr, owner);
                return RegisterStep::Registered;
            }
        }
        let misaligned_by: Option<usize> = if !self.force_roce && addr % HCCS_ALIGNMENT != 0 {
            Some(addr % HCCS_ALIGNMENT)
        } else {
            None
        };
        RegisterStep::CallEngine { addr, size, misaligned_by }
    }

    /// Takes the decisions of [`deregister_mem`] on an initialised engine.
    pub fn deregister(&mut self, addr: usize) -> (step: DeregisterStep)
        requires
            old(self).wf(),
        ensures
            final(self).wf(),
            final(self)@ == (EngineView { mem: old(self)@.mem.deregister(addr), ..old(self)@ }),
            step == old(self)@.mem.deregister_step(addr),
    {
        let entry: Option<(usize, usize)> = lookup(&self.aliased_addrs, addr);
        match entry {
            Some((owner, count)) => {
                if count > 1 {
                    self.aliased_addrs.insert(addr, (owner, count - 1));
                } else {
                    self.aliased_addrs.remove(&addr);
                }
                match self.release_region(owner) {
                    DeregisterStep::CallEngine { addr: last } => DeregisterStep::CallEngine {
                        addr: last,
                    },
                    _ => DeregisterStep::Released,
                }
            },
            None => self.release_region(addr),
        }
    }
}

/// The entry at `key`, if there is one.
fn lookup(table: &HashMap<usize, (usize, usize)>, key: usize) -> (entry: Option<(usize, usize)>)
    ensures
        entry == (if table@.contains_key(key) {
            Some(table@[key])
        } else {
            None
        }),
{
    match table.get(&key) {
        Some(entry) => Some(*entry),
        None => None,
    }
}

/// Asks for the registration of a device memory region.
///
/// The first request for an address goes to the engine; later ones only count.
/// With aliasing on, a range inside a registered region is counted as an alias
/// of that region instead.
pub fn register_mem_if_needed(
    engine: &mut Option<HixlEngineState>,
    addr: usize,
    size: usize,
) -> (step: Result<RegisterStep, HixlError>)
    requires
        *old(engine) matches Some(state) ==> state.wf() && state@.mem.has_room(
            state@.alias_enabled,
            addr,
            size,
        ),
    ensures
        match (*old(engine), *final(engine)) {
            (Some(pre), Some(post)) => {
                &&& post.wf()
                &&& post@ == (EngineView { mem: post@.mem, ..pre@ })
                &&& step matches Ok(s) && pre@.mem.register(
                    pre@.alias_enabled,
                    pre@.force_roce,
                    addr,
                    size,
                    post@.mem,
                    s,
                )
                &&& step matches Ok(RegisterStep::CallEngine { addr: a, size: s, .. }) ==> a == addr
                    && s == size
            },
            (None, None) => step == Err::<RegisterStep, HixlError>(HixlError::NotInitialised),
            _ => false,
        },
{
    match engine {
        Some(state) => Ok(state.register(addr, size)),
        None => Err(HixlError::NotInitialised),
    }
}

/// Takes what the engine returned for a region that
/// [`register_mem_if_needed`] asked to register. The tables must be as that call
/// left them.
pub fn register_mem_done(
    engine: &mut Option<HixlEngineState>,
    addr: usize,
    size: usize,
    ret: Result<(), i32>,
) -> (result: Result<(), HixlError>)
    requires
        *old(engine) matches Some(state) && state.wf() && state@.mem.vacant(addr),
    ensures
        *final(engine) matches Some(post) && post.wf() && post@ == (match ret {
            Ok(_) => EngineView {
                mem: old(engine).unwrap()@.mem.add_region(addr, size),
                ..old(engine).unwrap()@
            },
            Err(_) => old(engine).unwrap()@,
        }),
        result == (match ret {
            Ok(_) => Ok::<(), HixlError>(()),
            Err(code) => Err(HixlError::RegisterMem { addr, size, ret: code }),
        }),
{
    match ret {
        Ok(()) => {
            match engine {
                Some(state) => {
                    state.registered_addrs.insert(addr, (size, 1));
                },
                None => {},
            }
            Ok(())
        },
        Err(code) => Err(HixlError::RegisterMem { addr, size, ret: code }),
    }
}

/// Gives up one reference to a registered address.
///
/// The region leaves the engine with its last reference. A release of an alias
/// takes a reference from the owning region too.
pub fn deregister_mem(engine: &mut Option<HixlEngineState>, addr: usize) -> (step: Result<
    DeregisterStep,
    HixlError,
>)
    requires
        *old(engine) matches Some(state) ==> state.wf(),
    ensures
        match (*old(engine), *final(engine)) {
            (Some(pre), Some(post)) => {
                &&& post.wf()
                &&& post@ == (EngineView { mem: pre@.mem.deregister(addr), ..pre@ })
                &&& step == Ok::<DeregisterStep, HixlError>(pre@.mem.deregister_step(addr))
            },
            (None, None) => step == Err::<DeregisterStep, HixlError>(HixlError::NotInitialised),
            _ => false,
        },
{
    match engine {
        Some(state) => Ok(state.deregister(addr)),
        None => Err(HixlError::NotInitialised),
    }
}

/// Takes what the engine returned for a deregistration. The address has left the
/// tables by then, so a failure counts as success.
pub fn deregister_mem_done(ret: Result<(), i32>) -> (result: Result<(), HixlError>)
    ensures
        result == Ok::<(), HixlError>(()),
{
    let _: Result<(), i32> = ret;
    Ok(())
}

} // verus!
