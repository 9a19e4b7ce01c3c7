//! What holds of memory registration over several calls.
use vstd::prelude::*;

use crate::hixl::memory::{DeregisterStep, MemTable, RegisterStep};

verus! {

/// The references that the aliases among `keys` hold to `owner`.
pub open spec fn alias_refs_among(
    aliases: Map<usize, (usize, usize)>,
    keys: Set<usize>,
    owner: usize,
) -> nat
    decreases keys.len(),
{
    if keys.finite() && keys.len() > 0 {
        let key = keys.choose();
        refs_of(aliases, key, owner) + alias_refs_among(aliases, keys.remove(key), owner)
    } else {
        0
    }
}

/// The references that the alias at `key` holds to `owner`.
pub open spec fn refs_of(aliases: Map<usize, (usize, usize)>, key: usize, owner: usize) -> nat {
    if aliases[key].0 == owner {
        aliases[key].1 as nat
    } else {
        0
    }
}

impl MemTable {
    /// The references that aliases hold to the region at `owner`.
    pub open spec fn alias_refs(self, owner: usize) -> nat {
        alias_refs_among(self.aliases, self.aliases.dom(), owner)
    }

    /// The references to the region at `owner` that no alias accounts for.
    pub open spec fn direct_refs(self, owner: usize) -> int {
        self.regions[owner].1 - self.alias_refs(owner)
    }

    /// Every alias has its owner, and the owner's count covers its aliases.
    pub open spec fn balanced(self) -> bool {
        &&& self.wf()
        &&& forall|a: usize| #[trigger]
            self.aliases.contains_key(a) ==> self.regions.contains_key(self.aliases[a].0)
        &&& forall|o: usize| #[trigger]
            self.regions.contains_key(o) ==> self.alias_refs(o) <= self.regions[o].1
    }

    /// Whether a release of `addr` answers an earlier registration of `addr`, or
    /// concerns an address that is not registered at all.
    pub open spec fn release_is_owed(self, addr: usize) -> bool {
        self.regions.contains_key(addr) ==> self.direct_refs(addr) >= 1
    }
}

proof fn lemma_refs_pull(
    aliases: Map<usize, (usize, usize)>,
    keys: Set<usize>,
    owner: usize,
    key: usize,
)
    requires
        keys.finite(),
        keys.contains(key),
    ensures
        alias_refs_among(aliases, keys, owner) == refs_of(aliases, key, owner) + alias_refs_among(
            aliases,
            keys.remove(key),
            owner,
        ),
    decreases keys.len(),
{
    let first = keys.choose();
    if first != key {
        lemma_refs_pull(aliases, keys.remove(first), owner, key);
        lemma_refs_pull(aliases, keys.remove(key), owner, first);
        assert(keys.remove(first).remove(key) =~= keys.remove(key).remove(first));
    }
}

proof fn lemma_refs_agree(
    left: Map<usize, (usize, usize)>,
    right: Map<usize, (usize, usize)>,
    keys: Set<usize>,
    owner: usize,
)
    requires
        forall|k: usize| #[trigger] keys.contains(k) ==> left[k] == right[k],
    ensures
        alias_refs_among(left, keys, owner) == alias_refs_among(right, keys, owner),
    decreases keys.len(),
{
    if keys.finite() && keys.len() > 0 {
        let key = keys.choose();
        assert(keys.contains(key));
        lemma_refs_agree(left, right, keys.remove(key), owner);
    }
}

/// No alias among `keys` refers to `owner` exactly when their references add up
/// to nothing.
proof fn lemma_refs_zero(aliases: Map<usize, (usize, usize)>, keys: Set<usize>, owner: usize)
    requires
        keys.finite(),
        forall|k: usize| #[trigger] keys.contains(k) ==> aliases[k].1 >= 1,
    ensures
        alias_refs_among(aliases, keys, owner) == 0 <==> forall|k: usize| #[trigger]
            keys.contains(k) ==> aliases[k].0 != owner,
    decreases keys.len(),
{
    if keys.len() > 0 {
        let key = keys.choose();
        lemma_refs_zero(aliases, keys.remove(key), owner);
        assert(keys.contains(key));
        if alias_refs_among(aliases, keys, owner) == 0 {
            assert forall|k: usize| #[trigger] keys.contains(k) implies aliases[k].0 != owner by {
                if k != key {
                    assert(keys.remove(key).contains(k));
                }
            }
        }
        if forall|k: usize| #[trigger] keys.contains(k) ==> aliases[k].0 != owner {
            assert forall|k: usize| #[trigger] keys.remove(key).contains(k) implies aliases[k].0
                != owner by {
                assert(keys.contains(k));
            }
        }
    } else {
        assert(keys =~= Set::empty());
    }
}

/// Writing one alias changes the references to each region by the difference
/// between the new entry and the old.
proof fn lemma_refs_write(
    aliases: Map<usize, (usize, usize)>,
    key: usize,
    entry: (usize, usize),
    owner: usize,
)
    requires
        aliases.dom().finite(),
    ensures
        alias_refs_among(aliases.insert(key, entry), aliases.insert(key, entry).dom(), owner)
            == alias_refs_among(aliases, aliases.dom().remove(key), owner) + (if entry.0 == owner {
            entry.1 as nat
        } else {
            0
        }),
        aliases.contains_key(key) ==> alias_refs_among(aliases, aliases.dom(), owner) == refs_of(
            aliases,
            key,
            owner,
        ) + alias_refs_among(aliases, aliases.dom().remove(key), owner),
        !aliases.contains_key(key) ==> aliases.dom().remove(key) == aliases.dom(),
{
    let written = aliases.insert(key, entry);
    lemma_refs_pull(written, written.dom(), owner, key);
    assert(written.dom().remove(key) =~= aliases.dom().remove(key));
    lemma_refs_agree(written, aliases, aliases.dom().remove(key), owner);
    if aliases.contains_key(key) {
        lemma_refs_pull(aliases, aliases.dom(), owner, key);
    } else {
        assert(aliases.dom().remove(key) =~= aliases.dom());
    }
}

/// Removing one alias takes its references away.
proof fn lemma_refs_erase(aliases: Map<usize, (usize, usize)>, key: usize, owner: usize)
    requires
        aliases.dom().finite(),
        aliases.contains_key(key),
    ensures
        alias_refs_among(aliases, aliases.dom(), owner) == refs_of(aliases, key, owner)
            + alias_refs_among(aliases.remove(key), aliases.remove(key).dom(), owner),
{
    lemma_refs_pull(aliases, aliases.dom(), owner, key);
    assert(aliases.remove(key).dom() =~= aliases.dom().remove(key));
    lemma_refs_agree(aliases, aliases.remove(key), aliases.dom().remove(key), owner);
}

/// Tables without entries know no address, and are balanced.
pub proof fn law_empty_is_balanced()
    ensures
        MemTable::empty().balanced(),
        forall|addr: usize| !#[trigger] MemTable::empty().regions.contains_key(addr),
        forall|addr: usize| !#[trigger] MemTable::empty().aliases.contains_key(addr),
        forall|addr: usize| #[trigger] MemTable::empty().vacant(addr),
{
    assert(Map::<usize, (usize, usize)>::empty().dom() =~= Set::empty());
}

/// A registration that the tables satisfy by themselves keeps them balanced.
pub proof fn law_register_keeps_balance(
    pre: MemTable,
    alias_enabled: bool,
    force_roce: bool,
    addr: usize,
    size: usize,
    post: MemTable,
    step: RegisterStep,
)
    requires
        pre.balanced(),
        pre.has_room(alias_enabled, addr, size),
        pre.register(alias_enabled, force_roce, addr, size, post, step),
    ensures
        post.balanced(),
{
    if pre.regions.contains_key(addr) {
    } else if pre.aliases.contains_key(addr) {
        let owner = pre.aliases[addr].0;
        assert forall|o: usize| #[trigger] post.regions.contains_key(o) implies post.alias_refs(o)
            <= post.regions[o].1 by {
            lemma_refs_write(pre.aliases, addr, (owner, (pre.aliases[addr].1 + 1) as usize), o);
            assert(pre.regions.contains_key(o));
        }
    } else if alias_enabled && pre.covered(addr, size) {
        let owner = choose|owner: usize| #[trigger]
            pre.holds(owner, addr, size) && post == pre.add_alias(addr, owner);
        assert forall|o: usize| #[trigger] post.regions.contains_key(o) implies post.alias_refs(o)
            <= post.regions[o].1 by {
            lemma_refs_write(pre.aliases, addr, (owner, 1), o);
            assert(pre.regions.contains_key(o));
        }
    }
}

/// Once a request is satisfied, its address is known: as a region or as an alias.
pub proof fn law_registered_address_is_known(
    pre: MemTable,
    alias_enabled: bool,
    force_roce: bool,
    addr: usize,
    size: usize,
    post: MemTable,
    step: RegisterStep,
)
    requires
        pre.register(alias_enabled, force_roce, addr, size, post, step),
    ensures
        step is Registered ==> !post.vacant(addr),
        step is CallEngine ==> post.vacant(addr) && !post.add_region(addr, size).vacant(addr),
{
}

/// Without aliasing no alias ever comes about.
pub proof fn law_no_alias_unless_enabled(
    pre: MemTable,
    force_roce: bool,
    addr: usize,
    size: usize,
    post: MemTable,
    step: RegisterStep,
)
    requires
        pre.aliases == Map::<usize, (usize, usize)>::empty(),
        pre.register(false, force_roce, addr, size, post, step),
    ensures
        post.aliases == Map::<usize, (usize, usize)>::empty(),
        post.add_region(addr, size).aliases == Map::<usize, (usize, usize)>::empty(),
        post.deregister(addr).aliases == Map::<usize, (usize, usize)>::empty(),
{
}

/// A region that the engine has just registered keeps the tables balanced.
pub proof fn law_new_region_keeps_balance(pre: MemTable, addr: usize, size: usize)
    requires
        pre.balanced(),
        pre.vacant(addr),
    ensures
        pre.add_region(addr, size).balanced(),
        pre.add_region(addr, size).direct_refs(addr) == 1,
{
    assert forall|k: usize| #[trigger] pre.aliases.dom().contains(k) implies pre.aliases[k].1
        >= 1 by {
        assert(pre.aliases.contains_key(k));
    }
    lemma_refs_zero(pre.aliases, pre.aliases.dom(), addr);
    assert forall|k: usize| #[trigger] pre.aliases.dom().contains(k) implies pre.aliases[k].0
        != addr by {
        assert(pre.aliases.contains_key(k));
    }
    let post = pre.add_region(addr, size);
    assert forall|o: usize| #[trigger] post.regions.contains_key(o) implies post.alias_refs(o)
        <= post.regions[o].1 by {
        assert(o != addr ==> pre.regions.contains_key(o));
    }
}

/// A release that is owed keeps the tables balanced.
pub proof fn law_deregister_keeps_balance(pre: MemTable, addr: usize)
    requires
        pre.balanced(),
        pre.release_is_owed(addr),
    ensures
        pre.deregister(addr).balanced(),
{
    let post = pre.deregister(addr);
    if pre.aliases.contains_key(addr) {
        let owner = pre.aliases[addr].0;
        let count = pre.aliases[addr].1;
        assert(pre.regions.contains_key(owner));
        assert forall|o: usize| #[trigger] pre.regions.contains_key(o) implies post.alias_refs(o)
            == pre.alias_refs(o) - (if o == owner {
            1int
        } else {
            0
        }) by {
            if count > 1 {
                lemma_refs_write(pre.aliases, addr, (owner, (count - 1) as usize), o);
            } else {
                lemma_refs_erase(pre.aliases, addr, o);
            }
        }
        assert forall|o: usize| #[trigger] post.regions.contains_key(o) implies post.alias_refs(o)
            <= post.regions[o].1 by {
            assert(pre.regions.contains_key(o));
        }
        if pre.regions[owner].1 == 1 {
            assert(post.alias_refs(owner) == 0);
            lemma_no_alias_left(post, owner);
        }
    } else if pre.regions.contains_key(addr) {
        if pre.regions[addr].1 == 1 {
            assert(pre.alias_refs(addr) == 0);
            lemma_no_alias_left(pre, addr);
        }
        assert forall|o: usize| #[trigger] post.regions.contains_key(o) implies post.alias_refs(o)
            <= post.regions[o].1 by {
            assert(pre.regions.contains_key(o));
        }
    }
}

proof fn lemma_no_alias_left(table: MemTable, owner: usize)
    requires
        table.aliases.dom().finite(),
        forall|a: usize| #[trigger] table.aliases.contains_key(a) ==> table.aliases[a].1 >= 1,
        table.alias_refs(owner) == 0,
    ensures
        forall|a: usize| #[trigger]
            table.aliases.contains_key(a) ==> table.aliases[a].0 != owner,
{
    assert forall|k: usize| #[trigger] table.aliases.dom().contains(k) implies table.aliases[k].1
        >= 1 by {
        assert(table.aliases.contains_key(k));
    }
    lemma_refs_zero(table.aliases, table.aliases.dom(), owner);
    assert forall|a: usize| #[trigger] table.aliases.contains_key(a) implies table.aliases[a].0
        != owner by {
        assert(table.aliases.dom().contains(a));
    }
}

/// A region leaves the engine only with its last reference: when the release asks
/// to deregister a region, that release held the only reference to it, and no
/// alias of it is left.
pub proof fn law_region_outlives_its_aliases(pre: MemTable, addr: usize, region: usize)
    requires
        pre.balanced(),
        pre.release_is_owed(addr),
        pre.deregister_step(addr) == (DeregisterStep::CallEngine { addr: region }),
    ensures
        pre.direct_refs(region) + pre.alias_refs(region) == 1,
        !pre.deregister(addr).regions.contains_key(region),
        forall|a: usize| #[trigger]
            pre.deregister(addr).aliases.contains_key(a) ==> pre.deregister(addr).aliases[a].0
                != region,
{
    law_deregister_keeps_balance(pre, addr);
    assert(pre.regions.contains_key(region));
    let post = pre.deregister(addr);
    assert forall|a: usize| #[trigger] post.aliases.contains_key(a) implies post.aliases[a].0
        != region by {
        assert(post.regions.contains_key(post.aliases[a].0));
    }
}

/// A release undoes a registration of the same address that the tables satisfied
/// by themselves: it brings the earlier tables back and leaves the engine alone.
pub proof fn law_deregister_undoes_register(
    pre: MemTable,
    alias_enabled: bool,
    force_roce: bool,
    addr: usize,
    size: usize,
    post: MemTable,
)
    requires
        pre.wf(),
        pre.has_room(alias_enabled, addr, size),
        pre.register(alias_enabled, force_roce, addr, size, post, RegisterStep::Registered),
    ensures
        post.deregister(addr) == pre,
        post.deregister_step(addr) == DeregisterStep::Released,
{
    if pre.regions.contains_key(addr) {
        assert(post.deregister(addr).regions =~= pre.regions);
    } else if pre.aliases.contains_key(addr) {
        let owner = pre.aliases[addr].0;
        assert(post.deregister(addr).regions =~= pre.regions);
        assert(post.deregister(addr).aliases =~= pre.aliases);
    } else {
        assert(post.deregister(addr).regions =~= pre.regions);
        assert(post.deregister(addr).aliases =~= pre.aliases);
    }
}

/// A release undoes a registration that went to the engine: it brings the earlier
/// tables back and asks the engine to deregister the same address.
pub proof fn law_deregister_undoes_new_region(pre: MemTable, addr: usize, size: usize)
    requires
        pre.wf(),
        pre.vacant(addr),
    ensures
        pre.add_region(addr, size).deregister(addr) == pre,
        pre.add_region(addr, size).deregister_step(addr) == (DeregisterStep::CallEngine { addr }),
{
    assert(pre.add_region(addr, size).deregister(addr).regions =~= pre.regions);
}

/// The tables after `times` releases of `addr`.
pub open spec fn deregister_times(table: MemTable, addr: usize, times: nat) -> MemTable
    decreases times,
{
    if times == 0 {
        table
    } else {
        deregister_times(table, addr, (times - 1) as nat).deregister(addr)
    }
}

/// A region with `n` references survives `n - 1` releases, none of which calls
/// the engine, and the `n`-th release asks the engine to deregister it.
pub proof fn law_region_needs_all_its_releases(table: MemTable, addr: usize, times: nat)
    requires
        table.wf(),
        table.regions.contains_key(addr),
        times < table.regions[addr].1,
    ensures
        deregister_times(table, addr, times).regions.contains_key(addr),
        deregister_times(table, addr, times).deregister_step(addr) == (if times + 1
            == table.regions[addr].1 {
            DeregisterStep::CallEngine { addr }
        } else {
            DeregisterStep::Released
        }),
        !deregister_times(table, addr, table.regions[addr].1 as nat).regions.contains_key(addr),
{
    lemma_region_after_releases(table, addr, times);
    lemma_region_after_releases(table, addr, (table.regions[addr].1 - 1) as nat);
}

proof fn lemma_region_after_releases(table: MemTable, addr: usize, times: nat)
    requires
        table.wf(),
        table.regions.contains_key(addr),
        times < table.regions[addr].1,
    ensures
        deregister_times(table, addr, times).aliases == table.aliases,
        deregister_times(table, addr, times).regions.contains_key(addr),
        deregister_times(table, addr, times).regions[addr].1 == table.regions[addr].1 - times,
    decreases times,
{
    if times > 0 {
        lemma_region_after_releases(table, addr, (times - 1) as nat);
    }
}

/// A release of one address touches no other alias, and no other region but the one
/// that owns the address.
pub proof fn law_release_leaves_others_alone(table: MemTable, addr: usize, other: usize)
    requires
        table.wf(),
        other != addr,
    ensures
        other != table.owner_of(addr) ==> (table.deregister(addr).regions.contains_key(other)
            <==> table.regions.contains_key(other)),
        other != table.owner_of(addr) && table.regions.contains_key(other) ==> table.deregister(
            addr,
        ).regions[other] == table.regions[other],
        table.deregister(addr).aliases.contains_key(other) <==> table.aliases.contains_key(other),
        table.aliases.contains_key(other) ==> table.deregister(addr).aliases[other]
            == table.aliases[other],
{
}

/// The engine is asked to register exactly the range that was asked for. The tables
/// are then as before, and record that same range with one reference once the engine
/// has done so.
pub proof fn law_engine_registers_the_requested_range(
    pre: MemTable,
    alias_enabled: bool,
    force_roce: bool,
    addr: usize,
    size: usize,
    post: MemTable,
    engine_addr: usize,
    engine_size: usize,
    misaligned_by: Option<usize>,
)
    requires
        pre.register(
            alias_enabled,
            force_roce,
            addr,
            size,
            post,
            RegisterStep::CallEngine { addr: engine_addr, size: engine_size, misaligned_by },
        ),
    ensures
        engine_addr == addr,
        engine_size == size,
        post == pre,
        post.add_region(addr, size).regions.contains_key(engine_addr),
        post.add_region(addr, size).regions[engine_addr] == (engine_size, 1usize),
        post.add_region(addr, size).aliases == pre.aliases,
        forall|other: usize| #![trigger pre.regions.contains_key(other)]
            other != addr ==> {
                &&& post.add_region(addr, size).regions.contains_key(other)
                    == pre.regions.contains_key(other)
                &&& pre.regions.contains_key(other) ==> post.add_region(addr, size).regions[other]
                    == pre.regions[other]
            },
{
}

/// The engine is called exactly for an address that is not known, unless aliasing is
/// on and a region holds every byte of the range.
pub proof fn law_engine_is_called_for_new_memory_only(
    pre: MemTable,
    alias_enabled: bool,
    force_roce: bool,
    addr: usize,
    size: usize,
    post: MemTable,
    step: RegisterStep,
)
    requires
        pre.register(alias_enabled, force_roce, addr, size, post, step),
    ensures
        step is CallEngine <==> {
            &&& !pre.regions.contains_key(addr)
            &&& !pre.aliases.contains_key(addr)
            &&& alias_enabled ==> forall|owner: usize|
                #![trigger pre.regions.contains_key(owner)]
                pre.regions.contains_key(owner) ==> addr < owner || addr + size > owner
                    + pre.regions[owner].0
        },
        pre.satisfies(alias_enabled, addr, size) <==> step is Registered,
{
    if !pre.covered(addr, size) {
        assert forall|owner: usize|
            #![trigger pre.regions.contains_key(owner)]
            pre.regions.contains_key(owner) implies addr < owner || addr + size > owner
            + pre.regions[owner].0 by {
            assert(!pre.holds(owner, addr, size));
        }
    } else {
        let owner = choose|owner: usize| #[trigger] pre.holds(owner, addr, size);
        assert(pre.regions.contains_key(owner));
    }
}

/// A warning is due exactly where HCCS is used and the address is not a multiple of
/// two megabytes; it tells how far the address is above one.
pub proof fn law_misalignment_is_the_distance(
    pre: MemTable,
    alias_enabled: bool,
    force_roce: bool,
    addr: usize,
    size: usize,
    post: MemTable,
    engine_addr: usize,
    engine_size: usize,
    misaligned_by: Option<usize>,
)
    requires
        pre.register(
            alias_enabled,
            force_roce,
            addr,
            size,
            post,
            RegisterStep::CallEngine { addr: engine_addr, size: engine_size, misaligned_by },
        ),
    ensures
        misaligned_by is None <==> force_roce || addr as int % 0x20_0000 == 0,
        misaligned_by matches Some(offset) ==> {
            &&& 0 < offset < 0x20_0000
            &&& offset <= addr
            &&& (addr - offset) % 0x20_0000 == 0
        },
{
}

/// A request that the tables satisfy adds one reference to one region and touches no
/// other: to the region at the address, or to the region that an alias at the address
/// stands for. A region never changes its size.
pub proof fn law_registration_adds_one_reference(
    pre: MemTable,
    alias_enabled: bool,
    force_roce: bool,
    addr: usize,
    size: usize,
    post: MemTable,
)
    requires
        pre.balanced(),
        pre.has_room(alias_enabled, addr, size),
        pre.register(alias_enabled, force_roce, addr, size, post, RegisterStep::Registered),
    ensures
        ({
            let owner = post.owner_of(addr);
            &&& pre.regions.contains_key(addr) ==> owner == addr
            &&& !pre.regions.contains_key(addr) ==> post.aliases.contains_key(addr) && owner
                == post.aliases[addr].0
            &&& pre.aliases.contains_key(addr) ==> owner == pre.aliases[addr].0
            &&& pre.regions.contains_key(owner)
            &&& post.regions.contains_key(owner)
            &&& post.regions[owner].0 == pre.regions[owner].0
            &&& post.regions[owner].1 == pre.regions[owner].1 + 1
            &&& pre.vacant(addr) ==> alias_enabled && owner <= addr && addr + size <= owner
                + pre.regions[owner].0 && post.aliases[addr].1 == 1
            &&& pre.aliases.contains_key(addr) ==> post.aliases[addr].1 == pre.aliases[addr].1 + 1
        }),
        forall|other: usize|
            #![trigger pre.regions.contains_key(other)]
            #![trigger post.regions.contains_key(other)]
            other != post.owner_of(addr) ==> {
                &&& post.regions.contains_key(other) == pre.regions.contains_key(other)
                &&& pre.regions.contains_key(other) ==> post.regions[other] == pre.regions[other]
            },
        forall|other: usize|
            #![trigger pre.aliases.contains_key(other)]
            #![trigger post.aliases.contains_key(other)]
            other != addr ==> {
                &&& post.aliases.contains_key(other) == pre.aliases.contains_key(other)
                &&& pre.aliases.contains_key(other) ==> post.aliases[other] == pre.aliases[other]
            },
{
    if !pre.regions.contains_key(addr) && !pre.aliases.contains_key(addr) {
        let owner = choose|owner: usize| #[trigger]
            pre.holds(owner, addr, size) && post == pre.add_alias(addr, owner);
        assert(pre.regions.contains_key(owner));
    }
}

/// A release takes one reference from one region: the region at the address, or the
/// one that an alias at the address stands for. The region goes with its last
/// reference, and then, and only then, the engine is asked to deregister it.
pub proof fn law_release_takes_one_reference(pre: MemTable, addr: usize, region: usize)
    requires
        pre.wf(),
        region == (if pre.aliases.contains_key(addr) {
            pre.aliases[addr].0
        } else {
            addr
        }),
    ensures
        pre.regions.contains_key(region) && pre.regions[region].1 > 1 ==> {
            &&& pre.deregister(addr).regions.contains_key(region)
            &&& pre.deregister(addr).regions[region].0 == pre.regions[region].0
            &&& pre.deregister(addr).regions[region].1 == pre.regions[region].1 - 1
            &&& pre.deregister_step(addr) == DeregisterStep::Released
        },
        pre.regions.contains_key(region) && pre.regions[region].1 == 1 ==> {
            &&& !pre.deregister(addr).regions.contains_key(region)
            &&& pre.deregister_step(addr) == (DeregisterStep::CallEngine { addr: region })
        },
        pre.deregister_step(addr) matches DeregisterStep::CallEngine { addr: gone } ==> {
            &&& gone == region
            &&& pre.regions.contains_key(gone)
            &&& !pre.deregister(addr).regions.contains_key(gone)
        },
        pre.deregister_step(addr) is NotRegistered <==> !pre.regions.contains_key(addr)
            && !pre.aliases.contains_key(addr),
        !pre.regions.contains_key(addr) && !pre.aliases.contains_key(addr) ==> pre.deregister(addr)
            == pre,
        pre.aliases.contains_key(addr) && pre.aliases[addr].1 > 1 ==> {
            &&& pre.deregister(addr).aliases.contains_key(addr)
            &&& pre.deregister(addr).aliases[addr].0 == pre.aliases[addr].0
            &&& pre.deregister(addr).aliases[addr].1 == pre.aliases[addr].1 - 1
        },
        pre.aliases.contains_key(addr) && pre.aliases[addr].1 == 1 ==> !pre.deregister(
            addr,
        ).aliases.contains_key(addr),
        forall|other: usize|
            #![trigger pre.regions.contains_key(other)]
            other != region ==> {
                &&& pre.deregister(addr).regions.contains_key(other) == pre.regions.contains_key(
                    other,
                )
                &&& pre.regions.contains_key(other) ==> pre.deregister(addr).regions[other]
                    == pre.regions[other]
            },
{
}

/// There is room for a registration as long as no counter is at its limit.
pub proof fn law_room_below_the_limit(
    table: MemTable,
    alias_enabled: bool,
    addr: usize,
    size: usize,
)
    requires
        forall|a: usize| #[trigger]
            table.regions.contains_key(a) ==> table.regions[a].1 < usize::MAX,
        forall|a: usize| #[trigger]
            table.aliases.contains_key(a) ==> table.aliases[a].1 < usize::MAX,
    ensures
        table.has_room(alias_enabled, addr, size),
{
}

} // verus!
