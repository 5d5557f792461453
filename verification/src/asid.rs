//! The address-space-identifier (ASID) directory: a fixed-size top-level
//! table of ASID pools, each pool a fixed-size table of mappings from an
//! ASID to a live hardware translation root.
//!
//! An ASID decomposes uniquely into a directory index (its high bits) and a
//! pool index (its low bits). Deleting a mapping invalidates every TLB entry
//! tagged with that ASID strictly before the mapping is cleared and before
//! any new translation root is installed; the machine-state record keeps the
//! ordered log of invalidations so contracts can state exactly that.

use vstd::prelude::*;
use crate::common::{exception_t, lookup_fault_t};

verus! {

/// Bits of an ASID selecting the slot inside a pool.
pub const ASID_LOW_BITS: usize = 9;

/// Bits of an ASID selecting the top-level directory slot.
pub const ASID_HIGH_BITS: usize = 7;

/// Mask extracting the low (pool-index) bits of an ASID.
pub const ASID_LOW_MASK: usize = 0x1ff;

/// Number of slots in one ASID pool.
pub const ASID_POOL_SLOTS: usize = 512;

/// Number of slots in the top-level directory.
pub const ASID_TABLE_SLOTS: usize = 128;

/// Number of distinct ASIDs.
pub const NUM_ASIDS: usize = 0x10000;

/// The ASID reserved for the initial task, installed at boot.
pub const IT_ASID: usize = 1;

/// An ASID value.
#[allow(non_camel_case_types)]
pub type asid_t = usize;

/// An ASID is valid when it fits the directory-and-pool decomposition.
pub open spec fn valid_asid(asid: usize) -> bool {
    asid < NUM_ASIDS
}

/// ASID-decomposition law: a valid ASID decomposes into a directory index
/// below `2 ^ ASID_HIGH_BITS` (the table size) and a pool index below
/// `2 ^ ASID_LOW_BITS` (the pool size), so the two-level lookup is total.
pub proof fn lemma_asid_decomposition(asid: usize)
    requires
        valid_asid(asid),
    ensures
        (asid >> ASID_LOW_BITS) < ASID_TABLE_SLOTS,
        (asid & ASID_LOW_MASK) < ASID_POOL_SLOTS,
        ASID_TABLE_SLOTS == (1usize << ASID_HIGH_BITS),
        ASID_POOL_SLOTS == (1usize << ASID_LOW_BITS),
        NUM_ASIDS == (1usize << (ASID_HIGH_BITS + ASID_LOW_BITS)),
{
    assert(asid < 0x10000 ==> (asid >> 9usize) < 128usize) by (bit_vector);
    assert((asid & 0x1ffusize) < 512usize) by (bit_vector);
    assert(128usize == 1usize << 7usize) by (bit_vector);
    assert(512usize == 1usize << 9usize) by (bit_vector);
    assert(0x10000usize == 1usize << 16usize) by (bit_vector);
}

/// One slot of an ASID pool: either empty or a live virtual address space,
/// identified by its top-level translation-root address.
#[allow(non_camel_case_types)]
#[derive(Clone, Copy, PartialEq, Eq, Structural, Debug)]
pub enum asid_map_t {
    AsidMapNone,
    AsidMapVspace { vspace_root: usize },
}

impl asid_map_t {
    /// An empty mapping.
    pub fn new_none() -> (r: asid_map_t)
        ensures
            r == asid_map_t::AsidMapNone,
    {
        asid_map_t::AsidMapNone
    }

    /// A mapping to the given translation root.
    pub fn new_vspace(vspace_root: usize) -> (r: asid_map_t)
        ensures
            r == (asid_map_t::AsidMapVspace { vspace_root }),
    {
        asid_map_t::AsidMapVspace { vspace_root }
    }

    /// The stored translation-root address (0 for an empty mapping).
    pub fn get_vspace_root(&self) -> (r: usize)
        ensures
            r == (match *self {
                asid_map_t::AsidMapVspace { vspace_root } => vspace_root,
                asid_map_t::AsidMapNone => 0,
            }),
    {
        match *self {
            asid_map_t::AsidMapVspace { vspace_root } => vspace_root,
            asid_map_t::AsidMapNone => 0,
        }
    }
}

/// An ASID pool: a fixed-size table of mappings, plus the pool object's own
/// address in kernel memory (its identity, used as the stale-capability
/// guard when the pool is deleted).
#[allow(non_camel_case_types)]
#[derive(Debug)]
pub struct asid_pool_t {
    /// The pool object's address (nonzero; 0 marks an empty directory slot).
    pub addr: usize,
    /// The pool's mapping slots.
    pub maps: Vec<asid_map_t>,
}

impl asid_pool_t {
    /// Well-formedness: full size, nonzero identity.
    pub open spec fn wf(self) -> bool {
        &&& self.maps@.len() == ASID_POOL_SLOTS
        &&& self.addr != 0
    }

    /// A fresh pool with every slot empty.
    pub fn new(addr: usize) -> (p: asid_pool_t)
        requires
            addr != 0,
        ensures
            p.wf(),
            p.addr == addr,
            forall|i: int| 0 <= i < ASID_POOL_SLOTS ==> p.maps@[i] == asid_map_t::AsidMapNone,
    {
        let mut maps: Vec<asid_map_t> = Vec::new();
        let mut i: usize = 0;
        while i < ASID_POOL_SLOTS
            invariant
                i <= ASID_POOL_SLOTS,
                maps@.len() == i,
                forall|j: int| 0 <= j < i ==> maps@[j] == asid_map_t::AsidMapNone,
            decreases ASID_POOL_SLOTS - i,
        {
            maps.push(asid_map_t::AsidMapNone);
            i = i + 1;
        }
        asid_pool_t { addr, maps }
    }

    /// Overwrite one slot of the pool.
    pub fn set_map(&mut self, idx: usize, m: asid_map_t)
        requires
            idx < old(self).maps@.len(),
        ensures
            final(self).maps@ == old(self).maps@.update(idx as int, m),
            final(self).addr == old(self).addr,
            old(self).wf() ==> final(self).wf(),
    {
        self.maps[idx] = m;
    }
}

/// The top-level ASID directory: `ASID_TABLE_SLOTS` slots, each empty or
/// holding a pool.
pub struct AsidDirectory {
    /// The directory slots.
    pub slots: Vec<Option<asid_pool_t>>,
}

impl AsidDirectory {
    /// Well-formedness: full size, every installed pool well-formed.
    pub open spec fn wf(self) -> bool {
        &&& self.slots@.len() == ASID_TABLE_SLOTS
        &&& forall|i: int|
            0 <= i < self.slots@.len() ==> (#[trigger] self.slots@[i] matches Some(p) ==> p.wf())
    }

    /// A fresh directory with every slot empty.
    pub fn new() -> (d: AsidDirectory)
        ensures
            d.wf(),
            forall|i: int| 0 <= i < ASID_TABLE_SLOTS ==> d.slots@[i] is None,
    {
        let mut slots: Vec<Option<asid_pool_t>> = Vec::new();
        let mut i: usize = 0;
        while i < ASID_TABLE_SLOTS
            invariant
                i <= ASID_TABLE_SLOTS,
                slots@.len() == i,
                forall|j: int| 0 <= j < i ==> slots@[j] is None,
            decreases ASID_TABLE_SLOTS - i,
        {
            slots.push(None);
            i = i + 1;
        }
        AsidDirectory { slots }
    }
}

/// The address of the pool installed at a directory slot, or 0 when the
/// slot is empty.
pub open spec fn spec_pool_addr(d: AsidDirectory, idx: usize) -> usize {
    match d.slots@[idx as int] {
        Some(p) => p.addr,
        None => 0,
    }
}

/// The address of the pool installed at the given directory slot (0 when
/// the slot is empty).
pub fn get_asid_pool_by_index(dir: &AsidDirectory, idx: usize) -> (r: usize)
    requires
        dir.wf(),
        idx < ASID_TABLE_SLOTS,
    ensures
        r == spec_pool_addr(*dir, idx),
{
    match &dir.slots[idx] {
        Some(pool) => pool.addr,
        None => 0,
    }
}

/// Overwrite a directory slot: install the given pool, or clear the slot.
pub fn set_asid_pool_by_index(dir: &mut AsidDirectory, idx: usize, pool: Option<asid_pool_t>)
    requires
        old(dir).wf(),
        idx < ASID_TABLE_SLOTS,
        pool matches Some(p) ==> p.wf(),
    ensures
        final(dir).slots@ == old(dir).slots@.update(idx as int, pool),
        final(dir).wf(),
{
    dir.slots[idx] = pool;
}

/// The machine state this core drives: the translation root currently loaded
/// into the MMU (0 = the kernel's global address space) and the ordered log
/// of TLB invalidations issued so far, most recent last.
pub struct MachineState {
    /// The translation root currently active in the MMU.
    pub active_vspace_root: usize,
    /// Every ASID whose TLB entries have been invalidated, in issue order.
    pub tlb_invalidations: Vec<usize>,
}

impl MachineState {
    /// The machine state at boot: kernel address space active, no
    /// invalidations issued yet.
    pub fn new() -> (m: MachineState)
        ensures
            m.active_vspace_root == 0,
            m.tlb_invalidations@ == Seq::<usize>::empty(),
    {
        MachineState { active_vspace_root: 0, tlb_invalidations: Vec::new() }
    }
}

/// Invalidate every TLB entry tagged with the given ASID on this core. In
/// this model the invalidation is recorded in the machine's ordered log.
pub fn invalidate_local_tlb_asid(machine: &mut MachineState, asid: usize)
    ensures
        final(machine).tlb_invalidations@ == old(machine).tlb_invalidations@.push(asid),
        final(machine).active_vspace_root == old(machine).active_vspace_root,
{
    machine.tlb_invalidations.push(asid);
}

/// A capability, reduced to the kinds this core inspects.
#[allow(non_camel_case_types)]
#[derive(Clone, Copy, PartialEq, Eq, Structural, Debug)]
pub enum cap_t {
    NullCap,
    /// A capability to an ASID pool object.
    AsidPoolCap { pool_addr: usize },
    /// A capability to a virtual address space, i.e. to its top-level
    /// translation root, together with the ASID it is mapped under.
    VspaceCap { pgd_base_ptr: usize, mapped_asid: usize },
}

/// The mapping the directory holds for an ASID: the pool slot it decomposes
/// to, or nothing when no pool is installed at its directory slot.
pub open spec fn spec_find_map(d: AsidDirectory, asid: usize) -> Option<asid_map_t> {
    match d.slots@[(asid >> ASID_LOW_BITS) as int] {
        Some(p) => Some(p.maps@[(asid & ASID_LOW_MASK) as int]),
        None => None,
    }
}

/// The translation root a capability re-derives to: the root it names, but
/// only when the directory still maps the capability's ASID to exactly that
/// root; otherwise nothing (the capability is stale or not a VSpace at all).
pub open spec fn vm_root_of(d: AsidDirectory, cap: cap_t) -> Option<usize> {
    match cap {
        cap_t::VspaceCap { pgd_base_ptr, mapped_asid } => if valid_asid(mapped_asid)
            && spec_find_map(d, mapped_asid) == Some(
            asid_map_t::AsidMapVspace { vspace_root: pgd_base_ptr },
        ) {
            Some(pgd_base_ptr)
        } else {
            None
        },
        _ => None,
    }
}

/// Look up the pool mapping an ASID decomposes to: `None` when the
/// directory slot is empty, else the mapping at the pool slot. No hardware
/// side effect.
pub fn find_map_for_asid(dir: &AsidDirectory, asid: asid_t) -> (r: Option<asid_map_t>)
    requires
        dir.wf(),
        valid_asid(asid),
    ensures
        r == spec_find_map(*dir, asid),
{
    proof {
        lemma_asid_decomposition(asid);
    }
    let hi = asid >> ASID_LOW_BITS;
    let lo = asid & ASID_LOW_MASK;
    match &dir.slots[hi] {
        Some(pool) => Some(pool.maps[lo]),
        None => None,
    }
}

/// The result of resolving an ASID to a translation root.
#[allow(non_camel_case_types)]
#[derive(Clone, Copy, PartialEq, Eq, Structural, Debug)]
pub struct findVSpaceForASID_ret {
    /// `EXCEPTION_NONE` on success, `EXCEPTION_LOOKUP_FAULT` otherwise.
    pub status: exception_t,
    /// The stored translation root, on success.
    pub vspace_root: Option<usize>,
    /// The lookup fault to report, on failure.
    pub lookup_fault: Option<lookup_fault_t>,
}

/// The result `find_vspace_for_asid` owes for a directory and an ASID:
/// success with the stored root when the ASID maps to a live VSpace, a
/// root-invalid lookup fault otherwise.
pub open spec fn spec_find_vspace(d: AsidDirectory, asid: usize) -> findVSpaceForASID_ret {
    match spec_find_map(d, asid) {
        Some(asid_map_t::AsidMapVspace { vspace_root }) => findVSpaceForASID_ret {
            status: exception_t::EXCEPTION_NONE,
            vspace_root: Some(vspace_root),
            lookup_fault: None,
        },
        _ => findVSpaceForASID_ret {
            status: exception_t::EXCEPTION_LOOKUP_FAULT,
            vspace_root: None,
            lookup_fault: Some(lookup_fault_t::InvalidRoot),
        },
    }
}

/// Resolve an ASID to its translation root. When no pool is installed or
/// the mapping is not a live VSpace, report a root-invalid lookup fault for
/// the capability-fault path.
pub fn find_vspace_for_asid(dir: &AsidDirectory, asid: asid_t) -> (r: findVSpaceForASID_ret)
    requires
        dir.wf(),
        valid_asid(asid),
    ensures
        r == spec_find_vspace(*dir, asid),
{
    match find_map_for_asid(dir, asid) {
        Some(asid_map) => match asid_map {
            asid_map_t::AsidMapVspace { vspace_root } => findVSpaceForASID_ret {
                status: exception_t::EXCEPTION_NONE,
                vspace_root: Some(vspace_root),
                lookup_fault: None,
            },
            asid_map_t::AsidMapNone => findVSpaceForASID_ret {
                status: exception_t::EXCEPTION_LOOKUP_FAULT,
                vspace_root: None,
                lookup_fault: Some(lookup_fault_t::new_root_invalid()),
            },
        },
        None => findVSpaceForASID_ret {
            status: exception_t::EXCEPTION_LOOKUP_FAULT,
            vspace_root: None,
            lookup_fault: Some(lookup_fault_t::new_root_invalid()),
        },
    }
}

/// Re-derive the active hardware translation root from a capability: when
/// the capability names a VSpace whose ASID still maps to its root, that
/// root becomes active; otherwise the kernel's global address space is
/// installed and a root-invalid fault is returned.
pub fn set_vm_root(dir: &AsidDirectory, machine: &mut MachineState, cap: &cap_t) -> (r: Result<
    (),
    lookup_fault_t,
>)
    requires
        dir.wf(),
    ensures
        final(machine).tlb_invalidations@ == old(machine).tlb_invalidations@,
        vm_root_of(*dir, *cap) matches Some(root) ==> final(machine).active_vspace_root == root
            && r is Ok,
        vm_root_of(*dir, *cap) is None ==> final(machine).active_vspace_root == 0 && r == Err::<
            (),
            lookup_fault_t,
        >(lookup_fault_t::InvalidRoot),
{
    match *cap {
        cap_t::VspaceCap { pgd_base_ptr, mapped_asid } => {
            if mapped_asid < NUM_ASIDS {
                let ret = find_vspace_for_asid(dir, mapped_asid);
                let root_matches = match ret.vspace_root {
                    Some(root) => ret.status == exception_t::EXCEPTION_NONE && root
                        == pgd_base_ptr,
                    None => false,
                };
                if root_matches {
                    machine.active_vspace_root = pgd_base_ptr;
                    Ok(())
                } else {
                    machine.active_vspace_root = 0;
                    Err(lookup_fault_t::new_root_invalid())
                }
            } else {
                machine.active_vspace_root = 0;
                Err(lookup_fault_t::new_root_invalid())
            }
        },
        _ => {
            machine.active_vspace_root = 0;
            Err(lookup_fault_t::new_root_invalid())
        },
    }
}

/// Whether `delete_asid(asid, vspace, _)` finds the mapping it expects: a
/// live VSpace mapping for `asid` whose root equals `vspace`.
pub open spec fn delete_asid_hit(d: AsidDirectory, asid: usize, vspace: usize) -> bool {
    spec_find_map(d, asid) == Some(asid_map_t::AsidMapVspace { vspace_root: vspace })
}

/// Delete one ASID mapping, but only when it is a live VSpace mapping whose
/// root equals `vspace` (a stale expectation is a silent no-op success, by
/// design). On a hit: every TLB entry tagged with the ASID is invalidated
/// strictly before the mapping is cleared, and the active translation root
/// is re-derived from `cap`, since the deleted ASID might be the one the
/// MMU is running under. Afterwards the directory maps the ASID to an empty
/// slot, so resolving it reports a lookup fault.
pub fn delete_asid(
    dir: &mut AsidDirectory,
    machine: &mut MachineState,
    asid: asid_t,
    vspace: usize,
    cap: &cap_t,
) -> (r: Result<(), lookup_fault_t>)
    requires
        old(dir).wf(),
        valid_asid(asid),
    ensures
        final(dir).wf(),
        !delete_asid_hit(*old(dir), asid, vspace) ==> *final(dir) == *old(dir) && *final(machine)
            == *old(machine) && r is Ok,
        delete_asid_hit(*old(dir), asid, vspace) ==> {
            &&& spec_find_map(*final(dir), asid) == Some(asid_map_t::AsidMapNone)
            &&& final(dir).slots@.len() == old(dir).slots@.len()
            &&& (forall|i: int|
                0 <= i < old(dir).slots@.len() && i != (asid >> ASID_LOW_BITS) as int
                    ==> final(dir).slots@[i] == old(dir).slots@[i])
            &&& (final(dir).slots@[(asid >> ASID_LOW_BITS) as int] matches Some(p2)
                && old(dir).slots@[(asid >> ASID_LOW_BITS) as int] matches Some(p1)
                && p2.addr == p1.addr && p2.maps@ == p1.maps@.update(
                (asid & ASID_LOW_MASK) as int,
                asid_map_t::AsidMapNone,
            ))
            &&& final(machine).tlb_invalidations@ == old(machine).tlb_invalidations@.push(asid)
            &&& (vm_root_of(*final(dir), *cap) matches Some(root) ==> final(machine).active_vspace_root == root && r is Ok)
            &&& (vm_root_of(*final(dir), *cap) is None ==> final(machine).active_vspace_root == 0
                && r == Err::<(), lookup_fault_t>(lookup_fault_t::InvalidRoot))
        },
{
    proof {
        lemma_asid_decomposition(asid);
    }
    let hi = asid >> ASID_LOW_BITS;
    let lo = asid & ASID_LOW_MASK;
    let hit = match &dir.slots[hi] {
        Some(pool) => {
            let m = pool.maps[lo];
            m == asid_map_t::AsidMapVspace { vspace_root: vspace }
        },
        None => false,
    };
    if hit {
        invalidate_local_tlb_asid(machine, asid);
        match &mut dir.slots[hi] {
            Some(pool) => {
                pool.set_map(lo, asid_map_t::new_none());
            },
            None => {},
        }
        set_vm_root(dir, machine, cap)
    } else {
        Ok(())
    }
}

/// The ASIDs of the live VSpace mappings of a pool, in slot order, offset
/// from the pool's base ASID.
pub open spec fn vspace_asids(maps: Seq<asid_map_t>, base: usize) -> Seq<usize>
    decreases maps.len(),
{
    if maps.len() == 0 {
        Seq::empty()
    } else {
        vspace_asids(maps.drop_last(), base) + (match maps.last() {
            asid_map_t::AsidMapVspace { .. } => seq![(base + maps.len() - 1) as usize],
            asid_map_t::AsidMapNone => Seq::<usize>::empty(),
        })
    }
}

/// Whether `delete_asid_pool(asid_base, pool_addr, _)` finds the pool it
/// expects installed at the base ASID's directory slot.
pub open spec fn delete_pool_hit(d: AsidDirectory, asid_base: usize, pool_addr: usize) -> bool {
    d.slots@[(asid_base >> ASID_LOW_BITS) as int] matches Some(p) && p.addr == pool_addr
}

/// Delete a whole ASID pool, but only when `pool_addr` is the pool actually
/// installed at the computed directory slot (the stale-capability guard; a
/// mismatch is a silent no-op success). On a hit: every live mapping of the
/// pool has its ASID's TLB entries invalidated, in slot order, strictly
/// before the directory slot is cleared; then the active translation root
/// is re-derived from `default_vspace_cap`.
pub fn delete_asid_pool(
    dir: &mut AsidDirectory,
    machine: &mut MachineState,
    asid_base: asid_t,
    pool_addr: usize,
    default_vspace_cap: &cap_t,
) -> (r: Result<(), lookup_fault_t>)
    requires
        old(dir).wf(),
        valid_asid(asid_base),
    ensures
        final(dir).wf(),
        !delete_pool_hit(*old(dir), asid_base, pool_addr) ==> *final(dir) == *old(dir) && *final(machine) == *old(machine) && r is Ok,
        delete_pool_hit(*old(dir), asid_base, pool_addr) ==> {
            &&& final(dir).slots@ == old(dir).slots@.update(
                (asid_base >> ASID_LOW_BITS) as int,
                None,
            )
            &&& (old(dir).slots@[(asid_base >> ASID_LOW_BITS) as int] matches Some(p) && final(machine).tlb_invalidations@ == old(machine).tlb_invalidations@ + vspace_asids(
                p.maps@,
                asid_base,
            ))
            &&& (vm_root_of(*final(dir), *default_vspace_cap) matches Some(root) ==> final(machine).active_vspace_root == root && r is Ok)
            &&& (vm_root_of(*final(dir), *default_vspace_cap) is None ==> final(machine).active_vspace_root == 0 && r == Err::<(), lookup_fault_t>(
                lookup_fault_t::InvalidRoot,
            ))
        },
{
    proof {
        lemma_asid_decomposition(asid_base);
    }
    let hi = asid_base >> ASID_LOW_BITS;
    let hit = match &dir.slots[hi] {
        Some(pool) => pool.addr == pool_addr,
        None => false,
    };
    if hit {
        let ghost maps = dir.slots@[hi as int]->Some_0.maps@;
        let mut offset: usize = 0;
        while offset < ASID_POOL_SLOTS
            invariant
                offset <= ASID_POOL_SLOTS,
                valid_asid(asid_base),
                hi == asid_base >> ASID_LOW_BITS,
                dir.slots@ == old(dir).slots@,
                dir.wf(),
                hi < dir.slots@.len(),
                dir.slots@[hi as int] matches Some(p) && p.maps@ == maps,
                maps.len() == ASID_POOL_SLOTS,
                machine.active_vspace_root == old(machine).active_vspace_root,
                machine.tlb_invalidations@ == old(machine).tlb_invalidations@ + vspace_asids(
                    maps.take(offset as int),
                    asid_base,
                ),
            decreases ASID_POOL_SLOTS - offset,
        {
            let live = match &dir.slots[hi] {
                Some(pool) => match pool.maps[offset] {
                    asid_map_t::AsidMapVspace { .. } => true,
                    asid_map_t::AsidMapNone => false,
                },
                None => false,
            };
            proof {
                assert(maps.take(offset as int + 1).drop_last() =~= maps.take(offset as int));
                assert(maps.take(offset as int + 1).last() == maps[offset as int]);
            }
            if live {
                invalidate_local_tlb_asid(machine, asid_base + offset);
            }
            proof {
                assert(machine.tlb_invalidations@ =~= old(machine).tlb_invalidations@
                    + vspace_asids(maps.take(offset as int + 1), asid_base));
            }
            offset = offset + 1;
        }
        proof {
            assert(maps.take(ASID_POOL_SLOTS as int) =~= maps);
        }
        dir.slots[hi] = None;
        set_vm_root(dir, machine, default_vspace_cap)
    } else {
        Ok(())
    }
}

/// Install a mapping for an ASID into its pool slot (the mapping-creation
/// step when a VSpace is bound to an ASID). Reading the ASID back through
/// `find_map_for_asid` then yields exactly this mapping.
pub fn set_map_for_asid(dir: &mut AsidDirectory, asid: asid_t, map: asid_map_t)
    requires
        old(dir).wf(),
        valid_asid(asid),
        old(dir).slots@[(asid >> ASID_LOW_BITS) as int] is Some,
    ensures
        final(dir).wf(),
        spec_find_map(*final(dir), asid) == Some(map),
        final(dir).slots@.len() == old(dir).slots@.len(),
        forall|i: int|
            0 <= i < old(dir).slots@.len() && i != (asid >> ASID_LOW_BITS) as int ==> final(dir).slots@[i] == old(dir).slots@[i],
        (final(dir).slots@[(asid >> ASID_LOW_BITS) as int] matches Some(p2) && old(dir).slots@[(
        asid >> ASID_LOW_BITS) as int] matches Some(p1) && p2.addr == p1.addr && p2.maps@
            == p1.maps@.update((asid & ASID_LOW_MASK) as int, map)),
{
    proof {
        lemma_asid_decomposition(asid);
    }
    let hi = asid >> ASID_LOW_BITS;
    let lo = asid & ASID_LOW_MASK;
    match &mut dir.slots[hi] {
        Some(pool) => {
            pool.set_map(lo, map);
        },
        None => {},
    }
}

/// Install the initial task's ASID pool at boot: the pool named by the
/// ASID-pool capability is placed in the directory slot of the reserved
/// initial ASID, holding one live mapping — the initial ASID mapped to the
/// VSpace capability's translation root.
pub fn write_it_asid_pool(dir: &mut AsidDirectory, it_ap_cap: &cap_t, it_vspace_cap: &cap_t)
    requires
        old(dir).wf(),
        *it_ap_cap matches cap_t::AsidPoolCap { pool_addr } && pool_addr != 0,
        *it_vspace_cap matches cap_t::VspaceCap { .. },
    ensures
        final(dir).wf(),
        (*it_vspace_cap matches cap_t::VspaceCap { pgd_base_ptr, .. } ==> spec_find_map(
            *final(dir),
            IT_ASID,
        ) == Some(asid_map_t::AsidMapVspace { vspace_root: pgd_base_ptr })),
        (*it_ap_cap matches cap_t::AsidPoolCap { pool_addr } && final(dir).slots@[(IT_ASID
            >> ASID_LOW_BITS) as int] matches Some(p) && p.addr == pool_addr),
        (final(dir).slots@[(IT_ASID >> ASID_LOW_BITS) as int] matches Some(p) && forall|i: int|
            0 <= i < ASID_POOL_SLOTS && i != (IT_ASID & ASID_LOW_MASK) as int ==> p.maps@[i]
                == asid_map_t::AsidMapNone),
        forall|i: int|
            0 <= i < old(dir).slots@.len() && i != (IT_ASID >> ASID_LOW_BITS) as int ==> final(dir).slots@[i] == old(dir).slots@[i],
        final(dir).slots@.len() == old(dir).slots@.len(),
{
    proof {
        lemma_asid_decomposition(IT_ASID);
        assert(1usize >> 9usize == 0usize) by (bit_vector);
        assert(1usize & 0x1ffusize == 1usize) by (bit_vector);
    }
    let pool_ptr = match *it_ap_cap {
        cap_t::AsidPoolCap { pool_addr } => pool_addr,
        _ => 0,
    };
    let root = match *it_vspace_cap {
        cap_t::VspaceCap { pgd_base_ptr, .. } => pgd_base_ptr,
        _ => 0,
    };
    let mut ap = asid_pool_t::new(pool_ptr);
    ap.set_map(IT_ASID & ASID_LOW_MASK, asid_map_t::new_vspace(root));
    dir.slots[IT_ASID >> ASID_LOW_BITS] = Some(ap);
}

} // verus!
