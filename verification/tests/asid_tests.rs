use sel4_core::asid::{
    asid_map_t, asid_pool_t, cap_t, delete_asid, delete_asid_pool, find_map_for_asid,
    find_vspace_for_asid, get_asid_pool_by_index, invalidate_local_tlb_asid, set_asid_pool_by_index,
    set_map_for_asid, set_vm_root, write_it_asid_pool, AsidDirectory, MachineState, ASID_LOW_BITS,
    ASID_LOW_MASK, ASID_POOL_SLOTS, ASID_TABLE_SLOTS, IT_ASID,
};
use sel4_core::common::{exception_t, lookup_fault_t};

#[test]
fn fresh_directory_is_empty() {
    let dir = AsidDirectory::new();
    for idx in 0..ASID_TABLE_SLOTS {
        assert_eq!(get_asid_pool_by_index(&dir, idx), 0);
    }
}

#[test]
fn write_it_asid_pool_installs_initial_mapping() {
    let mut dir = AsidDirectory::new();
    let ap_cap = cap_t::AsidPoolCap { pool_addr: 0x4000 };
    let vs_cap = cap_t::VspaceCap { pgd_base_ptr: 0x8000, mapped_asid: IT_ASID };
    write_it_asid_pool(&mut dir, &ap_cap, &vs_cap);
    assert_eq!(get_asid_pool_by_index(&dir, IT_ASID >> ASID_LOW_BITS), 0x4000);
    assert_eq!(
        find_map_for_asid(&dir, IT_ASID),
        Some(asid_map_t::AsidMapVspace { vspace_root: 0x8000 })
    );
    let r = find_vspace_for_asid(&dir, IT_ASID);
    assert_eq!(r.status, exception_t::EXCEPTION_NONE);
    assert_eq!(r.vspace_root, Some(0x8000));
    assert_eq!(r.lookup_fault, None);
}

#[test]
fn asid_decomposition_round_trip() {
    let asid: usize = (3 << ASID_LOW_BITS) | 7;
    assert!(asid >> ASID_LOW_BITS == 3 && 3 < ASID_TABLE_SLOTS);
    assert!(asid & ASID_LOW_MASK == 7 && 7 < ASID_POOL_SLOTS);

    let mut dir = AsidDirectory::new();
    set_asid_pool_by_index(&mut dir, 3, Some(asid_pool_t::new(0x7000)));
    let map = asid_map_t::AsidMapVspace { vspace_root: 0xabc000 };
    set_map_for_asid(&mut dir, asid, map);
    assert_eq!(find_map_for_asid(&dir, asid), Some(map));
}

#[test]
fn find_vspace_without_pool_reports_lookup_fault() {
    let dir = AsidDirectory::new();
    let r = find_vspace_for_asid(&dir, 0x123);
    assert_eq!(r.status, exception_t::EXCEPTION_LOOKUP_FAULT);
    assert_eq!(r.vspace_root, None);
    assert_eq!(r.lookup_fault, Some(lookup_fault_t::InvalidRoot));
}

#[test]
fn find_vspace_on_empty_mapping_reports_lookup_fault() {
    let mut dir = AsidDirectory::new();
    set_asid_pool_by_index(&mut dir, 0, Some(asid_pool_t::new(0x7000)));
    let r = find_vspace_for_asid(&dir, 5);
    assert_eq!(r.status, exception_t::EXCEPTION_LOOKUP_FAULT);
    assert_eq!(r.lookup_fault, Some(lookup_fault_t::InvalidRoot));
}

#[test]
fn delete_asid_with_wrong_root_is_noop_success() {
    let mut dir = AsidDirectory::new();
    set_asid_pool_by_index(&mut dir, 0, Some(asid_pool_t::new(0x7000)));
    set_map_for_asid(&mut dir, 5, asid_map_t::AsidMapVspace { vspace_root: 0xb000 });
    let mut m = MachineState::new();
    let cap = cap_t::VspaceCap { pgd_base_ptr: 0xa000, mapped_asid: 5 };

    // Installed root is 0xb000, the caller expects 0xa000: stale by design.
    let r = delete_asid(&mut dir, &mut m, 5, 0xa000, &cap);
    assert_eq!(r, Ok(()));
    assert_eq!(
        find_map_for_asid(&dir, 5),
        Some(asid_map_t::AsidMapVspace { vspace_root: 0xb000 })
    );
    assert!(m.tlb_invalidations.is_empty());
}

#[test]
fn delete_asid_with_matching_root_clears_mapping() {
    let mut dir = AsidDirectory::new();
    set_asid_pool_by_index(&mut dir, 0, Some(asid_pool_t::new(0x7000)));
    set_map_for_asid(&mut dir, 5, asid_map_t::AsidMapVspace { vspace_root: 0xb000 });
    set_map_for_asid(&mut dir, 6, asid_map_t::AsidMapVspace { vspace_root: 0xc000 });
    let mut m = MachineState::new();

    // Fall back to the still-installed vspace of ASID 6.
    let fallback = cap_t::VspaceCap { pgd_base_ptr: 0xc000, mapped_asid: 6 };
    let r = delete_asid(&mut dir, &mut m, 5, 0xb000, &fallback);
    assert_eq!(r, Ok(()));
    assert_eq!(find_map_for_asid(&dir, 5), Some(asid_map_t::AsidMapNone));
    let lookup = find_vspace_for_asid(&dir, 5);
    assert_eq!(lookup.status, exception_t::EXCEPTION_LOOKUP_FAULT);
    // The TLB was invalidated for exactly the deleted ASID, and the active
    // root was re-derived from the fallback capability.
    assert_eq!(m.tlb_invalidations, vec![5]);
    assert_eq!(m.active_vspace_root, 0xc000);
}

#[test]
fn delete_asid_of_active_root_falls_back_to_kernel_space() {
    let mut dir = AsidDirectory::new();
    set_asid_pool_by_index(&mut dir, 0, Some(asid_pool_t::new(0x7000)));
    set_map_for_asid(&mut dir, 5, asid_map_t::AsidMapVspace { vspace_root: 0xb000 });
    let mut m = MachineState::new();
    m.active_vspace_root = 0xb000;

    // The fallback capability names the very ASID being deleted, so after
    // the delete it is stale: the kernel's global space is installed.
    let fallback = cap_t::VspaceCap { pgd_base_ptr: 0xb000, mapped_asid: 5 };
    let r = delete_asid(&mut dir, &mut m, 5, 0xb000, &fallback);
    assert_eq!(r, Err(lookup_fault_t::InvalidRoot));
    assert_eq!(m.active_vspace_root, 0);
    assert_eq!(m.tlb_invalidations, vec![5]);
}

#[test]
fn delete_asid_pool_with_stale_pool_address_is_noop() {
    let mut dir = AsidDirectory::new();
    set_asid_pool_by_index(&mut dir, 0, Some(asid_pool_t::new(0x7000)));
    set_map_for_asid(&mut dir, 5, asid_map_t::AsidMapVspace { vspace_root: 0xb000 });
    let mut m = MachineState::new();
    let fallback = cap_t::NullCap;
    let r = delete_asid_pool(&mut dir, &mut m, 0, 0x9999, &fallback);
    assert_eq!(r, Ok(()));
    assert_eq!(get_asid_pool_by_index(&dir, 0), 0x7000);
    assert!(m.tlb_invalidations.is_empty());
}

#[test]
fn delete_asid_pool_invalidates_every_live_mapping() {
    let mut dir = AsidDirectory::new();
    let base: usize = 2 << ASID_LOW_BITS;
    set_asid_pool_by_index(&mut dir, 2, Some(asid_pool_t::new(0x7000)));
    set_map_for_asid(&mut dir, base | 3, asid_map_t::AsidMapVspace { vspace_root: 0xb000 });
    set_map_for_asid(&mut dir, base | 9, asid_map_t::AsidMapVspace { vspace_root: 0xc000 });
    let mut m = MachineState::new();
    let fallback = cap_t::NullCap;

    let r = delete_asid_pool(&mut dir, &mut m, base, 0x7000, &fallback);
    assert_eq!(r, Err(lookup_fault_t::InvalidRoot));
    assert_eq!(get_asid_pool_by_index(&dir, 2), 0);
    // Each live slot's ASID was invalidated, in slot order, before the slot
    // was cleared; the null fallback re-derives the kernel's global space.
    assert_eq!(m.tlb_invalidations, vec![base | 3, base | 9]);
    assert_eq!(m.active_vspace_root, 0);
    let lookup = find_vspace_for_asid(&dir, base | 3);
    assert_eq!(lookup.status, exception_t::EXCEPTION_LOOKUP_FAULT);
}

#[test]
fn set_vm_root_installs_matching_root() {
    let mut dir = AsidDirectory::new();
    set_asid_pool_by_index(&mut dir, 0, Some(asid_pool_t::new(0x7000)));
    set_map_for_asid(&mut dir, 5, asid_map_t::AsidMapVspace { vspace_root: 0xb000 });
    let mut m = MachineState::new();

    let good = cap_t::VspaceCap { pgd_base_ptr: 0xb000, mapped_asid: 5 };
    assert_eq!(set_vm_root(&dir, &mut m, &good), Ok(()));
    assert_eq!(m.active_vspace_root, 0xb000);

    let stale = cap_t::VspaceCap { pgd_base_ptr: 0xdead, mapped_asid: 5 };
    assert_eq!(set_vm_root(&dir, &mut m, &stale), Err(lookup_fault_t::InvalidRoot));
    assert_eq!(m.active_vspace_root, 0);
}

#[test]
fn tlb_invalidations_are_logged_in_order() {
    let mut m = MachineState::new();
    invalidate_local_tlb_asid(&mut m, 4);
    invalidate_local_tlb_asid(&mut m, 9);
    assert_eq!(m.tlb_invalidations, vec![4, 9]);
}

#[test]
fn asid_map_accessors() {
    let none = asid_map_t::new_none();
    assert_eq!(none, asid_map_t::AsidMapNone);
    assert_eq!(none.get_vspace_root(), 0);
    let vs = asid_map_t::new_vspace(0x1234);
    assert_eq!(vs, asid_map_t::AsidMapVspace { vspace_root: 0x1234 });
    assert_eq!(vs.get_vspace_root(), 0x1234);
}
