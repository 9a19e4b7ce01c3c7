use monarch_ascend::hixl::error::HixlError;
use monarch_ascend::hixl::memory::{
    deregister_mem, deregister_mem_done, register_mem_done, register_mem_if_needed,
    DeregisterStep, RegisterStep, HCCS_ALIGNMENT,
};
use monarch_ascend::hixl::state::HixlEngineState;

const REGION: usize = 4 * HCCS_ALIGNMENT;

fn engine(force_roce: bool, alias_enabled: bool) -> Option<HixlEngineState> {
    Some(HixlEngineState::new(String::from("10.0.0.1:20001"), force_roce, alias_enabled))
}

fn add_region(engine: &mut Option<HixlEngineState>, addr: usize, size: usize) {
    let step = register_mem_if_needed(engine, addr, size).unwrap();
    assert!(matches!(step, RegisterStep::CallEngine { .. }));
    assert_eq!(register_mem_done(engine, addr, size, Ok(())), Ok(()));
}

fn region(engine: &Option<HixlEngineState>, addr: usize) -> Option<(usize, usize)> {
    engine.as_ref().unwrap().registered_addrs.get(&addr).copied()
}

fn alias(engine: &Option<HixlEngineState>, addr: usize) -> Option<(usize, usize)> {
    engine.as_ref().unwrap().aliased_addrs.get(&addr).copied()
}

#[test]
fn alignment_is_two_megabytes() {
    assert_eq!(HCCS_ALIGNMENT, 2 * 1024 * 1024);
}

#[test]
fn first_registration_goes_to_the_engine() {
    let mut engine = engine(false, false);
    assert_eq!(
        register_mem_if_needed(&mut engine, REGION, 4096),
        Ok(RegisterStep::CallEngine { addr: REGION, size: 4096, misaligned_by: None })
    );
    assert_eq!(region(&engine, REGION), None);
    assert_eq!(register_mem_done(&mut engine, REGION, 4096, Ok(())), Ok(()));
    assert_eq!(region(&engine, REGION), Some((4096, 1)));
}

#[test]
fn refused_registration_leaves_no_trace() {
    let mut engine = engine(false, false);
    let _ = register_mem_if_needed(&mut engine, REGION, 4096);
    assert_eq!(
        register_mem_done(&mut engine, REGION, 4096, Err(-7)),
        Err(HixlError::RegisterMem { addr: REGION, size: 4096, ret: -7 })
    );
    assert_eq!(region(&engine, REGION), None);
}

#[test]
fn later_registrations_only_count() {
    let mut engine = engine(false, false);
    add_region(&mut engine, REGION, 4096);
    assert_eq!(
        register_mem_if_needed(&mut engine, REGION, 1),
        Ok(RegisterStep::Registered)
    );
    assert_eq!(region(&engine, REGION), Some((4096, 2)));
    assert_eq!(deregister_mem(&mut engine, REGION), Ok(DeregisterStep::Released));
    assert_eq!(region(&engine, REGION), Some((4096, 1)));
    assert_eq!(
        deregister_mem(&mut engine, REGION),
        Ok(DeregisterStep::CallEngine { addr: REGION })
    );
    assert_eq!(region(&engine, REGION), None);
}

#[test]
fn misalignment_matters_to_hccs_only() {
    let mut hccs = engine(false, false);
    assert_eq!(
        register_mem_if_needed(&mut hccs, REGION + 0x1234, 8),
        Ok(RegisterStep::CallEngine {
            addr: REGION + 0x1234,
            size: 8,
            misaligned_by: Some(0x1234),
        })
    );
    let mut roce = engine(true, false);
    assert_eq!(
        register_mem_if_needed(&mut roce, REGION + 0x1234, 8),
        Ok(RegisterStep::CallEngine { addr: REGION + 0x1234, size: 8, misaligned_by: None })
    );
}

#[test]
fn contained_range_is_registered_without_aliasing() {
    let mut engine = engine(true, false);
    add_region(&mut engine, REGION, 4096);
    assert!(matches!(
        register_mem_if_needed(&mut engine, REGION + 16, 16),
        Ok(RegisterStep::CallEngine { .. })
    ));
    assert_eq!(alias(&engine, REGION + 16), None);
}

#[test]
fn contained_range_becomes_an_alias() {
    let mut engine = engine(true, true);
    add_region(&mut engine, REGION, 4096);
    assert_eq!(
        register_mem_if_needed(&mut engine, REGION + 16, 4080),
        Ok(RegisterStep::Registered)
    );
    assert_eq!(alias(&engine, REGION + 16), Some((REGION, 1)));
    assert_eq!(region(&engine, REGION), Some((4096, 2)));
    assert_eq!(
        register_mem_if_needed(&mut engine, REGION + 16, 4080),
        Ok(RegisterStep::Registered)
    );
    assert_eq!(alias(&engine, REGION + 16), Some((REGION, 2)));
    assert_eq!(region(&engine, REGION), Some((4096, 3)));
}

#[test]
fn range_across_the_end_is_no_alias() {
    let mut engine = engine(true, true);
    add_region(&mut engine, REGION, 4096);
    assert!(matches!(
        register_mem_if_needed(&mut engine, REGION + 16, 4081),
        Ok(RegisterStep::CallEngine { .. })
    ));
    assert!(matches!(
        register_mem_if_needed(&mut engine, REGION - 1, 4),
        Ok(RegisterStep::CallEngine { .. })
    ));
    assert!(matches!(
        register_mem_if_needed(&mut engine, usize::MAX, 4096),
        Ok(RegisterStep::CallEngine { .. })
    ));
}

#[test]
fn region_outlives_its_aliases() {
    let mut engine = engine(true, true);
    add_region(&mut engine, REGION, 4096);
    let _ = register_mem_if_needed(&mut engine, REGION + 16, 16);
    assert_eq!(deregister_mem(&mut engine, REGION), Ok(DeregisterStep::Released));
    assert_eq!(region(&engine, REGION), Some((4096, 1)));
    assert_eq!(
        deregister_mem(&mut engine, REGION + 16),
        Ok(DeregisterStep::CallEngine { addr: REGION })
    );
    assert_eq!(region(&engine, REGION), None);
    assert_eq!(alias(&engine, REGION + 16), None);
}

#[test]
fn release_of_an_alias_counts_down() {
    let mut engine = engine(true, true);
    add_region(&mut engine, REGION, 4096);
    let _ = register_mem_if_needed(&mut engine, REGION + 16, 16);
    let _ = register_mem_if_needed(&mut engine, REGION + 16, 16);
    assert_eq!(deregister_mem(&mut engine, REGION + 16), Ok(DeregisterStep::Released));
    assert_eq!(alias(&engine, REGION + 16), Some((REGION, 1)));
    assert_eq!(region(&engine, REGION), Some((4096, 2)));
    assert_eq!(deregister_mem(&mut engine, REGION + 16), Ok(DeregisterStep::Released));
    assert_eq!(alias(&engine, REGION + 16), None);
    assert_eq!(region(&engine, REGION), Some((4096, 1)));
}

#[test]
fn alias_can_lose_its_owner_to_too_many_releases() {
    let mut engine = engine(true, true);
    add_region(&mut engine, REGION, 4096);
    let _ = register_mem_if_needed(&mut engine, REGION + 16, 16);
    assert_eq!(deregister_mem(&mut engine, REGION), Ok(DeregisterStep::Released));
    assert_eq!(
        deregister_mem(&mut engine, REGION),
        Ok(DeregisterStep::CallEngine { addr: REGION })
    );
    assert_eq!(alias(&engine, REGION + 16), Some((REGION, 1)));
    assert_eq!(deregister_mem(&mut engine, REGION + 16), Ok(DeregisterStep::Released));
    assert_eq!(alias(&engine, REGION + 16), None);
}

#[test]
fn unknown_address_is_ignored() {
    let mut engine = engine(false, false);
    add_region(&mut engine, REGION, 4096);
    assert_eq!(deregister_mem(&mut engine, REGION + 1), Ok(DeregisterStep::NotRegistered));
    assert_eq!(region(&engine, REGION), Some((4096, 1)));
}

#[test]
fn failed_deregistration_counts_as_success() {
    assert_eq!(deregister_mem_done(Ok(())), Ok(()));
    assert_eq!(deregister_mem_done(Err(103_900)), Ok(()));
}

#[test]
fn memory_needs_an_engine() {
    let mut none: Option<HixlEngineState> = None;
    assert_eq!(
        register_mem_if_needed(&mut none, REGION, 1),
        Err(HixlError::NotInitialised)
    );
    assert_eq!(deregister_mem(&mut none, REGION), Err(HixlError::NotInitialised));
}

#[test]
fn full_counters_have_no_room() {
    let mut engine = engine(true, true);
    add_region(&mut engine, REGION, 4096);
    let state = engine.as_mut().unwrap();
    assert!(state.has_room(REGION, 4096));
    assert!(state.has_room(REGION + 16, 16));
    state.registered_addrs.insert(REGION, (4096, usize::MAX));
    assert!(!state.has_room(REGION, 4096));
    assert!(!state.has_room(REGION + 16, 16));
    assert!(state.has_room(REGION + 16, 4096));
    state.aliased_addrs.insert(REGION + 32, (REGION, 1));
    assert!(!state.has_room(REGION + 32, 16));
    state.registered_addrs.insert(REGION, (4096, 1));
    assert!(state.has_room(REGION + 32, 16));
    state.aliased_addrs.insert(REGION + 32, (REGION, usize::MAX));
    assert!(!state.has_room(REGION + 32, 16));
    state.alias_enabled = false;
    state.registered_addrs.insert(REGION, (4096, usize::MAX));
    assert!(state.has_room(REGION + 16, 16));
}

#[test]
fn containing_owner_is_found() {
    let mut engine = engine(true, true);
    add_region(&mut engine, REGION, 4096);
    add_region(&mut engine, 2 * REGION, 64);
    let state = engine.as_ref().unwrap();
    assert_eq!(state.find_containing_owner(REGION + 4095, 1), Some(REGION));
    assert_eq!(state.find_containing_owner(REGION + 4096, 0), Some(REGION));
    assert_eq!(state.find_containing_owner(2 * REGION, 64), Some(2 * REGION));
    assert_eq!(state.find_containing_owner(2 * REGION, 65), None);
}
