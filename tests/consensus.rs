use integritee_node::consensus::{select_mode, BuildOnAccess, ConsensusMode, WaitForAuraConsensus};
use std::cell::Cell;
use std::rc::Rc;

#[test]
fn probe_outcomes_pick_modes() {
    assert_eq!(select_mode::<String>(Ok(true)), ConsensusMode::Native);
    assert_eq!(select_mode::<String>(Ok(false)), ConsensusMode::Bootstrap);
    assert_eq!(select_mode::<String>(Err("state unavailable".to_string())), ConsensusMode::Bootstrap);
}

#[test]
fn native_is_built_once_over_a_run() {
    let builds = Rc::new(Cell::new(0u32));
    let counter = builds.clone();
    let mut selector = WaitForAuraConsensus::new("relay", move || {
        counter.set(counter.get() + 1);
        "aura"
    });
    let probes: [Result<bool, ()>; 4] = [Ok(false), Ok(false), Ok(true), Ok(true)];
    let mut modes = Vec::new();
    for probe in probes {
        modes.push(selector.select(probe));
    }
    assert_eq!(
        modes,
        vec![ConsensusMode::Bootstrap, ConsensusMode::Bootstrap, ConsensusMode::Native, ConsensusMode::Native]
    );
    assert_eq!(builds.get(), 1);
    assert_eq!(*selector.aura_mut(), "aura");
    assert_eq!(*selector.relay_chain_mut(), "relay");
    assert_eq!(builds.get(), 1);
}

#[test]
fn bootstrap_blocks_do_not_build_native() {
    let builds = Rc::new(Cell::new(0u32));
    let counter = builds.clone();
    let mut selector = WaitForAuraConsensus::new(1u8, move || {
        counter.set(counter.get() + 1);
        2u8
    });
    assert_eq!(selector.select::<()>(Ok(false)), ConsensusMode::Bootstrap);
    assert_eq!(builds.get(), 0);
    assert!(!selector.aura.is_initialized());
}

#[test]
fn failed_probe_then_success_on_same_parent() {
    let mut selector = WaitForAuraConsensus::new(0u32, || 7u32);
    assert_eq!(selector.select::<&str>(Err("no state")), ConsensusMode::Bootstrap);
    assert!(!selector.aura.is_initialized());
    assert_eq!(selector.select::<&str>(Ok(true)), ConsensusMode::Native);
    assert!(selector.aura.is_initialized());
    assert_eq!(*selector.aura_mut(), 7);
}

#[test]
fn build_on_access_keeps_mutations() {
    let builds = Rc::new(Cell::new(0u32));
    let counter = builds.clone();
    let mut lazy = BuildOnAccess::new(move || {
        counter.set(counter.get() + 1);
        vec![1u8]
    });
    assert!(!lazy.is_initialized());
    lazy.get_mut().push(2);
    assert_eq!(*lazy.get_mut(), vec![1u8, 2]);
    assert_eq!(builds.get(), 1);
}
