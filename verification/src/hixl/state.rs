//! The state kept beside the process-wide HiXL engine.
use std::collections::HashMap;
use vstd::hash_set::StringHashSet;
use vstd::prelude::*;

use crate::hixl::error::HixlError;
use crate::hixl::memory::MemTable;
use crate::rdma::transport::RdmaTransportLevel;

verus! {

/// Bookkeeping of the HiXL engine that a process owns.
pub struct HixlEngineState {
    /// The name under which peers connect to the engine.
    pub engine_id: String,
    /// The engines that this one has connected to.
    pub connected_peers: StringHashSet,
    /// Regions registered with the engine: address to (size, reference count).
    pub registered_addrs: HashMap<usize, (usize, usize)>,
    /// Sub-ranges served by the registration of another address:
    /// address to (owner address, reference count).
    pub aliased_addrs: HashMap<usize, (usize, usize)>,
    /// `true` when running over RoCE instead of HCCS.
    pub force_roce: bool,
    /// `true` when a range inside a registered region is served by that region.
    pub alias_enabled: bool,
}

/// What contracts say of a [`HixlEngineState`].
#[verifier::ext_equal]
pub struct EngineView {
    pub engine_id: Seq<char>,
    pub peers: Set<Seq<char>>,
    pub mem: MemTable,
    pub force_roce: bool,
    pub alias_enabled: bool,
}

impl View for HixlEngineState {
    type V = EngineView;

    open spec fn view(&self) -> EngineView {
        EngineView {
            engine_id: self.engine_id@,
            peers: self.connected_peers@,
            mem: MemTable { regions: self.registered_addrs@, aliases: self.aliased_addrs@ },
            force_roce: self.force_roce,
            alias_enabled: self.alias_enabled,
        }
    }
}

impl HixlEngineState {
    /// The invariant that every operation keeps.
    pub open spec fn wf(&self) -> bool {
        self@.mem.wf()
    }

    /// The state of an engine that has just been created.
    pub fn new(engine_id: String, force_roce: bool, alias_enabled: bool) -> (state: Self)
        ensures
            state.wf(),
            state@.engine_id == engine_id@,
            state@.peers == Set::<Seq<char>>::empty(),
            state@.mem == MemTable::empty(),
            state@.force_roce == force_roce,
            state@.alias_enabled == alias_enabled,
    {
        HixlEngineState {
            engine_id,
            connected_peers: StringHashSet::new(),
            registered_addrs: HashMap::new(),
            aliased_addrs: HashMap::new(),
            force_roce,
            alias_enabled,
        }
    }
}

/// How long a caller sleeps before it looks for the engine again.
pub const STATE_POLL_MS: u64 = 100;

/// How often a caller sleeps before it gives up.
pub const STATE_POLLS: u32 = 100;

/// What a caller that needs the engine does next.
#[derive(Debug, Clone, Copy, PartialEq, Eq, Structural)]
pub enum StateWait {
    /// Go on: the engine is there.
    Ready,
    /// Sleep, then look again.
    Sleep { millis: u64 },
}

/// Tests whether the engine is initialised.
pub fn is_hixl_initialized(engine: &Option<HixlEngineState>) -> (yes: bool)
    ensures
        yes == (*engine is Some),
{
    engine.is_some()
}

/// Decides how a caller that has slept `sleeps` times waits for the engine. All
/// in all it sleeps for at most ten seconds.
pub fn get_hixl_state(engine: &Option<HixlEngineState>, sleeps: u32) -> (wait: Result<
    StateWait,
    HixlError,
>)
    ensures
        wait == (if *engine is Some {
            Ok::<StateWait, HixlError>(StateWait::Ready)
        } else if sleeps < STATE_POLLS {
            Ok(StateWait::Sleep { millis: STATE_POLL_MS })
        } else {
            Err(HixlError::NotInitialised)
        }),
        wait matches Ok(StateWait::Sleep { millis }) ==> sleeps * STATE_POLL_MS + millis <= 10_000,
{
    if is_hixl_initialized(engine) {
        Ok(StateWait::Ready)
    } else if sleeps < STATE_POLLS {
        Ok(StateWait::Sleep { millis: STATE_POLL_MS })
    } else {
        Err(HixlError::NotInitialised)
    }
}

/// Runs `f` on the state of the engine.
pub fn with_state<F, R>(engine: &Option<HixlEngineState>, f: F) -> (result: Result<
    R,
    HixlError,
>) where F: FnOnce(&HixlEngineState) -> Result<R, HixlError>
    requires
        *engine matches Some(state) ==> call_requires(f, (&state,)),
    ensures
        match *engine {
            Some(state) => call_ensures(f, (&state,), result),
            None => result == Err::<R, HixlError>(HixlError::NotInitialised),
        },
{
    match engine {
        Some(state) => f(state),
        None => Err(HixlError::NotInitialised),
    }
}

/// The name of the local engine.
pub fn global_engine_id(engine: &Option<HixlEngineState>) -> (engine_id: Result<
    String,
    HixlError,
>)
    ensures
        match *engine {
            Some(state) => engine_id matches Ok(id) && id@ == state@.engine_id,
            None => engine_id == Err::<String, HixlError>(HixlError::NotInitialised),
        },
{
    match engine {
        Some(state) => Ok(state.engine_id.clone()),
        None => Err(HixlError::NotInitialised),
    }
}

/// The level on which the local engine communicates.
pub fn transport_level(engine: &Option<HixlEngineState>) -> (level: RdmaTransportLevel)
    ensures
        level == (match *engine {
            Some(state) => if state@.force_roce {
                RdmaTransportLevel::Nic
            } else {
                RdmaTransportLevel::Hccs
            },
            None => RdmaTransportLevel::Nic,
        }),
{
    match engine {
        Some(state) => if state.force_roce {
            RdmaTransportLevel::Nic
        } else {
            RdmaTransportLevel::Hccs
        },
        None => RdmaTransportLevel::Nic,
    }
}

/// An engine shows itself as it is.
pub proof fn law_engine_is_seen_as_it_is(state: HixlEngineState)
    ensures
        state@.engine_id == state.engine_id@,
        state@.peers == state.connected_peers@,
        state@.mem.regions == state.registered_addrs@,
        state@.mem.aliases == state.aliased_addrs@,
        state@.force_roce == state.force_roce,
        state@.alias_enabled == state.alias_enabled,
{
}

} // verus!
