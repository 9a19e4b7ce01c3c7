//! Connections between engines.
//!
//! Both engines must connect to each other before a transfer can succeed. The
//! remote side is asked first; the local engine connects once it has answered.
use vstd::prelude::*;

use crate::hixl::error::HixlError;
use crate::hixl::state::{EngineView, HixlEngineState};

verus! {

/// How long the engine may take to connect unless the caller says otherwise.
pub const DEFAULT_CONNECT_TIMEOUT_MS: i32 = 10_000;

/// What the engine returns when an HCCS channel cannot be created.
pub const HCCS_CONNECT_ERROR: i32 = 503_900;

/// What is left to do to connect to a peer.
#[derive(Debug, Clone, PartialEq, Eq)]
pub enum ConnectStep {
    /// Nothing: the peer is connected.
    Connected,
    /// Have the engine connect, then report what it returned.
    CallEngine { peer: String, timeout_ms: i32 },
}

/// What is left to do to be connected in both directions.
#[derive(Debug, Clone, PartialEq, Eq)]
pub enum EnsureStep {
    /// Nothing: the peer is connected.
    Connected,
    /// Ask the peer's manager to connect to this engine, then report its answer.
    AskPeer { my_engine_id: String },
}

/// Whether `step` is the next one to connect to `peer`.
pub open spec fn is_connect_step(
    state: EngineView,
    peer: Seq<char>,
    timeout_ms: i32,
    step: ConnectStep,
) -> bool {
    match step {
        ConnectStep::Connected => state.peers.contains(peer),
        ConnectStep::CallEngine { peer: p, timeout_ms: t } => !state.peers.contains(peer) && p@
            == peer && t == timeout_ms,
    }
}

/// Whether `step` is the next one to be connected with `peer` in both directions.
pub open spec fn is_ensure_step(state: EngineView, peer: Seq<char>, step: EnsureStep) -> bool {
    match step {
        EnsureStep::Connected => state.peers.contains(peer),
        EnsureStep::AskPeer { my_engine_id } => !state.peers.contains(peer) && my_engine_id@
            == state.engine_id,
    }
}

/// Whether a failed connection deserves the hint about HCCS alignment.
pub open spec fn hccs_hint(state: EngineView, ret: i32) -> bool {
    ret == HCCS_CONNECT_ERROR && !state.force_roce
}

/// Connects to a peer, within the default time.
pub fn do_connect(engine: &Option<HixlEngineState>, peer: &str) -> (step: Result<
    ConnectStep,
    HixlError,
>)
    ensures
        match *engine {
            Some(state) => step matches Ok(s) && is_connect_step(
                state@,
                peer@,
                DEFAULT_CONNECT_TIMEOUT_MS,
                s,
            ),
            None => step == Err::<ConnectStep, HixlError>(HixlError::NotInitialised),
        },
{
    do_connect_with_timeout(engine, peer, DEFAULT_CONNECT_TIMEOUT_MS)
}

/// Connects to a peer, if it is not connected yet.
pub fn do_connect_with_timeout(
    engine: &Option<HixlEngineState>,
    peer: &str,
    timeout_ms: i32,
) -> (step: Result<ConnectStep, HixlError>)
    ensures
        match *engine {
            Some(state) => step matches Ok(s) && is_connect_step(state@, peer@, timeout_ms, s),
            None => step == Err::<ConnectStep, HixlError>(HixlError::NotInitialised),
        },
{
    match engine {
        Some(state) => {
            if state.connected_peers.contains(peer) {
                Ok(ConnectStep::Connected)
            } else {
                Ok(ConnectStep::CallEngine { peer: peer.to_owned(), timeout_ms })
            }
        },
        None => Err(HixlError::NotInitialised),
    }
}

/// Takes what the engine returned when it was told to connect to `peer`.
pub fn connect_done(
    engine: &mut Option<HixlEngineState>,
    peer: &str,
    ret: Result<(), i32>,
) -> (result: Result<(), HixlError>)
    requires
        *old(engine) is Some,
    ensures
        match ret {
            Ok(_) => {
                &&& result == Ok::<(), HixlError>(())
                &&& *final(engine) matches Some(post)
                &&& post@ == (EngineView {
                    peers: old(engine).unwrap()@.peers.insert(peer@),
                    ..old(engine).unwrap()@
                })
            },
            Err(code) => {
                &&& *final(engine) == *old(engine)
                &&& result matches Err(HixlError::Connect { peer: p, ret: r, hccs_hint: h })
                &&& p@ == peer@
                &&& r == code
                &&& h == hccs_hint(old(engine).unwrap()@, code)
            },
        },
{
    match engine {
        Some(state) => match ret {
            Ok(()) => {
                state.connected_peers.insert(peer.to_owned());
                Ok(())
            },
            Err(code) => Err(
                HixlError::Connect {
                    peer: peer.to_owned(),
                    ret: code,
                    hccs_hint: code == HCCS_CONNECT_ERROR && !state.force_roce,
                },
            ),
        },
        None => vstd::pervasive::unreached(),
    }
}

/// Starts to connect with a peer in both directions.
pub fn ensure_connected(engine: &Option<HixlEngineState>, remote_eid: &str) -> (step: Result<
    EnsureStep,
    HixlError,
>)
    ensures
        match *engine {
            Some(state) => step matches Ok(s) && is_ensure_step(state@, remote_eid@, s),
            None => step == Err::<EnsureStep, HixlError>(HixlError::NotInitialised),
        },
{
    match engine {
        Some(state) => {
            if state.connected_peers.contains(remote_eid) {
                Ok(EnsureStep::Connected)
            } else {
                Ok(EnsureStep::AskPeer { my_engine_id: state.engine_id.clone() })
            }
        },
        None => Err(HixlError::NotInitialised),
    }
}

/// Takes the answer of the peer's manager. The local engine connects only after
/// the peer has done so.
pub fn peer_answered(
    engine: &Option<HixlEngineState>,
    remote_eid: &str,
    answer: Result<(), String>,
) -> (step: Result<ConnectStep, HixlError>)
    ensures
        match answer {
            Err(reason) => {
                &&& step matches Err(HixlError::PeerUnreachable { peer, reason: r })
                &&& peer@ == remote_eid@
                &&& r == reason
            },
            Ok(_) => match *engine {
                Some(state) => step matches Ok(s) && is_connect_step(
                    state@,
                    remote_eid@,
                    DEFAULT_CONNECT_TIMEOUT_MS,
                    s,
                ),
                None => step == Err::<ConnectStep, HixlError>(HixlError::NotInitialised),
            },
        },
{
    match answer {
        Err(reason) => Err(HixlError::PeerUnreachable { peer: remote_eid.to_owned(), reason }),
        Ok(()) => do_connect(engine, remote_eid),
    }
}

/// Once the engine has connected to a peer, nothing is left to do to connect to
/// it again, with whatever timeout, or in both directions.
pub proof fn law_connected_stays_connected(
    state: EngineView,
    peer: Seq<char>,
    timeout_ms: i32,
    connect: ConnectStep,
    ensure: EnsureStep,
)
    requires
        is_connect_step(
            EngineView { peers: state.peers.insert(peer), ..state },
            peer,
            timeout_ms,
            connect,
        ),
        is_ensure_step(EngineView { peers: state.peers.insert(peer), ..state }, peer, ensure),
    ensures
        connect is Connected,
        ensure is Connected,
{
}

/// The engine is told to connect exactly where the peer is not connected, and then to
/// that very peer within the time that was asked for.
pub proof fn law_engine_connects_to_the_peer(
    state: EngineView,
    peer: Seq<char>,
    timeout_ms: i32,
    step: ConnectStep,
)
    requires
        is_connect_step(state, peer, timeout_ms, step),
    ensures
        step is Connected <==> state.peers.contains(peer),
        step matches ConnectStep::CallEngine { peer: to, timeout_ms: within } ==> to@ == peer
            && within == timeout_ms,
{
}

/// The peer is asked exactly where it is not connected, and then to connect to this
/// very engine.
pub proof fn law_peer_is_asked_to_connect_here(
    state: EngineView,
    peer: Seq<char>,
    step: EnsureStep,
)
    requires
        is_ensure_step(state, peer, step),
    ensures
        step is Connected <==> state.peers.contains(peer),
        step matches EnsureStep::AskPeer { my_engine_id } ==> my_engine_id@ == state.engine_id,
{
}

/// The hint about alignment is given exactly where HCCS failed to make a channel.
pub proof fn law_hint_is_for_hccs(state: EngineView, ret: i32)
    ensures
        hccs_hint(state, ret) <==> ret == 503_900 && !state.force_roce,
        DEFAULT_CONNECT_TIMEOUT_MS == 10_000,
{
}

} // verus!
