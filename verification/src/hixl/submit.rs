//! Submission of operations.
//!
//! A [`Submission`] works through its operations one by one. Each of its methods
//! takes what the action before it came to and gives the next action.
use vstd::prelude::*;

use crate::hixl::connect::{
    connect_done, ensure_connected, hccs_hint, peer_answered, ConnectStep, EnsureStep,
    DEFAULT_CONNECT_TIMEOUT_MS, HCCS_CONNECT_ERROR,
};
use crate::hixl::error::HixlError;
use crate::hixl::memory::{register_mem_done, register_mem_if_needed, RegisterStep};
use crate::hixl::state::{EngineView, HixlEngineState};
use crate::rdma::buffer::{
    KeepaliveLocalMemory, OpView, RdmaAction, RdmaOp, RdmaOpType, RemoteBufferView,
};

verus! {

/// How often a read is tried.
pub const READ_ATTEMPTS: u32 = 3;

/// How long to wait before a read is tried again.
pub const READ_RETRY_MS: u64 = 1_000;

/// A transfer between local memory and a buffer of a connected engine.
#[derive(Debug, PartialEq, Eq)]
pub struct Transfer {
    pub engine_id: String,
    pub local: usize,
    pub remote: usize,
    pub len: usize,
    pub timeout_ms: i32,
}

/// What to do next for a submission.
#[derive(Debug, PartialEq, Eq)]
pub enum SubmitAction {
    /// Register local memory with the engine; `registered` takes what it returned.
    RegisterMem { addr: usize, size: usize, misaligned_by: Option<usize> },
    /// Ask the owner of the remote buffer to connect; `peer_answered` takes the
    /// answer.
    AskPeer { my_engine_id: String },
    /// Have the engine connect; `connected` takes what it returned.
    Connect { peer: String, timeout_ms: i32 },
    /// Have the engine write; `transferred` takes what it returned.
    Write(Transfer),
    /// Have the engine read; `transferred` takes what it returned.
    Read(Transfer),
    /// Sleep, then go on with `woke`.
    Sleep { millis: u64 },
    /// The operation is complete; go on with `begin_op`.
    NextOp,
    /// The submission has ended.
    Done(Result<(), HixlError>),
}

/// Why a transfer failed.
#[derive(Debug, Clone, Copy, PartialEq, Eq, Structural)]
pub enum TransferFailure {
    /// The engine was not there.
    NoEngine,
    /// The engine returned a code.
    Code(i32),
}

/// What a submission waits for.
#[derive(Debug, Clone, Copy, PartialEq, Eq, Structural)]
pub enum SubmitPhase {
    /// To take up the current operation.
    Begin,
    /// For the engine to register the local memory.
    Registering,
    /// For the peer's manager.
    AskingPeer,
    /// For the engine to connect.
    Connecting,
    /// For the transfer, tried `attempt` times before.
    Transferring { attempt: u32 },
    /// To try the transfer again, after `attempt` attempts.
    Waiting { attempt: u32 },
    /// For nothing: it has ended.
    Ended,
}

/// What a submission learns when it is told how an action went, and of the engine at
/// that time.
pub enum SubmitEvent {
    /// An operation is taken up. `known` tells whether the tables satisfy the
    /// registration of its local memory, and `connected` whether the peer is.
    Begun { engine: bool, known: bool, connected: bool },
    /// The engine returned `ret` for the local memory.
    Registered { ret: Result<(), i32>, connected: bool },
    /// The peer's manager answered.
    Answered { answer: Result<(), String>, engine: bool, connected: bool },
    /// The engine returned `ret` when it was told to connect.
    Connected { ret: Result<(), i32>, force_roce: bool },
    /// The transfer came to an end.
    Transferred(Result<(), TransferFailure>),
    /// The wait is over.
    Woke,
}

/// Why an operation fails.
pub enum OpFailure {
    /// HiXL does not serve the remote buffer.
    Incompatible,
    /// There is no engine.
    NoEngine,
    /// The engine refused the local memory.
    Register(i32),
    /// The peer's manager could not be brought to connect.
    Peer(String),
    /// The engine could not connect.
    Connect { ret: i32, force_roce: bool },
    /// The transfer failed for good.
    Transfer(TransferFailure),
}

impl OpFailure {
    /// Whether `error` reports that `op` failed for this reason.
    pub open spec fn is_reported<K, C>(self, op: OpView<K, C>, error: HixlError) -> bool {
        match self {
            OpFailure::Incompatible => error == HixlError::IncompatibleBackend,
            OpFailure::NoEngine => error == HixlError::NotInitialised,
            OpFailure::Register(code) => error == (HixlError::RegisterMem {
                addr: op.local.memory.addr,
                size: op.local.memory.size,
                ret: code,
            }),
            OpFailure::Peer(why) => {
                &&& error matches HixlError::PeerUnreachable { peer, reason }
                &&& peer@ == op.remote.hixl.unwrap().engine_id
                &&& reason == why
            },
            OpFailure::Connect { ret: code, force_roce } => {
                &&& error matches HixlError::Connect { peer, ret, hccs_hint }
                &&& peer@ == op.remote.hixl.unwrap().engine_id
                &&& ret == code
                &&& hccs_hint == (code == HCCS_CONNECT_ERROR && !force_roce)
            },
            OpFailure::Transfer(failure) => is_transfer_error(op, failure, error),
        }
    }
}

/// Operations on their way.
pub struct Submission<K, C> {
    pub ops: Vec<RdmaOp<K, C>>,
    /// The operation in hand; those before it are complete.
    pub current: usize,
    pub phase: SubmitPhase,
    pub timeout_ms: i32,
}

/// A time in milliseconds as the engine takes it: at most `i32::MAX`.
pub open spec fn clamped_ms(millis: u128) -> i32 {
    if millis <= i32::MAX {
        millis as i32
    } else {
        i32::MAX
    }
}

/// Whether `action` carries out the transfer of `op`. A write moves the whole
/// local range, a read the whole remote buffer.
pub open spec fn is_transfer_of<K, C>(op: OpView<K, C>, timeout_ms: i32, action: SubmitAction) -> bool {
    match op.op_type {
        RdmaOpType::WriteFromLocal => action matches SubmitAction::Write(t) && transfer_fits(
            op,
            op.local.memory.size,
            timeout_ms,
            t,
        ),
        RdmaOpType::ReadIntoLocal => action matches SubmitAction::Read(t) && transfer_fits(
            op,
            op.remote.size,
            timeout_ms,
            t,
        ),
    }
}

/// Whether a transfer moves `len` bytes between the two ends of `op`.
pub open spec fn transfer_fits<K, C>(op: OpView<K, C>, len: usize, timeout_ms: i32, t: Transfer) -> bool {
    &&& op.remote.hixl matches Some(buffer)
    &&& t.engine_id@ == buffer.engine_id
    &&& t.local == op.local.memory.addr
    &&& t.remote == buffer.addr
    &&& t.len == len
    &&& t.timeout_ms == timeout_ms
}

/// Whether `error` reports that the transfer of `op` failed for a reason.
pub open spec fn is_transfer_error<K, C>(op: OpView<K, C>, failure: TransferFailure, error: HixlError) -> bool {
    match failure {
        TransferFailure::NoEngine => error is NotInitialised,
        TransferFailure::Code(code) => match op.op_type {
            RdmaOpType::WriteFromLocal => {
                &&& error matches HixlError::TransferWrite { local, remote, engine_id, len, ret }
                &&& op.remote.hixl matches Some(buffer)
                &&& local == op.local.memory.addr
                &&& remote == buffer.addr
                &&& engine_id@ == buffer.engine_id
                &&& len == op.local.memory.size
                &&& ret == code
            },
            RdmaOpType::ReadIntoLocal => {
                &&& error matches HixlError::TransferRead { local, remote, engine_id, len, ret }
                &&& op.remote.hixl matches Some(buffer)
                &&& local == op.local.memory.addr
                &&& remote == buffer.addr
                &&& engine_id@ == buffer.engine_id
                &&& len == op.remote.size
                &&& ret == code
            },
        },
    }
}

impl<K, C> Submission<K, C> {
    /// The operation in hand.
    pub open spec fn op(self) -> OpView<K, C> {
        self.ops@[self.current as int]@
    }

    /// The engine that serves the remote buffer of the operation in hand.
    pub open spec fn peer(self) -> Seq<char> {
        self.op().remote.hixl.unwrap().engine_id
    }

    /// An operation in hand exists and is one for HiXL, and only reads are tried
    /// again.
    pub open spec fn wf(self) -> bool {
        &&& self.current <= self.ops@.len()
        &&& match self.phase {
            SubmitPhase::Begin | SubmitPhase::Ended => true,
            SubmitPhase::Registering | SubmitPhase::AskingPeer | SubmitPhase::Connecting => {
                self.current < self.ops@.len() && self.op().remote.hixl is Some
            },
            SubmitPhase::Transferring { attempt } => {
                &&& self.current < self.ops@.len()
                &&& self.op().remote.hixl is Some
                &&& attempt < READ_ATTEMPTS
                &&& attempt > 0 ==> self.op().op_type == RdmaOpType::ReadIntoLocal
            },
            SubmitPhase::Waiting { attempt } => {
                &&& self.current < self.ops@.len()
                &&& self.op().remote.hixl is Some
                &&& 0 < attempt < READ_ATTEMPTS
                &&& self.op().op_type == RdmaOpType::ReadIntoLocal
            },
        }
    }

    /// How many actions the submission can still take.
    pub open spec fn steps_left(self) -> nat {
        let within: nat = match self.phase {
            SubmitPhase::Ended => 0,
            SubmitPhase::Begin => 9,
            SubmitPhase::Registering => 8,
            SubmitPhase::AskingPeer => 7,
            SubmitPhase::Connecting => 6,
            SubmitPhase::Transferring { attempt } => (5 - 2 * attempt) as nat,
            SubmitPhase::Waiting { attempt } => (6 - 2 * attempt) as nat,
        };
        if self.phase is Ended {
            0
        } else {
            10 * (self.ops@.len() - self.current) as nat + within
        }
    }

    /// The same submission in another phase.
    pub open spec fn with_phase(self, phase: SubmitPhase) -> Submission<K, C> {
        Submission { phase, ..self }
    }

    /// Whether `post` is `self` with the operation in hand completed by its transfer.
    pub open spec fn completes_op(self, post: Submission<K, C>) -> bool {
        &&& self.phase is Transferring
        &&& post == (Submission {
            current: (self.current + 1) as usize,
            phase: SubmitPhase::Begin,
            ..self
        })
        &&& self.current < post.current
    }

    /// Whether `post` can come right after `self`: the operation in hand is
    /// completed, or it stays in hand. Either way fewer actions are left.
    pub open spec fn steps_to(self, post: Submission<K, C>) -> bool {
        &&& post.steps_left() < self.steps_left()
        &&& self.completes_op(post) || post == self.with_phase(post.phase)
    }

    /// What is learnt when the operation in hand is taken up.
    pub open spec fn begun(self, engine: Option<HixlEngineState>) -> SubmitEvent {
        match engine {
            Some(state) => SubmitEvent::Begun {
                engine: true,
                known: state@.mem.satisfies(
                    state@.alias_enabled,
                    self.op().local.memory.addr,
                    self.op().local.memory.size,
                ),
                connected: state@.peers.contains(self.peer()),
            },
            None => SubmitEvent::Begun { engine: false, known: false, connected: false },
        }
    }

    /// What is learnt when the peer's manager has answered.
    pub open spec fn answered(
        self,
        engine: Option<HixlEngineState>,
        answer: Result<(), String>,
    ) -> SubmitEvent {
        match engine {
            Some(state) => SubmitEvent::Answered {
                answer,
                engine: true,
                connected: state@.peers.contains(self.peer()),
            },
            None => SubmitEvent::Answered { answer, engine: false, connected: false },
        }
    }

    /// The failure with which an event ends the submission, if it does.
    pub open spec fn failure_of(self, event: SubmitEvent) -> Option<OpFailure> {
        match (self.phase, event) {
            (SubmitPhase::Begin, SubmitEvent::Begun { engine, .. }) => {
                if self.current >= self.ops@.len() {
                    None
                } else if self.op().remote.hixl is None {
                    Some(OpFailure::Incompatible)
                } else if !engine {
                    Some(OpFailure::NoEngine)
                } else {
                    None
                }
            },
            (SubmitPhase::Registering, SubmitEvent::Registered { ret: Err(code), .. }) => Some(
                OpFailure::Register(code),
            ),
            (SubmitPhase::AskingPeer, SubmitEvent::Answered { answer: Err(why), .. }) => Some(
                OpFailure::Peer(why),
            ),
            (SubmitPhase::AskingPeer, SubmitEvent::Answered { engine: false, .. }) => Some(
                OpFailure::NoEngine,
            ),
            (SubmitPhase::Connecting, SubmitEvent::Connected { ret: Err(ret), force_roce }) => Some(
                OpFailure::Connect { ret, force_roce },
            ),
            (SubmitPhase::Transferring { attempt }, SubmitEvent::Transferred(Err(failure))) => {
                if self.op().op_type == RdmaOpType::ReadIntoLocal && attempt + 1 < READ_ATTEMPTS {
                    None
                } else {
                    Some(OpFailure::Transfer(failure))
                }
            },
            _ => None,
        }
    }

    /// The phase in which the submission waits for a connected peer, or has one.
    pub open spec fn peer_phase(connected: bool, otherwise: SubmitPhase) -> SubmitPhase {
        if connected {
            SubmitPhase::Transferring { attempt: 0 }
        } else {
            otherwise
        }
    }

    /// The submission after an event.
    pub open spec fn after(self, event: SubmitEvent) -> Submission<K, C> {
        if self.failure_of(event) is Some {
            self.with_phase(SubmitPhase::Ended)
        } else {
            match (self.phase, event) {
                (SubmitPhase::Begin, SubmitEvent::Begun { known, connected, .. }) => {
                    self.with_phase(
                        if self.current >= self.ops@.len() {
                            SubmitPhase::Ended
                        } else if !known {
                            SubmitPhase::Registering
                        } else {
                            Self::peer_phase(connected, SubmitPhase::AskingPeer)
                        },
                    )
                },
                (SubmitPhase::Registering, SubmitEvent::Registered { connected, .. }) => {
                    self.with_phase(Self::peer_phase(connected, SubmitPhase::AskingPeer))
                },
                (SubmitPhase::AskingPeer, SubmitEvent::Answered { connected, .. }) => {
                    self.with_phase(Self::peer_phase(connected, SubmitPhase::Connecting))
                },
                (SubmitPhase::Connecting, SubmitEvent::Connected { .. }) => self.with_phase(
                    SubmitPhase::Transferring { attempt: 0 },
                ),
                (SubmitPhase::Transferring { .. }, SubmitEvent::Transferred(Ok(_))) => Submission {
                    current: (self.current + 1) as usize,
                    phase: SubmitPhase::Begin,
                    ..self
                },
                (SubmitPhase::Transferring { attempt }, SubmitEvent::Transferred(Err(_))) => {
                    self.with_phase(SubmitPhase::Waiting { attempt: (attempt + 1) as u32 })
                },
                (SubmitPhase::Waiting { attempt }, SubmitEvent::Woke) => self.with_phase(
                    SubmitPhase::Transferring { attempt },
                ),
                _ => self,
            }
        }
    }

    /// How the submission takes an event: where it goes from `self`, and whether and
    /// how it ends.
    pub open spec fn responds(
        self,
        event: SubmitEvent,
        post: Submission<K, C>,
        action: SubmitAction,
    ) -> bool {
        &&& post == self.after(event)
        &&& match self.failure_of(event) {
            Some(failure) => action matches SubmitAction::Done(Err(error)) && failure.is_reported(
                self.op(),
                error,
            ),
            None => if post.phase is Ended {
                action == SubmitAction::Done(Ok(()))
            } else {
                !(action is Done)
            },
        }
    }

    /// How the submission goes on from `self` once the local memory is registered
    /// and the engine is in `state`.
    pub open spec fn goes_on_to_connect(
        self,
        state: EngineView,
        post: Submission<K, C>,
        action: SubmitAction,
    ) -> bool {
        if state.peers.contains(self.peer()) {
            self.goes_on_to_transfer(post, action)
        } else {
            &&& post == self.with_phase(SubmitPhase::AskingPeer)
            &&& action matches SubmitAction::AskPeer { my_engine_id }
            &&& my_engine_id@ == state.engine_id
        }
    }

    /// How the submission goes on from `self` once the peer is connected.
    pub open spec fn goes_on_to_transfer(self, post: Submission<K, C>, action: SubmitAction) -> bool {
        &&& post == self.with_phase(SubmitPhase::Transferring { attempt: 0 })
        &&& is_transfer_of(self.op(), self.timeout_ms, action)
    }

    /// How the submission ends with a failure.
    pub open spec fn fails_with(
        self,
        post: Submission<K, C>,
        action: SubmitAction,
        error: HixlError,
    ) -> bool {
        &&& post == self.with_phase(SubmitPhase::Ended)
        &&& action == SubmitAction::Done(Err(error))
    }

    /// Starts on a list of operations.
    pub fn new(ops: Vec<RdmaOp<K, C>>, timeout_millis: u128) -> (submission: Self)
        ensures
            submission.wf(),
            submission.ops == ops,
            submission.current == 0,
            submission.phase == SubmitPhase::Begin,
            submission.timeout_ms == clamped_ms(timeout_millis),
    {
        let timeout_ms: i32 = if timeout_millis <= i32::MAX as u128 {
            timeout_millis as i32
        } else {
            i32::MAX
        };
        Submission { ops, current: 0, phase: SubmitPhase::Begin, timeout_ms }
    }

    /// Takes up the next operation: registers its local memory.
    pub fn begin_op(&mut self, engine: &mut Option<HixlEngineState>) -> (action: SubmitAction)
        requires
            old(self).wf(),
            old(self).phase == SubmitPhase::Begin,
            *old(engine) matches Some(state) ==> state.wf(),
            old(self).current < old(self).ops@.len() && old(self).op().remote.hixl is Some ==> (
            *old(engine) matches Some(state) ==> state@.mem.has_room(
                state@.alias_enabled,
                old(self).op().local.memory.addr,
                old(self).op().local.memory.size,
            )),
        ensures
            final(self).wf(),
            old(self).steps_to(*final(self)),
            old(self).responds(old(self).begun(*old(engine)), *final(self), action),
            action matches SubmitAction::Write(t) ==> {
                &&& old(self).ops@[old(self).current as int].op_type == RdmaOpType::WriteFromLocal
                &&& t.len == old(self).ops@[old(self).current as int].local.memory.size
                &&& t.local == old(self).ops@[old(self).current as int].local.memory.addr
                &&& t.timeout_ms == old(self).timeout_ms
            },
            action matches SubmitAction::Read(t) ==> {
                &&& old(self).ops@[old(self).current as int].op_type == RdmaOpType::ReadIntoLocal
                &&& t.len == old(self).ops@[old(self).current as int].remote.size
                &&& t.local == old(self).ops@[old(self).current as int].local.memory.addr
                &&& t.timeout_ms == old(self).timeout_ms
            },
            *final(engine) matches Some(state) ==> state.wf(),
            (*final(engine) is Some) == (*old(engine) is Some),
            if old(self).current == old(self).ops@.len() {
                &&& *final(self) == old(self).with_phase(SubmitPhase::Ended)
                &&& action == SubmitAction::Done(Ok(()))
                &&& *final(engine) == *old(engine)
            } else if old(self).op().remote.hixl is None {
                &&& old(self).fails_with(*final(self), action, HixlError::IncompatibleBackend)
                &&& *final(engine) == *old(engine)
            } else {
                match (*old(engine), *final(engine)) {
                    (Some(pre), Some(post)) => {
                        &&& post@ == (EngineView { mem: post@.mem, ..pre@ })
                        &&& exists|step: RegisterStep| #[trigger]
                            pre@.mem.register(
                                pre@.alias_enabled,
                                pre@.force_roce,
                                old(self).op().local.memory.addr,
                                old(self).op().local.memory.size,
                                post@.mem,
                                step,
                            ) && match step {
                                RegisterStep::Registered => old(self).goes_on_to_connect(
                                    post@,
                                    *final(self),
                                    action,
                                ),
                                RegisterStep::CallEngine { addr, size, misaligned_by } => {
                                    &&& *final(self) == old(self).with_phase(
                                        SubmitPhase::Registering,
                                    )
                                    &&& action == SubmitAction::RegisterMem {
                                        addr,
                                        size,
                                        misaligned_by,
                                    }
                                },
                            }
                    },
                    _ => old(self).fails_with(*final(self), action, HixlError::NotInitialised),
                }
            },
    {
        if self.current == self.ops.len() {
            self.phase = SubmitPhase::Ended;
            return SubmitAction::Done(Ok(()));
        }
        if self.ops[self.current].remote.resolve_hixl().is_none() {
            self.phase = SubmitPhase::Ended;
            return SubmitAction::Done(Err(HixlError::IncompatibleBackend));
        }
        let addr: usize = self.ops[self.current].local.memory.addr;
        let size: usize = self.ops[self.current].local.memory.size;
        match register_mem_if_needed(engine, addr, size) {
            Ok(RegisterStep::Registered) => self.connect(engine),
            Ok(RegisterStep::CallEngine { addr, size, misaligned_by }) => {
                self.phase = SubmitPhase::Registering;
                SubmitAction::RegisterMem { addr, size, misaligned_by }
            },
            Err(error) => self.fail(error),
        }
    }

    fn fail(&mut self, error: HixlError) -> (action: SubmitAction)
        ensures
            old(self).fails_with(*final(self), action, error),
    {
        self.phase = SubmitPhase::Ended;
        SubmitAction::Done(Err(error))
    }

    fn connect(&mut self, engine: &Option<HixlEngineState>) -> (action: SubmitAction)
        requires
            old(self).current < old(self).ops@.len(),
            old(self).op().remote.hixl is Some,
            *engine is Some,
        ensures
            old(self).goes_on_to_connect(engine.unwrap()@, *final(self), action),
    {
        let step = match self.ops[self.current].remote.resolve_hixl() {
            Some(buffer) => ensure_connected(engine, buffer.engine_id.as_str()),
            None => vstd::pervasive::unreached(),
        };
        match step {
            Ok(EnsureStep::Connected) => self.transfer(0),
            Ok(EnsureStep::AskPeer { my_engine_id }) => {
                self.phase = SubmitPhase::AskingPeer;
                SubmitAction::AskPeer { my_engine_id }
            },
            Err(error) => self.fail(error),
        }
    }

    fn transfer(&mut self, attempt: u32) -> (action: SubmitAction)
        requires
            old(self).current < old(self).ops@.len(),
            old(self).op().remote.hixl is Some,
        ensures
            *final(self) == old(self).with_phase(SubmitPhase::Transferring { attempt }),
            is_transfer_of(old(self).op(), old(self).timeout_ms, action),
    {
        self.phase = SubmitPhase::Transferring { attempt };
        let op: &RdmaOp<K, C> = &self.ops[self.current];
        match op.remote.resolve_hixl() {
            Some(buffer) => {
                let engine_id = buffer.engine_id.clone();
                let local: usize = op.local.memory.addr;
                let remote: usize = buffer.addr;
                let timeout_ms: i32 = self.timeout_ms;
                match op.op_type {
                    RdmaOpType::WriteFromLocal => SubmitAction::Write(
                        Transfer { engine_id, local, remote, len: op.local.memory.size, timeout_ms },
                    ),
                    RdmaOpType::ReadIntoLocal => SubmitAction::Read(
                        Transfer { engine_id, local, remote, len: op.remote.size, timeout_ms },
                    ),
                }
            },
            None => vstd::pervasive::unreached(),
        }
    }

    /// Takes what the engine returned for the registration of local memory.
    pub fn registered(
        &mut self,
        engine: &mut Option<HixlEngineState>,
        ret: Result<(), i32>,
    ) -> (action: SubmitAction)
        requires
            old(self).wf(),
            old(self).phase == SubmitPhase::Registering,
            *old(engine) matches Some(state) && state.wf() && state@.mem.vacant(
                old(self).op().local.memory.addr,
            ),
        ensures
            final(self).wf(),
            old(self).steps_to(*final(self)),
            old(self).responds(
                SubmitEvent::Registered {
                    ret,
                    connected: old(engine).unwrap()@.peers.contains(old(self).peer()),
                },
                *final(self),
                action,
            ),
            action matches SubmitAction::Write(t) ==> {
                &&& old(self).ops@[old(self).current as int].op_type == RdmaOpType::WriteFromLocal
                &&& t.len == old(self).ops@[old(self).current as int].local.memory.size
                &&& t.local == old(self).ops@[old(self).current as int].local.memory.addr
                &&& t.timeout_ms == old(self).timeout_ms
            },
            action matches SubmitAction::Read(t) ==> {
                &&& old(self).ops@[old(self).current as int].op_type == RdmaOpType::ReadIntoLocal
                &&& t.len == old(self).ops@[old(self).current as int].remote.size
                &&& t.local == old(self).ops@[old(self).current as int].local.memory.addr
                &&& t.timeout_ms == old(self).timeout_ms
            },
            *final(engine) matches Some(post) && post.wf(),
            match ret {
                Ok(_) => {
                    let op = old(self).op();
                    let post = final(engine).unwrap();
                    &&& post@ == (EngineView {
                        mem: old(engine).unwrap()@.mem.add_region(op.local.memory.addr, op.local.memory.size),
                        ..old(engine).unwrap()@
                    })
                    &&& old(self).goes_on_to_connect(post@, *final(self), action)
                },
                Err(code) => {
                    &&& final(engine).unwrap()@ == old(engine).unwrap()@
                    &&& old(self).fails_with(
                        *final(self),
                        action,
                        HixlError::RegisterMem {
                            addr: old(self).op().local.memory.addr,
                            size: old(self).op().local.memory.size,
                            ret: code,
                        },
                    )
                },
            },
    {
        let addr: usize = self.ops[self.current].local.memory.addr;
        let size: usize = self.ops[self.current].local.memory.size;
        match register_mem_done(engine, addr, size, ret) {
            Ok(()) => self.connect(engine),
            Err(error) => self.fail(error),
        }
    }

    /// Takes the answer of the peer's manager.
    pub fn peer_answered(
        &mut self,
        engine: &Option<HixlEngineState>,
        answer: Result<(), String>,
    ) -> (action: SubmitAction)
        requires
            old(self).wf(),
            old(self).phase == SubmitPhase::AskingPeer,
        ensures
            final(self).wf(),
            old(self).steps_to(*final(self)),
            old(self).responds(old(self).answered(*engine, answer), *final(self), action),
            action matches SubmitAction::Write(t) ==> {
                &&& old(self).ops@[old(self).current as int].op_type == RdmaOpType::WriteFromLocal
                &&& t.len == old(self).ops@[old(self).current as int].local.memory.size
                &&& t.local == old(self).ops@[old(self).current as int].local.memory.addr
                &&& t.timeout_ms == old(self).timeout_ms
            },
            action matches SubmitAction::Read(t) ==> {
                &&& old(self).ops@[old(self).current as int].op_type == RdmaOpType::ReadIntoLocal
                &&& t.len == old(self).ops@[old(self).current as int].remote.size
                &&& t.local == old(self).ops@[old(self).current as int].local.memory.addr
                &&& t.timeout_ms == old(self).timeout_ms
            },
            match answer {
                Err(reason) => {
                    &&& *final(self) == old(self).with_phase(SubmitPhase::Ended)
                    &&& action matches SubmitAction::Done(
                        Err(HixlError::PeerUnreachable { peer, reason: r }),
                    )
                    &&& peer@ == old(self).peer()
                    &&& r == reason
                },
                Ok(_) => match *engine {
                    None => old(self).fails_with(*final(self), action, HixlError::NotInitialised),
                    Some(state) => if state@.peers.contains(old(self).peer()) {
                        old(self).goes_on_to_transfer(*final(self), action)
                    } else {
                        &&& *final(self) == old(self).with_phase(SubmitPhase::Connecting)
                        &&& action matches SubmitAction::Connect { peer, timeout_ms }
                        &&& peer@ == old(self).peer()
                        &&& timeout_ms == DEFAULT_CONNECT_TIMEOUT_MS
                    },
                },
            },
    {
        let step = match self.ops[self.current].remote.resolve_hixl() {
            Some(buffer) => peer_answered(engine, buffer.engine_id.as_str(), answer),
            None => vstd::pervasive::unreached(),
        };
        match step {
            Ok(ConnectStep::Connected) => self.transfer(0),
            Ok(ConnectStep::CallEngine { peer, timeout_ms }) => {
                self.phase = SubmitPhase::Connecting;
                SubmitAction::Connect { peer, timeout_ms }
            },
            Err(error) => self.fail(error),
        }
    }

    /// Takes what the engine returned when it was told to connect.
    pub fn connected(
        &mut self,
        engine: &mut Option<HixlEngineState>,
        ret: Result<(), i32>,
    ) -> (action: SubmitAction)
        requires
            old(self).wf(),
            old(self).phase == SubmitPhase::Connecting,
            *old(engine) is Some,
        ensures
            final(self).wf(),
            old(self).steps_to(*final(self)),
            old(self).responds(
                SubmitEvent::Connected { ret, force_roce: old(engine).unwrap()@.force_roce },
                *final(self),
                action,
            ),
            action matches SubmitAction::Write(t) ==> {
                &&& old(self).ops@[old(self).current as int].op_type == RdmaOpType::WriteFromLocal
                &&& t.len == old(self).ops@[old(self).current as int].local.memory.size
                &&& t.local == old(self).ops@[old(self).current as int].local.memory.addr
                &&& t.timeout_ms == old(self).timeout_ms
            },
            action matches SubmitAction::Read(t) ==> {
                &&& old(self).ops@[old(self).current as int].op_type == RdmaOpType::ReadIntoLocal
                &&& t.len == old(self).ops@[old(self).current as int].remote.size
                &&& t.local == old(self).ops@[old(self).current as int].local.memory.addr
                &&& t.timeout_ms == old(self).timeout_ms
            },
            match ret {
                Ok(_) => {
                    &&& *final(engine) matches Some(post)
                    &&& post@ == (EngineView {
                        peers: old(engine).unwrap()@.peers.insert(old(self).peer()),
                        ..old(engine).unwrap()@
                    })
                    &&& old(self).goes_on_to_transfer(*final(self), action)
                },
                Err(code) => {
                    &&& *final(engine) == *old(engine)
                    &&& *final(self) == old(self).with_phase(SubmitPhase::Ended)
                    &&& action matches SubmitAction::Done(
                        Err(HixlError::Connect { peer, ret: r, hccs_hint: h }),
                    )
                    &&& peer@ == old(self).peer()
                    &&& r == code
                    &&& h == hccs_hint(old(engine).unwrap()@, code)
                },
            },
    {
        let result = match self.ops[self.current].remote.resolve_hixl() {
            Some(buffer) => connect_done(engine, buffer.engine_id.as_str(), ret),
            None => vstd::pervasive::unreached(),
        };
        match result {
            Ok(()) => self.transfer(0),
            Err(error) => self.fail(error),
        }
    }

    /// Takes what became of the transfer. A failed read is tried again, up to
    /// three times in all; a failed write is not.
    pub fn transferred(&mut self, ret: Result<(), TransferFailure>) -> (action: SubmitAction)
        requires
            old(self).wf(),
            old(self).phase is Transferring,
        ensures
            final(self).wf(),
            old(self).steps_to(*final(self)),
            old(self).responds(SubmitEvent::Transferred(ret), *final(self), action),
            match ret {
                Ok(_) => {
                    &&& *final(self) == (Submission {
                        current: (old(self).current + 1) as usize,
                        phase: SubmitPhase::Begin,
                        ..*old(self)
                    })
                    &&& action == SubmitAction::NextOp
                },
                Err(failure) => if old(self).op().op_type == RdmaOpType::ReadIntoLocal && old(
                    self,
                ).phase->Transferring_attempt + 1 < READ_ATTEMPTS {
                    &&& *final(self) == old(self).with_phase(
                        SubmitPhase::Waiting {
                            attempt: (old(self).phase->Transferring_attempt + 1) as u32,
                        },
                    )
                    &&& action == (SubmitAction::Sleep { millis: READ_RETRY_MS })
                } else {
                    &&& *final(self) == old(self).with_phase(SubmitPhase::Ended)
                    &&& action matches SubmitAction::Done(Err(error))
                    &&& is_transfer_error(old(self).op(), failure, error)
                },
            },
    {
        let attempt: u32 = match self.phase {
            SubmitPhase::Transferring { attempt } => attempt,
            _ => vstd::pervasive::unreached(),
        };
        let failure = match ret {
            Ok(()) => {
                assert(self.current < self.ops.len());
                self.current = self.current + 1;
                self.phase = SubmitPhase::Begin;
                return SubmitAction::NextOp;
            },
            Err(failure) => failure,
        };
        let op: &RdmaOp<K, C> = &self.ops[self.current];
        if matches!(op.op_type, RdmaOpType::ReadIntoLocal) && attempt + 1 < READ_ATTEMPTS {
            self.phase = SubmitPhase::Waiting { attempt: attempt + 1 };
            return SubmitAction::Sleep { millis: READ_RETRY_MS };
        }
        let error = match failure {
            TransferFailure::NoEngine => HixlError::NotInitialised,
            TransferFailure::Code(ret) => match op.remote.resolve_hixl() {
                Some(buffer) => {
                    let local: usize = op.local.memory.addr;
                    let remote: usize = buffer.addr;
                    let engine_id = buffer.engine_id.clone();
                    match op.op_type {
                        RdmaOpType::WriteFromLocal => HixlError::TransferWrite {
                            local,
                            remote,
                            engine_id,
                            len: op.local.memory.size,
                            ret,
                        },
                        RdmaOpType::ReadIntoLocal => HixlError::TransferRead {
                            local,
                            remote,
                            engine_id,
                            len: op.remote.size,
                            ret,
                        },
                    }
                },
                None => vstd::pervasive::unreached(),
            },
        };
        self.fail(error)
    }

    /// Tries the transfer again.
    pub fn woke(&mut self) -> (action: SubmitAction)
        requires
            old(self).wf(),
            old(self).phase is Waiting,
        ensures
            final(self).wf(),
            old(self).steps_to(*final(self)),
            old(self).responds(SubmitEvent::Woke, *final(self), action),
            action matches SubmitAction::Write(t) ==> {
                &&& old(self).ops@[old(self).current as int].op_type == RdmaOpType::WriteFromLocal
                &&& t.len == old(self).ops@[old(self).current as int].local.memory.size
                &&& t.local == old(self).ops@[old(self).current as int].local.memory.addr
                &&& t.timeout_ms == old(self).timeout_ms
            },
            action matches SubmitAction::Read(t) ==> {
                &&& old(self).ops@[old(self).current as int].op_type == RdmaOpType::ReadIntoLocal
                &&& t.len == old(self).ops@[old(self).current as int].remote.size
                &&& t.local == old(self).ops@[old(self).current as int].local.memory.addr
                &&& t.timeout_ms == old(self).timeout_ms
            },
            *final(self) == old(self).with_phase(
                SubmitPhase::Transferring { attempt: old(self).phase->Waiting_attempt },
            ),
            is_transfer_of(old(self).op(), old(self).timeout_ms, action),
    {
        match self.phase {
            SubmitPhase::Waiting { attempt } => self.transfer(attempt),
            _ => vstd::pervasive::unreached(),
        }
    }
}

/// A submission that has its local memory registered asks for a transfer only if
/// the engine is connected to the peer; otherwise it has the peer connect first.
pub proof fn law_no_transfer_without_connection<K, C>(
    pre: Submission<K, C>,
    state: EngineView,
    post: Submission<K, C>,
    action: SubmitAction,
)
    requires
        pre.goes_on_to_connect(state, post, action),
    ensures
        action is Write || action is Read <==> state.peers.contains(pre.peer()),
        action is AskPeer <==> !state.peers.contains(pre.peer()),
{
}

/// A write moves the whole local memory to where the remote buffer begins.
pub proof fn law_write_moves_all_local_memory<K, C>(
    op: RdmaOp<K, C>,
    timeout_ms: i32,
    action: SubmitAction,
)
    requires
        op.op_type == RdmaOpType::WriteFromLocal,
        is_transfer_of(op@, timeout_ms, action),
    ensures
        action matches SubmitAction::Write(t) && {
            &&& t.len == op.local.memory.size
            &&& t.local == op.local.memory.addr
            &&& t.timeout_ms == timeout_ms
            &&& op.remote.backends.hixl matches Some(buffer)
            &&& t.remote == buffer.addr
            &&& t.engine_id@ == buffer.engine_id@
        },
{
}

/// A read moves the whole remote buffer to where the local memory begins.
pub proof fn law_read_moves_all_of_the_buffer<K, C>(
    op: RdmaOp<K, C>,
    timeout_ms: i32,
    action: SubmitAction,
)
    requires
        op.op_type == RdmaOpType::ReadIntoLocal,
        is_transfer_of(op@, timeout_ms, action),
    ensures
        action matches SubmitAction::Read(t) && {
            &&& t.len == op.remote.size
            &&& t.local == op.local.memory.addr
            &&& t.timeout_ms == timeout_ms
            &&& op.remote.backends.hixl matches Some(buffer)
            &&& t.remote == buffer.addr
            &&& t.engine_id@ == buffer.engine_id@
        },
{
}

/// A transfer that fails for good is reported with what was asked of the engine: the
/// same addresses, engine and length, and the code it returned.
pub proof fn law_error_tells_the_transfer<K, C>(
    op: RdmaOp<K, C>,
    timeout_ms: i32,
    action: SubmitAction,
    code: i32,
    error: HixlError,
)
    requires
        is_transfer_of(op@, timeout_ms, action),
        is_transfer_error(op@, TransferFailure::Code(code), error),
    ensures
        action matches SubmitAction::Write(t) ==> {
            &&& error matches HixlError::TransferWrite { local, remote, engine_id, len, ret }
            &&& local == t.local && remote == t.remote && len == t.len
            &&& engine_id@ == t.engine_id@
            &&& ret == code
        },
        action matches SubmitAction::Read(t) ==> {
            &&& error matches HixlError::TransferRead { local, remote, engine_id, len, ret }
            &&& local == t.local && remote == t.remote && len == t.len
            &&& engine_id@ == t.engine_id@
            &&& ret == code
        },
        action is Write || action is Read,
{
}

/// Without an engine a transfer fails as one that is not initialised.
pub proof fn law_lost_engine_is_reported<K, C>(op: RdmaOp<K, C>, error: HixlError)
    requires
        is_transfer_error(op@, TransferFailure::NoEngine, error),
    ensures
        error == HixlError::NotInitialised,
{
}

/// The operation in hand is the one that is counted to, and its peer is the engine
/// that registered its remote buffer.
pub proof fn law_ops_are_worked_through_in_order<K, C>(submission: Submission<K, C>)
    requires
        submission.current < submission.ops@.len(),
    ensures
        submission.op().op_type == submission.ops@[submission.current as int].op_type,
        submission.op().local == submission.ops@[submission.current as int].local,
        submission.ops@[submission.current as int].remote.backends.hixl matches Some(buffer)
            ==> submission.peer() == buffer.engine_id@,
        submission.op().remote.hixl is None
            <==> submission.ops@[submission.current as int].remote.backends.hixl is None,
{
}

/// A time that the engine can take is not changed; a longer one becomes the longest
/// that it can.
pub proof fn law_timeout_is_cut_to_fit(millis: u128)
    ensures
        millis <= 0x7fff_ffff ==> clamped_ms(millis) == millis,
        millis > 0x7fff_ffff ==> clamped_ms(millis) == 0x7fff_ffff,
{
}

/// A peer that is not connected is asked to connect to this very engine, and nothing
/// of the submission but its phase changes.
pub proof fn law_peer_is_asked_for_this_engine<K, C>(
    pre: Submission<K, C>,
    state: EngineView,
    post: Submission<K, C>,
    action: SubmitAction,
)
    requires
        pre.goes_on_to_connect(state, post, action),
        !state.peers.contains(pre.peer()),
    ensures
        action matches SubmitAction::AskPeer { my_engine_id } && my_engine_id@ == state.engine_id,
        post.phase == SubmitPhase::AskingPeer,
        post.ops == pre.ops,
        post.current == pre.current,
        post.timeout_ms == pre.timeout_ms,
{
}

/// A change of phase changes nothing else. A submission that goes on to transfer starts
/// with the first attempt, one that fails is over and gives the error, and one that
/// completes an operation takes up the next.
pub proof fn law_phases_change_nothing_else<K, C>(
    pre: Submission<K, C>,
    phase: SubmitPhase,
    post: Submission<K, C>,
    action: SubmitAction,
    error: HixlError,
)
    ensures
        pre.with_phase(phase).phase == phase,
        pre.with_phase(phase).ops == pre.ops,
        pre.with_phase(phase).current == pre.current,
        pre.with_phase(phase).timeout_ms == pre.timeout_ms,
        pre.goes_on_to_transfer(post, action) ==> {
            &&& post.phase == (SubmitPhase::Transferring { attempt: 0 })
            &&& post.ops == pre.ops && post.current == pre.current
            &&& post.timeout_ms == pre.timeout_ms
            &&& action is Write || action is Read
        },
        pre.fails_with(post, action, error) ==> {
            &&& post.phase is Ended
            &&& action == SubmitAction::Done(Err(error))
            &&& post.ops == pre.ops && post.current == pre.current
        },
        pre.completes_op(post) ==> {
            &&& pre.phase is Transferring && post.phase is Begin
            &&& post.current == pre.current + 1
            &&& post.ops == pre.ops && post.timeout_ms == pre.timeout_ms
        },
{
}

/// How an operation can fail, and with what error: each failure comes from one event,
/// and its error carries the code or the reason that came with it.
pub proof fn law_failures_are_told_apart<K, C>(
    submission: Submission<K, C>,
    event: SubmitEvent,
    post: Submission<K, C>,
    action: SubmitAction,
)
    requires
        submission.wf(),
        submission.phase !is Ended,
        submission.responds(event, post, action),
    ensures
        submission.phase is Registering ==> (event matches SubmitEvent::Registered {
            ret: Err(code),
            ..
        } ==> (action matches SubmitAction::Done(Err(HixlError::RegisterMem { addr, size, ret }))
            && ret == code && addr == submission.op().local.memory.addr && size
            == submission.op().local.memory.size)),
        submission.phase is AskingPeer ==> (event matches SubmitEvent::Answered {
            answer: Err(why),
            ..
        } ==> (action matches SubmitAction::Done(Err(HixlError::PeerUnreachable { peer, reason }))
            && reason == why && peer@ == submission.peer())),
        submission.phase is Connecting ==> (event matches SubmitEvent::Connected {
            ret: Err(code),
            force_roce,
        } ==> (action matches SubmitAction::Done(
            Err(HixlError::Connect { peer, ret, hccs_hint }),
        ) && ret == code && peer@ == submission.peer() && hccs_hint == (code == 503_900
            && !force_roce))),
        action matches SubmitAction::Done(Ok(_)) ==> submission.phase is Begin
            && submission.current == submission.ops@.len(),
        action is Done <==> post.phase is Ended,
{
}

/// The timeout of a request reaches the engine: every transfer that carries out a
/// request for a single operation is given as many milliseconds as were asked for,
/// or as the engine can take.
pub proof fn law_timeout_is_passed_through<K, C: Clone>(
    request: RdmaAction<K, C>,
    op_type: RdmaOpType,
    local: KeepaliveLocalMemory<K>,
    remote: RemoteBufferView<C>,
    timeout: u64,
    submission: Submission<K, C>,
    action: SubmitAction,
)
    requires
        request.is_single(op_type, local, remote, timeout),
        submission.ops == request.ops,
        submission.timeout_ms == clamped_ms(request.timeout_millis),
        submission.current == 0,
        is_transfer_of(submission.op(), submission.timeout_ms, action),
    ensures
        ({
            let given = if timeout * 1_000 <= i32::MAX {
                timeout * 1_000
            } else {
                i32::MAX as int
            };
            is_transfer_of(OpView { op_type, local, remote }, given as i32, action)
        }),
{
}

/// Writes are tried once and reads at most three times, a second apart.
pub proof fn law_attempts_are_bounded<K, C>(submission: Submission<K, C>)
    requires
        submission.wf(),
        submission.phase is Transferring,
    ensures
        submission.phase->Transferring_attempt < 3,
        READ_RETRY_MS == 1_000,
        submission.op().op_type == RdmaOpType::WriteFromLocal
            ==> submission.phase->Transferring_attempt == 0,
{
}

/// Whether a submission went through these states, one after the other.
pub open spec fn is_run<K, C>(run: Seq<Submission<K, C>>) -> bool {
    &&& run.len() > 0
    &&& forall|i: int| 0 <= i < run.len() - 1 ==> (#[trigger] run[i]).steps_to(run[i + 1])
}

/// An operation is left behind only by a transfer that succeeded. So where a
/// submission has come past an operation, that operation was completed; and as a
/// submission ends well only past its last operation, all of them were.
pub proof fn law_every_op_is_transferred<K, C>(run: Seq<Submission<K, C>>, op: usize)
    requires
        is_run(run),
        run[0].current <= op < run.last().current,
    ensures
        exists|i: int|
            0 <= i < run.len() - 1 && run[i].current == op && (#[trigger] run[i]).completes_op(
                run[i + 1],
            ),
    decreases run.len(),
{
    let before = run.drop_last();
    let last = run.len() - 2;
    assert(run[last].steps_to(run[last + 1]));
    if op < run[last].current {
        assert(before.last() == run[last]);
        assert forall|i: int| 0 <= i < before.len() - 1 implies (#[trigger] before[i]).steps_to(
            before[i + 1],
        ) by {
            assert(run[i].steps_to(run[i + 1]));
        }
        law_every_op_is_transferred(before, op);
        let i = choose|i: int|
            0 <= i < before.len() - 1 && before[i].current == op && (
            #[trigger] before[i]).completes_op(before[i + 1]);
        assert(run[i].completes_op(run[i + 1]));
    } else {
        assert(run[last].completes_op(run[last + 1]));
    }
}

/// Operations are taken up in turn: at no time is a later operation in hand than at
/// the end.
pub proof fn law_ops_are_taken_in_turn<K, C>(run: Seq<Submission<K, C>>, at: int)
    requires
        is_run(run),
        0 <= at < run.len(),
    ensures
        run[0].current <= run[at].current <= run.last().current,
    decreases run.len(),
{
    if run.len() > 1 {
        let last = run.len() - 2;
        assert(run[last].steps_to(run[last + 1]));
        let before = run.drop_last();
        assert forall|i: int| 0 <= i < before.len() - 1 implies (#[trigger] before[i]).steps_to(
            before[i + 1],
        ) by {
            assert(run[i].steps_to(run[i + 1]));
        }
        law_ops_are_taken_in_turn(
            before,
            if at <= last {
                at
            } else {
                last
            },
        );
    }
}

/// A submission of `n` operations ends after at most `10 * n + 9` actions.
pub proof fn law_submission_ends<K, C>(run: Seq<Submission<K, C>>)
    requires
        is_run(run),
        run[0].wf(),
    ensures
        run.len() <= run[0].steps_left() + 1,
        run[0].steps_left() <= 10 * run[0].ops@.len() + 9,
{
    lemma_run_is_bounded(run);
}

proof fn lemma_run_is_bounded<K, C>(run: Seq<Submission<K, C>>)
    requires
        is_run(run),
    ensures
        run.len() <= run[0].steps_left() + 1,
    decreases run.len(),
{
    if run.len() > 1 {
        let rest = run.drop_first();
        assert(run[0].steps_to(run[1]));
        assert forall|i: int| 0 <= i < rest.len() - 1 implies (#[trigger] rest[i]).steps_to(
            rest[i + 1],
        ) by {
            assert(run[i + 1].steps_to(run[i + 2]));
        }
        lemma_run_is_bounded(rest);
    }
}

} // verus!
