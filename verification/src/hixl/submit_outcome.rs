//! How a submission as a whole ends.
use vstd::prelude::*;

use crate::hixl::submit::{
    OpFailure, Submission, SubmitEvent, SubmitPhase, TransferFailure, READ_ATTEMPTS,
};
use crate::rdma::buffer::{OpView, RdmaOpType};

verus! {

/// What the outside actions for one operation return, each if it is asked for, and
/// what is found of the engine meanwhile.
pub struct OpResults {
    /// Whether there is an engine when the operation is taken up.
    pub engine: bool,
    /// Whether the tables satisfy the registration of its local memory then.
    pub known: bool,
    /// What the engine returns for the local memory.
    pub register: Result<(), i32>,
    /// Whether the peer is connected once the local memory is registered.
    pub connected: bool,
    /// What the peer's manager answers.
    pub answer: Result<(), String>,
    /// Whether there is an engine when it has answered.
    pub engine_after: bool,
    /// Whether the peer is connected by then.
    pub connected_after: bool,
    /// What the engine returns when it is told to connect.
    pub connect: Result<(), i32>,
    /// Whether the engine runs over RoCE.
    pub force_roce: bool,
    /// What the transfer comes to, attempt by attempt.
    pub transfers: Seq<Result<(), TransferFailure>>,
}

impl OpResults {
    /// The failure to reach the peer, if it is not connected already.
    pub open spec fn connect_failure(self) -> Option<OpFailure> {
        if self.connected {
            None
        } else if self.answer is Err {
            Some(OpFailure::Peer(self.answer->Err_0))
        } else if !self.engine_after {
            Some(OpFailure::NoEngine)
        } else if !self.connected_after && self.connect is Err {
            Some(OpFailure::Connect { ret: self.connect->Err_0, force_roce: self.force_roce })
        } else {
            None
        }
    }

    /// The failure of the transfer. A read fails with its last attempt, if every
    /// attempt fails; a write with its only one.
    pub open spec fn transfer_failure(self, op_type: RdmaOpType) -> Option<OpFailure> {
        let attempts: int = match op_type {
            RdmaOpType::WriteFromLocal => 1,
            RdmaOpType::ReadIntoLocal => READ_ATTEMPTS as int,
        };
        if exists|i: int| 0 <= i < attempts && #[trigger] self.transfers[i] is Ok {
            None
        } else {
            Some(OpFailure::Transfer(self.transfers[attempts - 1]->Err_0))
        }
    }

    /// Why an operation with these results fails, if it does.
    pub open spec fn failure<K, C>(self, op: OpView<K, C>) -> Option<OpFailure> {
        if op.remote.hixl is None {
            Some(OpFailure::Incompatible)
        } else if !self.engine {
            Some(OpFailure::NoEngine)
        } else if !self.known && self.register is Err {
            Some(OpFailure::Register(self.register->Err_0))
        } else if self.connect_failure() is Some {
            self.connect_failure()
        } else {
            self.transfer_failure(op.op_type)
        }
    }
}

impl<K, C> Submission<K, C> {
    /// What the submission learns next, when the operations have these results.
    pub open spec fn next_event(self, results: Seq<OpResults>) -> SubmitEvent {
        let r = results[self.current as int];
        match self.phase {
            SubmitPhase::Registering => SubmitEvent::Registered {
                ret: r.register,
                connected: r.connected,
            },
            SubmitPhase::AskingPeer => SubmitEvent::Answered {
                answer: r.answer,
                engine: r.engine_after,
                connected: r.connected_after,
            },
            SubmitPhase::Connecting => SubmitEvent::Connected {
                ret: r.connect,
                force_roce: r.force_roce,
            },
            SubmitPhase::Transferring { attempt } => SubmitEvent::Transferred(
                r.transfers[attempt as int],
            ),
            SubmitPhase::Waiting { .. } => SubmitEvent::Woke,
            _ => SubmitEvent::Begun {
                engine: r.engine,
                known: r.known,
                connected: r.connected,
            },
        }
    }

    /// How the submission ends, event after event: with a failure or without, and how
    /// many operations are complete by then.
    pub open spec fn outcome(self, results: Seq<OpResults>) -> (Option<OpFailure>, int)
        decreases self.steps_left(),
    {
        let event = self.next_event(results);
        let next = self.after(event);
        if self.failure_of(event) is Some || next.phase is Ended || !self.steps_to(next) {
            (self.failure_of(event), self.current as int)
        } else {
            next.outcome(results)
        }
    }
}

/// Whether the first operation from `at` on to fail is the one at `failed`.
pub open spec fn first_failed_op<K, C>(
    submission: Submission<K, C>,
    results: Seq<OpResults>,
    at: int,
    failed: int,
) -> bool {
    &&& at <= failed < submission.ops@.len()
    &&& results[failed].failure(submission.ops@[failed]@) is Some
    &&& forall|i: int|
        at <= i < failed ==> (#[trigger] results[i]).failure(submission.ops@[i]@) is None
}

/// Whether no operation from `at` on fails.
pub open spec fn no_op_fails<K, C>(
    submission: Submission<K, C>,
    results: Seq<OpResults>,
    at: int,
) -> bool {
    forall|i: int|
        at <= i < submission.ops@.len() ==> (#[trigger] results[i]).failure(submission.ops@[i]@)
            is None
}

/// The submission with the operation after the one in hand to be taken up.
pub open spec fn next_op<K, C>(submission: Submission<K, C>) -> Submission<K, C> {
    Submission {
        current: (submission.current + 1) as usize,
        phase: SubmitPhase::Begin,
        ..submission
    }
}

/// What comes of the operation in hand, if nothing but `failure` can come between.
pub open spec fn comes_to<K, C>(
    submission: Submission<K, C>,
    results: Seq<OpResults>,
    failure: Option<OpFailure>,
) -> bool {
    submission.outcome(results) == (if failure is Some {
        (failure, submission.current as int)
    } else {
        next_op(submission).outcome(results)
    })
}

proof fn lemma_transfer_outcome<K, C>(submission: Submission<K, C>, results: Seq<OpResults>)
    requires
        submission.wf(),
        submission.phase == (SubmitPhase::Transferring { attempt: 0 }),
    ensures
        comes_to(
            submission,
            results,
            results[submission.current as int].transfer_failure(submission.op().op_type),
        ),
{
    assert(submission.ops.len() == submission.ops@.len());
    let transfers = results[submission.current as int].transfers;
    let write = submission.op().op_type == RdmaOpType::WriteFromLocal;
    if transfers[0] is Ok || write {
        assert(submission.steps_to(next_op(submission)));
    } else {
        let wait = submission.with_phase(SubmitPhase::Waiting { attempt: 1 });
        let again = submission.with_phase(SubmitPhase::Transferring { attempt: 1 });
        assert(submission.outcome(results) == wait.outcome(results));
        assert(wait.outcome(results) == again.outcome(results));
        if transfers[1] is Ok {
            assert(again.steps_to(next_op(submission)));
        } else {
            let wait = submission.with_phase(SubmitPhase::Waiting { attempt: 2 });
            let last = submission.with_phase(SubmitPhase::Transferring { attempt: 2 });
            assert(again.outcome(results) == wait.outcome(results));
            assert(wait.outcome(results) == last.outcome(results));
            assert(last.steps_to(next_op(submission)));
            assert(transfers[2] is Ok || transfers[2] is Err);
        }
    }
}

proof fn lemma_peer_outcome<K, C>(submission: Submission<K, C>, results: Seq<OpResults>)
    requires
        submission.wf(),
        submission.phase == SubmitPhase::AskingPeer,
        !results[submission.current as int].connected,
    ensures
        ({
            let r = results[submission.current as int];
            comes_to(
                submission,
                results,
                if r.connect_failure() is Some {
                    r.connect_failure()
                } else {
                    r.transfer_failure(submission.op().op_type)
                },
            )
        }),
{
    let r = results[submission.current as int];
    let transfer = submission.with_phase(SubmitPhase::Transferring { attempt: 0 });
    lemma_transfer_outcome(transfer, results);
    if r.answer is Ok && r.engine_after {
        if r.connected_after {
            assert(submission.outcome(results) == transfer.outcome(results));
        } else {
            let connect = submission.with_phase(SubmitPhase::Connecting);
            assert(submission.outcome(results) == connect.outcome(results));
            if r.connect is Ok {
                assert(connect.outcome(results) == transfer.outcome(results));
            }
        }
    }
}

/// One operation: it fails, or the next one is taken up.
proof fn lemma_op_outcome<K, C>(submission: Submission<K, C>, results: Seq<OpResults>)
    requires
        submission.wf(),
        submission.phase == SubmitPhase::Begin,
        submission.current < submission.ops@.len(),
    ensures
        comes_to(
            submission,
            results,
            results[submission.current as int].failure(submission.op()),
        ),
{
    let r = results[submission.current as int];
    if submission.op().remote.hixl is Some && r.engine {
        let ask = submission.with_phase(SubmitPhase::AskingPeer);
        let transfer = submission.with_phase(SubmitPhase::Transferring { attempt: 0 });
        let then = if r.connected {
            transfer
        } else {
            ask
        };
        if r.connected {
            lemma_transfer_outcome(transfer, results);
        } else {
            lemma_peer_outcome(ask, results);
        }
        if r.known {
            assert(submission.outcome(results) == then.outcome(results));
        } else {
            let register = submission.with_phase(SubmitPhase::Registering);
            assert(submission.outcome(results) == register.outcome(results));
            if r.register is Ok {
                assert(register.outcome(results) == then.outcome(results));
            }
        }
    }
}

proof fn lemma_outcome<K, C>(submission: Submission<K, C>, results: Seq<OpResults>)
    requires
        submission.wf(),
        submission.phase == SubmitPhase::Begin,
    ensures
        no_op_fails(submission, results, submission.current as int) ==> submission.outcome(results)
            == (None::<OpFailure>, submission.ops@.len() as int),
        forall|failed: int| #[trigger]
            first_failed_op(submission, results, submission.current as int, failed)
                ==> submission.outcome(results) == (
                results[failed].failure(submission.ops@[failed]@),
                failed,
            ),
        submission.outcome(results).0 is None ==> no_op_fails(
            submission,
            results,
            submission.current as int,
        ),
    decreases submission.ops@.len() - submission.current,
{
    assert(submission.ops.len() == submission.ops@.len());
    if submission.current < submission.ops@.len() {
        lemma_op_outcome(submission, results);
        let failure = results[submission.current as int].failure(submission.op());
        if failure is None {
            let next = next_op(submission);
            lemma_outcome(next, results);
            assert forall|failed: int| #[trigger]
                first_failed_op(
                    submission,
                    results,
                    submission.current as int,
                    failed,
                ) implies first_failed_op(next, results, next.current as int, failed) by {}
        }
    }
}

/// A submission ends well exactly when no operation fails, and all of them are then
/// complete. Otherwise it ends with the failure of the first operation that fails;
/// those before it are complete, and nothing is asked for on a later one.
pub proof fn law_submission_ends_with_the_first_failure<K, C>(
    submission: Submission<K, C>,
    results: Seq<OpResults>,
    failed: int,
)
    requires
        submission.wf(),
        submission.phase == SubmitPhase::Begin,
        submission.current == 0,
    ensures
        submission.outcome(results).0 is None <==> no_op_fails(submission, results, 0),
        submission.outcome(results).0 is None ==> submission.outcome(results).1
            == submission.ops@.len(),
        first_failed_op(submission, results, 0, failed) ==> submission.outcome(results) == (
            results[failed].failure(submission.ops@[failed]@),
            failed,
        ),
{
    lemma_outcome(submission, results);
}

} // verus!
