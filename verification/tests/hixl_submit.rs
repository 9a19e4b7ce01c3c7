use monarch_ascend::hixl::connect::connect_done;
use monarch_ascend::hixl::error::HixlError;
use monarch_ascend::hixl::state::HixlEngineState;
use monarch_ascend::hixl::submit::{
    Submission, SubmitAction, SubmitPhase, Transfer, TransferFailure,
};
use monarch_ascend::rdma::buffer::{
    HixlBuffer, KeepaliveLocalMemory, LocalMemory, RdmaOp, RdmaOpType, RdmaRemoteBackends,
    RdmaRemoteBuffer,
};

const ME: &str = "10.0.0.1:20001";
const PEER: &str = "10.0.0.2:20002";

fn text(s: &str) -> String {
    String::from(s)
}

fn remote() -> RdmaRemoteBuffer<Vec<u8>> {
    RdmaRemoteBuffer {
        id: 9,
        size: 512,
        owner: text("manager"),
        backends: RdmaRemoteBackends {
            hixl: Some(HixlBuffer { engine_id: text(PEER), addr: 0x9000, size: 512 }),
            contexts: vec![1, 2],
        },
    }
}

fn local() -> KeepaliveLocalMemory<char> {
    KeepaliveLocalMemory { memory: LocalMemory { addr: 0x1000, size: 256 }, keepalive: 'k' }
}

fn op(op_type: RdmaOpType) -> RdmaOp<char, Vec<u8>> {
    RdmaOp { op_type, local: local(), remote: remote() }
}

fn fresh() -> Option<HixlEngineState> {
    Some(HixlEngineState::new(text(ME), true, false))
}

fn ready() -> Option<HixlEngineState> {
    let mut engine = fresh();
    connect_done(&mut engine, PEER, Ok(())).unwrap();
    engine.as_mut().unwrap().registered_addrs.insert(0x1000, (256, 1));
    engine
}

fn write_transfer(timeout_ms: i32) -> SubmitAction {
    SubmitAction::Write(Transfer {
        engine_id: text(PEER),
        local: 0x1000,
        remote: 0x9000,
        len: 256,
        timeout_ms,
    })
}

fn read_transfer(timeout_ms: i32) -> SubmitAction {
    SubmitAction::Read(Transfer {
        engine_id: text(PEER),
        local: 0x1000,
        remote: 0x9000,
        len: 512,
        timeout_ms,
    })
}

fn empty(timeout_millis: u128) -> Submission<char, Vec<u8>> {
    Submission::new(vec![], timeout_millis)
}

#[test]
fn write_goes_through_every_phase() {
    let mut engine = fresh();
    let mut submission = Submission::new(vec![op(RdmaOpType::WriteFromLocal)], 3_000);
    assert_eq!(
        submission.begin_op(&mut engine),
        SubmitAction::RegisterMem { addr: 0x1000, size: 256, misaligned_by: None }
    );
    assert_eq!(
        submission.registered(&mut engine, Ok(())),
        SubmitAction::AskPeer { my_engine_id: text(ME) }
    );
    assert_eq!(
        submission.peer_answered(&engine, Ok(())),
        SubmitAction::Connect { peer: text(PEER), timeout_ms: 10_000 }
    );
    assert_eq!(submission.connected(&mut engine, Ok(())), write_transfer(3_000));
    assert_eq!(submission.transferred(Ok(())), SubmitAction::NextOp);
    assert_eq!(submission.begin_op(&mut engine), SubmitAction::Done(Ok(())));
    assert_eq!(submission.phase, SubmitPhase::Ended);
    assert_eq!(
        engine.as_ref().unwrap().registered_addrs.get(&0x1000),
        Some(&(256, 1))
    );
}

#[test]
fn connected_peer_is_not_asked_again() {
    let mut engine = ready();
    let mut submission = Submission::new(vec![op(RdmaOpType::WriteFromLocal)], 3_000);
    assert_eq!(submission.begin_op(&mut engine), write_transfer(3_000));
    assert_eq!(
        engine.as_ref().unwrap().registered_addrs.get(&0x1000),
        Some(&(256, 2))
    );
}

#[test]
fn failed_write_is_not_tried_again() {
    let mut engine = ready();
    let mut submission = Submission::new(vec![op(RdmaOpType::WriteFromLocal)], 3_000);
    let _ = submission.begin_op(&mut engine);
    assert_eq!(
        submission.transferred(Err(TransferFailure::Code(5))),
        SubmitAction::Done(Err(HixlError::TransferWrite {
            local: 0x1000,
            remote: 0x9000,
            engine_id: text(PEER),
            len: 256,
            ret: 5,
        }))
    );
}

#[test]
fn failed_read_is_tried_three_times() {
    let mut engine = ready();
    let mut submission = Submission::new(vec![op(RdmaOpType::ReadIntoLocal)], 50);
    assert_eq!(submission.begin_op(&mut engine), read_transfer(50));
    for _ in 0..2 {
        assert_eq!(
            submission.transferred(Err(TransferFailure::Code(5))),
            SubmitAction::Sleep { millis: 1_000 }
        );
        assert_eq!(submission.woke(), read_transfer(50));
    }
    assert_eq!(
        submission.transferred(Err(TransferFailure::Code(6))),
        SubmitAction::Done(Err(HixlError::TransferRead {
            local: 0x1000,
            remote: 0x9000,
            engine_id: text(PEER),
            len: 512,
            ret: 6,
        }))
    );
}

#[test]
fn read_can_succeed_late() {
    let mut engine = ready();
    let ops = vec![op(RdmaOpType::ReadIntoLocal), op(RdmaOpType::WriteFromLocal)];
    let mut submission = Submission::new(ops, 50);
    let _ = submission.begin_op(&mut engine);
    let _ = submission.transferred(Err(TransferFailure::NoEngine));
    let _ = submission.woke();
    assert_eq!(submission.transferred(Ok(())), SubmitAction::NextOp);
    assert_eq!(submission.current, 1);
    assert_eq!(submission.begin_op(&mut engine), write_transfer(50));
    assert_eq!(submission.transferred(Ok(())), SubmitAction::NextOp);
    assert_eq!(submission.begin_op(&mut engine), SubmitAction::Done(Ok(())));
}

#[test]
fn lost_engine_ends_a_write() {
    let mut engine = ready();
    let mut submission = Submission::new(vec![op(RdmaOpType::WriteFromLocal)], 50);
    let _ = submission.begin_op(&mut engine);
    assert_eq!(
        submission.transferred(Err(TransferFailure::NoEngine)),
        SubmitAction::Done(Err(HixlError::NotInitialised))
    );
}

#[test]
fn nothing_to_do_is_done() {
    let mut none: Option<HixlEngineState> = None;
    let mut submission = empty( 50);
    assert_eq!(submission.begin_op(&mut none), SubmitAction::Done(Ok(())));
}

#[test]
fn operation_needs_hixl() {
    let mut engine = ready();
    let mut other = op(RdmaOpType::WriteFromLocal);
    other.remote.backends = RdmaRemoteBackends { hixl: None, contexts: vec![] };
    let mut submission = Submission::new(vec![other], 50);
    assert_eq!(
        submission.begin_op(&mut engine),
        SubmitAction::Done(Err(HixlError::IncompatibleBackend))
    );
    assert_eq!(
        engine.as_ref().unwrap().registered_addrs.get(&0x1000),
        Some(&(256, 1))
    );
}

#[test]
fn submission_needs_an_engine() {
    let mut none: Option<HixlEngineState> = None;
    let mut submission = Submission::new(vec![op(RdmaOpType::WriteFromLocal)], 50);
    assert_eq!(
        submission.begin_op(&mut none),
        SubmitAction::Done(Err(HixlError::NotInitialised))
    );
}

#[test]
fn refused_memory_ends_the_submission() {
    let mut engine = fresh();
    let mut submission = Submission::new(vec![op(RdmaOpType::WriteFromLocal)], 50);
    let _ = submission.begin_op(&mut engine);
    assert_eq!(
        submission.registered(&mut engine, Err(11)),
        SubmitAction::Done(Err(HixlError::RegisterMem { addr: 0x1000, size: 256, ret: 11 }))
    );
}

#[test]
fn silent_peer_ends_the_submission() {
    let mut engine = fresh();
    let mut submission = Submission::new(vec![op(RdmaOpType::WriteFromLocal)], 50);
    let _ = submission.begin_op(&mut engine);
    let _ = submission.registered(&mut engine, Ok(()));
    assert_eq!(
        submission.peer_answered(&engine, Err(text("gone"))),
        SubmitAction::Done(Err(HixlError::PeerUnreachable {
            peer: text(PEER),
            reason: text("gone"),
        }))
    );
}

#[test]
fn failed_connection_ends_the_submission() {
    let mut engine = fresh();
    let mut submission = Submission::new(vec![op(RdmaOpType::WriteFromLocal)], 50);
    let _ = submission.begin_op(&mut engine);
    let _ = submission.registered(&mut engine, Ok(()));
    let _ = submission.peer_answered(&engine, Ok(()));
    assert_eq!(
        submission.connected(&mut engine, Err(503_900)),
        SubmitAction::Done(Err(HixlError::Connect {
            peer: text(PEER),
            ret: 503_900,
            hccs_hint: false,
        }))
    );
}

#[test]
fn peer_may_have_connected_meanwhile() {
    let mut engine = fresh();
    let mut submission = Submission::new(vec![op(RdmaOpType::ReadIntoLocal)], 50);
    let _ = submission.begin_op(&mut engine);
    let _ = submission.registered(&mut engine, Ok(()));
    connect_done(&mut engine, PEER, Ok(())).unwrap();
    assert_eq!(submission.peer_answered(&engine, Ok(())), read_transfer(50));
}

#[test]
fn long_timeouts_are_cut() {
    assert_eq!(empty( 2_147_483_647).timeout_ms, i32::MAX);
    assert_eq!(empty( 2_147_483_648).timeout_ms, i32::MAX);
    assert_eq!(empty( u128::MAX).timeout_ms, i32::MAX);
    assert_eq!(empty( 0).timeout_ms, 0);
}

#[test]
fn requested_timeout_reaches_the_engine() {
    let action = remote().write_from_local(local(), 7);
    assert_eq!(action.timeout_millis, 7_000);
    assert_eq!(action.ops, vec![op(RdmaOpType::WriteFromLocal)]);
    let mut submission = Submission::new(action.ops, action.timeout_millis);
    assert_eq!(submission.begin_op(&mut ready()), write_transfer(7_000));

    let action = remote().read_into_local(local(), u64::MAX);
    assert_eq!(action.timeout_millis, 18_446_744_073_709_551_615_000);
    assert_eq!(action.ops, vec![op(RdmaOpType::ReadIntoLocal)]);
    let mut submission = Submission::new(action.ops, action.timeout_millis);
    assert_eq!(submission.begin_op(&mut ready()), read_transfer(i32::MAX));
}

#[test]
fn first_failed_operation_ends_the_submission() {
    let mut engine = ready();
    let ops = vec![
        op(RdmaOpType::WriteFromLocal),
        op(RdmaOpType::ReadIntoLocal),
        op(RdmaOpType::WriteFromLocal),
    ];
    let mut submission = Submission::new(ops, 50);
    assert_eq!(submission.begin_op(&mut engine), write_transfer(50));
    assert_eq!(submission.transferred(Ok(())), SubmitAction::NextOp);
    assert_eq!(submission.begin_op(&mut engine), read_transfer(50));
    for _ in 0..2 {
        let _ = submission.transferred(Err(TransferFailure::Code(1)));
        let _ = submission.woke();
    }
    assert!(matches!(
        submission.transferred(Err(TransferFailure::Code(2))),
        SubmitAction::Done(Err(HixlError::TransferRead { ret: 2, .. }))
    ));
    assert_eq!(submission.current, 1);
    assert_eq!(submission.phase, SubmitPhase::Ended);
}
