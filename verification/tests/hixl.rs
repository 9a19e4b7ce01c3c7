use monarch_ascend::hixl::config::{
    alias_enabled, do_init_engine, generated_engine_id, init_engine_on_dedicated_thread,
    init_thread_name, needs_generated_id, resolve_device_id, resolve_engine_id, select_transport,
    HixlConfig, InitOutcome, TransportPlan,
};
use monarch_ascend::hixl::connect::{
    connect_done, do_connect, do_connect_with_timeout, ensure_connected, peer_answered,
    ConnectStep, EnsureStep,
};
use monarch_ascend::hixl::error::HixlError;
use monarch_ascend::hixl::local_ip::{listed_ip, local_ip_for_hixl, HostAddress};
use monarch_ascend::hixl::manager::{BufferStep, HixlBackend, HixlManagerActor, InitStep};
use monarch_ascend::hixl::memory::DeregisterStep;
use monarch_ascend::hixl::state::{
    get_hixl_state, global_engine_id, is_hixl_initialized, transport_level, with_state,
    HixlEngineState, StateWait,
};
use monarch_ascend::rdma::buffer::HixlBuffer;
use monarch_ascend::rdma::transport::RdmaTransportLevel;

const PEER: &str = "10.0.0.2:20002";

fn text(s: &str) -> String {
    String::from(s)
}

fn slot(force_roce: bool) -> Option<HixlEngineState> {
    Some(HixlEngineState::new(text("10.0.0.1:20001"), force_roce, false))
}

#[test]
fn callers_wait_ten_seconds_for_the_engine() {
    let none: Option<HixlEngineState> = None;
    assert!(!is_hixl_initialized(&none));
    assert_eq!(get_hixl_state(&none, 0), Ok(StateWait::Sleep { millis: 100 }));
    assert_eq!(get_hixl_state(&none, 99), Ok(StateWait::Sleep { millis: 100 }));
    assert_eq!(get_hixl_state(&none, 100), Err(HixlError::NotInitialised));
    assert!(is_hixl_initialized(&slot(false)));
    assert_eq!(get_hixl_state(&slot(false), 0), Ok(StateWait::Ready));
    assert_eq!(get_hixl_state(&slot(false), 100), Ok(StateWait::Ready));
}

#[test]
fn state_is_handed_to_the_caller() {
    let roce = with_state(&slot(true), |state| Ok(state.force_roce));
    assert_eq!(roce, Ok(true));
    let failed: Result<(), HixlError> =
        with_state(&slot(true), |_| Err(HixlError::IncompatibleBackend));
    assert_eq!(failed, Err(HixlError::IncompatibleBackend));
    let none: Result<(), HixlError> = with_state(&None, |_| Ok(()));
    assert_eq!(none, Err(HixlError::NotInitialised));
}

#[test]
fn engine_id_and_level_come_from_the_engine() {
    assert_eq!(global_engine_id(&slot(false)), Ok(text("10.0.0.1:20001")));
    assert_eq!(global_engine_id(&None), Err(HixlError::NotInitialised));
    assert_eq!(transport_level(&slot(false)), RdmaTransportLevel::Hccs);
    assert_eq!(transport_level(&slot(true)), RdmaTransportLevel::Nic);
    assert_eq!(transport_level(&None), RdmaTransportLevel::Nic);
}

#[test]
fn connection_is_made_once() {
    let mut engine = slot(false);
    assert_eq!(
        do_connect(&engine, PEER),
        Ok(ConnectStep::CallEngine { peer: text(PEER), timeout_ms: 10_000 })
    );
    assert_eq!(
        do_connect_with_timeout(&engine, PEER, 250),
        Ok(ConnectStep::CallEngine { peer: text(PEER), timeout_ms: 250 })
    );
    assert_eq!(connect_done(&mut engine, PEER, Ok(())), Ok(()));
    assert_eq!(do_connect(&engine, PEER), Ok(ConnectStep::Connected));
    assert_eq!(do_connect_with_timeout(&engine, PEER, 1), Ok(ConnectStep::Connected));
    assert_eq!(ensure_connected(&engine, PEER), Ok(EnsureStep::Connected));
    assert!(matches!(
        do_connect(&engine, "10.0.0.3:1"),
        Ok(ConnectStep::CallEngine { .. })
    ));
    assert_eq!(do_connect(&None, PEER), Err(HixlError::NotInitialised));
}

#[test]
fn failed_connection_is_explained() {
    let mut hccs = slot(false);
    assert_eq!(
        connect_done(&mut hccs, PEER, Err(503_900)),
        Err(HixlError::Connect { peer: text(PEER), ret: 503_900, hccs_hint: true })
    );
    assert_eq!(
        connect_done(&mut hccs, PEER, Err(1)),
        Err(HixlError::Connect { peer: text(PEER), ret: 1, hccs_hint: false })
    );
    assert!(matches!(do_connect(&hccs, PEER), Ok(ConnectStep::CallEngine { .. })));
    let mut roce = slot(true);
    assert_eq!(
        connect_done(&mut roce, PEER, Err(503_900)),
        Err(HixlError::Connect { peer: text(PEER), ret: 503_900, hccs_hint: false })
    );
}

#[test]
fn peer_connects_first() {
    let engine = slot(false);
    assert_eq!(
        ensure_connected(&engine, PEER),
        Ok(EnsureStep::AskPeer { my_engine_id: text("10.0.0.1:20001") })
    );
    assert_eq!(
        peer_answered(&engine, PEER, Ok(())),
        Ok(ConnectStep::CallEngine { peer: text(PEER), timeout_ms: 10_000 })
    );
    assert_eq!(
        peer_answered(&engine, PEER, Err(text("gone"))),
        Err(HixlError::PeerUnreachable { peer: text(PEER), reason: text("gone") })
    );
    assert_eq!(ensure_connected(&None, PEER), Err(HixlError::NotInitialised));
    assert_eq!(peer_answered(&None, PEER, Ok(())), Err(HixlError::NotInitialised));
}

#[test]
fn failures_are_described() {
    let described = [
        (
            HixlError::NotInitialised,
            "HiXL engine not initialised after 10 s (HixlManagerActor not started?)",
        ),
        (
            HixlError::Connect { peer: text(PEER), ret: -3, hccs_hint: false },
            "hixl_connect(10.0.0.2:20002) failed: ret=-3",
        ),
        (
            HixlError::Connect { peer: text(PEER), ret: 503_900, hccs_hint: true },
            "hixl_connect(10.0.0.2:20002) failed: ret=503900 — HCCS channel creation failed. \
             Ensure all registered memory is 2MB-aligned (use alloc_aligned_tensor()). \
             Or set MONARCH_HIXL_TRANSPORT=roce to use RoCE instead.",
        ),
        (
            HixlError::RegisterMem { addr: 0x20_0000, size: 64, ret: 7 },
            "hixl_register_mem(addr=0x200000, size=64) failed: ret=7",
        ),
        (
            HixlError::PeerUnreachable { peer: text(PEER), reason: text("gone") },
            "EnsurePeerConnected to 10.0.0.2:20002 failed: gone",
        ),
        (HixlError::IncompatibleBackend, "op routed to incompatible HiXL backend"),
        (
            HixlError::TransferWrite {
                local: 0x10,
                remote: 0xff,
                engine_id: text(PEER),
                len: 12,
                ret: 5,
            },
            "hixl_transfer_write failed: local=0x10 remote=0xff@10.0.0.2:20002 len=12 ret=5",
        ),
        (
            HixlError::TransferRead {
                local: 0x10,
                remote: 0xff,
                engine_id: text(PEER),
                len: 12,
                ret: 5,
            },
            "hixl_transfer_read failed: local=0x10 remote=0xff@10.0.0.2:20002 len=12 ret=5",
        ),
        (
            HixlError::BufferNotRegistered { remote_buf_id: 31 },
            "HiXL failed to register buffer 31",
        ),
        (HixlError::NoParent, "RdmaManagerActor not found as parent"),
        (HixlError::InitSpawn(text("no")), "failed to spawn hixl-init thread: no"),
        (HixlError::InitChannel(text("no")), "hixl-init thread channel closed: no"),
        (
            HixlError::InitEngine(text("no")),
            "hixl_init_engine failed on dedicated thread: no",
        ),
    ];
    for (error, message) in described {
        assert_eq!(error.message(), message);
    }
}

#[test]
fn engine_name_comes_from_hint_then_environment() {
    let env = Some(text("env:1"));
    assert_eq!(resolve_engine_id("hint:1", env.clone(), text("made:1")), "hint:1");
    assert_eq!(resolve_engine_id("", env.clone(), text("made:1")), "env:1");
    assert_eq!(resolve_engine_id("", None, text("made:1")), "made:1");
    assert!(needs_generated_id("", &None));
    assert!(!needs_generated_id("", &env));
    assert!(!needs_generated_id("hint:1", &None));
}

#[test]
fn engine_name_is_generated_by_process() {
    assert_eq!(generated_engine_id("10.0.0.1", 0), "10.0.0.1:20000");
    assert_eq!(generated_engine_id("10.0.0.1", 39_999), "10.0.0.1:59999");
    assert_eq!(generated_engine_id("10.0.0.1", 40_001), "10.0.0.1:20001");
    assert_eq!(generated_engine_id("127.0.0.1", u32::MAX), "127.0.0.1:27295");
}

#[test]
fn device_comes_from_hint_then_environment() {
    assert_eq!(resolve_device_id(3, Some("5")), 3);
    assert_eq!(resolve_device_id(0, Some("5")), 0);
    assert_eq!(resolve_device_id(-1, Some("5")), 5);
    assert_eq!(resolve_device_id(-1, Some("-2")), -2);
    assert_eq!(resolve_device_id(-1, Some("five")), 0);
    assert_eq!(resolve_device_id(-1, None), 0);
}

#[test]
fn transport_is_hccs_unless_roce_is_asked_for() {
    let hccs = TransportPlan { force_roce: false, auto_port_range: true };
    let roce = TransportPlan { force_roce: true, auto_port_range: false };
    assert_eq!(select_transport(None, None, false), hccs);
    assert_eq!(select_transport(Some("hccs"), None, false), hccs);
    assert_eq!(select_transport(Some("auto"), None, false), hccs);
    assert_eq!(select_transport(Some("roce"), None, false), roce);
    assert_eq!(select_transport(Some("RoCE"), None, true), roce);
    assert_eq!(select_transport(None, Some("1"), false), roce);
    assert_eq!(select_transport(None, Some("0"), false), hccs);
    assert_eq!(
        select_transport(None, None, true),
        TransportPlan { force_roce: false, auto_port_range: false }
    );
}

#[test]
fn engine_is_created_once() {
    assert_eq!(
        init_engine_on_dedicated_thread(&None, Some("roce"), None, false),
        Some(TransportPlan { force_roce: true, auto_port_range: false })
    );
    assert_eq!(init_engine_on_dedicated_thread(&slot(false), Some("roce"), None, false), None);
}

#[test]
fn aliasing_is_off_unless_enabled() {
    assert!(!alias_enabled(None));
    assert!(alias_enabled(Some("1")));
    assert!(alias_enabled(Some("true")));
    assert!(alias_enabled(Some("TRUE")));
    assert!(!alias_enabled(Some("yes")));
    assert!(!alias_enabled(Some("")));
    assert!(!alias_enabled(Some("01")));
}

#[test]
fn init_thread_is_named_by_device() {
    assert_eq!(init_thread_name(7), "hixl-init-dev7");
    assert_eq!(init_thread_name(-1), "hixl-init-dev-1");
}

#[test]
fn created_engine_starts_empty() {
    let state = do_init_engine("10.0.0.1:20001", true, Some("1"), InitOutcome::Created);
    let state = match state {
        Ok(state) => state,
        Err(_) => panic!("the engine was created"),
    };
    assert_eq!(state.engine_id, "10.0.0.1:20001");
    assert!(state.force_roce);
    assert!(state.alias_enabled);
    assert!(state.registered_addrs.is_empty());
    assert!(state.aliased_addrs.is_empty());
    assert!(matches!(do_connect(&Some(state), PEER), Ok(ConnectStep::CallEngine { .. })));
}

#[test]
fn engine_creation_can_fail() {
    let outcomes = [
        (InitOutcome::NoThread(text("a")), HixlError::InitSpawn(text("a"))),
        (InitOutcome::NoAnswer(text("b")), HixlError::InitChannel(text("b"))),
        (InitOutcome::Failed(text("c")), HixlError::InitEngine(text("c"))),
    ];
    for (outcome, error) in outcomes {
        match do_init_engine("x:1", false, None, outcome) {
            Ok(_) => panic!("the engine was not created"),
            Err(e) => assert_eq!(e, error),
        }
    }
}

fn address(is_ipv4: bool, is_loopback: bool, s: &str) -> HostAddress {
    HostAddress { is_ipv4, is_loopback, text: text(s) }
}

#[test]
fn host_address_is_the_first_that_serves() {
    let addresses = [
        address(false, false, "fe80::1"),
        address(true, true, "127.0.1.1"),
        address(true, false, "10.0.0.1"),
        address(true, false, "10.0.0.2"),
    ];
    assert_eq!(local_ip_for_hixl(false, &addresses), Some(text("10.0.0.1")));
    assert_eq!(local_ip_for_hixl(true, &addresses), Some(text("127.0.0.1")));
    assert_eq!(local_ip_for_hixl(false, &addresses[0..2]), None);
    assert_eq!(local_ip_for_hixl(false, &[]), None);
}

#[test]
fn host_address_falls_back_to_the_listing() {
    assert_eq!(listed_ip(Some(b"10.1.2.3 172.17.0.1 \n")), "10.1.2.3");
    assert_eq!(listed_ip(Some(b"127.0.0.2 10.1.2.3")), "127.0.0.1");
    assert_eq!(listed_ip(Some(b" \n")), "127.0.0.1");
    assert_eq!(listed_ip(Some(&[0xc3, 0x28])), "127.0.0.1");
    assert_eq!(listed_ip(None), "127.0.0.1");
}

#[test]
fn manager_takes_the_configuration() {
    let open = HixlBackend::<u8>::manager_for(None);
    assert_eq!(open.get_engine_id(), "");
    assert_eq!(open.device_id, -1);
    let default = HixlBackend::<u8>::manager_for(Some(HixlConfig::default()));
    assert_eq!(default.get_engine_id(), "");
    assert_eq!(default.device_id, -1);
    let config = HixlConfig { engine_id: Some(text("e:1")), device_id: Some(4) };
    let set = HixlBackend::<u8>::manager_for(Some(config));
    assert_eq!(set.get_engine_id(), "e:1");
    assert_eq!(set.device_id, 4);
    assert!(set.buf_addrs.is_empty());
    assert!(!set.has_owner);
}

#[test]
fn manager_needs_a_parent() {
    let mut actor = HixlManagerActor::new(text(""), -1);
    assert_eq!(
        actor.init(false, None, None, text("g:1"), &None),
        Err(HixlError::NoParent)
    );
    assert!(!actor.has_owner);
    assert_eq!(actor.get_engine_id(), "");
}

#[test]
fn manager_creates_the_engine() {
    let mut actor = HixlManagerActor::new(text(""), -1);
    assert_eq!(
        actor.init(true, None, Some("6"), text("g:1"), &None),
        Ok(InitStep::CreateEngine { device_id: 6, engine_id: text("g:1") })
    );
    assert!(actor.has_owner);
    assert_eq!(actor.device_id, 6);
    assert_eq!(actor.get_engine_id(), "g:1");
    actor.init_done(&slot(false));
    assert_eq!(actor.get_engine_id(), "10.0.0.1:20001");
    actor.init_done(&None);
    assert_eq!(actor.get_engine_id(), "10.0.0.1:20001");
}

#[test]
fn manager_reuses_the_engine() {
    let mut actor = HixlManagerActor::new(text("hint:1"), 2);
    assert_eq!(
        actor.init(true, Some(text("env:1")), None, text(""), &slot(false)),
        Ok(InitStep::Reuse)
    );
    assert_eq!(actor.get_engine_id(), "10.0.0.1:20001");
    assert_eq!(actor.device_id, 2);
}

#[test]
fn buffer_is_registered_and_released() {
    let mut engine = slot(true);
    let mut actor = HixlManagerActor::new(text("10.0.0.1:20001"), 0);
    assert_eq!(
        actor.request_buffer(&mut engine, 5, 0x1000, 64),
        Ok(BufferStep::CallEngine { addr: 0x1000, size: 64, misaligned_by: None })
    );
    assert!(actor.buf_addrs.is_empty());
    let buffer = HixlBuffer { engine_id: text("10.0.0.1:20001"), addr: 0x1000, size: 64 };
    assert_eq!(
        actor.request_buffer_done(&mut engine, 5, 0x1000, 64, Ok(())),
        Ok(buffer.clone())
    );
    assert_eq!(
        actor.request_buffer(&mut engine, 6, 0x1000, 64),
        Ok(BufferStep::Ready(buffer))
    );
    assert_eq!(actor.buf_addrs.get(&5), Some(&0x1000));
    assert_eq!(
        actor.release_buffer(&mut engine, 6),
        Ok(Some(DeregisterStep::Released))
    );
    assert_eq!(
        actor.release_buffer(&mut engine, 5),
        Ok(Some(DeregisterStep::CallEngine { addr: 0x1000 }))
    );
    assert!(actor.buf_addrs.is_empty());
    assert!(engine.as_ref().unwrap().registered_addrs.is_empty());
    assert_eq!(actor.release_buffer(&mut engine, 5), Ok(None));
}

#[test]
fn refused_buffer_is_not_tracked() {
    let mut engine = slot(true);
    let mut actor = HixlManagerActor::new(text("e:1"), 0);
    let _ = actor.request_buffer(&mut engine, 5, 0x1000, 64);
    assert_eq!(
        actor.request_buffer_done(&mut engine, 5, 0x1000, 64, Err(8)),
        Err(HixlError::RegisterMem { addr: 0x1000, size: 64, ret: 8 })
    );
    assert!(actor.buf_addrs.is_empty());
}

#[test]
fn buffer_needs_an_engine() {
    let mut none: Option<HixlEngineState> = None;
    let mut actor = HixlManagerActor::new(text("e:1"), 0);
    assert_eq!(
        actor.request_buffer(&mut none, 5, 0x1000, 64),
        Err(HixlError::NotInitialised)
    );
    assert_eq!(actor.release_buffer(&mut none, 5), Ok(None));
    actor.buf_addrs.insert(5, 0x1000);
    assert_eq!(actor.release_buffer(&mut none, 5), Err(HixlError::NotInitialised));
    assert!(actor.buf_addrs.is_empty());
}

#[test]
fn backend_reports_for_hixl() {
    assert!(HixlBackend::<u8>::available());
    let backend = HixlBackend(0u8);
    assert_eq!(backend.transport_level(&slot(false)), RdmaTransportLevel::Hccs);
    assert_eq!(backend.transport_level(&slot(true)), RdmaTransportLevel::Nic);
    assert_eq!(backend.transport_level(&None), RdmaTransportLevel::Nic);
    assert_eq!(backend.transport_info(), None);
}

#[test]
fn backend_needs_a_reply_with_a_buffer() {
    let buffer = HixlBuffer { engine_id: text("e:1"), addr: 1, size: 2 };
    assert_eq!(
        HixlBackend::<u8>::register_remote_buffer(4, Some(buffer.clone())),
        Ok(buffer)
    );
    assert_eq!(
        HixlBackend::<u8>::register_remote_buffer(4, None),
        Err(HixlError::BufferNotRegistered { remote_buf_id: 4 })
    );
}
