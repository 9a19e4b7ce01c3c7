use monarch_ascend::hixl::config::HixlConfig;
use monarch_ascend::rdma::backend::{rdma_supported, RdmaRemoteBackendContext, WireContext};
use monarch_ascend::rdma::buffer::{
    HixlBuffer, KeepaliveLocalMemory, LocalMemory, RdmaRemoteBackends, RdmaRemoteBuffer,
    ReleaseBuffer,
};
use monarch_ascend::rdma::cuda::{
    get_registered_cuda_segments, segment_slots, validate_execution_context, ContextError,
};
use monarch_ascend::rdma::manager::{
    IbvConfig, MissingBackend, RdmaBackendHandle, RdmaManagerActor,
};
use monarch_ascend::rdma::transport::RdmaTransportLevel;

type Manager = RdmaManagerActor<HixlConfig, u8, u32>;

fn text(s: &str) -> String {
    String::from(s)
}

fn hixl_buffer() -> HixlBuffer {
    HixlBuffer { engine_id: text("e:1"), addr: 0x1000, size: 64 }
}

fn local(keepalive: u8) -> KeepaliveLocalMemory<u8> {
    KeepaliveLocalMemory { memory: LocalMemory { addr: 0x1000, size: 64 }, keepalive }
}

fn started(handles: Vec<RdmaBackendHandle<u32>>) -> Manager {
    let mut manager = Manager::new(None);
    let spawned: Result<Vec<RdmaBackendHandle<u32>>, ()> = Ok(handles);
    assert_eq!(manager.init(spawned), Ok(()));
    manager
}

fn register(manager: &mut Manager, keepalive: u8) -> RdmaRemoteBuffer<Vec<u8>> {
    let id = manager.request_buffer();
    let registered: Result<RdmaRemoteBackends<Vec<u8>>, ()> =
        Ok(RdmaRemoteBackends { hixl: Some(hixl_buffer()), contexts: vec![8, 9] });
    manager.request_buffer_done(id, local(keepalive), text("me"), registered).unwrap()
}

#[test]
fn levels_go_from_slow_to_fast() {
    let levels = [
        RdmaTransportLevel::Tcp,
        RdmaTransportLevel::Nic,
        RdmaTransportLevel::Hccs,
        RdmaTransportLevel::Memory,
    ];
    for (i, left) in levels.iter().enumerate() {
        for (j, right) in levels.iter().enumerate() {
            assert_eq!(left < right, i < j);
            assert_eq!(left == right, i == j);
            assert_eq!(left.partial_cmp(right), Some(left.cmp(right)));
        }
    }
    assert_eq!(levels.iter().max(), Some(&RdmaTransportLevel::Memory));
}

#[test]
fn context_survives_the_wire() {
    let resolved: RdmaRemoteBackendContext<u32, u8> =
        RdmaRemoteBackendContext::Ibverbs(3, Some(1));
    let wire = resolved.serialize();
    assert_eq!(wire, WireContext::Ibverbs(3));
    assert_eq!((wire.index(), wire.name()), (0, "Ibverbs"));
    let back: RdmaRemoteBackendContext<u32, u8> = RdmaRemoteBackendContext::deserialize(wire);
    assert_eq!(back, RdmaRemoteBackendContext::Ibverbs(3, None));

    let tcp: RdmaRemoteBackendContext<u32, u8> = RdmaRemoteBackendContext::Tcp(4);
    let wire = tcp.serialize();
    assert_eq!((wire.index(), wire.name()), (1, "Tcp"));
    let back: RdmaRemoteBackendContext<u32, u8> = RdmaRemoteBackendContext::deserialize(wire);
    assert_eq!(back, RdmaRemoteBackendContext::Tcp(4));

    let hixl: RdmaRemoteBackendContext<u32, u8> = RdmaRemoteBackendContext::Hixl(hixl_buffer());
    let wire = hixl.serialize();
    assert_eq!((wire.index(), wire.name()), (0, "Hixl"));
    let back: RdmaRemoteBackendContext<u32, u8> = RdmaRemoteBackendContext::deserialize(wire);
    assert_eq!(back, RdmaRemoteBackendContext::Hixl(hixl_buffer()));
}

#[test]
fn rdma_needs_hardware_or_fallback() {
    assert!(rdma_supported(true, false));
    assert!(rdma_supported(false, true));
    assert!(rdma_supported(true, true));
    assert!(!rdma_supported(false, false));
}

#[test]
fn execution_context_needs_both_files() {
    let modules: Result<String, i32> = Ok(text("nvidia 1\nnvidia_peermem 16384 0\n"));
    let params: Result<String, i32> = Ok(text("RegistryDwords: \"PeerMappingOverride=1;\"\n"));
    assert_eq!(validate_execution_context(modules.clone(), params.clone()), Ok(()));
    assert_eq!(
        validate_execution_context(Err(2), params.clone()),
        Err(ContextError::Unreadable(2))
    );
    assert_eq!(
        validate_execution_context(Ok(text("nvidia 1\n")), Err(3)),
        Err(ContextError::NoPeermem)
    );
    assert_eq!(
        validate_execution_context(modules.clone(), Err(3)),
        Err(ContextError::Unreadable(3))
    );
    assert_eq!(
        validate_execution_context(modules, Ok(text("PeerMappingOverride=0"))),
        Err(ContextError::NoPeerMapping)
    );
}

#[test]
fn execution_context_failures_are_described() {
    let peermem: ContextError<i32> = ContextError::NoPeermem;
    assert_eq!(
        peermem.message(),
        Some(text("nvidia_peermem module not found in /proc/modules"))
    );
    let mapping: ContextError<i32> = ContextError::NoPeerMapping;
    assert_eq!(
        mapping.message(),
        Some(text("PeerMappingOverride=1 not found in /proc/driver/nvidia/params"))
    );
    assert_eq!(ContextError::Unreadable(3).message(), None);
}

#[test]
fn segments_are_those_that_were_filled() {
    assert_eq!(segment_slots(-1), 0);
    assert_eq!(segment_slots(0), 0);
    assert_eq!(segment_slots(3), 3);
    assert_eq!(get_registered_cuda_segments(vec![1, 2, 3], 2), vec![1, 2]);
    assert_eq!(get_registered_cuda_segments(vec![1, 2, 3], 3), vec![1, 2, 3]);
    assert_eq!(get_registered_cuda_segments(vec![1, 2, 3], 4), vec![1, 2, 3]);
    assert_eq!(get_registered_cuda_segments(vec![1, 2, 3], 0), Vec::<i32>::new());
    assert_eq!(get_registered_cuda_segments(vec![1, 2, 3], -1), Vec::<i32>::new());
}

#[test]
fn manager_starts_empty() {
    let config = HixlConfig { engine_id: None, device_id: Some(1) };
    let manager = Manager::new(Some(config.clone()));
    assert_eq!(manager.next_remote_buf_id, 0);
    assert!(manager.buffers.is_empty());
    assert_eq!(manager.params, Some(config));
    assert!(manager.backends.is_none());
}

#[test]
fn manager_needs_its_backends() {
    let mut manager = Manager::new(None);
    let failed: Result<Vec<RdmaBackendHandle<u32>>, i32> = Err(4);
    assert_eq!(manager.init(failed), Err(4));
    assert!(manager.backends.is_none());
    let manager = started(vec![RdmaBackendHandle::Hixl(1), RdmaBackendHandle::Hixl(2)]);
    assert_eq!(
        manager.get_backend_handles(),
        &vec![RdmaBackendHandle::Hixl(1), RdmaBackendHandle::Hixl(2)]
    );
}

#[test]
fn manager_hands_out_fresh_numbers() {
    let mut manager = started(vec![RdmaBackendHandle::Hixl(1)]);
    let first = register(&mut manager, 1);
    assert_eq!(
        first,
        RdmaRemoteBuffer {
            id: 0,
            size: 64,
            owner: text("me"),
            backends: RdmaRemoteBackends { hixl: Some(hixl_buffer()), contexts: vec![8, 9] },
        }
    );
    let failed = manager.request_buffer();
    assert_eq!(failed, 1);
    let refused: Result<RdmaRemoteBackends<Vec<u8>>, i32> = Err(6);
    assert_eq!(
        manager.request_buffer_done(failed, local(2), text("me"), refused),
        Err(6)
    );
    assert_eq!(manager.request_local_memory(1), None);
    let _ = manager.release_buffer(0);
    assert_eq!(register(&mut manager, 3).id, 2);
}

#[test]
fn manager_finds_buffers_until_released() {
    let mut manager = started(vec![RdmaBackendHandle::Hixl(7)]);
    let first = register(&mut manager, 1);
    let second = register(&mut manager, 2);
    assert_eq!(manager.request_local_memory(first.id), Some(&local(1)));
    assert_eq!(manager.request_local_memory(second.id), Some(&local(2)));
    assert_eq!(first.drop_buffer(), ReleaseBuffer { id: first.id });
    assert_eq!(manager.release_buffer(first.id), &vec![RdmaBackendHandle::Hixl(7)]);
    assert_eq!(manager.request_local_memory(first.id), None);
    assert_eq!(manager.request_local_memory(second.id), Some(&local(2)));
    assert_eq!(manager.release_buffer(99), &vec![RdmaBackendHandle::Hixl(7)]);
    assert_eq!(manager.request_local_memory(second.id), Some(&local(2)));
}

#[test]
fn manager_finds_the_first_backend_of_a_sort() {
    let mixed = started(vec![
        RdmaBackendHandle::Ibverbs(1),
        RdmaBackendHandle::Tcp(2),
        RdmaBackendHandle::Hixl(3),
        RdmaBackendHandle::Tcp(4),
        RdmaBackendHandle::Hixl(5),
    ]);
    assert_eq!(mixed.get_tcp_actor_ref(), Ok(&2));
    assert_eq!(mixed.ensure_peer_connected(), Ok(&3));
    let neither = started(vec![RdmaBackendHandle::Ibverbs(1)]);
    assert_eq!(neither.get_tcp_actor_ref(), Err(MissingBackend::Tcp));
    assert_eq!(neither.ensure_peer_connected(), Err(MissingBackend::Hixl));
    assert_eq!(MissingBackend::Tcp.message(), "TCP backend not available");
    assert_eq!(MissingBackend::Hixl.message(), "HiXL backend not available");
}

#[test]
fn chosen_target_comes_before_the_process_setting() {
    let none: RdmaManagerActor<IbvConfig<u8>, u8, u32> = RdmaManagerActor::new(None);
    assert!(none.checks_process_target());
    let open: RdmaManagerActor<IbvConfig<u8>, u8, u32> =
        RdmaManagerActor::new(Some(IbvConfig { target: None }));
    assert!(open.checks_process_target());
    let chosen: RdmaManagerActor<IbvConfig<u8>, u8, u32> =
        RdmaManagerActor::new(Some(IbvConfig { target: Some(3) }));
    assert!(!chosen.checks_process_target());
}

#[test]
fn buffers_are_copied_whole() {
    let buffer = RdmaRemoteBuffer {
        id: 3,
        size: 64,
        owner: text("me"),
        backends: RdmaRemoteBackends { hixl: Some(hixl_buffer()), contexts: vec![8, 9] },
    };
    assert_eq!(buffer.clone(), buffer);
    assert_eq!(buffer.resolve_hixl(), Some(&hixl_buffer()));
    let plain = RdmaRemoteBuffer { backends: RdmaRemoteBackends { hixl: None, contexts: vec![3] }, ..buffer };
    assert_eq!(plain.clone(), plain);
    assert_eq!(plain.resolve_hixl(), None);
}
