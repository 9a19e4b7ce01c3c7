use std::hash::Hasher;

use fxhash::FxHasher32;
use monarch_ascend::hccl::color::calculate_color;
use monarch_ascend::hccl::communicator::{
    CommOutcome, Communicator, GatherStep, HcclCall, LocalCopy, NpuDevice,
};
use monarch_ascend::hccl::root_info::RootInfo;
use monarch_ascend::hccl::split::SubCommRequest;
use monarch_ascend::hccl::tensor::{check_tensor, Tensor};
use monarch_ascend::hccl::types::{
    complete, hccl_check, is_float8_type, reduce_op_to_hccl, AclError, DataType, DeviceType,
    HcclDataType, HcclError, HcclReduceOp, HcclResult, HcclStatus, RawHcclError, ScalarType,
};
use monarch_ascend::unique_id::{HcclRootInfo, ReduceOp};

fn tensor(numel: i64, at: usize) -> Tensor {
    Tensor {
        defined: true,
        is_npu: true,
        device_type: DeviceType::Npu,
        is_sparse: false,
        is_contiguous: true,
        scalar_type: ScalarType::Float,
        numel,
        nbytes: 4 * numel as usize,
        data_ptr: at,
        mut_data_ptr: at,
    }
}

fn of_type(scalar_type: ScalarType) -> Tensor {
    Tensor { scalar_type, ..tensor(8, 0x100) }
}

fn comm(world_size: i32, rank: i32) -> Communicator {
    Communicator {
        inner: 77,
        world_size,
        rank,
        global_world_size: world_size,
        global_rank: rank,
        device: NpuDevice { index: 3 },
        split_counter: 0,
    }
}

#[test]
fn codes_read_as_failures() {
    assert_eq!(hccl_check(HcclResult(0)), Ok(HcclStatus::Success));
    let known = [
        (1, RawHcclError::ParamError),
        (2, RawHcclError::PtrError),
        (3, RawHcclError::MemoryError),
        (4, RawHcclError::InternalError),
        (5, RawHcclError::NotSupported),
        (6, RawHcclError::NotFound),
        (7, RawHcclError::Unavailable),
        (8, RawHcclError::SysCallError),
        (9, RawHcclError::Timeout),
        (10, RawHcclError::Other(10)),
        (19, RawHcclError::NetworkError),
        (20, RawHcclError::Other(20)),
        (21, RawHcclError::RemoteError),
        (u32::MAX, RawHcclError::Other(u32::MAX)),
    ];
    for (code, error) in known {
        assert_eq!(hccl_check(HcclResult(code)), Err(error));
        assert_eq!(complete(HcclResult(code)), Err(HcclError::HcclError(error)));
    }
    assert_eq!(complete(HcclResult(0)), Ok(HcclStatus::Success));
}

#[test]
fn failures_convert() {
    assert_eq!(
        HcclError::from(RawHcclError::Timeout),
        HcclError::HcclError(RawHcclError::Timeout)
    );
    assert_eq!(HcclError::from(AclError(5)), HcclError::AclError(AclError(5)));
}

#[test]
fn data_types_have_the_hccl_numbers() {
    let types = [
        DataType::Int8,
        DataType::Int16,
        DataType::Int32,
        DataType::Fp16,
        DataType::Fp32,
        DataType::Int64,
        DataType::Uint64,
        DataType::Uint8,
        DataType::Uint16,
        DataType::Uint32,
        DataType::Fp64,
        DataType::Bfp16,
    ];
    for (code, data_type) in types.iter().enumerate() {
        assert_eq!(HcclDataType::from(*data_type), HcclDataType(code as u32));
    }
}

#[test]
fn scalar_types_are_carried() {
    let carried = [
        (ScalarType::Char, DataType::Int8),
        (ScalarType::Byte, DataType::Uint8),
        (ScalarType::Short, DataType::Int16),
        (ScalarType::Half, DataType::Fp16),
        (ScalarType::Float, DataType::Fp32),
        (ScalarType::Double, DataType::Fp64),
        (ScalarType::Int, DataType::Int32),
        (ScalarType::Long, DataType::Int64),
        (ScalarType::Bool, DataType::Uint8),
        (ScalarType::BFloat16, DataType::Bfp16),
        (ScalarType::Float8_e5m2, DataType::Uint8),
        (ScalarType::Float8_e4m3fn, DataType::Uint8),
        (ScalarType::Float8_e5m2fnuz, DataType::Uint8),
        (ScalarType::Float8_e4m3fnuz, DataType::Uint8),
    ];
    for (scalar, data_type) in carried {
        assert_eq!(DataType::try_from(scalar), Ok(data_type));
    }
    assert_eq!(
        DataType::try_from(ScalarType::Other(9)),
        Err(HcclError::InvalidDataType(ScalarType::Other(9)))
    );
}

#[test]
fn only_eight_bit_floats_are_float8() {
    assert!(is_float8_type(ScalarType::Float8_e5m2));
    assert!(is_float8_type(ScalarType::Float8_e4m3fn));
    assert!(is_float8_type(ScalarType::Float8_e5m2fnuz));
    assert!(is_float8_type(ScalarType::Float8_e4m3fnuz));
    assert!(!is_float8_type(ScalarType::Byte));
    assert!(!is_float8_type(ScalarType::Half));
    assert!(!is_float8_type(ScalarType::Other(24)));
}

#[test]
fn averages_are_not_reduced() {
    assert_eq!(reduce_op_to_hccl(ReduceOp::Sum), Ok(HcclReduceOp(0)));
    assert_eq!(reduce_op_to_hccl(ReduceOp::Prod), Ok(HcclReduceOp(1)));
    assert_eq!(reduce_op_to_hccl(ReduceOp::Max), Ok(HcclReduceOp(2)));
    assert_eq!(reduce_op_to_hccl(ReduceOp::Min), Ok(HcclReduceOp(3)));
    assert_eq!(reduce_op_to_hccl(ReduceOp::Avg), Err(HcclError::AvgNotSupported));
}

#[test]
fn tensors_are_checked_in_order() {
    let good = tensor(4, 0x10);
    assert_eq!(check_tensor(&good, false), Ok(()));
    let strided = Tensor { is_contiguous: false, ..good };
    assert_eq!(check_tensor(&strided, true), Ok(()));
    assert_eq!(check_tensor(&strided, false), Err(HcclError::NoncontiguousTensor));
    let sparse = Tensor { is_sparse: true, ..strided };
    assert_eq!(check_tensor(&sparse, false), Err(HcclError::InvalidSparseTensor));
    let elsewhere = Tensor { is_npu: false, device_type: DeviceType::Cpu, ..sparse };
    assert_eq!(
        check_tensor(&elsewhere, false),
        Err(HcclError::InvalidDevice(DeviceType::Cpu))
    );
    let undefined = Tensor { defined: false, ..elsewhere };
    assert_eq!(check_tensor(&undefined, true), Err(HcclError::UndefinedTensor));
}

#[test]
fn colour_is_the_hash_of_the_ranks() {
    assert_eq!(calculate_color(&[]), 0);
    assert_eq!(calculate_color(&[1]), 656_542_357);
    assert_eq!(calculate_color(&[0, 2]), 1_313_084_714);
    assert_eq!(calculate_color(&[1, 2, 3]), 411_543_439);
    assert_eq!(calculate_color(&[-1]), 1_490_941_292);
    assert_ne!(calculate_color(&[1, 2]), calculate_color(&[2, 1]));
}

#[test]
fn colour_agrees_with_signed_writes() {
    let groups: Vec<Vec<i32>> = vec![vec![0, 1, 2, 3], vec![5, 9, 1000], vec![-7, i32::MAX]];
    for ranks in groups {
        let mut hasher = FxHasher32::default();
        for rank in &ranks {
            hasher.write_i32(*rank);
        }
        let expected = (hasher.finish() % (i32::MAX as u64)) as i32;
        assert_eq!(calculate_color(&ranks), expected);
    }
}

#[test]
fn communicator_is_made_of_its_outcome() {
    let root = RootInfo { inner: HcclRootInfo { internal: [4; 4108] } };
    let init = Communicator::init_call(8, &root, 2);
    assert_eq!(init.n_ranks, 8);
    assert_eq!(init.rank, 2);
    assert_eq!(init.root_info.internal, [4; 4108]);

    let device = NpuDevice { index: 1 };
    let called = CommOutcome::Called { result: HcclResult(0), comm: 99 };
    let made = Communicator::new(device, 8, 2, called).unwrap();
    assert_eq!(made.inner, 99);
    assert_eq!(made.world_size(), 8);
    assert_eq!(made.rank(), 2);
    assert_eq!(made.global_rank(), 2);
    assert_eq!(made.global_world_size, 8);
    assert_eq!(made.device(), device);
    assert_eq!(made.split_counter, 0);

    let failed = CommOutcome::Called { result: HcclResult(1), comm: 0 };
    assert_eq!(
        Communicator::new(device, 8, 2, failed),
        Err(HcclError::HcclError(RawHcclError::ParamError))
    );
    let no_device = CommOutcome::NoDevice(AclError(107));
    assert_eq!(
        Communicator::new(device, 8, 2, no_device),
        Err(HcclError::AclError(AclError(107)))
    );
}

#[test]
fn all_reduce_asks_for_the_reduction() {
    let call = comm(4, 1).all_reduce(&tensor(6, 0x40), ReduceOp::Max, 9);
    assert_eq!(
        call,
        Ok(HcclCall::AllReduce {
            send: 0x40,
            recv: 0x40,
            count: 6,
            data_type: HcclDataType(4),
            op: HcclReduceOp(2),
            comm: 77,
            stream: 9,
        })
    );
}

#[test]
fn all_reduce_reports_the_first_failure() {
    let comm = comm(4, 1);
    let odd = Tensor { defined: false, ..of_type(ScalarType::Other(3)) };
    assert_eq!(
        comm.all_reduce(&odd, ReduceOp::Avg, 0),
        Err(HcclError::InvalidDataType(ScalarType::Other(3)))
    );
    let undefined = Tensor { defined: false, ..of_type(ScalarType::Float8_e5m2) };
    assert_eq!(
        comm.all_reduce(&undefined, ReduceOp::Avg, 0),
        Err(HcclError::UndefinedTensor)
    );
    assert_eq!(
        comm.all_reduce(&of_type(ScalarType::Float8_e5m2), ReduceOp::Avg, 0),
        Err(HcclError::Float8Reduction)
    );
    assert_eq!(
        comm.all_reduce(&of_type(ScalarType::Half), ReduceOp::Avg, 0),
        Err(HcclError::AvgNotSupported)
    );
}

#[test]
fn broadcast_checks_the_tensor_before_the_type() {
    let comm = comm(4, 1);
    assert_eq!(
        comm.broadcast(&of_type(ScalarType::Float8_e4m3fn), 2, 5),
        Ok(HcclCall::Broadcast {
            buf: 0x100,
            count: 8,
            data_type: HcclDataType(7),
            root: 2,
            comm: 77,
            stream: 5,
        })
    );
    let odd = Tensor { is_sparse: true, ..of_type(ScalarType::Other(3)) };
    assert_eq!(comm.broadcast(&odd, 2, 5), Err(HcclError::InvalidSparseTensor));
    assert_eq!(
        comm.broadcast(&of_type(ScalarType::Other(3)), 2, 5),
        Err(HcclError::InvalidDataType(ScalarType::Other(3)))
    );
}

#[test]
fn reduce_asks_for_the_root() {
    let comm = comm(4, 1);
    assert_eq!(
        comm.reduce(&of_type(ScalarType::Long), ReduceOp::Prod, 3, 5),
        Ok(HcclCall::Reduce {
            send: 0x100,
            recv: 0x100,
            count: 8,
            data_type: HcclDataType(5),
            op: HcclReduceOp(1),
            root: 3,
            comm: 77,
            stream: 5,
        })
    );
    assert_eq!(
        comm.reduce(&of_type(ScalarType::Float8_e5m2fnuz), ReduceOp::Avg, 3, 5),
        Err(HcclError::Float8Reduction)
    );
    assert_eq!(
        comm.reduce(&of_type(ScalarType::Other(3)), ReduceOp::Avg, 3, 5),
        Err(HcclError::InvalidDataType(ScalarType::Other(3)))
    );
    assert_eq!(
        comm.reduce(&of_type(ScalarType::Int), ReduceOp::Avg, 3, 5),
        Err(HcclError::AvgNotSupported)
    );
}

#[test]
fn all_gather_broadcasts_every_slot() {
    let comm = comm(3, 1);
    let outputs = [tensor(5, 0x1000), tensor(5, 0x2000), tensor(5, 0x3000)];
    let steps = comm.all_gather(&outputs, &tensor(5, 0x500), 6).unwrap();
    assert_eq!(steps.len(), 3);
    for (slot, step) in steps.iter().enumerate() {
        let buf = 0x1000 * (slot + 1);
        let copy = if slot == 1 {
            Some(LocalCopy { from: 0x500, to: 0x2000, nbytes: 20 })
        } else {
            None
        };
        let broadcast = HcclCall::Broadcast {
            buf,
            count: 5,
            data_type: HcclDataType(4),
            root: slot as u32,
            comm: 77,
            stream: 6,
        };
        assert_eq!(*step, GatherStep { copy, broadcast });
    }
}

fn run_gather(results: &[u32]) -> (Result<HcclStatus, HcclError>, usize) {
    let mut asked = 0;
    let mut next = Some(0);
    while let Some(at) = next {
        asked += 1;
        match Communicator::gather_done(results.len(), at, HcclResult(results[at])) {
            Ok(step) => next = step,
            Err(error) => return (Err(error), asked),
        }
    }
    (Ok(HcclStatus::Success), asked)
}

#[test]
fn gather_goes_on_step_by_step() {
    assert_eq!(Communicator::gather_done(3, 0, HcclResult(0)), Ok(Some(1)));
    assert_eq!(Communicator::gather_done(3, 1, HcclResult(0)), Ok(Some(2)));
    assert_eq!(Communicator::gather_done(3, 2, HcclResult(0)), Ok(None));
    assert_eq!(Communicator::gather_done(1, 0, HcclResult(0)), Ok(None));
    assert_eq!(
        Communicator::gather_done(3, 1, HcclResult(19)),
        Err(HcclError::HcclError(RawHcclError::NetworkError))
    );
}

#[test]
fn gather_ends_with_the_first_failure() {
    assert_eq!(run_gather(&[0, 0, 0]), (Ok(HcclStatus::Success), 3));
    assert_eq!(
        run_gather(&[0, 9, 19]),
        (Err(HcclError::HcclError(RawHcclError::Timeout)), 2)
    );
    assert_eq!(
        run_gather(&[0, 0, 77]),
        (Err(HcclError::HcclError(RawHcclError::Other(77))), 3)
    );
}

#[test]
fn exchange_is_checked() {
    assert_eq!(
        Communicator::check_exchange(&tensor(4, 1), &tensor(4, 2)),
        Ok(HcclDataType(4))
    );
    let undefined = Tensor { defined: false, ..tensor(4, 1) };
    assert_eq!(
        Communicator::check_exchange(&undefined, &tensor(4, 2)),
        Err(HcclError::UndefinedTensor)
    );
    assert_eq!(
        comm(0, 0).all_to_all_single(&undefined, &tensor(4, 2), 1),
        Err(HcclError::UndefinedTensor)
    );
}

#[test]
fn all_gather_in_place_copies_nothing() {
    let outputs = [tensor(5, 0x1000), tensor(5, 0x2000)];
    let steps = comm(2, 1).all_gather(&outputs, &tensor(5, 0x2000), 6).unwrap();
    assert_eq!(steps[0].copy, None);
    assert_eq!(steps[1].copy, None);
}

#[test]
fn all_gather_reports_mismatches() {
    let comm = comm(2, 0);
    let input = tensor(5, 0x500);
    let undefined = Tensor { defined: false, ..input };
    assert_eq!(comm.all_gather(&[], &undefined, 6), Err(HcclError::UndefinedTensor));
    let mixed = [tensor(5, 0x1000), of_type(ScalarType::Half)];
    assert_eq!(comm.all_gather(&mixed, &input, 6), Err(HcclError::TypeMismatch));
    let other = [of_type(ScalarType::Half), of_type(ScalarType::Half)];
    assert_eq!(comm.all_gather(&other, &input, 6), Err(HcclError::TypeMismatch));
    let short = [tensor(5, 0x1000), tensor(4, 0x2000)];
    assert_eq!(comm.all_gather(&short, &input, 6), Err(HcclError::OutputSizeMismatch));
    let uneven = [tensor(3, 0x1000), tensor(7, 0x2000)];
    assert!(comm.all_gather(&uneven, &input, 6).is_ok());
    let odd = of_type(ScalarType::Other(1));
    assert_eq!(
        comm.all_gather(&[odd, odd], &odd, 6),
        Err(HcclError::InvalidDataType(ScalarType::Other(1)))
    );
}

#[test]
fn all_gather_into_tensor_needs_room_for_every_rank() {
    let comm = comm(4, 0);
    assert_eq!(
        comm.all_gather_into_tensor(&tensor(20, 0x1000), &tensor(5, 0x500), 1),
        Ok(HcclCall::AllGather {
            send: 0x500,
            recv: 0x1000,
            count: 5,
            data_type: HcclDataType(4),
            comm: 77,
            stream: 1,
        })
    );
    assert_eq!(
        comm.all_gather_into_tensor(&tensor(19, 0x1000), &tensor(5, 0x500), 1),
        Err(HcclError::OutputSizeMismatch)
    );
    assert_eq!(
        comm.all_gather_into_tensor(&tensor(i64::MAX, 0x1000), &tensor(i64::MAX, 0x500), 1),
        Err(HcclError::OutputSizeMismatch)
    );
    assert_eq!(
        comm.all_gather_into_tensor(&tensor(20, 0x1000), &of_type(ScalarType::Half), 1),
        Err(HcclError::TypeMismatch)
    );
}

#[test]
fn reduce_scatter_needs_input_for_every_rank() {
    let comm = comm(4, 0);
    assert_eq!(
        comm.reduce_scatter_tensor(&tensor(5, 0x1000), &tensor(20, 0x500), ReduceOp::Min, 1),
        Ok(HcclCall::ReduceScatter {
            send: 0x500,
            recv: 0x1000,
            count: 5,
            data_type: HcclDataType(4),
            op: HcclReduceOp(3),
            comm: 77,
            stream: 1,
        })
    );
    assert_eq!(
        comm.reduce_scatter_tensor(&tensor(5, 0x1000), &tensor(21, 0x500), ReduceOp::Min, 1),
        Err(HcclError::InputSizeMismatch)
    );
    let float8 = Tensor { numel: 2, ..of_type(ScalarType::Float8_e4m3fnuz) };
    assert_eq!(
        comm.reduce_scatter_tensor(
            &float8,
            &of_type(ScalarType::Float8_e4m3fnuz),
            ReduceOp::Avg,
            1
        ),
        Err(HcclError::Float8Reduction)
    );
    assert_eq!(
        comm.reduce_scatter_tensor(&tensor(5, 0x1000), &tensor(20, 0x500), ReduceOp::Avg, 1),
        Err(HcclError::AvgNotSupported)
    );
}

#[test]
fn point_to_point_takes_strided_tensors() {
    let comm = comm(4, 0);
    let strided = Tensor { is_contiguous: false, mut_data_ptr: 0x900, ..tensor(3, 0x800) };
    assert_eq!(
        comm.send(&strided, 2, 1),
        Ok(HcclCall::Send {
            buf: 0x800,
            count: 3,
            data_type: HcclDataType(4),
            dst: 2,
            comm: 77,
            stream: 1,
        })
    );
    assert_eq!(
        comm.recv(&strided, 3, 1),
        Ok(HcclCall::Recv {
            buf: 0x900,
            count: 3,
            data_type: HcclDataType(4),
            src: 3,
            comm: 77,
            stream: 1,
        })
    );
    let odd = Tensor { defined: false, ..of_type(ScalarType::Other(3)) };
    assert_eq!(
        comm.send(&odd, 2, 1),
        Err(HcclError::InvalidDataType(ScalarType::Other(3)))
    );
    let sparse = Tensor { is_sparse: true, ..strided };
    assert_eq!(comm.recv(&sparse, 2, 1), Err(HcclError::InvalidSparseTensor));
}

#[test]
fn all_to_all_shares_the_input() {
    let comm = comm(4, 0);
    assert_eq!(
        comm.all_to_all_single(&tensor(30, 0x1000), &tensor(30, 0x500), 1),
        Ok(HcclCall::AlltoAll {
            send: 0x500,
            send_count: 7,
            send_type: HcclDataType(4),
            recv: 0x1000,
            recv_count: 7,
            recv_type: HcclDataType(4),
            comm: 77,
            stream: 1,
        })
    );
    assert_eq!(
        comm.all_to_all_single(&of_type(ScalarType::Half), &tensor(30, 0x500), 1),
        Err(HcclError::TypeMismatch)
    );
}

#[test]
fn barrier_and_destruction_use_the_handle() {
    assert_eq!(comm(4, 0).barrier(8), HcclCall::Barrier { comm: 77, stream: 8 });
    assert_eq!(comm(4, 0).handle_to_destroy(), Some(77));
    assert_eq!(Communicator { inner: 0, ..comm(4, 0) }.handle_to_destroy(), None);
}

#[test]
fn split_puts_the_ranks_in_order() {
    let mut parent = comm(4, 2);
    let request = parent.split_from(vec![3, 1, 2]).unwrap().unwrap();
    assert_eq!(
        request,
        SubCommRequest {
            comm: 77,
            rank_ids: vec![1, 2, 3],
            sub_comm_id: 411_543_439_001,
            group_rank: 1,
        }
    );
    assert_eq!(parent.split_counter, 1);

    let mut same = comm(4, 2);
    assert_eq!(same.split_from(vec![1, 2, 3]).unwrap().unwrap(), request);

    let again = parent.split_from(vec![1, 2, 3]).unwrap().unwrap();
    assert_eq!(again.sub_comm_id, 411_543_439_002);
    assert_eq!(parent.split_counter, 2);
}

#[test]
fn members_of_a_group_agree() {
    let mut here = comm(8, 5);
    let mut there = comm(8, 7);
    let one = here.split_from(vec![7, 0, 5]).unwrap().unwrap();
    let other = there.split_from(vec![5, 7, 0]).unwrap().unwrap();
    assert_eq!(one.rank_ids, vec![0, 5, 7]);
    assert_eq!(one.rank_ids, other.rank_ids);
    assert_eq!(one.sub_comm_id, other.sub_comm_id);
    assert_eq!(one.group_rank, 1);
    assert_eq!(other.group_rank, 2);
}

#[test]
fn split_leaves_other_ranks_out() {
    let mut parent = comm(4, 0);
    assert_eq!(parent.split_from(vec![2, 1]), Ok(None));
    assert_eq!(parent.split_from(vec![]), Ok(None));
    assert_eq!(parent.split_counter, 0);
}

#[test]
fn split_rejects_ranks_outside_the_world() {
    let mut parent = comm(4, 0);
    assert_eq!(
        parent.split_from(vec![4, 0, 2]),
        Err(HcclError::InvalidSplit(vec![0, 2, 4]))
    );
    assert_eq!(
        parent.split_from(vec![1, -1]),
        Err(HcclError::InvalidSplit(vec![-1, 1]))
    );
    assert_eq!(parent.split_counter, 0);
}

#[test]
fn split_finds_the_first_of_equal_ranks() {
    let request = comm(4, 2).split_from(vec![2, 2, 1, 2]).unwrap().unwrap();
    assert_eq!(request.rank_ids, vec![1, 2, 2, 2]);
    assert_eq!(request.group_rank, 1);
}

#[test]
fn split_all_takes_every_rank() {
    let mut parent = comm(4, 3);
    let request = parent.split_all().unwrap();
    assert_eq!(request.rank_ids, vec![0, 1, 2, 3]);
    assert_eq!(request.group_rank, 3);
    assert_eq!(request.sub_comm_id, 411_543_439_001);
    assert_eq!(parent.split_counter, 1);
}

#[test]
fn sub_communicator_is_made_of_its_request() {
    let mut parent = comm(4, 3);
    let request = parent.split_from(vec![1, 3]).unwrap().unwrap();
    let child = parent.finish_split(&request, HcclResult(0), 1234).unwrap();
    assert_eq!(child.inner, 1234);
    assert_eq!(child.world_size(), 2);
    assert_eq!(child.rank(), 1);
    assert_eq!(child.global_rank(), 3);
    assert_eq!(child.global_world_size, 4);
    assert_eq!(child.device(), NpuDevice { index: 3 });
    assert_eq!(child.split_counter, 0);
    assert_eq!(
        parent.finish_split(&request, HcclResult(9), 0),
        Err(HcclError::HcclError(RawHcclError::Timeout))
    );
}
