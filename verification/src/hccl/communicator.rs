//! A communicator and its operations.
//!
//! An operation checks its tensors and gives the call into HCCL that carries it
//! out. The code that the call returns goes to [`complete`](crate::hccl::types::complete).
use vstd::prelude::*;

use crate::hccl::root_info::RootInfo;
use crate::hccl::tensor::{
    check_tensor, first_of, float8_error, reduction_error, tensor_error, type_error, Tensor,
};
use crate::hccl::types::{
    carrier, checked, complete, completed, hccl_check, hccl_reduction, is_float8_type,
    reduce_op_to_hccl, AclError, DataType, HcclDataType, HcclError, HcclReduceOp, HcclResult,
    HcclStatus,
};
use crate::unique_id::{HcclRootInfo, ReduceOp};

verus! {

/// An NPU, by its index.
#[derive(Debug, Clone, Copy, PartialEq, Eq, Structural)]
pub struct NpuDevice {
    pub index: i32,
}

/// An HCCL communicator. It owns its handle.
#[derive(Debug, PartialEq, Eq, Structural)]
pub struct Communicator {
    /// The handle that HCCL gave; zero if there is none.
    pub inner: usize,
    pub world_size: i32,
    pub rank: i32,
    pub global_world_size: i32,
    pub global_rank: i32,
    pub device: NpuDevice,
    /// How many sub-communicators have been asked for.
    pub split_counter: u64,
}

/// A call into HCCL. Addresses, communicators and streams are given by value.
#[derive(Debug, Clone, Copy, PartialEq, Eq, Structural)]
pub enum HcclCall {
    AllReduce {
        send: usize,
        recv: usize,
        count: u64,
        data_type: HcclDataType,
        op: HcclReduceOp,
        comm: usize,
        stream: usize,
    },
    Broadcast {
        buf: usize,
        count: u64,
        data_type: HcclDataType,
        root: u32,
        comm: usize,
        stream: usize,
    },
    Reduce {
        send: usize,
        recv: usize,
        count: u64,
        data_type: HcclDataType,
        op: HcclReduceOp,
        root: u32,
        comm: usize,
        stream: usize,
    },
    AllGather {
        send: usize,
        recv: usize,
        count: u64,
        data_type: HcclDataType,
        comm: usize,
        stream: usize,
    },
    ReduceScatter {
        send: usize,
        recv: usize,
        count: u64,
        data_type: HcclDataType,
        op: HcclReduceOp,
        comm: usize,
        stream: usize,
    },
    Send {
        buf: usize,
        count: u64,
        data_type: HcclDataType,
        dst: u32,
        comm: usize,
        stream: usize,
    },
    Recv {
        buf: usize,
        count: u64,
        data_type: HcclDataType,
        src: u32,
        comm: usize,
        stream: usize,
    },
    AlltoAll {
        send: usize,
        send_count: u64,
        send_type: HcclDataType,
        recv: usize,
        recv_count: u64,
        recv_type: HcclDataType,
        comm: usize,
        stream: usize,
    },
    Barrier { comm: usize, stream: usize },
}

/// A copy of bytes between two addresses.
#[derive(Debug, Clone, Copy, PartialEq, Eq, Structural)]
pub struct LocalCopy {
    pub from: usize,
    pub to: usize,
    pub nbytes: usize,
}

/// One step of a gather: an optional copy, then a broadcast.
#[derive(Debug, Clone, Copy, PartialEq, Eq, Structural)]
pub struct GatherStep {
    pub copy: Option<LocalCopy>,
    pub broadcast: HcclCall,
}

/// The arguments with which HCCL is asked for a communicator.
#[derive(Clone, Copy)]
pub struct CommInit {
    pub n_ranks: u32,
    pub root_info: HcclRootInfo,
    pub rank: u32,
}

/// How the creation of a communicator went.
#[derive(Debug, Clone, Copy, PartialEq, Eq, Structural)]
pub enum CommOutcome {
    /// The device could not be selected; HCCL was not called.
    NoDevice(AclError),
    /// HCCL returned `result` and the handle `comm`.
    Called { result: HcclResult, comm: usize },
}

/// The number that HCCL gives the type in which a tensor travels.
pub open spec fn wire_type(tensor: Tensor) -> HcclDataType {
    HcclDataType(carrier(tensor.scalar_type).unwrap().code())
}

/// The number that HCCL gives a reduction.
pub open spec fn wire_op(reduce_op: ReduceOp) -> HcclReduceOp {
    hccl_reduction(reduce_op).unwrap()
}

/// The call to make, unless something failed first.
pub open spec fn call_unless(failure: Option<HcclError>, call: HcclCall) -> Result<
    HcclCall,
    HcclError,
> {
    match failure {
        Some(error) => Err(error),
        None => Ok(call),
    }
}

/// Input and output must agree in element type.
pub open spec fn mismatch_error(input: Tensor, output: Tensor) -> Option<HcclError> {
    if input.scalar_type != output.scalar_type {
        Some(HcclError::TypeMismatch)
    } else {
        None
    }
}

/// `whole` must be `world_size` times `part`.
pub open spec fn size_error(part: int, world_size: i32, whole: int, error: HcclError) -> Option<
    HcclError,
> {
    if part * world_size != whole {
        Some(error)
    } else {
        None
    }
}

/// The elements of a list of tensors.
pub open spec fn total_numel(tensors: Seq<Tensor>) -> int
    decreases tensors.len(),
{
    if tensors.len() == 0 {
        0
    } else {
        total_numel(tensors.drop_last()) + tensors.last().numel
    }
}

/// Whether every tensor has the element type of `input`.
pub open spec fn all_of_type(tensors: Seq<Tensor>, input: Tensor) -> bool {
    forall|i: int|
        0 <= i < tensors.len() ==> (#[trigger] tensors[i]).scalar_type == input.scalar_type
}

/// What follows the step at `at` of a gather when its broadcast returned `result`:
/// the next step, nothing after the last one, or the failure.
pub open spec fn next_gather_step(steps: usize, at: usize, result: HcclResult) -> Result<
    Option<usize>,
    HcclError,
> {
    match completed(result) {
        Ok(_) => if at + 1 < steps {
            Ok(Some((at + 1) as usize))
        } else {
            Ok(None)
        },
        Err(error) => Err(error),
    }
}

/// How a gather that has come to the step at `at` ends, and how many broadcasts it
/// has asked for by then. `results` holds what the broadcast of each step returns
/// if it is asked for.
pub open spec fn gather_outcome(results: Seq<HcclResult>, at: usize) -> (
    Result<HcclStatus, HcclError>,
    int,
)
    decreases results.len() - at,
{
    match next_gather_step(results.len() as usize, at, results[at as int]) {
        Ok(Some(next)) => if at < next < results.len() {
            gather_outcome(results, next)
        } else {
            (Ok(HcclStatus::Success), at + 1)
        },
        Ok(None) => (Ok(HcclStatus::Success), at + 1),
        Err(error) => (Err(error), at + 1),
    }
}

/// Whether the first broadcast from `at` on to fail is that of the step at `failed`.
pub open spec fn first_failure(results: Seq<HcclResult>, at: int, failed: int) -> bool {
    &&& at <= failed < results.len()
    &&& completed(results[failed]) is Err
    &&& forall|i: int| at <= i < failed ==> completed(#[trigger] results[i]) is Ok
}

fn carrier_of(tensor: &Tensor) -> (data_type: Result<HcclDataType, HcclError>)
    ensures
        match type_error(*tensor) {
            Some(error) => data_type == Err::<HcclDataType, HcclError>(error),
            None => data_type == Ok::<HcclDataType, HcclError>(wire_type(*tensor)),
        },
{
    match DataType::try_from(tensor.scalar_type) {
        Ok(data_type) => Ok(HcclDataType::from(data_type)),
        Err(error) => Err(error),
    }
}

fn times(part: i64, world_size: i32) -> (whole: i128)
    ensures
        whole == part * world_size,
{
    assert(-0x4000_0000_0000_0000_0000_0000 <= part * world_size
        <= 0x4000_0000_0000_0000_0000_0000) by (nonlinear_arith)
        requires
            -0x8000_0000_0000_0000 <= part <= 0x7fff_ffff_ffff_ffff,
            -0x8000_0000 <= world_size <= 0x7fff_ffff,
    ;
    part as i128 * world_size as i128
}

impl Communicator {
    /// The arguments with which HCCL is asked for a communicator.
    pub fn init_call(world_size: i32, root_info: &RootInfo, rank: i32) -> (init: CommInit)
        ensures
            init == (CommInit {
                n_ranks: world_size as u32,
                root_info: root_info.inner,
                rank: rank as u32,
            }),
    {
        CommInit { n_ranks: world_size as u32, root_info: root_info.inner, rank: rank as u32 }
    }

    /// Makes a communicator of what its creation returned.
    pub fn new(device: NpuDevice, world_size: i32, rank: i32, outcome: CommOutcome) -> (comm:
        Result<Self, HcclError>)
        ensures
            comm == (match outcome {
                CommOutcome::NoDevice(error) => Err::<Communicator, HcclError>(
                    HcclError::AclError(error),
                ),
                CommOutcome::Called { result, comm } => match checked(result) {
                    Err(error) => Err(HcclError::HcclError(error)),
                    Ok(_) => Ok(
                        Communicator {
                            inner: comm,
                            world_size,
                            rank,
                            global_world_size: world_size,
                            global_rank: rank,
                            device,
                            split_counter: 0,
                        },
                    ),
                },
            }),
    {
        match outcome {
            CommOutcome::NoDevice(error) => Err(HcclError::from(error)),
            CommOutcome::Called { result, comm } => match hccl_check(result) {
                Err(error) => Err(HcclError::from(error)),
                Ok(_) => Ok(
                    Communicator {
                        inner: comm,
                        world_size,
                        rank,
                        global_world_size: world_size,
                        global_rank: rank,
                        device,
                        split_counter: 0,
                    },
                ),
            },
        }
    }

    /// Sums (or otherwise reduces) a tensor over all ranks, in place.
    pub fn all_reduce(&self, tensor: &Tensor, reduce_op: ReduceOp, stream: usize) -> (call: Result<
        HcclCall,
        HcclError,
    >)
        ensures
            call == call_unless(
                first_of(
                    first_of(type_error(*tensor), tensor_error(*tensor, false)),
                    first_of(float8_error(*tensor), reduction_error(reduce_op)),
                ),
                HcclCall::AllReduce {
                    send: tensor.data_ptr,
                    recv: tensor.mut_data_ptr,
                    count: tensor.numel as u64,
                    data_type: wire_type(*tensor),
                    op: wire_op(reduce_op),
                    comm: self.inner,
                    stream,
                },
            ),
    {
        let data_type = match carrier_of(tensor) {
            Ok(data_type) => data_type,
            Err(error) => return Err(error),
        };
        if let Err(error) = check_tensor(tensor, false) {
            return Err(error);
        }
        if is_float8_type(tensor.scalar_type) {
            return Err(HcclError::Float8Reduction);
        }
        let op = match reduce_op_to_hccl(reduce_op) {
            Ok(op) => op,
            Err(error) => return Err(error),
        };
        Ok(
            HcclCall::AllReduce {
                send: tensor.data_ptr,
                recv: tensor.mut_data_ptr,
                count: tensor.numel as u64,
                data_type,
                op,
                comm: self.inner,
                stream,
            },
        )
    }

    /// Copies the tensor of rank `root` to all ranks, in place.
    pub fn broadcast(&self, tensor: &Tensor, root: i32, stream: usize) -> (call: Result<
        HcclCall,
        HcclError,
    >)
        ensures
            call == call_unless(
                first_of(tensor_error(*tensor, false), type_error(*tensor)),
                HcclCall::Broadcast {
                    buf: tensor.mut_data_ptr,
                    count: tensor.numel as u64,
                    data_type: wire_type(*tensor),
                    root: root as u32,
                    comm: self.inner,
                    stream,
                },
            ),
    {
        if let Err(error) = check_tensor(tensor, false) {
            return Err(error);
        }
        let data_type = match carrier_of(tensor) {
            Ok(data_type) => data_type,
            Err(error) => return Err(error),
        };
        Ok(
            HcclCall::Broadcast {
                buf: tensor.mut_data_ptr,
                count: tensor.numel as u64,
                data_type,
                root: root as u32,
                comm: self.inner,
                stream,
            },
        )
    }

    /// Reduces a tensor over all ranks to rank `root`.
    pub fn reduce(&self, tensor: &Tensor, reduce_op: ReduceOp, root: i32, stream: usize) -> (call:
        Result<HcclCall, HcclError>)
        ensures
            call == call_unless(
                first_of(
                    first_of(tensor_error(*tensor, false), float8_error(*tensor)),
                    first_of(type_error(*tensor), reduction_error(reduce_op)),
                ),
                HcclCall::Reduce {
                    send: tensor.data_ptr,
                    recv: tensor.mut_data_ptr,
                    count: tensor.numel as u64,
                    data_type: wire_type(*tensor),
                    op: wire_op(reduce_op),
                    root: root as u32,
                    comm: self.inner,
                    stream,
                },
            ),
    {
        if let Err(error) = check_tensor(tensor, false) {
            return Err(error);
        }
        if is_float8_type(tensor.scalar_type) {
            return Err(HcclError::Float8Reduction);
        }
        let data_type = match carrier_of(tensor) {
            Ok(data_type) => data_type,
            Err(error) => return Err(error),
        };
        let op = match reduce_op_to_hccl(reduce_op) {
            Ok(op) => op,
            Err(error) => return Err(error),
        };
        Ok(
            HcclCall::Reduce {
                send: tensor.data_ptr,
                recv: tensor.mut_data_ptr,
                count: tensor.numel as u64,
                data_type,
                op,
                root: root as u32,
                comm: self.inner,
                stream,
            },
        )
    }

    /// What stands in the way of a gather.
    pub open spec fn gather_error(self, outputs: Seq<Tensor>, input: Tensor) -> Option<HcclError> {
        first_of(
            first_of(
                tensor_error(input, false),
                if all_of_type(outputs, input) {
                    None
                } else {
                    Some(HcclError::TypeMismatch)
                },
            ),
            first_of(
                size_error(
                    input.numel as int,
                    self.world_size,
                    total_numel(outputs),
                    HcclError::OutputSizeMismatch,
                ),
                type_error(input),
            ),
        )
    }

    /// The `slot`-th step of a gather: the rank that owns the slot first puts its
    /// input there, unless it is there already; then the slot is broadcast.
    pub open spec fn gather_step(
        self,
        output: Tensor,
        slot: usize,
        input: Tensor,
        stream: usize,
    ) -> GatherStep {
        GatherStep {
            copy: if slot as u32 == self.rank as u32 && output.mut_data_ptr != input.data_ptr {
                Some(
                    LocalCopy {
                        from: input.data_ptr,
                        to: output.mut_data_ptr,
                        nbytes: input.nbytes,
                    },
                )
            } else {
                None
            },
            broadcast: HcclCall::Broadcast {
                buf: output.mut_data_ptr,
                count: output.numel as u64,
                data_type: wire_type(input),
                root: slot as u32,
                comm: self.inner,
                stream,
            },
        }
    }

    /// Gathers the input of every rank into one tensor per rank. The steps are to
    /// be taken in order; after each, [`gather_done`](Self::gather_done) tells how to go
    /// on.
    pub fn all_gather(&self, outputs: &[Tensor], input: &Tensor, stream: usize) -> (steps: Result<
        Vec<GatherStep>,
        HcclError,
    >)
        requires
            tensor_error(*input, false) is None ==> outputs@.len() > 0,
        ensures
            match self.gather_error(outputs@, *input) {
                Some(error) => steps == Err::<Vec<GatherStep>, HcclError>(error),
                None => steps matches Ok(s) && s@.len() == outputs@.len() && forall|i: int|
                    0 <= i < s@.len() ==> #[trigger] s@[i] == self.gather_step(
                        outputs@[i],
                        i as usize,
                        *input,
                        stream,
                    ),
            },
    {
        if let Err(error) = check_tensor(input, false) {
            return Err(error);
        }
        let mut total: i128 = 0;
        let mut i: usize = 0;
        assert(outputs@.take(0) =~= Seq::empty());
        while i < outputs.len()
            invariant
                i <= outputs@.len(),
                total == total_numel(outputs@.take(i as int)),
                -(i * 0x8000_0000_0000_0000) <= total <= i * 0x8000_0000_0000_0000,
                all_of_type(outputs@.take(i as int), *input),
                tensor_error(*input, false) is None,
            decreases outputs@.len() - i,
        {
            if outputs[i].scalar_type != input.scalar_type {
                assert(!all_of_type(outputs@, *input)) by {
                    assert(outputs@[i as int].scalar_type != input.scalar_type);
                }
                return Err(HcclError::TypeMismatch);
            }
            assert(outputs@.take(i + 1).drop_last() =~= outputs@.take(i as int));
            total = total + outputs[i].numel as i128;
            i = i + 1;
        }
        assert(outputs@.take(outputs@.len() as int) =~= outputs@);
        if times(input.numel, self.world_size) != total {
            return Err(HcclError::OutputSizeMismatch);
        }
        let data_type = match carrier_of(input) {
            Ok(data_type) => data_type,
            Err(error) => return Err(error),
        };
        let mut steps: Vec<GatherStep> = Vec::new();
        let mut slot: usize = 0;
        while slot < outputs.len()
            invariant
                slot <= outputs@.len(),
                steps@.len() == slot,
                data_type == wire_type(*input),
                forall|k: int|
                    0 <= k < slot ==> #[trigger] steps@[k] == self.gather_step(
                        outputs@[k],
                        k as usize,
                        *input,
                        stream,
                    ),
            decreases outputs@.len() - slot,
        {
            let output: &Tensor = &outputs[slot];
            let copy: Option<LocalCopy> = if slot as u32 == self.rank as u32
                && output.mut_data_ptr != input.data_ptr {
                Some(
                    LocalCopy {
                        from: input.data_ptr,
                        to: output.mut_data_ptr,
                        nbytes: input.nbytes,
                    },
                )
            } else {
                None
            };
            let broadcast = HcclCall::Broadcast {
                buf: output.mut_data_ptr,
                count: output.numel as u64,
                data_type,
                root: slot as u32,
                comm: self.inner,
                stream,
            };
            steps.push(GatherStep { copy, broadcast });
            slot = slot + 1;
        }
        Ok(steps)
    }

    /// Takes the code that the broadcast of the step at `at` returned, out of
    /// `steps` steps of a gather. Gives the step to take next; there is none once the
    /// gather has succeeded, and a failure ends it.
    pub fn gather_done(steps: usize, at: usize, result: HcclResult) -> (next: Result<
        Option<usize>,
        HcclError,
    >)
        requires
            at < steps,
        ensures
            next == next_gather_step(steps, at, result),
    {
        match complete(result) {
            Ok(_) => if at + 1 < steps {
                Ok(Some(at + 1))
            } else {
                Ok(None)
            },
            Err(error) => Err(error),
        }
    }

    /// Gathers the input of every rank into one tensor.
    pub fn all_gather_into_tensor(&self, output: &Tensor, input: &Tensor, stream: usize) -> (call:
        Result<HcclCall, HcclError>)
        ensures
            call == call_unless(
                first_of(
                    first_of(tensor_error(*output, false), tensor_error(*input, false)),
                    first_of(
                        mismatch_error(*input, *output),
                        first_of(
                            size_error(
                                input.numel as int,
                                self.world_size,
                                output.numel as int,
                                HcclError::OutputSizeMismatch,
                            ),
                            type_error(*input),
                        ),
                    ),
                ),
                HcclCall::AllGather {
                    send: input.data_ptr,
                    recv: output.mut_data_ptr,
                    count: input.numel as u64,
                    data_type: wire_type(*input),
                    comm: self.inner,
                    stream,
                },
            ),
    {
        if let Err(error) = check_tensor(output, false) {
            return Err(error);
        }
        if let Err(error) = check_tensor(input, false) {
            return Err(error);
        }
        if input.scalar_type != output.scalar_type {
            return Err(HcclError::TypeMismatch);
        }
        if times(input.numel, self.world_size) != output.numel as i128 {
            return Err(HcclError::OutputSizeMismatch);
        }
        let data_type = match carrier_of(input) {
            Ok(data_type) => data_type,
            Err(error) => return Err(error),
        };
        Ok(
            HcclCall::AllGather {
                send: input.data_ptr,
                recv: output.mut_data_ptr,
                count: input.numel as u64,
                data_type,
                comm: self.inner,
                stream,
            },
        )
    }

    /// Reduces the input over all ranks and leaves each rank its share.
    pub fn reduce_scatter_tensor(
        &self,
        output: &Tensor,
        input: &Tensor,
        reduce_op: ReduceOp,
        stream: usize,
    ) -> (call: Result<HcclCall, HcclError>)
        ensures
            call == call_unless(
                first_of(
                    first_of(
                        first_of(tensor_error(*output, false), tensor_error(*input, false)),
                        first_of(
                            mismatch_error(*input, *output),
                            size_error(
                                output.numel as int,
                                self.world_size,
                                input.numel as int,
                                HcclError::InputSizeMismatch,
                            ),
                        ),
                    ),
                    first_of(
                        float8_error(*input),
                        first_of(type_error(*input), reduction_error(reduce_op)),
                    ),
                ),
                HcclCall::ReduceScatter {
                    send: input.data_ptr,
                    recv: output.mut_data_ptr,
                    count: output.numel as u64,
                    data_type: wire_type(*input),
                    op: wire_op(reduce_op),
                    comm: self.inner,
                    stream,
                },
            ),
    {
        if let Err(error) = check_tensor(output, false) {
            return Err(error);
        }
        if let Err(error) = check_tensor(input, false) {
            return Err(error);
        }
        if input.scalar_type != output.scalar_type {
            return Err(HcclError::TypeMismatch);
        }
        if times(output.numel, self.world_size) != input.numel as i128 {
            return Err(HcclError::InputSizeMismatch);
        }
        if is_float8_type(input.scalar_type) {
            return Err(HcclError::Float8Reduction);
        }
        let data_type = match carrier_of(input) {
            Ok(data_type) => data_type,
            Err(error) => return Err(error),
        };
        let op = match reduce_op_to_hccl(reduce_op) {
            Ok(op) => op,
            Err(error) => return Err(error),
        };
        Ok(
            HcclCall::ReduceScatter {
                send: input.data_ptr,
                recv: output.mut_data_ptr,
                count: output.numel as u64,
                data_type,
                op,
                comm: self.inner,
                stream,
            },
        )
    }

    /// Sends a tensor to rank `dst`.
    pub fn send(&self, tensor: &Tensor, dst: i32, stream: usize) -> (call: Result<
        HcclCall,
        HcclError,
    >)
        ensures
            call == call_unless(
                first_of(type_error(*tensor), tensor_error(*tensor, true)),
                HcclCall::Send {
                    buf: tensor.data_ptr,
                    count: tensor.numel as u64,
                    data_type: wire_type(*tensor),
                    dst: dst as u32,
                    comm: self.inner,
                    stream,
                },
            ),
    {
        let data_type = match carrier_of(tensor) {
            Ok(data_type) => data_type,
            Err(error) => return Err(error),
        };
        if let Err(error) = check_tensor(tensor, true) {
            return Err(error);
        }
        Ok(
            HcclCall::Send {
                buf: tensor.data_ptr,
                count: tensor.numel as u64,
                data_type,
                dst: dst as u32,
                comm: self.inner,
                stream,
            },
        )
    }

    /// Receives a tensor from rank `src`.
    pub fn recv(&self, tensor: &Tensor, src: i32, stream: usize) -> (call: Result<
        HcclCall,
        HcclError,
    >)
        ensures
            call == call_unless(
                first_of(type_error(*tensor), tensor_error(*tensor, true)),
                HcclCall::Recv {
                    buf: tensor.mut_data_ptr,
                    count: tensor.numel as u64,
                    data_type: wire_type(*tensor),
                    src: src as u32,
                    comm: self.inner,
                    stream,
                },
            ),
    {
        let data_type = match carrier_of(tensor) {
            Ok(data_type) => data_type,
            Err(error) => return Err(error),
        };
        if let Err(error) = check_tensor(tensor, true) {
            return Err(error);
        }
        Ok(
            HcclCall::Recv {
                buf: tensor.mut_data_ptr,
                count: tensor.numel as u64,
                data_type,
                src: src as u32,
                comm: self.inner,
                stream,
            },
        )
    }

    /// What stands in the way of an all-to-all exchange.
    pub open spec fn exchange_error(output: Tensor, input: Tensor) -> Option<HcclError> {
        first_of(
            first_of(tensor_error(output, false), tensor_error(input, false)),
            first_of(mismatch_error(input, output), type_error(input)),
        )
    }

    /// Tests whether an all-to-all exchange can be made. Gives the type in which the
    /// tensors travel.
    pub fn check_exchange(output: &Tensor, input: &Tensor) -> (data_type: Result<
        HcclDataType,
        HcclError,
    >)
        ensures
            data_type == (match Self::exchange_error(*output, *input) {
                Some(error) => Err::<HcclDataType, HcclError>(error),
                None => Ok(wire_type(*input)),
            }),
    {
        if let Err(error) = check_tensor(output, false) {
            return Err(error);
        }
        if let Err(error) = check_tensor(input, false) {
            return Err(error);
        }
        if input.scalar_type != output.scalar_type {
            return Err(HcclError::TypeMismatch);
        }
        carrier_of(input)
    }

    /// Sends every rank its share of the input.
    pub fn all_to_all_single(&self, output: &Tensor, input: &Tensor, stream: usize) -> (call:
        Result<HcclCall, HcclError>)
        requires
            Self::exchange_error(*output, *input) is None ==> self.world_size != 0,
        ensures
            call == call_unless(
                Self::exchange_error(*output, *input),
                HcclCall::AlltoAll {
                    send: input.data_ptr,
                    send_count: input.numel as u64 / self.world_size as u64,
                    send_type: wire_type(*input),
                    recv: output.mut_data_ptr,
                    recv_count: input.numel as u64 / self.world_size as u64,
                    recv_type: wire_type(*input),
                    comm: self.inner,
                    stream,
                },
            ),
    {
        let data_type = match Self::check_exchange(output, input) {
            Ok(data_type) => data_type,
            Err(error) => return Err(error),
        };
        let world_size: i32 = self.world_size;
        assert(world_size as u64 != 0) by (bit_vector)
            requires
                world_size != 0,
        ;
        let share: u64 = input.numel as u64 / world_size as u64;
        Ok(
            HcclCall::AlltoAll {
                send: input.data_ptr,
                send_count: share,
                send_type: data_type,
                recv: output.mut_data_ptr,
                recv_count: share,
                recv_type: data_type,
                comm: self.inner,
                stream,
            },
        )
    }

    /// Waits for all ranks.
    pub fn barrier(&self, stream: usize) -> (call: HcclCall)
        ensures
            call == (HcclCall::Barrier { comm: self.inner, stream }),
    {
        HcclCall::Barrier { comm: self.inner, stream }
    }

    /// The handle to destroy when the communicator goes, if it has one.
    pub fn handle_to_destroy(&self) -> (comm: Option<usize>)
        ensures
            comm == (if self.inner != 0 {
                Some(self.inner)
            } else {
                None
            }),
    {
        if self.inner != 0 {
            Some(self.inner)
        } else {
            None
        }
    }

    /// The number of ranks.
    pub fn world_size(&self) -> (size: i32)
        ensures
            size == self.world_size,
    {
        self.world_size
    }

    /// This rank, within the communicator.
    pub fn rank(&self) -> (rank: i32)
        ensures
            rank == self.rank,
    {
        self.rank
    }

    /// This rank, within the communicator from which this one was split.
    pub fn global_rank(&self) -> (rank: i32)
        ensures
            rank == self.global_rank,
    {
        self.global_rank
    }

    /// The device.
    pub fn device(&self) -> (device: NpuDevice)
        ensures
            device == self.device,
    {
        self.device
    }
}

proof fn lemma_gather_outcome(results: Seq<HcclResult>, at: usize)
    requires
        at < results.len() <= usize::MAX,
    ensures
        (forall|i: int| at <= i < results.len() ==> completed(#[trigger] results[i]) is Ok)
            ==> gather_outcome(results, at) == (
            Ok::<HcclStatus, HcclError>(HcclStatus::Success),
            results.len() as int,
        ),
        forall|failed: int| #[trigger]
            first_failure(results, at as int, failed) ==> gather_outcome(results, at) == (
                completed(results[failed]),
                failed + 1,
            ),
        gather_outcome(results, at).0 is Ok ==> forall|i: int|
            at <= i < results.len() ==> completed(#[trigger] results[i]) is Ok,
    decreases results.len() - at,
{
    let this = completed(results[at as int]);
    if this is Ok && at + 1 < results.len() {
        let next = (at + 1) as usize;
        lemma_gather_outcome(results, next);
        assert forall|failed: int| #[trigger]
            first_failure(results, at as int, failed) implies first_failure(
            results,
            next as int,
            failed,
        ) by {}
    }
}

/// A gather succeeds exactly when every broadcast does, and has then asked for all
/// of them. Otherwise it ends with the first failure and asks for no later broadcast.
pub proof fn law_gather_ends_with_the_first_failure(results: Seq<HcclResult>, failed: int)
    requires
        0 < results.len() <= usize::MAX,
    ensures
        gather_outcome(results, 0).0 == Ok::<HcclStatus, HcclError>(HcclStatus::Success)
            <==> forall|i: int|
            0 <= i < results.len() ==> completed(#[trigger] results[i]) is Ok,
        gather_outcome(results, 0).0 is Ok ==> gather_outcome(results, 0).1 == results.len(),
        first_failure(results, 0, failed) ==> gather_outcome(results, 0) == (
            completed(results[failed]),
            failed + 1,
        ),
{
    lemma_gather_outcome(results, 0);
}

} // verus!
