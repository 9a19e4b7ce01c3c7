//! What the calls into HCCL are for.
use vstd::prelude::*;
use vstd::std_specs::convert::{FromSpec, TryFromSpec};

use crate::hccl::communicator::{
    all_of_type, call_unless, mismatch_error, next_gather_step, size_error, total_numel, wire_op,
    wire_type, Communicator, GatherStep, HcclCall, LocalCopy,
};
use crate::hccl::tensor::{
    first_of, float8_error, reduction_error, tensor_error, type_error, Tensor,
};
use crate::hccl::types::{
    checked, completed, DataType, HcclDataType, HcclError, HcclReduceOp,
    HcclResult, HcclStatus, RawHcclError, ScalarType,
};
use crate::unique_id::ReduceOp;

verus! {

/// A tensor travels under HCCL's number for its element type: 0 for `i8`, 1 for `i16`,
/// 2 for `i32`, 3 for half, 4 for single, 5 for `i64`, 7 for bytes, 10 for double and
/// 11 for bfloat16. Only element types that HCCL cannot carry are refused.
pub proof fn law_tensors_travel_as_their_type(tensor: Tensor)
    ensures
        tensor.scalar_type == ScalarType::Char ==> wire_type(tensor) == HcclDataType(0),
        tensor.scalar_type == ScalarType::Short ==> wire_type(tensor) == HcclDataType(1),
        tensor.scalar_type == ScalarType::Int ==> wire_type(tensor) == HcclDataType(2),
        tensor.scalar_type == ScalarType::Half ==> wire_type(tensor) == HcclDataType(3),
        tensor.scalar_type == ScalarType::Float ==> wire_type(tensor) == HcclDataType(4),
        tensor.scalar_type == ScalarType::Long ==> wire_type(tensor) == HcclDataType(5),
        tensor.scalar_type == ScalarType::Double ==> wire_type(tensor) == HcclDataType(10),
        tensor.scalar_type == ScalarType::BFloat16 ==> wire_type(tensor) == HcclDataType(11),
        tensor.scalar_type == ScalarType::Byte || tensor.scalar_type == ScalarType::Bool
            || tensor.scalar_type == ScalarType::Float8_e5m2 || tensor.scalar_type
            == ScalarType::Float8_e4m3fn || tensor.scalar_type == ScalarType::Float8_e5m2fnuz
            || tensor.scalar_type == ScalarType::Float8_e4m3fnuz ==> wire_type(tensor)
            == HcclDataType(7),
        type_error(tensor) is None <==> !(tensor.scalar_type is Other),
        type_error(tensor) matches Some(error) ==> error == HcclError::InvalidDataType(
            tensor.scalar_type,
        ),
{
}

/// The number is that of the type to which the element type converts.
pub proof fn law_number_is_that_of_the_converted_type(tensor: Tensor, data_type: DataType)
    requires
        <DataType as TryFromSpec<ScalarType>>::try_from_spec(tensor.scalar_type) == Ok::<
            DataType,
            HcclError,
        >(data_type),
    ensures
        wire_type(tensor) == <HcclDataType as FromSpec<DataType>>::from_spec(data_type),
        type_error(tensor) is None,
{
}

/// Element types that can be added up never share a number, but for bytes and truth
/// values: HCCL computes on the type that the tensor has.
pub proof fn law_arithmetic_types_stay_apart(left: Tensor, right: Tensor)
    requires
        type_error(left) is None && float8_error(left) is None,
        type_error(right) is None && float8_error(right) is None,
        wire_type(left) == wire_type(right),
    ensures
        left.scalar_type == right.scalar_type || (wire_type(left) == HcclDataType(7) && (
        left.scalar_type is Byte || left.scalar_type is Bool) && (right.scalar_type is Byte
            || right.scalar_type is Bool)),
{
}

/// HCCL has a number of its own for every type.
pub proof fn law_data_types_stay_apart(left: DataType, right: DataType)
    requires
        left.code() == right.code(),
    ensures
        left == right,
        left.code() < 12,
{
}

/// Sums are number 0, products 1, maxima 2 and minima 3; averages are refused, and
/// nothing else is. Eight-bit floats, and nothing else, cannot be reduced.
pub proof fn law_reductions_keep_their_meaning(reduce_op: ReduceOp, tensor: Tensor)
    ensures
        reduce_op == ReduceOp::Sum ==> wire_op(reduce_op) == HcclReduceOp(0),
        reduce_op == ReduceOp::Prod ==> wire_op(reduce_op) == HcclReduceOp(1),
        reduce_op == ReduceOp::Max ==> wire_op(reduce_op) == HcclReduceOp(2),
        reduce_op == ReduceOp::Min ==> wire_op(reduce_op) == HcclReduceOp(3),
        reduction_error(reduce_op) is None <==> reduce_op != ReduceOp::Avg,
        reduction_error(ReduceOp::Avg) == Some(HcclError::AvgNotSupported),
        float8_error(tensor) is Some <==> tensor.scalar_type is Float8_e5m2
            || tensor.scalar_type is Float8_e4m3fn || tensor.scalar_type is Float8_e5m2fnuz
            || tensor.scalar_type is Float8_e4m3fnuz,
        float8_error(tensor) matches Some(error) ==> error == HcclError::Float8Reduction,
{
}

/// A tensor takes part if it is defined, on an NPU, dense, and, unless the operation
/// is between two ranks, contiguous. The first of these that it lacks is reported.
pub proof fn law_tensors_that_take_part(tensor: Tensor, is_p2p: bool)
    ensures
        tensor_error(tensor, is_p2p) is None <==> tensor.defined && tensor.is_npu
            && !tensor.is_sparse && (is_p2p || tensor.is_contiguous),
        !tensor.defined ==> tensor_error(tensor, is_p2p) == Some(HcclError::UndefinedTensor),
        tensor.defined && !tensor.is_npu ==> tensor_error(tensor, is_p2p) == Some(
            HcclError::InvalidDevice(tensor.device_type),
        ),
        tensor.defined && tensor.is_npu && tensor.is_sparse ==> tensor_error(tensor, is_p2p)
            == Some(HcclError::InvalidSparseTensor),
        tensor.defined && tensor.is_npu && !tensor.is_sparse && !is_p2p && !tensor.is_contiguous
            ==> tensor_error(tensor, is_p2p) == Some(HcclError::NoncontiguousTensor),
{
}

/// A call is made exactly if nothing failed, and it is the call that was prepared. Of
/// two failures the earlier one is reported.
pub proof fn law_calls_are_made_unless_something_failed(
    earlier: Option<HcclError>,
    later: Option<HcclError>,
    call: HcclCall,
)
    ensures
        earlier is None && later is None ==> call_unless(first_of(earlier, later), call) == Ok::<
            HcclCall,
            HcclError,
        >(call),
        earlier matches Some(error) ==> call_unless(first_of(earlier, later), call) == Err::<
            HcclCall,
            HcclError,
        >(error),
        earlier is None ==> (later matches Some(error) ==> call_unless(
            first_of(earlier, later),
            call,
        ) == Err::<HcclCall, HcclError>(error)),
{
}

/// Tensors that are to fit together do so exactly if the whole has as many elements as
/// the parts of all ranks, and input and output have one element type.
pub proof fn law_sizes_and_types_fit(
    part: int,
    world_size: i32,
    whole: int,
    error: HcclError,
    input: Tensor,
    output: Tensor,
)
    ensures
        size_error(part, world_size, whole, error) is None <==> whole == world_size * part,
        size_error(part, world_size, whole, error) is Some ==> size_error(
            part,
            world_size,
            whole,
            error,
        ) == Some(error),
        mismatch_error(input, output) is None <==> input.scalar_type == output.scalar_type,
        mismatch_error(input, output) is Some ==> mismatch_error(input, output) == Some(
            HcclError::TypeMismatch,
        ),
{
    assert(part * world_size == world_size * part) by (nonlinear_arith);
}

/// The elements of a list of tensors are those of its parts together, and those of a
/// single tensor are its own.
pub proof fn law_elements_add_up(left: Seq<Tensor>, right: Seq<Tensor>, tensor: Tensor)
    ensures
        total_numel(left + right) == total_numel(left) + total_numel(right),
        total_numel(seq![tensor]) == tensor.numel,
        total_numel(Seq::empty()) == 0,
    decreases right.len(),
{
    assert(seq![tensor].drop_last() =~= Seq::empty());
    assert(total_numel(seq![tensor].drop_last()) == 0);
    if right.len() == 0 {
        assert(left + right =~= left);
    } else {
        law_elements_add_up(left, right.drop_last(), tensor);
        assert((left + right).drop_last() =~= left + right.drop_last());
    }
}

/// A gather is made exactly if the input takes part and can be carried, every output
/// has its type, and the outputs together hold the inputs of all ranks.
pub proof fn law_gathers_that_fit(comm: Communicator, outputs: Seq<Tensor>, input: Tensor)
    ensures
        comm.gather_error(outputs, input) is None <==> {
            &&& input.defined && input.is_npu && !input.is_sparse && input.is_contiguous
            &&& !(input.scalar_type is Other)
            &&& forall|i: int|
                0 <= i < outputs.len() ==> (#[trigger] outputs[i]).scalar_type
                    == input.scalar_type
            &&& total_numel(outputs) == input.numel * comm.world_size
        },
        all_of_type(outputs, input) <==> forall|i: int|
            0 <= i < outputs.len() ==> (#[trigger] outputs[i]).scalar_type == input.scalar_type,
{
}

/// Every rank contributes its input to a gather. The rank puts its input, all bytes of
/// it, into the slot with its own number, unless the input is there already, and
/// copies nothing into any other slot. Every slot is then broadcast whole from the
/// rank with its number. So every slot ends up with the input of the rank with its
/// number.
pub proof fn law_every_rank_contributes_its_input(
    comm: Communicator,
    outputs: Seq<Tensor>,
    input: Tensor,
    stream: usize,
    steps: Seq<GatherStep>,
)
    requires
        0 <= comm.rank < outputs.len() <= u32::MAX,
        outputs.len() <= usize::MAX,
        steps.len() == outputs.len(),
        forall|i: int|
            0 <= i < steps.len() ==> #[trigger] steps[i] == comm.gather_step(
                outputs[i],
                i as usize,
                input,
                stream,
            ),
    ensures
        outputs[comm.rank as int].mut_data_ptr != input.data_ptr ==> steps[comm.rank as int].copy
            == Some(
            LocalCopy {
                from: input.data_ptr,
                to: outputs[comm.rank as int].mut_data_ptr,
                nbytes: input.nbytes,
            },
        ),
        outputs[comm.rank as int].mut_data_ptr == input.data_ptr ==> steps[comm.rank as int].copy
            is None,
        forall|i: int|
            0 <= i < steps.len() && i != comm.rank ==> (#[trigger] steps[i]).copy is None,
        forall|i: int|
            0 <= i < steps.len() ==> {
                &&& (#[trigger] steps[i]).broadcast matches HcclCall::Broadcast {
                    buf,
                    count,
                    data_type,
                    root,
                    comm: handle,
                    stream: on,
                }
                &&& buf == outputs[i].mut_data_ptr
                &&& outputs[i].numel >= 0 ==> count == outputs[i].numel
                &&& data_type == wire_type(input)
                &&& root == i
                &&& handle == comm.inner
                &&& on == stream
            },
{
    assert(steps[comm.rank as int] == comm.gather_step(
        outputs[comm.rank as int],
        comm.rank as usize,
        input,
        stream,
    ));
}

/// An exchange between all ranks is made exactly if both tensors take part, are of one
/// type, and that type can be carried.
pub proof fn law_exchanges_that_fit(output: Tensor, input: Tensor)
    ensures
        Communicator::exchange_error(output, input) is None <==> {
            &&& input.defined && input.is_npu && !input.is_sparse && input.is_contiguous
            &&& output.defined && output.is_npu && !output.is_sparse && output.is_contiguous
            &&& input.scalar_type == output.scalar_type
            &&& !(input.scalar_type is Other)
        },
{
}

/// Code 0 is success and no other code is. A code without a name of its own is
/// reported as it is.
pub proof fn law_codes_are_reported_as_they_are(result: HcclResult)
    ensures
        checked(result) is Ok <==> result.0 == 0,
        completed(result) is Ok <==> result.0 == 0,
        result.0 == 0 ==> completed(result) == Ok::<HcclStatus, HcclError>(HcclStatus::Success),
        checked(result) matches Err(RawHcclError::Other(code)) ==> code == result.0,
        (10 <= result.0 < 19 || result.0 == 20 || result.0 > 21) ==> checked(result) == Err::<
            HcclStatus,
            RawHcclError,
        >(RawHcclError::Other(result.0)),
        checked(result) matches Err(error) ==> completed(result) == Err::<HcclStatus, HcclError>(
            HcclError::HcclError(error),
        ),
{
}

/// After each step of a gather that succeeded comes the very next one, until there is
/// none; a step that failed is the last.
pub proof fn law_gather_takes_step_after_step(steps: usize, at: usize, result: HcclResult)
    requires
        at < steps,
    ensures
        result.0 == 0 && at + 1 < steps ==> next_gather_step(steps, at, result) == Ok::<
            Option<usize>,
            HcclError,
        >(Some((at + 1) as usize)),
        result.0 == 0 && at + 1 == steps ==> next_gather_step(steps, at, result) == Ok::<
            Option<usize>,
            HcclError,
        >(None),
        result.0 != 0 ==> next_gather_step(steps, at, result) is Err,
{
}

} // verus!
