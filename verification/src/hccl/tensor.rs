//! What a communicator reads of a tensor.
use vstd::prelude::*;

use crate::hccl::types::{
    carrier, hccl_reduction, is_float8, DeviceType, HcclError, ScalarType,
};
use crate::unique_id::ReduceOp;

verus! {

/// The properties of a tensor that decide how it is communicated.
#[derive(Debug, Clone, Copy, PartialEq, Eq, Structural)]
pub struct Tensor {
    pub defined: bool,
    pub is_npu: bool,
    pub device_type: DeviceType,
    pub is_sparse: bool,
    pub is_contiguous: bool,
    pub scalar_type: ScalarType,
    /// The number of elements.
    pub numel: i64,
    /// The number of bytes.
    pub nbytes: usize,
    /// The address to read from.
    pub data_ptr: usize,
    /// The address to write to.
    pub mut_data_ptr: usize,
}

/// Why a tensor cannot take part in an operation. Only point-to-point operations
/// take tensors that are not contiguous.
pub open spec fn tensor_error(tensor: Tensor, is_p2p: bool) -> Option<HcclError> {
    if !tensor.defined {
        Some(HcclError::UndefinedTensor)
    } else if !tensor.is_npu {
        Some(HcclError::InvalidDevice(tensor.device_type))
    } else if tensor.is_sparse {
        Some(HcclError::InvalidSparseTensor)
    } else if !is_p2p && !tensor.is_contiguous {
        Some(HcclError::NoncontiguousTensor)
    } else {
        None
    }
}

/// Why the elements of a tensor cannot be carried.
pub open spec fn type_error(tensor: Tensor) -> Option<HcclError> {
    if carrier(tensor.scalar_type) is None {
        Some(HcclError::InvalidDataType(tensor.scalar_type))
    } else {
        None
    }
}

/// Why the elements of a tensor cannot be reduced.
pub open spec fn float8_error(tensor: Tensor) -> Option<HcclError> {
    if is_float8(tensor.scalar_type) {
        Some(HcclError::Float8Reduction)
    } else {
        None
    }
}

/// Why a reduction is not available.
pub open spec fn reduction_error(reduce_op: ReduceOp) -> Option<HcclError> {
    match hccl_reduction(reduce_op) {
        Ok(_) => None,
        Err(error) => Some(error),
    }
}

/// The first of two failures to be reported.
pub open spec fn first_of(earlier: Option<HcclError>, later: Option<HcclError>) -> Option<
    HcclError,
> {
    if earlier is Some {
        earlier
    } else {
        later
    }
}

/// Tests whether a tensor can take part in an operation.
pub fn check_tensor(tensor: &Tensor, is_p2p: bool) -> (result: Result<(), HcclError>)
    ensures
        result == (match tensor_error(*tensor, is_p2p) {
            Some(error) => Err::<(), HcclError>(error),
            None => Ok(()),
        }),
{
    if !tensor.defined {
        return Err(HcclError::UndefinedTensor);
    }
    if !tensor.is_npu {
        return Err(HcclError::InvalidDevice(tensor.device_type));
    }
    if tensor.is_sparse {
        return Err(HcclError::InvalidSparseTensor);
    }
    if !is_p2p && !tensor.is_contiguous {
        return Err(HcclError::NoncontiguousTensor);
    }
    Ok(())
}

} // verus!
