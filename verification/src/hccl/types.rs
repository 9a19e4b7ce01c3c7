//! Codes, element types and errors of the HCCL interface.
use vstd::prelude::*;
use vstd::std_specs::convert::{FromSpecImpl, TryFromSpecImpl};

use crate::unique_id::ReduceOp;

verus! {

/// What a call into HCCL returned.
#[derive(Debug, Clone, Copy, PartialEq, Eq, Structural)]
pub struct HcclResult(pub u32);

/// An element type as HCCL numbers it.
#[derive(Debug, Clone, Copy, PartialEq, Eq, Structural)]
pub struct HcclDataType(pub u32);

/// A reduction as HCCL numbers it.
#[derive(Debug, Clone, Copy, PartialEq, Eq, Structural)]
pub struct HcclReduceOp(pub u32);

/// A failure that HCCL reports.
#[derive(Debug, Clone, Copy, PartialEq, Eq, Structural)]
pub enum RawHcclError {
    ParamError,
    PtrError,
    MemoryError,
    InternalError,
    NotSupported,
    NotFound,
    Unavailable,
    SysCallError,
    Timeout,
    NetworkError,
    RemoteError,
    Other(u32),
}

/// A failure that the ACL runtime reports, by its code.
#[derive(Debug, Clone, Copy, PartialEq, Eq, Structural)]
pub struct AclError(pub i32);

/// A call into HCCL succeeded.
#[derive(Debug, Clone, Copy, PartialEq, Eq, Structural)]
pub enum HcclStatus {
    Success,
}

/// The element type of a tensor.
#[derive(Debug, Clone, Copy, PartialEq, Eq, Structural)]
#[allow(non_camel_case_types)]
pub enum ScalarType {
    Byte,
    Char,
    Short,
    Int,
    Long,
    Half,
    Float,
    Double,
    Bool,
    BFloat16,
    Float8_e5m2,
    Float8_e4m3fn,
    Float8_e5m2fnuz,
    Float8_e4m3fnuz,
    /// Any other element type, by the number that Torch gives it.
    Other(i8),
}

/// The kind of device that a tensor is on.
#[derive(Debug, Clone, Copy, PartialEq, Eq, Structural)]
pub enum DeviceType {
    Cpu,
    Cuda,
    Npu,
    /// Any other device, by the number that Torch gives it.
    Other(i8),
}

/// What an operation of a communicator failed with.
#[derive(Debug, Clone, PartialEq, Eq)]
pub enum HcclError {
    /// HCCL reported a failure.
    HcclError(RawHcclError),
    /// The ACL runtime reported a failure.
    AclError(AclError),
    /// HCCL has no such element type.
    InvalidDataType(ScalarType),
    /// A tensor in a collective must be contiguous.
    NoncontiguousTensor,
    /// A tensor must be on an NPU.
    InvalidDevice(DeviceType),
    /// A tensor must be dense.
    InvalidSparseTensor,
    /// Eight-bit floats cannot be reduced.
    Float8Reduction,
    /// HCCL does not average.
    AvgNotSupported,
    /// The identifier is one of NCCL.
    WrongUniqueIdVariant,
    /// Input and output differ in element type.
    TypeMismatch,
    /// The output must hold the input of every rank.
    OutputSizeMismatch,
    /// The input must hold the output of every rank.
    InputSizeMismatch,
    /// A rank to split off is outside the world. Carries the ranks in order.
    InvalidSplit(Vec<i32>),
    /// The tensor is undefined.
    UndefinedTensor,
}

/// The failure that a code other than zero stands for.
pub open spec fn raw_error(code: u32) -> RawHcclError {
    if code == 1 {
        RawHcclError::ParamError
    } else if code == 2 {
        RawHcclError::PtrError
    } else if code == 3 {
        RawHcclError::MemoryError
    } else if code == 4 {
        RawHcclError::InternalError
    } else if code == 5 {
        RawHcclError::NotSupported
    } else if code == 6 {
        RawHcclError::NotFound
    } else if code == 7 {
        RawHcclError::Unavailable
    } else if code == 8 {
        RawHcclError::SysCallError
    } else if code == 9 {
        RawHcclError::Timeout
    } else if code == 19 {
        RawHcclError::NetworkError
    } else if code == 21 {
        RawHcclError::RemoteError
    } else {
        RawHcclError::Other(code)
    }
}

/// What a returned code means.
pub open spec fn checked(result: HcclResult) -> Result<HcclStatus, RawHcclError> {
    if result.0 == 0 {
        Ok(HcclStatus::Success)
    } else {
        Err(raw_error(result.0))
    }
}

/// Reads the code that a call into HCCL returned.
pub fn hccl_check(result: HcclResult) -> (status: Result<HcclStatus, RawHcclError>)
    ensures
        status == checked(result),
{
    match result.0 {
        0 => Ok(HcclStatus::Success),
        1 => Err(RawHcclError::ParamError),
        2 => Err(RawHcclError::PtrError),
        3 => Err(RawHcclError::MemoryError),
        4 => Err(RawHcclError::InternalError),
        5 => Err(RawHcclError::NotSupported),
        6 => Err(RawHcclError::NotFound),
        7 => Err(RawHcclError::Unavailable),
        8 => Err(RawHcclError::SysCallError),
        9 => Err(RawHcclError::Timeout),
        19 => Err(RawHcclError::NetworkError),
        21 => Err(RawHcclError::RemoteError),
        other => Err(RawHcclError::Other(other)),
    }
}

/// Different codes never read as the same outcome.
pub proof fn law_codes_stay_apart(left: HcclResult, right: HcclResult)
    requires
        checked(left) == checked(right),
    ensures
        left == right,
{
}

impl From<RawHcclError> for HcclError {
    fn from(error: RawHcclError) -> (e: Self) {
        HcclError::HcclError(error)
    }
}

impl FromSpecImpl<RawHcclError> for HcclError {
    open spec fn obeys_from_spec() -> bool {
        true
    }

    open spec fn from_spec(error: RawHcclError) -> Self {
        HcclError::HcclError(error)
    }
}

impl From<AclError> for HcclError {
    fn from(error: AclError) -> (e: Self) {
        HcclError::AclError(error)
    }
}

impl FromSpecImpl<AclError> for HcclError {
    open spec fn obeys_from_spec() -> bool {
        true
    }

    open spec fn from_spec(error: AclError) -> Self {
        HcclError::AclError(error)
    }
}

/// What an operation that ended in a call into HCCL returns.
pub open spec fn completed(result: HcclResult) -> Result<HcclStatus, HcclError> {
    match checked(result) {
        Ok(status) => Ok(status),
        Err(error) => Err(HcclError::HcclError(error)),
    }
}

/// Ends an operation with the code that its call into HCCL returned.
pub fn complete(result: HcclResult) -> (status: Result<HcclStatus, HcclError>)
    ensures
        status == completed(result),
{
    match hccl_check(result) {
        Ok(status) => Ok(status),
        Err(error) => Err(HcclError::from(error)),
    }
}

/// An element type that HCCL can carry.
#[derive(Debug, Clone, Copy, PartialEq, Eq, Structural)]
pub enum DataType {
    Int8,
    Int16,
    Int32,
    Fp16,
    Fp32,
    Int64,
    Uint64,
    Uint8,
    Uint16,
    Uint32,
    Fp64,
    Bfp16,
}

impl DataType {
    /// The number that HCCL gives the element type.
    pub open spec fn code(self) -> u32 {
        match self {
            DataType::Int8 => 0,
            DataType::Int16 => 1,
            DataType::Int32 => 2,
            DataType::Fp16 => 3,
            DataType::Fp32 => 4,
            DataType::Int64 => 5,
            DataType::Uint64 => 6,
            DataType::Uint8 => 7,
            DataType::Uint16 => 8,
            DataType::Uint32 => 9,
            DataType::Fp64 => 10,
            DataType::Bfp16 => 11,
        }
    }
}

impl From<DataType> for HcclDataType {
    fn from(data_type: DataType) -> (code: Self) {
        HcclDataType(
            match data_type {
                DataType::Int8 => 0,
                DataType::Int16 => 1,
                DataType::Int32 => 2,
                DataType::Fp16 => 3,
                DataType::Fp32 => 4,
                DataType::Int64 => 5,
                DataType::Uint64 => 6,
                DataType::Uint8 => 7,
                DataType::Uint16 => 8,
                DataType::Uint32 => 9,
                DataType::Fp64 => 10,
                DataType::Bfp16 => 11,
            },
        )
    }
}

impl FromSpecImpl<DataType> for HcclDataType {
    open spec fn obeys_from_spec() -> bool {
        true
    }

    open spec fn from_spec(data_type: DataType) -> Self {
        HcclDataType(data_type.code())
    }
}

/// The element type that carries a tensor's elements over HCCL. Types of one byte
/// that HCCL does not know travel as plain bytes.
pub open spec fn carrier(scalar: ScalarType) -> Option<DataType> {
    match scalar {
        ScalarType::Char => Some(DataType::Int8),
        ScalarType::Byte => Some(DataType::Uint8),
        ScalarType::Short => Some(DataType::Int16),
        ScalarType::Half => Some(DataType::Fp16),
        ScalarType::Float => Some(DataType::Fp32),
        ScalarType::Double => Some(DataType::Fp64),
        ScalarType::Int => Some(DataType::Int32),
        ScalarType::Long => Some(DataType::Int64),
        ScalarType::Bool => Some(DataType::Uint8),
        ScalarType::BFloat16 => Some(DataType::Bfp16),
        ScalarType::Float8_e5m2 => Some(DataType::Uint8),
        ScalarType::Float8_e4m3fn => Some(DataType::Uint8),
        ScalarType::Float8_e5m2fnuz => Some(DataType::Uint8),
        ScalarType::Float8_e4m3fnuz => Some(DataType::Uint8),
        ScalarType::Other(_) => None,
    }
}

impl TryFrom<ScalarType> for DataType {
    type Error = HcclError;

    fn try_from(value: ScalarType) -> (data_type: Result<Self, HcclError>) {
        match value {
            ScalarType::Char => Ok(DataType::Int8),
            ScalarType::Byte => Ok(DataType::Uint8),
            ScalarType::Short => Ok(DataType::Int16),
            ScalarType::Half => Ok(DataType::Fp16),
            ScalarType::Float => Ok(DataType::Fp32),
            ScalarType::Double => Ok(DataType::Fp64),
            ScalarType::Int => Ok(DataType::Int32),
            ScalarType::Long => Ok(DataType::Int64),
            ScalarType::Bool => Ok(DataType::Uint8),
            ScalarType::BFloat16 => Ok(DataType::Bfp16),
            ScalarType::Float8_e5m2 => Ok(DataType::Uint8),
            ScalarType::Float8_e4m3fn => Ok(DataType::Uint8),
            ScalarType::Float8_e5m2fnuz => Ok(DataType::Uint8),
            ScalarType::Float8_e4m3fnuz => Ok(DataType::Uint8),
            ScalarType::Other(_) => Err(HcclError::InvalidDataType(value)),
        }
    }
}

impl TryFromSpecImpl<ScalarType> for DataType {
    open spec fn obeys_try_from_spec() -> bool {
        true
    }

    open spec fn try_from_spec(value: ScalarType) -> Result<Self, HcclError> {
        match carrier(value) {
            Some(data_type) => Ok(data_type),
            None => Err(HcclError::InvalidDataType(value)),
        }
    }
}

/// Whether an element type is an eight-bit float.
pub open spec fn is_float8(scalar: ScalarType) -> bool {
    scalar is Float8_e5m2 || scalar is Float8_e4m3fn || scalar is Float8_e5m2fnuz
        || scalar is Float8_e4m3fnuz
}

/// Tests for an eight-bit float.
pub fn is_float8_type(scalar: ScalarType) -> (yes: bool)
    ensures
        yes == is_float8(scalar),
{
    matches!(
        scalar,
        ScalarType::Float8_e5m2 | ScalarType::Float8_e4m3fn | ScalarType::Float8_e5m2fnuz
            | ScalarType::Float8_e4m3fnuz
    )
}

/// The reduction in HCCL's numbering; HCCL has no average.
pub open spec fn hccl_reduction(reduce_op: ReduceOp) -> Result<HcclReduceOp, HcclError> {
    match reduce_op {
        ReduceOp::Sum => Ok(HcclReduceOp(0)),
        ReduceOp::Prod => Ok(HcclReduceOp(1)),
        ReduceOp::Max => Ok(HcclReduceOp(2)),
        ReduceOp::Min => Ok(HcclReduceOp(3)),
        ReduceOp::Avg => Err(HcclError::AvgNotSupported),
    }
}

/// Gives a reduction HCCL's number.
pub fn reduce_op_to_hccl(reduce_op: ReduceOp) -> (op: Result<HcclReduceOp, HcclError>)
    ensures
        op == hccl_reduction(reduce_op),
{
    match reduce_op {
        ReduceOp::Sum => Ok(HcclReduceOp(0)),
        ReduceOp::Prod => Ok(HcclReduceOp(1)),
        ReduceOp::Max => Ok(HcclReduceOp(2)),
        ReduceOp::Min => Ok(HcclReduceOp(3)),
        ReduceOp::Avg => Err(HcclError::AvgNotSupported),
    }
}

} // verus!
