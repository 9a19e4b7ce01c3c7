//! Identifiers that bootstrap a collective communicator.
//!
//! NCCL and HCCL are independent backends. The portable [`UniqueId`] carries the
//! opaque identifier of either; each backend takes its own and rejects the other.
use vstd::array::array_fill_for_copy_types;
use vstd::prelude::*;
use vstd::string::StringExecFns;

use crate::text::{bytes_hex, hex_preview};

verus! {

/// A reduction over the ranks of a communicator.
#[derive(Debug, Clone, Copy, PartialEq, Eq, Structural)]
pub enum ReduceOp {
    Sum,
    Prod,
    Max,
    Min,
    Avg,
}

impl ReduceOp {
    /// The number that stands for the reduction in the NCCL interface.
    pub open spec fn spec_code(self) -> u32 {
        match self {
            ReduceOp::Sum => 0,
            ReduceOp::Prod => 1,
            ReduceOp::Max => 2,
            ReduceOp::Min => 3,
            ReduceOp::Avg => 4,
        }
    }

    /// The number that stands for the reduction in the NCCL interface.
    pub fn code(self) -> (code: u32)
        ensures
            code == self.spec_code(),
    {
        match self {
            ReduceOp::Sum => 0,
            ReduceOp::Prod => 1,
            ReduceOp::Max => 2,
            ReduceOp::Min => 3,
            ReduceOp::Avg => 4,
        }
    }
}

/// The 128 bytes that bootstrap an NCCL communicator.
#[derive(Debug, Clone, Copy)]
pub struct NcclUniqueId {
    pub internal: [i8; 128],
}

/// The 4108 bytes that bootstrap an HCCL communicator.
#[derive(Clone, Copy)]
pub struct HcclRootInfo {
    pub internal: [i8; 4108],
}

/// How many bytes of an HCCL identifier its description shows.
pub const PREVIEW_BYTES: usize = 32;

/// Takes a sequence of exactly `N` bytes as an array. The error is the length of
/// any other sequence.
pub fn exact_array<const N: usize>(bytes: Vec<i8>) -> (array: Result<[i8; N], usize>)
    ensures
        match array {
            Ok(a) => bytes@.len() == N && a@ == bytes@,
            Err(len) => bytes@.len() != N && len == bytes@.len(),
        },
{
    if bytes.len() != N {
        return Err(bytes.len());
    }
    let mut array: [i8; N] = array_fill_for_copy_types(0i8);
    let mut i: usize = 0;
    while i < N
        invariant
            i <= N,
            bytes@.len() == N,
            array@.len() == N,
            forall|k: int| 0 <= k < i ==> array@[k] == bytes@[k],
        decreases N - i,
    {
        array[i] = bytes[i];
        i = i + 1;
    }
    assert(array@ =~= bytes@);
    Ok(array)
}

impl HcclRootInfo {
    /// A description that shows only the first bytes.
    pub fn describe(&self) -> (text: String)
        ensures
            text@ == "HcclRootInfo { internal: "@ + bytes_hex(
                self.internal@.take(PREVIEW_BYTES as int),
            ) + "... }"@,
    {
        let mut text = String::from_str("HcclRootInfo { internal: ");
        text.append(hex_preview(self.internal.as_slice(), PREVIEW_BYTES).as_str());
        text.append("... }");
        text
    }
}

/// The identifier of a collective communicator of either backend.
#[derive(Clone)]
pub enum UniqueId {
    /// An NCCL identifier.
    Nccl(NcclUniqueId),
    /// An HCCL identifier.
    Hccl(HcclRootInfo),
}

impl UniqueId {
    /// An NCCL identifier from its bytes.
    pub fn from_internal(internal: [i8; 128]) -> (id: Self)
        ensures
            id == UniqueId::Nccl(NcclUniqueId { internal }),
    {
        UniqueId::Nccl(NcclUniqueId { internal })
    }

    /// The bytes of an NCCL identifier.
    pub fn internal(&self) -> (internal: &[i8; 128])
        requires
            self is Nccl,
        ensures
            *self == UniqueId::Nccl(NcclUniqueId { internal: *internal }),
    {
        &self.as_nccl_unique_id().internal
    }

    /// The NCCL identifier, borrowed.
    pub fn as_nccl_unique_id(&self) -> (inner: &NcclUniqueId)
        requires
            self is Nccl,
        ensures
            *self == UniqueId::Nccl(*inner),
    {
        match self {
            UniqueId::Nccl(inner) => inner,
            UniqueId::Hccl(_) => vstd::pervasive::unreached(),
        }
    }

    /// The NCCL identifier.
    pub fn into_nccl_unique_id(self) -> (inner: NcclUniqueId)
        requires
            self is Nccl,
        ensures
            self == UniqueId::Nccl(inner),
    {
        match self {
            UniqueId::Nccl(inner) => inner,
            UniqueId::Hccl(_) => vstd::pervasive::unreached(),
        }
    }

    /// An HCCL identifier from its bytes.
    pub fn from_hccl_internal(internal: [i8; 4108]) -> (id: Self)
        ensures
            id == UniqueId::Hccl(HcclRootInfo { internal }),
    {
        UniqueId::Hccl(HcclRootInfo { internal })
    }

    /// The HCCL identifier, borrowed.
    pub fn as_hccl_root_info(&self) -> (inner: &HcclRootInfo)
        requires
            self is Hccl,
        ensures
            *self == UniqueId::Hccl(*inner),
    {
        match self {
            UniqueId::Hccl(inner) => inner,
            UniqueId::Nccl(_) => vstd::pervasive::unreached(),
        }
    }

    /// The HCCL identifier.
    pub fn into_hccl_root_info(self) -> (inner: HcclRootInfo)
        requires
            self is Hccl,
        ensures
            self == UniqueId::Hccl(inner),
    {
        match self {
            UniqueId::Hccl(inner) => inner,
            UniqueId::Nccl(_) => vstd::pervasive::unreached(),
        }
    }

    /// Whether this is an NCCL identifier.
    pub fn is_nccl(&self) -> (yes: bool)
        ensures
            yes == (self is Nccl),
    {
        matches!(self, UniqueId::Nccl(_))
    }

    /// Whether this is an HCCL identifier.
    pub fn is_hccl(&self) -> (yes: bool)
        ensures
            yes == (self is Hccl),
    {
        matches!(self, UniqueId::Hccl(_))
    }
}

/// Every identifier belongs to exactly one of the two backends.
pub proof fn law_one_backend(id: UniqueId)
    ensures
        (id is Nccl) != (id is Hccl),
{
}

/// Reductions have the numbers of the NCCL interface, one each.
pub proof fn law_reductions_have_nccl_numbers(left: ReduceOp, right: ReduceOp)
    ensures
        ReduceOp::Sum.spec_code() == 0,
        ReduceOp::Prod.spec_code() == 1,
        ReduceOp::Max.spec_code() == 2,
        ReduceOp::Min.spec_code() == 3,
        ReduceOp::Avg.spec_code() == 4,
        left.spec_code() == right.spec_code() ==> left == right,
{
}

} // verus!
