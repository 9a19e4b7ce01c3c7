//! The bytes that bootstrap an HCCL communicator.
use vstd::prelude::*;
use vstd::std_specs::convert::{FromSpecImpl, TryFromSpecImpl};
use vstd::string::StringExecFns;

use crate::hccl::types::{checked, hccl_check, HcclError, HcclResult, RawHcclError};
use crate::text::{bytes_hex, hex_preview};
use crate::unique_id::{HcclRootInfo, UniqueId, PREVIEW_BYTES};

verus! {

/// Root info: what NCCL calls a unique id.
#[derive(Clone)]
pub struct RootInfo {
    pub inner: HcclRootInfo,
}

impl RootInfo {
    /// Takes what HCCL returned and wrote when it was asked for root info.
    pub fn new(result: HcclResult, internal: [i8; 4108]) -> (root_info: Result<Self, RawHcclError>)
        ensures
            root_info == (match checked(result) {
                Ok(_) => Ok::<RootInfo, RawHcclError>(
                    RootInfo { inner: HcclRootInfo { internal } },
                ),
                Err(error) => Err(error),
            }),
    {
        match hccl_check(result) {
            Ok(_) => Ok(RootInfo { inner: HcclRootInfo { internal } }),
            Err(error) => Err(error),
        }
    }

    /// A description that shows only the first bytes.
    pub fn describe(&self) -> (text: String)
        ensures
            text@ == "RootInfo { inner: "@ + bytes_hex(
                self.inner.internal@.take(PREVIEW_BYTES as int),
            ) + " }"@,
    {
        let mut text = String::from_str("RootInfo { inner: ");
        text.append(hex_preview(self.inner.internal.as_slice(), PREVIEW_BYTES).as_str());
        text.append(" }");
        text
    }
}

impl From<RootInfo> for UniqueId {
    fn from(root_info: RootInfo) -> (id: Self) {
        UniqueId::from_hccl_internal(root_info.inner.internal)
    }
}

impl FromSpecImpl<RootInfo> for UniqueId {
    open spec fn obeys_from_spec() -> bool {
        true
    }

    open spec fn from_spec(root_info: RootInfo) -> Self {
        UniqueId::Hccl(root_info.inner)
    }
}

impl<'a> From<&'a RootInfo> for UniqueId {
    fn from(root_info: &'a RootInfo) -> (id: Self) {
        UniqueId::from_hccl_internal(root_info.inner.internal)
    }
}

impl<'a> FromSpecImpl<&'a RootInfo> for UniqueId {
    open spec fn obeys_from_spec() -> bool {
        true
    }

    open spec fn from_spec(root_info: &'a RootInfo) -> Self {
        UniqueId::Hccl(root_info.inner)
    }
}

/// The root info that an identifier carries.
pub open spec fn root_info_of(id: UniqueId) -> Result<RootInfo, HcclError> {
    match id {
        UniqueId::Hccl(inner) => Ok(RootInfo { inner }),
        UniqueId::Nccl(_) => Err(HcclError::WrongUniqueIdVariant),
    }
}

impl TryFrom<UniqueId> for RootInfo {
    type Error = HcclError;

    fn try_from(id: UniqueId) -> (root_info: Result<Self, HcclError>) {
        match id {
            UniqueId::Hccl(bytes) => Ok(
                RootInfo { inner: HcclRootInfo { internal: bytes.internal } },
            ),
            UniqueId::Nccl(_) => Err(HcclError::WrongUniqueIdVariant),
        }
    }
}

impl TryFromSpecImpl<UniqueId> for RootInfo {
    open spec fn obeys_try_from_spec() -> bool {
        true
    }

    open spec fn try_from_spec(id: UniqueId) -> Result<Self, HcclError> {
        root_info_of(id)
    }
}

impl<'a> TryFrom<&'a UniqueId> for RootInfo {
    type Error = HcclError;

    fn try_from(id: &'a UniqueId) -> (root_info: Result<Self, HcclError>) {
        match id {
            UniqueId::Hccl(bytes) => Ok(
                RootInfo { inner: HcclRootInfo { internal: bytes.internal } },
            ),
            UniqueId::Nccl(_) => Err(HcclError::WrongUniqueIdVariant),
        }
    }
}

impl<'a> TryFromSpecImpl<&'a UniqueId> for RootInfo {
    open spec fn obeys_try_from_spec() -> bool {
        true
    }

    open spec fn try_from_spec(id: &'a UniqueId) -> Result<Self, HcclError> {
        root_info_of(*id)
    }
}

/// Root info that travels as a portable identifier arrives unchanged.
pub proof fn law_root_info_survives_transport(root_info: RootInfo)
    ensures
        root_info_of(
            <UniqueId as vstd::std_specs::convert::FromSpec<RootInfo>>::from_spec(root_info),
        ) == Ok::<RootInfo, HcclError>(root_info),
{
}

/// An identifier that carries root info is the one that this root info travels as.
pub proof fn law_identifier_is_rebuilt(id: UniqueId, root_info: RootInfo)
    requires
        root_info_of(id) == Ok::<RootInfo, HcclError>(root_info),
    ensures
        <UniqueId as vstd::std_specs::convert::FromSpec<RootInfo>>::from_spec(root_info) == id,
{
}

/// Root info travels as an HCCL identifier with the very same bytes, and an NCCL
/// identifier carries none.
pub proof fn law_bytes_travel_unchanged(root_info: RootInfo, id: UniqueId)
    ensures
        <UniqueId as vstd::std_specs::convert::FromSpec<RootInfo>>::from_spec(
            root_info,
        ) matches UniqueId::Hccl(inner) && inner.internal == root_info.inner.internal,
        <UniqueId as vstd::std_specs::convert::FromSpec<&RootInfo>>::from_spec(
            &root_info,
        ) matches UniqueId::Hccl(inner) && inner.internal == root_info.inner.internal,
        id is Nccl ==> root_info_of(id) == Err::<RootInfo, HcclError>(
            HcclError::WrongUniqueIdVariant,
        ),
        id matches UniqueId::Hccl(inner) ==> (root_info_of(id) matches Ok(r)
            && r.inner.internal == inner.internal),
{
}

} // verus!
