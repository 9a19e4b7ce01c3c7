use monarch_ascend::hccl::root_info::RootInfo;
use monarch_ascend::hccl::types::{HcclError, HcclResult, RawHcclError};
use monarch_ascend::unique_id::{exact_array, HcclRootInfo, NcclUniqueId, ReduceOp, UniqueId};

fn hccl_bytes() -> [i8; 4108] {
    let mut bytes = [0i8; 4108];
    bytes[0] = 1;
    bytes[1] = 16;
    bytes[2] = -1;
    bytes[31] = 10;
    bytes[32] = 5;
    bytes
}

#[test]
fn reductions_have_the_nccl_numbers() {
    let ops = [ReduceOp::Sum, ReduceOp::Prod, ReduceOp::Max, ReduceOp::Min, ReduceOp::Avg];
    let codes: Vec<u32> = ops.iter().map(|op| op.code()).collect();
    assert_eq!(codes, vec![0, 1, 2, 3, 4]);
}

#[test]
fn nccl_identifier_keeps_its_bytes() {
    let mut bytes = [7i8; 128];
    bytes[127] = -3;
    let id = UniqueId::from_internal(bytes);
    assert!(id.is_nccl());
    assert!(!id.is_hccl());
    assert_eq!(id.internal(), &bytes);
    assert_eq!(id.as_nccl_unique_id().internal, bytes);
    assert_eq!(id.into_nccl_unique_id().internal, bytes);
}

#[test]
fn hccl_identifier_keeps_its_bytes() {
    let id = UniqueId::from_hccl_internal(hccl_bytes());
    assert!(id.is_hccl());
    assert!(!id.is_nccl());
    assert_eq!(id.as_hccl_root_info().internal, hccl_bytes());
    assert_eq!(id.into_hccl_root_info().internal, hccl_bytes());
}

#[test]
fn array_takes_exactly_its_length() {
    assert_eq!(exact_array::<3>(vec![1, -2, 3]), Ok([1, -2, 3]));
    assert_eq!(exact_array::<3>(vec![1, -2]), Err(2));
    assert_eq!(exact_array::<3>(vec![1, -2, 3, 4]), Err(4));
    assert_eq!(exact_array::<128>(vec![9; 128]), Ok([9i8; 128]));
    assert_eq!(exact_array::<4108>(vec![9; 128]), Err(128));
}

#[test]
fn description_shows_the_first_bytes() {
    let info = HcclRootInfo { internal: hccl_bytes() };
    let mut hex = String::from("0110ff");
    for _ in 3..31 {
        hex = hex + "00";
    }
    hex = hex + "0a";
    assert_eq!(info.describe(), format!("HcclRootInfo {{ internal: {}... }}", hex));
    let root = RootInfo { inner: info };
    assert_eq!(root.describe(), format!("RootInfo {{ inner: {} }}", hex));
}

#[test]
fn root_info_needs_success() {
    let root = RootInfo::new(HcclResult(0), hccl_bytes());
    assert!(matches!(root, Ok(r) if r.inner.internal == hccl_bytes()));
    let failed = RootInfo::new(HcclResult(2), hccl_bytes());
    assert!(matches!(failed, Err(RawHcclError::PtrError)));
}

#[test]
fn root_info_survives_transport() {
    let root = RootInfo { inner: HcclRootInfo { internal: hccl_bytes() } };
    let borrowed = UniqueId::from(&root);
    assert!(borrowed.is_hccl());
    let back = RootInfo::try_from(&borrowed);
    assert!(matches!(back, Ok(r) if r.inner.internal == hccl_bytes()));
    let owned = UniqueId::from(root);
    let back = RootInfo::try_from(owned);
    assert!(matches!(back, Ok(r) if r.inner.internal == hccl_bytes()));
}

#[test]
fn root_info_rejects_nccl() {
    let id = UniqueId::Nccl(NcclUniqueId { internal: [0; 128] });
    assert!(matches!(RootInfo::try_from(&id), Err(HcclError::WrongUniqueIdVariant)));
    assert!(matches!(RootInfo::try_from(id), Err(HcclError::WrongUniqueIdVariant)));
}
