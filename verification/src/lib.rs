//! Decision core of the Ascend NPU support of Monarch.
#![allow(unused_imports)]

pub mod hccl;
pub mod hixl;
pub mod rdma;
pub mod text;
pub mod text_laws;
pub mod unique_id;
