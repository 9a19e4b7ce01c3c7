//! Collective communication over HCCL.
pub mod call_laws;
pub mod color;
pub mod communicator;
pub mod root_info;
pub mod split;
pub mod tensor;
pub mod types;
