//! Single-sided communication over HiXL.
pub mod config;
pub mod connect;
pub mod error;
pub mod local_ip;
pub mod manager;
pub mod memory;
pub mod memory_laws;
pub mod state;
pub mod submit;
pub mod submit_outcome;
