//! Buffers, transports and managers for single-sided communication.
pub mod backend;
pub mod buffer;
pub mod cuda;
pub mod manager;
pub mod transport;
