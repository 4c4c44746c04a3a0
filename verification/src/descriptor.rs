//! TX and RX DMA descriptors.
//!
//! Each descriptor points to a data buffer and carries the status/control
//! bits through which the CPU and the DMA hand the buffer to each other.

pub mod bits;
pub mod cell;
pub mod rx;
pub mod tx;

pub use rx::RxDescriptor;
pub use tx::TxDescriptor;
