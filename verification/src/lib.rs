//! Descriptor rings for an Ethernet DMA engine.
//!
//! Software and the DMA engine share a fixed set of descriptors and frame
//! buffers. A single ownership bit in each descriptor says which of the two
//! may touch it. This crate holds the descriptors, the rings built from them,
//! and the rules by which a slot is handed to the engine and taken back, with
//! each operation's effect stated as a contract.

pub mod dma;
pub mod ptp;
