//! Stereo audio streaming between a codec chip and application code over
//! two circular DMA transfers, one per direction, each split into halves.
//!
//! The library holds the decisions of the driver: the sample codec on
//! fixed-point levels, the choice of buffer halves on each notification,
//! the deinterleaving and reinterleaving of wire words, the bring-up order,
//! and the lifecycle of the interface handle with its registration slot.
use vstd::prelude::*;

pub mod bring_up;
pub mod codec;
pub mod engine;
pub mod interface;
pub mod scheduler;

verus! {

/// Frames in one block handed to the processing callback.
pub const BLOCK_LENGTH: usize = 32;

/// Words in one half of a DMA buffer: one block of two channels.
pub const HALF_DMA_BUFFER_LENGTH: usize = BLOCK_LENGTH * 2;

/// Words in a whole DMA buffer: two halves.
pub const DMA_BUFFER_LENGTH: usize = HALF_DMA_BUFFER_LENGTH * 2;

/// The fixed frame rate, in hertz.
pub const FS: u32 = 48_000;

} // verus!
