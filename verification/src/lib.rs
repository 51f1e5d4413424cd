//! Memory-to-memory DMA transfers with the buffers kept safe while the
//! channel runs.
//!
//! The library decides what the channel has to be told and when; it touches
//! no hardware itself. [`Transfer`] moves both buffers into the engine, queues
//! the register operations on a [`Dma`] handle for the driver to carry out in
//! order, and hands everything back once the driver reports that the channel
//! has finished.

pub mod buffer;
pub mod dma;
pub mod laws;
mod sealed;
pub mod traits;
pub mod transfer;

pub use buffer::Located;
pub use dma::{Command, Dma, Registers};
pub use traits::{DmaReadBuffer, DmaReadTarget, DmaWord, DmaWriteBuffer, DmaWriteTarget, WordSize};
pub use transfer::{Held, Transfer, TransferError, Wait};
