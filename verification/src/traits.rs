//! Capability traits for buffers that may be handed to the DMA channel.
//!
//! A buffer is described to the channel by its *view*: the pair
//! `(address, length in bytes)` of the memory it refers to. The traits here
//! say which values may produce such a view, and for which direction.
//!
//! Nothing in this module can check that an address stays valid while the
//! channel is armed. That is the obligation an implementor of
//! [`DmaReadBuffer`] or [`DmaWriteBuffer`] takes on; it is spelled out on
//! each trait.

use crate::sealed::Sealed;
use core::mem::MaybeUninit;
use vstd::layout::{size_of, spec_size_of_val};
use vstd::prelude::*;

verus! {

/// Width of the items the channel moves.
#[derive(Clone, Copy, Debug, PartialEq, Eq, Structural)]
pub enum WordSize {
    Bits8,
    Bits16,
    Bits32,
}

impl WordSize {
    /// Number of bytes in one word of this width.
    pub open spec fn spec_bytes(self) -> nat {
        match self {
            WordSize::Bits8 => 1,
            WordSize::Bits16 => 2,
            WordSize::Bits32 => 4,
        }
    }

    /// Number of bytes in one word of this width.
    pub fn bytes(self) -> (n: usize)
        ensures
            n == self.spec_bytes(),
    {
        match self {
            WordSize::Bits8 => 1,
            WordSize::Bits16 => 2,
            WordSize::Bits32 => 4,
        }
    }
}

/// Element types the channel can move: `u8`, `u16` and `u32`.
///
/// Every bit pattern is a valid value of a word, so whatever the channel
/// writes into a buffer of words can be read back without harm. The width
/// that an implementation reports has to be the size of the type. The set is
/// closed: no other type can implement this trait.
pub trait DmaWord: Sized + Sealed {
    /// Width of this word type.
    spec fn spec_word_size() -> WordSize;

    /// Width of this word type.
    fn word_size() -> (w: WordSize)
        ensures
            w == Self::spec_word_size(),
            w.spec_bytes() == size_of::<Self>(),
    ;
}

impl DmaWord for u8 {
    open spec fn spec_word_size() -> WordSize {
        WordSize::Bits8
    }

    fn word_size() -> (w: WordSize) {
        broadcast use vstd::layout::layout_of_primitives;

        WordSize::Bits8
    }
}

impl DmaWord for u16 {
    open spec fn spec_word_size() -> WordSize {
        WordSize::Bits16
    }

    fn word_size() -> (w: WordSize) {
        broadcast use vstd::layout::layout_of_primitives;

        WordSize::Bits16
    }
}

impl DmaWord for u32 {
    open spec fn spec_word_size() -> WordSize {
        WordSize::Bits32
    }

    fn word_size() -> (w: WordSize) {
        broadcast use vstd::layout::layout_of_primitives;

        WordSize::Bits32
    }
}

/// Memory the channel may read: a word, or a slice or array of such memory.
///
/// This is what a [`DmaReadBuffer`] handle dereferences to.
pub trait DmaReadTarget: Sealed {
    type Word: DmaWord;

    /// The view of this value when it is stored at `address`: the address
    /// itself and the number of bytes the value occupies.
    fn as_dma_read_buffer(&self, address: usize) -> (view: (usize, usize))
        ensures
            view.0 == address,
            view.1 == spec_size_of_val::<Self>(self),
    {
        (address, core::mem::size_of_val(self))
    }
}

/// Memory the channel may write: a word, a slice or array of such memory, or
/// such memory that has not been initialised yet.
///
/// This is what a [`DmaWriteBuffer`] handle dereferences to. Types with
/// values that some bit patterns do not represent (text, references,
/// enumerations) must not implement it: the channel writes arbitrary bytes.
pub trait DmaWriteTarget: Sealed {
    type Word: DmaWord;

    /// The view of this value when it is stored at `address`: the address
    /// itself and the number of bytes the value occupies.
    ///
    /// The value is only measured, so a shared borrow is enough and nothing
    /// of it can change. That the caller holds the buffer exclusively is
    /// asked for where the handle gives its view, in
    /// [`DmaWriteBuffer::dma_write_buffer`].
    fn as_dma_write_buffer(&self, address: usize) -> (view: (usize, usize))
        ensures
            view.0 == address,
            view.1 == spec_size_of_val::<Self>(self),
    {
        (address, core::mem::size_of_val(self))
    }
}

impl<W: DmaWord> DmaReadTarget for W {
    type Word = W;
}

impl<W: DmaWord> DmaWriteTarget for W {
    type Word = W;
}

impl<T: DmaReadTarget> DmaReadTarget for [T] {
    type Word = T::Word;
}

impl<T: DmaWriteTarget> DmaWriteTarget for [T] {
    type Word = T::Word;
}

impl<T: DmaReadTarget, const N: usize> DmaReadTarget for [T; N] {
    type Word = T::Word;
}

impl<T: DmaWriteTarget, const N: usize> DmaWriteTarget for [T; N] {
    type Word = T::Word;
}

impl<T: DmaWriteTarget> DmaWriteTarget for MaybeUninit<T> {
    type Word = T::Word;
}

/// A handle on memory that the channel may read.
///
/// # Obligations of an implementor
///
/// - The handle refers to the memory; it does not contain it. Moving the
///   handle must not move the memory.
/// - The memory that the view describes is readable for its whole length and
///   is not freed before the handle is dropped.
/// - The view never changes: that is the postcondition of
///   [`dma_read_buffer`](DmaReadBuffer::dma_read_buffer).
pub trait DmaReadBuffer {
    type Word: DmaWord;

    /// The view of this buffer: `(address, length in bytes)`.
    spec fn read_view(&self) -> (usize, usize);

    /// Returns the view of this buffer, the same on every call.
    fn dma_read_buffer(&self) -> (view: (usize, usize))
        ensures
            view == self.read_view(),
    ;
}

/// A handle on memory that the channel may write.
///
/// # Obligations of an implementor
///
/// - The handle refers to the memory; it does not contain it. Moving the
///   handle must not move the memory.
/// - The memory that the view describes is writable for its whole length, is
///   reachable through this handle alone, and is not freed before the handle
///   is dropped.
/// - Whatever bytes end up in that memory, reading it through the handle
///   afterwards is harmless.
/// - Taking the view changes nothing, so the view is the same on every call:
///   that is the postcondition of
///   [`dma_write_buffer`](DmaWriteBuffer::dma_write_buffer).
pub trait DmaWriteBuffer {
    type Word: DmaWord;

    /// The view of this buffer: `(address, length in bytes)`.
    spec fn write_view(&self) -> (usize, usize);

    /// Returns the view of this buffer, the same on every call, and leaves
    /// the buffer as it was. Taking the handle mutably shows that the caller
    /// has exclusive access to it.
    fn dma_write_buffer(&mut self) -> (view: (usize, usize))
        ensures
            view == old(self).write_view(),
            &*final(self) == &*old(self),
    ;
}

} // verus!
