//! Buffer handles of the usual ownership shapes.
//!
//! A reference, a `Box` and a `Vec` all keep their memory where it is when
//! the handle itself is moved, which is what the channel needs.
//! [`Located`] pairs such a handle with the address of that memory and
//! implements the buffer traits for it, one implementation per shape.
//!
//! A value that *contains* its memory, such as an array held by value, moves
//! with every move of the value. No implementation exists for it, so a
//! transfer cannot be started on one.

use crate::traits::{DmaReadBuffer, DmaReadTarget, DmaWord, DmaWriteBuffer, DmaWriteTarget};
use vstd::layout::{size_of, spec_size_of_val};
use vstd::prelude::*;

verus! {

/// A handle together with the address of the memory it refers to.
pub struct Located<B> {
    handle: B,
    address: usize,
}

impl<B> Located<B> {
    /// The handle.
    pub closed spec fn handle(&self) -> B {
        self.handle
    }

    /// The address of the memory behind the handle.
    pub closed spec fn spec_address(&self) -> usize {
        self.address
    }

    /// Pairs `handle` with `address`.
    ///
    /// The caller vouches that `address` is where the memory behind `handle`
    /// starts. The library has no means to check it, and a transfer on a
    /// wrong address reads or overwrites unrelated memory.
    pub fn new(handle: B, address: usize) -> (located: Self)
        ensures
            located.handle() == handle,
            located.spec_address() == address,
    {
        Located { handle, address }
    }

    /// The address of the memory behind the handle.
    pub fn address(&self) -> (address: usize)
        ensures
            address == self.spec_address(),
    {
        self.address
    }

    /// Gives the handle back.
    pub fn into_inner(self) -> (handle: B)
        ensures
            handle == self.handle(),
    {
        self.handle
    }
}

impl<'a, T: DmaReadTarget + ?Sized> DmaReadBuffer for Located<&'a T> {
    type Word = T::Word;

    open spec fn read_view(&self) -> (usize, usize) {
        (self.spec_address(), spec_size_of_val::<T>(self.handle()) as usize)
    }

    fn dma_read_buffer(&self) -> (view: (usize, usize)) {
        self.handle.as_dma_read_buffer(self.address)
    }
}

impl<'a, T: DmaReadTarget + ?Sized> DmaReadBuffer for Located<&'a mut T> {
    type Word = T::Word;

    open spec fn read_view(&self) -> (usize, usize) {
        (self.spec_address(), spec_size_of_val::<T>(&*self.handle()) as usize)
    }

    fn dma_read_buffer(&self) -> (view: (usize, usize)) {
        self.handle.as_dma_read_buffer(self.address)
    }
}

impl<T: DmaReadTarget + ?Sized> DmaReadBuffer for Located<Box<T>> {
    type Word = T::Word;

    open spec fn read_view(&self) -> (usize, usize) {
        (self.spec_address(), spec_size_of_val::<T>(&*self.handle()) as usize)
    }

    fn dma_read_buffer(&self) -> (view: (usize, usize)) {
        self.handle.as_dma_read_buffer(self.address)
    }
}

impl<W: DmaWord> DmaReadBuffer for Located<Vec<W>> {
    type Word = W;

    open spec fn read_view(&self) -> (usize, usize) {
        (self.spec_address(), (self.handle()@.len() * size_of::<W>()) as usize)
    }

    fn dma_read_buffer(&self) -> (view: (usize, usize)) {
        broadcast use vstd::layout::layout_of_slices;

        self.handle.as_slice().as_dma_read_buffer(self.address)
    }
}

impl<'a, T: DmaWriteTarget + ?Sized> DmaWriteBuffer for Located<&'a mut T> {
    type Word = T::Word;

    open spec fn write_view(&self) -> (usize, usize) {
        (self.spec_address(), spec_size_of_val::<T>(&*self.handle()) as usize)
    }

    fn dma_write_buffer(&mut self) -> (view: (usize, usize)) {
        self.handle.as_dma_write_buffer(self.address)
    }
}

impl<T: DmaWriteTarget + ?Sized> DmaWriteBuffer for Located<Box<T>> {
    type Word = T::Word;

    open spec fn write_view(&self) -> (usize, usize) {
        (self.spec_address(), spec_size_of_val::<T>(&*self.handle()) as usize)
    }

    fn dma_write_buffer(&mut self) -> (view: (usize, usize)) {
        self.handle.as_dma_write_buffer(self.address)
    }
}

impl<W: DmaWord> DmaWriteBuffer for Located<Vec<W>> {
    type Word = W;

    open spec fn write_view(&self) -> (usize, usize) {
        (self.spec_address(), (self.handle()@.len() * size_of::<W>()) as usize)
    }

    fn dma_write_buffer(&mut self) -> (view: (usize, usize)) {
        broadcast use vstd::layout::layout_of_slices;

        self.handle.as_slice().as_dma_write_buffer(self.address)
    }
}

} // verus!
