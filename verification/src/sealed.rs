//! Keeps the capability traits closed.
//!
//! The word and target traits have this trait as a supertrait. It cannot be
//! named outside the crate, so the types listed here are the only ones that
//! can ever implement them.

use core::mem::MaybeUninit;
use vstd::prelude::*;

verus! {

pub trait Sealed {

}

impl Sealed for u8 {

}

impl Sealed for u16 {

}

impl Sealed for u32 {

}

impl<T: Sealed> Sealed for [T] {

}

impl<T: Sealed, const N: usize> Sealed for [T; N] {

}

impl<T: Sealed> Sealed for MaybeUninit<T> {

}

} // verus!
