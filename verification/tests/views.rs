//! The capability traits and the buffer handles: which view each value gives.

use core::mem::MaybeUninit;
use dma_poc::{
    DmaReadBuffer, DmaReadTarget, DmaWord, DmaWriteBuffer, DmaWriteTarget, Located, WordSize,
};

/// A buffer type of the caller's own, as a user of the traits would write it.
struct Window {
    address: usize,
    length: usize,
}

impl DmaReadBuffer for Window {
    type Word = u32;

    fn read_view(&self) -> (usize, usize) {
        (self.address, self.length)
    }

    fn dma_read_buffer(&self) -> (usize, usize) {
        (self.address, self.length)
    }
}

impl DmaWriteBuffer for Window {
    type Word = u32;

    fn write_view(&self) -> (usize, usize) {
        (self.address, self.length)
    }

    fn dma_write_buffer(&mut self) -> (usize, usize) {
        (self.address, self.length)
    }
}

fn word_size_of<B: DmaReadBuffer>(_buffer: &B) -> WordSize {
    <B::Word as DmaWord>::word_size()
}

fn write_word_size_of<B: DmaWriteBuffer>(_buffer: &B) -> WordSize {
    <B::Word as DmaWord>::word_size()
}

#[test]
fn word_sizes_are_one_two_and_four_bytes() {
    assert_eq!(<u8 as DmaWord>::word_size(), WordSize::Bits8);
    assert_eq!(<u16 as DmaWord>::word_size(), WordSize::Bits16);
    assert_eq!(<u32 as DmaWord>::word_size(), WordSize::Bits32);
    assert_eq!(WordSize::Bits8.bytes(), 1);
    assert_eq!(WordSize::Bits16.bytes(), 2);
    assert_eq!(WordSize::Bits32.bytes(), 4);
}

#[test]
fn word_size_matches_the_size_of_the_type() {
    assert_eq!(<u8 as DmaWord>::word_size().bytes(), core::mem::size_of::<u8>());
    assert_eq!(<u16 as DmaWord>::word_size().bytes(), core::mem::size_of::<u16>());
    assert_eq!(<u32 as DmaWord>::word_size().bytes(), core::mem::size_of::<u32>());
}

#[test]
fn a_single_word_is_a_target() {
    let byte: u8 = 7;
    let half: u16 = 7;
    let word: u32 = 7;
    assert_eq!(byte.as_dma_read_buffer(0x100), (0x100, 1));
    assert_eq!(half.as_dma_read_buffer(0x100), (0x100, 2));
    assert_eq!(word.as_dma_read_buffer(0x100), (0x100, 4));
}

#[test]
fn a_slice_view_counts_bytes() {
    let bytes: [u8; 5] = [1, 2, 3, 4, 5];
    let halves: [u16; 4] = [1, 2, 3, 4];
    let words: [u32; 3] = [1, 2, 3];
    assert_eq!(bytes[..].as_dma_read_buffer(0x2000_0000), (0x2000_0000, 5));
    assert_eq!(halves[..].as_dma_read_buffer(0x2000_0000), (0x2000_0000, 8));
    assert_eq!(words[..].as_dma_read_buffer(0x2000_0000), (0x2000_0000, 12));
    assert_eq!(words[..0].as_dma_read_buffer(0x2000_0000), (0x2000_0000, 0));
}

#[test]
fn an_array_view_counts_bytes() {
    let none: [u32; 0] = [];
    let halves: [u16; 4] = [1, 2, 3, 4];
    let many: [u8; 40] = [0; 40];
    assert_eq!(none.as_dma_read_buffer(8), (8, 0));
    assert_eq!(halves.as_dma_read_buffer(8), (8, 8));
    assert_eq!(many.as_dma_read_buffer(8), (8, 40));
}

#[test]
fn nested_arrays_and_slices_are_targets() {
    let grid: [[u16; 4]; 3] = [[0; 4]; 3];
    assert_eq!(grid.as_dma_read_buffer(0), (0, 24));
    assert_eq!(grid[..2].as_dma_read_buffer(0), (0, 16));
}

#[test]
fn a_write_view_leaves_the_value_alone() {
    let halves: [u16; 4] = [1, 2, 3, 4];
    assert_eq!(halves.as_dma_write_buffer(0x40), (0x40, 8));
    assert_eq!(halves[1..].as_dma_write_buffer(0x42), (0x42, 6));
    assert_eq!(halves, [1, 2, 3, 4]);
    let word: u32 = 9;
    assert_eq!(word.as_dma_write_buffer(0x40), (0x40, 4));
    assert_eq!(word, 9);
}

#[test]
fn a_write_buffer_is_left_as_it_was() {
    let mut vec = Located::new(vec![1u16, 2, 3], 0x2000_0000);
    assert_eq!(vec.dma_write_buffer(), (0x2000_0000, 6));
    assert_eq!(vec.dma_write_buffer(), (0x2000_0000, 6));
    assert_eq!(vec.address(), 0x2000_0000);
    assert_eq!(vec.into_inner(), vec![1u16, 2, 3]);

    let mut boxed = Located::new(Box::new([7u8, 8, 9]), 0x2000_0100);
    assert_eq!(boxed.dma_write_buffer(), (0x2000_0100, 3));
    assert_eq!(*boxed.into_inner(), [7u8, 8, 9]);

    let mut memory: [u32; 2] = [5, 6];
    let mut borrowed = Located::new(&mut memory, 0x2000_0200);
    assert_eq!(borrowed.dma_write_buffer(), (0x2000_0200, 8));
    assert_eq!(*borrowed.into_inner(), [5, 6]);
    assert_eq!(memory, [5, 6]);
}

#[test]
fn uninitialised_memory_is_a_write_target() {
    let single: MaybeUninit<u32> = MaybeUninit::uninit();
    let block: MaybeUninit<[u8; 16]> = MaybeUninit::uninit();
    let cells: [MaybeUninit<u16>; 8] = [MaybeUninit::uninit(); 8];
    assert_eq!(single.as_dma_write_buffer(0x10), (0x10, 4));
    assert_eq!(block.as_dma_write_buffer(0x10), (0x10, 16));
    assert_eq!(cells.as_dma_write_buffer(0x10), (0x10, 16));
}

#[test]
fn a_shared_reference_is_a_read_buffer() {
    static SRC: [u8; 16] = *b"THIS IS DMADATA!";
    let whole: Located<&'static [u8; 16]> = Located::new(&SRC, 0x0800_0000);
    let part: Located<&'static [u8]> = Located::new(&SRC[4..], 0x0800_0004);
    assert_eq!(whole.dma_read_buffer(), (0x0800_0000, 16));
    assert_eq!(part.dma_read_buffer(), (0x0800_0004, 12));
    assert_eq!(word_size_of(&whole), WordSize::Bits8);
}

#[test]
fn an_exclusive_reference_is_a_read_and_a_write_buffer() {
    let mut memory: [u32; 4] = [0; 4];
    let mut buffer = Located::new(&mut memory, 0x2000_0100);
    assert_eq!(buffer.dma_read_buffer(), (0x2000_0100, 16));
    assert_eq!(buffer.dma_write_buffer(), (0x2000_0100, 16));
    assert_eq!(write_word_size_of(&buffer), WordSize::Bits32);
}

#[test]
fn a_box_is_a_read_and_a_write_buffer() {
    let mut array = Located::new(Box::new([0u16; 8]), 0x2000_0200);
    assert_eq!(array.dma_read_buffer(), (0x2000_0200, 16));
    assert_eq!(array.dma_write_buffer(), (0x2000_0200, 16));
    let mut slice: Located<Box<[u8]>> = Located::new(vec![0u8; 5].into_boxed_slice(), 0x30);
    assert_eq!(slice.dma_read_buffer(), (0x30, 5));
    assert_eq!(slice.dma_write_buffer(), (0x30, 5));
    let mut fresh: Located<Box<MaybeUninit<[u32; 2]>>> =
        Located::new(Box::new(MaybeUninit::uninit()), 0x40);
    assert_eq!(fresh.dma_write_buffer(), (0x40, 8));
}

#[test]
fn a_vec_is_a_read_and_a_write_buffer() {
    let mut bytes = Located::new(vec![0u8; 16], 0x2000_0300);
    let mut halves = Located::new(vec![0u16; 16], 0x2000_0400);
    let mut empty = Located::new(Vec::<u32>::new(), 0x2000_0500);
    assert_eq!(bytes.dma_read_buffer(), (0x2000_0300, 16));
    assert_eq!(bytes.dma_write_buffer(), (0x2000_0300, 16));
    assert_eq!(halves.dma_read_buffer(), (0x2000_0400, 32));
    assert_eq!(halves.dma_write_buffer(), (0x2000_0400, 32));
    assert_eq!(empty.dma_read_buffer(), (0x2000_0500, 0));
    assert_eq!(empty.dma_write_buffer(), (0x2000_0500, 0));
    assert_eq!(word_size_of(&halves), WordSize::Bits16);
}

#[test]
fn the_view_is_the_same_on_every_call() {
    let mut buffer = Located::new(vec![0u16; 6], 0x2000_0600);
    let first_read = buffer.dma_read_buffer();
    let first_write = buffer.dma_write_buffer();
    for _ in 0..4 {
        assert_eq!(buffer.dma_read_buffer(), first_read);
        assert_eq!(buffer.dma_write_buffer(), first_write);
    }
    assert_eq!(first_read, first_write);
}

#[test]
fn the_view_survives_a_move_of_the_handle() {
    let buffer = Located::new(vec![0u8; 9], 0x2000_0700);
    let before = buffer.dma_read_buffer();
    let moved = Box::new(buffer);
    assert_eq!(moved.dma_read_buffer(), before);
}

#[test]
fn a_located_handle_gives_back_what_it_was_given() {
    let buffer = Located::new(vec![1u8, 2, 3], 0x2000_0800);
    assert_eq!(buffer.address(), 0x2000_0800);
    assert_eq!(buffer.into_inner(), vec![1u8, 2, 3]);
}

#[test]
fn a_buffer_type_of_the_caller_can_implement_the_traits() {
    let mut window = Window { address: 0x4000, length: 64 };
    assert_eq!(window.dma_read_buffer(), (0x4000, 64));
    assert_eq!(window.dma_write_buffer(), (0x4000, 64));
    assert_eq!(window.read_view(), (0x4000, 64));
    assert_eq!(window.write_view(), (0x4000, 64));
    assert_eq!(word_size_of(&window), WordSize::Bits32);
}
