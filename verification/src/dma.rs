//! The handle on the DMA channel.
//!
//! [`Dma`] does not reach the hardware. Each of its methods appends the
//! register operation it stands for to a queue, and the driver that owns the
//! peripheral takes the queue and carries the operations out in order.
//! [`Registers`] says what the channel holds after a sequence of operations.

use crate::traits::WordSize;
use vstd::prelude::*;

verus! {

/// One operation for the driver to carry out on the channel.
#[derive(Clone, Copy, Debug, PartialEq, Eq, Structural)]
pub enum Command {
    /// Set the width of the items to move, on both sides of the channel.
    SetWordSize(WordSize),
    /// Program the address the channel reads from.
    SetSourceAddress(u32),
    /// Program the address the channel writes to.
    SetDestinationAddress(u32),
    /// Program the number of words to move.
    SetLength(u16),
    /// Keep accesses to the buffers that come before this point from being
    /// moved after it.
    ReleaseFence,
    /// Clear the completion and error flags left by an earlier transfer,
    /// then switch the channel on.
    Enable,
    /// Switch the channel off.
    Disable,
    /// Keep accesses to the buffers that come after this point from being
    /// moved before it.
    AcquireFence,
}

/// What the channel has been told, and the two status flags it raises.
///
/// The flags are the channel's to raise: no operation sets one. Switching
/// the channel on clears both, so that a flag left by an earlier transfer is
/// never taken for the outcome of the next.
pub struct Registers {
    pub word: WordSize,
    pub source: u32,
    pub destination: u32,
    pub length: u16,
    pub enabled: bool,
    pub complete: bool,
    pub error: bool,
}

impl Registers {
    /// The registers after one operation. Fences leave them as they are.
    pub open spec fn step(self, command: Command) -> Registers {
        match command {
            Command::SetWordSize(word) => Registers { word, ..self },
            Command::SetSourceAddress(source) => Registers { source, ..self },
            Command::SetDestinationAddress(destination) => Registers { destination, ..self },
            Command::SetLength(length) => Registers { length, ..self },
            Command::Enable => Registers { enabled: true, complete: false, error: false, ..self },
            Command::Disable => Registers { enabled: false, ..self },
            Command::ReleaseFence | Command::AcquireFence => self,
        }
    }

    /// The registers after a sequence of operations, carried out first to
    /// last.
    pub open spec fn run(self, commands: Seq<Command>) -> Registers
        decreases commands.len(),
    {
        if commands.len() == 0 {
            self
        } else {
            self.run(commands.drop_last()).step(commands.last())
        }
    }

    /// Number of bytes the channel moves when it runs to completion.
    pub open spec fn byte_count(self) -> nat {
        self.length as nat * self.word.spec_bytes()
    }
}

/// The channel, set up for memory-to-memory transfers.
///
/// There is one channel, so there should be one handle. Keep it in an
/// `Option<Dma>`: a transfer takes the handle out when it starts and gives
/// it back when it ends, and a second transfer cannot start in between.
#[derive(Debug)]
pub struct Dma {
    pending: Vec<Command>,
}

impl View for Dma {
    type V = Seq<Command>;

    /// The operations queued and not yet taken by the driver, oldest first.
    closed spec fn view(&self) -> Seq<Command> {
        self.pending@
    }
}

impl Dma {
    /// A handle with nothing queued.
    ///
    /// Taking the peripheral and setting the channel up for
    /// memory-to-memory transfers is the driver's part; it makes one handle
    /// when it has done so.
    pub fn mem2mem() -> (dma: Dma)
        ensures
            dma@ == Seq::<Command>::empty(),
    {
        Dma { pending: Vec::new() }
    }

    /// Queues the width of the items to move.
    pub fn set_word_size(&mut self, word: WordSize)
        ensures
            final(self)@ == old(self)@.push(Command::SetWordSize(word)),
    {
        self.pending.push(Command::SetWordSize(word));
    }

    /// Queues the address to read from.
    pub fn set_paddr(&mut self, addr: u32)
        ensures
            final(self)@ == old(self)@.push(Command::SetSourceAddress(addr)),
    {
        self.pending.push(Command::SetSourceAddress(addr));
    }

    /// Queues the address to write to.
    pub fn set_maddr(&mut self, addr: u32)
        ensures
            final(self)@ == old(self)@.push(Command::SetDestinationAddress(addr)),
    {
        self.pending.push(Command::SetDestinationAddress(addr));
    }

    /// Queues the number of words to move.
    pub fn set_ndt(&mut self, len: u16)
        ensures
            final(self)@ == old(self)@.push(Command::SetLength(len)),
    {
        self.pending.push(Command::SetLength(len));
    }

    /// Queues a release fence.
    pub fn release_fence(&mut self)
        ensures
            final(self)@ == old(self)@.push(Command::ReleaseFence),
    {
        self.pending.push(Command::ReleaseFence);
    }

    /// Queues switching the channel on.
    pub fn enable(&mut self)
        ensures
            final(self)@ == old(self)@.push(Command::Enable),
    {
        self.pending.push(Command::Enable);
    }

    /// Queues switching the channel off.
    pub fn disable(&mut self)
        ensures
            final(self)@ == old(self)@.push(Command::Disable),
    {
        self.pending.push(Command::Disable);
    }

    /// Queues an acquire fence.
    pub fn acquire_fence(&mut self)
        ensures
            final(self)@ == old(self)@.push(Command::AcquireFence),
    {
        self.pending.push(Command::AcquireFence);
    }

    /// Hands the queued operations to the driver, oldest first, and leaves
    /// the queue empty.
    pub fn take_pending(&mut self) -> (commands: Vec<Command>)
        ensures
            commands@ == old(self)@,
            final(self)@ == Seq::<Command>::empty(),
    {
        let mut commands: Vec<Command> = Vec::new();
        core::mem::swap(&mut self.pending, &mut commands);
        commands
    }
}

} // verus!
