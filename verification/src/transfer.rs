//! The transfer engine.
//!
//! A transfer is armed by [`Transfer::start`], which takes the channel and
//! both buffers for itself and queues the operations that program and enable
//! the channel. From then on the driver reads the channel's status flags and
//! hands each reading to [`Transfer::wait`], until the channel has completed
//! or failed. An armed transfer that is no longer wanted is ended by
//! [`Transfer::cancel`]. Every way out queues the operations that switch the
//! channel off, and none frees a buffer before the driver has carried them
//! out.

use crate::dma::{Command, Dma};
use crate::traits::{DmaReadBuffer, DmaWord, DmaWriteBuffer, WordSize};
use vstd::prelude::*;

verus! {

/// Why a transfer did not start, or did not complete.
#[derive(Clone, Copy, Debug, PartialEq, Eq, Structural)]
pub enum TransferError {
    /// The buffers cannot be handed to the channel as they are: the
    /// destination is smaller than the source, the source is not a whole
    /// number of words or has more words than the length register holds, or
    /// a buffer lies beyond what the address registers reach. See
    /// [`acceptable`].
    ContractViolation,
    /// The channel raised its error flag before it completed.
    HardwareFault,
    /// The channel is held by another transfer.
    ResourceContention,
}

/// The most words one transfer can move: the length register has 16 bits.
pub const MAX_WORDS: usize = 0xffff;

/// Number of whole words of width `word` in a buffer with this view.
pub open spec fn word_count(word: WordSize, view: (usize, usize)) -> int {
    view.1 as int / word.spec_bytes() as int
}

/// A buffer with this view lies within what the 32-bit address registers
/// reach: its address fits a register, and so does the address of each of
/// its bytes.
pub open spec fn reachable(view: (usize, usize)) -> bool {
    view.0 < 0x1_0000_0000 && view.0 + view.1 <= 0x1_0000_0000
}

/// A source and a destination with these views can be handed to the channel
/// as they are, to move words of width `word`.
///
/// The destination has room for the source. The source is a whole number of
/// words, and no more of them than the length register holds. Both buffers
/// are within reach of the address registers.
pub open spec fn acceptable(word: WordSize, src: (usize, usize), dst: (usize, usize)) -> bool {
    &&& src.1 <= dst.1
    &&& src.1 as int % word.spec_bytes() as int == 0
    &&& word_count(word, src) <= MAX_WORDS
    &&& reachable(src)
    &&& reachable(dst)
}

/// The operations that arm the channel for a source and a destination given
/// by their views, moving words of width `word`.
///
/// The addresses and the length are those of the views themselves: a
/// transfer is armed only on buffers that are [`acceptable`], and for those
/// each value fits its register. The release fence comes directly before the
/// channel is switched on.
pub open spec fn arm_sequence(word: WordSize, src: (usize, usize), dst: (usize, usize)) -> Seq<
    Command,
> {
    seq![
        Command::SetWordSize(word),
        Command::SetSourceAddress(src.0 as u32),
        Command::SetDestinationAddress(dst.0 as u32),
        Command::SetLength(word_count(word, src) as u16),
        Command::ReleaseFence,
        Command::Enable,
    ]
}

/// The operations that end a transfer. The acquire fence comes directly
/// after the channel is switched off.
pub open spec fn stop_sequence() -> Seq<Command> {
    seq![Command::Disable, Command::AcquireFence]
}

/// Why a transfer of words of width `word` on buffers with these views does
/// not start, if it does not; `available` says whether the channel is free.
///
/// Buffers that are not [`acceptable`] are reported before the channel is
/// asked for.
pub open spec fn refusal(
    word: WordSize,
    src: (usize, usize),
    dst: (usize, usize),
    available: bool,
) -> Option<TransferError> {
    if !acceptable(word, src, dst) {
        Some(TransferError::ContractViolation)
    } else if !available {
        Some(TransferError::ResourceContention)
    } else {
        None
    }
}

/// What one reading of the status flags means for an armed transfer.
///
/// Completion is looked at first: an error flag counts only while the
/// channel has not completed.
pub open spec fn verdict(complete: bool, error: bool) -> Option<Result<(), TransferError>> {
    if complete {
        Some(Ok(()))
    } else if error {
        Some(Err(TransferError::HardwareFault))
    } else {
        None
    }
}

fn reaches(address: usize, length: usize) -> (within: bool)
    ensures
        within == reachable((address, length)),
{
    let limit: u64 = 0x1_0000_0000;
    let first: u64 = address as u64;
    let count: u64 = length as u64;
    first < limit && count <= limit - first
}

fn accepts(word: WordSize, src: (usize, usize), dst: (usize, usize)) -> (fine: bool)
    ensures
        fine == acceptable(word, src, dst),
{
    let bytes: usize = word.bytes();
    src.1 <= dst.1 && src.1 % bytes == 0 && src.1 / bytes <= MAX_WORDS && reaches(src.0, src.1)
        && reaches(dst.0, dst.1)
}

struct TransferInner<R, W> {
    dma: Dma,
    src: R,
    dst: W,
}

impl<R, W> TransferInner<R, W> {
    fn stop(&mut self)
        ensures
            final(self).dma@ == old(self).dma@ + stop_sequence(),
            final(self).src == old(self).src,
            final(self).dst == old(self).dst,
    {
        self.dma.disable();
        self.dma.acquire_fence();
        assert(self.dma@ =~= old(self).dma@ + stop_sequence());
    }
}

/// An armed transfer: the channel and both buffers, held until the transfer
/// ends.
///
/// End it with [`wait`](Transfer::wait) or [`cancel`](Transfer::cancel).
/// Dropping it queues nothing, so the channel would stay switched on while
/// the buffers are freed.
#[must_use]
pub struct Transfer<R, W> {
    inner: TransferInner<R, W>,
}

/// Both buffers of a transfer that was cancelled or has failed, kept alive
/// until the channel is off.
///
/// The engine only queues the operations that switch the channel off; until
/// the driver has carried them out the channel may still read and write the
/// buffers. So the buffers are not freed when such a transfer ends: they
/// come back in this value, which gives no access to them. Carry out the
/// queue first, then drop it.
#[must_use]
pub struct Held<R, W> {
    src: R,
    dst: W,
}

impl<R, W> Held<R, W> {
    /// The source buffer that is kept.
    pub closed spec fn source(&self) -> R {
        self.src
    }

    /// The destination buffer that is kept.
    pub closed spec fn destination(&self) -> W {
        self.dst
    }
}

/// Where a transfer stands after a reading of the status flags.
#[must_use]
pub enum Wait<R, W> {
    /// Neither flag is set. The transfer is handed back, still armed.
    Pending(Transfer<R, W>),
    /// The channel completed. The channel handle and both buffers are handed
    /// back. Carry out what is queued on the handle before looking at the
    /// destination: the acquire fence is part of it.
    Finished(Dma, R, W),
    /// The channel failed. The channel handle is handed back, and both
    /// buffers are kept alive until the queue on the handle has been carried
    /// out. They are not handed back for use: what the destination holds is
    /// not defined.
    Faulted(Dma, Held<R, W>, TransferError),
}

impl<R: DmaReadBuffer, W: DmaWriteBuffer> Transfer<R, W> {
    /// The channel handle held by the transfer.
    pub closed spec fn controller(&self) -> Dma {
        self.inner.dma
    }

    /// The source buffer held by the transfer.
    pub closed spec fn source(&self) -> R {
        self.inner.src
    }

    /// The destination buffer held by the transfer.
    pub closed spec fn destination(&self) -> W {
        self.inner.dst
    }

    /// Arms a transfer from `src` to `dst`, taking the channel out of `dma`.
    ///
    /// Fails with [`TransferError::ContractViolation`] if the buffers are
    /// not [`acceptable`], which a destination with fewer bytes than the
    /// source never is, and otherwise with
    /// [`TransferError::ResourceContention`] if `dma` is empty. A failed
    /// start queues nothing and leaves `dma` as it was. Starting looks at
    /// the views of the buffers alone and leaves both buffers as they were.
    ///
    /// Both buffers must live for the rest of the program, so that the
    /// memory stays valid even if the transfer is leaked while armed.
    pub fn start(dma: &mut Option<Dma>, src: R, dst: W) -> (started: Result<Self, TransferError>)
        where R: 'static, W: 'static
        ensures
            match started {
                Ok(transfer) => {
                    &&& refusal(
                        R::Word::spec_word_size(),
                        src.read_view(),
                        dst.write_view(),
                        *old(dma) is Some,
                    ) is None
                    &&& *final(dma) is None
                    &&& transfer.controller()@ == old(dma)->0@ + arm_sequence(
                        R::Word::spec_word_size(),
                        src.read_view(),
                        dst.write_view(),
                    )
                    &&& transfer.source() == src
                    &&& transfer.destination() == dst
                },
                Err(error) => {
                    &&& refusal(
                        R::Word::spec_word_size(),
                        src.read_view(),
                        dst.write_view(),
                        *old(dma) is Some,
                    ) == Some(error)
                    &&& *final(dma) == *old(dma)
                },
            },
    {
        Self::start_nonstatic(dma, src, dst)
    }

    /// Arms a transfer like [`start`](Transfer::start), on buffers that need
    /// not live for the rest of the program.
    ///
    /// # Safety
    ///
    /// This is not safe to call on a short-lived buffer unless the caller
    /// makes sure that the returned transfer is ended by
    /// [`wait`](Transfer::wait) or [`cancel`](Transfer::cancel) before the
    /// memory goes away. A transfer that is leaked while armed leaves the
    /// channel writing to memory that may since belong to something else.
    pub fn start_nonstatic(dma: &mut Option<Dma>, src: R, dst: W) -> (started: Result<
        Self,
        TransferError,
    >)
        ensures
            match started {
                Ok(transfer) => {
                    &&& refusal(
                        R::Word::spec_word_size(),
                        src.read_view(),
                        dst.write_view(),
                        *old(dma) is Some,
                    ) is None
                    &&& *final(dma) is None
                    &&& transfer.controller()@ == old(dma)->0@ + arm_sequence(
                        R::Word::spec_word_size(),
                        src.read_view(),
                        dst.write_view(),
                    )
                    &&& transfer.source() == src
                    &&& transfer.destination() == dst
                },
                Err(error) => {
                    &&& refusal(
                        R::Word::spec_word_size(),
                        src.read_view(),
                        dst.write_view(),
                        *old(dma) is Some,
                    ) == Some(error)
                    &&& *final(dma) == *old(dma)
                },
            },
    {
        let mut dst = dst;
        let src_view = src.dma_read_buffer();
        let dst_view = dst.dma_write_buffer();
        let word = R::Word::word_size();
        if !accepts(word, src_view, dst_view) {
            return Err(TransferError::ContractViolation);
        }
        let mut channel = match dma.take() {
            Some(channel) => channel,
            None => {
                return Err(TransferError::ResourceContention);
            },
        };
        let ghost queued = channel@;
        let words: usize = src_view.1 / word.bytes();
        assert(src_view.0 <= u32::MAX && dst_view.0 <= u32::MAX && words <= u16::MAX);

        channel.set_word_size(word);
        channel.set_paddr(src_view.0 as u32);
        channel.set_maddr(dst_view.0 as u32);
        channel.set_ndt(words as u16);
        channel.release_fence();
        channel.enable();

        assert(channel@ =~= queued + arm_sequence(word, src_view, dst_view));
        Ok(Transfer { inner: TransferInner { dma: channel, src, dst } })
    }

    /// Hands the operations queued so far to the driver, oldest first.
    pub fn take_pending(&mut self) -> (commands: Vec<Command>)
        ensures
            commands@ == old(self).controller()@,
            final(self).controller()@ == Seq::<Command>::empty(),
            final(self).source() == old(self).source(),
            final(self).destination() == old(self).destination(),
    {
        self.inner.dma.take_pending()
    }

    /// Takes one reading of the channel's status flags and says where the
    /// transfer stands.
    ///
    /// With the completion flag set the transfer is finished, whatever the
    /// error flag says. With the error flag set alone it has failed. In both
    /// cases the operations of [`stop_sequence`] are queued on the channel
    /// handle that comes back, and neither buffer is freed: the channel is
    /// on until the driver has carried the queue out. With neither flag set
    /// nothing is queued and the transfer comes back unchanged, to be asked
    /// again.
    ///
    /// The destination comes back with the view it had. Nothing is said of
    /// what it holds: the channel wrote to it.
    pub fn wait(self, complete: bool, error: bool) -> (outcome: Wait<R, W>)
        ensures
            match outcome {
                Wait::Pending(transfer) => verdict(complete, error) is None && transfer == self,
                Wait::Finished(dma, src, dst) => {
                    &&& verdict(complete, error) == Some(Ok::<(), TransferError>(()))
                    &&& dma@ == self.controller()@ + stop_sequence()
                    &&& src == self.source()
                    &&& dst.write_view() == self.destination().write_view()
                },
                Wait::Faulted(dma, held, fault) => {
                    &&& verdict(complete, error) == Some(Err::<(), TransferError>(fault))
                    &&& dma@ == self.controller()@ + stop_sequence()
                    &&& held.source() == self.source()
                    &&& held.destination().write_view() == self.destination().write_view()
                },
            },
    {
        if complete {
            let mut inner = self.inner;
            inner.stop();
            Wait::Finished(inner.dma, inner.src, inner.dst)
        } else if error {
            let mut inner = self.inner;
            inner.stop();
            Wait::Faulted(
                inner.dma,
                Held { src: inner.src, dst: inner.dst },
                TransferError::HardwareFault,
            )
        } else {
            Wait::Pending(self)
        }
    }

    /// Ends an armed transfer without waiting for the channel.
    ///
    /// The operations of [`stop_sequence`] are queued on the channel handle
    /// that comes back. Both buffers come back with it, kept alive and out
    /// of reach: the channel is on until the driver has carried the queue
    /// out, and only then may the buffers be freed.
    pub fn cancel(self) -> (ended: (Dma, Held<R, W>))
        ensures
            ended.0@ == self.controller()@ + stop_sequence(),
            ended.1.source() == self.source(),
            ended.1.destination().write_view() == self.destination().write_view(),
    {
        let mut inner = self.inner;
        inner.stop();
        (inner.dma, Held { src: inner.src, dst: inner.dst })
    }
}

} // verus!
