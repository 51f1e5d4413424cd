//! What the queued operations amount to.
//!
//! The engine's contracts say which operations are queued. The lemmas here
//! say what those operations do to the channel's registers, that the fences
//! sit where they must, and that a channel which moves what it was told to
//! move leaves the source's bytes in the destination.

use crate::dma::{Command, Registers};
use crate::traits::WordSize;
use crate::transfer::{
    acceptable, arm_sequence, reachable, refusal, stop_sequence, word_count, TransferError,
    MAX_WORDS,
};
use vstd::prelude::*;

verus! {

/// Running a sequence and then one more operation is running the sequence
/// with the operation pushed onto it.
pub proof fn lemma_run_push(registers: Registers, commands: Seq<Command>, command: Command)
    ensures
        registers.run(commands.push(command)) == registers.run(commands).step(command),
{
    assert(commands.push(command).drop_last() =~= commands);
}

/// Running two sequences one after the other is running their
/// concatenation.
pub proof fn lemma_run_concat(registers: Registers, first: Seq<Command>, second: Seq<Command>)
    ensures
        registers.run(first + second) == registers.run(first).run(second),
    decreases second.len(),
{
    if second.len() == 0 {
        assert(first + second =~= first);
    } else {
        lemma_run_concat(registers, first, second.drop_last());
        assert((first + second).drop_last() =~= first + second.drop_last());
    }
}

/// Whatever was queued before and whatever the registers held, once the
/// operations of [`arm_sequence`] have been carried out the channel is
/// switched on and programmed with the word width, the two addresses and
/// the number of words in the source, and both status flags are clear.
pub proof fn lemma_armed_registers(
    registers: Registers,
    queued: Seq<Command>,
    word: WordSize,
    src: (usize, usize),
    dst: (usize, usize),
)
    ensures
        registers.run(queued + arm_sequence(word, src, dst)) == (Registers {
            word,
            source: src.0 as u32,
            destination: dst.0 as u32,
            length: word_count(word, src) as u16,
            enabled: true,
            complete: false,
            error: false,
        }),
{
    let before = registers.run(queued);
    let length = word_count(word, src) as u16;
    let s0 = Seq::<Command>::empty();
    let s1 = s0.push(Command::SetWordSize(word));
    let s2 = s1.push(Command::SetSourceAddress(src.0 as u32));
    let s3 = s2.push(Command::SetDestinationAddress(dst.0 as u32));
    let s4 = s3.push(Command::SetLength(length));
    let s5 = s4.push(Command::ReleaseFence);
    let s6 = s5.push(Command::Enable);
    assert(s6 =~= arm_sequence(word, src, dst));
    lemma_run_concat(registers, queued, s6);
    lemma_run_push(before, s0, Command::SetWordSize(word));
    lemma_run_push(before, s1, Command::SetSourceAddress(src.0 as u32));
    lemma_run_push(before, s2, Command::SetDestinationAddress(dst.0 as u32));
    lemma_run_push(before, s3, Command::SetLength(length));
    lemma_run_push(before, s4, Command::ReleaseFence);
    lemma_run_push(before, s5, Command::Enable);
}

/// A buffer that is a whole number of words has as many bytes as its words
/// have together.
pub proof fn lemma_whole_words(word: WordSize, view: (usize, usize))
    requires
        view.1 as int % word.spec_bytes() as int == 0,
    ensures
        word_count(word, view) * word.spec_bytes() == view.1,
{
    let words = word_count(word, view);
    assert(words * word.spec_bytes() == view.1) by (nonlinear_arith)
        requires
            words == view.1 as int / word.spec_bytes() as int,
            view.1 as int % word.spec_bytes() as int == 0,
            word.spec_bytes() > 0,
    ;
}

/// A transfer that starts is armed with what its buffers are: the registers
/// hold the source's address, the destination's address and the source's
/// length in words, none of them cut short, and the channel is to move
/// exactly the bytes of the source. No flag of an earlier transfer is left
/// standing.
pub proof fn lemma_armed_as_given(
    registers: Registers,
    queued: Seq<Command>,
    word: WordSize,
    src: (usize, usize),
    dst: (usize, usize),
)
    requires
        acceptable(word, src, dst),
    ensures
        ({
            let armed = registers.run(queued + arm_sequence(word, src, dst));
            &&& armed.enabled
            &&& !armed.complete
            &&& !armed.error
            &&& armed.word == word
            &&& armed.source == src.0
            &&& armed.destination == dst.0
            &&& armed.length == word_count(word, src)
            &&& armed.byte_count() == src.1
        }),
{
    lemma_armed_registers(registers, queued, word, src, dst);
    lemma_whole_words(word, src);
}

/// Whatever was queued before and whatever the registers held, once the
/// operations of [`stop_sequence`] have been carried out the channel is
/// switched off, and nothing else in the registers has changed: the status
/// flags stand as the channel left them.
pub proof fn lemma_stopped_registers(registers: Registers, queued: Seq<Command>)
    ensures
        registers.run(queued + stop_sequence()) == (Registers {
            enabled: false,
            ..registers.run(queued)
        }),
{
    let before = registers.run(queued);
    let s0 = Seq::<Command>::empty();
    let s1 = s0.push(Command::Disable);
    let s2 = s1.push(Command::AcquireFence);
    assert(s2 =~= stop_sequence());
    lemma_run_concat(registers, queued, s2);
    lemma_run_push(before, s0, Command::Disable);
    lemma_run_push(before, s1, Command::AcquireFence);
}

/// The fences are in place: a release fence stands directly before every
/// operation that switches the channel on, and an acquire fence directly
/// after every operation that switches it off.
pub open spec fn fenced(commands: Seq<Command>) -> bool {
    &&& forall|i: int|
        0 <= i < commands.len() && #[trigger] commands[i] == Command::Enable ==> i > 0
            && commands[i - 1] == Command::ReleaseFence
    &&& forall|i: int|
        0 <= i < commands.len() && #[trigger] commands[i] == Command::Disable ==> i + 1
            < commands.len() && commands[i + 1] == Command::AcquireFence
}

/// Two sequences with their fences in place give a sequence with its fences
/// in place when one follows the other.
pub proof fn lemma_fenced_concat(first: Seq<Command>, second: Seq<Command>)
    requires
        fenced(first),
        fenced(second),
    ensures
        fenced(first + second),
{
    let both = first + second;
    assert forall|i: int| 0 <= i < both.len() && #[trigger] both[i] == Command::Enable implies i > 0
        && both[i - 1] == Command::ReleaseFence by {
        if i < first.len() {
            assert(first[i] == Command::Enable);
        } else {
            assert(second[i - first.len()] == Command::Enable);
        }
    }
    assert forall|i: int|
        0 <= i < both.len() && #[trigger] both[i] == Command::Disable implies i + 1 < both.len()
            && both[i + 1] == Command::AcquireFence by {
        if i < first.len() {
            assert(first[i] == Command::Disable);
        } else {
            assert(second[i - first.len()] == Command::Disable);
        }
    }
}

/// Arming and stopping keep the fences in place: if the operations queued
/// before had theirs, so has the queue after a transfer was armed, and so
/// has the queue after it was stopped.
pub proof fn lemma_engine_keeps_fences(
    queued: Seq<Command>,
    word: WordSize,
    src: (usize, usize),
    dst: (usize, usize),
)
    requires
        fenced(queued),
    ensures
        fenced(queued + arm_sequence(word, src, dst)),
        fenced(queued + stop_sequence()),
        fenced(queued + arm_sequence(word, src, dst) + stop_sequence()),
{
    assert(fenced(arm_sequence(word, src, dst)));
    assert(fenced(stop_sequence()));
    lemma_fenced_concat(queued, arm_sequence(word, src, dst));
    lemma_fenced_concat(queued, stop_sequence());
    lemma_fenced_concat(queued + arm_sequence(word, src, dst), stop_sequence());
}

/// A destination with fewer bytes than the source is always refused,
/// whether or not the channel is free, whatever the word width and whatever
/// the addresses. A transfer is refused for its buffers exactly when they
/// are not [`acceptable`]; a source of no bytes within reach is never the
/// reason.
pub proof fn lemma_length_guard(
    word: WordSize,
    src: (usize, usize),
    dst: (usize, usize),
    available: bool,
)
    ensures
        dst.1 < src.1 ==> refusal(word, src, dst, available) == Some(
            TransferError::ContractViolation,
        ),
        refusal(word, src, dst, available) == Some(TransferError::ContractViolation)
            <==> !acceptable(word, src, dst),
        src.1 == 0 && reachable(src) && reachable(dst) ==> acceptable(word, src, dst),
{
}

/// No transfer is armed with a length other than that of its source: a
/// source of more words than the length register holds is refused, and so
/// is one that is not a whole number of words.
pub proof fn lemma_length_never_cut(
    word: WordSize,
    src: (usize, usize),
    dst: (usize, usize),
    available: bool,
)
    ensures
        word_count(word, src) > MAX_WORDS ==> refusal(word, src, dst, available) == Some(
            TransferError::ContractViolation,
        ),
        src.1 as int % word.spec_bytes() as int != 0 ==> refusal(word, src, dst, available)
            == Some(TransferError::ContractViolation),
        refusal(word, src, dst, available) is None ==> word_count(word, src) as u16 as int
            * word.spec_bytes() == src.1,
{
    if refusal(word, src, dst, available) is None {
        lemma_whole_words(word, src);
    }
}

/// Ending a transfer frees the channel for the next one.
///
/// Whatever the registers held and whatever was queued, the operations of
/// [`stop_sequence`] leave the channel switched off. With the handle back in
/// its place the channel is available, and a transfer on acceptable buffers
/// is not refused.
pub proof fn lemma_stop_frees_channel(
    registers: Registers,
    queued: Seq<Command>,
    word: WordSize,
    src: (usize, usize),
    dst: (usize, usize),
)
    ensures
        !registers.run(queued + stop_sequence()).enabled,
        refusal(word, src, dst, true) != Some(TransferError::ResourceContention),
        acceptable(word, src, dst) ==> refusal(word, src, dst, true) is None,
{
    lemma_stopped_registers(registers, queued);
}

/// The byte of `memory` at `offset` bytes past `base`.
pub open spec fn byte_at(memory: Map<int, u8>, base: int, offset: int) -> u8 {
    memory[base + offset]
}

/// The bytes of `memory` that a view covers, in address order.
pub open spec fn region(memory: Map<int, u8>, view: (usize, usize)) -> Seq<u8> {
    Seq::new(view.1 as nat, |offset: int| byte_at(memory, view.0 as int, offset))
}

/// The channel moved what it was told to move, and nothing else: every byte
/// in the range it was to write holds, in `after`, what the matching byte of
/// the range it was to read held in `before`, and every byte outside the
/// range it was to write is as it was.
///
/// This is what the hardware does when it completes a transfer between
/// ranges that do not overlap. It is a statement about the channel, not
/// about this library.
pub open spec fn delivered(before: Map<int, u8>, after: Map<int, u8>, registers: Registers) -> bool {
    &&& forall|offset: int|
        0 <= offset < registers.byte_count() ==> #[trigger] byte_at(
            after,
            registers.destination as int,
            offset,
        ) == byte_at(before, registers.source as int, offset)
    &&& forall|base: int, offset: int|
        !(registers.destination <= base + offset < registers.destination
            + registers.byte_count()) ==> #[trigger] byte_at(after, base, offset) == byte_at(
            before,
            base,
            offset,
        )
}

/// Two buffers with these views share no byte.
pub open spec fn disjoint(first: (usize, usize), second: (usize, usize)) -> bool {
    first.0 + first.1 <= second.0 || second.0 + second.1 <= first.0
}

/// A transfer between buffers of equal length leaves the source's bytes in
/// the destination.
///
/// Take a source and a destination of the same length on which a transfer
/// starts when the channel is free, arm the channel as [`arm_sequence`]
/// says, and let the channel move what it was told to move, from memory
/// `before` to memory `after`. Then the destination's region of `after`
/// equals the source's region of `before`, byte for byte. If the two buffers
/// share no byte, which exclusive access to the destination sees to, the
/// source's region is what it was.
pub proof fn lemma_round_trip(
    registers: Registers,
    queued: Seq<Command>,
    word: WordSize,
    src: (usize, usize),
    dst: (usize, usize),
    before: Map<int, u8>,
    after: Map<int, u8>,
)
    requires
        src.1 == dst.1,
        refusal(word, src, dst, true) is None,
        delivered(before, after, registers.run(queued + arm_sequence(word, src, dst))),
    ensures
        region(after, dst) == region(before, src),
        disjoint(src, dst) ==> region(after, src) == region(before, src),
{
    lemma_armed_as_given(registers, queued, word, src, dst);
    let armed = registers.run(queued + arm_sequence(word, src, dst));
    assert forall|offset: int| 0 <= offset < dst.1 implies #[trigger] region(after, dst)[offset]
        == region(before, src)[offset] by {
        assert(byte_at(after, armed.destination as int, offset) == byte_at(
            before,
            armed.source as int,
            offset,
        ));
    }
    assert(region(after, dst) =~= region(before, src));
    if disjoint(src, dst) {
        assert forall|offset: int| 0 <= offset < src.1 implies #[trigger] region(after, src)[offset]
            == region(before, src)[offset] by {
            assert(byte_at(after, src.0 as int, offset) == byte_at(before, src.0 as int, offset));
        }
        assert(region(after, src) =~= region(before, src));
    }
}

} // verus!
