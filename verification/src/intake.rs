//! Byte-at-a-time intake of a hexadecimal identifier from a serial stream.
//!
//! Hex digits are collected in a buffer of eight bytes; a line feed ends the
//! line and has the collected digits parsed. Every other byte is dropped.

use vstd::prelude::*;
use crate::buffer::{buffer_bytes, buffer_clear, buffer_new, buffer_push, buffered, CAPACITY};
use crate::hex::{
    all_hex,
    hex_value,
    is_hex,
    is_hex_digit,
    lemma_short_value_fits,
    parse_hex,
    parsed,
};

verus! {

/// Number of hex digits the intake buffer can hold.
pub const HEX_CAPACITY: usize = CAPACITY;

/// The byte that ends a line: ASCII line feed.
pub const TERMINATOR: u8 = 0x0A;

/// What feeding one byte to the intake led to.
#[derive(Clone, Copy, Debug, PartialEq, Eq, Structural)]
pub enum IntakeOutcome {
    /// The line goes on: a digit was stored or the byte was dropped.
    Pending,
    /// A line ended with no digit on it. This is not an error.
    NoValue,
    /// A line ended and its digits parsed to this value.
    Value(u16),
    /// A line ended and its digits are worth more than 16 bits hold.
    FormatError,
    /// A ninth digit arrived before the end of the line.
    Overflow,
}

/// One step of the intake: the outcome of feeding `byte` while `held` is
/// buffered, and what is buffered afterwards.
pub open spec fn intake_step(held: Seq<u8>, byte: u8) -> (IntakeOutcome, Seq<u8>) {
    if is_hex_digit(byte) {
        if held.len() < HEX_CAPACITY {
            (IntakeOutcome::Pending, held.push(byte))
        } else {
            (IntakeOutcome::Overflow, Seq::empty())
        }
    } else if byte == TERMINATOR {
        if held.len() == 0 {
            (IntakeOutcome::NoValue, Seq::empty())
        } else {
            match parsed(held) {
                Some(value) => (IntakeOutcome::Value(value), Seq::empty()),
                None => (IntakeOutcome::FormatError, Seq::empty()),
            }
        }
    } else {
        (IntakeOutcome::Pending, held)
    }
}

/// A buffer's worth of digits: at most eight bytes, each a hex digit.
pub open spec fn well_held(held: Seq<u8>) -> bool {
    held.len() <= HEX_CAPACITY && all_hex(held)
}

/// Collects the hex digits of one line and parses them at its end.
pub struct HexIdIntake {
    buffer: heapless::Vec<u8, 8>,
}

impl View for HexIdIntake {
    type V = Seq<u8>;

    /// The digits collected since the last reset, oldest first.
    closed spec fn view(&self) -> Seq<u8> {
        buffered(self.buffer)
    }
}

impl HexIdIntake {
    #[verifier::type_invariant]
    spec fn held_is_hex(self) -> bool {
        well_held(buffered(self.buffer))
    }

    /// An intake with nothing buffered.
    pub fn new() -> (intake: Self)
        ensures
            intake@ == Seq::<u8>::empty(),
    {
        HexIdIntake { buffer: buffer_new() }
    }

    /// Number of digits buffered.
    pub fn len(&self) -> (n: usize)
        ensures
            n == self@.len(),
            n <= HEX_CAPACITY,
            well_held(self@),
    {
        proof {
            use_type_invariant(self);
        }
        buffer_bytes(&self.buffer).len()
    }

    /// Consumes one byte of the stream.
    ///
    /// A hex digit is stored, unless eight are stored already: then the
    /// buffer is emptied and `Overflow` comes back at once. A line feed ends
    /// the line: the buffer is emptied, and what it held comes back as
    /// `Value`, as `FormatError` when it does not fit 16 bits, or as
    /// `NoValue` when it held nothing. Any other byte changes nothing.
    pub fn feed(&mut self, byte: u8) -> (outcome: IntakeOutcome)
        ensures
            (outcome, final(self)@) == intake_step(old(self)@, byte),
            well_held(old(self)@),
            well_held(final(self)@),
    {
        proof {
            use_type_invariant(&*self);
        }
        if is_hex(byte) {
            let ghost held = buffered(self.buffer);
            if buffer_push(&mut self.buffer, byte) {
                proof {
                    let after = held.push(byte);
                    assert forall|i: int| 0 <= i < after.len() implies is_hex_digit(
                        #[trigger] after[i],
                    ) by {
                        if i < held.len() {
                            assert(after[i] == held[i]);
                        }
                    }
                }
                IntakeOutcome::Pending
            } else {
                buffer_clear(&mut self.buffer);
                IntakeOutcome::Overflow
            }
        } else if byte == TERMINATOR {
            let value = parse_hex(buffer_bytes(&self.buffer));
            let empty = buffer_bytes(&self.buffer).len() == 0;
            buffer_clear(&mut self.buffer);
            if empty {
                IntakeOutcome::NoValue
            } else {
                match value {
                    Some(value) => IntakeOutcome::Value(value),
                    None => IntakeOutcome::FormatError,
                }
            }
        } else {
            IntakeOutcome::Pending
        }
    }
}

/// The buffer never holds anything but hex digits, and never more than
/// eight: a step keeps it so. Whenever a step reports anything, be it a
/// value, an empty line or an error, it leaves the buffer empty.
pub proof fn buffer_stays_hex(held: Seq<u8>, byte: u8)
    requires
        well_held(held),
    ensures
        well_held(intake_step(held, byte).1),
        intake_step(held, byte).0 != IntakeOutcome::Pending ==> intake_step(held, byte).1
            == Seq::<u8>::empty(),
{
    if is_hex_digit(byte) && held.len() < HEX_CAPACITY {
        let after = held.push(byte);
        assert forall|i: int| 0 <= i < after.len() implies is_hex_digit(#[trigger] after[i]) by {
            if i < held.len() {
                assert(after[i] == held[i]);
            }
        }
    }
}

/// What is buffered once the bytes of `input` were fed in turn to an intake
/// that had `held` buffered.
pub open spec fn held_after(held: Seq<u8>, input: Seq<u8>) -> Seq<u8>
    decreases input.len(),
{
    if input.len() == 0 {
        held
    } else {
        intake_step(held_after(held, input.drop_last()), input.last()).1
    }
}

/// The outcome of feeding the byte at position `at` of `input`, the bytes
/// before it having been fed in turn to an intake that had `held` buffered.
pub open spec fn outcome_at(held: Seq<u8>, input: Seq<u8>, at: int) -> IntakeOutcome {
    intake_step(held_after(held, input.take(at)), input[at]).0
}

/// The outcomes other than `Pending` that feeding `input` gives, in order:
/// what the intake reports of each line end and of each overflow.
pub open spec fn reports(held: Seq<u8>, input: Seq<u8>) -> Seq<IntakeOutcome>
    decreases input.len(),
{
    if input.len() == 0 {
        Seq::empty()
    } else {
        let before = reports(held, input.drop_last());
        let outcome = intake_step(held_after(held, input.drop_last()), input.last()).0;
        if outcome == IntakeOutcome::Pending {
            before
        } else {
            before.push(outcome)
        }
    }
}

/// A byte that the intake acts on: a hex digit or the terminator.
pub open spec fn is_significant(byte: u8) -> bool {
    is_hex_digit(byte) || byte == TERMINATOR
}

/// `input` without the bytes that the intake drops.
pub open spec fn significant(input: Seq<u8>) -> Seq<u8>
    decreases input.len(),
{
    if input.len() == 0 {
        Seq::empty()
    } else if is_significant(input.last()) {
        significant(input.drop_last()).push(input.last())
    } else {
        significant(input.drop_last())
    }
}

/// Feeding one more byte is one more step.
pub proof fn lemma_held_after_next(held: Seq<u8>, input: Seq<u8>, at: int)
    requires
        0 <= at < input.len(),
    ensures
        held_after(held, input.take(at + 1)) == intake_step(
            held_after(held, input.take(at)),
            input[at],
        ).1,
{
    assert(input.take(at + 1).drop_last() =~= input.take(at));
}

/// Feeding `first` and then `second` is feeding the two in a row.
pub proof fn lemma_held_after_concat(held: Seq<u8>, first: Seq<u8>, second: Seq<u8>)
    ensures
        held_after(held, first + second) == held_after(held_after(held, first), second),
    decreases second.len(),
{
    if second.len() == 0 {
        assert(first + second =~= first);
    } else {
        lemma_held_after_concat(held, first, second.drop_last());
        assert((first + second).drop_last() =~= first + second.drop_last());
    }
}

/// Up to eight hex digits fed to an empty intake are all held.
pub proof fn lemma_digits_are_held(digits: Seq<u8>, n: int)
    requires
        all_hex(digits),
        0 <= n <= digits.len(),
        n <= HEX_CAPACITY,
    ensures
        held_after(Seq::empty(), digits.take(n)) == digits.take(n),
    decreases n,
{
    if n == 0 {
        assert(digits.take(0) =~= Seq::<u8>::empty());
    } else {
        lemma_digits_are_held(digits, n - 1);
        lemma_held_after_next(Seq::empty(), digits, n - 1);
        assert(is_hex_digit(digits[n - 1]));
        assert(digits.take(n - 1).push(digits[n - 1]) =~= digits.take(n));
    }
}

/// A line of one to four hex digits yields the number that the digits
/// denote: each digit is taken in silence, and the terminator brings the
/// value and leaves the buffer empty.
pub proof fn short_line_yields_its_value(digits: Seq<u8>)
    requires
        1 <= digits.len() <= 4,
        all_hex(digits),
    ensures
        hex_value(digits) <= u16::MAX,
        forall|at: int|
            0 <= at < digits.len() ==> #[trigger] outcome_at(
                Seq::empty(),
                digits.push(TERMINATOR),
                at,
            ) == IntakeOutcome::Pending,
        outcome_at(Seq::empty(), digits.push(TERMINATOR), digits.len() as int)
            == IntakeOutcome::Value(hex_value(digits) as u16),
        held_after(Seq::empty(), digits.push(TERMINATOR)) == Seq::<u8>::empty(),
{
    let line = digits.push(TERMINATOR);
    let n = digits.len() as int;
    lemma_short_value_fits(digits);
    assert forall|at: int| 0 <= at < n implies #[trigger] outcome_at(Seq::empty(), line, at)
        == IntakeOutcome::Pending by {
        lemma_digits_are_held(digits, at);
        assert(line.take(at) =~= digits.take(at));
        assert(is_hex_digit(digits[at]));
    }
    lemma_digits_are_held(digits, n);
    assert(digits.take(n) =~= digits);
    assert(line.take(n) =~= digits);
    assert(line.drop_last() =~= digits);
}

/// Nine hex digits in a row overflow the buffer: the first eight are taken
/// in silence, the ninth is answered with `Overflow`, and the intake is then
/// as empty as a new one, so that whatever follows is read as by a new one.
pub proof fn ninth_digit_overflows(digits: Seq<u8>, rest: Seq<u8>)
    requires
        digits.len() == 9,
        all_hex(digits),
    ensures
        forall|at: int|
            0 <= at < 8 ==> #[trigger] outcome_at(Seq::empty(), digits + rest, at)
                == IntakeOutcome::Pending,
        outcome_at(Seq::empty(), digits + rest, 8) == IntakeOutcome::Overflow,
        held_after(Seq::empty(), digits) == Seq::<u8>::empty(),
        held_after(Seq::empty(), digits + rest) == held_after(Seq::empty(), rest),
        forall|at: int|
            0 <= at < rest.len() ==> #[trigger] outcome_at(Seq::empty(), digits + rest, 9 + at)
                == outcome_at(Seq::empty(), rest, at),
{
    let input = digits + rest;
    assert forall|at: int| 0 <= at <= 8 implies held_after(Seq::empty(), #[trigger] input.take(at))
        == digits.take(at) by {
        lemma_digits_are_held(digits, at);
        assert(input.take(at) =~= digits.take(at));
    }
    assert forall|at: int| 0 <= at < 8 implies #[trigger] outcome_at(Seq::empty(), input, at)
        == IntakeOutcome::Pending by {
        assert(held_after(Seq::empty(), input.take(at)) == digits.take(at));
        assert(is_hex_digit(digits[at]));
    }
    assert(is_hex_digit(digits[8]));
    lemma_digits_are_held(digits, 8);
    assert(digits.drop_last() =~= digits.take(8));
    lemma_held_after_concat(Seq::empty(), digits, rest);
    assert forall|at: int| 0 <= at < rest.len() implies #[trigger] outcome_at(
        Seq::empty(),
        input,
        9 + at,
    ) == outcome_at(Seq::empty(), rest, at) by {
        assert(input.take(9 + at) =~= digits + rest.take(at));
        lemma_held_after_concat(Seq::empty(), digits, rest.take(at));
    }
}

/// Bytes that are neither hex digits nor the terminator do not matter: with
/// or without them in the input, the intake reports the same values, empty
/// lines and errors in the same order and ends with the same digits
/// buffered.
pub proof fn dropped_bytes_change_nothing(held: Seq<u8>, input: Seq<u8>)
    ensures
        held_after(held, input) == held_after(held, significant(input)),
        reports(held, input) == reports(held, significant(input)),
    decreases input.len(),
{
    if input.len() > 0 {
        let before = input.drop_last();
        dropped_bytes_change_nothing(held, before);
        if is_significant(input.last()) {
            assert(significant(input).drop_last() =~= significant(before));
        }
    }
}

} // verus!
