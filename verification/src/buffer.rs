//! The buffer of at most eight bytes, kept without heap allocation in a
//! `heapless::Vec<u8, 8>`, that holds the digits of a line and the payload
//! of a frame.

use vstd::prelude::*;

verus! {

/// Number of bytes the buffer can hold.
pub const CAPACITY: usize = 8;

#[verifier::external_type_specification]
#[verifier::external_body]
#[verifier::reject_recursive_types(T)]
pub struct ExHeaplessVec<T, const N: usize>(heapless::Vec<T, N>);

/// The bytes held by a buffer, oldest first.
pub uninterp spec fn buffered(buffer: heapless::Vec<u8, 8>) -> Seq<u8>;

/// `heapless::Vec::new`: a buffer that holds nothing.
#[verifier::external_body]
pub(crate) fn buffer_new() -> (buffer: heapless::Vec<u8, 8>)
    ensures
        buffered(buffer) == Seq::<u8>::empty(),
{
    heapless::Vec::new()
}

/// `heapless::Vec::push`: appends `byte` while fewer than eight bytes are
/// held; once eight are, the byte is refused and the buffer stays as it was.
/// It does not panic.
#[verifier::external_body]
pub(crate) fn buffer_push(buffer: &mut heapless::Vec<u8, 8>, byte: u8) -> (pushed: bool)
    ensures
        pushed == (buffered(*old(buffer)).len() < 8),
        pushed ==> buffered(*final(buffer)) == buffered(*old(buffer)).push(byte),
        !pushed ==> buffered(*final(buffer)) == buffered(*old(buffer)),
    no_unwind
{
    buffer.push(byte).is_ok()
}

/// `heapless::Vec::clear`: removes every byte. It does not panic.
#[verifier::external_body]
pub(crate) fn buffer_clear(buffer: &mut heapless::Vec<u8, 8>)
    ensures
        buffered(*final(buffer)) == Seq::<u8>::empty(),
    no_unwind
{
    buffer.clear()
}

/// `heapless::Vec::as_slice`: the held bytes, oldest first.
#[verifier::external_body]
pub(crate) fn buffer_bytes(buffer: &heapless::Vec<u8, 8>) -> (bytes: &[u8])
    ensures
        bytes@ == buffered(*buffer),
{
    buffer.as_slice()
}

/// A buffer that holds the bytes of `bytes`, where they are at most eight.
pub(crate) fn buffer_from(bytes: &[u8]) -> (buffer: Option<heapless::Vec<u8, 8>>)
    ensures
        buffer is Some <==> bytes@.len() <= CAPACITY,
        buffer is Some ==> buffered(buffer.unwrap()) == bytes@,
{
    if bytes.len() > CAPACITY {
        return None;
    }
    let mut buffer = buffer_new();
    let mut n: usize = 0;
    while n < bytes.len()
        invariant
            n <= bytes.len() <= CAPACITY,
            buffered(buffer) == bytes@.take(n as int),
        decreases bytes.len() - n,
    {
        let pushed = buffer_push(&mut buffer, bytes[n]);
        proof {
            assert(pushed);
            assert(bytes@.take(n as int).push(bytes@[n as int]) =~= bytes@.take(n + 1));
        }
        n = n + 1;
    }
    proof {
        assert(bytes@.take(n as int) =~= bytes@);
    }
    Some(buffer)
}

} // verus!
