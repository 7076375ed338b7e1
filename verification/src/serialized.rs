//! Vectors serialised as bytes.
//!
//! A serialised vector takes four bytes per word, in the byte order of the
//! machine that wrote it. Decoding turns the bytes back into words; a byte
//! sequence that is not a whole number of words is refused.

use crate::kernel::plan_for;
use crate::kernel::selected_plan;
use crate::kernel::KernelError;
use crate::kernel::Plan;
use vstd::prelude::*;

verus! {

/// Bytes per word.
pub const WORD_BYTES: usize = 4;

/// The order in which the bytes of a word are laid out.
#[derive(Clone, Copy, Debug, PartialEq, Eq, Structural)]
pub enum Endian {
    /// Least significant byte first.
    Little,
    /// Most significant byte first.
    Big,
}

/// Why a byte sequence cannot stand for the second operand of a dot product.
#[derive(Clone, Copy, Debug, PartialEq, Eq, Structural)]
pub enum SerializedError {
    /// The number of bytes is not a multiple of [`WORD_BYTES`].
    Ragged { len: usize },
    /// The bytes decode to a different number of words than the first
    /// operand has.
    LengthMismatch { left: usize, right: usize },
}

/// The word that four bytes stand for in the given byte order.
pub open spec fn word_of(b0: u8, b1: u8, b2: u8, b3: u8, endian: Endian) -> u32 {
    match endian {
        Endian::Little => (b0 + 0x100 * b1 + 0x1_0000 * b2 + 0x100_0000 * b3) as u32,
        Endian::Big => (b3 + 0x100 * b2 + 0x1_0000 * b1 + 0x100_0000 * b0) as u32,
    }
}

/// The words that a whole number of serialised words stand for.
pub open spec fn decoded(bytes: Seq<u8>, endian: Endian) -> Seq<u32> {
    Seq::new(
        (bytes.len() / WORD_BYTES as nat) as nat,
        |i: int| word_of(bytes[4 * i], bytes[4 * i + 1], bytes[4 * i + 2], bytes[4 * i + 3], endian),
    )
}

/// `u16::to_ne_bytes`: the two bytes of `value` in this machine's byte
/// order, which is either low byte first or high byte first.
#[verifier::external_body]
fn native_bytes(value: u16) -> (bytes: [u8; 2])
    ensures
        bytes@ == seq![(value % 0x100) as u8, (value / 0x100) as u8] || bytes@ == seq![
            (value / 0x100) as u8,
            (value % 0x100) as u8,
        ],
{
    value.to_ne_bytes()
}

/// This machine's byte order, found by looking at how it lays out the
/// number one.
fn native_endian() -> Endian {
    let probe = native_bytes(1);
    if probe[0] == 1 {
        Endian::Little
    } else {
        Endian::Big
    }
}

/// Puts four bytes together into one word.
pub fn word(b0: u8, b1: u8, b2: u8, b3: u8, endian: Endian) -> (w: u32)
    ensures
        w == word_of(b0, b1, b2, b3, endian),
{
    match endian {
        Endian::Little => b0 as u32 + 0x100 * (b1 as u32) + 0x1_0000 * (b2 as u32) + 0x100_0000 * (
        b3 as u32),
        Endian::Big => b3 as u32 + 0x100 * (b2 as u32) + 0x1_0000 * (b1 as u32) + 0x100_0000 * (
        b0 as u32),
    }
}

/// Decodes serialised words laid out in the given byte order.
pub fn decode(bytes: &[u8], endian: Endian) -> (r: Result<Vec<u32>, SerializedError>)
    ensures
        match r {
            Ok(words) => bytes.len() % WORD_BYTES == 0 && words@ == decoded(bytes@, endian),
            Err(e) => bytes.len() % WORD_BYTES != 0 && e == (SerializedError::Ragged {
                len: bytes.len(),
            }),
        },
{
    let len: usize = bytes.len();
    if len % WORD_BYTES != 0 {
        return Err(SerializedError::Ragged { len });
    }
    let count: usize = len / WORD_BYTES;
    let mut words: Vec<u32> = Vec::with_capacity(count);
    let mut i: usize = 0;
    while i < count
        invariant
            i <= count,
            len == bytes@.len(),
            4 * count == len,
            words@.len() == i,
            forall|j: int| 0 <= j < i ==> words@[j] == decoded(bytes@, endian)[j],
        decreases count - i,
    {
        let at: usize = 4 * i;
        words.push(word(bytes[at], bytes[at + 1], bytes[at + 2], bytes[at + 3], endian));
        i += 1;
    }
    assert(words@ =~= decoded(bytes@, endian));
    Ok(words)
}

/// Decodes serialised words laid out in this machine's byte order.
///
/// Which order that is cannot be told in advance; the result is the
/// sequence's decoding in one of the two orders, the same for every word.
pub fn decode_native(bytes: &[u8]) -> (r: Result<Vec<u32>, SerializedError>)
    ensures
        match r {
            Ok(words) => bytes.len() % WORD_BYTES == 0 && (words@ == decoded(
                bytes@,
                Endian::Little,
            ) || words@ == decoded(bytes@, Endian::Big)),
            Err(e) => bytes.len() % WORD_BYTES != 0 && e == (SerializedError::Ragged {
                len: bytes.len(),
            }),
        },
{
    match native_endian() {
        Endian::Little => decode(bytes, Endian::Little),
        Endian::Big => decode(bytes, Endian::Big),
    }
}

/// Decodes the serialised second operand of a dot product whose first
/// operand has `left` words, and picks the kernel for the pair.
///
/// A ragged byte sequence is refused first, then one that decodes to another
/// number of words than the first operand has.
pub fn decode_against(left: usize, bytes: &[u8]) -> (r: Result<(Vec<u32>, Plan), SerializedError>)
    ensures
        match r {
            Ok((words, plan)) => {
                &&& bytes.len() % WORD_BYTES == 0
                &&& left == bytes.len() / WORD_BYTES
                &&& (words@ == decoded(bytes@, Endian::Little) || words@ == decoded(
                    bytes@,
                    Endian::Big,
                ))
                &&& Ok::<Plan, KernelError>(plan) == selected_plan(left, left)
            },
            Err(SerializedError::Ragged { len }) => {
                &&& len == bytes.len()
                &&& len % WORD_BYTES != 0
            },
            Err(SerializedError::LengthMismatch { left: l, right: r }) => {
                &&& bytes.len() % WORD_BYTES == 0
                &&& l == left
                &&& r == bytes.len() / WORD_BYTES
                &&& l != r
            },
        },
{
    match decode_native(bytes) {
        Err(e) => Err(e),
        Ok(words) => {
            assert(words@.len() == bytes.len() / WORD_BYTES);
            if words.len() != left {
                Err(SerializedError::LengthMismatch { left, right: words.len() })
            } else {
                Ok((words, plan_for(left)))
            }
        },
    }
}

} // verus!
