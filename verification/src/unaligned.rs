//! Single-shot comparison of two borrowed buffers.
//!
//! Each buffer holds the components of a vector followed by one more word,
//! the vector's magnitude, computed elsewhere. Nothing is copied and nothing
//! is kept: what this module hands out borrows from the buffers it was
//! given, so none of it can outlive them.

use crate::kernel::plan_for;
use crate::kernel::selected_plan;
use crate::kernel::KernelError;
use crate::kernel::Plan;
use vstd::prelude::*;
use vstd::slice::slice_subrange;

verus! {

/// Why two buffers cannot be compared.
#[derive(Clone, Copy, Debug, PartialEq, Eq, Structural)]
pub enum BufferError {
    /// The buffers differ in length.
    LengthMismatch { left: usize, right: usize },
    /// The buffers are empty, so neither carries a magnitude.
    Empty,
}

/// The two operands of a cosine similarity, taken apart.
#[derive(Debug)]
pub struct Operands<'a> {
    /// Components of the first vector.
    pub left: &'a [u32],
    /// Components of the second vector.
    pub right: &'a [u32],
    /// Magnitude of the first vector.
    pub left_magnitude: u32,
    /// Magnitude of the second vector.
    pub right_magnitude: u32,
    /// Kernel for the dot product of the components.
    pub plan: Plan,
}

/// Splits a buffer into its components and its trailing magnitude. An empty
/// buffer has neither.
pub fn split_magnitude(buffer: &[u32]) -> (r: Option<(&[u32], u32)>)
    ensures
        match r {
            None => buffer@.len() == 0,
            Some((components, magnitude)) => {
                &&& buffer@.len() > 0
                &&& components@ == buffer@.drop_last()
                &&& magnitude == buffer@.last()
            },
        },
{
    let len: usize = buffer.len();
    if len == 0 {
        None
    } else {
        let components = slice_subrange(buffer, 0, len - 1);
        assert(components@ =~= buffer@.drop_last());
        Some((components, buffer[len - 1]))
    }
}

/// Takes two buffers apart for a cosine similarity: the dot product of the
/// two component sequences, divided by the product of the two magnitudes.
///
/// The buffers must be equally long and not empty. The components may have
/// any length; the kernel for them is picked by that length, so irregular
/// lengths fall back to the scalar kernel.
pub fn cosine_operands<'a>(one: &'a [u32], another: &'a [u32]) -> (r: Result<
    Operands<'a>,
    BufferError,
>)
    ensures
        match r {
            Ok(operands) => {
                &&& one@.len() == another@.len()
                &&& one@.len() > 0
                &&& operands.left@ == one@.drop_last()
                &&& operands.right@ == another@.drop_last()
                &&& operands.left_magnitude == one@.last()
                &&& operands.right_magnitude == another@.last()
                &&& Ok::<Plan, KernelError>(operands.plan) == selected_plan(
                    (one.len() - 1) as usize,
                    (one.len() - 1) as usize,
                )
            },
            Err(BufferError::LengthMismatch { left, right }) => {
                &&& left == one.len()
                &&& right == another.len()
                &&& left != right
            },
            Err(BufferError::Empty) => one@.len() == 0 && another@.len() == 0,
        },
{
    if one.len() != another.len() {
        return Err(BufferError::LengthMismatch { left: one.len(), right: another.len() });
    }
    match (split_magnitude(one), split_magnitude(another)) {
        (Some((left, left_magnitude)), Some((right, right_magnitude))) => {
            let plan = plan_for(left.len());
            Ok(Operands { left, right, left_magnitude, right_magnitude, plan })
        },
        _ => Err(BufferError::Empty),
    }
}

} // verus!
