//! Choice and validation of the dot-product kernel.
//!
//! A dot product is computed by one of a small closed set of kernels. Each
//! kernel walks both operands in consecutive chunks of a fixed number of
//! lanes, multiplies the chunks lane by lane into a running lane-wise sum and
//! finally folds the lanes into one value. This module decides which kernel
//! may run on operands of given lengths and how many chunks it will visit;
//! the arithmetic itself is done by whoever executes the plan.

use vstd::prelude::*;

verus! {

/// The number of values a kernel handles side by side.
#[derive(Clone, Copy, Debug, PartialEq, Eq, Structural)]
pub enum LaneWidth {
    /// One value at a time: the fallback for irregular lengths.
    Scalar,
    /// Four lanes.
    Four,
    /// Eight lanes.
    Eight,
    /// Sixteen lanes.
    Sixteen,
}

/// Why a pair of operands cannot be handed to a kernel.
#[derive(Clone, Copy, Debug, PartialEq, Eq, Structural)]
pub enum KernelError {
    /// The operands differ in length.
    LengthMismatch { left: usize, right: usize },
    /// The common length is not a whole number of chunks.
    NotLaneMultiple { len: usize, lanes: usize },
}

/// A kernel together with the number of chunks it visits.
#[derive(Clone, Copy, Debug, PartialEq, Eq, Structural)]
pub struct Plan {
    pub width: LaneWidth,
    pub chunks: usize,
}

impl LaneWidth {
    /// Lanes per chunk.
    pub open spec fn lanes(self) -> nat {
        match self {
            LaneWidth::Scalar => 1,
            LaneWidth::Four => 4,
            LaneWidth::Eight => 8,
            LaneWidth::Sixteen => 16,
        }
    }

    /// Lanes per chunk.
    pub fn lane_count(self) -> (n: usize)
        ensures
            n == self.lanes(),
    {
        match self {
            LaneWidth::Scalar => 1,
            LaneWidth::Four => 4,
            LaneWidth::Eight => 8,
            LaneWidth::Sixteen => 16,
        }
    }
}

impl Plan {
    /// Number of values of each operand that the plan covers.
    pub open spec fn covered(self) -> nat {
        self.chunks as nat * self.width.lanes()
    }
}

/// The widest kernel whose chunks divide `len` evenly.
pub open spec fn widest_for(len: usize) -> LaneWidth {
    if len % 16 == 0 {
        LaneWidth::Sixteen
    } else if len % 8 == 0 {
        LaneWidth::Eight
    } else if len % 4 == 0 {
        LaneWidth::Four
    } else {
        LaneWidth::Scalar
    }
}

/// What a kernel of a given width does with operands of the given lengths.
pub open spec fn fixed_plan(width: LaneWidth, left: usize, right: usize) -> Result<
    Plan,
    KernelError,
> {
    if left != right {
        Err(KernelError::LengthMismatch { left, right })
    } else if left as nat % width.lanes() != 0 {
        Err(KernelError::NotLaneMultiple { len: left, lanes: width.lanes() as usize })
    } else {
        Ok(Plan { width, chunks: (left as nat / width.lanes()) as usize })
    }
}

/// What the length-driven choice of kernel does with operands of the given
/// lengths.
pub open spec fn selected_plan(left: usize, right: usize) -> Result<Plan, KernelError> {
    fixed_plan(widest_for(left), left, right)
}

/// Picks the widest kernel whose chunks divide `len` evenly, falling back to
/// the scalar kernel when none of the wide ones does.
pub fn select(len: usize) -> (width: LaneWidth)
    ensures
        width == widest_for(len),
{
    if len % 16 == 0 {
        LaneWidth::Sixteen
    } else if len % 8 == 0 {
        LaneWidth::Eight
    } else if len % 4 == 0 {
        LaneWidth::Four
    } else {
        LaneWidth::Scalar
    }
}

/// Validates operands of lengths `left` and `right` for the kernel of the
/// given width.
///
/// The operands are accepted exactly when they are equally long and that
/// length is a multiple of the lane count; a length mismatch is reported in
/// preference to a ragged length.
pub fn plan_fixed(width: LaneWidth, left: usize, right: usize) -> (r: Result<Plan, KernelError>)
    ensures
        r == fixed_plan(width, left, right),
        r matches Ok(p) ==> p.covered() == left && p.covered() == right,
{
    let lanes: usize = width.lane_count();
    if left != right {
        Err(KernelError::LengthMismatch { left, right })
    } else if left % lanes != 0 {
        Err(KernelError::NotLaneMultiple { len: left, lanes })
    } else {
        let chunks: usize = left / lanes;
        proof {
            lemma_fixed_plan_covers(width, left, right);
        }
        Ok(Plan { width, chunks })
    }
}

/// Picks the kernel for two operands that are both `len` long. Such operands
/// are never refused: a length that no wide kernel divides gets the scalar
/// one.
pub fn plan_for(len: usize) -> (p: Plan)
    ensures
        Ok::<Plan, KernelError>(p) == selected_plan(len, len),
        p.covered() == len,
{
    let width = select(len);
    let chunks: usize = len / width.lane_count();
    proof {
        lemma_selection_divides(len);
        lemma_fixed_plan_covers(width, len, len);
    }
    Plan { width, chunks }
}

/// Validates operands of lengths `left` and `right` and picks their kernel by
/// length.
///
/// Because the scalar kernel takes any length, the only way to fail is a
/// length mismatch.
pub fn plan(left: usize, right: usize) -> (r: Result<Plan, KernelError>)
    ensures
        r == selected_plan(left, right),
        left != right <==> r == Err::<Plan, KernelError>(KernelError::LengthMismatch { left, right }),
        left == right <==> r is Ok,
        r matches Ok(p) ==> p.covered() == left && p.covered() == right,
{
    if left != right {
        Err(KernelError::LengthMismatch { left, right })
    } else {
        Ok(plan_for(left))
    }
}

/// A plan that a kernel accepts covers both operands completely: the chunks
/// tile the whole common length, with nothing left over and nothing skipped.
pub proof fn lemma_fixed_plan_covers(width: LaneWidth, left: usize, right: usize)
    ensures
        fixed_plan(width, left, right) matches Ok(p) ==> {
            &&& p.width == width
            &&& left == right
            &&& p.covered() == left
        },
{
    let lanes = width.lanes();
    if left == right && left as nat % lanes == 0 {
        let chunks = left as nat / lanes;
        assert(chunks * lanes == left as nat) by (nonlinear_arith)
            requires
                lanes > 0,
                left as nat % lanes == 0,
                chunks == left as nat / lanes,
        ;
        assert(chunks <= left as nat) by (nonlinear_arith)
            requires
                lanes >= 1,
                chunks * lanes == left as nat,
        ;
    }
}

/// The kernel chosen for a length divides that length evenly, so a choice by
/// length never fails for ragged operands.
pub proof fn lemma_selection_divides(len: usize)
    ensures
        len as nat % widest_for(len).lanes() == 0,
{
}

/// No kernel that could run on operands of length `len` is wider than the one
/// chosen for `len`.
pub proof fn lemma_selection_is_widest(len: usize, width: LaneWidth)
    requires
        len as nat % width.lanes() == 0,
    ensures
        width.lanes() <= widest_for(len).lanes(),
{
    if len % 16 != 0 {
        assert(width != LaneWidth::Sixteen);
        if len % 8 != 0 {
            assert(width != LaneWidth::Eight);
            if len % 4 != 0 {
                assert(width != LaneWidth::Four);
            }
        }
    }
}

/// Swapping the operands changes neither whether they are accepted nor the
/// kernel and chunk count chosen for them.
pub proof fn lemma_plan_symmetric(left: usize, right: usize)
    ensures
        selected_plan(left, right) is Ok <==> selected_plan(right, left) is Ok,
        selected_plan(left, right) is Ok ==> selected_plan(left, right) == selected_plan(
            right,
            left,
        ),
{
    lemma_selection_divides(left);
    lemma_selection_divides(right);
}

} // verus!
