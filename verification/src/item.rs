//! Fixed-dimension vectors and scored items.
//!
//! A [`Vector`] holds exactly [`SIZE_VECTOR`] components. An [`Item`] pairs a
//! vector with its magnitude, which is either computed from the components
//! when the item is built or taken as given from the end of the buffer the
//! item is built from.

use crate::kernel::selected_plan;
use crate::kernel::KernelError;
use crate::kernel::LaneWidth;
use crate::kernel::Plan;
use vstd::prelude::*;

verus! {

/// Number of components of every vector.
pub const SIZE_VECTOR: usize = 512;

/// A vector of exactly [`SIZE_VECTOR`] components, one word each.
#[derive(Debug)]
pub struct Vector {
    pub words: [u32; SIZE_VECTOR],
}

/// A vector together with its magnitude.
#[derive(Debug)]
pub struct Item {
    pub vector: Vector,
    pub magnitude: u32,
}

/// What an item stands for: its components in order, and its magnitude.
pub ghost struct ItemView {
    pub components: Seq<u32>,
    pub magnitude: u32,
}

/// How a buffer that an item can be built from is laid out.
#[derive(Clone, Copy, Debug, PartialEq, Eq, Structural)]
pub enum Layout {
    /// Components only; the magnitude has to be computed from them.
    Bare,
    /// Components followed by one more word, the magnitude.
    WithMagnitude,
}

/// Why no item can be built from a buffer.
#[derive(Clone, Copy, Debug, PartialEq, Eq, Structural)]
pub enum ConstructionError {
    /// The buffer holds fewer words than a vector has components.
    TooShort { len: usize },
    /// The buffer holds more than the components and one magnitude.
    TooLong { len: usize },
}

/// The layout of a buffer of `len` words.
pub open spec fn layout_of(len: usize) -> Result<Layout, ConstructionError> {
    if len < SIZE_VECTOR {
        Err(ConstructionError::TooShort { len })
    } else if len == SIZE_VECTOR {
        Ok(Layout::Bare)
    } else if len == SIZE_VECTOR + 1 {
        Ok(Layout::WithMagnitude)
    } else {
        Err(ConstructionError::TooLong { len })
    }
}

/// Tells how a buffer of `len` words is laid out, or why it is none that an
/// item can be built from.
pub fn classify(len: usize) -> (r: Result<Layout, ConstructionError>)
    ensures
        r == layout_of(len),
{
    if len < SIZE_VECTOR {
        Err(ConstructionError::TooShort { len })
    } else if len == SIZE_VECTOR {
        Ok(Layout::Bare)
    } else if len == SIZE_VECTOR + 1 {
        Ok(Layout::WithMagnitude)
    } else {
        Err(ConstructionError::TooLong { len })
    }
}

/// Whether `item` is what gets built from `buffer` when `norm` computes
/// magnitudes: the components are the buffer's first [`SIZE_VECTOR`] words,
/// and the magnitude is the word after them if there is one, else a result
/// of `norm` on the components. Nothing is built from a buffer of any other
/// length.
pub open spec fn built_from<N: FnOnce(&Vector) -> u32>(
    buffer: Seq<u32>,
    norm: N,
    item: Item,
) -> bool {
    if buffer.len() == SIZE_VECTOR {
        item@.components == buffer && call_ensures(norm, (&item.vector,), item.magnitude)
    } else if buffer.len() == SIZE_VECTOR + 1 {
        item@.components == buffer.take(SIZE_VECTOR as int) && item@.magnitude
            == buffer[SIZE_VECTOR as int]
    } else {
        false
    }
}

impl View for Vector {
    type V = Seq<u32>;

    open spec fn view(&self) -> Seq<u32> {
        self.words@
    }
}

impl View for Item {
    type V = ItemView;

    open spec fn view(&self) -> ItemView {
        ItemView { components: self.vector@, magnitude: self.magnitude }
    }
}

impl Vector {
    /// The vector whose components are all the zero word.
    pub fn new() -> (r: Vector)
        ensures
            r@ == Seq::new(SIZE_VECTOR as nat, |i: int| 0u32),
    {
        let r = Vector { words: [0u32; SIZE_VECTOR] };
        assert(r@ =~= Seq::new(SIZE_VECTOR as nat, |i: int| 0u32));
        r
    }

    /// Copies the first [`SIZE_VECTOR`] words of `buffer`.
    fn from_prefix(buffer: &[u32]) -> (r: Vector)
        requires
            buffer@.len() >= SIZE_VECTOR,
        ensures
            r@ == buffer@.take(SIZE_VECTOR as int),
    {
        let mut words = [0u32; SIZE_VECTOR];
        let mut i: usize = 0;
        while i < SIZE_VECTOR
            invariant
                i <= SIZE_VECTOR,
                buffer@.len() >= SIZE_VECTOR,
                forall|j: int| 0 <= j < i ==> words@[j] == buffer@[j],
            decreases SIZE_VECTOR - i,
        {
            words[i] = buffer[i];
            i += 1;
        }
        let r = Vector { words };
        assert(r@ =~= buffer@.take(SIZE_VECTOR as int));
        r
    }

    /// The components, in order.
    pub fn as_slice(&self) -> (r: &[u32])
        ensures
            r@ == self@,
            r@.len() == SIZE_VECTOR,
    {
        self.words.as_slice()
    }

    /// Validates a borrowed operand of `len` words against this vector and
    /// picks the kernel for the pair.
    ///
    /// The operand is accepted exactly when it has as many words as the
    /// vector has components, and the pair then always gets the widest
    /// kernel.
    pub fn plan_against(&self, len: usize) -> (r: Result<Plan, KernelError>)
        ensures
            r == selected_plan(SIZE_VECTOR, len),
            len == SIZE_VECTOR <==> r is Ok,
            r matches Ok(p) ==> p == (Plan { width: LaneWidth::Sixteen, chunks: 32 }),
    {
        crate::kernel::plan(SIZE_VECTOR, len)
    }
}

impl Item {
    /// The item with the zero vector and the zero word for its magnitude.
    pub fn new() -> (r: Item)
        ensures
            r@.components == Seq::new(SIZE_VECTOR as nat, |i: int| 0u32),
            r@.magnitude == 0,
    {
        Item { vector: Vector::new(), magnitude: 0 }
    }

    /// Builds an item from a buffer of words.
    ///
    /// A buffer of exactly [`SIZE_VECTOR`] words gives the components, and
    /// `norm` is asked for their magnitude. A buffer of one word more gives
    /// the components followed by the magnitude, which is taken as it stands:
    /// `norm` plays no part. A buffer of any other length is refused, and
    /// none that has one of these two lengths is.
    pub fn from_buffer<N: FnOnce(&Vector) -> u32>(buffer: &[u32], norm: N) -> (r: Result<
        Item,
        ConstructionError,
    >)
        requires
            buffer@.len() == SIZE_VECTOR ==> forall|v: &Vector|
                v@ == buffer@ ==> call_requires(norm, (v,)),
        ensures
            r is Ok <==> layout_of(buffer.len()) is Ok,
            match r {
                Ok(item) => built_from(buffer@, norm, item),
                Err(e) => layout_of(buffer.len()) == Err::<Layout, ConstructionError>(e),
            },
    {
        match classify(buffer.len()) {
            Err(e) => Err(e),
            Ok(Layout::Bare) => {
                let vector = Vector::from_prefix(buffer);
                assert(buffer@.take(SIZE_VECTOR as int) =~= buffer@);
                let magnitude: u32 = norm(&vector);
                Ok(Item { vector, magnitude })
            },
            Ok(Layout::WithMagnitude) => {
                let vector = Vector::from_prefix(buffer);
                let magnitude: u32 = buffer[SIZE_VECTOR];
                Ok(Item { vector, magnitude })
            },
        }
    }
}

/// A buffer that brings its own magnitude decides the magnitude of the item
/// built from it: the item carries the buffer's last word as it stands,
/// whatever would have been computed from the components.
pub proof fn lemma_given_magnitude_is_kept<N: FnOnce(&Vector) -> u32, M: FnOnce(&Vector) -> u32>(
    buffer: Seq<u32>,
    norm: N,
    other: M,
    item: Item,
)
    requires
        buffer.len() == SIZE_VECTOR + 1,
        built_from(buffer, norm, item),
    ensures
        item@.magnitude == buffer.last(),
        built_from(buffer, other, item),
{
}

/// Items are built from buffers of exactly two lengths; a buffer of any other
/// length has no layout and no item.
pub proof fn lemma_built_only_from_layouts<N: FnOnce(&Vector) -> u32>(
    buffer: Seq<u32>,
    norm: N,
    item: Item,
)
    requires
        built_from(buffer, norm, item),
    ensures
        layout_of(buffer.len() as usize) is Ok,
        item@.components.len() == SIZE_VECTOR,
        item@.components == buffer.take(SIZE_VECTOR as int),
{
    assert(buffer.len() == SIZE_VECTOR ==> buffer.take(SIZE_VECTOR as int) =~= buffer);
}

} // verus!
