//! Building a stack
//!
//! A [`TypedStackBuilder`] is a stack of blocks together with two tags, kept
//! in its type: whether another stack may be attached above it, and whether
//! one may be attached below it. Attaching is [`TypedStackBuilder::next`],
//! which exists only where the upper stack's end is [`StackableSide`].

use crate::scripting::block::{Block, BlockModel, BlockStack};
use std::marker::PhantomData;
use vstd::prelude::*;

verus! {

/// What one side of a stack allows.
#[derive(Debug, Clone, Copy, PartialEq, Eq, Structural)]
pub enum Side {
    /// Another stack may be attached on this side.
    Stackable,
    /// Nothing may be attached on this side.
    Unstackable,
}

/// A marker type that stands for one [`Side`].
pub trait SideMarker {
    /// The side that the marker stands for.
    spec fn side() -> Side;
}

/// State/Marker for [`TypedStackBuilder`] that this side can be stacked.
#[derive(Debug, Default, Clone, Copy, PartialEq, Eq)]
pub struct StackableSide;

/// State/Marker for [`TypedStackBuilder`] that this side cannot be stacked.
#[derive(Debug, Default, Clone, Copy, PartialEq, Eq)]
pub struct UnstackableSide;

impl SideMarker for StackableSide {
    open spec fn side() -> Side {
        Side::Stackable
    }
}

impl SideMarker for UnstackableSide {
    open spec fn side() -> Side {
        Side::Unstackable
    }
}

/// This stack/block can be stacked on top of another stack/block, but nothing can be stacked on
/// top of it.
pub type HatBlock = TypedStackBuilder<UnstackableSide, StackableSide>;

/// This stack/block can be stacked below another stack/block, but nothing can be stacked below
/// it.
pub type CapBlock = TypedStackBuilder<StackableSide, UnstackableSide>;

/// This stack/block can be stacked on top of or below another stack/block.
pub type StackBlock = TypedStackBuilder<StackableSide, StackableSide>;

/// The value of a [`TypedStackBuilder`]: its blocks, top to bottom, and its two tags.
pub struct TypedStackModel {
    pub blocks: Seq<BlockModel>,
    pub start: Side,
    pub end: Side,
}

impl TypedStackModel {
    /// Whether another stack may be attached below this one.
    pub open spec fn takes_next(self) -> bool {
        self.end == Side::Stackable
    }

    /// This stack with `lower` attached below it: the blocks of both in
    /// order, the start of this one and the end of `lower`.
    pub open spec fn next(self, lower: TypedStackModel) -> TypedStackModel {
        TypedStackModel { blocks: self.blocks + lower.blocks, start: self.start, end: lower.end }
    }
}

/// A stack of blocks whose type says what may be attached to it.
#[derive(Debug, PartialEq)]
pub struct TypedStackBuilder<S: SideMarker, E: SideMarker> {
    stack_builder: BlockStack,
    /// Start/Top of the stack marker if it's stackable or not
    start: PhantomData<S>,
    /// End/Bottom of the stack marker if it's stackable or not
    end: PhantomData<E>,
}

impl<S: SideMarker, E: SideMarker> View for TypedStackBuilder<S, E> {
    type V = TypedStackModel;

    open spec fn view(&self) -> TypedStackModel {
        Self::typed(self.blocks())
    }
}

impl<S: SideMarker, E: SideMarker> TypedStackBuilder<S, E> {
    /// The values of the blocks, top to bottom.
    pub closed spec fn blocks(self) -> Seq<BlockModel> {
        self.stack_builder@
    }

    /// The value of the stack that holds `blocks` and has this type's tags.
    pub open spec fn typed(blocks: Seq<BlockModel>) -> TypedStackModel {
        TypedStackModel { blocks, start: S::side(), end: E::side() }
    }

    /// Start building stack
    ///
    /// The tags are the caller's to choose, once for each kind of block:
    /// they say where the block may stand in a script.
    pub fn start(block_builder: Block) -> (r: TypedStackBuilder<S, E>)
        ensures
            r@ == Self::typed(seq![block_builder@]),
    {
        TypedStackBuilder {
            stack_builder: BlockStack::start(block_builder),
            start: PhantomData,
            end: PhantomData,
        }
    }

    /// Gives up the tags and hands out the stack of blocks.
    pub fn into_untyped(self) -> (r: BlockStack)
        ensures
            r@ == self@.blocks,
    {
        self.stack_builder
    }

    /// Start building stack, with room set aside for `capacity` blocks.
    pub fn start_with_capacity(capacity: usize, block_builder: Block) -> (r: TypedStackBuilder<
        S,
        E,
    >)
        ensures
            r@ == Self::typed(seq![block_builder@]),
    {
        TypedStackBuilder {
            stack_builder: BlockStack::start_with_capacity(capacity, block_builder),
            start: PhantomData,
            end: PhantomData,
        }
    }

    /// Takes a stack of blocks to have this type's tags.
    ///
    /// Nothing checks that the blocks may stand where the tags say: the
    /// caller answers for that.
    pub fn assume_typed(stack_builder: BlockStack) -> (r: TypedStackBuilder<S, E>)
        ensures
            r@ == Self::typed(stack_builder@),
    {
        TypedStackBuilder { stack_builder, start: PhantomData, end: PhantomData }
    }
}

impl<S: SideMarker, E: SideMarker> Clone for TypedStackBuilder<S, E> {
    fn clone(&self) -> (r: Self)
        ensures
            r@ == self@,
    {
        TypedStackBuilder {
            stack_builder: self.stack_builder.clone(),
            start: PhantomData,
            end: PhantomData,
        }
    }
}

impl<S: SideMarker> TypedStackBuilder<S, StackableSide> {
    /// Adding a stack to the end of this stack
    ///
    /// The result starts as this stack starts and ends as `next_stack` ends.
    /// How `next_stack` starts does not matter: below this stack, nothing
    /// else is put on top of it.
    pub fn next<NS: SideMarker, NE: SideMarker>(
        self,
        next_stack: TypedStackBuilder<NS, NE>,
    ) -> (r: TypedStackBuilder<S, NE>)
        ensures
            r@ == self@.next(next_stack@),
    {
        let stack = self.into_untyped();
        let next_stack = next_stack.into_untyped();
        TypedStackBuilder { stack_builder: stack.next(next_stack), start: PhantomData, end: PhantomData }
    }
}

/// A stack that starts with a hat block still starts with one after another
/// stack is attached below it, and ends as the attached stack ends.
pub proof fn lemma_next_keeps_hat(upper: TypedStackModel, lower: TypedStackModel)
    requires
        upper.start == Side::Unstackable,
        upper.takes_next(),
    ensures
        upper.next(lower).start == Side::Unstackable,
        upper.next(lower).end == lower.end,
{
}

/// Attaching is associative: three stacks attached in either grouping give
/// the same blocks in the same order, and the same tags.
pub proof fn lemma_next_associative(a: TypedStackModel, b: TypedStackModel, c: TypedStackModel)
    requires
        a.takes_next(),
        b.takes_next(),
    ensures
        a.next(b).takes_next(),
        a.next(b).next(c) == a.next(b.next(c)),
{
    assert((a.blocks + b.blocks) + c.blocks =~= a.blocks + (b.blocks + c.blocks));
}

} // verus!
