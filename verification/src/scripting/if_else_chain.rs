//! Create flat if-else chain
//!
//! # Explanation
//!
//! Scratch has an "if" block and an "if-else" block, and no "else if". A
//! chain of conditions is therefore nested by hand, a little like this:
//! ```txt
//! if <cond> {
//!
//! } else {
//!     if <cond> {
//!
//!     } else {
//!
//!     }
//! }
//! ```
//!
//! This builder lets it be written flat, a little like this:
//! ```txt
//! if <cond> {
//!
//! } else if <cond> {
//!
//! } else {
//!
//! }
//! ```
//!
//! # Usage
//!
//! [`if_`] starts a chain, [`IfElseChainBuilder::else_if`] adds a branch,
//! [`IfElseChainBuilder::else_`] adds the else, after which no branch can be
//! added, and [`IfElseChainBuilder::end`] nests the chain into blocks. What
//! comes out is given by [`nested`]: each branch but the last is an "if-else"
//! block whose else-branch holds the rest of the chain.

use crate::scripting::arg::{Bool, IntoInput, Stack};
use crate::scripting::block::{optional_input_model, BlockModel, Input, InputModel};
use crate::scripting::control::{if_block, if_else_block, if_else_node, if_node};
use crate::scripting::stack::{StackBlock, TypedStackBuilder};
use std::marker::PhantomData;
use vstd::prelude::*;

verus! {

/// A state of an [`IfElseChainBuilder`].
pub trait ChainState {
    /// Whether the chain has its else, so that nothing more can be added.
    spec fn sealed() -> bool;
}

/// State/Marker for [`IfElseChainBuilder`] that it's building.
#[derive(Debug, Default, Clone, Copy, PartialEq, Eq)]
pub struct Building;

/// State/Marker for [`IfElseChainBuilder`] that the process has ended.
#[derive(Debug, Default, Clone, Copy, PartialEq, Eq)]
pub struct End;

impl ChainState for Building {
    open spec fn sealed() -> bool {
        false
    }
}

impl ChainState for End {
    open spec fn sealed() -> bool {
        true
    }
}

/// A condition and what runs when it holds, if anything.
pub type BranchModel = (InputModel, Option<InputModel>);

/// The value of an [`IfElseChainBuilder`].
pub struct ChainModel {
    /// The leading branch.
    pub if_: BranchModel,
    /// The branches that follow, in the order in which they are tried.
    pub else_ifs: Seq<BranchModel>,
    /// The else, where the chain has one; its body may be empty.
    pub else_: Option<Option<InputModel>>,
}

/// One branch as a block: an "if" where nothing comes after it, an "if-else"
/// that holds `tail` where something does.
pub open spec fn branch_node(branch: BranchModel, tail: Option<Option<InputModel>>) -> Seq<
    BlockModel,
> {
    match tail {
        None => if_node(branch.0, branch.1),
        Some(else_body) => if_else_node(branch.0, branch.1, else_body),
    }
}

/// The chain as nested blocks. The first branch is the outermost block; the
/// branches after it, nested in the same way, are its else-branch. The last
/// branch holds `else_` itself where there is one, and is a plain "if" where
/// there is none.
pub open spec fn nested(
    first: BranchModel,
    rest: Seq<BranchModel>,
    else_: Option<Option<InputModel>>,
) -> Seq<BlockModel>
    decreases rest.len(),
{
    if rest.len() == 0 {
        branch_node(first, else_)
    } else {
        branch_node(
            first,
            Some(Some(InputModel::Stack(nested(rest.first(), rest.drop_first(), else_)))),
        )
    }
}

impl ChainModel {
    /// The chain that has its leading branch and nothing else.
    pub open spec fn begin(cond: InputModel, then: Option<InputModel>) -> ChainModel {
        ChainModel { if_: (cond, then), else_ifs: Seq::empty(), else_: None }
    }

    /// This chain with one more branch after those it has.
    pub open spec fn else_if(self, cond: InputModel, then: Option<InputModel>) -> ChainModel {
        ChainModel { else_ifs: self.else_ifs.push((cond, then)), ..self }
    }

    /// This chain with its else.
    pub open spec fn else_(self, else_: Option<InputModel>) -> ChainModel {
        ChainModel { else_: Some(else_), ..self }
    }

    /// The blocks that the chain stands for.
    pub open spec fn end(self) -> Seq<BlockModel> {
        nested(self.if_, self.else_ifs, self.else_)
    }
}

/// What goes into a body slot, if anything.
pub open spec fn body_model<B: IntoInput<Stack>>(body: Option<B>) -> Option<InputModel> {
    match body {
        Some(body) => Some(body.input_model()),
        None => None,
    }
}

/// The last branch of a chain can be folded into what comes after the
/// others: the chain with the branch is the chain without it whose else
/// holds that branch as a block.
pub proof fn lemma_nested_fold_last(
    first: BranchModel,
    rest: Seq<BranchModel>,
    last: BranchModel,
    else_: Option<Option<InputModel>>,
)
    ensures
        nested(first, rest.push(last), else_) == nested(
            first,
            rest,
            Some(Some(InputModel::Stack(branch_node(last, else_)))),
        ),
    decreases rest.len(),
{
    let longer = rest.push(last);
    if rest.len() == 0 {
        assert(longer.drop_first() =~= Seq::<BranchModel>::empty());
        assert(nested(last, longer.drop_first(), else_) == branch_node(last, else_));
    } else {
        assert(longer.drop_first() =~= rest.drop_first().push(last));
        lemma_nested_fold_last(rest.first(), rest.drop_first(), last, else_);
    }
}

/// A chain of one branch and no else is a plain "if" block.
pub proof fn lemma_if_alone(c0: InputModel, b0: Option<InputModel>)
    ensures
        ChainModel::begin(c0, b0).end() == if_node(c0, b0),
{
}

/// A chain of one branch and an else is one "if-else" block.
pub proof fn lemma_if_with_else(c0: InputModel, b0: Option<InputModel>, be: Option<InputModel>)
    ensures
        ChainModel::begin(c0, b0).else_(be).end() == if_else_node(c0, b0, be),
{
}

/// With one else-if and an else, the else-if is an "if-else" block that holds
/// the else itself: no block is put around the else.
pub proof fn lemma_else_if_with_else(
    c0: InputModel,
    b0: Option<InputModel>,
    c1: InputModel,
    b1: Option<InputModel>,
    be: Option<InputModel>,
)
    ensures
        ChainModel::begin(c0, b0).else_if(c1, b1).else_(be).end() == if_else_node(
            c0,
            b0,
            Some(InputModel::Stack(if_else_node(c1, b1, be))),
        ),
{
    let chain = ChainModel::begin(c0, b0).else_if(c1, b1).else_(be);
    assert(chain.else_ifs =~= seq![(c1, b1)]);
    assert(chain.else_ifs.drop_first() =~= Seq::<BranchModel>::empty());
    reveal_with_fuel(nested, 2);
}

/// With two else-ifs and no else, the last else-if is a plain "if" block
/// inside the "if-else" of the one before it.
pub proof fn lemma_two_else_ifs(
    c0: InputModel,
    b0: Option<InputModel>,
    c1: InputModel,
    b1: Option<InputModel>,
    c2: InputModel,
    b2: Option<InputModel>,
)
    ensures
        ChainModel::begin(c0, b0).else_if(c1, b1).else_if(c2, b2).end() == if_else_node(
            c0,
            b0,
            Some(
                InputModel::Stack(
                    if_else_node(c1, b1, Some(InputModel::Stack(if_node(c2, b2)))),
                ),
            ),
        ),
{
    let chain = ChainModel::begin(c0, b0).else_if(c1, b1).else_if(c2, b2);
    assert(chain.else_ifs =~= seq![(c1, b1), (c2, b2)]);
    assert(chain.else_ifs.drop_first() =~= seq![(c2, b2)]);
    assert(chain.else_ifs.drop_first().drop_first() =~= Seq::<BranchModel>::empty());
    reveal_with_fuel(nested, 3);
}

/// Shortcut to [`IfElseChainBuilder::if_`].
pub fn if_(cond: impl IntoInput<Bool>, then: Option<impl IntoInput<Stack>>) -> (r:
    IfElseChainBuilder<Building>)
    ensures
        r@ == ChainModel::begin(cond.input_model(), body_model(then)),
{
    IfElseChainBuilder::<Building>::if_(cond, then)
}

/// Builder to create flat if else chain.
///
/// See top module documentation for usage.
#[derive(Debug, PartialEq)]
pub struct IfElseChainBuilder<S: ChainState> {
    if_: (Input, Option<Input>),
    else_ifs: Vec<(Input, Option<Input>)>,
    else_: Option<Option<Input>>,
    marker: PhantomData<S>,
}

/// The value of a branch.
pub open spec fn branch_model(branch: (Input, Option<Input>)) -> BranchModel {
    (branch.0@, optional_input_model(branch.1))
}

/// The value of an else.
pub open spec fn else_model(else_: Option<Option<Input>>) -> Option<Option<InputModel>> {
    match else_ {
        Some(body) => Some(optional_input_model(body)),
        None => None,
    }
}

impl<S: ChainState> View for IfElseChainBuilder<S> {
    type V = ChainModel;

    closed spec fn view(&self) -> ChainModel {
        ChainModel {
            if_: branch_model(self.if_),
            else_ifs: self.else_ifs@.map_values(|branch| branch_model(branch)),
            else_: else_model(self.else_),
        }
    }
}

fn copy_branch(branch: &(Input, Option<Input>)) -> (r: (Input, Option<Input>))
    ensures
        branch_model(r) == branch_model(*branch),
{
    let then = match &branch.1 {
        Some(then) => Some(then.clone()),
        None => None,
    };
    (branch.0.clone(), then)
}

impl<S: ChainState> Clone for IfElseChainBuilder<S> {
    fn clone(&self) -> (r: Self)
        ensures
            r@ == self@,
    {
        proof {
            use_type_invariant(self);
        }
        let mut else_ifs: Vec<(Input, Option<Input>)> = Vec::with_capacity(self.else_ifs.len());
        let mut i: usize = 0;
        while i < self.else_ifs.len()
            invariant
                i <= self.else_ifs.len(),
                else_ifs@.len() == i,
                forall|k: int|
                    0 <= k < i ==> branch_model(#[trigger] else_ifs@[k]) == branch_model(
                        self.else_ifs@[k],
                    ),
            decreases self.else_ifs.len() - i,
        {
            else_ifs.push(copy_branch(&self.else_ifs[i]));
            i = i + 1;
        }
        let else_ = match &self.else_ {
            Some(Some(body)) => Some(Some(body.clone())),
            Some(None) => Some(None),
            None => None,
        };
        let r = IfElseChainBuilder {
            if_: copy_branch(&self.if_),
            else_ifs,
            else_,
            marker: PhantomData,
        };
        assert(r@.else_ifs =~= self@.else_ifs);
        r
    }
}

fn body_input<B: IntoInput<Stack>>(body: Option<B>) -> (r: Option<Input>)
    ensures
        optional_input_model(r) == body_model(body),
{
    match body {
        Some(body) => Some(body.into_input()),
        None => None,
    }
}

impl IfElseChainBuilder<Building> {
    /// Create else if
    pub fn else_if(
        self,
        cond: impl IntoInput<Bool>,
        then: Option<impl IntoInput<Stack>>,
    ) -> (r: IfElseChainBuilder<Building>)
        ensures
            r@ == self@.else_if(cond.input_model(), body_model(then)),
    {
        proof {
            use_type_invariant(&self);
        }
        let IfElseChainBuilder { if_, else_ifs, else_, marker: _ } = self;
        let mut else_ifs = else_ifs;
        let branch = (cond.into_input(), body_input(then));
        else_ifs.push(branch);
        let r = IfElseChainBuilder { if_, else_ifs, else_, marker: PhantomData };
        assert(r@.else_ifs =~= self@.else_ifs.push((cond.input_model(), body_model(then))));
        r
    }

    /// Create else. After this you cannot add anymore statement
    pub fn else_(self, else_: Option<impl IntoInput<Stack>>) -> (r: IfElseChainBuilder<End>)
        ensures
            r@ == self@.else_(body_model(else_)),
    {
        let IfElseChainBuilder { if_, else_ifs, else_: _, marker: _ } = self;
        IfElseChainBuilder { if_, else_ifs, else_: Some(body_input(else_)), marker: PhantomData }
    }
}

impl<S: ChainState> IfElseChainBuilder<S> {
    #[verifier::type_invariant]
    spec fn sealed_has_else(self) -> bool {
        self.else_ is Some <==> S::sealed()
    }

    /// Create if
    pub fn if_(cond: impl IntoInput<Bool>, then: Option<impl IntoInput<Stack>>) -> (r:
        IfElseChainBuilder<Building>)
        ensures
            r@ == ChainModel::begin(cond.input_model(), body_model(then)),
    {
        let r = IfElseChainBuilder {
            if_: (cond.into_input(), body_input(then)),
            else_ifs: Vec::new(),
            else_: None,
            marker: PhantomData,
        };
        assert(r@.else_ifs =~= Seq::empty());
        r
    }

    /// Whether the chain has its else.
    pub fn is_sealed(&self) -> (r: bool)
        ensures
            r == S::sealed(),
            r == (self@.else_ is Some),
    {
        proof {
            use_type_invariant(self);
        }
        self.else_.is_some()
    }

    /// End chain
    ///
    /// Nests the branches from the last to the first. Each condition and
    /// each body goes into the result once.
    pub fn end(self) -> (r: StackBlock)
        ensures
            r@ == StackBlock::typed(self@.end()),
    {
        let IfElseChainBuilder { if_, else_ifs, else_, marker: _ } = self;
        let mut else_ifs = else_ifs;
        // what the branch now innermost has as its else
        let mut tail = else_;
        while else_ifs.len() > 0
            invariant
                nested(
                    branch_model(if_),
                    else_ifs@.map_values(|branch| branch_model(branch)),
                    else_model(tail),
                ) == self@.end(),
            decreases else_ifs.len(),
        {
            let ghost before = else_ifs@.map_values(|branch| branch_model(branch));
            let ghost tail_before = else_model(tail);
            let (cond, then) = else_ifs.pop().unwrap();
            let node = match tail {
                None => if_block(cond, then),
                Some(else_body) => if_else_block(cond, then, else_body),
            };
            tail = Some(Some(Input::stack(node)));
            proof {
                let after = else_ifs@.map_values(|branch| branch_model(branch));
                let last = branch_model((cond, then));
                assert(before =~= after.push(last));
                lemma_nested_fold_last(branch_model(if_), after, last, tail_before);
            }
        }
        let b = match tail {
            None => if_block(if_.0, if_.1),
            Some(else_body) => if_else_block(if_.0, if_.1, else_body),
        };
        TypedStackBuilder::assume_typed(b)
    }
}

} // verus!
