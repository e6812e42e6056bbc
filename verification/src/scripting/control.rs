//! The two conditional blocks: "if" and "if-else".
//!
//! Each is a stack of one block whose slots hold the condition and the
//! branches. A branch that is absent leaves its slot out.

use crate::scripting::block::{optional_input_model, Block, BlockModel, BlockStack, Input, InputModel};
use vstd::prelude::*;

verus! {

/// The stack that holds one "if" block.
pub open spec fn if_node(condition: InputModel, substack: Option<InputModel>) -> Seq<BlockModel> {
    seq![
        BlockModel::new("control_if"@).with_input("CONDITION"@, condition).with_optional_input(
            "SUBSTACK"@,
            substack,
        ),
    ]
}

/// The stack that holds one "if-else" block.
pub open spec fn if_else_node(
    condition: InputModel,
    substack: Option<InputModel>,
    substack2: Option<InputModel>,
) -> Seq<BlockModel> {
    seq![
        BlockModel::new("control_if_else"@).with_input("CONDITION"@, condition).with_optional_input(
            "SUBSTACK"@,
            substack,
        ).with_optional_input("SUBSTACK2"@, substack2),
    ]
}

/// Builds an "if" block: `substack` runs when `condition` holds.
pub fn if_block(condition: Input, substack: Option<Input>) -> (r: BlockStack)
    ensures
        r@ == if_node(condition@, optional_input_model(substack)),
{
    let mut block = Block::new("control_if");
    block.add_input("CONDITION", condition);
    block.add_optional_input("SUBSTACK", substack);
    BlockStack::start(block)
}

/// Builds an "if-else" block: `substack` runs when `condition` holds,
/// `substack2` when it does not.
pub fn if_else_block(condition: Input, substack: Option<Input>, substack2: Option<Input>) -> (r:
    BlockStack)
    ensures
        r@ == if_else_node(
            condition@,
            optional_input_model(substack),
            optional_input_model(substack2),
        ),
{
    let mut block = Block::new("control_if_else");
    block.add_input("CONDITION", condition);
    block.add_optional_input("SUBSTACK", substack);
    block.add_optional_input("SUBSTACK2", substack2);
    BlockStack::start(block)
}

} // verus!
