use sb_scratchy::scripting::block::{Block, BlockStack};
use sb_scratchy::scripting::stack::{
    CapBlock, HatBlock, StackBlock, StackableSide, TypedStackBuilder, UnstackableSide,
};

fn opcodes(stack: &BlockStack) -> Vec<String> {
    stack.blocks().iter().map(|block| block.opcode.clone()).collect()
}

fn hat(opcode: &str) -> HatBlock {
    TypedStackBuilder::start(Block::new(opcode))
}

fn statement(opcode: &str) -> StackBlock {
    TypedStackBuilder::start(Block::new(opcode))
}

fn cap(opcode: &str) -> CapBlock {
    TypedStackBuilder::start(Block::new(opcode))
}

#[test]
fn start_holds_the_one_block() {
    let stack = statement("motion_movesteps").into_untyped();
    assert_eq!(stack.len(), 1);
    assert_eq!(stack.blocks()[0], Block::new("motion_movesteps"));
}

#[test]
fn start_with_capacity_holds_the_one_block() {
    let stack: StackBlock = TypedStackBuilder::start_with_capacity(16, Block::new("looks_say"));
    assert_eq!(stack, statement("looks_say"));
    let none: StackBlock = TypedStackBuilder::start_with_capacity(0, Block::new("looks_say"));
    assert_eq!(none.into_untyped().len(), 1);
}

#[test]
fn next_puts_the_second_stack_below_the_first() {
    let stack = statement("a").next(statement("b")).next(statement("c"));
    assert_eq!(opcodes(&stack.into_untyped()), vec!["a", "b", "c"]);
}

#[test]
fn hat_then_statement_is_a_hat() {
    let script: HatBlock = hat("event_whenflagclicked").next(statement("motion_movesteps"));
    assert_eq!(
        opcodes(&script.into_untyped()),
        vec!["event_whenflagclicked", "motion_movesteps"]
    );
}

#[test]
fn hat_then_cap_is_closed_on_both_sides() {
    let script: TypedStackBuilder<UnstackableSide, UnstackableSide> =
        hat("event_whenflagclicked").next(cap("control_stop"));
    assert_eq!(opcodes(&script.into_untyped()), vec!["event_whenflagclicked", "control_stop"]);
}

#[test]
fn statement_then_cap_is_a_cap() {
    let script: CapBlock = statement("looks_say").next(cap("control_stop"));
    assert_eq!(opcodes(&script.into_untyped()), vec!["looks_say", "control_stop"]);
}

#[test]
fn the_lower_stack_may_start_in_either_way() {
    let lower: TypedStackBuilder<UnstackableSide, StackableSide> = hat("lower");
    let script: TypedStackBuilder<StackableSide, StackableSide> = statement("upper").next(lower);
    assert_eq!(opcodes(&script.into_untyped()), vec!["upper", "lower"]);
}

#[test]
fn next_is_associative() {
    let left: CapBlock = statement("a").next(statement("b")).next(cap("c"));
    let right: CapBlock = statement("a").next(statement("b").next(cap("c")));
    assert_eq!(left, right);
    assert_eq!(opcodes(&left.into_untyped()), vec!["a", "b", "c"]);
}

#[test]
fn next_is_associative_over_longer_stacks() {
    let a = || hat("a1").next(statement("a2"));
    let b = || statement("b1").next(statement("b2")).next(statement("b3"));
    let c = || statement("c1").next(statement("c2"));
    let left: HatBlock = a().next(b()).next(c());
    let right: HatBlock = a().next(b().next(c()));
    assert_eq!(left, right);
    assert_eq!(
        opcodes(&left.into_untyped()),
        vec!["a1", "a2", "b1", "b2", "b3", "c1", "c2"]
    );
}

#[test]
fn into_untyped_then_assume_typed_keeps_the_blocks() {
    let typed = statement("a").next(statement("b"));
    let untyped = typed.into_untyped();
    assert_eq!(opcodes(&untyped), vec!["a", "b"]);
    let again: HatBlock = TypedStackBuilder::assume_typed(untyped);
    assert_eq!(opcodes(&again.into_untyped()), vec!["a", "b"]);
}

#[test]
fn untyped_stacks_attach_in_order() {
    let upper = BlockStack::start(Block::new("a")).next(BlockStack::start(Block::new("b")));
    let lower = BlockStack::start_with_capacity(4, Block::new("c"));
    let all = upper.next(lower);
    assert_eq!(all.len(), 3);
    assert_eq!(opcodes(&all), vec!["a", "b", "c"]);
    let blocks = all.into_blocks();
    assert_eq!(blocks.len(), 3);
    assert_eq!(blocks[2].opcode, "c");
}

#[test]
fn side_markers_are_plain_values() {
    assert_eq!(StackableSide, StackableSide::default());
    assert_eq!(UnstackableSide, UnstackableSide::default());
}

#[test]
fn clone_keeps_blocks_and_tags() {
    let script: HatBlock = hat("event_whenflagclicked").next(statement("motion_movesteps"));
    let copy: HatBlock = script.clone();
    assert_eq!(copy, script);
    assert_eq!(
        opcodes(&copy.into_untyped()),
        vec!["event_whenflagclicked", "motion_movesteps"]
    );
}
