use sb_scratchy::scripting::block::{
    Block, BlockStack, Field, FieldKind, Input, Literal, LiteralKind,
};
use sb_scratchy::scripting::control::{if_block, if_else_block};

fn number(text: &str) -> Input {
    Input::literal(LiteralKind::Number, text.to_string())
}

fn body(opcode: &str) -> Input {
    Input::stack(BlockStack::start(Block::new(opcode)))
}

#[test]
fn new_block_has_no_slots() {
    let block = Block::new("motion_movesteps");
    assert_eq!(block.opcode, "motion_movesteps");
    assert!(block.inputs.is_empty());
    assert!(block.fields.is_empty());
    assert_eq!(block.input("STEPS"), None);
    assert_eq!(block.field("STEPS"), None);
}

#[test]
fn literal_input_holds_kind_and_text() {
    assert_eq!(
        Input::literal(LiteralKind::Angle, "90".to_string()),
        Input::Literal(Literal { kind: LiteralKind::Angle, text: "90".to_string() })
    );
}

#[test]
fn add_input_appends_in_order() {
    let mut block = Block::new("operator_add");
    block.add_input("NUM1", number("1"));
    block.add_input("NUM2", number("2"));
    assert_eq!(
        block.inputs,
        vec![("NUM1".to_string(), number("1")), ("NUM2".to_string(), number("2"))]
    );
    assert_eq!(block.input("NUM1"), Some(&number("1")));
    assert_eq!(block.input("NUM2"), Some(&number("2")));
    assert_eq!(block.input("NUM3"), None);
}

#[test]
fn the_slot_added_last_counts() {
    let mut block = Block::new("motion_movesteps");
    block.add_input("STEPS", number("10"));
    block.add_input("OTHER", number("0"));
    block.add_input("STEPS", number("20"));
    assert_eq!(block.input("STEPS"), Some(&number("20")));
    assert_eq!(block.inputs.len(), 3);
}

#[test]
fn add_optional_input_skips_what_is_absent() {
    let mut block = Block::new("control_repeat");
    block.add_optional_input("TIMES", Some(number("10")));
    block.add_optional_input("SUBSTACK", None);
    assert_eq!(block.inputs, vec![("TIMES".to_string(), number("10"))]);
}

#[test]
fn fields_are_found_by_name() {
    let mut block = Block::new("data_setvariableto");
    block.add_field(
        "VARIABLE",
        Field::new_with_kind("score".to_string(), FieldKind::GlobalVariable),
    );
    block.add_field("EFFECT", Field::new("ghost".to_string()));
    assert_eq!(
        block.field("VARIABLE"),
        Some(&Field { value: "score".to_string(), kind: FieldKind::GlobalVariable })
    );
    assert_eq!(
        block.field("EFFECT"),
        Some(&Field { value: "ghost".to_string(), kind: FieldKind::NoRef })
    );
    assert_eq!(block.field("variable"), None);
    block.add_field("EFFECT", Field::new("color".to_string()));
    assert_eq!(block.field("EFFECT").map(|field| field.value.as_str()), Some("color"));
}

#[test]
fn if_block_has_condition_and_body() {
    let stack = if_block(number("1"), Some(body("looks_show")));
    assert_eq!(stack.len(), 1);
    let block = &stack.blocks()[0];
    assert_eq!(block.opcode, "control_if");
    assert_eq!(
        block.inputs,
        vec![
            ("CONDITION".to_string(), number("1")),
            ("SUBSTACK".to_string(), body("looks_show")),
        ]
    );
    assert!(block.fields.is_empty());
}

#[test]
fn if_block_without_body_has_only_the_condition() {
    let stack = if_block(number("0"), None);
    let block = &stack.blocks()[0];
    assert_eq!(block.opcode, "control_if");
    assert_eq!(block.inputs, vec![("CONDITION".to_string(), number("0"))]);
}

#[test]
fn if_else_block_has_condition_and_both_branches() {
    let stack = if_else_block(number("1"), Some(body("looks_show")), Some(body("looks_hide")));
    assert_eq!(stack.len(), 1);
    let block = &stack.blocks()[0];
    assert_eq!(block.opcode, "control_if_else");
    assert_eq!(
        block.inputs,
        vec![
            ("CONDITION".to_string(), number("1")),
            ("SUBSTACK".to_string(), body("looks_show")),
            ("SUBSTACK2".to_string(), body("looks_hide")),
        ]
    );
}

#[test]
fn if_else_block_leaves_out_absent_branches() {
    let only_else = if_else_block(number("1"), None, Some(body("looks_hide")));
    assert_eq!(
        only_else.blocks()[0].inputs,
        vec![
            ("CONDITION".to_string(), number("1")),
            ("SUBSTACK2".to_string(), body("looks_hide")),
        ]
    );
    let neither = if_else_block(number("1"), None, None);
    assert_eq!(neither.blocks()[0].inputs, vec![("CONDITION".to_string(), number("1"))]);
    assert_eq!(neither.blocks()[0].opcode, "control_if_else");
}

#[test]
fn clone_copies_nested_stacks() {
    let mut inner = Block::new("looks_say");
    inner.add_input("MESSAGE", Input::literal(LiteralKind::String, "hi".to_string()));
    inner.add_field("EFFECT", Field::new("ghost".to_string()));
    let stack = if_else_block(
        number("1"),
        Some(Input::stack(BlockStack::start(inner).next(BlockStack::start(Block::new("b"))))),
        None,
    );
    let copy = stack.clone();
    assert_eq!(copy, stack);
    assert_eq!(copy.blocks()[0].clone(), stack.blocks()[0]);
    let input = stack.blocks()[0].input("SUBSTACK").map(|input| input.clone());
    assert_eq!(input.as_ref(), stack.blocks()[0].input("SUBSTACK"));
}

#[test]
fn clone_copies_literals_and_fields() {
    let literal = Literal { kind: LiteralKind::Integer, text: "-4".to_string() };
    assert_eq!(literal.clone(), literal);
    let field = Field::new_with_kind("names".to_string(), FieldKind::SpriteList);
    assert_eq!(field.clone(), field);
}
