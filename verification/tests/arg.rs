use sb_scratchy::scripting::arg::{
    Angle, Bool, Broadcast, GlobalList, GlobalVar, Integer, IntoField, IntoInput, IntoString,
    JustReporter, List, MenuReporter, NoRef, Number, PositiveInteger, PositiveNumber, Reporter,
    SpriteList, SpriteVar, Stack, Text, Value, Variable,
};
use sb_scratchy::scripting::block::{
    Block, BlockStack, Field, FieldKind, Input, Literal, LiteralKind,
};
use sb_scratchy::scripting::decimal::{signed_text, unsigned_text};
use sb_scratchy::scripting::stack::{
    CapBlock, StackBlock, TypedStackBuilder, UnstackableSide,
};

fn literal(kind: LiteralKind, text: &str) -> Input {
    Input::Literal(Literal { kind, text: text.to_string() })
}

fn field(value: &str, kind: FieldKind) -> Field {
    Field { value: value.to_string(), kind }
}

#[test]
fn unsigned_text_is_decimal() {
    assert_eq!(unsigned_text(0), "0");
    assert_eq!(unsigned_text(7), "7");
    assert_eq!(unsigned_text(10), "10");
    assert_eq!(unsigned_text(109), "109");
    assert_eq!(unsigned_text(1_000_000), "1000000");
    assert_eq!(unsigned_text(u64::MAX as u128), "18446744073709551615");
    assert_eq!(unsigned_text(u128::MAX), "340282366920938463463374607431768211455");
}

#[test]
fn signed_text_is_decimal_with_a_sign() {
    assert_eq!(signed_text(0), "0");
    assert_eq!(signed_text(-1), "-1");
    assert_eq!(signed_text(42), "42");
    assert_eq!(signed_text(-120), "-120");
    assert_eq!(signed_text(i64::MIN as i128), "-9223372036854775808");
    assert_eq!(signed_text(i128::MAX), "170141183460469231731687303715884105727");
    assert_eq!(signed_text(i128::MIN), "-170141183460469231731687303715884105728");
}

#[test]
fn decimal_text_agrees_with_std_and_reads_back() {
    let unsigned: [u128; 9] =
        [0, 1, 9, 10, 11, 99, 100, 12345678901234567890, u128::MAX];
    for n in unsigned {
        let text = unsigned_text(n);
        assert_eq!(text, n.to_string());
        assert_eq!(text.parse::<u128>(), Ok(n));
    }
    let signed: [i128; 9] = [0, 1, -1, 9, -9, 10, -10, i128::MAX, i128::MIN];
    for n in signed {
        let text = signed_text(n);
        assert_eq!(text, n.to_string());
        assert_eq!(text.parse::<i128>(), Ok(n));
    }
}

#[test]
fn number_takes_every_integer_type() {
    let number = |text: &str| literal(LiteralKind::Number, text);
    assert_eq!(IntoInput::<Number>::into_input(-8i8), number("-8"));
    assert_eq!(IntoInput::<Number>::into_input(i8::MIN), number("-128"));
    assert_eq!(IntoInput::<Number>::into_input(-16i16), number("-16"));
    assert_eq!(IntoInput::<Number>::into_input(-32i32), number("-32"));
    assert_eq!(IntoInput::<Number>::into_input(i32::MIN), number("-2147483648"));
    assert_eq!(IntoInput::<Number>::into_input(-64i64), number("-64"));
    assert_eq!(IntoInput::<Number>::into_input(i64::MAX), number("9223372036854775807"));
    assert_eq!(IntoInput::<Number>::into_input(-128i128), number("-128"));
    assert_eq!(IntoInput::<Number>::into_input(-5isize), number("-5"));
    assert_eq!(IntoInput::<Number>::into_input(8u8), number("8"));
    assert_eq!(IntoInput::<Number>::into_input(u8::MAX), number("255"));
    assert_eq!(IntoInput::<Number>::into_input(16u16), number("16"));
    assert_eq!(IntoInput::<Number>::into_input(32u32), number("32"));
    assert_eq!(IntoInput::<Number>::into_input(64u64), number("64"));
    assert_eq!(IntoInput::<Number>::into_input(u64::MAX), number("18446744073709551615"));
    assert_eq!(IntoInput::<Number>::into_input(128u128), number("128"));
    assert_eq!(IntoInput::<Number>::into_input(5usize), number("5"));
}

#[test]
fn positive_number_takes_unsigned_integers() {
    let positive = |text: &str| literal(LiteralKind::PositiveNumber, text);
    assert_eq!(IntoInput::<PositiveNumber>::into_input(0u8), positive("0"));
    assert_eq!(IntoInput::<PositiveNumber>::into_input(300u16), positive("300"));
    assert_eq!(IntoInput::<PositiveNumber>::into_input(70000u32), positive("70000"));
    assert_eq!(IntoInput::<PositiveNumber>::into_input(5000000000u64), positive("5000000000"));
    assert_eq!(IntoInput::<PositiveNumber>::into_input(1u128 << 100), positive("1267650600228229401496703205376"));
    assert_eq!(IntoInput::<PositiveNumber>::into_input(12usize), positive("12"));
}

#[test]
fn positive_integer_takes_unsigned_integers() {
    let positive = |text: &str| literal(LiteralKind::PositiveInteger, text);
    assert_eq!(IntoInput::<PositiveInteger>::into_input(1u8), positive("1"));
    assert_eq!(IntoInput::<PositiveInteger>::into_input(u16::MAX), positive("65535"));
    assert_eq!(IntoInput::<PositiveInteger>::into_input(u32::MAX), positive("4294967295"));
    assert_eq!(IntoInput::<PositiveInteger>::into_input(10u64), positive("10"));
    assert_eq!(IntoInput::<PositiveInteger>::into_input(10u128), positive("10"));
    assert_eq!(IntoInput::<PositiveInteger>::into_input(0usize), positive("0"));
}

#[test]
fn integer_takes_every_integer_type() {
    let integer = |text: &str| literal(LiteralKind::Integer, text);
    assert_eq!(IntoInput::<Integer>::into_input(-1i8), integer("-1"));
    assert_eq!(IntoInput::<Integer>::into_input(i16::MIN), integer("-32768"));
    assert_eq!(IntoInput::<Integer>::into_input(1000i32), integer("1000"));
    assert_eq!(IntoInput::<Integer>::into_input(i64::MIN), integer("-9223372036854775808"));
    assert_eq!(
        IntoInput::<Integer>::into_input(i128::MIN),
        integer("-170141183460469231731687303715884105728")
    );
    assert_eq!(IntoInput::<Integer>::into_input(-77isize), integer("-77"));
    assert_eq!(IntoInput::<Integer>::into_input(1u8), integer("1"));
    assert_eq!(IntoInput::<Integer>::into_input(2u16), integer("2"));
    assert_eq!(IntoInput::<Integer>::into_input(3u32), integer("3"));
    assert_eq!(IntoInput::<Integer>::into_input(4u64), integer("4"));
    assert_eq!(IntoInput::<Integer>::into_input(5u128), integer("5"));
    assert_eq!(IntoInput::<Integer>::into_input(6usize), integer("6"));
}

#[test]
fn angle_takes_every_integer_type() {
    let angle = |text: &str| literal(LiteralKind::Angle, text);
    assert_eq!(IntoInput::<Angle>::into_input(-90i8), angle("-90"));
    assert_eq!(IntoInput::<Angle>::into_input(180i16), angle("180"));
    assert_eq!(IntoInput::<Angle>::into_input(-180i32), angle("-180"));
    assert_eq!(IntoInput::<Angle>::into_input(360i64), angle("360"));
    assert_eq!(IntoInput::<Angle>::into_input(-360i128), angle("-360"));
    assert_eq!(IntoInput::<Angle>::into_input(15isize), angle("15"));
    assert_eq!(IntoInput::<Angle>::into_input(90u8), angle("90"));
    assert_eq!(IntoInput::<Angle>::into_input(270u16), angle("270"));
    assert_eq!(IntoInput::<Angle>::into_input(45u32), angle("45"));
    assert_eq!(IntoInput::<Angle>::into_input(30u64), angle("30"));
    assert_eq!(IntoInput::<Angle>::into_input(60u128), angle("60"));
    assert_eq!(IntoInput::<Angle>::into_input(0usize), angle("0"));
}

#[test]
fn value_takes_integers_as_numbers_and_strings_as_text() {
    let number = |text: &str| literal(LiteralKind::Number, text);
    assert_eq!(IntoInput::<Value>::into_input(-3i8), number("-3"));
    assert_eq!(IntoInput::<Value>::into_input(-3i16), number("-3"));
    assert_eq!(IntoInput::<Value>::into_input(-3i32), number("-3"));
    assert_eq!(IntoInput::<Value>::into_input(-3i64), number("-3"));
    assert_eq!(IntoInput::<Value>::into_input(-3i128), number("-3"));
    assert_eq!(IntoInput::<Value>::into_input(-3isize), number("-3"));
    assert_eq!(IntoInput::<Value>::into_input(3u8), number("3"));
    assert_eq!(IntoInput::<Value>::into_input(3u16), number("3"));
    assert_eq!(IntoInput::<Value>::into_input(3u32), number("3"));
    assert_eq!(IntoInput::<Value>::into_input(3u64), number("3"));
    assert_eq!(IntoInput::<Value>::into_input(3u128), number("3"));
    assert_eq!(IntoInput::<Value>::into_input(3usize), number("3"));
    assert_eq!(
        IntoInput::<Value>::into_input("3"),
        literal(LiteralKind::String, "3")
    );
    assert_eq!(
        IntoInput::<Value>::into_input(String::from("three")),
        literal(LiteralKind::String, "three")
    );
}

#[test]
fn text_is_kept_as_it_is() {
    assert_eq!(
        IntoInput::<Text>::into_input("Hello, world!"),
        literal(LiteralKind::String, "Hello, world!")
    );
    assert_eq!(
        IntoInput::<Text>::into_input(String::from("  \"quoted\" \u{e9}\n")),
        literal(LiteralKind::String, "  \"quoted\" \u{e9}\n")
    );
    assert_eq!(IntoInput::<Text>::into_input(""), literal(LiteralKind::String, ""));
}

#[test]
fn bool_is_one_or_zero() {
    assert_eq!(IntoInput::<Bool>::into_input(true), literal(LiteralKind::Number, "1"));
    assert_eq!(IntoInput::<Bool>::into_input(false), literal(LiteralKind::Number, "0"));
}

#[test]
fn stack_goes_in_as_a_nested_stack() {
    let body: StackBlock = TypedStackBuilder::<_, _>::start(Block::new("a"))
        .next(TypedStackBuilder::<sb_scratchy::scripting::stack::StackableSide, _>::start(Block::new("b")));
    let expect = BlockStack::start(Block::new("a")).next(BlockStack::start(Block::new("b")));
    assert_eq!(IntoInput::<Stack>::into_input(body), Input::Stack(expect));
    let cap: CapBlock = TypedStackBuilder::start(Block::new("control_stop"));
    assert_eq!(
        IntoInput::<Stack>::into_input(cap),
        Input::Stack(BlockStack::start(Block::new("control_stop")))
    );
}

#[test]
fn reporter_goes_in_as_a_nested_stack() {
    let reporter: JustReporter<Number> =
        Reporter::new(TypedStackBuilder::start(Block::new("operator_add")));
    assert_eq!(
        reporter.into_input(),
        Input::Stack(BlockStack::start(Block::new("operator_add")))
    );
    let menu: MenuReporter = TypedStackBuilder::start(Block::new("sensing_keyoptions")).into();
    assert_eq!(
        IntoInput::<Text>::into_input(menu),
        Input::Stack(BlockStack::start(Block::new("sensing_keyoptions")))
    );
}

#[test]
fn reporter_from_keeps_the_stack() {
    let from: Reporter<Bool, UnstackableSide, UnstackableSide> =
        Reporter::from(TypedStackBuilder::start(Block::new("operator_equals")));
    let new: Reporter<Bool, UnstackableSide, UnstackableSide> =
        Reporter::new(TypedStackBuilder::start(Block::new("operator_equals")));
    assert_eq!(from, new);
    assert_eq!(from.0.into_untyped(), BlockStack::start(Block::new("operator_equals")));
}

#[test]
fn bare_string_is_a_field_that_names_nothing() {
    assert_eq!(<&str as IntoField>::into_field("ghost"), field("ghost", FieldKind::NoRef));
    assert_eq!(
        <String as IntoField>::into_field(String::from("color")),
        field("color", FieldKind::NoRef)
    );
    assert_eq!(IntoField::<NoRef>::into_field(""), field("", FieldKind::NoRef));
}

#[test]
fn broadcast_field() {
    assert_eq!(
        IntoField::<Broadcast>::into_field("game over"),
        field("game over", FieldKind::Broadcast)
    );
    assert_eq!(
        IntoField::<Broadcast>::into_field(String::from("start")),
        field("start", FieldKind::Broadcast)
    );
}

#[test]
fn variable_fields() {
    assert_eq!(
        IntoField::<Variable>::into_field(GlobalVar("score")),
        field("score", FieldKind::GlobalVariable)
    );
    assert_eq!(
        IntoField::<Variable>::into_field(SpriteVar(String::from("lives"))),
        field("lives", FieldKind::SpriteVariable)
    );
}

#[test]
fn list_fields() {
    assert_eq!(
        IntoField::<List>::into_field(GlobalList("names")),
        field("names", FieldKind::GlobalList)
    );
    assert_eq!(
        IntoField::<List>::into_field(SpriteList(String::from("path"))),
        field("path", FieldKind::SpriteList)
    );
}

#[test]
fn into_string_keeps_the_characters() {
    assert_eq!("a\u{1F600}b".into_string(), "a\u{1F600}b");
    assert_eq!(String::from("owned").into_string(), "owned");
}

#[test]
fn field_constructors() {
    assert_eq!(Field::new("x".to_string()), field("x", FieldKind::NoRef));
    assert_eq!(
        Field::new_with_kind("x".to_string(), FieldKind::SpriteList),
        field("x", FieldKind::SpriteList)
    );
}

#[test]
fn reporter_clone_keeps_the_stack() {
    let reporter: JustReporter<Number> =
        Reporter::new(TypedStackBuilder::start(Block::new("operator_add")));
    let copy = reporter.clone();
    assert_eq!(copy, reporter);
    assert_eq!(copy.into_input(), reporter.into_input());
}
