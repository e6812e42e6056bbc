//! Argument/Input in Scratch block
//!
//! A block has two kinds of slot. An input slot holds a literal or a nested
//! stack; a field slot holds a string, which may name a variable, a list or a
//! broadcast. [`IntoInput`] and [`IntoField`] say which values may go into
//! which slot: there is an impl for each pair of a value's type and a slot's
//! marker that is allowed, and no other pair has one.

use crate::scripting::block::{Field, FieldKind, FieldModel, Input, InputModel, LiteralKind};
use crate::scripting::decimal::{
    decimal_text, lemma_text_round_trip, signed_text, text_value, unsigned_text,
};
use crate::scripting::stack::{
    SideMarker, StackableSide, TypedStackBuilder, TypedStackModel, UnstackableSide,
};
use std::marker::PhantomData;
use vstd::prelude::*;
use vstd::std_specs::convert::FromSpecImpl;

verus! {

/// Marker for [`IntoInput`] that this stack reports a value of type `T` and can be inserted
/// into an input of that type.
#[derive(Debug, PartialEq)]
pub struct Reporter<T, S: SideMarker, E: SideMarker>(
    pub TypedStackBuilder<S, E>,
    pub PhantomData<T>,
);

/// Just the classic Scratch reporter
pub type JustReporter<T> = Reporter<T, UnstackableSide, UnstackableSide>;

/// This is a kind of reporter that you can select item from a menu.
pub type MenuReporter = JustReporter<Text>;

impl<T, S: SideMarker, E: SideMarker> View for Reporter<T, S, E> {
    type V = TypedStackModel;

    open spec fn view(&self) -> TypedStackModel {
        self.0@
    }
}

impl<T, S: SideMarker, E: SideMarker> Reporter<T, S, E> {
    /// Declares that the stack reports a value of type `T`.
    pub fn new(typed_stack_builder: TypedStackBuilder<S, E>) -> (r: Reporter<T, S, E>)
        ensures
            r == Reporter::<T, S, E>(typed_stack_builder, PhantomData),
    {
        Reporter(typed_stack_builder, PhantomData)
    }
}

impl<T, S: SideMarker, E: SideMarker> Clone for Reporter<T, S, E> {
    fn clone(&self) -> (r: Self)
        ensures
            r@ == self@,
    {
        Reporter(self.0.clone(), PhantomData)
    }
}

impl<T, S: SideMarker, E: SideMarker> From<TypedStackBuilder<S, E>> for Reporter<T, S, E> {
    fn from(stb: TypedStackBuilder<S, E>) -> (r: Self) {
        Reporter::new(stb)
    }
}

impl<T, S: SideMarker, E: SideMarker> FromSpecImpl<TypedStackBuilder<S, E>> for Reporter<T, S, E> {
    open spec fn obeys_from_spec() -> bool {
        true
    }

    open spec fn from_spec(stb: TypedStackBuilder<S, E>) -> Self {
        Reporter(stb, PhantomData)
    }
}

/// A number of any kind.
#[derive(Debug, Default, Clone, Copy, PartialEq, Eq)]
pub struct Number;

/// A number that is not negative.
#[derive(Debug, Default, Clone, Copy, PartialEq, Eq)]
pub struct PositiveNumber;

/// A whole number that is not negative.
#[derive(Debug, Default, Clone, Copy, PartialEq, Eq)]
pub struct PositiveInteger;

/// A whole number.
#[derive(Debug, Default, Clone, Copy, PartialEq, Eq)]
pub struct Integer;

/// A number with a fraction.
#[derive(Debug, Default, Clone, Copy, PartialEq, Eq)]
pub struct Float;

/// A direction in degrees.
#[derive(Debug, Default, Clone, Copy, PartialEq, Eq)]
pub struct Angle;

/// A colour.
#[derive(Debug, Default, Clone, Copy, PartialEq, Eq)]
pub struct Color;

/// A string.
#[derive(Debug, Default, Clone, Copy, PartialEq, Eq)]
pub struct Text;

/// A condition.
#[derive(Debug, Default, Clone, Copy, PartialEq, Eq)]
pub struct Bool;

/// Could be text or number
#[derive(Debug, Default, Clone, Copy, PartialEq, Eq)]
pub struct Value;

/// A run of statements used as a body.
#[derive(Debug, Default, Clone, Copy, PartialEq, Eq)]
pub struct Stack;

/// this is for IntoField when the field names nothing
#[derive(Debug, Default, Clone, Copy, PartialEq, Eq)]
pub struct NoRef;

/// A field that names a broadcast.
#[derive(Debug, Default, Clone, Copy, PartialEq, Eq)]
pub struct Broadcast;

/// A field that names a variable.
#[derive(Debug, Default, Clone, Copy, PartialEq, Eq)]
pub struct Variable;

/// A field that names a list.
#[derive(Debug, Default, Clone, Copy, PartialEq, Eq)]
pub struct List;

// Input =========================================================================
/// A value that may go into an input slot of type `T`.
pub trait IntoInput<T>: Sized {
    /// What the slot holds once the value is in it.
    spec fn input_model(self) -> InputModel;

    /// Puts the value into the slot. This cannot fail.
    fn into_input(self) -> (r: Input)
        ensures
            r@ == self.input_model(),
    ;
}

/// The literal that holds `value` in decimal.
pub open spec fn integer_literal(kind: LiteralKind, value: int) -> InputModel {
    InputModel::Literal { kind, text: decimal_text(value) }
}

/// The literal that holds `text` as it is.
pub open spec fn string_literal(text: Seq<char>) -> InputModel {
    InputModel::Literal { kind: LiteralKind::String, text }
}

/// The literal that holds a truth value: the number 1 for true, 0 for false.
pub open spec fn bool_literal(value: bool) -> InputModel {
    InputModel::Literal {
        kind: LiteralKind::Number,
        text: if value {
            seq!['1']
        } else {
            seq!['0']
        },
    }
}

impl InputModel {
    /// The integer that a literal holds, read back from its text.
    pub open spec fn integer(self) -> int
        recommends
            self is Literal,
    {
        text_value(self->text)
    }
}

/// An integer put into a literal is read back unchanged, whatever the kind
/// of the literal.
pub proof fn lemma_integer_literal_round_trip(kind: LiteralKind, value: int)
    ensures
        integer_literal(kind, value) is Literal,
        integer_literal(kind, value)->kind == kind,
        integer_literal(kind, value).integer() == value,
{
    lemma_text_round_trip(value);
}

/// A truth value is held as the integer 1 or 0.
pub proof fn lemma_bool_literal_is_integer(value: bool)
    ensures
        bool_literal(value) == integer_literal(
            LiteralKind::Number,
            if value {
                1
            } else {
                0
            },
        ),
{
    assert(decimal_text(1) =~= seq!['1']);
    assert(decimal_text(0) =~= seq!['0']);
}

fn signed_literal(kind: LiteralKind, value: i128) -> (r: Input)
    ensures
        r@ == integer_literal(kind, value as int),
{
    Input::literal(kind, signed_text(value))
}

fn unsigned_literal(kind: LiteralKind, value: u128) -> (r: Input)
    ensures
        r@ == integer_literal(kind, value as int),
{
    Input::literal(kind, unsigned_text(value))
}

impl<T, S: SideMarker, E: SideMarker> IntoInput<T> for Reporter<T, S, E> {
    open spec fn input_model(self) -> InputModel {
        InputModel::Stack(self@.blocks)
    }

    fn into_input(self) -> (r: Input) {
        Input::stack(self.0.into_untyped())
    }
}

impl IntoInput<Number> for i128 {
    open spec fn input_model(self) -> InputModel {
        integer_literal(LiteralKind::Number, self as int)
    }

    fn into_input(self) -> (r: Input) {
        signed_literal(LiteralKind::Number, self)
    }
}

impl IntoInput<Number> for i64 {
    open spec fn input_model(self) -> InputModel {
        integer_literal(LiteralKind::Number, self as int)
    }

    fn into_input(self) -> (r: Input) {
        signed_literal(LiteralKind::Number, self as i128)
    }
}

impl IntoInput<Number> for i32 {
    open spec fn input_model(self) -> InputModel {
        integer_literal(LiteralKind::Number, self as int)
    }

    fn into_input(self) -> (r: Input) {
        signed_literal(LiteralKind::Number, self as i128)
    }
}

impl IntoInput<Number> for i16 {
    open spec fn input_model(self) -> InputModel {
        integer_literal(LiteralKind::Number, self as int)
    }

    fn into_input(self) -> (r: Input) {
        signed_literal(LiteralKind::Number, self as i128)
    }
}

impl IntoInput<Number> for i8 {
    open spec fn input_model(self) -> InputModel {
        integer_literal(LiteralKind::Number, self as int)
    }

    fn into_input(self) -> (r: Input) {
        signed_literal(LiteralKind::Number, self as i128)
    }
}

impl IntoInput<Number> for isize {
    open spec fn input_model(self) -> InputModel {
        integer_literal(LiteralKind::Number, self as int)
    }

    fn into_input(self) -> (r: Input) {
        signed_literal(LiteralKind::Number, self as i128)
    }
}

impl IntoInput<Number> for u128 {
    open spec fn input_model(self) -> InputModel {
        integer_literal(LiteralKind::Number, self as int)
    }

    fn into_input(self) -> (r: Input) {
        unsigned_literal(LiteralKind::Number, self)
    }
}

impl IntoInput<Number> for u64 {
    open spec fn input_model(self) -> InputModel {
        integer_literal(LiteralKind::Number, self as int)
    }

    fn into_input(self) -> (r: Input) {
        unsigned_literal(LiteralKind::Number, self as u128)
    }
}

impl IntoInput<Number> for u32 {
    open spec fn input_model(self) -> InputModel {
        integer_literal(LiteralKind::Number, self as int)
    }

    fn into_input(self) -> (r: Input) {
        unsigned_literal(LiteralKind::Number, self as u128)
    }
}

impl IntoInput<Number> for u16 {
    open spec fn input_model(self) -> InputModel {
        integer_literal(LiteralKind::Number, self as int)
    }

    fn into_input(self) -> (r: Input) {
        unsigned_literal(LiteralKind::Number, self as u128)
    }
}

impl IntoInput<Number> for u8 {
    open spec fn input_model(self) -> InputModel {
        integer_literal(LiteralKind::Number, self as int)
    }

    fn into_input(self) -> (r: Input) {
        unsigned_literal(LiteralKind::Number, self as u128)
    }
}

impl IntoInput<Number> for usize {
    open spec fn input_model(self) -> InputModel {
        integer_literal(LiteralKind::Number, self as int)
    }

    fn into_input(self) -> (r: Input) {
        unsigned_literal(LiteralKind::Number, self as u128)
    }
}

impl IntoInput<PositiveNumber> for u128 {
    open spec fn input_model(self) -> InputModel {
        integer_literal(LiteralKind::PositiveNumber, self as int)
    }

    fn into_input(self) -> (r: Input) {
        unsigned_literal(LiteralKind::PositiveNumber, self)
    }
}

impl IntoInput<PositiveNumber> for u64 {
    open spec fn input_model(self) -> InputModel {
        integer_literal(LiteralKind::PositiveNumber, self as int)
    }

    fn into_input(self) -> (r: Input) {
        unsigned_literal(LiteralKind::PositiveNumber, self as u128)
    }
}

impl IntoInput<PositiveNumber> for u32 {
    open spec fn input_model(self) -> InputModel {
        integer_literal(LiteralKind::PositiveNumber, self as int)
    }

    fn into_input(self) -> (r: Input) {
        unsigned_literal(LiteralKind::PositiveNumber, self as u128)
    }
}

impl IntoInput<PositiveNumber> for u16 {
    open spec fn input_model(self) -> InputModel {
        integer_literal(LiteralKind::PositiveNumber, self as int)
    }

    fn into_input(self) -> (r: Input) {
        unsigned_literal(LiteralKind::PositiveNumber, self as u128)
    }
}

impl IntoInput<PositiveNumber> for u8 {
    open spec fn input_model(self) -> InputModel {
        integer_literal(LiteralKind::PositiveNumber, self as int)
    }

    fn into_input(self) -> (r: Input) {
        unsigned_literal(LiteralKind::PositiveNumber, self as u128)
    }
}

impl IntoInput<PositiveNumber> for usize {
    open spec fn input_model(self) -> InputModel {
        integer_literal(LiteralKind::PositiveNumber, self as int)
    }

    fn into_input(self) -> (r: Input) {
        unsigned_literal(LiteralKind::PositiveNumber, self as u128)
    }
}

impl IntoInput<PositiveInteger> for u128 {
    open spec fn input_model(self) -> InputModel {
        integer_literal(LiteralKind::PositiveInteger, self as int)
    }

    fn into_input(self) -> (r: Input) {
        unsigned_literal(LiteralKind::PositiveInteger, self)
    }
}

impl IntoInput<PositiveInteger> for u64 {
    open spec fn input_model(self) -> InputModel {
        integer_literal(LiteralKind::PositiveInteger, self as int)
    }

    fn into_input(self) -> (r: Input) {
        unsigned_literal(LiteralKind::PositiveInteger, self as u128)
    }
}

impl IntoInput<PositiveInteger> for u32 {
    open spec fn input_model(self) -> InputModel {
        integer_literal(LiteralKind::PositiveInteger, self as int)
    }

    fn into_input(self) -> (r: Input) {
        unsigned_literal(LiteralKind::PositiveInteger, self as u128)
    }
}

impl IntoInput<PositiveInteger> for u16 {
    open spec fn input_model(self) -> InputModel {
        integer_literal(LiteralKind::PositiveInteger, self as int)
    }

    fn into_input(self) -> (r: Input) {
        unsigned_literal(LiteralKind::PositiveInteger, self as u128)
    }
}

impl IntoInput<PositiveInteger> for u8 {
    open spec fn input_model(self) -> InputModel {
        integer_literal(LiteralKind::PositiveInteger, self as int)
    }

    fn into_input(self) -> (r: Input) {
        unsigned_literal(LiteralKind::PositiveInteger, self as u128)
    }
}

impl IntoInput<PositiveInteger> for usize {
    open spec fn input_model(self) -> InputModel {
        integer_literal(LiteralKind::PositiveInteger, self as int)
    }

    fn into_input(self) -> (r: Input) {
        unsigned_literal(LiteralKind::PositiveInteger, self as u128)
    }
}

impl IntoInput<Integer> for i128 {
    open spec fn input_model(self) -> InputModel {
        integer_literal(LiteralKind::Integer, self as int)
    }

    fn into_input(self) -> (r: Input) {
        signed_literal(LiteralKind::Integer, self)
    }
}

impl IntoInput<Integer> for i64 {
    open spec fn input_model(self) -> InputModel {
        integer_literal(LiteralKind::Integer, self as int)
    }

    fn into_input(self) -> (r: Input) {
        signed_literal(LiteralKind::Integer, self as i128)
    }
}

impl IntoInput<Integer> for i32 {
    open spec fn input_model(self) -> InputModel {
        integer_literal(LiteralKind::Integer, self as int)
    }

    fn into_input(self) -> (r: Input) {
        signed_literal(LiteralKind::Integer, self as i128)
    }
}

impl IntoInput<Integer> for i16 {
    open spec fn input_model(self) -> InputModel {
        integer_literal(LiteralKind::Integer, self as int)
    }

    fn into_input(self) -> (r: Input) {
        signed_literal(LiteralKind::Integer, self as i128)
    }
}

impl IntoInput<Integer> for i8 {
    open spec fn input_model(self) -> InputModel {
        integer_literal(LiteralKind::Integer, self as int)
    }

    fn into_input(self) -> (r: Input) {
        signed_literal(LiteralKind::Integer, self as i128)
    }
}

impl IntoInput<Integer> for isize {
    open spec fn input_model(self) -> InputModel {
        integer_literal(LiteralKind::Integer, self as int)
    }

    fn into_input(self) -> (r: Input) {
        signed_literal(LiteralKind::Integer, self as i128)
    }
}

impl IntoInput<Integer> for u128 {
    open spec fn input_model(self) -> InputModel {
        integer_literal(LiteralKind::Integer, self as int)
    }

    fn into_input(self) -> (r: Input) {
        unsigned_literal(LiteralKind::Integer, self)
    }
}

impl IntoInput<Integer> for u64 {
    open spec fn input_model(self) -> InputModel {
        integer_literal(LiteralKind::Integer, self as int)
    }

    fn into_input(self) -> (r: Input) {
        unsigned_literal(LiteralKind::Integer, self as u128)
    }
}

impl IntoInput<Integer> for u32 {
    open spec fn input_model(self) -> InputModel {
        integer_literal(LiteralKind::Integer, self as int)
    }

    fn into_input(self) -> (r: Input) {
        unsigned_literal(LiteralKind::Integer, self as u128)
    }
}

impl IntoInput<Integer> for u16 {
    open spec fn input_model(self) -> InputModel {
        integer_literal(LiteralKind::Integer, self as int)
    }

    fn into_input(self) -> (r: Input) {
        unsigned_literal(LiteralKind::Integer, self as u128)
    }
}

impl IntoInput<Integer> for u8 {
    open spec fn input_model(self) -> InputModel {
        integer_literal(LiteralKind::Integer, self as int)
    }

    fn into_input(self) -> (r: Input) {
        unsigned_literal(LiteralKind::Integer, self as u128)
    }
}

impl IntoInput<Integer> for usize {
    open spec fn input_model(self) -> InputModel {
        integer_literal(LiteralKind::Integer, self as int)
    }

    fn into_input(self) -> (r: Input) {
        unsigned_literal(LiteralKind::Integer, self as u128)
    }
}

impl IntoInput<Angle> for i128 {
    open spec fn input_model(self) -> InputModel {
        integer_literal(LiteralKind::Angle, self as int)
    }

    fn into_input(self) -> (r: Input) {
        signed_literal(LiteralKind::Angle, self)
    }
}

impl IntoInput<Angle> for i64 {
    open spec fn input_model(self) -> InputModel {
        integer_literal(LiteralKind::Angle, self as int)
    }

    fn into_input(self) -> (r: Input) {
        signed_literal(LiteralKind::Angle, self as i128)
    }
}

impl IntoInput<Angle> for i32 {
    open spec fn input_model(self) -> InputModel {
        integer_literal(LiteralKind::Angle, self as int)
    }

    fn into_input(self) -> (r: Input) {
        signed_literal(LiteralKind::Angle, self as i128)
    }
}

impl IntoInput<Angle> for i16 {
    open spec fn input_model(self) -> InputModel {
        integer_literal(LiteralKind::Angle, self as int)
    }

    fn into_input(self) -> (r: Input) {
        signed_literal(LiteralKind::Angle, self as i128)
    }
}

impl IntoInput<Angle> for i8 {
    open spec fn input_model(self) -> InputModel {
        integer_literal(LiteralKind::Angle, self as int)
    }

    fn into_input(self) -> (r: Input) {
        signed_literal(LiteralKind::Angle, self as i128)
    }
}

impl IntoInput<Angle> for isize {
    open spec fn input_model(self) -> InputModel {
        integer_literal(LiteralKind::Angle, self as int)
    }

    fn into_input(self) -> (r: Input) {
        signed_literal(LiteralKind::Angle, self as i128)
    }
}

impl IntoInput<Angle> for u128 {
    open spec fn input_model(self) -> InputModel {
        integer_literal(LiteralKind::Angle, self as int)
    }

    fn into_input(self) -> (r: Input) {
        unsigned_literal(LiteralKind::Angle, self)
    }
}

impl IntoInput<Angle> for u64 {
    open spec fn input_model(self) -> InputModel {
        integer_literal(LiteralKind::Angle, self as int)
    }

    fn into_input(self) -> (r: Input) {
        unsigned_literal(LiteralKind::Angle, self as u128)
    }
}

impl IntoInput<Angle> for u32 {
    open spec fn input_model(self) -> InputModel {
        integer_literal(LiteralKind::Angle, self as int)
    }

    fn into_input(self) -> (r: Input) {
        unsigned_literal(LiteralKind::Angle, self as u128)
    }
}

impl IntoInput<Angle> for u16 {
    open spec fn input_model(self) -> InputModel {
        integer_literal(LiteralKind::Angle, self as int)
    }

    fn into_input(self) -> (r: Input) {
        unsigned_literal(LiteralKind::Angle, self as u128)
    }
}

impl IntoInput<Angle> for u8 {
    open spec fn input_model(self) -> InputModel {
        integer_literal(LiteralKind::Angle, self as int)
    }

    fn into_input(self) -> (r: Input) {
        unsigned_literal(LiteralKind::Angle, self as u128)
    }
}

impl IntoInput<Angle> for usize {
    open spec fn input_model(self) -> InputModel {
        integer_literal(LiteralKind::Angle, self as int)
    }

    fn into_input(self) -> (r: Input) {
        unsigned_literal(LiteralKind::Angle, self as u128)
    }
}

impl IntoInput<Value> for i128 {
    open spec fn input_model(self) -> InputModel {
        integer_literal(LiteralKind::Number, self as int)
    }

    fn into_input(self) -> (r: Input) {
        signed_literal(LiteralKind::Number, self)
    }
}

impl IntoInput<Value> for i64 {
    open spec fn input_model(self) -> InputModel {
        integer_literal(LiteralKind::Number, self as int)
    }

    fn into_input(self) -> (r: Input) {
        signed_literal(LiteralKind::Number, self as i128)
    }
}

impl IntoInput<Value> for i32 {
    open spec fn input_model(self) -> InputModel {
        integer_literal(LiteralKind::Number, self as int)
    }

    fn into_input(self) -> (r: Input) {
        signed_literal(LiteralKind::Number, self as i128)
    }
}

impl IntoInput<Value> for i16 {
    open spec fn input_model(self) -> InputModel {
        integer_literal(LiteralKind::Number, self as int)
    }

    fn into_input(self) -> (r: Input) {
        signed_literal(LiteralKind::Number, self as i128)
    }
}

impl IntoInput<Value> for i8 {
    open spec fn input_model(self) -> InputModel {
        integer_literal(LiteralKind::Number, self as int)
    }

    fn into_input(self) -> (r: Input) {
        signed_literal(LiteralKind::Number, self as i128)
    }
}

impl IntoInput<Value> for isize {
    open spec fn input_model(self) -> InputModel {
        integer_literal(LiteralKind::Number, self as int)
    }

    fn into_input(self) -> (r: Input) {
        signed_literal(LiteralKind::Number, self as i128)
    }
}

impl IntoInput<Value> for u128 {
    open spec fn input_model(self) -> InputModel {
        integer_literal(LiteralKind::Number, self as int)
    }

    fn into_input(self) -> (r: Input) {
        unsigned_literal(LiteralKind::Number, self)
    }
}

impl IntoInput<Value> for u64 {
    open spec fn input_model(self) -> InputModel {
        integer_literal(LiteralKind::Number, self as int)
    }

    fn into_input(self) -> (r: Input) {
        unsigned_literal(LiteralKind::Number, self as u128)
    }
}

impl IntoInput<Value> for u32 {
    open spec fn input_model(self) -> InputModel {
        integer_literal(LiteralKind::Number, self as int)
    }

    fn into_input(self) -> (r: Input) {
        unsigned_literal(LiteralKind::Number, self as u128)
    }
}

impl IntoInput<Value> for u16 {
    open spec fn input_model(self) -> InputModel {
        integer_literal(LiteralKind::Number, self as int)
    }

    fn into_input(self) -> (r: Input) {
        unsigned_literal(LiteralKind::Number, self as u128)
    }
}

impl IntoInput<Value> for u8 {
    open spec fn input_model(self) -> InputModel {
        integer_literal(LiteralKind::Number, self as int)
    }

    fn into_input(self) -> (r: Input) {
        unsigned_literal(LiteralKind::Number, self as u128)
    }
}

impl IntoInput<Value> for usize {
    open spec fn input_model(self) -> InputModel {
        integer_literal(LiteralKind::Number, self as int)
    }

    fn into_input(self) -> (r: Input) {
        unsigned_literal(LiteralKind::Number, self as u128)
    }
}

impl IntoInput<Text> for String {
    open spec fn input_model(self) -> InputModel {
        string_literal(self@)
    }

    fn into_input(self) -> (r: Input) {
        Input::literal(LiteralKind::String, self)
    }
}

impl IntoInput<Value> for String {
    open spec fn input_model(self) -> InputModel {
        string_literal(self@)
    }

    fn into_input(self) -> (r: Input) {
        Input::literal(LiteralKind::String, self)
    }
}

impl IntoInput<Text> for &str {
    open spec fn input_model(self) -> InputModel {
        string_literal(self@)
    }

    fn into_input(self) -> (r: Input) {
        Input::literal(LiteralKind::String, self.to_owned())
    }
}

impl IntoInput<Value> for &str {
    open spec fn input_model(self) -> InputModel {
        string_literal(self@)
    }

    fn into_input(self) -> (r: Input) {
        Input::literal(LiteralKind::String, self.to_owned())
    }
}

impl IntoInput<Bool> for bool {
    open spec fn input_model(self) -> InputModel {
        bool_literal(self)
    }

    fn into_input(self) -> (r: Input) {
        proof {
            reveal_strlit("1");
            reveal_strlit("0");
        }
        let text = if self {
            "1"
        } else {
            "0"
        };
        assert(text@ =~= bool_literal(self)->text);
        Input::literal(LiteralKind::Number, text.to_owned())
    }
}

impl<E: SideMarker> IntoInput<Stack> for TypedStackBuilder<StackableSide, E> {
    open spec fn input_model(self) -> InputModel {
        InputModel::Stack(self@.blocks)
    }

    fn into_input(self) -> (r: Input) {
        Input::stack(self.into_untyped())
    }
}

// Field ====================================================================
/// A value that can be turned into an owned string.
pub trait IntoString: Sized {
    /// The characters of the string.
    spec fn string_model(self) -> Seq<char>;

    /// The owned string.
    fn into_string(self) -> (r: String)
        ensures
            r@ == self.string_model(),
    ;
}

impl IntoString for String {
    open spec fn string_model(self) -> Seq<char> {
        self@
    }

    fn into_string(self) -> (r: String) {
        self
    }
}

impl IntoString for &str {
    open spec fn string_model(self) -> Seq<char> {
        self@
    }

    fn into_string(self) -> (r: String) {
        self.to_owned()
    }
}

/// A value that may go into a field slot of kind `T`.
pub trait IntoField<T = NoRef>: Sized {
    /// What the slot holds once the value is in it.
    spec fn field_model(self) -> FieldModel;

    /// Puts the value into the slot. This cannot fail.
    fn into_field(self) -> (r: Field)
        ensures
            r@ == self.field_model(),
    ;
}

impl<S: IntoString> IntoField for S {
    open spec fn field_model(self) -> FieldModel {
        FieldModel { value: self.string_model(), kind: FieldKind::NoRef }
    }

    fn into_field(self) -> (r: Field) {
        Field::new(self.into_string())
    }
}

impl<S: IntoString> IntoField<Broadcast> for S {
    open spec fn field_model(self) -> FieldModel {
        FieldModel { value: self.string_model(), kind: FieldKind::Broadcast }
    }

    fn into_field(self) -> (r: Field) {
        Field::new_with_kind(self.into_string(), FieldKind::Broadcast)
    }
}

/// The name of a variable that all sprites share.
#[derive(Debug, Default, Clone, Copy, PartialEq, Eq)]
pub struct GlobalVar<S: IntoString>(pub S);

/// The name of a variable that belongs to one sprite.
#[derive(Debug, Default, Clone, Copy, PartialEq, Eq)]
pub struct SpriteVar<S: IntoString>(pub S);

/// The name of a list that all sprites share.
#[derive(Debug, Default, Clone, Copy, PartialEq, Eq)]
pub struct GlobalList<S: IntoString>(pub S);

/// The name of a list that belongs to one sprite.
#[derive(Debug, Default, Clone, Copy, PartialEq, Eq)]
pub struct SpriteList<S: IntoString>(pub S);

impl<S: IntoString> IntoField<Variable> for GlobalVar<S> {
    open spec fn field_model(self) -> FieldModel {
        FieldModel { value: self.0.string_model(), kind: FieldKind::GlobalVariable }
    }

    fn into_field(self) -> (r: Field) {
        Field::new_with_kind(self.0.into_string(), FieldKind::GlobalVariable)
    }
}

impl<S: IntoString> IntoField<Variable> for SpriteVar<S> {
    open spec fn field_model(self) -> FieldModel {
        FieldModel { value: self.0.string_model(), kind: FieldKind::SpriteVariable }
    }

    fn into_field(self) -> (r: Field) {
        Field::new_with_kind(self.0.into_string(), FieldKind::SpriteVariable)
    }
}

impl<S: IntoString> IntoField<List> for GlobalList<S> {
    open spec fn field_model(self) -> FieldModel {
        FieldModel { value: self.0.string_model(), kind: FieldKind::GlobalList }
    }

    fn into_field(self) -> (r: Field) {
        Field::new_with_kind(self.0.into_string(), FieldKind::GlobalList)
    }
}

impl<S: IntoString> IntoField<List> for SpriteList<S> {
    open spec fn field_model(self) -> FieldModel {
        FieldModel { value: self.0.string_model(), kind: FieldKind::SpriteList }
    }

    fn into_field(self) -> (r: Field) {
        Field::new_with_kind(self.0.into_string(), FieldKind::SpriteList)
    }
}

} // verus!
