//! Blocks, their slots, and plain stacks of blocks.
//!
//! A [`Block`] is an operation identifier with named input slots and named
//! field slots. A [`BlockStack`] is a non-empty run of blocks, top to bottom.
//! Contracts speak of these values through their views: [`BlockModel`],
//! [`InputModel`], [`FieldModel`] and `Seq<BlockModel>`.

use vstd::prelude::*;

verus! {

/// How the text of a literal is to be read by the block that owns it.
#[derive(Debug, Clone, Copy, PartialEq, Eq, Structural)]
pub enum LiteralKind {
    Number,
    PositiveNumber,
    PositiveInteger,
    Integer,
    Angle,
    String,
}

/// What a field refers to, if anything.
#[derive(Debug, Clone, Copy, PartialEq, Eq, Structural)]
pub enum FieldKind {
    NoRef,
    Broadcast,
    GlobalVariable,
    SpriteVariable,
    GlobalList,
    SpriteList,
}

/// A literal held by an input slot.
#[derive(Debug, PartialEq, Eq)]
pub struct Literal {
    pub kind: LiteralKind,
    pub text: String,
}

/// What an input slot holds: a literal, or a nested stack of blocks.
#[derive(Debug, PartialEq, Eq)]
pub enum Input {
    Literal(Literal),
    Stack(BlockStack),
}

/// What a field slot holds: a string and the kind of thing it names.
#[derive(Debug, PartialEq, Eq)]
pub struct Field {
    pub value: String,
    pub kind: FieldKind,
}

/// One block: an operation with its input and field slots, in the order in
/// which they were added.
#[derive(Debug, PartialEq, Eq)]
pub struct Block {
    pub opcode: String,
    pub inputs: Vec<(String, Input)>,
    pub fields: Vec<(String, Field)>,
}

/// A non-empty run of blocks, the first on top.
#[derive(Debug, PartialEq, Eq)]
pub struct BlockStack {
    blocks: Vec<Block>,
}

/// The value of an [`Input`].
pub enum InputModel {
    Literal { kind: LiteralKind, text: Seq<char> },
    Stack(Seq<BlockModel>),
}

/// The value of a [`Field`].
pub struct FieldModel {
    pub value: Seq<char>,
    pub kind: FieldKind,
}

/// The value of a [`Block`].
pub struct BlockModel {
    pub opcode: Seq<char>,
    pub inputs: Seq<(Seq<char>, InputModel)>,
    pub fields: Seq<(Seq<char>, FieldModel)>,
}

/// The value of an input.
pub open spec fn input_model(input: Input) -> InputModel
    decreases input,
{
    match input {
        Input::Literal(literal) => InputModel::Literal { kind: literal.kind, text: literal.text@ },
        Input::Stack(stack) => InputModel::Stack(stack_model(stack)),
    }
}

/// The values of the blocks of a stack, top to bottom.
pub closed spec fn stack_model(stack: BlockStack) -> Seq<BlockModel>
    decreases stack,
{
    blocks_model(stack.blocks@)
}

/// The value of a block.
pub open spec fn block_model(block: Block) -> BlockModel
    decreases block,
{
    BlockModel {
        opcode: block.opcode@,
        inputs: input_slots_model(block.inputs@),
        fields: field_slots_model(block.fields@),
    }
}

/// The values of a run of blocks, in order.
pub open spec fn blocks_model(blocks: Seq<Block>) -> Seq<BlockModel>
    decreases blocks,
{
    Seq::new(
        blocks.len(),
        |i: int|
            if 0 <= i < blocks.len() {
                block_model(blocks[i])
            } else {
                arbitrary()
            },
    )
}

/// The names and values of a run of input slots, in order.
pub open spec fn input_slots_model(slots: Seq<(String, Input)>) -> Seq<(Seq<char>, InputModel)>
    decreases slots,
{
    Seq::new(
        slots.len(),
        |i: int|
            if 0 <= i < slots.len() {
                (slots[i].0@, input_model(slots[i].1))
            } else {
                arbitrary()
            },
    )
}

/// The names and values of a run of field slots, in order.
pub open spec fn field_slots_model(slots: Seq<(String, Field)>) -> Seq<(Seq<char>, FieldModel)> {
    Seq::new(slots.len(), |i: int| (slots[i].0@, slots[i].1@))
}

impl View for Field {
    type V = FieldModel;

    open spec fn view(&self) -> FieldModel {
        FieldModel { value: self.value@, kind: self.kind }
    }
}

impl View for Input {
    type V = InputModel;

    open spec fn view(&self) -> InputModel {
        input_model(*self)
    }
}

impl View for Block {
    type V = BlockModel;

    open spec fn view(&self) -> BlockModel {
        block_model(*self)
    }
}

impl View for BlockStack {
    type V = Seq<BlockModel>;

    open spec fn view(&self) -> Seq<BlockModel> {
        stack_model(*self)
    }
}

impl BlockModel {
    /// A block with the given operation and no slots.
    pub open spec fn new(opcode: Seq<char>) -> BlockModel {
        BlockModel { opcode, inputs: Seq::empty(), fields: Seq::empty() }
    }

    /// This block with one more input slot.
    pub open spec fn with_input(self, name: Seq<char>, input: InputModel) -> BlockModel {
        BlockModel { inputs: self.inputs.push((name, input)), ..self }
    }

    /// This block with one more input slot, if there is something to put in it.
    pub open spec fn with_optional_input(
        self,
        name: Seq<char>,
        input: Option<InputModel>,
    ) -> BlockModel {
        match input {
            Some(input) => self.with_input(name, input),
            None => self,
        }
    }

    /// This block with one more field slot.
    pub open spec fn with_field(self, name: Seq<char>, field: FieldModel) -> BlockModel {
        BlockModel { fields: self.fields.push((name, field)), ..self }
    }

    /// What the input slot `name` holds: where several slots share the name,
    /// the one added last counts.
    pub open spec fn input(self, name: Seq<char>) -> Option<InputModel> {
        slot_named(self.inputs, name)
    }

    /// What the field slot `name` holds: where several slots share the name,
    /// the one added last counts.
    pub open spec fn field(self, name: Seq<char>) -> Option<FieldModel> {
        slot_named(self.fields, name)
    }
}

/// The value of the last slot called `name`, if there is one.
pub open spec fn slot_named<V>(slots: Seq<(Seq<char>, V)>, name: Seq<char>) -> Option<V>
    decreases slots.len(),
{
    if slots.len() == 0 {
        None
    } else if slots.last().0 == name {
        Some(slots.last().1)
    } else {
        slot_named(slots.drop_last(), name)
    }
}

/// The value of an optional input.
pub open spec fn optional_input_model(input: Option<Input>) -> Option<InputModel> {
    match input {
        Some(input) => Some(input@),
        None => None,
    }
}

impl Input {
    /// An input that holds the literal `text`, to be read as `kind`.
    pub fn literal(kind: LiteralKind, text: String) -> (r: Input)
        ensures
            r@ == (InputModel::Literal { kind, text: text@ }),
    {
        Input::Literal(Literal { kind, text })
    }

    /// An input that holds a nested stack.
    pub fn stack(stack: BlockStack) -> (r: Input)
        ensures
            r@ == InputModel::Stack(stack@),
    {
        Input::Stack(stack)
    }
}

impl Field {
    /// A field that refers to nothing.
    pub fn new(value: String) -> (r: Field)
        ensures
            r@ == (FieldModel { value: value@, kind: FieldKind::NoRef }),
    {
        Field { value, kind: FieldKind::NoRef }
    }

    /// A field that names a thing of the given kind.
    pub fn new_with_kind(value: String, kind: FieldKind) -> (r: Field)
        ensures
            r@ == (FieldModel { value: value@, kind }),
    {
        Field { value, kind }
    }
}

impl Block {
    /// A block with the given operation and no slots.
    pub fn new(opcode: &str) -> (r: Block)
        ensures
            r@ == BlockModel::new(opcode@),
    {
        let block = Block { opcode: opcode.to_owned(), inputs: Vec::new(), fields: Vec::new() };
        assert(block@.inputs =~= Seq::empty());
        assert(block@.fields =~= Seq::empty());
        block
    }

    /// Adds an input slot after those already there.
    pub fn add_input(&mut self, name: &str, input: Input)
        ensures
            final(self)@ == old(self)@.with_input(name@, input@),
    {
        self.inputs.push((name.to_owned(), input));
        assert(self@.inputs =~= old(self)@.inputs.push((name@, input@)));
    }

    /// Adds an input slot if there is something to put in it.
    pub fn add_optional_input(&mut self, name: &str, input: Option<Input>)
        ensures
            final(self)@ == old(self)@.with_optional_input(name@, optional_input_model(input)),
    {
        match input {
            Some(input) => self.add_input(name, input),
            None => {},
        }
    }

    /// Adds a field slot after those already there.
    pub fn add_field(&mut self, name: &str, field: Field)
        ensures
            final(self)@ == old(self)@.with_field(name@, field@),
    {
        self.fields.push((name.to_owned(), field));
        assert(self@.fields =~= old(self)@.fields.push((name@, field@)));
    }

    /// What the input slot `name` holds, if the block has such a slot.
    pub fn input(&self, name: &str) -> (r: Option<&Input>)
        ensures
            match r {
                Some(input) => self@.input(name@) == Some(input@),
                None => self@.input(name@) is None,
            },
    {
        let wanted = name.to_owned();
        let mut i: usize = self.inputs.len();
        assert(self@.inputs.take(i as int) =~= self@.inputs);
        while i > 0
            invariant
                i <= self.inputs.len(),
                wanted@ == name@,
                self@.input(name@) == slot_named(self@.inputs.take(i as int), name@),
            decreases i,
        {
            i = i - 1;
            assert(self@.inputs.take(i + 1).drop_last() =~= self@.inputs.take(i as int));
            if self.inputs[i].0 == wanted {
                return Some(&self.inputs[i].1);
            }
        }
        None
    }

    /// What the field slot `name` holds, if the block has such a slot.
    pub fn field(&self, name: &str) -> (r: Option<&Field>)
        ensures
            match r {
                Some(field) => self@.field(name@) == Some(field@),
                None => self@.field(name@) is None,
            },
    {
        let wanted = name.to_owned();
        let mut i: usize = self.fields.len();
        assert(self@.fields.take(i as int) =~= self@.fields);
        while i > 0
            invariant
                i <= self.fields.len(),
                wanted@ == name@,
                self@.field(name@) == slot_named(self@.fields.take(i as int), name@),
            decreases i,
        {
            i = i - 1;
            assert(self@.fields.take(i + 1).drop_last() =~= self@.fields.take(i as int));
            if self.fields[i].0 == wanted {
                return Some(&self.fields[i].1);
            }
        }
        None
    }
}

impl BlockStack {
    #[verifier::type_invariant]
    spec fn non_empty(self) -> bool {
        self.blocks@.len() > 0
    }

    /// A stack of one block.
    pub fn start(block: Block) -> (r: BlockStack)
        ensures
            r@ == seq![block@],
    {
        let mut blocks: Vec<Block> = Vec::new();
        blocks.push(block);
        assert(blocks_model(blocks@) =~= seq![block@]);
        BlockStack { blocks }
    }

    /// A stack of one block, with room set aside for `capacity` blocks.
    pub fn start_with_capacity(capacity: usize, block: Block) -> (r: BlockStack)
        ensures
            r@ == seq![block@],
    {
        let mut blocks: Vec<Block> = Vec::with_capacity(capacity);
        blocks.push(block);
        assert(blocks_model(blocks@) =~= seq![block@]);
        BlockStack { blocks }
    }

    /// This stack with `next_stack` attached below it.
    pub fn next(self, next_stack: BlockStack) -> (r: BlockStack)
        ensures
            r@ == self@ + next_stack@,
    {
        proof {
            use_type_invariant(&self);
        }
        let mut blocks = self.blocks;
        let mut below = next_stack.blocks;
        blocks.append(&mut below);
        assert(blocks_model(blocks@) =~= self@ + next_stack@);
        BlockStack { blocks }
    }

    /// The number of blocks, which is never zero.
    pub fn len(&self) -> (n: usize)
        ensures
            n == self@.len(),
            n > 0,
    {
        proof {
            use_type_invariant(self);
        }
        self.blocks.len()
    }

    /// The blocks, top to bottom.
    pub fn blocks(&self) -> (r: &Vec<Block>)
        ensures
            blocks_model(r@) == self@,
            r@.len() > 0,
    {
        proof {
            use_type_invariant(self);
        }
        &self.blocks
    }

    /// The blocks, top to bottom, handed over.
    pub fn into_blocks(self) -> (r: Vec<Block>)
        ensures
            blocks_model(r@) == self@,
            r@.len() > 0,
    {
        proof {
            use_type_invariant(&self);
        }
        self.blocks
    }
}

/// A copy of an input, nested stacks and all.
fn copy_input(input: &Input) -> (r: Input)
    ensures
        r@ == input@,
    decreases input,
{
    match input {
        Input::Literal(literal) => Input::literal(literal.kind, literal.text.clone()),
        Input::Stack(stack) => Input::stack(copy_stack(stack)),
    }
}

/// A copy of a stack, block by block.
fn copy_stack(stack: &BlockStack) -> (r: BlockStack)
    ensures
        r@ == stack@,
    decreases stack,
{
    proof {
        use_type_invariant(stack);
    }
    let mut blocks: Vec<Block> = Vec::with_capacity(stack.blocks.len());
    let mut i: usize = 0;
    while i < stack.blocks.len()
        invariant
            i <= stack.blocks.len(),
            blocks@.len() == i,
            forall|k: int| 0 <= k < i ==> (#[trigger] blocks@[k])@ == stack.blocks@[k]@,
        decreases stack.blocks.len() - i,
    {
        blocks.push(copy_block(&stack.blocks[i]));
        i = i + 1;
    }
    assert(blocks_model(blocks@) =~= blocks_model(stack.blocks@));
    BlockStack { blocks }
}

/// A copy of a block, slot by slot.
fn copy_block(block: &Block) -> (r: Block)
    ensures
        r@ == block@,
    decreases block,
{
    let mut inputs: Vec<(String, Input)> = Vec::with_capacity(block.inputs.len());
    let mut i: usize = 0;
    while i < block.inputs.len()
        invariant
            i <= block.inputs.len(),
            inputs@.len() == i,
            forall|k: int|
                0 <= k < i ==> (#[trigger] inputs@[k]).0@ == block.inputs@[k].0@ && inputs@[k].1@
                    == block.inputs@[k].1@,
        decreases block.inputs.len() - i,
    {
        let slot = &block.inputs[i];
        inputs.push((slot.0.clone(), copy_input(&slot.1)));
        i = i + 1;
    }
    let mut fields: Vec<(String, Field)> = Vec::with_capacity(block.fields.len());
    let mut j: usize = 0;
    while j < block.fields.len()
        invariant
            j <= block.fields.len(),
            fields@.len() == j,
            forall|k: int|
                0 <= k < j ==> (#[trigger] fields@[k]).0@ == block.fields@[k].0@ && fields@[k].1@
                    == block.fields@[k].1@,
        decreases block.fields.len() - j,
    {
        let slot = &block.fields[j];
        fields.push((slot.0.clone(), slot.1.clone()));
        j = j + 1;
    }
    let r = Block { opcode: block.opcode.clone(), inputs, fields };
    assert(r@.inputs =~= block@.inputs);
    assert(r@.fields =~= block@.fields);
    r
}

impl Clone for Literal {
    fn clone(&self) -> (r: Self)
        ensures
            r.kind == self.kind,
            r.text@ == self.text@,
    {
        Literal { kind: self.kind, text: self.text.clone() }
    }
}

impl Clone for Field {
    fn clone(&self) -> (r: Self)
        ensures
            r@ == self@,
    {
        Field { value: self.value.clone(), kind: self.kind }
    }
}

impl Clone for Input {
    fn clone(&self) -> (r: Self)
        ensures
            r@ == self@,
    {
        copy_input(self)
    }
}

impl Clone for Block {
    fn clone(&self) -> (r: Self)
        ensures
            r@ == self@,
    {
        copy_block(self)
    }
}

impl Clone for BlockStack {
    fn clone(&self) -> (r: Self)
        ensures
            r@ == self@,
    {
        copy_stack(self)
    }
}

} // verus!
