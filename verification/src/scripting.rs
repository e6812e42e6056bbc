//! Building scripts: blocks, typed stacks, slot coercions and conditional chains.

pub mod arg;
pub mod block;
pub mod control;
pub mod decimal;
pub mod if_else_chain;
pub mod stack;
