//! Values that belong to the parser: blocks of code and operators.

pub mod block;
pub mod oper;
pub mod bound;
pub mod eval;

pub use self::block::{Block, Parens};
