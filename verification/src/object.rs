//! Objects, the heap that holds them, and the functions that run on them.

pub mod heap;
pub mod semantics;
pub mod dispatch;
pub mod object;
pub mod map;
pub mod laws;
pub mod value_laws;
pub mod eval_laws;
pub mod depth;
pub mod literal;
pub mod types;
pub mod typed;

pub use self::heap::{Object, Kind, Data, ValueM, TypedObject, EntryM, Heap};
