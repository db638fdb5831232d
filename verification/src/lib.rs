//! The object model of Quest, a language in which everything is an object
//! and every operator is an attribute that can be redefined.
//!
//! Objects live in a [`object::Heap`]; an [`object::Object`] is a handle to
//! one of them. Calling an attribute of an object (`call_attr`) looks the
//! name up in the object's own attributes, then in the methods of its type,
//! then in the methods every object has, and runs the function it finds.

pub mod error;
pub mod object;
