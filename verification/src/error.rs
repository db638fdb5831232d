//! Errors raised while running Quest functions.

use vstd::prelude::*;
use crate::object::{Kind, Object};

verus! {

/// What can go wrong when an attribute is called.
#[derive(Debug, Clone)]
pub enum Error {
    /// The function named `func` needed an argument at `pos` that was not passed.
    MissingArgument { func: String, pos: usize },
    /// `obj` has no attribute named `attr`.
    AttrMissing { attr: String, obj: Object },
    /// `obj` has no attribute under the key object `key`.
    MissingKey { key: Object, obj: Object },
    /// `obj` was expected to be of kind `expected` but is not.
    CastError { obj: Object, expected: Kind },
    /// The argument at `pos` has a value the function does not accept.
    BadArgument { pos: usize, msg: String },
    /// An integer operation left the range of `i64`.
    Overflow,
    /// An integer was divided by zero.
    DivideByZero,
    /// A statement ended without leaving a value.
    NothingToReturn,
    /// Attribute calls were nested deeper than the interpreter allows.
    RecursionLimit,
    /// The error that the native function [`crate::object::types::RustFn::Fail`] raises.
    Testing,
}

/// The mathematical value of an [`Error`].
pub enum ErrorM {
    MissingArgument { func: Seq<char>, pos: usize },
    AttrMissing { attr: Seq<char>, obj: Object },
    MissingKey { key: Object, obj: Object },
    CastError { obj: Object, expected: Kind },
    BadArgument { pos: usize, msg: Seq<char> },
    Overflow,
    DivideByZero,
    NothingToReturn,
    RecursionLimit,
    Testing,
}

impl View for Error {
    type V = ErrorM;

    open spec fn view(&self) -> ErrorM {
        match self {
            Error::MissingArgument { func, pos } => ErrorM::MissingArgument { func: func@, pos: *pos },
            Error::AttrMissing { attr, obj } => ErrorM::AttrMissing { attr: attr@, obj: *obj },
            Error::MissingKey { key, obj } => ErrorM::MissingKey { key: *key, obj: *obj },
            Error::CastError { obj, expected } => ErrorM::CastError { obj: *obj, expected: *expected },
            Error::BadArgument { pos, msg } => ErrorM::BadArgument { pos: *pos, msg: msg@ },
            Error::Overflow => ErrorM::Overflow,
            Error::DivideByZero => ErrorM::DivideByZero,
            Error::NothingToReturn => ErrorM::NothingToReturn,
            Error::RecursionLimit => ErrorM::RecursionLimit,
            Error::Testing => ErrorM::Testing,
        }
    }
}

/// The mathematical value of a result that carries an object or an error.
pub open spec fn result_view(r: Result<Object, Error>) -> Result<Object, ErrorM> {
    match r {
        Ok(o) => Ok(o),
        Err(e) => Err(e@),
    }
}

} // verus!
