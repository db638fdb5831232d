//! The methods every object has.

use vstd::prelude::*;
use crate::error::Error;
use crate::object::heap::{Heap, Object};
use crate::object::semantics::sem_basic;
use crate::object::dispatch::{runs_as, holds_all, basic_fuel};
use crate::object::object::CALL_DEPTH;

verus! {

/// The native methods that every object has.
#[derive(Debug, Clone, Copy, PartialEq, Eq, Structural)]
pub enum BasicFn { StrictEql, StrictNeq, AtBool, Eql, Neq, ArrowRight, Not, And, Or, Clone }

} // verus!

verus! {

/// `===`: whether the argument is this very object.
pub fn strict_eql(heap: &mut Heap, obj: Object, args: &[Object]) -> (r: Result<Object, Error>)
    requires
        old(heap).wf(),
        old(heap).holds(obj),
        holds_all(old(heap), args@),
    ensures
        runs_as(old(heap), final(heap), r, sem_basic(old(heap)@, BasicFn::StrictEql, obj, args@, CALL_DEPTH as nat)),
{
    basic_fuel(heap, BasicFn::StrictEql, obj, args, CALL_DEPTH)
}

/// `!==`: calls `===`, then `!` on its result.
pub fn strict_neq(heap: &mut Heap, obj: Object, args: &[Object]) -> (r: Result<Object, Error>)
    requires
        old(heap).wf(),
        old(heap).holds(obj),
        holds_all(old(heap), args@),
    ensures
        runs_as(old(heap), final(heap), r, sem_basic(old(heap)@, BasicFn::StrictNeq, obj, args@, CALL_DEPTH as nat)),
{
    basic_fuel(heap, BasicFn::StrictNeq, obj, args, CALL_DEPTH)
}

/// `@bool`: every object is true unless its type says otherwise.
pub fn at_bool(heap: &mut Heap, obj: Object, args: &[Object]) -> (r: Result<Object, Error>)
    requires
        old(heap).wf(),
        old(heap).holds(obj),
        holds_all(old(heap), args@),
    ensures
        runs_as(old(heap), final(heap), r, sem_basic(old(heap)@, BasicFn::AtBool, obj, args@, CALL_DEPTH as nat)),
{
    basic_fuel(heap, BasicFn::AtBool, obj, args, CALL_DEPTH)
}

/// `clone`: a new object with the same value and attributes.
pub fn clone(heap: &mut Heap, obj: Object, args: &[Object]) -> (r: Result<Object, Error>)
    requires
        old(heap).wf(),
        old(heap).holds(obj),
        holds_all(old(heap), args@),
    ensures
        runs_as(old(heap), final(heap), r, sem_basic(old(heap)@, BasicFn::Clone, obj, args@, CALL_DEPTH as nat)),
{
    basic_fuel(heap, BasicFn::Clone, obj, args, CALL_DEPTH)
}

/// `==`: calls `===`.
pub fn eql(heap: &mut Heap, obj: Object, args: &[Object]) -> (r: Result<Object, Error>)
    requires
        old(heap).wf(),
        old(heap).holds(obj),
        holds_all(old(heap), args@),
    ensures
        runs_as(old(heap), final(heap), r, sem_basic(old(heap)@, BasicFn::Eql, obj, args@, CALL_DEPTH as nat)),
{
    basic_fuel(heap, BasicFn::Eql, obj, args, CALL_DEPTH)
}

/// `!=`: calls `==`, then `!` on its result.
pub fn neq(heap: &mut Heap, obj: Object, args: &[Object]) -> (r: Result<Object, Error>)
    requires
        old(heap).wf(),
        old(heap).holds(obj),
        holds_all(old(heap), args@),
    ensures
        runs_as(old(heap), final(heap), r, sem_basic(old(heap)@, BasicFn::Neq, obj, args@, CALL_DEPTH as nat)),
{
    basic_fuel(heap, BasicFn::Neq, obj, args, CALL_DEPTH)
}

/// `->`: calls `<-` on the argument, with this object.
pub fn arrow_right(heap: &mut Heap, obj: Object, args: &[Object]) -> (r: Result<Object, Error>)
    requires
        old(heap).wf(),
        old(heap).holds(obj),
        holds_all(old(heap), args@),
    ensures
        runs_as(old(heap), final(heap), r, sem_basic(old(heap)@, BasicFn::ArrowRight, obj, args@, CALL_DEPTH as nat)),
{
    basic_fuel(heap, BasicFn::ArrowRight, obj, args, CALL_DEPTH)
}

/// `!`: converts with `@bool`, then calls `!` on the boolean.
pub fn not(heap: &mut Heap, obj: Object, args: &[Object]) -> (r: Result<Object, Error>)
    requires
        old(heap).wf(),
        old(heap).holds(obj),
        holds_all(old(heap), args@),
    ensures
        runs_as(old(heap), final(heap), r, sem_basic(old(heap)@, BasicFn::Not, obj, args@, CALL_DEPTH as nat)),
{
    basic_fuel(heap, BasicFn::Not, obj, args, CALL_DEPTH)
}

/// `and`: the argument if this object is true, else this object.
pub fn and(heap: &mut Heap, obj: Object, args: &[Object]) -> (r: Result<Object, Error>)
    requires
        old(heap).wf(),
        old(heap).holds(obj),
        holds_all(old(heap), args@),
    ensures
        runs_as(old(heap), final(heap), r, sem_basic(old(heap)@, BasicFn::And, obj, args@, CALL_DEPTH as nat)),
{
    basic_fuel(heap, BasicFn::And, obj, args, CALL_DEPTH)
}

/// `or`: this object if it is true, else the argument.
pub fn or(heap: &mut Heap, obj: Object, args: &[Object]) -> (r: Result<Object, Error>)
    requires
        old(heap).wf(),
        old(heap).holds(obj),
        holds_all(old(heap), args@),
    ensures
        runs_as(old(heap), final(heap), r, sem_basic(old(heap)@, BasicFn::Or, obj, args@, CALL_DEPTH as nat)),
{
    basic_fuel(heap, BasicFn::Or, obj, args, CALL_DEPTH)
}

} // verus!
