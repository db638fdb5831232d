//! The boolean type.

use vstd::prelude::*;
use crate::error::Error;
use crate::object::heap::Kind;
use crate::object::literal::consts::AT_BOOL;
use crate::object::semantics::sem_convert;
use crate::object::dispatch::{runs_as, convert_fuel};
use crate::object::object::CALL_DEPTH;
use crate::object::heap::{Heap, Object, Data, ValueM, EntryM, plain};
use crate::object::types::{Num, Text};

verus! {

/// A boolean value.
#[derive(Debug, Clone, Copy, PartialEq, Eq, Hash, Structural)]
pub struct Boolean(bool);

impl View for Boolean {
    type V = bool;

    closed spec fn view(&self) -> bool {
        self.0
    }
}

impl Boolean {
    /// The boolean with value `boolean`.
    pub fn new(boolean: bool) -> (r: Boolean)
        ensures
            r@ == boolean,
    {
        Boolean(boolean)
    }

    /// Whether the boolean is `true`.
    pub fn is_true(&self) -> (r: bool)
        ensures
            r == self@,
    {
        self.0
    }

    /// The plain `bool`, borrowed.
    pub fn as_ref(&self) -> (r: &bool)
        ensures
            *r == self@,
    {
        &self.0
    }

    /// The plain `bool`.
    pub fn into_inner(self) -> (r: bool)
        ensures
            r == self@,
    {
        self.0
    }
}

} // verus!

verus! {

/// The native methods of booleans.
#[derive(Debug, Clone, Copy, PartialEq, Eq, Structural)]
pub enum BooleanFn { AtBool, AtNum, AtText, Not, Eql, Xor, And, Or }

} // verus!

verus! {

/// The text of a boolean.
pub open spec fn bool_text(b: bool) -> Seq<char> {
    if b {
        "true"@
    } else {
        "false"@
    }
}

/// The boolean value `obj` holds.
pub open spec fn bool_of(h: Seq<EntryM>, obj: Object) -> bool {
    h[obj.id as int].value->Boolean_0
}

/// `obj` is an object of the heap that holds a boolean.
pub open spec fn is_boolean(heap: &Heap, obj: Object) -> bool {
    heap.holds(obj) && heap@[obj.id as int].value is Boolean
}

/// The boolean that `obj` holds.
pub fn value_of(heap: &Heap, obj: Object) -> (r: bool)
    requires
        is_boolean(heap, obj),
    ensures
        r == bool_of(heap@, obj),
{
    match heap.value(obj) {
        Data::Boolean(b) => b.is_true(),
        _ => false,
    }
}

/// A new object holding the boolean `b`.
pub fn new_boolean_in(heap: &mut Heap, b: bool) -> (r: Object)
    requires
        old(heap).wf(),
    ensures
        final(heap)@ == old(heap)@.push(plain(ValueM::Boolean(b))),
        r.id == old(heap)@.len(),
        final(heap).wf(),
{
    heap.new_object(Data::Boolean(Boolean::new(b)))
}

/// `@bool` of a boolean: a copy of it.
pub fn at_bool(heap: &mut Heap, obj: Object) -> (r: Object)
    requires
        old(heap).wf(),
        is_boolean(old(heap), obj),
    ensures
        final(heap)@ == old(heap)@.push(old(heap)@[obj.id as int]),
        r.id == old(heap)@.len(),
        final(heap).wf(),
{
    heap.copy_object(obj)
}

/// `@num` of a boolean: 1 for true, 0 for false.
pub fn at_num(heap: &mut Heap, obj: Object) -> (r: Object)
    requires
        old(heap).wf(),
        is_boolean(old(heap), obj),
    ensures
        final(heap)@ == old(heap)@.push(plain(ValueM::Num(if bool_of(old(heap)@, obj) { 1 } else { 0 }))),
        r.id == old(heap)@.len(),
        final(heap).wf(),
{
    let b = value_of(heap, obj);
    heap.new_object(Data::Num(Num::new(if b { 1 } else { 0 })))
}

/// `@text` of a boolean: `true` or `false`.
pub fn at_text(heap: &mut Heap, obj: Object) -> (r: Object)
    requires
        old(heap).wf(),
        is_boolean(old(heap), obj),
    ensures
        final(heap)@ == old(heap)@.push(plain(ValueM::Text(bool_text(bool_of(old(heap)@, obj))))),
        r.id == old(heap)@.len(),
        final(heap).wf(),
{
    let b = value_of(heap, obj);
    let s = if b { String::from_str("true") } else { String::from_str("false") };
    heap.new_object(Data::Text(Text::new(s)))
}

/// `!` of a boolean: its negation.
pub fn not(heap: &mut Heap, obj: Object) -> (r: Object)
    requires
        old(heap).wf(),
        is_boolean(old(heap), obj),
    ensures
        final(heap)@ == old(heap)@.push(plain(ValueM::Boolean(!bool_of(old(heap)@, obj)))),
        r.id == old(heap)@.len(),
        final(heap).wf(),
{
    let b = value_of(heap, obj);
    new_boolean_in(heap, !b)
}

/// `==` of two booleans.
pub fn eql(heap: &mut Heap, lhs: Object, rhs: Object) -> (r: Object)
    requires
        old(heap).wf(),
        is_boolean(old(heap), lhs),
        is_boolean(old(heap), rhs),
    ensures
        final(heap)@ == old(heap)@.push(plain(ValueM::Boolean(bool_of(old(heap)@, lhs) == bool_of(old(heap)@, rhs)))),
        r.id == old(heap)@.len(),
        final(heap).wf(),
{
    let (a, b) = (value_of(heap, lhs), value_of(heap, rhs));
    new_boolean_in(heap, a == b)
}

/// `^` of two booleans: whether exactly one is true.
pub fn b_xor(heap: &mut Heap, lhs: Object, rhs: Object) -> (r: Object)
    requires
        old(heap).wf(),
        is_boolean(old(heap), lhs),
        is_boolean(old(heap), rhs),
    ensures
        final(heap)@ == old(heap)@.push(plain(ValueM::Boolean(bool_of(old(heap)@, lhs) != bool_of(old(heap)@, rhs)))),
        r.id == old(heap)@.len(),
        final(heap).wf(),
{
    let (a, b) = (value_of(heap, lhs), value_of(heap, rhs));
    new_boolean_in(heap, a != b)
}

/// `&` of two booleans: whether both are true.
pub fn b_and(heap: &mut Heap, lhs: Object, rhs: Object) -> (r: Object)
    requires
        old(heap).wf(),
        is_boolean(old(heap), lhs),
        is_boolean(old(heap), rhs),
    ensures
        final(heap)@ == old(heap)@.push(plain(ValueM::Boolean(bool_of(old(heap)@, lhs) && bool_of(old(heap)@, rhs)))),
        r.id == old(heap)@.len(),
        final(heap).wf(),
{
    let (a, b) = (value_of(heap, lhs), value_of(heap, rhs));
    new_boolean_in(heap, a && b)
}

/// `|` of two booleans: whether either is true.
pub fn b_or(heap: &mut Heap, lhs: Object, rhs: Object) -> (r: Object)
    requires
        old(heap).wf(),
        is_boolean(old(heap), lhs),
        is_boolean(old(heap), rhs),
    ensures
        final(heap)@ == old(heap)@.push(plain(ValueM::Boolean(bool_of(old(heap)@, lhs) || bool_of(old(heap)@, rhs)))),
        r.id == old(heap)@.len(),
        final(heap).wf(),
{
    let (a, b) = (value_of(heap, lhs), value_of(heap, rhs));
    new_boolean_in(heap, a || b)
}

} // verus!

verus! {

impl Object {
    /// A new object holding the boolean `boolean`.
    pub fn new_boolean(heap: &mut Heap, boolean: bool) -> (r: Object)
        requires
            old(heap).wf(),
        ensures
            final(heap)@ == old(heap)@.push(plain(ValueM::Boolean(boolean))),
            r.id == old(heap)@.len(),
            final(heap).wf(),
    {
        new_boolean_in(heap, boolean)
    }

    /// Whether the boolean this object holds is `true`.
    pub fn is_true(&self, heap: &Heap) -> (r: bool)
        requires
            is_boolean(heap, *self),
        ensures
            r == bool_of(heap@, *self),
    {
        value_of(heap, *self)
    }

    /// Converts the object with `@bool`.
    pub fn to_boolean(&self, heap: &mut Heap) -> (r: Result<Object, Error>)
        requires
            old(heap).wf(),
            old(heap).holds(*self),
        ensures
            runs_as(old(heap), final(heap), r, sem_convert(old(heap)@, *self, AT_BOOL@, Kind::Boolean, CALL_DEPTH as nat)),
    {
        convert_fuel(heap, *self, AT_BOOL, Kind::Boolean, CALL_DEPTH)
    }
}

} // verus!

verus! {

impl From<bool> for Boolean {
    fn from(b: bool) -> (r: Boolean)
        ensures
            r@ == b,
    {
        Boolean(b)
    }
}

impl vstd::std_specs::convert::FromSpecImpl<bool> for Boolean {
    open spec fn obeys_from_spec() -> bool {
        true
    }

    closed spec fn from_spec(v: bool) -> Boolean {
        Boolean(v)
    }
}

impl From<Boolean> for bool {
    fn from(b: Boolean) -> (r: bool)
        ensures
            r == b@,
    {
        b.0
    }
}

impl vstd::std_specs::convert::FromSpecImpl<Boolean> for bool {
    open spec fn obeys_from_spec() -> bool {
        true
    }

    closed spec fn from_spec(v: Boolean) -> bool {
        v.0
    }
}

} // verus!
