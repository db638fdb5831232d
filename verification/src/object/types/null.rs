//! The null type.

use vstd::prelude::*;
use crate::error::{Error, ErrorM};
use crate::object::heap::{Kind, TypedObject};
use crate::object::heap::{Heap, Object, Data, ValueM, plain};
use crate::object::types::{Boolean, Num, Text, List, Dict};

verus! {

/// The value of objects that hold nothing.
#[derive(Debug, Clone, Copy, PartialEq, Eq, Hash, Structural)]
pub struct Null;

} // verus!

verus! {

/// The native methods of null.
#[derive(Debug, Clone, Copy, PartialEq, Eq, Structural)]
pub enum NullFn { AtText, AtBool, AtNum, AtList, AtMap, Eql, Call }

} // verus!

verus! {

/// `obj` is an object of the heap that holds null.
pub open spec fn is_null_in(heap: &Heap, obj: Object) -> bool {
    heap.holds(obj) && heap@[obj.id as int].value is Null
}

/// `@text` of null: the text `null`.
pub fn at_text(heap: &mut Heap, obj: Object) -> (r: Object)
    requires
        old(heap).wf(),
        is_null_in(old(heap), obj),
    ensures
        final(heap)@ == old(heap)@.push(plain(ValueM::Text("null"@))),
        r.id == old(heap)@.len(),
        final(heap).wf(),
{
    heap.new_object(Data::Text(Text::new(String::from_str("null"))))
}

/// `@bool` of null: false.
pub fn at_bool(heap: &mut Heap, obj: Object) -> (r: Object)
    requires
        old(heap).wf(),
        is_null_in(old(heap), obj),
    ensures
        final(heap)@ == old(heap)@.push(plain(ValueM::Boolean(false))),
        r.id == old(heap)@.len(),
        final(heap).wf(),
{
    heap.new_object(Data::Boolean(Boolean::new(false)))
}

/// `@num` of null: 0.
pub fn at_num(heap: &mut Heap, obj: Object) -> (r: Object)
    requires
        old(heap).wf(),
        is_null_in(old(heap), obj),
    ensures
        final(heap)@ == old(heap)@.push(plain(ValueM::Num(0))),
        r.id == old(heap)@.len(),
        final(heap).wf(),
{
    heap.new_object(Data::Num(Num::new(0)))
}

/// `@list` of null: the empty list.
pub fn at_list(heap: &mut Heap, obj: Object) -> (r: Object)
    requires
        old(heap).wf(),
        is_null_in(old(heap), obj),
    ensures
        final(heap)@ == old(heap)@.push(plain(ValueM::List(Seq::empty()))),
        r.id == old(heap)@.len(),
        final(heap).wf(),
{
    heap.new_object(Data::List(List::empty()))
}

/// `@map` of null: the empty map.
pub fn at_map(heap: &mut Heap, obj: Object) -> (r: Object)
    requires
        old(heap).wf(),
        is_null_in(old(heap), obj),
    ensures
        final(heap)@ == old(heap)@.push(plain(ValueM::Dict(Seq::empty()))),
        r.id == old(heap)@.len(),
        final(heap).wf(),
{
    heap.new_object(Data::Dict(Dict::empty()))
}

/// `==` of null: whether `rhs` is null too.
pub fn eql(heap: &mut Heap, obj: Object, rhs: Object) -> (r: Object)
    requires
        old(heap).wf(),
        is_null_in(old(heap), obj),
        old(heap).holds(rhs),
    ensures
        final(heap)@ == old(heap)@.push(plain(ValueM::Boolean(old(heap)@[rhs.id as int].value is Null))),
        r.id == old(heap)@.len(),
        final(heap).wf(),
{
    let b = match heap.value(rhs) {
        Data::Null => true,
        _ => false,
    };
    heap.new_object(Data::Boolean(Boolean::new(b)))
}

/// `()` of null: null, whatever the arguments.
pub fn call(heap: &mut Heap, obj: Object, args: &[Object]) -> (r: Object)
    requires
        old(heap).wf(),
        is_null_in(old(heap), obj),
    ensures
        final(heap)@ == old(heap)@.push(plain(ValueM::Null)),
        r.id == old(heap)@.len(),
        final(heap).wf(),
{
    heap.new_object(Data::Null)
}

} // verus!

verus! {

impl TypedObject {
    /// An object holding null, with no attributes of its own.
    pub fn new_null() -> (r: TypedObject)
        ensures
            r@ == plain(ValueM::Null),
    {
        TypedObject::new(Data::Null)
    }

    /// Whether the object holds null.
    pub fn is_null(&self) -> (r: bool)
        ensures
            r == (self@.value is Null),
    {
        match self.value() {
            Data::Null => true,
            _ => false,
        }
    }
}

impl Object {
    /// A new object holding null.
    pub fn new_null(heap: &mut Heap) -> (r: Object)
        requires
            old(heap).wf(),
        ensures
            final(heap)@ == old(heap)@.push(plain(ValueM::Null)),
            r.id == old(heap)@.len(),
            final(heap).wf(),
    {
        heap.new_object(Data::Null)
    }

    /// Whether the object holds null.
    pub fn is_null(&self, heap: &Heap) -> (r: bool)
        requires
            heap.holds(*self),
        ensures
            r == (heap@[self.id as int].value is Null),
    {
        heap.entry(*self).is_null()
    }

    /// The null the object holds, if it holds null.
    pub fn downcast_null(&self, heap: &Heap) -> (r: Option<Null>)
        requires
            heap.holds(*self),
        ensures
            r is Some <==> (heap@[self.id as int].value is Null),
    {
        if self.is_null(heap) {
            Some(Null)
        } else {
            None
        }
    }

    /// The object itself if it holds null; there is no conversion to null.
    pub fn to_null(&self, heap: &Heap) -> (r: Result<Object, Error>)
        requires
            heap.holds(*self),
        ensures
            (heap@[self.id as int].value is Null) ==> r == Ok::<Object, Error>(*self),
            !(heap@[self.id as int].value is Null) ==> (r matches Err(e)
                && e@ == (ErrorM::CastError { obj: *self, expected: Kind::Null })),
    {
        if self.is_null(heap) {
            Ok(*self)
        } else {
            Err(Error::CastError { obj: *self, expected: Kind::Null })
        }
    }
}

} // verus!

verus! {

impl From<()> for Null {
    fn from(_u: ()) -> (r: Null) {
        Null
    }
}

impl vstd::std_specs::convert::FromSpecImpl<()> for Null {
    open spec fn obeys_from_spec() -> bool {
        true
    }

    open spec fn from_spec(v: ()) -> Null {
        Null
    }
}

impl From<Null> for () {
    fn from(_n: Null) -> (r: ()) {
        ()
    }
}

impl vstd::std_specs::convert::FromSpecImpl<Null> for () {
    open spec fn obeys_from_spec() -> bool {
        true
    }

    open spec fn from_spec(v: Null) -> () {
        ()
    }
}

} // verus!
