//! What every object handle can do: reach its entry in the heap, copy it,
//! read and change its attributes, and call them.

use vstd::prelude::*;
use crate::error::Error;
use crate::object::heap::{Object, Kind, Data, Heap, TypedObject, assoc_get, assoc_set, assoc_del, EntryM, unique_names};
use crate::object::semantics::{Found, resolve, sem_access, sem_call, sem_call_attr, sem_equals};
use crate::object::literal::consts::{EQL, AT_BOOL};
use crate::object::dispatch::{runs_as, holds_all, resolve_exec, access_exec, call_attr_fuel, call_key_fuel, convert_fuel};

verus! {

/// How deeply attribute calls may nest before [`Error::RecursionLimit`] is raised.
pub const CALL_DEPTH: u64 = 128;

impl Object {
    /// Puts `obj` in the heap and returns its handle.
    pub fn new(heap: &mut Heap, obj: TypedObject) -> (r: Object)
        requires
            old(heap).wf(),
            obj@.refs_below(old(heap)@.len()),
            unique_names(obj@.attrs),
            unique_names(obj@.keyed),
        ensures
            final(heap)@ == old(heap)@.push(obj@),
            r.id == old(heap)@.len(),
            final(heap).wf(),
    {
        proof {
            crate::object::heap::lemma_push_ok(heap@, obj@);
        }
        heap.insert(obj)
    }

    /// Whether the two handles are the same object.
    pub fn ptr_eq(&self, rhs: &Object) -> (r: bool)
        ensures
            r == (self.id == rhs.id),
    {
        self.id == rhs.id
    }

    /// The identifier of the object: its place in the heap.
    pub fn id(&self) -> (r: usize)
        ensures
            r == self.id,
    {
        self.id
    }

    /// The object's entry: its value and its own attributes.
    pub fn map<'a>(&self, heap: &'a Heap) -> (r: &'a TypedObject)
        requires
            heap.holds(*self),
        ensures
            r@ == heap@[self.id as int],
    {
        heap.entry(*self)
    }

    /// Calls the attribute under the key `attr`, with `args`: the attribute
    /// a variable names, or the own attribute under any other key object.
    pub fn call(&self, heap: &mut Heap, attr: Object, args: &[Object]) -> (r: Result<Object, Error>)
        requires
            old(heap).wf(),
            old(heap).holds(*self),
            old(heap).holds(attr),
            holds_all(old(heap), args@),
        ensures
            runs_as(old(heap), final(heap), r, sem_call(old(heap)@, *self, attr, args@, CALL_DEPTH as nat)),
    {
        call_key_fuel(heap, *self, attr, args, CALL_DEPTH)
    }

    /// A new object that copies this one: its value and its own attributes.
    pub fn duplicate(&self, heap: &mut Heap) -> (r: Object)
        requires
            old(heap).wf(),
            old(heap).holds(*self),
        ensures
            final(heap)@ == old(heap)@.push(old(heap)@[self.id as int]),
            r.id == old(heap)@.len(),
            final(heap).wf(),
    {
        heap.copy_object(*self)
    }

    /// The attribute `attr`: an own attribute itself, or a new function
    /// object for a method; `None` if there is neither.
    pub fn get_attr(&self, heap: &mut Heap, attr: &str) -> (r: Option<Object>)
        requires
            old(heap).wf(),
            old(heap).holds(*self),
        ensures
            match sem_access(old(heap)@, *self, attr@) {
                (h2, Ok(o)) => r == Some(o) && final(heap)@ == h2,
                (h2, Err(_)) => r is None && final(heap)@ == h2,
            },
            final(heap).wf(),
            r matches Some(o) ==> final(heap).holds(o),
    {
        match access_exec(heap, *self, attr) {
            Ok(o) => Some(o),
            Err(_) => None,
        }
    }

    /// Sets the object's own attribute `attr` to `val`; returns what it was.
    pub fn set_attr(&self, heap: &mut Heap, attr: &str, val: Object) -> (r: Option<Object>)
        requires
            old(heap).wf(),
            old(heap).holds(*self),
            old(heap).holds(val),
        ensures
            r == assoc_get(old(heap)@[self.id as int].attrs, attr@),
            final(heap)@ == old(heap)@.update(self.id as int, EntryM {
                value: old(heap)@[self.id as int].value,
                attrs: assoc_set(old(heap)@[self.id as int].attrs, attr@, val),
                keyed: old(heap)@[self.id as int].keyed,
            }),
            final(heap).wf(),
    {
        heap.set_attr_of(*self, String::from_str(attr), val)
    }

    /// Removes the object's own attribute `attr`; returns what it was.
    pub fn del_attr(&self, heap: &mut Heap, attr: &str) -> (r: Option<Object>)
        requires
            old(heap).wf(),
            old(heap).holds(*self),
        ensures
            r == assoc_get(old(heap)@[self.id as int].attrs, attr@),
            final(heap)@ == old(heap)@.update(self.id as int, EntryM {
                value: old(heap)@[self.id as int].value,
                attrs: assoc_del(old(heap)@[self.id as int].attrs, attr@),
                keyed: old(heap)@[self.id as int].keyed,
            }),
            final(heap).wf(),
            r matches Some(o) ==> final(heap).holds(o),
    {
        heap.del_attr_of(*self, &String::from_str(attr))
    }

    /// Whether the object has the attribute `attr`, of its own or as a method.
    pub fn has_attr(&self, heap: &Heap, attr: &str) -> (r: bool)
        requires
            heap.wf(),
            heap.holds(*self),
        ensures
            r == !(resolve(heap@, *self, attr@) is Missing),
    {
        match resolve_exec(heap, *self, attr) {
            Found::Missing => false,
            _ => true,
        }
    }

    /// Whether this object equals `other`: the same object, two variables
    /// with the same name, or `==` says so (through `@bool`); a call that
    /// fails means not equal.
    pub fn equals(&self, heap: &mut Heap, other: Object) -> (r: bool)
        requires
            old(heap).wf(),
            old(heap).holds(*self),
            old(heap).holds(other),
        ensures
            (final(heap)@, r) == sem_equals(old(heap)@, *self, other, CALL_DEPTH as nat),
            final(heap).wf(),
            old(heap)@.len() <= final(heap)@.len(),
    {
        if self.id == other.id {
            return true;
        }
        let (a_var, b_var) = (heap.kind(*self) == Kind::Variable, heap.kind(other) == Kind::Variable);
        if a_var && b_var {
            return match (heap.value(*self), heap.value(other)) {
                (Data::Variable(x), Data::Variable(y)) => x.literal().same(y.literal()),
                _ => false,
            };
        }
        let mut one: Vec<Object> = Vec::new();
        one.push(other);
        assert(one@ =~= seq![other]);
        match call_attr_fuel(heap, *self, EQL, one.as_slice(), CALL_DEPTH) {
            Err(_) => false,
            Ok(o) => match convert_fuel(heap, o, AT_BOOL, Kind::Boolean, CALL_DEPTH) {
                Err(_) => false,
                Ok(x) => crate::object::types::boolean::value_of(heap, x),
            },
        }
    }

    /// Calls the attribute `attr` with `args`.
    pub fn call_attr(&self, heap: &mut Heap, attr: &str, args: &[Object]) -> (r: Result<Object, Error>)
        requires
            old(heap).wf(),
            old(heap).holds(*self),
            holds_all(old(heap), args@),
        ensures
            runs_as(old(heap), final(heap), r, sem_call_attr(old(heap)@, *self, attr@, args@, CALL_DEPTH as nat)),
    {
        call_attr_fuel(heap, *self, attr, args, CALL_DEPTH)
    }
}

impl TypedObject {
    /// Puts the object in `heap` and returns its handle.
    pub fn objectify(self, heap: &mut Heap) -> (r: Object)
        requires
            old(heap).wf(),
            self@.refs_below(old(heap)@.len()),
            unique_names(self@.attrs),
            unique_names(self@.keyed),
        ensures
            final(heap)@ == old(heap)@.push(self@),
            r.id == old(heap)@.len(),
            final(heap).wf(),
    {
        Object::new(heap, self)
    }
}

} // verus!
