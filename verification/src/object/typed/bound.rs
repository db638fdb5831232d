//! Methods bound to the object they were looked up on.

use vstd::prelude::*;
use crate::object::heap::{Heap, Object, Data};
use crate::object::semantics::{key_of, sem_get};
use crate::object::dispatch::{key_exec, get_exec};

verus! {

/// The name of a bound object's method that gives what the lookup found.
pub const FUNC: &'static str = "func";
/// The name of a bound object's method that gives the object looked up on.
pub const PARENT: &'static str = "parent";
/// The name of a bound object's method that gives the key.
pub const KEY: &'static str = "key";

/// The methods of bound objects.
#[derive(Debug, Clone, Copy, PartialEq, Eq, Structural)]
pub enum BoundFn {
    /// `()`: calls what was found, with the parent in place of the bound object.
    Call,
    /// `func`: what was found, or null.
    Func,
    /// `parent`: the object the attribute was looked up on.
    Parent,
    /// `key`: the key it was looked up under.
    Key,
    /// `=`: sets the parent's attribute under the key.
    Assign,
}

/// An attribute looked up on `parent` under `key`, kept together with
/// the two so that it can later be called on, or assigned to, `parent`.
#[derive(Debug, Clone, Copy, PartialEq, Eq, Structural)]
pub struct BoundObject {
    func: Option<Object>,
    parent: Object,
    key: Object,
}

/// What `key`, looked up on `parent`, finds: nothing if `parent` has no
/// attribute under it.
pub open spec fn bound_lookup(h: Seq<crate::object::heap::EntryM>, parent: Object, key: Object) -> (Seq<crate::object::heap::EntryM>, Option<Object>) {
    match sem_get(h, parent, key_of(h, key)) {
        (h2, Ok(o)) => (h2, Some(o)),
        (h2, Err(_)) => (h2, None),
    }
}

impl BoundObject {
    /// Looks `key` up on `parent` and keeps what it finds.
    pub fn new(heap: &mut Heap, parent: Object, key: Object) -> (r: BoundObject)
        requires
            old(heap).wf(),
            old(heap).holds(parent),
            old(heap).holds(key),
        ensures
            (final(heap)@, r.func()) == bound_lookup(old(heap)@, parent, key),
            r.parent() == parent,
            r.key() == key,
            final(heap).wf(),
            old(heap)@.len() <= final(heap)@.len(),
            r.func() matches Some(o) ==> final(heap).holds(o),
    {
        let k = key_exec(heap, key);
        let func = match get_exec(heap, parent, &k) {
            Ok(o) => Some(o),
            Err(_) => None,
        };
        BoundObject { func, parent, key }
    }

    /// What the lookup found.
    pub closed spec fn func(&self) -> Option<Object> {
        self.func
    }

    /// The object the attribute was looked up on.
    pub closed spec fn parent(&self) -> Object {
        self.parent
    }

    /// The key it was looked up under.
    pub closed spec fn key(&self) -> Object {
        self.key
    }

    /// What the lookup found.
    pub fn bound_func(&self) -> (r: Option<Object>)
        ensures
            r == self.func(),
    {
        self.func
    }

    /// The object the attribute was looked up on.
    pub fn bound_parent(&self) -> (r: Object)
        ensures
            r == self.parent(),
    {
        self.parent
    }

    /// The key it was looked up under.
    pub fn bound_key(&self) -> (r: Object)
        ensures
            r == self.key(),
    {
        self.key
    }
}

impl Object {
    /// A new object holding what `key`, looked up on `parent`, finds,
    /// together with `parent` and `key`.
    pub fn new_bound(heap: &mut Heap, parent: Object, key: Object) -> (r: Object)
        requires
            old(heap).wf(),
            old(heap).holds(parent),
            old(heap).holds(key),
        ensures
            ({
                let (h1, f) = bound_lookup(old(heap)@, parent, key);
                &&& final(heap)@ == h1.push(crate::object::heap::plain(crate::object::heap::ValueM::Bound(f, parent, key)))
                &&& r.id == h1.len()
            }),
            final(heap).wf(),
    {
        let b = BoundObject::new(heap, parent, key);
        heap.new_object(Data::Bound(b))
    }

    /// Whether the object is a bound object.
    pub fn is_bound(&self, heap: &Heap) -> (r: bool)
        requires
            heap.holds(*self),
        ensures
            r == (heap@[self.id as int].value is Bound),
    {
        heap.kind(*self) == crate::object::heap::Kind::Bound
    }
}

} // verus!
