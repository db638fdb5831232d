//! The map type.

use vstd::prelude::*;
use crate::error::Error;
use crate::object::heap::{Kind, ValueM, plain, unique_names};
use crate::object::literal::consts::AT_MAP;
use crate::object::semantics::sem_convert;
use crate::object::dispatch::{runs_as, convert_fuel};
use crate::object::object::CALL_DEPTH;
use crate::object::Object;
use crate::object::heap::{Heap, Data};

verus! {

/// A map from key objects to value objects, as a list of pairs in which
/// no key occurs twice; [`Dict::duplicate`] copies it.
#[derive(Debug, PartialEq, Eq)]
pub struct Dict(Vec<(Object, Object)>);

impl Dict {
    /// No key occurs twice.
    #[verifier::type_invariant]
    closed spec fn keys_unique(self) -> bool {
        unique_names(self.0@)
    }
}

impl View for Dict {
    type V = Seq<(Object, Object)>;

    closed spec fn view(&self) -> Seq<(Object, Object)> {
        self.0@
    }
}

impl Dict {
    /// The map holding the pairs `map`, whose keys are all different.
    pub fn new(map: Vec<(Object, Object)>) -> (r: Dict)
        requires
            unique_names(map@),
        ensures
            r@ == map@,
    {
        Dict(map)
    }

    /// The empty map.
    pub fn empty() -> (r: Dict)
        ensures
            r@ == Seq::<(Object, Object)>::empty(),
    {
        Dict(Vec::new())
    }

    /// The number of pairs, which is the number of keys.
    pub fn len(&self) -> (r: usize)
        ensures
            r == self@.len(),
            unique_names(self@),
    {
        proof {
            use_type_invariant(self);
        }
        self.0.len()
    }

    /// The pairs, as a vector.
    pub fn into_inner(self) -> (r: Vec<(Object, Object)>)
        ensures
            r@ == self@,
            unique_names(r@),
    {
        proof {
            use_type_invariant(&self);
        }
        self.0
    }

    /// A copy of the map.
    pub fn duplicate(&self) -> (r: Dict)
        ensures
            r@ == self@,
    {
        proof {
            use_type_invariant(self);
        }
        let mut r: Vec<(Object, Object)> = Vec::with_capacity(self.0.len());
        let mut i: usize = 0;
        while i < self.0.len()
            invariant
                i <= self.0@.len(),
                r@ == self.0@.take(i as int),
            decreases self.0@.len() - i,
        {
            let p = self.0[i];
            r.push(p);
            i = i + 1;
            assert(r@ =~= self.0@.take(i as int));
        }
        assert(self.0@.take(i as int) =~= self.0@);
        Dict(r)
    }
}

} // verus!

verus! {

/// `@map` of a map: a copy of it.
pub fn at_map(heap: &mut Heap, map: Object) -> (r: Object)
    requires
        old(heap).wf(),
        old(heap).holds(map),
        old(heap)@[map.id as int].value is Dict,
    ensures
        final(heap)@ == old(heap)@.push(old(heap)@[map.id as int]),
        r.id == old(heap)@.len(),
        final(heap).wf(),
{
    heap.copy_object(map)
}

} // verus!

verus! {

impl Object {
    /// A new object holding the map `map`.
    pub fn new_map(heap: &mut Heap, map: Vec<(Object, Object)>) -> (r: Object)
        requires
            old(heap).wf(),
            forall|i: int| 0 <= i < map@.len() ==> old(heap).holds((#[trigger] map@[i]).0)
                && old(heap).holds(map@[i].1),
            unique_names(map@),
        ensures
            final(heap)@ == old(heap)@.push(plain(ValueM::Dict(map@))),
            r.id == old(heap)@.len(),
            final(heap).wf(),
    {
        heap.new_object(Data::Dict(Dict::new(map)))
    }

    /// Converts the object with `@map`.
    pub fn to_map(&self, heap: &mut Heap) -> (r: Result<Object, Error>)
        requires
            old(heap).wf(),
            old(heap).holds(*self),
        ensures
            runs_as(old(heap), final(heap), r, sem_convert(old(heap)@, *self, AT_MAP@, Kind::Dict, CALL_DEPTH as nat)),
    {
        convert_fuel(heap, *self, AT_MAP, Kind::Dict, CALL_DEPTH)
    }
}

} // verus!
