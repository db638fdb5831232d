//! The methods that give access to an object's own attributes.

use vstd::prelude::*;
use crate::error::Error;
use crate::object::heap::{Heap, Object};
use crate::object::semantics::sem_pristine;
use crate::object::dispatch::{runs_as, holds_all, pristine_exec};

verus! {

/// The native methods that reach an object's own attributes.
#[derive(Debug, Clone, Copy, PartialEq, Eq, Structural)]
pub enum PristineFn { Id, ColonColon, Access, AccessAssign, AccessDelete, AccessHas }

} // verus!

verus! {

/// `::`: the object's own attribute that the argument names.
pub fn colon_colon(heap: &mut Heap, obj: Object, args: &[Object]) -> (r: Result<Object, Error>)
    requires
        old(heap).wf(),
        old(heap).holds(obj),
        holds_all(old(heap), args@),
    ensures
        runs_as(old(heap), final(heap), r, sem_pristine(old(heap)@, PristineFn::ColonColon, obj, args@)),
{
    pristine_exec(heap, PristineFn::ColonColon, obj, args)
}

/// `.`: the attribute that the argument names, of the object's own or as a method.
pub fn access(heap: &mut Heap, obj: Object, args: &[Object]) -> (r: Result<Object, Error>)
    requires
        old(heap).wf(),
        old(heap).holds(obj),
        holds_all(old(heap), args@),
    ensures
        runs_as(old(heap), final(heap), r, sem_pristine(old(heap)@, PristineFn::Access, obj, args@)),
{
    pristine_exec(heap, PristineFn::Access, obj, args)
}

/// `.=`: sets the object's own attribute that the first argument names to the second.
pub fn access_assign(heap: &mut Heap, obj: Object, args: &[Object]) -> (r: Result<Object, Error>)
    requires
        old(heap).wf(),
        old(heap).holds(obj),
        holds_all(old(heap), args@),
    ensures
        runs_as(old(heap), final(heap), r, sem_pristine(old(heap)@, PristineFn::AccessAssign, obj, args@)),
{
    pristine_exec(heap, PristineFn::AccessAssign, obj, args)
}

/// `.~`: removes the object's own attribute that the argument names, and returns it.
pub fn access_delete(heap: &mut Heap, obj: Object, args: &[Object]) -> (r: Result<Object, Error>)
    requires
        old(heap).wf(),
        old(heap).holds(obj),
        holds_all(old(heap), args@),
    ensures
        runs_as(old(heap), final(heap), r, sem_pristine(old(heap)@, PristineFn::AccessDelete, obj, args@)),
{
    pristine_exec(heap, PristineFn::AccessDelete, obj, args)
}

/// `.?`: whether the object has an attribute of its own that the argument names.
pub fn access_has(heap: &mut Heap, obj: Object, args: &[Object]) -> (r: Result<Object, Error>)
    requires
        old(heap).wf(),
        old(heap).holds(obj),
        holds_all(old(heap), args@),
    ensures
        runs_as(old(heap), final(heap), r, sem_pristine(old(heap)@, PristineFn::AccessHas, obj, args@)),
{
    pristine_exec(heap, PristineFn::AccessHas, obj, args)
}

} // verus!
