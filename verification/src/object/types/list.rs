//! The list type.

use vstd::prelude::*;
use crate::object::Object;
use crate::object::heap::{Heap, Kind, Data, ValueM, EntryM, plain};
use crate::error::Error;
use crate::object::literal::consts::AT_LIST;
use crate::object::semantics::{sem_list, sem_convert};
use crate::object::dispatch::{runs_as, list_fuel, convert_fuel};
use crate::object::object::CALL_DEPTH;
use crate::object::types::{Boolean, Num};

verus! {

/// An ordered list of objects.
#[derive(Debug, Clone, PartialEq, Eq)]
pub struct List(Vec<Object>);

impl View for List {
    type V = Seq<Object>;

    closed spec fn view(&self) -> Seq<Object> {
        self.0@
    }
}

/// A copy of a vector of handles.
pub fn copy_objects(v: &Vec<Object>) -> (r: Vec<Object>)
    ensures
        r@ == v@,
{
    let mut r: Vec<Object> = Vec::with_capacity(v.len());
    let mut i: usize = 0;
    while i < v.len()
        invariant
            i <= v.len(),
            r@ == v@.take(i as int),
        decreases v.len() - i,
    {
        r.push(v[i]);
        i = i + 1;
        assert(r@ =~= v@.take(i as int));
    }
    assert(v@.take(i as int) =~= v@);
    r
}

impl List {
    /// The list holding `list`.
    pub fn new(list: Vec<Object>) -> (r: List)
        ensures
            r@ == list@,
    {
        List(list)
    }

    /// The empty list.
    pub fn empty() -> (r: List)
        ensures
            r@ == Seq::<Object>::empty(),
    {
        List(Vec::new())
    }

    /// The number of elements.
    pub fn len(&self) -> (r: usize)
        ensures
            r == self@.len(),
    {
        self.0.len()
    }

    /// Whether the list has no elements.
    pub fn is_empty(&self) -> (r: bool)
        ensures
            r == (self@.len() == 0),
    {
        self.0.len() == 0
    }

    /// The element at `index`.
    pub fn get(&self, index: usize) -> (r: Object)
        requires
            index < self@.len(),
        ensures
            r == self@[index as int],
    {
        self.0[index]
    }

    /// Appends `obj` at the end.
    pub fn push(&mut self, obj: Object)
        ensures
            final(self)@ == old(self)@.push(obj),
    {
        self.0.push(obj)
    }

    /// Removes and returns the last element, if there is one.
    pub fn pop(&mut self) -> (r: Option<Object>)
        ensures
            old(self)@.len() == 0 ==> r is None && final(self)@ == old(self)@,
            old(self)@.len() > 0 ==> r == Some(old(self)@.last())
                && final(self)@ == old(self)@.drop_last(),
    {
        self.0.pop()
    }

    /// Appends all of `items`, in order.
    pub fn extend(&mut self, items: &Vec<Object>)
        ensures
            final(self)@ == old(self)@ + items@,
    {
        let mut i: usize = 0;
        while i < items.len()
            invariant
                i <= items@.len(),
                self@ == old(self)@ + items@.take(i as int),
            decreases items@.len() - i,
        {
            self.0.push(items[i]);
            i = i + 1;
            assert(self@ =~= old(self)@ + items@.take(i as int));
        }
        assert(items@.take(i as int) =~= items@);
    }

    /// The elements, borrowed.
    pub fn as_vec(&self) -> (r: &Vec<Object>)
        ensures
            r@ == self@,
    {
        &self.0
    }

    /// The elements, in order.
    pub fn iter(&self) -> (r: &[Object])
        ensures
            r@ == self@,
    {
        self.0.as_slice()
    }

    /// The elements, as a vector.
    pub fn into_inner(self) -> (r: Vec<Object>)
        ensures
            r@ == self@,
    {
        self.0
    }

    /// A copy of the list.
    pub fn duplicate(&self) -> (r: List)
        ensures
            r@ == self@,
    {
        List(copy_objects(&self.0))
    }
}

} // verus!

verus! {

/// The native methods of lists.
#[derive(Debug, Clone, Copy, PartialEq, Eq, Structural)]
pub enum ListFn { AtList, AtBool, AtText, Eql, Add, AddAssign, Len, Push, Pop }

} // verus!

verus! {

/// The texts of `s`, separated by `, `.
pub open spec fn join_texts(s: Seq<Seq<char>>) -> Seq<char>
    decreases s.len(),
{
    if s.len() == 0 {
        Seq::empty()
    } else if s.len() == 1 {
        s[0]
    } else {
        join_texts(s.drop_last()) + seq![',', ' '] + s.last()
    }
}

} // verus!

verus! {

/// `obj` is an object of the heap that holds a list.
pub open spec fn is_list(heap: &Heap, obj: Object) -> bool {
    heap.holds(obj) && heap@[obj.id as int].value is List
}

/// The elements of the list `obj` holds.
pub open spec fn items_of(h: Seq<EntryM>, obj: Object) -> Seq<Object> {
    h[obj.id as int].value->List_0
}

/// A copy of the elements of the list that `obj` holds.
pub fn items_value(heap: &Heap, obj: Object) -> (r: Vec<Object>)
    requires
        is_list(heap, obj),
    ensures
        r@ == items_of(heap@, obj),
{
    match heap.value(obj) {
        Data::List(l) => copy_objects(l.as_vec()),
        _ => Vec::new(),
    }
}

/// The elements of a list in a consistent heap are in the heap.
pub proof fn lemma_items_held(heap: &Heap, obj: Object)
    requires
        heap.wf(),
        is_list(heap, obj),
    ensures
        forall|i: int| 0 <= i < items_of(heap@, obj).len() ==> heap.holds(#[trigger] items_of(heap@, obj)[i]),
{
    assert(heap@[obj.id as int].refs_below(heap@.len()));
}

/// `@list` of a list: a copy of it.
pub fn at_list(heap: &mut Heap, list: Object) -> (r: Object)
    requires
        old(heap).wf(),
        is_list(old(heap), list),
    ensures
        final(heap)@ == old(heap)@.push(old(heap)@[list.id as int]),
        r.id == old(heap)@.len(),
        final(heap).wf(),
{
    heap.copy_object(list)
}

/// `@bool` of a list: whether it has elements.
pub fn at_bool(heap: &mut Heap, list: Object) -> (r: Object)
    requires
        old(heap).wf(),
        is_list(old(heap), list),
    ensures
        final(heap)@ == old(heap)@.push(plain(ValueM::Boolean(items_of(old(heap)@, list).len() != 0))),
        r.id == old(heap)@.len(),
        final(heap).wf(),
{
    let items = items_value(heap, list);
    heap.new_object(Data::Boolean(Boolean::new(items.len() != 0)))
}

/// `len` of a list: the number of its elements.
pub fn len(heap: &mut Heap, list: Object) -> (r: Object)
    requires
        old(heap).wf(),
        is_list(old(heap), list),
    ensures
        final(heap)@ == old(heap)@.push(plain(ValueM::Num(items_of(old(heap)@, list).len() as i64))),
        r.id == old(heap)@.len(),
        final(heap).wf(),
{
    let items = items_value(heap, list);
    heap.new_object(Data::Num(Num::new(items.len() as i64)))
}

/// `+` of two lists: a new list, the elements of the first followed by those of the second.
pub fn add(heap: &mut Heap, list: Object, rhs: Object) -> (r: Object)
    requires
        old(heap).wf(),
        is_list(old(heap), list),
        is_list(old(heap), rhs),
    ensures
        final(heap)@ == old(heap)@.push(plain(ValueM::List(items_of(old(heap)@, list) + items_of(old(heap)@, rhs)))),
        r.id == old(heap)@.len(),
        final(heap).wf(),
{
    let mut l = List::new(items_value(heap, list));
    let other = items_value(heap, rhs);
    l.extend(&other);
    proof {
        lemma_items_held(heap, list);
        lemma_items_held(heap, rhs);
        let s = l@;
        let (a, b) = (items_of(heap@, list), items_of(heap@, rhs));
        assert forall|i: int| 0 <= i < s.len() implies (#[trigger] s[i]).id < heap@.len() by {
            if i < a.len() {
                assert(s[i] == a[i]);
            } else {
                assert(s[i] == b[i - a.len()]);
            }
        }
    }
    heap.new_object(Data::List(l))
}

/// `+=` of two lists: appends the elements of the second to the first, in
/// place, and returns the first. The two are different lists.
pub fn add_assign(heap: &mut Heap, list: Object, rhs: Object) -> (r: Object)
    requires
        old(heap).wf(),
        is_list(old(heap), list),
        is_list(old(heap), rhs),
        list.id != rhs.id,
    ensures
        r == list,
        final(heap)@ == old(heap)@.update(list.id as int, EntryM {
            value: ValueM::List(items_of(old(heap)@, list) + items_of(old(heap)@, rhs)),
            attrs: old(heap)@[list.id as int].attrs,
            keyed: old(heap)@[list.id as int].keyed,
        }),
        final(heap).wf(),
{
    let other = items_value(heap, rhs);
    proof {
        lemma_items_held(heap, rhs);
    }
    heap.extend_list(list, &other);
    list
}

/// `push` of a list: appends `obj`, in place, and returns the list.
pub fn push(heap: &mut Heap, list: Object, obj: Object) -> (r: Object)
    requires
        old(heap).wf(),
        is_list(old(heap), list),
        old(heap).holds(obj),
    ensures
        r == list,
        final(heap)@ == old(heap)@.update(list.id as int, EntryM {
            value: ValueM::List(items_of(old(heap)@, list).push(obj)),
            attrs: old(heap)@[list.id as int].attrs,
            keyed: old(heap)@[list.id as int].keyed,
        }),
        final(heap).wf(),
{
    let mut one: Vec<Object> = Vec::new();
    one.push(obj);
    heap.extend_list(list, &one);
    assert(items_of(old(heap)@, list) + one@ =~= items_of(old(heap)@, list).push(obj));
    list
}

/// `pop` of a list: removes and returns its last element, or returns a new
/// null if it is empty.
pub fn pop(heap: &mut Heap, list: Object) -> (r: Object)
    requires
        old(heap).wf(),
        is_list(old(heap), list),
    ensures
        ({
            let items = items_of(old(heap)@, list);
            if items.len() == 0 {
                r.id == old(heap)@.len() && final(heap)@ == old(heap)@.push(plain(ValueM::Null))
            } else {
                r == items.last() && final(heap)@ == old(heap)@.update(list.id as int, EntryM {
                    value: ValueM::List(items.drop_last()),
                    attrs: old(heap)@[list.id as int].attrs,
                    keyed: old(heap)@[list.id as int].keyed,
                })
            }
        }),
        final(heap).wf(),
        final(heap).holds(r),
{
    match heap.pop_list(list) {
        Some(o) => o,
        None => heap.new_object(Data::Null),
    }
}

} // verus!

verus! {

/// `@text` of a list: the `@text` of each element, separated by `, `,
/// between `[` and `]`.
pub fn at_text(heap: &mut Heap, list: Object) -> (r: Result<Object, Error>)
    requires
        old(heap).wf(),
        is_list(old(heap), list),
    ensures
        runs_as(old(heap), final(heap), r, sem_list(old(heap)@, ListFn::AtText, list, Seq::empty(), CALL_DEPTH as nat)),
{
    let none: Vec<Object> = Vec::new();
    list_fuel(heap, ListFn::AtText, list, none.as_slice(), CALL_DEPTH)
}

/// `==` of two lists: whether they have the same length and each pair of
/// elements is equal by `==`.
pub fn eql(heap: &mut Heap, list: Object, rhs: Object) -> (r: Result<Object, Error>)
    requires
        old(heap).wf(),
        is_list(old(heap), list),
        is_list(old(heap), rhs),
    ensures
        runs_as(old(heap), final(heap), r, sem_list(old(heap)@, ListFn::Eql, list, seq![rhs], CALL_DEPTH as nat)),
{
    let mut one: Vec<Object> = Vec::new();
    one.push(rhs);
    assert(one@ =~= seq![rhs]);
    list_fuel(heap, ListFn::Eql, list, one.as_slice(), CALL_DEPTH)
}

impl Object {
    /// A new object holding the list `list`.
    pub fn new_list(heap: &mut Heap, list: Vec<Object>) -> (r: Object)
        requires
            old(heap).wf(),
            forall|i: int| 0 <= i < list@.len() ==> old(heap).holds(#[trigger] list@[i]),
        ensures
            final(heap)@ == old(heap)@.push(plain(ValueM::List(list@))),
            r.id == old(heap)@.len(),
            final(heap).wf(),
    {
        heap.new_object(Data::List(List::new(list)))
    }

    /// Converts the object with `@list`.
    pub fn to_list(&self, heap: &mut Heap) -> (r: Result<Object, Error>)
        requires
            old(heap).wf(),
            old(heap).holds(*self),
        ensures
            runs_as(old(heap), final(heap), r, sem_convert(old(heap)@, *self, AT_LIST@, Kind::List, CALL_DEPTH as nat)),
    {
        convert_fuel(heap, *self, AT_LIST, Kind::List, CALL_DEPTH)
    }
}

} // verus!
