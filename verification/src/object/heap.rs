//! The heap of objects, and handles to the objects in it.

use vstd::prelude::*;
use crate::object::types::{Boolean, Num, Text, Variable, List, Dict, RustFn};
use crate::object::typed::block::{Block, Parens};
use crate::object::typed::bound::BoundObject;

verus! {

/// A handle to an object in a [`Heap`].
///
/// Copies of a handle refer to the same object: two handles are the same
/// object exactly when their ids are equal.
#[derive(Debug, Clone, Copy, PartialEq, Eq, Hash, Structural)]
pub struct Object {
    pub id: usize,
}

/// The type of the value an object holds.
#[derive(Debug, Clone, Copy, PartialEq, Eq, Hash, Structural)]
pub enum Kind {
    Null,
    Blank,
    Boolean,
    Num,
    Text,
    Variable,
    List,
    Dict,
    RustFn,
    Block,
    Bound,
}

/// The value an object holds.
#[derive(Debug)]
pub enum Data {
    Null,
    /// An object without data; it has only the attributes every object has.
    Blank,
    Boolean(Boolean),
    Num(Num),
    Text(Text),
    Variable(Variable),
    List(List),
    Dict(Dict),
    RustFn(RustFn),
    Block(Block),
    Bound(BoundObject),
}

/// The mathematical value of a [`Data`].
pub enum ValueM {
    Null,
    Blank,
    Boolean(bool),
    Num(i64),
    Text(Seq<char>),
    Variable(Seq<char>),
    List(Seq<Object>),
    Dict(Seq<(Object, Object)>),
    RustFn(RustFn),
    Block(Parens, Seq<char>),
    /// What was found, the object it was looked up on, and the key.
    Bound(Option<Object>, Object, Object),
}

impl View for Data {
    type V = ValueM;

    open spec fn view(&self) -> ValueM {
        match self {
            Data::Null => ValueM::Null,
            Data::Blank => ValueM::Blank,
            Data::Boolean(b) => ValueM::Boolean(b@),
            Data::Num(n) => ValueM::Num(n@),
            Data::Text(t) => ValueM::Text(t@),
            Data::Variable(v) => ValueM::Variable(v@),
            Data::List(l) => ValueM::List(l@),
            Data::Dict(m) => ValueM::Dict(m@),
            Data::RustFn(f) => ValueM::RustFn(*f),
            Data::Block(b) => ValueM::Block(b@.0, b@.1),
            Data::Bound(b) => ValueM::Bound(b.func(), b.parent(), b.key()),
        }
    }
}

impl ValueM {
    /// The kind of the value.
    pub open spec fn kind(self) -> Kind {
        match self {
            ValueM::Null => Kind::Null,
            ValueM::Blank => Kind::Blank,
            ValueM::Boolean(_) => Kind::Boolean,
            ValueM::Num(_) => Kind::Num,
            ValueM::Text(_) => Kind::Text,
            ValueM::Variable(_) => Kind::Variable,
            ValueM::List(_) => Kind::List,
            ValueM::Dict(_) => Kind::Dict,
            ValueM::RustFn(_) => Kind::RustFn,
            ValueM::Block(_, _) => Kind::Block,
            ValueM::Bound(_, _, _) => Kind::Bound,
        }
    }

    /// Every object the value refers to is below `n`.
    pub open spec fn refs_below(self, n: nat) -> bool {
        match self {
            ValueM::List(s) => forall|i: int| 0 <= i < s.len() ==> (#[trigger] s[i]).id < n,
            ValueM::Dict(s) => forall|i: int|
                0 <= i < s.len() ==> (#[trigger] s[i]).0.id < n && s[i].1.id < n,
            ValueM::RustFn(RustFn::Const(o)) => o.id < n,
            ValueM::Bound(f, p, k) => p.id < n && k.id < n && (f matches Some(o) ==> o.id < n),
            _ => true,
        }
    }
}

impl Data {
    /// Whether the value is of kind `k`.
    pub fn is(&self, k: Kind) -> (r: bool)
        ensures
            r == (self@.kind() == k),
    {
        self.kind() == k
    }

    /// The kind of the value.
    pub fn kind(&self) -> (k: Kind)
        ensures
            k == self@.kind(),
    {
        match self {
            Data::Null => Kind::Null,
            Data::Blank => Kind::Blank,
            Data::Boolean(_) => Kind::Boolean,
            Data::Num(_) => Kind::Num,
            Data::Text(_) => Kind::Text,
            Data::Variable(_) => Kind::Variable,
            Data::List(_) => Kind::List,
            Data::Dict(_) => Kind::Dict,
            Data::RustFn(_) => Kind::RustFn,
            Data::Block(_) => Kind::Block,
            Data::Bound(_) => Kind::Bound,
        }
    }

    /// A copy of the value.
    pub fn duplicate(&self) -> (r: Data)
        ensures
            r@ == self@,
    {
        match self {
            Data::Null => Data::Null,
            Data::Blank => Data::Blank,
            Data::Boolean(b) => Data::Boolean(*b),
            Data::Num(n) => Data::Num(*n),
            Data::Text(t) => Data::Text(t.duplicate()),
            Data::Variable(v) => Data::Variable(v.duplicate()),
            Data::List(l) => Data::List(l.duplicate()),
            Data::Dict(m) => Data::Dict(m.duplicate()),
            Data::RustFn(f) => Data::RustFn(*f),
            Data::Block(b) => Data::Block(b.duplicate()),
            Data::Bound(b) => Data::Bound(*b),
        }
    }
}

/// The mathematical value of a [`TypedObject`]: its value and its own attributes.
///
/// An attribute is keyed by a name (a variable used as a key stands for its
/// name) or, for any other key, by the key object itself.
pub struct EntryM {
    pub value: ValueM,
    pub attrs: Seq<(Seq<char>, Object)>,
    pub keyed: Seq<(Object, Object)>,
}

/// An entry with `value` and no attributes of its own.
pub open spec fn plain(value: ValueM) -> EntryM {
    EntryM { value, attrs: Seq::empty(), keyed: Seq::empty() }
}

impl EntryM {
    /// Every object the entry refers to is below `n`.
    pub open spec fn refs_below(self, n: nat) -> bool {
        &&& self.value.refs_below(n)
        &&& forall|i: int| 0 <= i < self.attrs.len() ==> (#[trigger] self.attrs[i]).1.id < n
        &&& forall|i: int| 0 <= i < self.keyed.len() ==> (#[trigger] self.keyed[i]).0.id < n && self.keyed[i].1.id < n
    }
}

/// The attributes of an object, as names paired with objects.
pub open spec fn attrs_view(v: Seq<(String, Object)>) -> Seq<(Seq<char>, Object)> {
    v.map_values(|p: (String, Object)| (p.0@, p.1))
}

/// The first index at or after `i` whose key is `k`, or -1.
pub open spec fn find_from<K, V>(t: Seq<(K, V)>, k: K, i: int) -> int
    decreases t.len() - i,
{
    if i < 0 || i >= t.len() {
        -1
    } else if t[i].0 == k {
        i
    } else {
        find_from(t, k, i + 1)
    }
}

/// The first index whose key is `k`, or -1.
pub open spec fn assoc_find<K, V>(t: Seq<(K, V)>, k: K) -> int {
    find_from(t, k, 0)
}

/// What `k` is paired with first in `t`.
pub open spec fn assoc_get<K, V>(t: Seq<(K, V)>, k: K) -> Option<V> {
    let i = assoc_find(t, k);
    if i >= 0 {
        Some(t[i].1)
    } else {
        None
    }
}

/// `t` with `k` paired with `v`: the first pair for `k` replaced, or a new pair at the end.
pub open spec fn assoc_set<K, V>(t: Seq<(K, V)>, k: K, v: V) -> Seq<(K, V)> {
    let i = assoc_find(t, k);
    if i >= 0 {
        t.update(i, (k, v))
    } else {
        t.push((k, v))
    }
}

/// `t` without its first pair for `k`.
pub open spec fn assoc_del<K, V>(t: Seq<(K, V)>, k: K) -> Seq<(K, V)> {
    let i = assoc_find(t, k);
    if i >= 0 {
        t.remove(i)
    } else {
        t
    }
}

/// `find_from` returns -1 or an index at or after `i` holding `k`, with no `k` between.
pub proof fn lemma_find_from<K>(t: Seq<(K, Object)>, k: K, i: int)
    requires
        0 <= i,
    ensures
        find_from(t, k, i) == -1 || (i <= find_from(t, k, i) < t.len()
            && t[find_from(t, k, i)].0 == k),
        forall|j: int| i <= j < t.len() && (find_from(t, k, i) == -1 || j < find_from(t, k, i))
            ==> t[j].0 != k,
    decreases t.len() - i,
{
    if i < t.len() && t[i].0 != k {
        lemma_find_from(t, k, i + 1);
    }
}

/// An object of the heap: its value and its own attributes.
#[derive(Debug)]
pub struct TypedObject {
    data: Data,
    map: Vec<(String, Object)>,
    keyed: Vec<(Object, Object)>,
}

impl View for TypedObject {
    type V = EntryM;

    closed spec fn view(&self) -> EntryM {
        EntryM { value: self.data@, attrs: attrs_view(self.map@), keyed: self.keyed@ }
    }
}

/// The index of the first attribute named `name`, if there is one.
fn find_attr(map: &Vec<(String, Object)>, name: &String) -> (r: Option<usize>)
    ensures
        match r {
            Some(i) => i < map@.len() && i as int == assoc_find(attrs_view(map@), name@),
            None => assoc_find(attrs_view(map@), name@) == -1,
        },
{
    let ghost t = attrs_view(map@);
    let mut i: usize = 0;
    while i < map.len()
        invariant
            i <= map@.len(),
            t == attrs_view(map@),
            find_from(t, name@, 0) == find_from(t, name@, i as int),
        decreases map@.len() - i,
    {
        if map[i].0 == *name {
            assert(t[i as int].0 == name@);
            return Some(i);
        }
        assert(t[i as int].0 != name@);
        i = i + 1;
    }
    None
}

/// The index of the first attribute keyed by the object `key`, if there is one.
fn find_keyed(keyed: &Vec<(Object, Object)>, key: Object) -> (r: Option<usize>)
    ensures
        match r {
            Some(i) => i < keyed@.len() && i as int == assoc_find(keyed@, key),
            None => assoc_find(keyed@, key) == -1,
        },
{
    let mut i: usize = 0;
    while i < keyed.len()
        invariant
            i <= keyed@.len(),
            find_from(keyed@, key, 0) == find_from(keyed@, key, i as int),
        decreases keyed@.len() - i,
    {
        if keyed[i].0.id == key.id {
            return Some(i);
        }
        i = i + 1;
    }
    None
}

impl TypedObject {
    /// An object holding `data`, with no attributes of its own.
    pub fn new(data: Data) -> (r: TypedObject)
        ensures
            r@ == plain(data@),
    {
        let r = TypedObject { data, map: Vec::new(), keyed: Vec::new() };
        assert(r@.attrs =~= Seq::<(Seq<char>, Object)>::empty());
        assert(r@.keyed =~= Seq::<(Object, Object)>::empty());
        r
    }

    /// The value of the object.
    pub fn value(&self) -> (r: &Data)
        ensures
            r@ == self@.value,
    {
        &self.data
    }

    /// The object's own attribute named `name`.
    pub fn get(&self, name: &String) -> (r: Option<Object>)
        ensures
            r == assoc_get(self@.attrs, name@),
    {
        match find_attr(&self.map, name) {
            Some(i) => Some(self.map[i].1),
            None => None,
        }
    }

    /// Sets the object's own attribute `name` to `val`; returns what it was.
    pub fn set(&mut self, name: String, val: Object) -> (r: Option<Object>)
        ensures
            r == assoc_get(old(self)@.attrs, name@),
            final(self)@.value == old(self)@.value,
            final(self)@.attrs == assoc_set(old(self)@.attrs, name@, val),
            final(self)@.keyed == old(self)@.keyed,
    {
        let ghost k = name@;
        match find_attr(&self.map, &name) {
            Some(i) => {
                let old_val = self.map[i].1;
                self.map.set(i, (name, val));
                assert(attrs_view(self.map@) =~= assoc_set(attrs_view(old(self).map@), k, val));
                Some(old_val)
            },
            None => {
                self.map.push((name, val));
                assert(attrs_view(self.map@) =~= assoc_set(attrs_view(old(self).map@), k, val));
                None
            },
        }
    }

    /// Removes the object's own attribute `name`; returns what it was.
    pub fn del(&mut self, name: &String) -> (r: Option<Object>)
        ensures
            r == assoc_get(old(self)@.attrs, name@),
            final(self)@.value == old(self)@.value,
            final(self)@.attrs == assoc_del(old(self)@.attrs, name@),
            final(self)@.keyed == old(self)@.keyed,
    {
        match find_attr(&self.map, name) {
            Some(i) => {
                let (_, old_val) = self.map.remove(i);
                assert(attrs_view(self.map@) =~= assoc_del(attrs_view(old(self).map@), name@));
                Some(old_val)
            },
            None => None,
        }
    }

    /// Whether the object has an attribute of its own named `name`.
    pub fn has(&self, name: &String) -> (r: bool)
        ensures
            r == (assoc_get(self@.attrs, name@) is Some),
    {
        find_attr(&self.map, name).is_some()
    }

    /// The number of the object's own attributes that are keyed by name.
    pub fn len(&self) -> (r: usize)
        ensures
            r == self@.attrs.len(),
    {
        self.map.len()
    }

    /// The number of the object's own attributes that are keyed by an object.
    pub fn keyed_len(&self) -> (r: usize)
        ensures
            r == self@.keyed.len(),
    {
        self.keyed.len()
    }

    /// The object's own attribute keyed by the object `key`.
    pub fn get_keyed(&self, key: Object) -> (r: Option<Object>)
        ensures
            r == assoc_get(self@.keyed, key),
    {
        match find_keyed(&self.keyed, key) {
            Some(i) => Some(self.keyed[i].1),
            None => None,
        }
    }

    /// Sets the object's own attribute keyed by `key` to `val`; returns what it was.
    pub fn set_keyed(&mut self, key: Object, val: Object) -> (r: Option<Object>)
        ensures
            r == assoc_get(old(self)@.keyed, key),
            final(self)@.value == old(self)@.value,
            final(self)@.attrs == old(self)@.attrs,
            final(self)@.keyed == assoc_set(old(self)@.keyed, key, val),
    {
        match find_keyed(&self.keyed, key) {
            Some(i) => {
                let old_val = self.keyed[i].1;
                self.keyed.set(i, (key, val));
                assert(self.keyed@ =~= assoc_set(old(self).keyed@, key, val));
                Some(old_val)
            },
            None => {
                self.keyed.push((key, val));
                assert(self.keyed@ =~= assoc_set(old(self).keyed@, key, val));
                None
            },
        }
    }

    /// Removes the object's own attribute keyed by `key`; returns what it was.
    pub fn del_keyed(&mut self, key: Object) -> (r: Option<Object>)
        ensures
            r == assoc_get(old(self)@.keyed, key),
            final(self)@.value == old(self)@.value,
            final(self)@.attrs == old(self)@.attrs,
            final(self)@.keyed == assoc_del(old(self)@.keyed, key),
    {
        match find_keyed(&self.keyed, key) {
            Some(i) => {
                let (_, old_val) = self.keyed.remove(i);
                assert(self.keyed@ =~= assoc_del(old(self).keyed@, key));
                Some(old_val)
            },
            None => None,
        }
    }

    /// A copy of the object: the same value and the same attributes.
    pub fn duplicate(&self) -> (r: TypedObject)
        ensures
            r@ == self@,
    {
        let mut map: Vec<(String, Object)> = Vec::new();
        let mut i: usize = 0;
        while i < self.map.len()
            invariant
                i <= self.map@.len(),
                map@.len() == i,
                attrs_view(map@) == attrs_view(self.map@).take(i as int),
            decreases self.map@.len() - i,
        {
            let name = self.map[i].0.clone();
            let obj = self.map[i].1;
            let ghost before = map@;
            map.push((name, obj));
            assert(map@ == before.push((name, obj)));
            assert(attrs_view(self.map@)[i as int] == (name@, obj));
            assert forall|j: int| 0 <= j < i implies attrs_view(map@)[j] == attrs_view(before)[j] by {
                assert(map@[j] == before[j]);
            }
            i = i + 1;
            assert(attrs_view(map@) =~= attrs_view(self.map@).take(i as int));
        }
        assert(attrs_view(self.map@).take(i as int) =~= attrs_view(self.map@));
        let mut keyed: Vec<(Object, Object)> = Vec::new();
        let mut j: usize = 0;
        while j < self.keyed.len()
            invariant
                j <= self.keyed@.len(),
                keyed@ == self.keyed@.take(j as int),
            decreases self.keyed@.len() - j,
        {
            keyed.push(self.keyed[j]);
            j = j + 1;
            assert(keyed@ =~= self.keyed@.take(j as int));
        }
        assert(self.keyed@.take(j as int) =~= self.keyed@);
        TypedObject { data: self.data.duplicate(), map, keyed }
    }

    /// Appends `s` to the text the object holds.
    pub fn append_text(&mut self, s: &str)
        requires
            old(self)@.value is Text,
        ensures
            final(self)@ == (EntryM { value: ValueM::Text(old(self)@.value->Text_0 + s@), attrs: old(self)@.attrs, keyed: old(self)@.keyed }),
    {
        match &mut self.data {
            Data::Text(t) => t.append(s),
            _ => {},
        }
    }

    /// Replaces the text the object holds by `s`.
    pub fn set_text(&mut self, s: String)
        requires
            old(self)@.value is Text,
        ensures
            final(self)@ == (EntryM { value: ValueM::Text(s@), attrs: old(self)@.attrs, keyed: old(self)@.keyed }),
    {
        self.data = Data::Text(Text::new(s));
    }

    /// Appends `items` to the list the object holds.
    pub fn extend_list(&mut self, items: &Vec<Object>)
        requires
            old(self)@.value is List,
        ensures
            final(self)@ == (EntryM { value: ValueM::List(old(self)@.value->List_0 + items@), attrs: old(self)@.attrs, keyed: old(self)@.keyed }),
    {
        match &mut self.data {
            Data::List(l) => l.extend(items),
            _ => {},
        }
    }

    /// Removes and returns the last element of the list the object holds.
    pub fn pop_list(&mut self) -> (r: Option<Object>)
        requires
            old(self)@.value is List,
        ensures
            ({
                let s = old(self)@.value->List_0;
                &&& s.len() == 0 ==> r is None && final(self)@ == old(self)@
                &&& s.len() > 0 ==> r == Some(s.last())
                    && final(self)@ == (EntryM { value: ValueM::List(s.drop_last()), attrs: old(self)@.attrs, keyed: old(self)@.keyed })
            }),
    {
        match &mut self.data {
            Data::List(l) => l.pop(),
            _ => None,
        }
    }
}

/// No key occurs twice in `t`.
pub open spec fn unique_names<K, V>(t: Seq<(K, V)>) -> bool {
    forall|i: int, j: int| 0 <= i < j < t.len() ==> (#[trigger] t[i]).0 != (#[trigger] t[j]).0
}

/// Every object a heap entry refers to is in the heap, and no object has
/// two attributes under the same key.
pub open spec fn heap_ok(h: Seq<EntryM>) -> bool {
    forall|i: int| 0 <= i < h.len() ==> (#[trigger] h[i]).refs_below(h.len())
        && unique_names(h[i].attrs) && unique_names(h[i].keyed)
}

/// Raising the bound keeps an entry's references below it.
pub proof fn lemma_refs_mono(e: EntryM, n: nat, m: nat)
    requires
        e.refs_below(n),
        n <= m,
    ensures
        e.refs_below(m),
{
    match e.value {
        ValueM::List(s) => {
            assert forall|i: int| 0 <= i < s.len() implies (#[trigger] s[i]).id < m by {}
        },
        ValueM::Dict(s) => {
            assert forall|i: int| 0 <= i < s.len() implies (#[trigger] s[i]).0.id < m && s[i].1.id < m by {}
        },
        _ => {},
    }
}

/// Adding an entry whose references are in the heap keeps the heap consistent.
pub proof fn lemma_push_ok(h: Seq<EntryM>, e: EntryM)
    requires
        heap_ok(h),
        e.refs_below(h.len()),
        unique_names(e.attrs),
        unique_names(e.keyed),
    ensures
        heap_ok(h.push(e)),
{
    let h2 = h.push(e);
    assert forall|i: int| 0 <= i < h2.len() implies (#[trigger] h2[i]).refs_below(h2.len()) by {
        if i < h.len() {
            lemma_refs_mono(h[i], h.len(), h2.len());
        } else {
            lemma_refs_mono(e, h.len(), h2.len());
        }
    }
}

/// Replacing an entry by one whose references are in the heap keeps the heap consistent.
pub proof fn lemma_update_ok(h: Seq<EntryM>, j: int, e: EntryM)
    requires
        heap_ok(h),
        0 <= j < h.len(),
        e.refs_below(h.len()),
        unique_names(e.attrs),
        unique_names(e.keyed),
    ensures
        heap_ok(h.update(j, e)),
{
    let h2 = h.update(j, e);
    assert forall|i: int| 0 <= i < h2.len() implies (#[trigger] h2[i]).refs_below(h2.len()) by {
        if i != j {
            assert(h2[i] == h[i]);
        }
    }
}

/// Setting an attribute to an object in the heap keeps the attributes in the heap.
pub proof fn lemma_assoc_set_refs<K>(t: Seq<(K, Object)>, k: K, v: Object, n: nat)
    requires
        forall|i: int| 0 <= i < t.len() ==> (#[trigger] t[i]).1.id < n,
        v.id < n,
    ensures
        forall|i: int| 0 <= i < assoc_set(t, k, v).len() ==> (#[trigger] assoc_set(t, k, v)[i]).1.id < n,
{
    let t2 = assoc_set(t, k, v);
    assert forall|i: int| 0 <= i < t2.len() implies (#[trigger] t2[i]).1.id < n by {
        let j = assoc_find(t, k);
        if j >= 0 {
            lemma_find_from(t, k, 0);
            if i != j {
                assert(t2[i] == t[i]);
            }
        } else {
            if i < t.len() {
                assert(t2[i] == t[i]);
            }
        }
    }
}

/// Removing an attribute keeps the attributes in the heap.
pub proof fn lemma_assoc_del_refs<K>(t: Seq<(K, Object)>, k: K, n: nat)
    requires
        forall|i: int| 0 <= i < t.len() ==> (#[trigger] t[i]).1.id < n,
    ensures
        forall|i: int| 0 <= i < assoc_del(t, k).len() ==> (#[trigger] assoc_del(t, k)[i]).1.id < n,
{
    let t2 = assoc_del(t, k);
    assert forall|i: int| 0 <= i < t2.len() implies (#[trigger] t2[i]).1.id < n by {
        let j = assoc_find(t, k);
        if j >= 0 {
            lemma_find_from(t, k, 0);
            if i < j {
                assert(t2[i] == t[i]);
            } else {
                assert(t2[i] == t[i + 1]);
            }
        }
    }
}

/// All the objects of a running program.
#[derive(Debug)]
pub struct Heap {
    objects: Vec<TypedObject>,
}

impl View for Heap {
    type V = Seq<EntryM>;

    closed spec fn view(&self) -> Seq<EntryM> {
        self.objects@.map_values(|o: TypedObject| o@)
    }
}

impl Heap {
    /// The heap is consistent: every handle it holds is in it, and every
    /// object has an id that a `usize` holds.
    pub open spec fn wf(&self) -> bool {
        &&& heap_ok(self@)
        &&& self@.len() <= usize::MAX
    }

    /// `obj` is an object of this heap.
    pub open spec fn holds(&self, obj: Object) -> bool {
        obj.id < self@.len()
    }

    /// An empty heap.
    pub fn new() -> (r: Heap)
        ensures
            r@ == Seq::<EntryM>::empty(),
            r.wf(),
    {
        let r = Heap { objects: Vec::new() };
        assert(r@ =~= Seq::<EntryM>::empty());
        r
    }

    /// The number of objects.
    pub fn len(&self) -> (r: usize)
        ensures
            r == self@.len(),
    {
        self.objects.len()
    }

    /// Puts `obj` in the heap and returns its handle.
    pub(crate) fn insert(&mut self, obj: TypedObject) -> (r: Object)
        ensures
            final(self)@ == old(self)@.push(obj@),
            r.id == old(self)@.len(),
            final(self)@.len() <= usize::MAX,
    {
        let id = self.objects.len();
        self.objects.push(obj);
        let _n: usize = self.objects.len();
        assert(self@ =~= old(self)@.push(obj@));
        Object { id }
    }

    /// A new object holding `value` and no attributes.
    pub fn new_object(&mut self, value: Data) -> (r: Object)
        requires
            old(self).wf(),
            value@.refs_below(old(self)@.len()),
        ensures
            final(self)@ == old(self)@.push(plain(value@)),
            r.id == old(self)@.len(),
            final(self).wf(),
    {
        proof {
            lemma_push_ok(self@, plain(value@));
        }
        self.insert(TypedObject::new(value))
    }

    /// A new object that copies `obj`: its value and its own attributes.
    pub fn copy_object(&mut self, obj: Object) -> (r: Object)
        requires
            old(self).wf(),
            old(self).holds(obj),
        ensures
            final(self)@ == old(self)@.push(old(self)@[obj.id as int]),
            r.id == old(self)@.len(),
            final(self).wf(),
    {
        let copy = self.objects[obj.id].duplicate();
        proof {
            lemma_push_ok(self@, self@[obj.id as int]);
        }
        self.insert(copy)
    }

    /// The object that `obj` refers to.
    pub fn entry(&self, obj: Object) -> (r: &TypedObject)
        requires
            self.holds(obj),
        ensures
            r@ == self@[obj.id as int],
    {
        &self.objects[obj.id]
    }

    /// The value of `obj`.
    pub fn value(&self, obj: Object) -> (r: &Data)
        requires
            self.holds(obj),
        ensures
            r@ == self@[obj.id as int].value,
    {
        self.objects[obj.id].value()
    }

    /// The kind of `obj`'s value.
    pub fn kind(&self, obj: Object) -> (r: Kind)
        requires
            self.holds(obj),
        ensures
            r == self@[obj.id as int].value.kind(),
    {
        self.objects[obj.id].value().kind()
    }

    /// Sets `obj`'s own attribute `name` to `val`; returns what it was.
    pub fn set_attr_of(&mut self, obj: Object, name: String, val: Object) -> (r: Option<Object>)
        requires
            old(self).wf(),
            old(self).holds(obj),
            old(self).holds(val),
        ensures
            final(self).wf(),
            r == assoc_get(old(self)@[obj.id as int].attrs, name@),
            final(self)@ == old(self)@.update(obj.id as int, EntryM {
                value: old(self)@[obj.id as int].value,
                attrs: assoc_set(old(self)@[obj.id as int].attrs, name@, val),
                keyed: old(self)@[obj.id as int].keyed,
            }),
    {
        let ghost k = name@;
        let r = self.objects[obj.id].set(name, val);
        assert(self@ =~= old(self)@.update(obj.id as int, self.objects@[obj.id as int]@));
        proof {
            let e = old(self)@[obj.id as int];
            lemma_assoc_set_refs(e.attrs, k, val, old(self)@.len());
            crate::object::laws::law_set_keeps_names_unique(e.attrs, k, val);
            lemma_update_ok(old(self)@, obj.id as int, self@[obj.id as int]);
        }
        r
    }

    /// Removes `obj`'s own attribute `name`; returns what it was.
    pub fn del_attr_of(&mut self, obj: Object, name: &String) -> (r: Option<Object>)
        requires
            old(self).wf(),
            old(self).holds(obj),
        ensures
            final(self).wf(),
            r matches Some(o) ==> final(self).holds(o),
            r == assoc_get(old(self)@[obj.id as int].attrs, name@),
            final(self)@ == old(self)@.update(obj.id as int, EntryM {
                value: old(self)@[obj.id as int].value,
                attrs: assoc_del(old(self)@[obj.id as int].attrs, name@),
                keyed: old(self)@[obj.id as int].keyed,
            }),
    {
        let r = self.objects[obj.id].del(name);
        assert(self@ =~= old(self)@.update(obj.id as int, self.objects@[obj.id as int]@));
        proof {
            let e = old(self)@[obj.id as int];
            lemma_assoc_del_refs(e.attrs, name@, old(self)@.len());
            crate::object::laws::law_del_keeps_names_unique(e.attrs, name@);
            lemma_update_ok(old(self)@, obj.id as int, self@[obj.id as int]);
            if r is Some {
                lemma_find_from(e.attrs, name@, 0);
            }
        }
        r
    }

    /// Sets `obj`'s own attribute keyed by the object `key` to `val`; returns what it was.
    pub fn set_keyed_of(&mut self, obj: Object, key: Object, val: Object) -> (r: Option<Object>)
        requires
            old(self).wf(),
            old(self).holds(obj),
            old(self).holds(key),
            old(self).holds(val),
        ensures
            final(self).wf(),
            r == assoc_get(old(self)@[obj.id as int].keyed, key),
            final(self)@ == old(self)@.update(obj.id as int, EntryM {
                value: old(self)@[obj.id as int].value,
                attrs: old(self)@[obj.id as int].attrs,
                keyed: assoc_set(old(self)@[obj.id as int].keyed, key, val),
            }),
    {
        let r = self.objects[obj.id].set_keyed(key, val);
        assert(self@ =~= old(self)@.update(obj.id as int, self.objects@[obj.id as int]@));
        proof {
            let e = old(self)@[obj.id as int];
            let n = old(self)@.len();
            let t2 = assoc_set(e.keyed, key, val);
            lemma_find_from(e.keyed, key, 0);
            assert forall|i: int| 0 <= i < t2.len() implies (#[trigger] t2[i]).0.id < n && t2[i].1.id < n by {
                let j = assoc_find(e.keyed, key);
                if !(j >= 0 && i == j) && i < e.keyed.len() {
                    assert(t2[i] == e.keyed[i]);
                }
            }
            crate::object::laws::law_set_keeps_names_unique(e.keyed, key, val);
            lemma_update_ok(old(self)@, obj.id as int, self@[obj.id as int]);
        }
        r
    }

    /// Removes `obj`'s own attribute keyed by the object `key`; returns what it was.
    pub fn del_keyed_of(&mut self, obj: Object, key: Object) -> (r: Option<Object>)
        requires
            old(self).wf(),
            old(self).holds(obj),
        ensures
            final(self).wf(),
            r matches Some(o) ==> final(self).holds(o),
            r == assoc_get(old(self)@[obj.id as int].keyed, key),
            final(self)@ == old(self)@.update(obj.id as int, EntryM {
                value: old(self)@[obj.id as int].value,
                attrs: old(self)@[obj.id as int].attrs,
                keyed: assoc_del(old(self)@[obj.id as int].keyed, key),
            }),
    {
        let r = self.objects[obj.id].del_keyed(key);
        assert(self@ =~= old(self)@.update(obj.id as int, self.objects@[obj.id as int]@));
        proof {
            let e = old(self)@[obj.id as int];
            let n = old(self)@.len();
            let t2 = assoc_del(e.keyed, key);
            let j = assoc_find(e.keyed, key);
            lemma_find_from(e.keyed, key, 0);
            assert forall|i: int| 0 <= i < t2.len() implies (#[trigger] t2[i]).0.id < n && t2[i].1.id < n by {
                if j >= 0 {
                    if i < j {
                        assert(t2[i] == e.keyed[i]);
                    } else {
                        assert(t2[i] == e.keyed[i + 1]);
                    }
                }
            }
            crate::object::laws::law_del_keeps_names_unique(e.keyed, key);
            lemma_update_ok(old(self)@, obj.id as int, self@[obj.id as int]);
        }
        r
    }

    /// Appends `s` to the text that `obj` holds.
    pub fn append_text(&mut self, obj: Object, s: &str)
        requires
            old(self).wf(),
            old(self).holds(obj),
            old(self)@[obj.id as int].value is Text,
        ensures
            final(self)@ == old(self)@.update(obj.id as int, EntryM {
                value: ValueM::Text(old(self)@[obj.id as int].value->Text_0 + s@),
                attrs: old(self)@[obj.id as int].attrs,
                keyed: old(self)@[obj.id as int].keyed,
            }),
            final(self).wf(),
    {
        self.objects[obj.id].append_text(s);
        assert(self@ =~= old(self)@.update(obj.id as int, self.objects@[obj.id as int]@));
        proof {
            lemma_update_ok(old(self)@, obj.id as int, self@[obj.id as int]);
        }
    }

    /// Replaces the text that `obj` holds by `s`.
    pub fn set_text(&mut self, obj: Object, s: String)
        requires
            old(self).wf(),
            old(self).holds(obj),
            old(self)@[obj.id as int].value is Text,
        ensures
            final(self)@ == old(self)@.update(obj.id as int, EntryM {
                value: ValueM::Text(s@),
                attrs: old(self)@[obj.id as int].attrs,
                keyed: old(self)@[obj.id as int].keyed,
            }),
            final(self).wf(),
    {
        self.objects[obj.id].set_text(s);
        assert(self@ =~= old(self)@.update(obj.id as int, self.objects@[obj.id as int]@));
        proof {
            lemma_update_ok(old(self)@, obj.id as int, self@[obj.id as int]);
        }
    }

    /// Appends `items` to the list that `obj` holds.
    pub fn extend_list(&mut self, obj: Object, items: &Vec<Object>)
        requires
            old(self).wf(),
            old(self).holds(obj),
            forall|i: int| 0 <= i < items@.len() ==> old(self).holds(#[trigger] items@[i]),
            old(self)@[obj.id as int].value is List,
        ensures
            final(self)@ == old(self)@.update(obj.id as int, EntryM {
                value: ValueM::List(old(self)@[obj.id as int].value->List_0 + items@),
                attrs: old(self)@[obj.id as int].attrs,
                keyed: old(self)@[obj.id as int].keyed,
            }),
            final(self).wf(),
    {
        self.objects[obj.id].extend_list(items);
        assert(self@ =~= old(self)@.update(obj.id as int, self.objects@[obj.id as int]@));
        proof {
            let n = old(self)@.len();
            let s2 = self@[obj.id as int].value->List_0;
            let s1 = old(self)@[obj.id as int].value->List_0;
            assert(old(self)@[obj.id as int].refs_below(n));
            assert forall|i: int| 0 <= i < s2.len() implies (#[trigger] s2[i]).id < n by {
                if i < s1.len() {
                    assert(s2[i] == s1[i]);
                } else {
                    assert(s2[i] == items@[i - s1.len()]);
                }
            }
            lemma_update_ok(old(self)@, obj.id as int, self@[obj.id as int]);
        }
    }

    /// Removes and returns the last element of the list that `obj` holds.
    pub fn pop_list(&mut self, obj: Object) -> (r: Option<Object>)
        requires
            old(self).wf(),
            old(self).holds(obj),
            old(self)@[obj.id as int].value is List,
        ensures
            ({
                let s = old(self)@[obj.id as int].value->List_0;
                &&& s.len() == 0 ==> r is None && final(self)@ == old(self)@
                &&& s.len() > 0 ==> r == Some(s.last()) && final(self)@ == old(self)@.update(
                    obj.id as int,
                    EntryM { value: ValueM::List(s.drop_last()), attrs: old(self)@[obj.id as int].attrs, keyed: old(self)@[obj.id as int].keyed },
                )
            }),
            final(self).wf(),
            r matches Some(o) ==> final(self).holds(o),
    {
        let r = self.objects[obj.id].pop_list();
        assert(self@ =~= old(self)@.update(obj.id as int, self.objects@[obj.id as int]@));
        proof {
            let n = old(self)@.len();
            let s1 = old(self)@[obj.id as int].value->List_0;
            assert(old(self)@[obj.id as int].refs_below(n));
            if s1.len() > 0 {
                let s2 = s1.drop_last();
                assert forall|i: int| 0 <= i < s2.len() implies (#[trigger] s2[i]).id < n by {
                    assert(s2[i] == s1[i]);
                }
                assert(s1[s1.len() - 1].id < n);
                lemma_update_ok(old(self)@, obj.id as int, self@[obj.id as int]);
            }
        }
        r
    }
}

} // verus!
