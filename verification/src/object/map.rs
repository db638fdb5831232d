//! The table of native methods of a type, built the first time it is used.

use vstd::prelude::*;
use crate::object::heap::{Kind, assoc_find, assoc_get, assoc_set, assoc_del, find_from};
use crate::object::semantics::type_table;
use crate::object::dispatch::{table_view, type_methods};
use crate::object::types::{RustFn, Type};

verus! {

/// The names and functions of a table, as mathematical values.
pub open spec fn entries_view(t: Seq<(String, RustFn)>) -> Seq<(Seq<char>, RustFn)> {
    t.map_values(|p: (String, RustFn)| (p.0@, p.1))
}

/// The state of an [`ObjectMap`]: not built yet, or built.
enum MapState {
    /// To be built from the methods of this kind of value.
    Uninit(Kind),
    /// Built.
    Ready(Vec<(String, RustFn)>),
}

/// The mathematical value of an [`ObjectMap`].
pub struct ObjectMapM {
    /// Whether the table has been built.
    pub initialized: bool,
    /// The names and functions of the table; before it is built, those it
    /// will hold once it is.
    pub entries: Seq<(Seq<char>, RustFn)>,
}

/// A table as it is after it has been used: built, with the same entries.
pub open spec fn accessed(m: ObjectMapM) -> ObjectMapM {
    ObjectMapM { initialized: true, entries: m.entries }
}

/// The table is built at most once: using a table that is built changes
/// nothing (it is not built again), so a second use after a first one
/// finds the table the first use left; a table that is not built yet is
/// built with the entries it stood for, the methods of its kind.
pub proof fn law_built_once(m: ObjectMapM)
    ensures
        m.initialized ==> accessed(m) == m,
        accessed(accessed(m)) == accessed(m),
        accessed(m).initialized,
        accessed(m).entries == m.entries,
{
}

/// A table from names to native functions that is built the first time
/// it is read or changed.
pub struct ObjectMap {
    state: MapState,
}

impl View for ObjectMap {
    type V = ObjectMapM;

    closed spec fn view(&self) -> ObjectMapM {
        match self.state {
            MapState::Uninit(k) => ObjectMapM { initialized: false, entries: type_table(k) },
            MapState::Ready(v) => ObjectMapM { initialized: true, entries: entries_view(v@) },
        }
    }
}

/// The methods of values of kind `k`, as owned names.
fn build(k: Kind) -> (r: Vec<(String, RustFn)>)
    ensures
        entries_view(r@) == type_table(k),
{
    let t = type_methods(k);
    let mut r: Vec<(String, RustFn)> = Vec::new();
    let mut i: usize = 0;
    while i < t.len()
        invariant
            i <= t@.len(),
            entries_view(r@) == table_view(t@).take(i as int),
        decreases t@.len() - i,
    {
        let ghost before = r@;
        r.push((String::from_str(t[i].0), t[i].1));
        assert(entries_view(r@) =~= entries_view(before).push(table_view(t@)[i as int]));
        assert(table_view(t@).take(i as int + 1) =~= table_view(t@).take(i as int).push(table_view(t@)[i as int]));
        i = i + 1;
    }
    assert(table_view(t@).take(i as int) =~= table_view(t@));
    r
}

/// The index of the first entry named `key`, if there is one.
fn find_entry(t: &Vec<(String, RustFn)>, key: &str) -> (r: Option<usize>)
    ensures
        match r {
            Some(i) => i < t@.len() && i as int == assoc_find(entries_view(t@), key@),
            None => assoc_find(entries_view(t@), key@) == -1,
        },
{
    let ghost tv = entries_view(t@);
    let name = String::from_str(key);
    let mut i: usize = 0;
    while i < t.len()
        invariant
            i <= t@.len(),
            tv == entries_view(t@),
            name@ == key@,
            find_from(tv, key@, 0) == find_from(tv, key@, i as int),
        decreases t@.len() - i,
    {
        if t[i].0 == name {
            assert(tv[i as int].0 == key@);
            return Some(i);
        }
        assert(tv[i as int].0 != key@);
        i = i + 1;
    }
    None
}

impl ObjectMap {
    /// The table of the methods of the type `T`, not built yet.
    pub fn from_type<T: Type>() -> (r: ObjectMap)
        ensures
            !r@.initialized,
            r@.entries == type_table(T::kind_of()),
    {
        ObjectMap::from_func(T::type_kind())
    }

    /// A table to be built, when first used, from the methods of values of kind `build`.
    pub fn from_func(build: Kind) -> (r: ObjectMap)
        ensures
            !r@.initialized,
            r@.entries == type_table(build),
    {
        ObjectMap { state: MapState::Uninit(build) }
    }

    /// A table that is already built and holds `map`.
    pub fn initialized(map: Vec<(String, RustFn)>) -> (r: ObjectMap)
        ensures
            r@.initialized,
            r@.entries == entries_view(map@),
    {
        ObjectMap { state: MapState::Ready(map) }
    }

    /// Whether the table has been built.
    pub fn is_initialized(&self) -> (r: bool)
        ensures
            r == self@.initialized,
    {
        match self.state {
            MapState::Uninit(_) => false,
            MapState::Ready(_) => true,
        }
    }

    /// Makes the table ready for use: builds it from the methods of its
    /// kind if it is not built yet, and otherwise leaves it as it is.
    pub fn access_map(&mut self)
        ensures
            final(self)@ == accessed(old(self)@),
    {
        match self.state {
            MapState::Uninit(k) => {
                self.state = MapState::Ready(build(k));
            },
            MapState::Ready(_) => {},
        }
    }

    /// The function named `key`.
    pub fn get(&mut self, key: &str) -> (r: Option<RustFn>)
        ensures
            final(self)@ == accessed(old(self)@),
            r == assoc_get(old(self)@.entries, key@),
    {
        self.access_map();
        match &self.state {
            MapState::Ready(v) => match find_entry(v, key) {
                Some(i) => Some(v[i].1),
                None => None,
            },
            MapState::Uninit(_) => None,
        }
    }

    /// Whether the table has a function named `key`.
    pub fn has(&mut self, key: &str) -> (r: bool)
        ensures
            final(self)@ == accessed(old(self)@),
            r == (assoc_get(old(self)@.entries, key@) is Some),
    {
        self.get(key).is_some()
    }

    /// Names `val` `key`: replaces the first function named `key`, or adds one.
    pub fn set(&mut self, key: String, val: RustFn)
        ensures
            final(self)@.initialized,
            final(self)@.entries == assoc_set(old(self)@.entries, key@, val),
    {
        self.access_map();
        let ghost k = key@;
        match &mut self.state {
            MapState::Ready(v) => {
                let ghost before = v@;
                match find_entry(v, key.as_str()) {
                    Some(i) => {
                        v.set(i, (key, val));
                        assert(entries_view(v@) =~= assoc_set(entries_view(before), k, val));
                    },
                    None => {
                        v.push((key, val));
                        assert(entries_view(v@) =~= assoc_set(entries_view(before), k, val));
                    },
                }
            },
            MapState::Uninit(_) => {},
        }
    }

    /// Removes the first function named `key`, and returns it.
    pub fn del(&mut self, key: &str) -> (r: Option<RustFn>)
        ensures
            final(self)@.initialized,
            final(self)@.entries == assoc_del(old(self)@.entries, key@),
            r == assoc_get(old(self)@.entries, key@),
    {
        self.access_map();
        match &mut self.state {
            MapState::Ready(v) => {
                let ghost before = v@;
                match find_entry(v, key) {
                    Some(i) => {
                        let (_, f) = v.remove(i);
                        assert(entries_view(v@) =~= assoc_del(entries_view(before), key@));
                        Some(f)
                    },
                    None => None,
                }
            },
            MapState::Uninit(_) => None,
        }
    }

    /// The number of functions in the table.
    pub fn len(&mut self) -> (r: usize)
        ensures
            final(self)@ == accessed(old(self)@),
            r == old(self)@.entries.len(),
    {
        self.access_map();
        match &self.state {
            MapState::Ready(v) => v.len(),
            MapState::Uninit(_) => 0,
        }
    }
}

} // verus!
