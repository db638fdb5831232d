//! The built-in types of Quest and the native functions of each.

use vstd::prelude::*;
use crate::object::heap::{Kind, Heap, Object, Data, ValueM, plain};
use crate::object::typed::Block;
use crate::object::typed::bound::BoundObject;

pub mod basic;
pub mod pristine;
pub mod boolean;
pub mod null;
pub mod num;
pub mod text;
pub mod variable;
pub mod list;
pub mod map;
pub mod rustfn;

pub use self::{
    boolean::Boolean,
    null::Null,
    num::Num,
    text::Text,
    variable::Variable,
    list::List,
    map::Dict,
    rustfn::RustFn,
};

verus! {

/// A type of value that objects can hold.
pub trait Type {
    /// The kind of value this type is.
    spec fn kind_of() -> Kind;

    /// The kind of value this type is.
    fn type_kind() -> (k: Kind)
        ensures
            k == Self::kind_of();
}

impl Type for Null {
    open spec fn kind_of() -> Kind { Kind::Null }
    fn type_kind() -> (k: Kind) { Kind::Null }
}

impl Type for Boolean {
    open spec fn kind_of() -> Kind { Kind::Boolean }
    fn type_kind() -> (k: Kind) { Kind::Boolean }
}

impl Type for Num {
    open spec fn kind_of() -> Kind { Kind::Num }
    fn type_kind() -> (k: Kind) { Kind::Num }
}

impl Type for Text {
    open spec fn kind_of() -> Kind { Kind::Text }
    fn type_kind() -> (k: Kind) { Kind::Text }
}

impl Type for Variable {
    open spec fn kind_of() -> Kind { Kind::Variable }
    fn type_kind() -> (k: Kind) { Kind::Variable }
}

impl Type for List {
    open spec fn kind_of() -> Kind { Kind::List }
    fn type_kind() -> (k: Kind) { Kind::List }
}

impl Type for Dict {
    open spec fn kind_of() -> Kind { Kind::Dict }
    fn type_kind() -> (k: Kind) { Kind::Dict }
}

impl Type for RustFn {
    open spec fn kind_of() -> Kind { Kind::RustFn }
    fn type_kind() -> (k: Kind) { Kind::RustFn }
}

impl Type for Block {
    open spec fn kind_of() -> Kind { Kind::Block }
    fn type_kind() -> (k: Kind) { Kind::Block }
}

impl Type for BoundObject {
    open spec fn kind_of() -> Kind { Kind::Bound }
    fn type_kind() -> (k: Kind) { Kind::Bound }
}

/// A value that can be put in the heap as a new object.
pub trait IntoObject: Sized {
    /// The value the new object holds.
    spec fn value_of(self) -> ValueM;

    /// Every object the value refers to is below `n`.
    spec fn refs_fit(self, n: nat) -> bool;

    /// Puts the value in `heap` as a new object with no attributes.
    fn into_object(self, heap: &mut Heap) -> (r: Object)
        requires
            old(heap).wf(),
            self.refs_fit(old(heap)@.len()),
        ensures
            final(heap)@ == old(heap)@.push(plain(self.value_of())),
            r.id == old(heap)@.len(),
            final(heap).wf();
}

impl IntoObject for Null {
    open spec fn value_of(self) -> ValueM {
        ValueM::Null
    }

    open spec fn refs_fit(self, n: nat) -> bool {
        true
    }

    fn into_object(self, heap: &mut Heap) -> (r: Object) {
        heap.new_object(Data::Null)
    }
}

impl IntoObject for Boolean {
    open spec fn value_of(self) -> ValueM {
        ValueM::Boolean(self@)
    }

    open spec fn refs_fit(self, n: nat) -> bool {
        true
    }

    fn into_object(self, heap: &mut Heap) -> (r: Object) {
        heap.new_object(Data::Boolean(self))
    }
}

impl IntoObject for Num {
    open spec fn value_of(self) -> ValueM {
        ValueM::Num(self@)
    }

    open spec fn refs_fit(self, n: nat) -> bool {
        true
    }

    fn into_object(self, heap: &mut Heap) -> (r: Object) {
        heap.new_object(Data::Num(self))
    }
}

impl IntoObject for Text {
    open spec fn value_of(self) -> ValueM {
        ValueM::Text(self@)
    }

    open spec fn refs_fit(self, n: nat) -> bool {
        true
    }

    fn into_object(self, heap: &mut Heap) -> (r: Object) {
        heap.new_object(Data::Text(self))
    }
}

impl IntoObject for Variable {
    open spec fn value_of(self) -> ValueM {
        ValueM::Variable(self@)
    }

    open spec fn refs_fit(self, n: nat) -> bool {
        true
    }

    fn into_object(self, heap: &mut Heap) -> (r: Object) {
        heap.new_object(Data::Variable(self))
    }
}

impl IntoObject for List {
    open spec fn value_of(self) -> ValueM {
        ValueM::List(self@)
    }

    open spec fn refs_fit(self, n: nat) -> bool {
        forall|i: int| 0 <= i < self@.len() ==> (#[trigger] self@[i]).id < n
    }

    fn into_object(self, heap: &mut Heap) -> (r: Object) {
        heap.new_object(Data::List(self))
    }
}

impl IntoObject for Dict {
    open spec fn value_of(self) -> ValueM {
        ValueM::Dict(self@)
    }

    open spec fn refs_fit(self, n: nat) -> bool {
        forall|i: int| 0 <= i < self@.len() ==> (#[trigger] self@[i]).0.id < n && self@[i].1.id < n
    }

    fn into_object(self, heap: &mut Heap) -> (r: Object) {
        heap.new_object(Data::Dict(self))
    }
}

impl IntoObject for Block {
    open spec fn value_of(self) -> ValueM {
        ValueM::Block(self@.0, self@.1)
    }

    open spec fn refs_fit(self, n: nat) -> bool {
        true
    }

    fn into_object(self, heap: &mut Heap) -> (r: Object) {
        heap.new_object(Data::Block(self))
    }
}

/// Booleans, under the name the typed layer gives them.
pub type Bool = Boolean;

/// Variables, under the name the typed layer gives them.
pub type Var = Variable;

} // verus!
