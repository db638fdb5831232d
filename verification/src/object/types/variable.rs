//! The variable type: a name.

use vstd::prelude::*;
use crate::error::Error;
use crate::object::heap::Kind;
use crate::object::literal::consts::AT_VAR;
use crate::object::semantics::sem_convert;
use crate::object::dispatch::{runs_as, convert_fuel};
use crate::object::object::CALL_DEPTH;
use crate::object::types::text::str_equal;
use crate::object::literal::Literal;
use crate::object::heap::{Heap, Object, Data, ValueM, plain};

verus! {

/// A variable, identified by its name.
#[derive(Debug, Clone, PartialEq, Eq, Hash)]
pub struct Variable(Literal);

impl View for Variable {
    type V = Seq<char>;

    closed spec fn view(&self) -> Seq<char> {
        self.0@
    }
}

impl Variable {
    /// The variable named `id`.
    pub fn new(id: Literal) -> (r: Variable)
        ensures
            r@ == id@,
    {
        Variable(id)
    }

    /// The variable named by the text `id`.
    pub fn from_static(id: &str) -> (r: Variable)
        ensures
            r@ == id@,
    {
        Variable(Literal::from_string(String::from_str(id)))
    }

    /// The variable whose name is `string`.
    pub fn from_string(string: String) -> (r: Variable)
        ensures
            r@ == string@,
    {
        Variable(Literal::from_string(string))
    }

    /// The name of the variable.
    pub fn into_inner(self) -> (r: Literal)
        ensures
            r@ == self@,
    {
        self.0
    }

    /// The name of the variable, borrowed.
    pub fn literal(&self) -> (r: &Literal)
        ensures
            r@ == self@,
    {
        &self.0
    }

    /// A copy of the variable.
    pub fn duplicate(&self) -> (r: Variable)
        ensures
            r@ == self@,
    {
        Variable(Literal::from_string(self.0.to_text()))
    }
}

} // verus!

verus! {

/// The native methods of variables.
#[derive(Debug, Clone, Copy, PartialEq, Eq, Structural)]
pub enum VariableFn { AtVar }

} // verus!

verus! {

/// `@var` of a variable: a new variable with the same name.
pub fn at_var(heap: &mut Heap, obj: Object) -> (r: Object)
    requires
        old(heap).wf(),
        old(heap).holds(obj),
        old(heap)@[obj.id as int].value is Variable,
    ensures
        final(heap)@ == old(heap)@.push(plain(ValueM::Variable(old(heap)@[obj.id as int].value->Variable_0))),
        r.id == old(heap)@.len(),
        final(heap).wf(),
{
    let v = match heap.value(obj) {
        Data::Variable(v) => v.duplicate(),
        _ => Variable::from_string(String::new()),
    };
    heap.new_object(Data::Variable(v))
}

} // verus!

verus! {

impl Object {
    /// A new object holding the variable named `id`.
    pub fn new_variable(heap: &mut Heap, id: Literal) -> (r: Object)
        requires
            old(heap).wf(),
        ensures
            final(heap)@ == old(heap)@.push(plain(ValueM::Variable(id@))),
            r.id == old(heap)@.len(),
            final(heap).wf(),
    {
        heap.new_object(Data::Variable(Variable::new(id)))
    }

    /// A new object holding the variable named `id`.
    pub fn new_variable_from_string(heap: &mut Heap, id: String) -> (r: Object)
        requires
            old(heap).wf(),
        ensures
            final(heap)@ == old(heap)@.push(plain(ValueM::Variable(id@))),
            r.id == old(heap)@.len(),
            final(heap).wf(),
    {
        heap.new_object(Data::Variable(Variable::from_string(id)))
    }

    /// A new object holding the variable named `s`, for tests and examples.
    pub fn new_variable_testing(heap: &mut Heap, s: &str) -> (r: Object)
        requires
            old(heap).wf(),
        ensures
            final(heap)@ == old(heap)@.push(plain(ValueM::Variable(s@))),
            r.id == old(heap)@.len(),
            final(heap).wf(),
    {
        Object::new_variable(heap, Literal::new_testing(s))
    }

    /// Converts the object with `@var`.
    pub fn to_variable(&self, heap: &mut Heap) -> (r: Result<Object, Error>)
        requires
            old(heap).wf(),
            old(heap).holds(*self),
        ensures
            runs_as(old(heap), final(heap), r, sem_convert(old(heap)@, *self, AT_VAR@, Kind::Variable, CALL_DEPTH as nat)),
    {
        convert_fuel(heap, *self, AT_VAR, Kind::Variable, CALL_DEPTH)
    }

    /// Whether the object holds the variable named `var`.
    pub fn is_variable(&self, heap: &Heap, var: &str) -> (r: bool)
        requires
            heap.holds(*self),
        ensures
            r == (heap@[self.id as int].value == ValueM::Variable(var@)),
    {
        match heap.value(*self) {
            Data::Variable(v) => str_equal(v.literal().as_str(), var),
            _ => false,
        }
    }
}

} // verus!

verus! {

impl From<Literal> for Variable {
    fn from(id: Literal) -> (r: Variable)
        ensures
            r@ == id@,
    {
        Variable(id)
    }
}

impl vstd::std_specs::convert::FromSpecImpl<Literal> for Variable {
    open spec fn obeys_from_spec() -> bool {
        true
    }

    closed spec fn from_spec(v: Literal) -> Variable {
        Variable(v)
    }
}

impl From<Variable> for Literal {
    fn from(var: Variable) -> (r: Literal)
        ensures
            r@ == var@,
    {
        var.0
    }
}

impl vstd::std_specs::convert::FromSpecImpl<Variable> for Literal {
    open spec fn obeys_from_spec() -> bool {
        true
    }

    closed spec fn from_spec(v: Variable) -> Literal {
        v.0
    }
}

} // verus!
