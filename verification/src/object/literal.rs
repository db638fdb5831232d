//! Names of attributes and variables.

pub mod consts;

use vstd::prelude::*;

verus! {

/// A name: the text of a variable, or the key of an attribute.
#[derive(Debug, Clone, PartialEq, Eq, Hash)]
pub struct Literal {
    text: String,
}

impl View for Literal {
    type V = Seq<char>;

    closed spec fn view(&self) -> Seq<char> {
        self.text@
    }
}

impl Literal {
    /// A literal with the given text.
    pub(crate) fn new(literal: &str) -> (r: Literal)
        ensures
            r@ == literal@,
    {
        Literal { text: String::from_str(literal) }
    }

    /// A literal with the given text, for tests and examples.
    pub fn new_testing(literal: &str) -> (r: Literal)
        ensures
            r@ == literal@,
    {
        Literal::new(literal)
    }

    /// The literal that holds `text`.
    pub fn from_string(text: String) -> (r: Literal)
        ensures
            r@ == text@,
    {
        Literal { text }
    }

    /// The text of the literal.
    pub fn as_str(&self) -> (r: &str)
        ensures
            r@ == self@,
    {
        self.text.as_str()
    }

    /// The text of the literal, as an owned string.
    pub fn to_text(&self) -> (r: String)
        ensures
            r@ == self@,
    {
        self.text.clone()
    }

    /// Whether two literals name the same thing.
    pub fn same(&self, other: &Literal) -> (r: bool)
        ensures
            r == (self@ == other@),
    {
        self.text == other.text
    }
}

impl From<String> for Literal {
    fn from(string: String) -> (r: Literal)
        ensures
            r@ == string@,
    {
        Literal { text: string }
    }
}

impl vstd::std_specs::convert::FromSpecImpl<String> for Literal {
    open spec fn obeys_from_spec() -> bool {
        true
    }

    closed spec fn from_spec(v: String) -> Literal {
        Literal { text: v }
    }
}

} // verus!
