//! Blocks of code, delimited by a pair of parentheses.

use vstd::prelude::*;
use crate::object::heap::{Heap, Object, TypedObject, Data, ValueM, plain};

verus! {

/// The kind of parentheses that delimit a block.
#[derive(Debug, Clone, Copy, PartialEq, Eq, Hash, Structural)]
pub enum Parens {
    Curly,
    Square,
    Round,
}

/// The opening character of each kind of parentheses.
pub open spec fn open_char(p: Parens) -> char {
    match p {
        Parens::Curly => '{',
        Parens::Square => '[',
        Parens::Round => '(',
    }
}

/// The closing character of each kind of parentheses.
pub open spec fn close_char(p: Parens) -> char {
    match p {
        Parens::Curly => '}',
        Parens::Square => ']',
        Parens::Round => ')',
    }
}

impl Parens {
    /// The parentheses that `chr` opens, if it opens any.
    pub fn try_from_start(chr: char) -> (r: Option<Parens>)
        ensures
            r matches Some(p) ==> open_char(p) == chr,
            r is None ==> (forall|p: Parens| open_char(p) != chr),
    {
        match chr {
            '{' => Some(Parens::Curly),
            '[' => Some(Parens::Square),
            '(' => Some(Parens::Round),
            _ => None,
        }
    }

    /// The parentheses that `chr` closes, if it closes any.
    pub fn try_from_end(chr: char) -> (r: Option<Parens>)
        ensures
            r matches Some(p) ==> close_char(p) == chr,
            r is None ==> (forall|p: Parens| close_char(p) != chr),
    {
        match chr {
            '}' => Some(Parens::Curly),
            ']' => Some(Parens::Square),
            ')' => Some(Parens::Round),
            _ => None,
        }
    }
}

/// A block of code: its parentheses and the text between them.
#[derive(Debug, Clone, PartialEq, Eq, Hash)]
pub struct Block {
    parens: Parens,
    body: String,
}

impl View for Block {
    type V = (Parens, Seq<char>);

    closed spec fn view(&self) -> (Parens, Seq<char>) {
        (self.parens, self.body@)
    }
}

/// The text of a block as it is written: its body between its parentheses.
pub open spec fn block_text(parens: Parens, body: Seq<char>) -> Seq<char> {
    seq![open_char(parens)] + body + seq![close_char(parens)]
}

impl Block {
    /// The block with the given parentheses and body.
    pub fn new(parens: Parens, body: String) -> (r: Block)
        ensures
            r@ == (parens, body@),
    {
        Block { parens, body }
    }

    /// The parentheses of the block.
    pub fn parens(&self) -> (r: Parens)
        ensures
            r == self@.0,
    {
        self.parens
    }

    /// The body of the block.
    pub fn body(&self) -> (r: &str)
        ensures
            r@ == self@.1,
    {
        self.body.as_str()
    }

    /// A copy of the block.
    pub fn duplicate(&self) -> (r: Block)
        ensures
            r@ == self@,
    {
        Block { parens: self.parens, body: self.body.clone() }
    }

    /// The block written out, parentheses included.
    pub fn to_text(&self) -> (r: String)
        ensures
            r@ == block_text(self@.0, self@.1),
    {
        let (open, close) = match self.parens {
            Parens::Curly => ("{", "}"),
            Parens::Square => ("[", "]"),
            Parens::Round => ("(", ")"),
        };
        proof {
            reveal_strlit("{");
            reveal_strlit("}");
            reveal_strlit("[");
            reveal_strlit("]");
            reveal_strlit("(");
            reveal_strlit(")");
        }
        let mut r = String::from_str(open);
        r.append(self.body.as_str());
        r.append(close);
        assert(r@ =~= block_text(self@.0, self@.1));
        r
    }
}

} // verus!

verus! {

impl TypedObject {
    /// An object holding the block with the given parentheses and body.
    pub fn new_block(parens: Parens, body: String) -> (r: TypedObject)
        ensures
            r@ == plain(ValueM::Block(parens, body@)),
    {
        TypedObject::new(Data::Block(Block::new(parens, body)))
    }
}

impl Object {
    /// A new object holding the block with the given parentheses and body.
    pub fn new_block(heap: &mut Heap, parens: Parens, body: String) -> (r: Object)
        requires
            old(heap).wf(),
        ensures
            final(heap)@ == old(heap)@.push(plain(ValueM::Block(parens, body@))),
            r.id == old(heap)@.len(),
            final(heap).wf(),
    {
        heap.new_object(Data::Block(Block::new(parens, body)))
    }
}

} // verus!
