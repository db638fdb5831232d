//! Operators: their written form, how tightly they bind, how many
//! operands they take, and what calling one does.

use vstd::prelude::*;
use crate::error::{Error, ErrorM};
use crate::object::heap::{Heap, Kind, Object};
use crate::object::literal::consts::{AT_LIST, CALL};
use crate::object::semantics::{Outcome, getarg, sem_convert, sem_call_attr};
use crate::object::dispatch::{runs_as, holds_all, getarg_exec, convert_fuel, call_attr_fuel};
use crate::object::types::list::{items_value, lemma_items_held};

verus! {

/// How many operands an operator takes, and on which side.
#[derive(Debug, Clone, Copy, PartialEq, Eq, Structural)]
pub enum Arity {
    Nonary,
    UnaryOnL,
    UnaryOnR,
    BinaryLtoR,
    BinaryRtoL,
}

/// How tightly an operator binds, tightest first.
#[allow(non_camel_case_types)]
#[derive(Debug, Clone, Copy, PartialEq, Eq, PartialOrd, Ord, Structural)]
pub enum Precedence {
    Period_ColonColon,
    Execute,
    Call,
    Pos_BitNot_Not,
    Pow,
    Neg,
    Mul_Div_Mod,
    Add_Sub,
    BitShl_BitShr,
    BitAnd,
    BitOr_BitXor,
    Lth_Gth_Leq_Geq,
    Eq_Ne_Cmp,
    And,
    Or,
    Assignment,
    CompoundAssignment,
    Comma,
    Endline,
}

/// An operator of the language.
#[derive(Debug, Clone, Copy, PartialEq, Eq, Structural)]
pub enum Oper {
    Pos,
    Neg,
    Add,
    Sub,
    Mul,
    Div,
    Mod,
    Pow,
    AddEq,
    SubEq,
    MulEq,
    DivEq,
    ModEq,
    PowEq,
    BitShl,
    BitShr,
    BitAnd,
    BitOr,
    BitXor,
    BitNot,
    BitShlEq,
    BitShrEq,
    BitAndEq,
    BitOrEq,
    BitXorEq,
    Eql,
    Neq,
    Lth,
    Leq,
    Gth,
    Geq,
    Cmp,
    And,
    Or,
    Not,
    Assign,
    ArrowRight,
    ArrowLeft,
    Period,
    ColonColon,
    Comma,
    Endline,
    Execute,
    Call,
}

/// Every operator, in the order in which they are tried when parsing.
pub open spec fn all_opers() -> Seq<Oper> {
    seq![
        Oper::Pos,
        Oper::Neg,
        Oper::Add,
        Oper::Sub,
        Oper::Mul,
        Oper::Div,
        Oper::Mod,
        Oper::Pow,
        Oper::AddEq,
        Oper::SubEq,
        Oper::MulEq,
        Oper::DivEq,
        Oper::ModEq,
        Oper::PowEq,
        Oper::BitShl,
        Oper::BitShr,
        Oper::BitAnd,
        Oper::BitOr,
        Oper::BitXor,
        Oper::BitNot,
        Oper::BitShlEq,
        Oper::BitShrEq,
        Oper::BitAndEq,
        Oper::BitOrEq,
        Oper::BitXorEq,
        Oper::Eql,
        Oper::Neq,
        Oper::Lth,
        Oper::Leq,
        Oper::Gth,
        Oper::Geq,
        Oper::Cmp,
        Oper::And,
        Oper::Or,
        Oper::Not,
        Oper::Assign,
        Oper::ArrowRight,
        Oper::ArrowLeft,
        Oper::Period,
        Oper::ColonColon,
        Oper::Comma,
        Oper::Endline,
        Oper::Execute,
        Oper::Call,
    ]
}

/// How many operands `op` takes.
pub open spec fn arity_of(op: Oper) -> Arity {
    match op {
        Oper::Pos | Oper::Neg | Oper::BitNot | Oper::Not => Arity::UnaryOnL,
        Oper::Execute => Arity::UnaryOnR,
        Oper::Comma | Oper::Endline => Arity::Nonary,
        Oper::Pow | Oper::Assign | Oper::ArrowRight => Arity::BinaryRtoL,
        _ => Arity::BinaryLtoR,
    }
}

/// How tightly `op` binds.
pub open spec fn precedence_of(op: Oper) -> Precedence {
    match op {
        Oper::Pos => Precedence::Pos_BitNot_Not,
        Oper::Neg => Precedence::Neg,
        Oper::Add => Precedence::Add_Sub,
        Oper::Sub => Precedence::Add_Sub,
        Oper::Mul => Precedence::Mul_Div_Mod,
        Oper::Div => Precedence::Mul_Div_Mod,
        Oper::Mod => Precedence::Mul_Div_Mod,
        Oper::Pow => Precedence::Pow,
        Oper::AddEq => Precedence::CompoundAssignment,
        Oper::SubEq => Precedence::CompoundAssignment,
        Oper::MulEq => Precedence::CompoundAssignment,
        Oper::DivEq => Precedence::CompoundAssignment,
        Oper::ModEq => Precedence::CompoundAssignment,
        Oper::PowEq => Precedence::CompoundAssignment,
        Oper::BitShl => Precedence::BitShl_BitShr,
        Oper::BitShr => Precedence::BitShl_BitShr,
        Oper::BitAnd => Precedence::BitAnd,
        Oper::BitOr => Precedence::BitOr_BitXor,
        Oper::BitXor => Precedence::BitOr_BitXor,
        Oper::BitNot => Precedence::Pos_BitNot_Not,
        Oper::BitShlEq => Precedence::CompoundAssignment,
        Oper::BitShrEq => Precedence::CompoundAssignment,
        Oper::BitAndEq => Precedence::CompoundAssignment,
        Oper::BitOrEq => Precedence::CompoundAssignment,
        Oper::BitXorEq => Precedence::CompoundAssignment,
        Oper::Eql => Precedence::Eq_Ne_Cmp,
        Oper::Neq => Precedence::Eq_Ne_Cmp,
        Oper::Lth => Precedence::Lth_Gth_Leq_Geq,
        Oper::Leq => Precedence::Lth_Gth_Leq_Geq,
        Oper::Gth => Precedence::Lth_Gth_Leq_Geq,
        Oper::Geq => Precedence::Lth_Gth_Leq_Geq,
        Oper::Cmp => Precedence::Eq_Ne_Cmp,
        Oper::And => Precedence::And,
        Oper::Or => Precedence::Or,
        Oper::Not => Precedence::Pos_BitNot_Not,
        Oper::Assign => Precedence::Assignment,
        Oper::ArrowRight => Precedence::Assignment,
        Oper::ArrowLeft => Precedence::Assignment,
        Oper::Period => Precedence::Period_ColonColon,
        Oper::ColonColon => Precedence::Period_ColonColon,
        Oper::Comma => Precedence::Comma,
        Oper::Endline => Precedence::Endline,
        Oper::Execute => Precedence::Execute,
        Oper::Call => Precedence::Call,
    }
}

/// How `op` is written.
pub open spec fn sigil_of(op: Oper) -> Seq<char> {
    match op {
        Oper::Pos => "+@"@,
        Oper::Neg => "-@"@,
        Oper::Add => "+"@,
        Oper::Sub => "-"@,
        Oper::Mul => "*"@,
        Oper::Div => "/"@,
        Oper::Mod => "%"@,
        Oper::Pow => "**"@,
        Oper::AddEq => "+="@,
        Oper::SubEq => "-="@,
        Oper::MulEq => "*="@,
        Oper::DivEq => "/="@,
        Oper::ModEq => "%="@,
        Oper::PowEq => "**="@,
        Oper::BitShl => "<<"@,
        Oper::BitShr => ">>"@,
        Oper::BitAnd => "&"@,
        Oper::BitOr => "|"@,
        Oper::BitXor => "^"@,
        Oper::BitNot => "~"@,
        Oper::BitShlEq => "<<="@,
        Oper::BitShrEq => ">>="@,
        Oper::BitAndEq => "&="@,
        Oper::BitOrEq => "|="@,
        Oper::BitXorEq => "^="@,
        Oper::Eql => "=="@,
        Oper::Neq => "!="@,
        Oper::Lth => "<"@,
        Oper::Leq => "<="@,
        Oper::Gth => ">"@,
        Oper::Geq => ">="@,
        Oper::Cmp => "<=>"@,
        Oper::And => "and"@,
        Oper::Or => "or"@,
        Oper::Not => "not"@,
        Oper::Assign => "="@,
        Oper::ArrowRight => "->"@,
        Oper::ArrowLeft => "<-"@,
        Oper::Period => "."@,
        Oper::ColonColon => "::"@,
        Oper::Comma => ","@,
        Oper::Endline => ";"@,
        Oper::Execute => "!"@,
        Oper::Call => ":"@,
    }
}

/// The attribute that calling `op` calls on its first operand.
pub open spec fn call_sigil_of(op: Oper) -> Seq<char> {
    match op {
        Oper::Call | Oper::Execute => CALL@,
        _ => sigil_of(op),
    }
}

/// `p` is a prefix of `t`.
pub open spec fn is_prefix(p: Seq<char>, t: Seq<char>) -> bool {
    p.len() <= t.len() && t.subrange(0, p.len() as int) == p
}

/// The place of `op` in [`all_opers`].
pub open spec fn oper_index(op: Oper) -> int {
    match op {
        Oper::Pos => 0,
        Oper::Neg => 1,
        Oper::Add => 2,
        Oper::Sub => 3,
        Oper::Mul => 4,
        Oper::Div => 5,
        Oper::Mod => 6,
        Oper::Pow => 7,
        Oper::AddEq => 8,
        Oper::SubEq => 9,
        Oper::MulEq => 10,
        Oper::DivEq => 11,
        Oper::ModEq => 12,
        Oper::PowEq => 13,
        Oper::BitShl => 14,
        Oper::BitShr => 15,
        Oper::BitAnd => 16,
        Oper::BitOr => 17,
        Oper::BitXor => 18,
        Oper::BitNot => 19,
        Oper::BitShlEq => 20,
        Oper::BitShrEq => 21,
        Oper::BitAndEq => 22,
        Oper::BitOrEq => 23,
        Oper::BitXorEq => 24,
        Oper::Eql => 25,
        Oper::Neq => 26,
        Oper::Lth => 27,
        Oper::Leq => 28,
        Oper::Gth => 29,
        Oper::Geq => 30,
        Oper::Cmp => 31,
        Oper::And => 32,
        Oper::Or => 33,
        Oper::Not => 34,
        Oper::Assign => 35,
        Oper::ArrowRight => 36,
        Oper::ArrowLeft => 37,
        Oper::Period => 38,
        Oper::ColonColon => 39,
        Oper::Comma => 40,
        Oper::Endline => 41,
        Oper::Execute => 42,
        Oper::Call => 43,
    }
}

/// Every operator is in [`all_opers`], at its [`oper_index`].
pub proof fn lemma_oper_index(op: Oper)
    ensures
        0 <= oper_index(op) < all_opers().len(),
        all_opers()[oper_index(op)] == op,
{
}

/// Whether `p` is a prefix of `t`.
fn starts_with(t: &str, p: &str) -> (r: bool)
    ensures
        r == is_prefix(p@, t@),
{
    let n = p.unicode_len();
    let m = t.unicode_len();
    if n > m {
        return false;
    }
    let mut i: usize = 0;
    while i < n
        invariant
            n == p@.len(),
            m == t@.len(),
            n <= m,
            i <= n,
            forall|j: int| 0 <= j < i ==> t@[j] == p@[j],
        decreases n - i,
    {
        if t.get_char(i) != p.get_char(i) {
            assert(t@.subrange(0, n as int)[i as int] != p@[i as int]);
            return false;
        }
        i = i + 1;
    }
    assert(t@.subrange(0, n as int) =~= p@);
    true
}

/// What calling the operator `op` with the operands `args` does: `:`
/// calls its first operand with the elements of its second, converted
/// with `@list`; an operator of no operands returns nothing; any other
/// calls its attribute on its first operand, with the second operand if
/// it takes two.
pub open spec fn sem_oper_call(h: Seq<crate::object::heap::EntryM>, op: Oper, args: Seq<Object>, fuel: nat) -> Outcome {
    if op == Oper::Call {
        match getarg(args, 1, sigil_of(op)) {
            Err(e) => (h, Err(e)),
            Ok(a1) => {
                let (h1, r) = sem_convert(h, a1, AT_LIST@, Kind::List, fuel);
                match r {
                    Err(e) => (h1, Err(e)),
                    Ok(l) => match getarg(args, 0, sigil_of(op)) {
                        Err(e) => (h1, Err(e)),
                        Ok(a0) => sem_call_attr(h1, a0, CALL@, h1[l.id as int].value->List_0, fuel),
                    },
                }
            },
        }
    } else {
        match arity_of(op) {
            Arity::Nonary => (h, Err(ErrorM::NothingToReturn)),
            Arity::UnaryOnL | Arity::UnaryOnR => match getarg(args, 0, sigil_of(op)) {
                Err(e) => (h, Err(e)),
                Ok(a0) => sem_call_attr(h, a0, call_sigil_of(op), Seq::empty(), fuel),
            },
            _ => match getarg(args, 0, sigil_of(op)) {
                Err(e) => (h, Err(e)),
                Ok(a0) => match getarg(args, 1, sigil_of(op)) {
                    Err(e) => (h, Err(e)),
                    Ok(a1) => sem_call_attr(h, a0, call_sigil_of(op), seq![a1], fuel),
                },
            },
        }
    }
}

impl Oper {
    /// How many operands the operator takes.
    pub fn arity(&self) -> (r: Arity)
        ensures
            r == arity_of(*self),
    {
        match self {
            Oper::Pos | Oper::Neg | Oper::BitNot | Oper::Not => Arity::UnaryOnL,
            Oper::Execute => Arity::UnaryOnR,
            Oper::Comma | Oper::Endline => Arity::Nonary,
            Oper::Pow | Oper::Assign | Oper::ArrowRight => Arity::BinaryRtoL,
            _ => Arity::BinaryLtoR,
        }
    }

    /// How tightly the operator binds.
    pub fn precedence(&self) -> (r: Precedence)
        ensures
            r == precedence_of(*self),
    {
        match self {
            Oper::Pos => Precedence::Pos_BitNot_Not,
            Oper::Neg => Precedence::Neg,
            Oper::Add => Precedence::Add_Sub,
            Oper::Sub => Precedence::Add_Sub,
            Oper::Mul => Precedence::Mul_Div_Mod,
            Oper::Div => Precedence::Mul_Div_Mod,
            Oper::Mod => Precedence::Mul_Div_Mod,
            Oper::Pow => Precedence::Pow,
            Oper::AddEq => Precedence::CompoundAssignment,
            Oper::SubEq => Precedence::CompoundAssignment,
            Oper::MulEq => Precedence::CompoundAssignment,
            Oper::DivEq => Precedence::CompoundAssignment,
            Oper::ModEq => Precedence::CompoundAssignment,
            Oper::PowEq => Precedence::CompoundAssignment,
            Oper::BitShl => Precedence::BitShl_BitShr,
            Oper::BitShr => Precedence::BitShl_BitShr,
            Oper::BitAnd => Precedence::BitAnd,
            Oper::BitOr => Precedence::BitOr_BitXor,
            Oper::BitXor => Precedence::BitOr_BitXor,
            Oper::BitNot => Precedence::Pos_BitNot_Not,
            Oper::BitShlEq => Precedence::CompoundAssignment,
            Oper::BitShrEq => Precedence::CompoundAssignment,
            Oper::BitAndEq => Precedence::CompoundAssignment,
            Oper::BitOrEq => Precedence::CompoundAssignment,
            Oper::BitXorEq => Precedence::CompoundAssignment,
            Oper::Eql => Precedence::Eq_Ne_Cmp,
            Oper::Neq => Precedence::Eq_Ne_Cmp,
            Oper::Lth => Precedence::Lth_Gth_Leq_Geq,
            Oper::Leq => Precedence::Lth_Gth_Leq_Geq,
            Oper::Gth => Precedence::Lth_Gth_Leq_Geq,
            Oper::Geq => Precedence::Lth_Gth_Leq_Geq,
            Oper::Cmp => Precedence::Eq_Ne_Cmp,
            Oper::And => Precedence::And,
            Oper::Or => Precedence::Or,
            Oper::Not => Precedence::Pos_BitNot_Not,
            Oper::Assign => Precedence::Assignment,
            Oper::ArrowRight => Precedence::Assignment,
            Oper::ArrowLeft => Precedence::Assignment,
            Oper::Period => Precedence::Period_ColonColon,
            Oper::ColonColon => Precedence::Period_ColonColon,
            Oper::Comma => Precedence::Comma,
            Oper::Endline => Precedence::Endline,
            Oper::Execute => Precedence::Execute,
            Oper::Call => Precedence::Call,
        }
    }

    /// How the operator is written.
    pub fn sigil(&self) -> (r: &'static str)
        ensures
            r@ == sigil_of(*self),
    {
        match self {
            Oper::Pos => "+@",
            Oper::Neg => "-@",
            Oper::Add => "+",
            Oper::Sub => "-",
            Oper::Mul => "*",
            Oper::Div => "/",
            Oper::Mod => "%",
            Oper::Pow => "**",
            Oper::AddEq => "+=",
            Oper::SubEq => "-=",
            Oper::MulEq => "*=",
            Oper::DivEq => "/=",
            Oper::ModEq => "%=",
            Oper::PowEq => "**=",
            Oper::BitShl => "<<",
            Oper::BitShr => ">>",
            Oper::BitAnd => "&",
            Oper::BitOr => "|",
            Oper::BitXor => "^",
            Oper::BitNot => "~",
            Oper::BitShlEq => "<<=",
            Oper::BitShrEq => ">>=",
            Oper::BitAndEq => "&=",
            Oper::BitOrEq => "|=",
            Oper::BitXorEq => "^=",
            Oper::Eql => "==",
            Oper::Neq => "!=",
            Oper::Lth => "<",
            Oper::Leq => "<=",
            Oper::Gth => ">",
            Oper::Geq => ">=",
            Oper::Cmp => "<=>",
            Oper::And => "and",
            Oper::Or => "or",
            Oper::Not => "not",
            Oper::Assign => "=",
            Oper::ArrowRight => "->",
            Oper::ArrowLeft => "<-",
            Oper::Period => ".",
            Oper::ColonColon => "::",
            Oper::Comma => ",",
            Oper::Endline => ";",
            Oper::Execute => "!",
            Oper::Call => ":",
        }
    }

    /// The attribute that calling the operator calls on its first operand.
    pub fn call_sigil(&self) -> (r: &'static str)
        ensures
            r@ == call_sigil_of(*self),
    {
        match self {
            Oper::Call | Oper::Execute => CALL,
            _ => self.sigil(),
        }
    }

    /// The operator written at the start of `text`, the longest if several
    /// are, and the number of characters it takes.
    pub fn parse(text: &str) -> (r: Option<(Oper, usize)>)
        ensures
            match r {
                Some((op, n)) => {
                    &&& is_prefix(sigil_of(op), text@)
                    &&& n == sigil_of(op).len()
                    &&& forall|o: Oper| is_prefix(sigil_of(o), text@) ==> sigil_of(o).len() <= n
                    &&& forall|j: int| oper_index(op) < j < all_opers().len() ==>
                        !(is_prefix(sigil_of(#[trigger] all_opers()[j]), text@) && sigil_of(all_opers()[j]).len() == n)
                },
                None => forall|o: Oper| !is_prefix(sigil_of(o), text@),
            },
    {
        let mut all: Vec<Oper> = Vec::new();
        all.push(Oper::Pos);
        all.push(Oper::Neg);
        all.push(Oper::Add);
        all.push(Oper::Sub);
        all.push(Oper::Mul);
        all.push(Oper::Div);
        all.push(Oper::Mod);
        all.push(Oper::Pow);
        all.push(Oper::AddEq);
        all.push(Oper::SubEq);
        all.push(Oper::MulEq);
        all.push(Oper::DivEq);
        all.push(Oper::ModEq);
        all.push(Oper::PowEq);
        all.push(Oper::BitShl);
        all.push(Oper::BitShr);
        all.push(Oper::BitAnd);
        all.push(Oper::BitOr);
        all.push(Oper::BitXor);
        all.push(Oper::BitNot);
        all.push(Oper::BitShlEq);
        all.push(Oper::BitShrEq);
        all.push(Oper::BitAndEq);
        all.push(Oper::BitOrEq);
        all.push(Oper::BitXorEq);
        all.push(Oper::Eql);
        all.push(Oper::Neq);
        all.push(Oper::Lth);
        all.push(Oper::Leq);
        all.push(Oper::Gth);
        all.push(Oper::Geq);
        all.push(Oper::Cmp);
        all.push(Oper::And);
        all.push(Oper::Or);
        all.push(Oper::Not);
        all.push(Oper::Assign);
        all.push(Oper::ArrowRight);
        all.push(Oper::ArrowLeft);
        all.push(Oper::Period);
        all.push(Oper::ColonColon);
        all.push(Oper::Comma);
        all.push(Oper::Endline);
        all.push(Oper::Execute);
        all.push(Oper::Call);
        assert(all@ =~= all_opers());
        let mut best: Option<(Oper, usize)> = None;
        let ghost mut bi: int = 0;
        let mut i: usize = 0;
        while i < all.len()
            invariant
                all@ == all_opers(),
                i <= all@.len(),
                match best {
                    Some((op, n)) => {
                        &&& is_prefix(sigil_of(op), text@) && n == sigil_of(op).len()
                        &&& 0 <= bi < i && all@[bi] == op
                        &&& forall|j: int| bi < j < i ==>
                            !(is_prefix(sigil_of(#[trigger] all@[j]), text@) && sigil_of(all@[j]).len() >= n)
                    },
                    None => true,
                },
                forall|j: int| 0 <= j < i && is_prefix(sigil_of(#[trigger] all@[j]), text@) ==> match best {
                    Some((_, n)) => sigil_of(all@[j]).len() <= n,
                    None => false,
                },
            decreases all@.len() - i,
        {
            let op = all[i];
            let s = op.sigil();
            if starts_with(text, s) {
                let len = s.unicode_len();
                let better = match best {
                    Some((_, n)) => len >= n,
                    None => true,
                };
                if better {
                    best = Some((op, len));
                    proof {
                        bi = i as int;
                    }
                }
            }
            i = i + 1;
        }
        proof {
            assert forall|o: Oper| is_prefix(sigil_of(o), text@) implies match best {
                Some((_, n)) => sigil_of(o).len() <= n,
                None => false,
            } by {
                lemma_oper_index(o);
                assert(all@[oper_index(o)] == o);
            }
            if let Some((op, n)) = best {
                lemma_oper_index(op);
                assert(oper_index(op) == bi) by {
                    if oper_index(op) != bi {
                        assert(all@[oper_index(op)] == op);
                        assert(all@[bi] == op);
                    }
                }
            }
        }
        best
    }

    /// Calls the operator with the operands `args`.
    pub fn call(&self, heap: &mut Heap, args: &[Object]) -> (r: Result<Object, Error>)
        requires
            old(heap).wf(),
            holds_all(old(heap), args@),
        ensures
            runs_as(old(heap), final(heap), r, sem_oper_call(old(heap)@, *self, args@, crate::object::object::CALL_DEPTH as nat)),
    {
        let depth = crate::object::object::CALL_DEPTH;
        let none: Vec<Object> = Vec::new();
        if *self == Oper::Call {
            match getarg_exec(args, 1, self.sigil()) {
                Err(e) => Err(e),
                Ok(a1) => match convert_fuel(heap, a1, AT_LIST, Kind::List, depth) {
                    Err(e) => Err(e),
                    Ok(l) => match getarg_exec(args, 0, self.sigil()) {
                        Err(e) => Err(e),
                        Ok(a0) => {
                            let items = items_value(heap, l);
                            proof {
                                lemma_items_held(heap, l);
                            }
                            call_attr_fuel(heap, a0, CALL, items.as_slice(), depth)
                        },
                    },
                },
            }
        } else {
            match self.arity() {
                Arity::Nonary => Err(Error::NothingToReturn),
                Arity::UnaryOnL | Arity::UnaryOnR => match getarg_exec(args, 0, self.sigil()) {
                    Err(e) => Err(e),
                    Ok(a0) => call_attr_fuel(heap, a0, self.call_sigil(), none.as_slice(), depth),
                },
                _ => match getarg_exec(args, 0, self.sigil()) {
                    Err(e) => Err(e),
                    Ok(a0) => match getarg_exec(args, 1, self.sigil()) {
                        Err(e) => Err(e),
                        Ok(a1) => {
                            let mut one: Vec<Object> = Vec::new();
                            one.push(a1);
                            assert(one@ =~= seq![a1]);
                            call_attr_fuel(heap, a0, self.call_sigil(), one.as_slice(), depth)
                        },
                    },
                },
            }
        }
    }
}

} // verus!
