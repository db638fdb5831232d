//! Evaluating a stream of operands and operators: each operator takes its
//! operands from the stack of values already evaluated and from what
//! follows it, stopping before an operator that binds less tightly.

use vstd::prelude::*;
use crate::error::{Error, ErrorM};
use crate::object::heap::{Heap, Object, EntryM};
use crate::object::dispatch::holds_all;
use crate::object::object::CALL_DEPTH;
use crate::object::typed::oper::{Oper, Arity, Precedence, arity_of, precedence_of, sigil_of, sem_oper_call};

verus! {

/// What the parser yields: an operand, already evaluated, or an operator.
#[derive(Debug, Clone, Copy, PartialEq, Eq, Structural)]
pub enum Token {
    Value(Object),
    Op(Oper),
}

/// How tightly a precedence binds: smaller binds tighter.
pub open spec fn rank_of(p: Precedence) -> int {
    match p {
        Precedence::Period_ColonColon => 0,
        Precedence::Execute => 1,
        Precedence::Call => 2,
        Precedence::Pos_BitNot_Not => 3,
        Precedence::Pow => 4,
        Precedence::Neg => 5,
        Precedence::Mul_Div_Mod => 6,
        Precedence::Add_Sub => 7,
        Precedence::BitShl_BitShr => 8,
        Precedence::BitAnd => 9,
        Precedence::BitOr_BitXor => 10,
        Precedence::Lth_Gth_Leq_Geq => 11,
        Precedence::Eq_Ne_Cmp => 12,
        Precedence::And => 13,
        Precedence::Or => 14,
        Precedence::Assignment => 15,
        Precedence::CompoundAssignment => 16,
        Precedence::Comma => 17,
        Precedence::Endline => 18,
    }
}

/// How tightly a precedence binds: smaller binds tighter.
pub fn rank(p: Precedence) -> (r: u8)
    ensures
        r as int == rank_of(p),
{
    match p {
        Precedence::Period_ColonColon => 0,
        Precedence::Execute => 1,
        Precedence::Call => 2,
        Precedence::Pos_BitNot_Not => 3,
        Precedence::Pow => 4,
        Precedence::Neg => 5,
        Precedence::Mul_Div_Mod => 6,
        Precedence::Add_Sub => 7,
        Precedence::BitShl_BitShr => 8,
        Precedence::BitAnd => 9,
        Precedence::BitOr_BitXor => 10,
        Precedence::Lth_Gth_Leq_Geq => 11,
        Precedence::Eq_Ne_Cmp => 12,
        Precedence::And => 13,
        Precedence::Or => 14,
        Precedence::Assignment => 15,
        Precedence::CompoundAssignment => 16,
        Precedence::Comma => 17,
        Precedence::Endline => 18,
    }
}

/// `op`, waiting for its right operand, stops before `next`: `next` binds
/// less tightly, or as tightly and `op` groups from the left.
pub open spec fn yields_to(op: Oper, next: Oper) -> bool {
    ||| rank_of(precedence_of(op)) < rank_of(precedence_of(next))
    ||| (rank_of(precedence_of(op)) <= rank_of(precedence_of(next)) && arity_of(op) == Arity::BinaryLtoR)
}

impl Oper {
    /// Whether this operator, waiting for its right operand, stops before `next`.
    pub fn yields_to(&self, next: &Oper) -> (r: bool)
        ensures
            r == yields_to(*self, *next),
    {
        let (a, b) = (rank(self.precedence()), rank(next.precedence()));
        a < b || (a <= b && self.arity() == Arity::BinaryLtoR)
    }
}

/// The state of an evaluation: the heap, the position in the tokens, the
/// stack of evaluated values, and a result.
pub type EvalOut<T> = (Seq<EntryM>, nat, Seq<Object>, Result<T, ErrorM>);

/// Takes the top of the stack as the result, if there is one.
pub open spec fn pop_result(h: Seq<EntryM>, pos: nat, stack: Seq<Object>) -> EvalOut<Option<Object>> {
    if stack.len() == 0 {
        (h, pos, stack, Ok(None))
    } else {
        (h, pos, stack.drop_last(), Ok(Some(stack.last())))
    }
}

/// Reads tokens from `pos` for `op`'s right operand: operands are pushed on
/// the stack; an operator that binds more tightly than `op` is evaluated
/// and its result pushed; reading stops at the end or before an operator
/// that `op` yields to, and the top of the stack is the operand.
pub open spec fn sem_net(h: Seq<EntryM>, toks: Seq<Token>, pos: nat, stack: Seq<Object>, op: Oper, fuel: nat) -> EvalOut<Option<Object>>
    decreases toks.len() - pos, 0nat,
{
    if pos >= toks.len() {
        pop_result(h, pos, stack)
    } else {
        match toks[pos as int] {
            Token::Value(v) => sem_net(h, toks, pos + 1, stack.push(v), op, fuel),
            Token::Op(next) => if yields_to(op, next) {
                pop_result(h, pos, stack)
            } else {
                let (h1, p1, s1, r) = sem_eval(h, toks, pos + 1, stack, next, fuel);
                match r {
                    Err(e) => (h1, p1, s1, Err(e)),
                    Ok(v) => if pos < p1 <= toks.len() {
                        sem_net(h1, toks, p1, s1.push(v), op, fuel)
                    } else {
                        (h1, p1, s1, Err(ErrorM::NothingToReturn))
                    },
                }
            },
        }
    }
}

/// Evaluates the operator `op`, whose token was just read: it takes its
/// left operand from the stack and its right operand from the tokens that
/// follow, as its arity says, then calls the operator on them.
pub open spec fn sem_eval(h: Seq<EntryM>, toks: Seq<Token>, pos: nat, stack: Seq<Object>, op: Oper, fuel: nat) -> EvalOut<Object>
    decreases toks.len() - pos, 1nat,
{
    match arity_of(op) {
        Arity::Nonary => {
            let s = if op == Oper::Endline && stack.len() > 0 { stack.drop_last() } else { stack };
            (h, pos, s, Err(ErrorM::NothingToReturn))
        },
        Arity::UnaryOnR => if stack.len() == 0 {
            (h, pos, stack, Err(ErrorM::MissingArgument { func: sigil_of(op), pos: 0 }))
        } else {
            let (h1, r) = sem_oper_call(h, op, seq![stack.last()], fuel);
            (h1, pos, stack.drop_last(), r)
        },
        Arity::UnaryOnL => {
            let (h1, p1, s1, r) = sem_net(h, toks, pos, stack, op, fuel);
            match r {
                Err(e) => (h1, p1, s1, Err(e)),
                Ok(None) => (h1, p1, s1, Err(ErrorM::MissingArgument { func: sigil_of(op), pos: 0 })),
                Ok(Some(rhs)) => {
                    let (h2, r2) = sem_oper_call(h1, op, seq![rhs], fuel);
                    (h2, p1, s1, r2)
                },
            }
        },
        _ => if stack.len() == 0 {
            (h, pos, stack, Err(ErrorM::MissingArgument { func: sigil_of(op), pos: 0 }))
        } else {
            let lhs = stack.last();
            let (h1, p1, s1, r) = sem_net(h, toks, pos, stack.drop_last(), op, fuel);
            match r {
                Err(e) => (h1, p1, s1, Err(e)),
                Ok(None) => (h1, p1, s1, Err(ErrorM::MissingArgument { func: sigil_of(op), pos: 1 })),
                Ok(Some(rhs)) => {
                    let (h2, r2) = sem_oper_call(h1, op, seq![lhs, rhs], fuel);
                    (h2, p1, s1, r2)
                },
            }
        },
    }
}

/// Every operand among the tokens is an object of the heap.
pub open spec fn tokens_held(heap: &Heap, toks: Seq<Token>) -> bool {
    forall|i: int| 0 <= i < toks.len() ==> (#[trigger] toks[i] matches Token::Value(v) ==> heap.holds(v))
}

/// A stream of tokens and a position in it.
pub struct Parser {
    tokens: Vec<Token>,
    pos: usize,
}

impl View for Parser {
    type V = (Seq<Token>, nat);

    closed spec fn view(&self) -> (Seq<Token>, nat) {
        (self.tokens@, self.pos as nat)
    }
}

impl Parser {
    /// The position is within the tokens.
    pub open spec fn wf(&self) -> bool {
        self@.1 <= self@.0.len()
    }

    /// A parser at the start of `tokens`.
    pub fn new(tokens: Vec<Token>) -> (r: Parser)
        ensures
            r@ == (tokens@, 0nat),
            r.wf(),
    {
        Parser { tokens, pos: 0 }
    }

    /// The next token, if there is one; reading moves past it.
    pub fn next_unevaluated_object(&mut self) -> (r: Option<Token>)
        requires
            old(self).wf(),
        ensures
            final(self).wf(),
            final(self)@.0 == old(self)@.0,
            old(self)@.1 < old(self)@.0.len() ==> r == Some(old(self)@.0[old(self)@.1 as int])
                && final(self)@.1 == old(self)@.1 + 1,
            old(self)@.1 >= old(self)@.0.len() ==> r is None && final(self)@ == old(self)@,
    {
        if self.pos < self.tokens.len() {
            let t = self.tokens[self.pos];
            self.pos = self.pos + 1;
            Some(t)
        } else {
            None
        }
    }

    /// Steps back over the token just read.
    pub fn rollback(&mut self)
        requires
            old(self).wf(),
            old(self)@.1 > 0,
        ensures
            final(self).wf(),
            final(self)@ == (old(self)@.0, (old(self)@.1 - 1) as nat),
    {
        self.pos = self.pos - 1;
    }
}

/// The values evaluated so far, most recent last.
pub struct Environment {
    stack: Vec<Object>,
}

impl View for Environment {
    type V = Seq<Object>;

    closed spec fn view(&self) -> Seq<Object> {
        self.stack@
    }
}

impl Environment {
    /// An environment with an empty stack.
    pub fn new() -> (r: Environment)
        ensures
            r@ == Seq::<Object>::empty(),
    {
        Environment { stack: Vec::new() }
    }

    /// Pushes `obj` on the stack.
    pub fn push(&mut self, obj: Object)
        ensures
            final(self)@ == old(self)@.push(obj),
    {
        self.stack.push(obj);
    }

    /// Pops the top of the stack.
    pub fn pop(&mut self) -> (r: Option<Object>)
        ensures
            old(self)@.len() == 0 ==> r is None && final(self)@ == old(self)@,
            old(self)@.len() > 0 ==> r == Some(old(self)@.last()) && final(self)@ == old(self)@.drop_last(),
    {
        self.stack.pop()
    }
}

/// What an evaluation that changed the heap, the parser and the stack
/// from `before` to `after` and returned `r` must be, given what the
/// mathematical evaluation `o` gives.
pub open spec fn evaluated_as<T>(
    heap: &Heap, parser: &Parser, env: &Environment, r: Result<T, Error>, o: EvalOut<T>,
) -> bool {
    &&& heap@ == o.0
    &&& parser@.1 == o.1
    &&& env@ == o.2
    &&& match (r, o.3) {
        (Ok(a), Ok(b)) => a == b,
        (Err(e), Err(e2)) => e@ == e2,
        _ => false,
    }
}

/// A vector of the given objects.
fn objects(a: Object, b: Option<Object>) -> (r: Vec<Object>)
    ensures
        r@ == match b {
            Some(b) => seq![a, b],
            None => seq![a],
        },
{
    let mut v: Vec<Object> = Vec::new();
    v.push(a);
    match b {
        Some(b) => {
            v.push(b);
            assert(v@ =~= seq![a, b]);
        },
        None => {
            assert(v@ =~= seq![a]);
        },
    }
    v
}

impl Oper {
    /// Reads this operator's right operand from the parser, as [`sem_net`] says.
    pub fn get_net_obj(&self, heap: &mut Heap, parser: &mut Parser, env: &mut Environment) -> (r: Result<Option<Object>, Error>)
        requires
            old(heap).wf(),
            old(parser).wf(),
            tokens_held(old(heap), old(parser)@.0),
            holds_all(old(heap), old(env)@),
        ensures
            evaluated_as(final(heap), final(parser), final(env), r,
                sem_net(old(heap)@, old(parser)@.0, old(parser)@.1, old(env)@, *self, CALL_DEPTH as nat)),
            final(parser)@.0 == old(parser)@.0,
            final(parser).wf(),
            old(parser)@.1 <= final(parser)@.1,
            final(heap).wf(),
            old(heap)@.len() <= final(heap)@.len(),
            holds_all(final(heap), final(env)@),
            r matches Ok(Some(o)) ==> final(heap).holds(o),
        decreases old(parser)@.0.len() - old(parser)@.1, 0nat,
    {
        let ghost toks = parser@.0;
        let ghost start = sem_net(heap@, toks, parser@.1, env@, *self, CALL_DEPTH as nat);
        loop
            invariant
                parser@.0 == toks,
                toks == old(parser)@.0,
                parser.wf(),
                old(parser)@.1 <= parser@.1,
                heap.wf(),
                old(heap)@.len() <= heap@.len(),
                tokens_held(heap, toks),
                holds_all(heap, env@),
                start == sem_net(old(heap)@, old(parser)@.0, old(parser)@.1, old(env)@, *self, CALL_DEPTH as nat),
                start == sem_net(heap@, toks, parser@.1, env@, *self, CALL_DEPTH as nat),
            decreases toks.len() - parser@.1,
        {
            let ghost pb = parser@.1;
            match parser.next_unevaluated_object() {
                None => {
                    let top = env.pop();
                    return Ok(top);
                },
                Some(Token::Value(v)) => {
                    assert(toks[pb as int] == Token::Value(v));
                    env.push(v);
                },
                Some(Token::Op(next)) => {
                    assert(toks[pb as int] == Token::Op(next));
                    if self.yields_to(&next) {
                        parser.rollback();
                        let top = env.pop();
                        return Ok(top);
                    }
                    match next.evaluate(heap, parser, env) {
                        Err(e) => return Err(e),
                        Ok(v) => {
                            env.push(v);
                        },
                    }
                },
            }
        }
    }

    /// Evaluates this operator, whose token was just read, as [`sem_eval`] says.
    pub fn evaluate(&self, heap: &mut Heap, parser: &mut Parser, env: &mut Environment) -> (r: Result<Object, Error>)
        requires
            old(heap).wf(),
            old(parser).wf(),
            tokens_held(old(heap), old(parser)@.0),
            holds_all(old(heap), old(env)@),
        ensures
            evaluated_as(final(heap), final(parser), final(env), r,
                sem_eval(old(heap)@, old(parser)@.0, old(parser)@.1, old(env)@, *self, CALL_DEPTH as nat)),
            final(parser)@.0 == old(parser)@.0,
            final(parser).wf(),
            old(parser)@.1 <= final(parser)@.1,
            final(heap).wf(),
            old(heap)@.len() <= final(heap)@.len(),
            holds_all(final(heap), final(env)@),
            r matches Ok(o) ==> final(heap).holds(o),
        decreases old(parser)@.0.len() - old(parser)@.1, 1nat,
    {
        match self.arity() {
            Arity::Nonary => {
                if *self == Oper::Endline {
                    env.pop();
                }
                Err(Error::NothingToReturn)
            },
            Arity::UnaryOnR => match env.pop() {
                None => Err(Error::MissingArgument { func: String::from_str(self.sigil()), pos: 0 }),
                Some(lhs) => {
                    let args = objects(lhs, None);
                    self.call(heap, args.as_slice())
                },
            },
            Arity::UnaryOnL => match self.get_net_obj(heap, parser, env) {
                Err(e) => Err(e),
                Ok(None) => Err(Error::MissingArgument { func: String::from_str(self.sigil()), pos: 0 }),
                Ok(Some(rhs)) => {
                    let args = objects(rhs, None);
                    self.call(heap, args.as_slice())
                },
            },
            _ => match env.pop() {
                None => Err(Error::MissingArgument { func: String::from_str(self.sigil()), pos: 0 }),
                Some(lhs) => match self.get_net_obj(heap, parser, env) {
                    Err(e) => Err(e),
                    Ok(None) => Err(Error::MissingArgument { func: String::from_str(self.sigil()), pos: 1 }),
                    Ok(Some(rhs)) => {
                        let args = objects(lhs, Some(rhs));
                        self.call(heap, args.as_slice())
                    },
                },
            },
        }
    }
}

} // verus!
