//! Properties of evaluation: how tightly the operators bind, and in which
//! order an expression calls them.

use vstd::prelude::*;
use crate::error::ErrorM;
use crate::object::heap::{Object, EntryM};
use crate::object::typed::oper::{Oper, Arity, Precedence, arity_of, precedence_of, sem_oper_call};
use crate::object::typed::eval::{Token, rank_of, yields_to, sem_net, sem_eval};

verus! {

/// The precedences in the order in which they are declared, from the one
/// that binds most tightly to the one that binds least.
pub open spec fn precedences() -> Seq<Precedence> {
    seq![
        Precedence::Period_ColonColon,
        Precedence::Execute,
        Precedence::Call,
        Precedence::Pos_BitNot_Not,
        Precedence::Pow,
        Precedence::Neg,
        Precedence::Mul_Div_Mod,
        Precedence::Add_Sub,
        Precedence::BitShl_BitShr,
        Precedence::BitAnd,
        Precedence::BitOr_BitXor,
        Precedence::Lth_Gth_Leq_Geq,
        Precedence::Eq_Ne_Cmp,
        Precedence::And,
        Precedence::Or,
        Precedence::Assignment,
        Precedence::CompoundAssignment,
        Precedence::Comma,
        Precedence::Endline,
    ]
}

/// Binding follows the order of declaration: of two precedences, the one
/// declared first binds more tightly (has the smaller rank), and every
/// precedence is declared once.
pub proof fn law_precedence_order(p: Precedence)
    ensures
        precedences().len() == 19,
        forall|i: int, j: int| 0 <= i < j < 19 ==> rank_of(#[trigger] precedences()[i]) < rank_of(#[trigger] precedences()[j]),
        exists|i: int| 0 <= i < 19 && precedences()[i] == p,
{
    let s = precedences();
    assert forall|i: int| 0 <= i < 19 implies rank_of(#[trigger] s[i]) == i by {}
    match p {
        Precedence::Period_ColonColon => assert(s[0] == p),
        Precedence::Execute => assert(s[1] == p),
        Precedence::Call => assert(s[2] == p),
        Precedence::Pos_BitNot_Not => assert(s[3] == p),
        Precedence::Pow => assert(s[4] == p),
        Precedence::Neg => assert(s[5] == p),
        Precedence::Mul_Div_Mod => assert(s[6] == p),
        Precedence::Add_Sub => assert(s[7] == p),
        Precedence::BitShl_BitShr => assert(s[8] == p),
        Precedence::BitAnd => assert(s[9] == p),
        Precedence::BitOr_BitXor => assert(s[10] == p),
        Precedence::Lth_Gth_Leq_Geq => assert(s[11] == p),
        Precedence::Eq_Ne_Cmp => assert(s[12] == p),
        Precedence::And => assert(s[13] == p),
        Precedence::Or => assert(s[14] == p),
        Precedence::Assignment => assert(s[15] == p),
        Precedence::CompoundAssignment => assert(s[16] == p),
        Precedence::Comma => assert(s[17] == p),
        Precedence::Endline => assert(s[18] == p),
    }
}

/// How tightly an operator binds.
pub open spec fn binds(op: Oper) -> int {
    rank_of(precedence_of(op))
}

/// Which operators bind alike, and the order in which the groups bind,
/// from the tightest: `.` `::`, then running a block, calling, the
/// prefix `+` `~` `!`, `**`, prefix `-`, `*` `/` `%`, `+` `-`, `<<` `>>`,
/// `&`, `|` `^`, `<` `<=` `>` `>=`, `==` `!=` `<=>`, `&&`, `||`, `=` `->`
/// `<-`, the compound assignments, `,`, and the end of a statement.
pub proof fn law_operator_groups()
    ensures
        binds(Oper::Period) == binds(Oper::ColonColon),
        binds(Oper::Pos) == binds(Oper::BitNot) && binds(Oper::BitNot) == binds(Oper::Not),
        binds(Oper::Mul) == binds(Oper::Div) && binds(Oper::Div) == binds(Oper::Mod),
        binds(Oper::Add) == binds(Oper::Sub),
        binds(Oper::BitShl) == binds(Oper::BitShr),
        binds(Oper::BitOr) == binds(Oper::BitXor),
        binds(Oper::Lth) == binds(Oper::Leq) && binds(Oper::Leq) == binds(Oper::Gth) && binds(Oper::Gth) == binds(Oper::Geq),
        binds(Oper::Eql) == binds(Oper::Neq) && binds(Oper::Neq) == binds(Oper::Cmp),
        binds(Oper::Assign) == binds(Oper::ArrowRight) && binds(Oper::ArrowRight) == binds(Oper::ArrowLeft),
        binds(Oper::AddEq) == binds(Oper::SubEq) && binds(Oper::SubEq) == binds(Oper::MulEq)
            && binds(Oper::MulEq) == binds(Oper::DivEq) && binds(Oper::DivEq) == binds(Oper::ModEq)
            && binds(Oper::ModEq) == binds(Oper::PowEq) && binds(Oper::PowEq) == binds(Oper::BitShlEq)
            && binds(Oper::BitShlEq) == binds(Oper::BitShrEq) && binds(Oper::BitShrEq) == binds(Oper::BitAndEq)
            && binds(Oper::BitAndEq) == binds(Oper::BitOrEq) && binds(Oper::BitOrEq) == binds(Oper::BitXorEq),
        binds(Oper::Period) < binds(Oper::Execute),
        binds(Oper::Execute) < binds(Oper::Call),
        binds(Oper::Call) < binds(Oper::Pos),
        binds(Oper::Pos) < binds(Oper::Pow),
        binds(Oper::Pow) < binds(Oper::Neg),
        binds(Oper::Neg) < binds(Oper::Mul),
        binds(Oper::Mul) < binds(Oper::Add),
        binds(Oper::Add) < binds(Oper::BitShl),
        binds(Oper::BitShl) < binds(Oper::BitAnd),
        binds(Oper::BitAnd) < binds(Oper::BitOr),
        binds(Oper::BitOr) < binds(Oper::Lth),
        binds(Oper::Lth) < binds(Oper::Eql),
        binds(Oper::Eql) < binds(Oper::And),
        binds(Oper::And) < binds(Oper::Or),
        binds(Oper::Or) < binds(Oper::Assign),
        binds(Oper::Assign) < binds(Oper::AddEq),
        binds(Oper::AddEq) < binds(Oper::Comma),
        binds(Oper::Comma) < binds(Oper::Endline),
{
}

/// A binary operator: it takes an operand on each side.
pub open spec fn is_binary(op: Oper) -> bool {
    arity_of(op) == Arity::BinaryLtoR || arity_of(op) == Arity::BinaryRtoL
}

/// The tokens of `a o1 b o2 c`.
pub open spec fn two_ops(a: Object, o1: Oper, b: Object, o2: Oper, c: Object) -> Seq<Token> {
    seq![Token::Value(a), Token::Op(o1), Token::Value(b), Token::Op(o2), Token::Value(c)]
}

/// A statement `a o1 b o2 c` of two binary operators: when `o1` binds more
/// tightly than `o2` (or as tightly and groups from the left), `o1` is
/// called first on `a` and `b`, and `o2` on its result and `c`; otherwise
/// `o2` is called first on `b` and `c`, and `o1` on `a` and its result.
/// The first error stops the evaluation.
pub proof fn law_two_operators(h: Seq<EntryM>, a: Object, o1: Oper, b: Object, o2: Oper, c: Object, fuel: nat)
    requires
        is_binary(o1),
        is_binary(o2),
        !yields_to(Oper::Endline, o1),
        !yields_to(Oper::Endline, o2),
    ensures
        sem_net(h, two_ops(a, o1, b, o2, c), 0, Seq::empty(), Oper::Endline, fuel) == if yields_to(o1, o2) {
            match sem_oper_call(h, o1, seq![a, b], fuel) {
                (h2, Err(e)) => (h2, 3nat, Seq::<Object>::empty(), Err(e)),
                (h2, Ok(v)) => match sem_oper_call(h2, o2, seq![v, c], fuel) {
                    (h3, Err(e)) => (h3, 5nat, Seq::<Object>::empty(), Err(e)),
                    (h3, Ok(w)) => (h3, 5nat, Seq::<Object>::empty(), Ok(Some(w))),
                },
            }
        } else {
            match sem_oper_call(h, o2, seq![b, c], fuel) {
                (h2, Err(e)) => (h2, 5nat, Seq::<Object>::empty(), Err(e)),
                (h2, Ok(v)) => match sem_oper_call(h2, o1, seq![a, v], fuel) {
                    (h3, Err(e)) => (h3, 5nat, Seq::<Object>::empty(), Err(e)),
                    (h3, Ok(w)) => (h3, 5nat, Seq::<Object>::empty(), Ok(Some(w))),
                },
            }
        },
{
    let toks = two_ops(a, o1, b, o2, c);
    let e: Seq<Object> = Seq::empty();
    assert(seq![a].drop_last() =~= e);
    assert(seq![b].drop_last() =~= e);
    assert(seq![c].drop_last() =~= e);
    assert(e.push(a) =~= seq![a]);
    assert(e.push(b) =~= seq![b]);
    assert(e.push(c) =~= seq![c]);
    assert(seq![a].last() == a && seq![b].last() == b && seq![c].last() == c);
    if yields_to(o1, o2) {
        assert(sem_net(h, toks, 3, seq![b], o1, fuel) == (h, 3nat, e, Ok::<Option<Object>, ErrorM>(Some(b))));
        assert(sem_net(h, toks, 2, e, o1, fuel) == (h, 3nat, e, Ok::<Option<Object>, ErrorM>(Some(b))));
        let (h2, r2) = sem_oper_call(h, o1, seq![a, b], fuel);
        assert(sem_eval(h, toks, 2, seq![a], o1, fuel) == (h2, 3nat, e, r2));
        match r2 {
            Ok(v) => {
                assert(e.push(v) =~= seq![v]);
                assert(seq![v].drop_last() =~= e);
                assert(seq![v].last() == v);
                assert(sem_net(h2, toks, 5, seq![c], o2, fuel) == (h2, 5nat, e, Ok::<Option<Object>, ErrorM>(Some(c))));
                assert(sem_net(h2, toks, 4, e, o2, fuel) == (h2, 5nat, e, Ok::<Option<Object>, ErrorM>(Some(c))));
                let (h3, r3) = sem_oper_call(h2, o2, seq![v, c], fuel);
                assert(sem_eval(h2, toks, 4, seq![v], o2, fuel) == (h3, 5nat, e, r3));
                match r3 {
                    Ok(w) => {
                        assert(e.push(w) =~= seq![w]);
                        assert(seq![w].drop_last() =~= e);
                        assert(seq![w].last() == w);
                        assert(sem_net(h3, toks, 5, seq![w], Oper::Endline, fuel)
                            == (h3, 5nat, e, Ok::<Option<Object>, ErrorM>(Some(w))));
                    },
                    Err(_) => {},
                }
                assert(sem_net(h2, toks, 3, seq![v], Oper::Endline, fuel) == match r3 {
                    Err(x) => (h3, 5nat, e, Err::<Option<Object>, ErrorM>(x)),
                    Ok(w) => (h3, 5nat, e, Ok::<Option<Object>, ErrorM>(Some(w))),
                });
            },
            Err(_) => {},
        }
    } else {
        assert(sem_net(h, toks, 5, seq![c], o2, fuel) == (h, 5nat, e, Ok::<Option<Object>, ErrorM>(Some(c))));
        assert(sem_net(h, toks, 4, e, o2, fuel) == (h, 5nat, e, Ok::<Option<Object>, ErrorM>(Some(c))));
        let (h2, r2) = sem_oper_call(h, o2, seq![b, c], fuel);
        assert(sem_eval(h, toks, 4, seq![b], o2, fuel) == (h2, 5nat, e, r2));
        match r2 {
            Ok(v) => {
                assert(e.push(v) =~= seq![v]);
                assert(seq![v].drop_last() =~= e);
                assert(seq![v].last() == v);
                assert(sem_net(h2, toks, 5, seq![v], o1, fuel) == (h2, 5nat, e, Ok::<Option<Object>, ErrorM>(Some(v))));
                assert(sem_net(h, toks, 3, seq![b], o1, fuel) == (h2, 5nat, e, Ok::<Option<Object>, ErrorM>(Some(v))));
                assert(sem_net(h, toks, 2, e, o1, fuel) == (h2, 5nat, e, Ok::<Option<Object>, ErrorM>(Some(v))));
                let (h3, r3) = sem_oper_call(h2, o1, seq![a, v], fuel);
                assert(sem_eval(h, toks, 2, seq![a], o1, fuel) == (h3, 5nat, e, r3));
                match r3 {
                    Ok(w) => {
                        assert(e.push(w) =~= seq![w]);
                        assert(seq![w].drop_last() =~= e);
                        assert(seq![w].last() == w);
                        assert(sem_net(h3, toks, 5, seq![w], Oper::Endline, fuel)
                            == (h3, 5nat, e, Ok::<Option<Object>, ErrorM>(Some(w))));
                    },
                    Err(_) => {},
                }
            },
            Err(x) => {
                assert(sem_net(h, toks, 3, seq![b], o1, fuel) == (h2, 5nat, e, Err::<Option<Object>, ErrorM>(x)));
                assert(sem_net(h, toks, 2, e, o1, fuel) == (h2, 5nat, e, Err::<Option<Object>, ErrorM>(x)));
                assert(sem_eval(h, toks, 2, seq![a], o1, fuel) == (h2, 5nat, e, Err::<Object, ErrorM>(x)));
            },
        }
    }
    assert(sem_net(h, toks, 0, e, Oper::Endline, fuel) == sem_net(h, toks, 1, seq![a], Oper::Endline, fuel));
}

/// `a + b == c` is `(a + b) == c`: the sum is taken first, and then
/// compared with `c`.
pub proof fn law_sum_before_equality(h: Seq<EntryM>, a: Object, b: Object, c: Object, fuel: nat)
    ensures
        sem_net(h, two_ops(a, Oper::Add, b, Oper::Eql, c), 0, Seq::empty(), Oper::Endline, fuel)
            == match sem_oper_call(h, Oper::Add, seq![a, b], fuel) {
                (h2, Err(e)) => (h2, 3nat, Seq::<Object>::empty(), Err(e)),
                (h2, Ok(v)) => match sem_oper_call(h2, Oper::Eql, seq![v, c], fuel) {
                    (h3, Err(e)) => (h3, 5nat, Seq::<Object>::empty(), Err(e)),
                    (h3, Ok(w)) => (h3, 5nat, Seq::<Object>::empty(), Ok(Some(w))),
                },
            },
{
    law_two_operators(h, a, Oper::Add, b, Oper::Eql, c, fuel);
}

/// `a == b + c` is `a == (b + c)`: the sum is taken first, and `a` is
/// compared with it.
pub proof fn law_equality_after_sum(h: Seq<EntryM>, a: Object, b: Object, c: Object, fuel: nat)
    ensures
        sem_net(h, two_ops(a, Oper::Eql, b, Oper::Add, c), 0, Seq::empty(), Oper::Endline, fuel)
            == match sem_oper_call(h, Oper::Add, seq![b, c], fuel) {
                (h2, Err(e)) => (h2, 5nat, Seq::<Object>::empty(), Err(e)),
                (h2, Ok(v)) => match sem_oper_call(h2, Oper::Eql, seq![a, v], fuel) {
                    (h3, Err(e)) => (h3, 5nat, Seq::<Object>::empty(), Err(e)),
                    (h3, Ok(w)) => (h3, 5nat, Seq::<Object>::empty(), Ok(Some(w))),
                },
            },
{
    law_two_operators(h, a, Oper::Eql, b, Oper::Add, c, fuel);
}

} // verus!
