//! Properties of the built-in values: what their methods compute, stated
//! over the values that the objects hold, for every input.

use vstd::prelude::*;
use crate::error::ErrorM;
use crate::object::heap::{Object, Kind, ValueM, EntryM, plain, assoc_get, find_from};
use crate::object::semantics::{
    Found, fresh, copy_of, resolve, method_of, type_table, basic_table, sem_call_attr, sem_apply, sem_num,
    sem_convert, sem_boolean, sem_text, sem_null, sem_list, sem_basic, sem_equals,
};
use crate::object::literal::consts::{AT_NUM, AT_BOOL, AT_TEXT, AT_LIST, NOT, EQL, ADD, ADD_ASSIGN, MUL, L_LEN, POS, NEG};
use crate::object::types::rustfn::{RustFn, fn_name};
use crate::object::types::basic::BasicFn;
use crate::object::types::boolean::{BooleanFn, bool_text};
use crate::object::types::text::{TextFn, Span, span, repeat, NEGATIVE_COUNT};
use crate::object::types::null::NullFn;
use crate::object::types::list::ListFn;
use crate::object::types::num::{NumFn, num_binary, int_text, in_i64};
use crate::object::laws::{lemma_method_names, lemma_find_at, lemma_find_absent};

verus! {

/// Two names that differ in length or in one of their first three characters.
pub open spec fn names_differ(a: Seq<char>, b: Seq<char>) -> bool {
    a.len() != b.len() || a[0] != b[0] || a[1] != b[1] || a[2] != b[2]
}

/// A name that differs from every earlier one in a table is found at its place.
proof fn lemma_lookup(t: Seq<(Seq<char>, RustFn)>, i: int)
    requires
        0 <= i < t.len(),
        forall|j: int| 0 <= j < i ==> names_differ((#[trigger] t[j]).0, t[i].0),
    ensures
        assoc_get(t, t[i].0) == Some(t[i].1),
{
    assert forall|j: int| 0 <= j < i implies (#[trigger] t[j]).0 != t[i].0 by {
        assert(names_differ(t[j].0, t[i].0));
    }
    lemma_find_at(t, t[i].0, i, 0);
}

/// A name that differs from every name of a table is not found there.
proof fn lemma_not_in(t: Seq<(Seq<char>, RustFn)>, k: Seq<char>)
    requires
        forall|j: int| 0 <= j < t.len() ==> names_differ((#[trigger] t[j]).0, k),
    ensures
        assoc_get(t, k) is None,
{
    assert forall|j: int| 0 <= j < t.len() implies (#[trigger] t[j]).0 != k by {
        assert(names_differ(t[j].0, k));
    }
    lemma_find_absent(t, k, 0);
}

/// Every method of numbers is found under its own name.
pub proof fn lemma_num_methods(op: NumFn)
    ensures
        assoc_get(type_table(Kind::Num), fn_name(RustFn::Num(op))) == Some(RustFn::Num(op)),
{
    lemma_method_names();
    let t = type_table(Kind::Num);
    match op {
        NumFn::AtNum => lemma_lookup(t, 0),
        NumFn::AtBool => lemma_lookup(t, 1),
        NumFn::AtText => lemma_lookup(t, 2),
        NumFn::Add => lemma_lookup(t, 3),
        NumFn::Sub => lemma_lookup(t, 4),
        NumFn::Mul => lemma_lookup(t, 5),
        NumFn::Div => lemma_lookup(t, 6),
        NumFn::Mod => lemma_lookup(t, 7),
        NumFn::Pow => lemma_lookup(t, 8),
        NumFn::Eql => lemma_lookup(t, 9),
        NumFn::Neq => lemma_lookup(t, 10),
        NumFn::Lth => lemma_lookup(t, 11),
        NumFn::Leq => lemma_lookup(t, 12),
        NumFn::Gth => lemma_lookup(t, 13),
        NumFn::Geq => lemma_lookup(t, 14),
        NumFn::Cmp => lemma_lookup(t, 15),
        NumFn::BitAnd => lemma_lookup(t, 16),
        NumFn::BitOr => lemma_lookup(t, 17),
        NumFn::BitXor => lemma_lookup(t, 18),
        NumFn::Shl => lemma_lookup(t, 19),
        NumFn::Shr => lemma_lookup(t, 20),
        NumFn::Pos => lemma_lookup(t, 21),
        NumFn::Neg => lemma_lookup(t, 22),
    }
}

/// Every method of booleans is found under its own name.
pub proof fn lemma_boolean_methods(op: BooleanFn)
    ensures
        assoc_get(type_table(Kind::Boolean), fn_name(RustFn::Boolean(op))) == Some(RustFn::Boolean(op)),
{
    lemma_method_names();
    let t = type_table(Kind::Boolean);
    match op {
        BooleanFn::AtBool => lemma_lookup(t, 0),
        BooleanFn::AtNum => lemma_lookup(t, 1),
        BooleanFn::AtText => lemma_lookup(t, 2),
        BooleanFn::Not => lemma_lookup(t, 3),
        BooleanFn::Eql => lemma_lookup(t, 4),
        BooleanFn::Xor => lemma_lookup(t, 5),
        BooleanFn::And => lemma_lookup(t, 6),
        BooleanFn::Or => lemma_lookup(t, 7),
    }
}

/// Every method of texts is found under its own name.
pub proof fn lemma_text_methods(op: TextFn)
    ensures
        assoc_get(type_table(Kind::Text), fn_name(RustFn::Text(op))) == Some(RustFn::Text(op)),
{
    lemma_method_names();
    let t = type_table(Kind::Text);
    match op {
        TextFn::AtText => lemma_lookup(t, 0),
        TextFn::AtVar => lemma_lookup(t, 1),
        TextFn::AtBool => lemma_lookup(t, 2),
        TextFn::AtNum => lemma_lookup(t, 3),
        TextFn::Eql => lemma_lookup(t, 4),
        TextFn::Add => lemma_lookup(t, 5),
        TextFn::AddAssign => lemma_lookup(t, 6),
        TextFn::Mul => lemma_lookup(t, 7),
        TextFn::Len => lemma_lookup(t, 8),
        TextFn::Index => lemma_lookup(t, 9),
        TextFn::IndexAssign => lemma_lookup(t, 10),
    }
}

/// Every method of null is found under its own name.
pub proof fn lemma_null_methods(op: NullFn)
    ensures
        assoc_get(type_table(Kind::Null), fn_name(RustFn::Null(op))) == Some(RustFn::Null(op)),
{
    lemma_method_names();
    let t = type_table(Kind::Null);
    match op {
        NullFn::AtText => lemma_lookup(t, 0),
        NullFn::AtBool => lemma_lookup(t, 1),
        NullFn::AtNum => lemma_lookup(t, 2),
        NullFn::AtList => lemma_lookup(t, 3),
        NullFn::AtMap => lemma_lookup(t, 4),
        NullFn::Eql => lemma_lookup(t, 5),
        NullFn::Call => lemma_lookup(t, 6),
    }
}

/// Every method of lists is found under its own name.
pub proof fn lemma_list_methods(op: ListFn)
    ensures
        assoc_get(type_table(Kind::List), fn_name(RustFn::List(op))) == Some(RustFn::List(op)),
{
    lemma_method_names();
    let t = type_table(Kind::List);
    match op {
        ListFn::AtList => lemma_lookup(t, 0),
        ListFn::AtBool => lemma_lookup(t, 1),
        ListFn::AtText => lemma_lookup(t, 2),
        ListFn::Eql => lemma_lookup(t, 3),
        ListFn::Add => lemma_lookup(t, 4),
        ListFn::AddAssign => lemma_lookup(t, 5),
        ListFn::Len => lemma_lookup(t, 6),
        ListFn::Push => lemma_lookup(t, 7),
        ListFn::Pop => lemma_lookup(t, 8),
    }
}

/// `!` is a method of booleans and of every object, and no method of
/// numbers, texts, null or lists.
pub proof fn lemma_not_methods()
    ensures
        assoc_get(basic_table(), NOT@) == Some(RustFn::Basic(BasicFn::Not)),
        assoc_get(type_table(Kind::Num), NOT@) is None,
        assoc_get(type_table(Kind::Text), NOT@) is None,
        assoc_get(type_table(Kind::Null), NOT@) is None,
        assoc_get(type_table(Kind::List), NOT@) is None,
{
    lemma_method_names();
    lemma_lookup(basic_table(), 7);
    lemma_not_in(type_table(Kind::Num), NOT@);
    lemma_not_in(type_table(Kind::Text), NOT@);
    lemma_not_in(type_table(Kind::Null), NOT@);
    lemma_not_in(type_table(Kind::List), NOT@);
}

/// The binary operators of numbers, for every two numbers: comparisons
/// give the comparison of the values, `<=>` their order as -1, 0 or 1,
/// and `+`, `-`, `*` the sum, difference and product, or
/// [`ErrorM::Overflow`] when it is not an `i64`.
pub proof fn law_number_comparisons(x: i64, y: i64)
    ensures
        num_binary(NumFn::Eql, x, y) == Ok::<ValueM, ErrorM>(ValueM::Boolean(x == y)),
        num_binary(NumFn::Neq, x, y) == Ok::<ValueM, ErrorM>(ValueM::Boolean(x != y)),
        num_binary(NumFn::Lth, x, y) == Ok::<ValueM, ErrorM>(ValueM::Boolean(x < y)),
        num_binary(NumFn::Leq, x, y) == Ok::<ValueM, ErrorM>(ValueM::Boolean(x <= y)),
        num_binary(NumFn::Gth, x, y) == Ok::<ValueM, ErrorM>(ValueM::Boolean(x > y)),
        num_binary(NumFn::Geq, x, y) == Ok::<ValueM, ErrorM>(ValueM::Boolean(x >= y)),
        num_binary(NumFn::Cmp, x, y) == Ok::<ValueM, ErrorM>(ValueM::Num(if x < y { -1i64 } else if x == y { 0i64 } else { 1i64 })),
        // how the comparisons relate to one another
        num_binary(NumFn::Leq, x, y) == num_binary(NumFn::Geq, y, x),
        num_binary(NumFn::Lth, x, y) == num_binary(NumFn::Gth, y, x),
        num_binary(NumFn::Eql, x, y) == num_binary(NumFn::Eql, y, x),
        num_binary(NumFn::Leq, x, x) == Ok::<ValueM, ErrorM>(ValueM::Boolean(true)),
        num_binary(NumFn::Lth, x, x) == Ok::<ValueM, ErrorM>(ValueM::Boolean(false)),
        (num_binary(NumFn::Leq, x, y) == Ok::<ValueM, ErrorM>(ValueM::Boolean(true)))
            == (num_binary(NumFn::Lth, x, y) == Ok::<ValueM, ErrorM>(ValueM::Boolean(true))
                || num_binary(NumFn::Eql, x, y) == Ok::<ValueM, ErrorM>(ValueM::Boolean(true))),
        (num_binary(NumFn::Neq, x, y) == Ok::<ValueM, ErrorM>(ValueM::Boolean(true)))
            == (num_binary(NumFn::Eql, x, y) == Ok::<ValueM, ErrorM>(ValueM::Boolean(false))),
        // arithmetic
        in_i64(x + y) ==> num_binary(NumFn::Add, x, y) == Ok::<ValueM, ErrorM>(ValueM::Num((x + y) as i64)),
        !in_i64(x + y) ==> num_binary(NumFn::Add, x, y) == Err::<ValueM, ErrorM>(ErrorM::Overflow),
        in_i64(x - y) ==> num_binary(NumFn::Sub, x, y) == Ok::<ValueM, ErrorM>(ValueM::Num((x - y) as i64)),
        !in_i64(x - y) ==> num_binary(NumFn::Sub, x, y) == Err::<ValueM, ErrorM>(ErrorM::Overflow),
        in_i64(x * y) ==> num_binary(NumFn::Mul, x, y) == Ok::<ValueM, ErrorM>(ValueM::Num((x * y) as i64)),
        !in_i64(x * y) ==> num_binary(NumFn::Mul, x, y) == Err::<ValueM, ErrorM>(ErrorM::Overflow),
        num_binary(NumFn::Add, x, y) == num_binary(NumFn::Add, y, x),
        num_binary(NumFn::Mul, x, y) == num_binary(NumFn::Mul, y, x),
        y == 0 ==> num_binary(NumFn::Div, x, y) == Err::<ValueM, ErrorM>(ErrorM::DivideByZero),
        y == 0 ==> num_binary(NumFn::Mod, x, y) == Err::<ValueM, ErrorM>(ErrorM::DivideByZero),
        num_binary(NumFn::Pow, x, 0) == Ok::<ValueM, ErrorM>(ValueM::Num(1)),
        num_binary(NumFn::Pow, x, 1) == Ok::<ValueM, ErrorM>(ValueM::Num(x)),
        y < 0 ==> num_binary(NumFn::Pow, x, y) is Err,
{
    assert(x * y == y * x) by (nonlinear_arith);
    assert(x * 1 == x);
    assert(crate::object::types::num::int_pow(x as int, 1) == x) by {
        reveal_with_fuel(crate::object::types::num::int_pow, 2);
    }
}

/// A binary operator called on a number (that has no attribute of that
/// name of its own) with a number (that has no `@num` of its own): the
/// argument is converted with `@num`, which makes a copy of it, and then
/// the operator is applied to the two values.
pub proof fn law_number_operators(h: Seq<EntryM>, a: Object, b: Object, rest: Seq<Object>, op: NumFn, fuel: nat)
    requires
        0 <= a.id < h.len(),
        0 <= b.id < h.len(),
        h.len() < usize::MAX,
        h[a.id as int].value is Num,
        h[b.id as int].value is Num,
        assoc_get(h[a.id as int].attrs, fn_name(RustFn::Num(op))) is None,
        assoc_get(h[b.id as int].attrs, AT_NUM@) is None,
        !(op is AtNum || op is AtBool || op is AtText || op is Pos || op is Neg),
        fuel >= 2,
    ensures
        ({
            let x = h[a.id as int].value->Num_0;
            let y = h[b.id as int].value->Num_0;
            let h1 = h.push(plain(ValueM::Num(y)));
            sem_call_attr(h, a, fn_name(RustFn::Num(op)), seq![b] + rest, fuel) == match num_binary(op, x, y) {
                Ok(v) => fresh(h1, v),
                Err(e) => (h1, Err(e)),
            }
        }),
{
    lemma_num_methods(op);
    lemma_num_methods(NumFn::AtNum);
    let args = seq![b] + rest;
    assert(args[0] == b);
    let g = (fuel - 1) as nat;
    let y = h[b.id as int].value->Num_0;
    assert(sem_num(h, NumFn::AtNum, b, Seq::empty(), (g - 1) as nat) == fresh(h, ValueM::Num(y)));
    assert(sem_apply(h, RustFn::Num(NumFn::AtNum), b, Seq::empty(), g) == fresh(h, ValueM::Num(y)));
    assert(sem_call_attr(h, b, AT_NUM@, Seq::empty(), g) == fresh(h, ValueM::Num(y)));
    assert(sem_convert(h, b, AT_NUM@, Kind::Num, g) == fresh(h, ValueM::Num(y)));
    let name = fn_name(RustFn::Num(op));
    assert(resolve(h, a, name) == Found::Native(RustFn::Num(op)));
    assert(sem_apply(h, RustFn::Num(op), a, args, fuel) == sem_num(h, op, a, args, g));
}

/// Whether a value counts as true: a number that is not 0, a text or a
/// list that is not empty, a boolean that is true; null is false, and
/// every other value is true.
pub open spec fn truthy(v: ValueM) -> bool {
    match v {
        ValueM::Num(x) => x != 0,
        ValueM::Text(s) => s.len() != 0,
        ValueM::List(l) => l.len() != 0,
        ValueM::Boolean(b) => b,
        ValueM::Null => false,
        _ => true,
    }
}

/// No value other than a boolean, a number, a text, null or a list has an
/// `@bool` of its type, so such a value takes the one every object has.
proof fn lemma_at_bool_lookup(k: Kind)
    ensures
        assoc_get(basic_table(), AT_BOOL@) == Some(RustFn::Basic(BasicFn::AtBool)),
        !(k is Boolean || k is Num || k is Text || k is Null || k is List)
            ==> assoc_get(type_table(k), AT_BOOL@) is None,
{
    lemma_method_names();
    lemma_lookup(basic_table(), 2);
    if !(k is Boolean || k is Num || k is Text || k is Null || k is List) {
        lemma_not_in(type_table(k), AT_BOOL@);
    }
}

/// `@bool` of any object that has no `@bool` of its own is a new object
/// (after the objects already in the heap) holding whether its value
/// counts as true; negative numbers count as true, 0 and the empty text
/// do not.
pub proof fn law_truthiness(h: Seq<EntryM>, o: Object, args: Seq<Object>, fuel: nat)
    requires
        0 <= o.id < h.len(),
        assoc_get(h[o.id as int].attrs, AT_BOOL@) is None,
        fuel >= 1,
    ensures
        ({
            let (h2, r) = sem_call_attr(h, o, AT_BOOL@, args, fuel);
            &&& r == Ok::<Object, ErrorM>(Object { id: h.len() as usize })
            &&& h2.len() == h.len() + 1
            &&& h2.drop_last() == h
            &&& h2.last().value == ValueM::Boolean(truthy(h[o.id as int].value))
        }),
{
    let v = h[o.id as int].value;
    let g = (fuel - 1) as nat;
    lemma_at_bool_lookup(v.kind());
    match v {
        ValueM::Num(_) => {
            lemma_num_methods(NumFn::AtBool);
            assert(sem_apply(h, RustFn::Num(NumFn::AtBool), o, args, fuel) == sem_num(h, NumFn::AtBool, o, args, g));
        },
        ValueM::Text(_) => {
            lemma_text_methods(TextFn::AtBool);
            assert(sem_apply(h, RustFn::Text(TextFn::AtBool), o, args, fuel) == sem_text(h, TextFn::AtBool, o, args, g));
        },
        ValueM::List(_) => {
            lemma_list_methods(ListFn::AtBool);
            assert(sem_apply(h, RustFn::List(ListFn::AtBool), o, args, fuel) == sem_list(h, ListFn::AtBool, o, args, g));
        },
        ValueM::Boolean(_) => {
            lemma_boolean_methods(BooleanFn::AtBool);
            assert(sem_apply(h, RustFn::Boolean(BooleanFn::AtBool), o, args, fuel) == sem_boolean(h, BooleanFn::AtBool, o, args, g));
        },
        ValueM::Null => {
            lemma_null_methods(NullFn::AtBool);
            assert(sem_apply(h, RustFn::Null(NullFn::AtBool), o, args, fuel) == sem_null(h, NullFn::AtBool, o, args));
        },
        _ => {
            assert(sem_apply(h, RustFn::Basic(BasicFn::AtBool), o, args, fuel) == sem_basic(h, BasicFn::AtBool, o, args, g));
        },
    }
    let (h2, r) = sem_call_attr(h, o, AT_BOOL@, args, fuel);
    assert(h2.drop_last() =~= h);
}

/// `!` of a number, a text, null or a list that has neither `!` nor
/// `@bool` of its own: the value is converted with `@bool` and the result
/// is a new boolean that is true exactly when the value counts as false.
pub proof fn law_not_is_falsiness(h: Seq<EntryM>, o: Object, args: Seq<Object>, fuel: nat)
    requires
        0 <= o.id < h.len(),
        h.len() + 1 < usize::MAX,
        h[o.id as int].value is Num || h[o.id as int].value is Text || h[o.id as int].value is Null
            || h[o.id as int].value is List,
        assoc_get(h[o.id as int].attrs, AT_BOOL@) is None,
        assoc_get(h[o.id as int].attrs, NOT@) is None,
        fuel >= 2,
    ensures
        ({
            let t = truthy(h[o.id as int].value);
            sem_call_attr(h, o, NOT@, args, fuel)
                == fresh(h.push(plain(ValueM::Boolean(t))), ValueM::Boolean(!t))
        }),
{
    let g = (fuel - 1) as nat;
    let t = truthy(h[o.id as int].value);
    lemma_not_methods();
    lemma_boolean_methods(BooleanFn::Not);
    law_truthiness(h, o, Seq::empty(), g);
    let (h1, r1) = sem_call_attr(h, o, AT_BOOL@, Seq::empty(), g);
    assert(h1 == h.push(plain(ValueM::Boolean(t)))) by {
        assert(h1 =~= h1.drop_last().push(h1.last()));
        match h[o.id as int].value {
            ValueM::Num(_) => lemma_num_methods(NumFn::AtBool),
            ValueM::Text(_) => lemma_text_methods(TextFn::AtBool),
            ValueM::List(_) => lemma_list_methods(ListFn::AtBool),
            _ => lemma_null_methods(NullFn::AtBool),
        }
    }
    let o1 = Object { id: h.len() as usize };
    assert(sem_convert(h, o, AT_BOOL@, Kind::Boolean, g) == (h1, Ok::<Object, ErrorM>(o1)));
    assert(resolve(h1, o1, NOT@) == Found::Native(RustFn::Boolean(BooleanFn::Not)));
    assert(sem_apply(h1, RustFn::Boolean(BooleanFn::Not), o1, Seq::empty(), g)
        == sem_boolean(h1, BooleanFn::Not, o1, Seq::empty(), (g - 1) as nat));
    assert(sem_apply(h, RustFn::Basic(BasicFn::Not), o, args, fuel) == sem_basic(h, BasicFn::Not, o, args, g));
}

/// The operators of booleans: `==`, `^`, `&` and `|` called on a boolean
/// (that has no attribute of that name of its own) with a boolean (that
/// has no `@bool` of its own) convert the argument with `@bool`, which
/// copies it, and give a new boolean: whether the two are equal,
/// different, both true, or one of them true.
pub proof fn law_boolean_operators(h: Seq<EntryM>, a: Object, b: Object, rest: Seq<Object>, op: BooleanFn, fuel: nat)
    requires
        0 <= a.id < h.len(),
        0 <= b.id < h.len(),
        h.len() < usize::MAX,
        h[a.id as int].value is Boolean,
        h[b.id as int].value is Boolean,
        assoc_get(h[a.id as int].attrs, fn_name(RustFn::Boolean(op))) is None,
        assoc_get(h[b.id as int].attrs, AT_BOOL@) is None,
        op is Eql || op is Xor || op is And || op is Or,
        fuel >= 2,
    ensures
        ({
            let x = h[a.id as int].value->Boolean_0;
            let y = h[b.id as int].value->Boolean_0;
            let h1 = h.push(h[b.id as int]);
            sem_call_attr(h, a, fn_name(RustFn::Boolean(op)), seq![b] + rest, fuel) == fresh(h1, ValueM::Boolean(
                match op {
                    BooleanFn::Eql => x == y,
                    BooleanFn::Xor => x != y,
                    BooleanFn::And => x && y,
                    _ => x || y,
                },
            ))
        }),
        // so `==` and `^` do not depend on the order of the operands
        op is Eql || op is Xor ==> ({
            let x = h[a.id as int].value->Boolean_0;
            let y = h[b.id as int].value->Boolean_0;
            (x == y) == (y == x) && (x != y) == (y != x)
        }),
{
    lemma_boolean_methods(op);
    lemma_boolean_methods(BooleanFn::AtBool);
    let args = seq![b] + rest;
    assert(args[0] == b);
    let g = (fuel - 1) as nat;
    assert(sem_call_attr(h, b, AT_BOOL@, Seq::empty(), g) == copy_of(h, b)) by {
        assert(sem_apply(h, RustFn::Boolean(BooleanFn::AtBool), b, Seq::empty(), g)
            == sem_boolean(h, BooleanFn::AtBool, b, Seq::empty(), (g - 1) as nat));
    }
    assert(resolve(h, a, fn_name(RustFn::Boolean(op))) == Found::Native(RustFn::Boolean(op)));
    assert(sem_apply(h, RustFn::Boolean(op), a, args, fuel) == sem_boolean(h, op, a, args, g));
}

/// The methods of a boolean with no argument: `!` gives its negation,
/// `@num` gives 1 or 0, and `@text` gives `true` or `false`.
pub proof fn law_boolean_conversions(h: Seq<EntryM>, a: Object, args: Seq<Object>, fuel: nat)
    requires
        0 <= a.id < h.len(),
        h[a.id as int].value is Boolean,
        assoc_get(h[a.id as int].attrs, NOT@) is None,
        assoc_get(h[a.id as int].attrs, AT_NUM@) is None,
        assoc_get(h[a.id as int].attrs, AT_TEXT@) is None,
        fuel >= 1,
    ensures
        ({
            let x = h[a.id as int].value->Boolean_0;
            &&& sem_call_attr(h, a, NOT@, args, fuel) == fresh(h, ValueM::Boolean(!x))
            &&& sem_call_attr(h, a, AT_NUM@, args, fuel) == fresh(h, ValueM::Num(if x { 1 } else { 0 }))
            &&& sem_call_attr(h, a, AT_TEXT@, args, fuel) == fresh(h, ValueM::Text(bool_text(x)))
            &&& bool_text(x) == (if x { seq!['t', 'r', 'u', 'e'] } else { seq!['f', 'a', 'l', 's', 'e'] })
        }),
{
    let g = (fuel - 1) as nat;
    lemma_boolean_methods(BooleanFn::Not);
    lemma_boolean_methods(BooleanFn::AtNum);
    lemma_boolean_methods(BooleanFn::AtText);
    assert(sem_apply(h, RustFn::Boolean(BooleanFn::Not), a, args, fuel) == sem_boolean(h, BooleanFn::Not, a, args, g));
    assert(sem_apply(h, RustFn::Boolean(BooleanFn::AtNum), a, args, fuel) == sem_boolean(h, BooleanFn::AtNum, a, args, g));
    assert(sem_apply(h, RustFn::Boolean(BooleanFn::AtText), a, args, fuel) == sem_boolean(h, BooleanFn::AtText, a, args, g));
    reveal_strlit("true");
    reveal_strlit("false");
}

/// The conversions of a number with no conversion of its own: `@num`
/// gives a new number holding the same value, and `@text` its decimal
/// digits (with a leading `-` when negative).
pub proof fn law_number_conversions(h: Seq<EntryM>, n: Object, args: Seq<Object>, fuel: nat)
    requires
        0 <= n.id < h.len(),
        h[n.id as int].value is Num,
        assoc_get(h[n.id as int].attrs, AT_NUM@) is None,
        assoc_get(h[n.id as int].attrs, AT_TEXT@) is None,
        fuel >= 1,
    ensures
        ({
            let x = h[n.id as int].value->Num_0;
            &&& sem_call_attr(h, n, AT_NUM@, args, fuel) == fresh(h, ValueM::Num(x))
            &&& sem_call_attr(h, n, AT_TEXT@, args, fuel) == fresh(h, ValueM::Text(int_text(x as int)))
        }),
{
    let g = (fuel - 1) as nat;
    lemma_num_methods(NumFn::AtNum);
    lemma_num_methods(NumFn::AtText);
    assert(sem_apply(h, RustFn::Num(NumFn::AtNum), n, args, fuel) == sem_num(h, NumFn::AtNum, n, args, g));
    assert(sem_apply(h, RustFn::Num(NumFn::AtText), n, args, fuel) == sem_num(h, NumFn::AtText, n, args, g));
}

/// Equality of two objects that are not the same object and not both
/// variables is read from `==` and `@bool`: it is exactly the boolean
/// that `@bool` of what `==` returned holds, and false when either call
/// fails.
pub proof fn law_equals_reads_bool(h: Seq<EntryM>, a: Object, b: Object, fuel: nat)
    requires
        0 <= a.id < h.len(),
        0 <= b.id < h.len(),
        a.id != b.id,
        !(h[a.id as int].value is Variable && h[b.id as int].value is Variable),
    ensures
        sem_equals(h, a, b, fuel) == match sem_call_attr(h, a, EQL@, seq![b], fuel) {
            (h1, Err(_)) => (h1, false),
            (h1, Ok(o)) => match sem_convert(h1, o, AT_BOOL@, Kind::Boolean, fuel) {
                (h2, Err(_)) => (h2, false),
                (h2, Ok(x)) => (h2, h2[x.id as int].value->Boolean_0),
            },
        },
{
}

/// A text (with no `==` of its own) equals exactly the objects that hold
/// the same text: two texts with different contents are not equal.
pub proof fn law_text_equals(h: Seq<EntryM>, a: Object, b: Object, fuel: nat)
    requires
        0 <= a.id < h.len(),
        0 <= b.id < h.len(),
        h.len() + 1 < usize::MAX,
        h[a.id as int].value is Text,
        assoc_get(h[a.id as int].attrs, EQL@) is None,
        fuel >= 1,
    ensures
        sem_equals(h, a, b, fuel).1 == (h[b.id as int].value == h[a.id as int].value),
{
    if a.id != b.id {
        let g = (fuel - 1) as nat;
        let same = h[b.id as int].value == h[a.id as int].value;
        lemma_text_methods(TextFn::Eql);
        lemma_boolean_methods(BooleanFn::AtBool);
        assert(sem_apply(h, RustFn::Text(TextFn::Eql), a, seq![b], fuel) == sem_text(h, TextFn::Eql, a, seq![b], g));
        assert(sem_call_attr(h, a, EQL@, seq![b], fuel) == fresh(h, ValueM::Boolean(same)));
        let h1 = h.push(plain(ValueM::Boolean(same)));
        let o = Object { id: h.len() as usize };
        assert(sem_apply(h1, RustFn::Boolean(BooleanFn::AtBool), o, Seq::empty(), fuel)
            == sem_boolean(h1, BooleanFn::AtBool, o, Seq::empty(), g));
        assert(sem_call_attr(h1, o, AT_BOOL@, Seq::empty(), fuel) == copy_of(h1, o));
        law_equals_reads_bool(h, a, b, fuel);
    }
}

/// Two numbers (the first with no `==` of its own, the second with no
/// `@num` of its own) are equal exactly when they hold the same value.
pub proof fn law_number_equals(h: Seq<EntryM>, a: Object, b: Object, fuel: nat)
    requires
        0 <= a.id < h.len(),
        0 <= b.id < h.len(),
        h.len() + 2 < usize::MAX,
        h[a.id as int].value is Num,
        h[b.id as int].value is Num,
        assoc_get(h[a.id as int].attrs, EQL@) is None,
        assoc_get(h[b.id as int].attrs, AT_NUM@) is None,
        fuel >= 2,
    ensures
        sem_equals(h, a, b, fuel).1 == (h[a.id as int].value->Num_0 == h[b.id as int].value->Num_0),
{
    if a.id != b.id {
        let (x, y) = (h[a.id as int].value->Num_0, h[b.id as int].value->Num_0);
        let g = (fuel - 1) as nat;
        law_number_operators(h, a, b, Seq::empty(), NumFn::Eql, fuel);
        assert(seq![b] + Seq::<Object>::empty() =~= seq![b]);
        let h1 = h.push(plain(ValueM::Num(y)));
        let h2 = h1.push(plain(ValueM::Boolean(x == y)));
        let o = Object { id: h1.len() as usize };
        lemma_boolean_methods(BooleanFn::AtBool);
        assert(sem_apply(h2, RustFn::Boolean(BooleanFn::AtBool), o, Seq::empty(), fuel)
            == sem_boolean(h2, BooleanFn::AtBool, o, Seq::empty(), g));
        law_equals_reads_bool(h, a, b, fuel);
    }
}

/// The signs of a number with no `@+` or `@-` of its own: `@-` gives its
/// negation and `@+` its absolute value, each a new number, and both
/// fail with [`ErrorM::Overflow`] only on the least `i64`, whose
/// negation is not an `i64`.
pub proof fn law_number_signs(h: Seq<EntryM>, n: Object, args: Seq<Object>, fuel: nat)
    requires
        0 <= n.id < h.len(),
        h[n.id as int].value is Num,
        assoc_get(h[n.id as int].attrs, NEG@) is None,
        assoc_get(h[n.id as int].attrs, POS@) is None,
        fuel >= 1,
    ensures
        ({
            let x = h[n.id as int].value->Num_0;
            &&& x == i64::MIN ==> sem_call_attr(h, n, NEG@, args, fuel) == (h, Err::<Object, ErrorM>(ErrorM::Overflow))
            &&& x == i64::MIN ==> sem_call_attr(h, n, POS@, args, fuel) == (h, Err::<Object, ErrorM>(ErrorM::Overflow))
            &&& x != i64::MIN ==> sem_call_attr(h, n, NEG@, args, fuel) == fresh(h, ValueM::Num((-x) as i64))
            &&& x != i64::MIN ==> sem_call_attr(h, n, POS@, args, fuel)
                == fresh(h, ValueM::Num(if x < 0 { (-x) as i64 } else { x }))
        }),
{
    let g = (fuel - 1) as nat;
    lemma_num_methods(NumFn::Neg);
    lemma_num_methods(NumFn::Pos);
    assert(sem_apply(h, RustFn::Num(NumFn::Neg), n, args, fuel) == sem_num(h, NumFn::Neg, n, args, g));
    assert(sem_apply(h, RustFn::Num(NumFn::Pos), n, args, fuel) == sem_num(h, NumFn::Pos, n, args, g));
}

/// `+`, `+=` and `len` of a text (with no attribute of those names of its
/// own) with a text argument (with no `@text` of its own): the argument is
/// converted with `@text`, which copies it; `+` gives a new text, the two
/// joined; `+=` appends the argument to the text itself and returns it;
/// `len` gives the number of characters.
pub proof fn law_text_operators(h: Seq<EntryM>, a: Object, b: Object, rest: Seq<Object>, fuel: nat)
    requires
        0 <= a.id < h.len(),
        0 <= b.id < h.len(),
        h.len() < usize::MAX,
        h[a.id as int].value is Text,
        h[b.id as int].value is Text,
        assoc_get(h[a.id as int].attrs, ADD@) is None,
        assoc_get(h[a.id as int].attrs, ADD_ASSIGN@) is None,
        assoc_get(h[a.id as int].attrs, L_LEN@) is None,
        assoc_get(h[b.id as int].attrs, AT_TEXT@) is None,
        fuel >= 2,
    ensures
        ({
            let s = h[a.id as int].value->Text_0;
            let t = h[b.id as int].value->Text_0;
            let h1 = h.push(h[b.id as int]);
            &&& sem_call_attr(h, a, ADD@, seq![b] + rest, fuel) == fresh(h1, ValueM::Text(s + t))
            &&& sem_call_attr(h, a, ADD_ASSIGN@, seq![b] + rest, fuel) == (
                h1.update(a.id as int, EntryM { value: ValueM::Text(s + t), attrs: h[a.id as int].attrs, keyed: h[a.id as int].keyed }),
                Ok::<Object, ErrorM>(a),
            )
            &&& sem_call_attr(h, a, L_LEN@, seq![b] + rest, fuel) == fresh(h, ValueM::Num(s.len() as i64))
        }),
{
    let g = (fuel - 1) as nat;
    let args = seq![b] + rest;
    assert(args[0] == b);
    lemma_text_methods(TextFn::Add);
    lemma_text_methods(TextFn::AddAssign);
    lemma_text_methods(TextFn::Len);
    lemma_text_methods(TextFn::AtText);
    assert(sem_apply(h, RustFn::Text(TextFn::AtText), b, Seq::empty(), g)
        == sem_text(h, TextFn::AtText, b, Seq::empty(), (g - 1) as nat));
    assert(sem_call_attr(h, b, AT_TEXT@, Seq::empty(), g) == copy_of(h, b));
    assert(sem_apply(h, RustFn::Text(TextFn::Add), a, args, fuel) == sem_text(h, TextFn::Add, a, args, g));
    assert(sem_apply(h, RustFn::Text(TextFn::AddAssign), a, args, fuel) == sem_text(h, TextFn::AddAssign, a, args, g));
    assert(sem_apply(h, RustFn::Text(TextFn::Len), a, args, fuel) == sem_text(h, TextFn::Len, a, args, g));
}

/// `*` of a text (with no `*` of its own) by a number (with no `@num` of
/// its own): the number is copied by `@num`; a negative count is an error,
/// and otherwise the result is a new text, the text written that many
/// times, whose length is the text's length times the count.
pub proof fn law_text_repeat(h: Seq<EntryM>, a: Object, n: Object, rest: Seq<Object>, fuel: nat)
    requires
        0 <= a.id < h.len(),
        0 <= n.id < h.len(),
        h.len() < usize::MAX,
        h[a.id as int].value is Text,
        h[n.id as int].value is Num,
        assoc_get(h[a.id as int].attrs, MUL@) is None,
        assoc_get(h[n.id as int].attrs, AT_NUM@) is None,
        fuel >= 2,
    ensures
        ({
            let s = h[a.id as int].value->Text_0;
            let x = h[n.id as int].value->Num_0;
            let h1 = h.push(plain(ValueM::Num(x)));
            &&& x < 0 ==> sem_call_attr(h, a, MUL@, seq![n] + rest, fuel)
                == (h1, Err::<Object, ErrorM>(ErrorM::BadArgument { pos: 0, msg: NEGATIVE_COUNT@ }))
            &&& x >= 0 ==> sem_call_attr(h, a, MUL@, seq![n] + rest, fuel) == fresh(h1, ValueM::Text(repeat(s, x as nat)))
            &&& x >= 0 ==> repeat(s, x as nat).len() == s.len() * x
        }),
{
    let g = (fuel - 1) as nat;
    let args = seq![n] + rest;
    assert(args[0] == n);
    let x = h[n.id as int].value->Num_0;
    lemma_text_methods(TextFn::Mul);
    lemma_num_methods(NumFn::AtNum);
    assert(sem_apply(h, RustFn::Num(NumFn::AtNum), n, Seq::empty(), g)
        == sem_num(h, NumFn::AtNum, n, Seq::empty(), (g - 1) as nat));
    assert(sem_apply(h, RustFn::Text(TextFn::Mul), a, args, fuel) == sem_text(h, TextFn::Mul, a, args, g));
    if x >= 0 {
        crate::object::laws::law_repeat_len(h[a.id as int].value->Text_0, x as nat);
    }
}

/// The methods of null: `@text` is `null`, `@num` is 0, and `==` is true
/// exactly for an argument that holds null.
pub proof fn law_null_methods(h: Seq<EntryM>, o: Object, b: Object, rest: Seq<Object>, fuel: nat)
    requires
        0 <= o.id < h.len(),
        0 <= b.id < h.len(),
        h[o.id as int].value is Null,
        assoc_get(h[o.id as int].attrs, AT_TEXT@) is None,
        assoc_get(h[o.id as int].attrs, AT_NUM@) is None,
        assoc_get(h[o.id as int].attrs, EQL@) is None,
        fuel >= 1,
    ensures
        sem_call_attr(h, o, AT_TEXT@, seq![b] + rest, fuel) == fresh(h, ValueM::Text("null"@)),
        sem_call_attr(h, o, AT_NUM@, seq![b] + rest, fuel) == fresh(h, ValueM::Num(0)),
        sem_call_attr(h, o, EQL@, seq![b] + rest, fuel) == fresh(h, ValueM::Boolean(h[b.id as int].value is Null)),
{
    let args = seq![b] + rest;
    assert(args[0] == b);
    lemma_null_methods(NullFn::AtText);
    lemma_null_methods(NullFn::AtNum);
    lemma_null_methods(NullFn::Eql);
    assert(sem_apply(h, RustFn::Null(NullFn::AtText), o, args, fuel) == sem_null(h, NullFn::AtText, o, args));
    assert(sem_apply(h, RustFn::Null(NullFn::AtNum), o, args, fuel) == sem_null(h, NullFn::AtNum, o, args));
    assert(sem_apply(h, RustFn::Null(NullFn::Eql), o, args, fuel) == sem_null(h, NullFn::Eql, o, args));
}

/// `len` and `+` of a list (with no attribute of those names of its own)
/// with a list argument (with no `@list` of its own): `len` gives the
/// number of elements, and `+` copies the argument with `@list` and gives
/// a new list, the elements of the first followed by those of the second.
pub proof fn law_list_operators(h: Seq<EntryM>, a: Object, b: Object, rest: Seq<Object>, fuel: nat)
    requires
        0 <= a.id < h.len(),
        0 <= b.id < h.len(),
        h.len() < usize::MAX,
        h[a.id as int].value is List,
        h[b.id as int].value is List,
        assoc_get(h[a.id as int].attrs, ADD@) is None,
        assoc_get(h[a.id as int].attrs, L_LEN@) is None,
        assoc_get(h[b.id as int].attrs, AT_LIST@) is None,
        fuel >= 2,
    ensures
        ({
            let l = h[a.id as int].value->List_0;
            let m = h[b.id as int].value->List_0;
            &&& sem_call_attr(h, a, L_LEN@, seq![b] + rest, fuel) == fresh(h, ValueM::Num(l.len() as i64))
            &&& sem_call_attr(h, a, ADD@, seq![b] + rest, fuel) == fresh(h.push(h[b.id as int]), ValueM::List(l + m))
        }),
{
    let g = (fuel - 1) as nat;
    let args = seq![b] + rest;
    assert(args[0] == b);
    lemma_list_methods(ListFn::Len);
    lemma_list_methods(ListFn::Add);
    lemma_list_methods(ListFn::AtList);
    assert(sem_apply(h, RustFn::List(ListFn::AtList), b, Seq::empty(), g)
        == sem_list(h, ListFn::AtList, b, Seq::empty(), (g - 1) as nat));
    assert(sem_apply(h, RustFn::List(ListFn::Len), a, args, fuel) == sem_list(h, ListFn::Len, a, args, g));
    assert(sem_apply(h, RustFn::List(ListFn::Add), a, args, fuel) == sem_list(h, ListFn::Add, a, args, g));
}

/// Text positions count from 1: in a text of `len` characters, index `i`
/// (1 <= i <= len) picks the `i`-th character and `-i` the `i`-th from the
/// end; `[i, j]` picks the characters from the `i`-th through the `j`-th
/// (through the last if `j` is past the end); 0 is never an index, and an
/// index past either end, or an end before its start, picks nothing.
pub proof fn law_text_positions(len: nat, i: i64, j: i64)
    requires
        len <= usize::MAX,
    ensures
        span(0, None, len) == Span::Zero,
        span(i, Some(0i64), len) == Span::Zero,
        1 <= i <= len ==> span(i, None, len) == Span::Within((i - 1) as usize, i as usize),
        1 <= i <= len ==> span(-i as i64, None, len) == Span::Within((len - i) as usize, (len - i + 1) as usize),
        i > len ==> span(i, None, len) == Span::Outside,
        i < 0 && -i > len ==> span(i, None, len) == Span::Outside,
        1 <= i <= j <= len ==> span(i, Some(j), len) == Span::Within((i - 1) as usize, j as usize),
        1 <= i <= len && j > len ==> span(i, Some(j), len) == Span::Within((i - 1) as usize, len as usize),
        1 <= j < i <= len ==> span(i, Some(j), len) == Span::Outside,
{
}

/// The bitwise operators of numbers act bit by bit: `&`, `|` and `^` do
/// not depend on the order of the operands, `x & x` and `x | x` are `x`,
/// `x ^ x` is 0, 0 is neutral for `|` and `^` and absorbing for `&`; a
/// shift by 0 changes nothing, and a shift by a negative amount or by 64
/// or more is [`ErrorM::Overflow`].
pub proof fn law_number_bits(x: i64, y: i64)
    ensures
        num_binary(NumFn::BitAnd, x, y) == num_binary(NumFn::BitAnd, y, x),
        num_binary(NumFn::BitOr, x, y) == num_binary(NumFn::BitOr, y, x),
        num_binary(NumFn::BitXor, x, y) == num_binary(NumFn::BitXor, y, x),
        num_binary(NumFn::BitAnd, x, x) == Ok::<ValueM, ErrorM>(ValueM::Num(x)),
        num_binary(NumFn::BitOr, x, x) == Ok::<ValueM, ErrorM>(ValueM::Num(x)),
        num_binary(NumFn::BitXor, x, x) == Ok::<ValueM, ErrorM>(ValueM::Num(0)),
        num_binary(NumFn::BitAnd, x, 0) == Ok::<ValueM, ErrorM>(ValueM::Num(0)),
        num_binary(NumFn::BitOr, x, 0) == Ok::<ValueM, ErrorM>(ValueM::Num(x)),
        num_binary(NumFn::BitXor, x, 0) == Ok::<ValueM, ErrorM>(ValueM::Num(x)),
        num_binary(NumFn::Shl, x, 0) == Ok::<ValueM, ErrorM>(ValueM::Num(x)),
        num_binary(NumFn::Shr, x, 0) == Ok::<ValueM, ErrorM>(ValueM::Num(x)),
        (y < 0 || y >= 64) ==> num_binary(NumFn::Shl, x, y) == Err::<ValueM, ErrorM>(ErrorM::Overflow),
        (y < 0 || y >= 64) ==> num_binary(NumFn::Shr, x, y) == Err::<ValueM, ErrorM>(ErrorM::Overflow),
        0 <= y < 63 && x >= 0 ==> num_binary(NumFn::Shr, x, y) is Ok && num_binary(NumFn::Shr, x, y)->Ok_0->Num_0 <= x,
{
    assert(x & y == y & x) by (bit_vector);
    assert(x | y == y | x) by (bit_vector);
    assert(x ^ y == y ^ x) by (bit_vector);
    assert(x & x == x) by (bit_vector);
    assert(x | x == x) by (bit_vector);
    assert(x ^ x == 0) by (bit_vector);
    assert(x & 0 == 0) by (bit_vector);
    assert(x | 0 == x) by (bit_vector);
    assert(x ^ 0 == x) by (bit_vector);
    assert(x << 0u64 == x) by (bit_vector);
    assert(x >> 0u64 == x) by (bit_vector);
    if 0 <= y < 63 && x >= 0 {
        let s = y as u64;
        assert(x >= 0 ==> x >> s <= x) by (bit_vector);
    }
}

/// A power with one more in the exponent is the power times the base:
/// `x ** (n + 1)` is `(x ** n) * x` whenever both are `i64`s; the power 0
/// is 1 and a negative exponent is an error.
pub proof fn law_number_powers(x: i64, n: i64)
    requires
        0 <= n < i64::MAX,
    ensures
        num_binary(NumFn::Pow, x, (n + 1) as i64) is Ok && num_binary(NumFn::Pow, x, n) is Ok ==>
            num_binary(NumFn::Pow, x, (n + 1) as i64)->Ok_0->Num_0 == num_binary(NumFn::Pow, x, n)->Ok_0->Num_0 * x,
        num_binary(NumFn::Pow, x, 0) == Ok::<ValueM, ErrorM>(ValueM::Num(1)),
        num_binary(NumFn::Pow, x, -1i64) is Err,
{
}

/// Subtraction undoes addition: whenever `x + y` is an `i64`, taking `y`
/// from it gives `x` back.
pub proof fn law_number_sub_undoes_add(x: i64, y: i64)
    requires
        num_binary(NumFn::Add, x, y) is Ok,
    ensures
        num_binary(NumFn::Sub, num_binary(NumFn::Add, x, y)->Ok_0->Num_0, y) == Ok::<ValueM, ErrorM>(ValueM::Num(x)),
{
}

/// An object equals itself, and two variables are equal exactly when they
/// hold the same name; neither calls anything.
pub proof fn law_equals_identity_and_names(h: Seq<EntryM>, a: Object, b: Object, fuel: nat)
    requires
        0 <= a.id < h.len(),
        0 <= b.id < h.len(),
    ensures
        sem_equals(h, a, a, fuel) == (h, true),
        h[a.id as int].value is Variable && h[b.id as int].value is Variable ==>
            sem_equals(h, a, b, fuel) == (h, h[a.id as int].value->Variable_0 == h[b.id as int].value->Variable_0),
{
}

} // verus!
