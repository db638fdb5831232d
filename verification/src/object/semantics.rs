//! What calling an attribute does, as mathematical functions of the heap.
//!
//! Each function here takes the heap before a call and gives the heap after
//! it together with the result. `fuel` bounds how deeply calls may nest; a
//! call that needs more raises [`ErrorM::RecursionLimit`].

use vstd::prelude::*;
use crate::error::ErrorM;
use crate::object::heap::{Object, Kind, ValueM, EntryM, plain, assoc_get, assoc_set, assoc_del};
use crate::object::literal::consts::{ASSIGN, INDEX, INDEX_ASSIGN, ADD, ADD_ASSIGN, AND, ARROW_LEFT, ARROW_RIGHT, ATTR_DEL, ATTR_GET, ATTR_HAS, ATTR_SET, AT_BOOL, AT_LIST, AT_MAP, AT_NUM, AT_TEXT, AT_VAR, B_AND, B_OR, B_XOR, B_LSH, B_RSH, CALL, CMP, COLON_COLON, DIV, EQL, GEQ, GTH, LEQ, LTH, L_CLONE, L_ID, L_LEN, L_POP, L_PUSH, MOD, MUL, NEG, NEQ, NOT, OR, POS, POW, STRICT_EQL, STRICT_NEQ, SUB};
use crate::object::types::rustfn::{RustFn, RustFnFn, NAME, fn_name};
use crate::object::types::basic::BasicFn;
use crate::object::types::pristine::PristineFn;
use crate::object::types::boolean::{BooleanFn, bool_text};
use crate::object::types::null::NullFn;
use crate::object::types::num::{NumFn, num_binary, num_unary, int_text, parse_num};
use crate::object::types::text::{TextFn, Span, span, repeat, NEGATIVE_COUNT, NOT_A_NUMBER, ZERO_INDEX};
use crate::object::types::variable::VariableFn;
use crate::object::types::list::{ListFn, join_texts};
use crate::object::typed::bound::{BoundFn, FUNC, PARENT, KEY};

verus! {

/// The heap after a call, and the object the call returned or the error it raised.
pub type Outcome = (Seq<EntryM>, Result<Object, ErrorM>);

/// A new object holding `v`, with no attributes, at the end of the heap.
pub open spec fn fresh(h: Seq<EntryM>, v: ValueM) -> Outcome {
    (h.push(plain(v)), Ok(Object { id: h.len() as usize }))
}

/// A new object that copies `obj`: its value and its own attributes.
pub open spec fn copy_of(h: Seq<EntryM>, obj: Object) -> Outcome {
    (h.push(h[obj.id as int]), Ok(Object { id: h.len() as usize }))
}

/// The argument at `pos` of a call of the function named `func`, or the
/// error that it is missing.
pub open spec fn getarg(args: Seq<Object>, pos: nat, func: Seq<char>) -> Result<Object, ErrorM> {
    if pos < args.len() {
        Ok(args[pos as int])
    } else {
        Err(ErrorM::MissingArgument { func, pos: pos as usize })
    }
}

/// What an object stands for when it is used as an attribute key.
pub enum AttrKey {
    /// The name that a variable holds.
    Name(Seq<char>),
    /// Any other object, which is a key by itself.
    Obj(Object),
}

/// The key that `key` stands for: its name if it is a variable, else itself.
pub open spec fn key_of(h: Seq<EntryM>, key: Object) -> AttrKey {
    match h[key.id as int].value {
        ValueM::Variable(n) => AttrKey::Name(n),
        _ => AttrKey::Obj(key),
    }
}

/// The entry's own attribute under `k`.
pub open spec fn own_get(e: EntryM, k: AttrKey) -> Option<Object> {
    match k {
        AttrKey::Name(n) => assoc_get(e.attrs, n),
        AttrKey::Obj(o) => assoc_get(e.keyed, o),
    }
}

/// The entry with its own attribute under `k` set to `v`.
pub open spec fn own_set(e: EntryM, k: AttrKey, v: Object) -> EntryM {
    match k {
        AttrKey::Name(n) => EntryM { value: e.value, attrs: assoc_set(e.attrs, n, v), keyed: e.keyed },
        AttrKey::Obj(o) => EntryM { value: e.value, attrs: e.attrs, keyed: assoc_set(e.keyed, o, v) },
    }
}

/// The entry without its own attribute under `k`.
pub open spec fn own_del(e: EntryM, k: AttrKey) -> EntryM {
    match k {
        AttrKey::Name(n) => EntryM { value: e.value, attrs: assoc_del(e.attrs, n), keyed: e.keyed },
        AttrKey::Obj(o) => EntryM { value: e.value, attrs: e.attrs, keyed: assoc_del(e.keyed, o) },
    }
}

/// The error that `obj` has nothing under `k`.
pub open spec fn missing(k: AttrKey, obj: Object) -> ErrorM {
    match k {
        AttrKey::Name(n) => ErrorM::AttrMissing { attr: n, obj },
        AttrKey::Obj(o) => ErrorM::MissingKey { key: o, obj },
    }
}

/// The methods that every object has, by name.
pub open spec fn basic_table() -> Seq<(Seq<char>, RustFn)> {
    seq![
        (STRICT_EQL@, RustFn::Basic(BasicFn::StrictEql)),
        (STRICT_NEQ@, RustFn::Basic(BasicFn::StrictNeq)),
        (AT_BOOL@, RustFn::Basic(BasicFn::AtBool)),
        (L_CLONE@, RustFn::Basic(BasicFn::Clone)),
        (EQL@, RustFn::Basic(BasicFn::Eql)),
        (NEQ@, RustFn::Basic(BasicFn::Neq)),
        (ARROW_RIGHT@, RustFn::Basic(BasicFn::ArrowRight)),
        (NOT@, RustFn::Basic(BasicFn::Not)),
        (AND@, RustFn::Basic(BasicFn::And)),
        (OR@, RustFn::Basic(BasicFn::Or)),
    ]
}

/// The methods that reach an object's own attributes, by name.
pub open spec fn pristine_table() -> Seq<(Seq<char>, RustFn)> {
    seq![
        (L_ID@, RustFn::Pristine(PristineFn::Id)),
        (COLON_COLON@, RustFn::Pristine(PristineFn::ColonColon)),
        (ATTR_GET@, RustFn::Pristine(PristineFn::Access)),
        (ATTR_SET@, RustFn::Pristine(PristineFn::AccessAssign)),
        (ATTR_DEL@, RustFn::Pristine(PristineFn::AccessDelete)),
        (ATTR_HAS@, RustFn::Pristine(PristineFn::AccessHas)),
    ]
}

/// The methods of each kind of value, by name.
pub open spec fn type_table(k: Kind) -> Seq<(Seq<char>, RustFn)> {
    match k {
        Kind::Boolean => seq![
            (AT_BOOL@, RustFn::Boolean(BooleanFn::AtBool)),
            (AT_NUM@, RustFn::Boolean(BooleanFn::AtNum)),
            (AT_TEXT@, RustFn::Boolean(BooleanFn::AtText)),
            (NOT@, RustFn::Boolean(BooleanFn::Not)),
            (EQL@, RustFn::Boolean(BooleanFn::Eql)),
            (B_XOR@, RustFn::Boolean(BooleanFn::Xor)),
            (B_AND@, RustFn::Boolean(BooleanFn::And)),
            (B_OR@, RustFn::Boolean(BooleanFn::Or)),
        ],
        Kind::Null => seq![
            (AT_TEXT@, RustFn::Null(NullFn::AtText)),
            (AT_BOOL@, RustFn::Null(NullFn::AtBool)),
            (AT_NUM@, RustFn::Null(NullFn::AtNum)),
            (AT_LIST@, RustFn::Null(NullFn::AtList)),
            (AT_MAP@, RustFn::Null(NullFn::AtMap)),
            (EQL@, RustFn::Null(NullFn::Eql)),
            (CALL@, RustFn::Null(NullFn::Call)),
        ],
        Kind::Num => seq![
            (AT_NUM@, RustFn::Num(NumFn::AtNum)),
            (AT_BOOL@, RustFn::Num(NumFn::AtBool)),
            (AT_TEXT@, RustFn::Num(NumFn::AtText)),
            (ADD@, RustFn::Num(NumFn::Add)),
            (SUB@, RustFn::Num(NumFn::Sub)),
            (MUL@, RustFn::Num(NumFn::Mul)),
            (DIV@, RustFn::Num(NumFn::Div)),
            (MOD@, RustFn::Num(NumFn::Mod)),
            (POW@, RustFn::Num(NumFn::Pow)),
            (EQL@, RustFn::Num(NumFn::Eql)),
            (NEQ@, RustFn::Num(NumFn::Neq)),
            (LTH@, RustFn::Num(NumFn::Lth)),
            (LEQ@, RustFn::Num(NumFn::Leq)),
            (GTH@, RustFn::Num(NumFn::Gth)),
            (GEQ@, RustFn::Num(NumFn::Geq)),
            (CMP@, RustFn::Num(NumFn::Cmp)),
            (B_AND@, RustFn::Num(NumFn::BitAnd)),
            (B_OR@, RustFn::Num(NumFn::BitOr)),
            (B_XOR@, RustFn::Num(NumFn::BitXor)),
            (B_LSH@, RustFn::Num(NumFn::Shl)),
            (B_RSH@, RustFn::Num(NumFn::Shr)),
            (POS@, RustFn::Num(NumFn::Pos)),
            (NEG@, RustFn::Num(NumFn::Neg)),
        ],
        Kind::Text => seq![
            (AT_TEXT@, RustFn::Text(TextFn::AtText)),
            (AT_VAR@, RustFn::Text(TextFn::AtVar)),
            (AT_BOOL@, RustFn::Text(TextFn::AtBool)),
            (AT_NUM@, RustFn::Text(TextFn::AtNum)),
            (EQL@, RustFn::Text(TextFn::Eql)),
            (ADD@, RustFn::Text(TextFn::Add)),
            (ADD_ASSIGN@, RustFn::Text(TextFn::AddAssign)),
            (MUL@, RustFn::Text(TextFn::Mul)),
            (L_LEN@, RustFn::Text(TextFn::Len)),
            (INDEX@, RustFn::Text(TextFn::Index)),
            (INDEX_ASSIGN@, RustFn::Text(TextFn::IndexAssign)),
        ],
        Kind::Variable => seq![(AT_VAR@, RustFn::Variable(VariableFn::AtVar))],
        Kind::RustFn => seq![
            (CALL@, RustFn::Function(RustFnFn::Call)),
            (NAME@, RustFn::Function(RustFnFn::Name)),
        ],
        Kind::Bound => seq![
            (CALL@, RustFn::Bound(BoundFn::Call)),
            (FUNC@, RustFn::Bound(BoundFn::Func)),
            (PARENT@, RustFn::Bound(BoundFn::Parent)),
            (KEY@, RustFn::Bound(BoundFn::Key)),
            (ASSIGN@, RustFn::Bound(BoundFn::Assign)),
        ],
        Kind::List => seq![
            (AT_LIST@, RustFn::List(ListFn::AtList)),
            (AT_BOOL@, RustFn::List(ListFn::AtBool)),
            (AT_TEXT@, RustFn::List(ListFn::AtText)),
            (EQL@, RustFn::List(ListFn::Eql)),
            (ADD@, RustFn::List(ListFn::Add)),
            (ADD_ASSIGN@, RustFn::List(ListFn::AddAssign)),
            (L_LEN@, RustFn::List(ListFn::Len)),
            (L_PUSH@, RustFn::List(ListFn::Push)),
            (L_POP@, RustFn::List(ListFn::Pop)),
        ],
        _ => Seq::empty(),
    }
}

/// Where the attribute `name` of an object is found.
pub enum Found {
    /// One of the object's own attributes.
    Own(Object),
    /// A method of its type, or one that every object has.
    Native(RustFn),
    /// Nowhere.
    Missing,
}

/// Looks `name` up: in `obj`'s own attributes, then in the methods of its
/// type, then in the methods every object has, then in those that reach
/// its own attributes.
pub open spec fn resolve(h: Seq<EntryM>, obj: Object, name: Seq<char>) -> Found {
    let e = h[obj.id as int];
    match assoc_get(e.attrs, name) {
        Some(v) => Found::Own(v),
        None => method_of(e.value.kind(), name),
    }
}

/// The method named `name` that a value of kind `k` has: one of its type,
/// else one that every object has, else one that reaches its own
/// attributes.
pub open spec fn method_of(k: Kind, name: Seq<char>) -> Found {
    match assoc_get(type_table(k), name) {
        Some(f) => Found::Native(f),
        None => match assoc_get(basic_table(), name) {
            Some(f) => Found::Native(f),
            None => match assoc_get(pristine_table(), name) {
                Some(f) => Found::Native(f),
                None => Found::Missing,
            },
        },
    }
}

/// Calls the attribute `name` of `obj` with `args`.
///
/// A native method runs with `obj` as its receiver. An own attribute that
/// holds a native function runs the same way; any other own attribute is
/// itself called (its `()` attribute), with `obj` before the arguments.
pub open spec fn sem_call_attr(
    h: Seq<EntryM>,
    obj: Object,
    name: Seq<char>,
    args: Seq<Object>,
    fuel: nat,
) -> Outcome
    decreases fuel, 1nat, 0nat,
{
    match resolve(h, obj, name) {
        Found::Native(f) => sem_apply(h, f, obj, args, fuel),
        Found::Own(v) => match h[v.id as int].value {
            ValueM::RustFn(f) => sem_apply(h, f, obj, args, fuel),
            _ => if fuel == 0 {
                (h, Err(ErrorM::RecursionLimit))
            } else {
                sem_call_attr(h, v, CALL@, seq![obj] + args, (fuel - 1) as nat)
            },
        },
        Found::Missing => (h, Err(ErrorM::AttrMissing { attr: name, obj })),
    }
}

/// Calls the conversion `conv` of `obj` (such as `@bool`), and checks that
/// the result is of kind `k`.
pub open spec fn sem_convert(h: Seq<EntryM>, obj: Object, conv: Seq<char>, k: Kind, fuel: nat) -> Outcome
    decreases fuel, 2nat, 0nat,
{
    let (h1, r) = sem_call_attr(h, obj, conv, Seq::empty(), fuel);
    match r {
        Err(e) => (h1, Err(e)),
        Ok(o) => if h1[o.id as int].value.kind() == k {
            (h1, Ok(o))
        } else {
            (h1, Err(ErrorM::CastError { obj: o, expected: k }))
        },
    }
}

/// Runs the native function `f` with receiver `this`.
pub open spec fn sem_apply(h: Seq<EntryM>, f: RustFn, this: Object, args: Seq<Object>, fuel: nat) -> Outcome
    decreases fuel, 0nat, 0nat,
{
    if fuel == 0 {
        (h, Err(ErrorM::RecursionLimit))
    } else {
        let g = (fuel - 1) as nat;
        match f {
            RustFn::Basic(b) => sem_basic(h, b, this, args, g),
            RustFn::Pristine(p) => sem_pristine(h, p, this, args),
            RustFn::Boolean(b) => if h[this.id as int].value is Boolean {
                sem_boolean(h, b, this, args, g)
            } else {
                (h, Err(ErrorM::CastError { obj: this, expected: Kind::Boolean }))
            },
            RustFn::Null(n) => if h[this.id as int].value is Null {
                sem_null(h, n, this, args)
            } else {
                (h, Err(ErrorM::CastError { obj: this, expected: Kind::Null }))
            },
            RustFn::Num(n) => if h[this.id as int].value is Num {
                sem_num(h, n, this, args, g)
            } else {
                (h, Err(ErrorM::CastError { obj: this, expected: Kind::Num }))
            },
            RustFn::Text(t) => if h[this.id as int].value is Text {
                sem_text(h, t, this, args, g)
            } else {
                (h, Err(ErrorM::CastError { obj: this, expected: Kind::Text }))
            },
            RustFn::Variable(v) => if h[this.id as int].value is Variable {
                sem_variable(h, v, this)
            } else {
                (h, Err(ErrorM::CastError { obj: this, expected: Kind::Variable }))
            },
            RustFn::List(l) => if h[this.id as int].value is List {
                sem_list(h, l, this, args, g)
            } else {
                (h, Err(ErrorM::CastError { obj: this, expected: Kind::List }))
            },
            RustFn::Bound(b) => if h[this.id as int].value is Bound {
                sem_bound(h, b, this, args, g)
            } else {
                (h, Err(ErrorM::CastError { obj: this, expected: Kind::Bound }))
            },
            RustFn::Function(m) => if h[this.id as int].value is RustFn {
                sem_function(h, m, this, args, g)
            } else {
                (h, Err(ErrorM::CastError { obj: this, expected: Kind::RustFn }))
            },
            RustFn::Const(o) => (h, Ok(o)),
            RustFn::Fail => (h, Err(ErrorM::Testing)),
        }
    }
}

/// The arguments of `[]` (`assign` false) and `[]=` (`assign` true),
/// converted in order: the start with `@num`; then, for `[]`, a second
/// argument as the end with `@num`; for `[]=`, with three or more
/// arguments the second as the end with `@num`, and the last of the first
/// three (the second if there are two) as the text to put in, with `@text`.
pub open spec fn sem_index_args(h: Seq<EntryM>, args: Seq<Object>, func: Seq<char>, assign: bool, fuel: nat)
    -> (Seq<EntryM>, Result<(i64, Option<i64>, Seq<char>), ErrorM>)
    decreases fuel, 3nat, 0nat,
{
    match getarg(args, 0, func) {
        Err(e) => (h, Err(e)),
        Ok(a0) => {
            let (h1, r0) = sem_convert(h, a0, AT_NUM@, Kind::Num, fuel);
            match r0 {
                Err(e) => (h1, Err(e)),
                Ok(o0) => {
                    let start = h1[o0.id as int].value->Num_0;
                    if (!assign && args.len() > 1) || (assign && args.len() >= 3) {
                        let (h2, r1) = sem_convert(h1, args[1], AT_NUM@, Kind::Num, fuel);
                        match r1 {
                            Err(e) => (h2, Err(e)),
                            Ok(o1) => {
                                let end = Some(h2[o1.id as int].value->Num_0);
                                if assign {
                                    let (h3, r2) = sem_convert(h2, args[2], AT_TEXT@, Kind::Text, fuel);
                                    match r2 {
                                        Err(e) => (h3, Err(e)),
                                        Ok(o2) => (h3, Ok((start, end, h3[o2.id as int].value->Text_0))),
                                    }
                                } else {
                                    (h2, Ok((start, end, Seq::empty())))
                                }
                            },
                        }
                    } else if assign {
                        match getarg(args, if args.len() == 2 { 1 } else { 2 }, func) {
                            Err(e) => (h1, Err(e)),
                            Ok(a) => {
                                let (h2, r2) = sem_convert(h1, a, AT_TEXT@, Kind::Text, fuel);
                                match r2 {
                                    Err(e) => (h2, Err(e)),
                                    Ok(o2) => (h2, Ok((start, None, h2[o2.id as int].value->Text_0))),
                                }
                            },
                        }
                    } else {
                        (h1, Ok((start, None, Seq::empty())))
                    }
                },
            }
        },
    }
}

/// The methods of function objects; `this` holds a native function.
pub open spec fn sem_function(h: Seq<EntryM>, m: RustFnFn, this: Object, args: Seq<Object>, fuel: nat) -> Outcome
    decreases fuel, 4nat, 0nat,
{
    let f = h[this.id as int].value->RustFn_0;
    match m {
        RustFnFn::Call => match getarg(args, 0, fn_name(RustFn::Function(m))) {
            Err(e) => (h, Err(e)),
            Ok(a) => sem_apply(h, f, a, args.drop_first(), fuel),
        },
        RustFnFn::Name => fresh(h, ValueM::Text(fn_name(f))),
    }
}

/// The methods of bound objects; `this` holds a bound object.
pub open spec fn sem_bound(h: Seq<EntryM>, b: BoundFn, this: Object, args: Seq<Object>, fuel: nat) -> Outcome
    decreases fuel, 4nat, 0nat,
{
    let (f, parent, key) = match h[this.id as int].value {
        ValueM::Bound(f, p, k) => (f, p, k),
        _ => (None, this, this),
    };
    match b {
        BoundFn::Call => match f {
            Some(o) => sem_call_attr(h, o, CALL@, seq![parent] + args, fuel),
            None => fresh(h, ValueM::Null),
        },
        BoundFn::Func => match f {
            Some(o) => (h, Ok(o)),
            None => fresh(h, ValueM::Null),
        },
        BoundFn::Parent => (h, Ok(parent)),
        BoundFn::Key => (h, Ok(key)),
        BoundFn::Assign => match getarg(args, 0, fn_name(RustFn::Bound(b))) {
            Err(e) => (h, Err(e)),
            Ok(v) => (h.update(parent.id as int, own_set(h[parent.id as int], key_of(h, key), v)), Ok(v)),
        },
    }
}

/// Calls `name` on `obj`, then `!` on what that returned.
pub open spec fn sem_then_not(h: Seq<EntryM>, obj: Object, name: Seq<char>, args: Seq<Object>, fuel: nat) -> Outcome
    decreases fuel, 3nat, 0nat,
{
    let (h1, r) = sem_call_attr(h, obj, name, args, fuel);
    match r {
        Err(e) => (h1, Err(e)),
        Ok(o) => sem_call_attr(h1, o, NOT@, Seq::empty(), fuel),
    }
}

/// The methods every object has.
pub open spec fn sem_basic(h: Seq<EntryM>, b: BasicFn, this: Object, args: Seq<Object>, fuel: nat) -> Outcome
    decreases fuel, 4nat, 0nat,
{
    match b {
        BasicFn::StrictEql => match getarg(args, 0, fn_name(RustFn::Basic(b))) {
            Err(e) => (h, Err(e)),
            Ok(a) => fresh(h, ValueM::Boolean(this.id == a.id)),
        },
        BasicFn::StrictNeq => sem_then_not(h, this, STRICT_EQL@, args, fuel),
        BasicFn::AtBool => fresh(h, ValueM::Boolean(true)),
        BasicFn::Clone => copy_of(h, this),
        BasicFn::Eql => sem_call_attr(h, this, STRICT_EQL@, args, fuel),
        BasicFn::Neq => sem_then_not(h, this, EQL@, args, fuel),
        BasicFn::ArrowRight => match getarg(args, 0, fn_name(RustFn::Basic(b))) {
            Err(e) => (h, Err(e)),
            Ok(a) => sem_call_attr(h, a, ARROW_LEFT@, seq![this], fuel),
        },
        BasicFn::Not => {
            let (h1, r) = sem_convert(h, this, AT_BOOL@, Kind::Boolean, fuel);
            match r {
                Err(e) => (h1, Err(e)),
                Ok(o) => sem_call_attr(h1, o, NOT@, Seq::empty(), fuel),
            }
        },
        BasicFn::And => {
            let (h1, r) = sem_convert(h, this, AT_BOOL@, Kind::Boolean, fuel);
            match r {
                Err(e) => (h1, Err(e)),
                Ok(o) => if h1[o.id as int].value->Boolean_0 {
                    (h1, getarg(args, 0, fn_name(RustFn::Basic(b))))
                } else {
                    (h1, Ok(this))
                },
            }
        },
        BasicFn::Or => {
            let (h1, r) = sem_convert(h, this, AT_BOOL@, Kind::Boolean, fuel);
            match r {
                Err(e) => (h1, Err(e)),
                Ok(o) => if h1[o.id as int].value->Boolean_0 {
                    (h1, Ok(this))
                } else {
                    (h1, getarg(args, 0, fn_name(RustFn::Basic(b))))
                },
            }
        },
    }
}

/// The attribute key that the argument at `pos` stands for.
pub open spec fn key_arg(h: Seq<EntryM>, args: Seq<Object>, pos: nat, func: Seq<char>) -> Result<AttrKey, ErrorM> {
    match getarg(args, pos, func) {
        Err(e) => Err(e),
        Ok(a) => Ok(key_of(h, a)),
    }
}

/// The object that the attribute `name` of `obj` is: an own attribute
/// itself, or a new function object for a method.
pub open spec fn sem_access(h: Seq<EntryM>, obj: Object, name: Seq<char>) -> Outcome {
    match resolve(h, obj, name) {
        Found::Own(v) => (h, Ok(v)),
        Found::Native(f) => fresh(h, ValueM::RustFn(f)),
        Found::Missing => (h, Err(ErrorM::AttrMissing { attr: name, obj })),
    }
}

/// The attribute of `obj` under `k`: for a name as [`sem_access`] finds it,
/// for an object key the own attribute under it.
pub open spec fn sem_get(h: Seq<EntryM>, obj: Object, k: AttrKey) -> Outcome {
    match k {
        AttrKey::Name(n) => sem_access(h, obj, n),
        AttrKey::Obj(o) => match assoc_get(h[obj.id as int].keyed, o) {
            Some(v) => (h, Ok(v)),
            None => (h, Err(ErrorM::MissingKey { key: o, obj })),
        },
    }
}

/// The methods that reach an object's own attributes.
pub open spec fn sem_pristine(h: Seq<EntryM>, p: PristineFn, this: Object, args: Seq<Object>) -> Outcome {
    match p {
        PristineFn::Id => fresh(h, ValueM::Num(this.id as i64)),
        PristineFn::ColonColon => match key_arg(h, args, 0, fn_name(RustFn::Pristine(p))) {
            Err(e) => (h, Err(e)),
            Ok(k) => match own_get(h[this.id as int], k) {
                Some(v) => (h, Ok(v)),
                None => (h, Err(missing(k, this))),
            },
        },
        PristineFn::Access => match key_arg(h, args, 0, fn_name(RustFn::Pristine(p))) {
            Err(e) => (h, Err(e)),
            Ok(k) => sem_get(h, this, k),
        },
        PristineFn::AccessAssign => match key_arg(h, args, 0, fn_name(RustFn::Pristine(p))) {
            Err(e) => (h, Err(e)),
            Ok(k) => match getarg(args, 1, fn_name(RustFn::Pristine(p))) {
                Err(e) => (h, Err(e)),
                Ok(v) => (h.update(this.id as int, own_set(h[this.id as int], k, v)), Ok(v)),
            },
        },
        PristineFn::AccessDelete => match key_arg(h, args, 0, fn_name(RustFn::Pristine(p))) {
            Err(e) => (h, Err(e)),
            Ok(k) => match own_get(h[this.id as int], k) {
                Some(v) => (h.update(this.id as int, own_del(h[this.id as int], k)), Ok(v)),
                None => (h, Err(missing(k, this))),
            },
        },
        PristineFn::AccessHas => match key_arg(h, args, 0, fn_name(RustFn::Pristine(p))) {
            Err(e) => (h, Err(e)),
            Ok(k) => fresh(h, ValueM::Boolean(own_get(h[this.id as int], k) is Some)),
        },
    }
}

/// The methods of booleans; `this` holds a boolean.
pub open spec fn sem_boolean(h: Seq<EntryM>, b: BooleanFn, this: Object, args: Seq<Object>, fuel: nat) -> Outcome
    decreases fuel, 4nat, 0nat,
{
    let v = h[this.id as int].value->Boolean_0;
    match b {
        BooleanFn::AtBool => copy_of(h, this),
        BooleanFn::AtNum => fresh(h, ValueM::Num(if v { 1 } else { 0 })),
        BooleanFn::AtText => fresh(h, ValueM::Text(bool_text(v))),
        BooleanFn::Not => fresh(h, ValueM::Boolean(!v)),
        _ => match getarg(args, 0, fn_name(RustFn::Boolean(b))) {
            Err(e) => (h, Err(e)),
            Ok(a) => {
                let (h1, r) = sem_convert(h, a, AT_BOOL@, Kind::Boolean, fuel);
                match r {
                    Err(e) => (h1, Err(e)),
                    Ok(o) => match h1[this.id as int].value {
                        ValueM::Boolean(x) => {
                            let y = h1[o.id as int].value->Boolean_0;
                            fresh(h1, ValueM::Boolean(match b {
                                BooleanFn::Eql => x == y,
                                BooleanFn::Xor => x != y,
                                BooleanFn::And => x && y,
                                _ => x || y,
                            }))
                        },
                        _ => (h1, Err(ErrorM::CastError { obj: this, expected: Kind::Boolean })),
                    },
                }
            },
        },
    }
}

/// The methods of null; `this` holds null.
pub open spec fn sem_null(h: Seq<EntryM>, n: NullFn, this: Object, args: Seq<Object>) -> Outcome {
    match n {
        NullFn::AtText => fresh(h, ValueM::Text("null"@)),
        NullFn::AtBool => fresh(h, ValueM::Boolean(false)),
        NullFn::AtNum => fresh(h, ValueM::Num(0)),
        NullFn::AtList => fresh(h, ValueM::List(Seq::empty())),
        NullFn::AtMap => fresh(h, ValueM::Dict(Seq::empty())),
        NullFn::Eql => match getarg(args, 0, fn_name(RustFn::Null(n))) {
            Err(e) => (h, Err(e)),
            Ok(a) => fresh(h, ValueM::Boolean(h[a.id as int].value is Null)),
        },
        NullFn::Call => fresh(h, ValueM::Null),
    }
}

/// The methods of variables; `this` holds a variable.
pub open spec fn sem_variable(h: Seq<EntryM>, v: VariableFn, this: Object) -> Outcome {
    match v {
        VariableFn::AtVar => fresh(h, ValueM::Variable(h[this.id as int].value->Variable_0)),
    }
}

/// The methods of numbers; `this` holds a number.
pub open spec fn sem_num(h: Seq<EntryM>, n: NumFn, this: Object, args: Seq<Object>, fuel: nat) -> Outcome
    decreases fuel, 4nat, 0nat,
{
    let x = h[this.id as int].value->Num_0;
    match n {
        NumFn::AtNum => fresh(h, ValueM::Num(x)),
        NumFn::AtBool => fresh(h, ValueM::Boolean(x != 0)),
        NumFn::AtText => fresh(h, ValueM::Text(int_text(x as int))),
        NumFn::Pos | NumFn::Neg => match num_unary(n, x) {
            Ok(v) => fresh(h, v),
            Err(e) => (h, Err(e)),
        },
        _ => match getarg(args, 0, fn_name(RustFn::Num(n))) {
            Err(e) => (h, Err(e)),
            Ok(a) => {
                let (h1, r) = sem_convert(h, a, AT_NUM@, Kind::Num, fuel);
                match r {
                    Err(e) => (h1, Err(e)),
                    Ok(o) => match h1[this.id as int].value {
                        ValueM::Num(x1) => match num_binary(n, x1, h1[o.id as int].value->Num_0) {
                            Ok(v) => fresh(h1, v),
                            Err(e) => (h1, Err(e)),
                        },
                        _ => (h1, Err(ErrorM::CastError { obj: this, expected: Kind::Num })),
                    },
                }
            },
        },
    }
}

/// Converts the argument at 0 with `conv` to kind `k`.
pub open spec fn sem_convert_arg(h: Seq<EntryM>, args: Seq<Object>, func: Seq<char>, conv: Seq<char>, k: Kind, fuel: nat) -> Outcome
    decreases fuel, 3nat, 0nat,
{
    match getarg(args, 0, func) {
        Err(e) => (h, Err(e)),
        Ok(a) => sem_convert(h, a, conv, k, fuel),
    }
}

/// The methods of texts; `this` holds a text.
pub open spec fn sem_text(h: Seq<EntryM>, t: TextFn, this: Object, args: Seq<Object>, fuel: nat) -> Outcome
    decreases fuel, 4nat, 0nat,
{
    let s = h[this.id as int].value->Text_0;
    match t {
        TextFn::AtText => copy_of(h, this),
        TextFn::AtVar => fresh(h, ValueM::Variable(s)),
        TextFn::AtBool => fresh(h, ValueM::Boolean(s.len() != 0)),
        TextFn::AtNum => match parse_num(s) {
            Some(x) => fresh(h, ValueM::Num(x)),
            None => (h, Err(ErrorM::BadArgument { pos: 0, msg: NOT_A_NUMBER@ })),
        },
        TextFn::Eql => match getarg(args, 0, fn_name(RustFn::Text(t))) {
            Err(e) => (h, Err(e)),
            Ok(a) => fresh(h, ValueM::Boolean(h[a.id as int].value == ValueM::Text(s))),
        },
        TextFn::Len => fresh(h, ValueM::Num(s.len() as i64)),
        TextFn::Add | TextFn::AddAssign => {
            let (h1, r) = sem_convert_arg(h, args, fn_name(RustFn::Text(t)), AT_TEXT@, Kind::Text, fuel);
            match r {
                Err(e) => (h1, Err(e)),
                Ok(o) => match h1[this.id as int].value {
                    ValueM::Text(s1) => {
                        let joined = s1 + h1[o.id as int].value->Text_0;
                        if t == TextFn::Add {
                            fresh(h1, ValueM::Text(joined))
                        } else {
                            (
                                h1.update(this.id as int, EntryM {
                                    value: ValueM::Text(joined),
                                    attrs: h1[this.id as int].attrs,
                                    keyed: h1[this.id as int].keyed,
                                }),
                                Ok(this),
                            )
                        }
                    },
                    _ => (h1, Err(ErrorM::CastError { obj: this, expected: Kind::Text })),
                },
            }
        },
        TextFn::Index => {
            let (h1, r) = sem_index_args(h, args, fn_name(RustFn::Text(t)), false, fuel);
            match r {
                Err(e) => (h1, Err(e)),
                Ok((start, end, _)) => match h1[this.id as int].value {
                    ValueM::Text(s1) => match span(start, end, s1.len()) {
                        Span::Zero => (h1, Err(ErrorM::BadArgument { pos: 0, msg: ZERO_INDEX@ })),
                        Span::Outside => fresh(h1, ValueM::Null),
                        Span::Within(lo, hi) => fresh(h1, ValueM::Text(s1.subrange(lo as int, hi as int))),
                    },
                    _ => (h1, Err(ErrorM::CastError { obj: this, expected: Kind::Text })),
                },
            }
        },
        TextFn::IndexAssign => {
            let (h1, r) = sem_index_args(h, args, fn_name(RustFn::Text(t)), true, fuel);
            match r {
                Err(e) => (h1, Err(e)),
                Ok((start, end, ins)) => match h1[this.id as int].value {
                    ValueM::Text(s1) => match span(start, end, s1.len()) {
                        Span::Zero => (h1, Err(ErrorM::BadArgument { pos: 0, msg: ZERO_INDEX@ })),
                        Span::Outside => fresh(h1, ValueM::Null),
                        Span::Within(lo, hi) => (
                            h1.update(this.id as int, EntryM {
                                value: ValueM::Text(s1.subrange(0, lo as int) + ins + s1.subrange(hi as int, s1.len() as int)),
                                attrs: h1[this.id as int].attrs,
                                keyed: h1[this.id as int].keyed,
                            }),
                            Ok(this),
                        ),
                    },
                    _ => (h1, Err(ErrorM::CastError { obj: this, expected: Kind::Text })),
                },
            }
        },
        TextFn::Mul => {
            let (h1, r) = sem_convert_arg(h, args, fn_name(RustFn::Text(t)), AT_NUM@, Kind::Num, fuel);
            match r {
                Err(e) => (h1, Err(e)),
                Ok(o) => match h1[this.id as int].value {
                    ValueM::Text(s1) => {
                        let count = h1[o.id as int].value->Num_0;
                        if count < 0 {
                            (h1, Err(ErrorM::BadArgument { pos: 0, msg: NEGATIVE_COUNT@ }))
                        } else {
                            fresh(h1, ValueM::Text(repeat(s1, count as nat)))
                        }
                    },
                    _ => (h1, Err(ErrorM::CastError { obj: this, expected: Kind::Text })),
                },
            }
        },
    }
}

/// Compares two lists element by element from index `i`: each pair with
/// `==`, whose result is converted with `@bool`. Stops at the first pair
/// that is not equal.
pub open spec fn sem_list_eql(
    h: Seq<EntryM>,
    l: Seq<Object>,
    r: Seq<Object>,
    i: nat,
    fuel: nat,
) -> (Seq<EntryM>, Result<bool, ErrorM>)
    decreases fuel, 3nat, l.len() - i,
{
    if i >= l.len() || i >= r.len() {
        (h, Ok(true))
    } else {
        let (h1, c) = sem_call_attr(h, l[i as int], EQL@, seq![r[i as int]], fuel);
        match c {
            Err(e) => (h1, Err(e)),
            Ok(o) => {
                let (h2, b) = sem_convert(h1, o, AT_BOOL@, Kind::Boolean, fuel);
                match b {
                    Err(e) => (h2, Err(e)),
                    Ok(bo) => if h2[bo.id as int].value->Boolean_0 {
                        sem_list_eql(h2, l, r, i + 1, fuel)
                    } else {
                        (h2, Ok(false))
                    },
                }
            },
        }
    }
}

/// Converts the elements of `items` from index `i` with `@text`, and adds
/// their texts to `acc`, separated by `, `.
pub open spec fn sem_list_text(
    h: Seq<EntryM>,
    items: Seq<Object>,
    i: nat,
    acc: Seq<Seq<char>>,
    fuel: nat,
) -> (Seq<EntryM>, Result<Seq<Seq<char>>, ErrorM>)
    decreases fuel, 3nat, items.len() - i,
{
    if i >= items.len() {
        (h, Ok(acc))
    } else {
        let (h1, c) = sem_convert(h, items[i as int], AT_TEXT@, Kind::Text, fuel);
        match c {
            Err(e) => (h1, Err(e)),
            Ok(o) => sem_list_text(h1, items, i + 1, acc.push(h1[o.id as int].value->Text_0), fuel),
        }
    }
}

/// The methods of lists; `this` holds a list.
pub open spec fn sem_list(h: Seq<EntryM>, l: ListFn, this: Object, args: Seq<Object>, fuel: nat) -> Outcome
    decreases fuel, 4nat, 0nat,
{
    let items = h[this.id as int].value->List_0;
    match l {
        ListFn::AtList => copy_of(h, this),
        ListFn::AtBool => fresh(h, ValueM::Boolean(items.len() != 0)),
        ListFn::Len => fresh(h, ValueM::Num(items.len() as i64)),
        ListFn::AtText => {
            let (h1, r) = sem_list_text(h, items, 0, Seq::empty(), fuel);
            match r {
                Err(e) => (h1, Err(e)),
                Ok(texts) => fresh(h1, ValueM::Text(seq!['['] + join_texts(texts) + seq![']'])),
            }
        },
        ListFn::Eql => match getarg(args, 0, fn_name(RustFn::List(l))) {
            Err(e) => (h, Err(e)),
            Ok(a) => match h[a.id as int].value {
                ValueM::List(other) => if items.len() != other.len() {
                    fresh(h, ValueM::Boolean(false))
                } else {
                    let (h1, r) = sem_list_eql(h, items, other, 0, fuel);
                    match r {
                        Err(e) => (h1, Err(e)),
                        Ok(b) => fresh(h1, ValueM::Boolean(b)),
                    }
                },
                _ => (h, Err(ErrorM::CastError { obj: a, expected: Kind::List })),
            },
        },
        ListFn::Add | ListFn::AddAssign => {
            let (h1, r) = sem_convert_arg(h, args, fn_name(RustFn::List(l)), AT_LIST@, Kind::List, fuel);
            match r {
                Err(e) => (h1, Err(e)),
                Ok(o) => match h1[this.id as int].value {
                    ValueM::List(s1) => {
                        let joined = s1 + h1[o.id as int].value->List_0;
                        if l == ListFn::Add {
                            fresh(h1, ValueM::List(joined))
                        } else {
                            (
                                h1.update(this.id as int, EntryM {
                                    value: ValueM::List(joined),
                                    attrs: h1[this.id as int].attrs,
                                    keyed: h1[this.id as int].keyed,
                                }),
                                Ok(this),
                            )
                        }
                    },
                    _ => (h1, Err(ErrorM::CastError { obj: this, expected: Kind::List })),
                },
            }
        },
        ListFn::Push => match getarg(args, 0, fn_name(RustFn::List(l))) {
            Err(e) => (h, Err(e)),
            Ok(a) => (
                h.update(this.id as int, EntryM {
                    value: ValueM::List(items.push(a)),
                    attrs: h[this.id as int].attrs,
                    keyed: h[this.id as int].keyed,
                }),
                Ok(this),
            ),
        },
        ListFn::Pop => if items.len() == 0 {
            fresh(h, ValueM::Null)
        } else {
            (
                h.update(this.id as int, EntryM {
                    value: ValueM::List(items.drop_last()),
                    attrs: h[this.id as int].attrs,
                    keyed: h[this.id as int].keyed,
                }),
                Ok(items.last()),
            )
        },
    }
}

/// Calls the attribute of `obj` under the key `attr`, with `args`.
///
/// A variable key calls the attribute it names, as [`sem_call_attr`] does.
/// Any other key is looked up among `obj`'s own attributes; what is found
/// runs as an own attribute does there, and a key that is not found is
/// [`ErrorM::MissingKey`].
pub open spec fn sem_call(h: Seq<EntryM>, obj: Object, attr: Object, args: Seq<Object>, fuel: nat) -> Outcome {
    match key_of(h, attr) {
        AttrKey::Name(n) => sem_call_attr(h, obj, n, args, fuel),
        AttrKey::Obj(k) => match assoc_get(h[obj.id as int].keyed, k) {
            None => (h, Err(ErrorM::MissingKey { key: k, obj })),
            Some(v) => match h[v.id as int].value {
                ValueM::RustFn(f) => sem_apply(h, f, obj, args, fuel),
                _ => if fuel == 0 {
                    (h, Err(ErrorM::RecursionLimit))
                } else {
                    sem_call_attr(h, v, CALL@, seq![obj] + args, (fuel - 1) as nat)
                },
            },
        },
    }
}

/// Whether two objects are equal: the same object, two variables with the
/// same name, or objects whose `==` gives something that `@bool` makes true.
/// A failing call counts as not equal.
pub open spec fn sem_equals(h: Seq<EntryM>, a: Object, b: Object, fuel: nat) -> (Seq<EntryM>, bool) {
    if a.id == b.id {
        (h, true)
    } else if h[a.id as int].value is Variable && h[b.id as int].value is Variable {
        (h, h[a.id as int].value == h[b.id as int].value)
    } else {
        let (h1, r) = sem_call_attr(h, a, EQL@, seq![b], fuel);
        match r {
            Err(_) => (h1, false),
            Ok(o) => {
                let (h2, c) = sem_convert(h1, o, AT_BOOL@, Kind::Boolean, fuel);
                match c {
                    Err(_) => (h2, false),
                    Ok(x) => (h2, h2[x.id as int].value->Boolean_0),
                }
            },
        }
    }
}

} // verus!
