//! The depth limit on nested calls only cuts evaluation off: a call that
//! finishes without reaching the limit gives the same heap and the same
//! result with any greater limit.

use vstd::prelude::*;
use crate::error::ErrorM;
use crate::object::heap::{Object, Kind, ValueM, EntryM};
use crate::object::literal::consts::{AT_BOOL, AT_LIST, AT_NUM, AT_TEXT, ARROW_LEFT, CALL, EQL, NOT, STRICT_EQL};
use crate::object::semantics::{
    Found, resolve, getarg, sem_call_attr, sem_apply, sem_convert, sem_convert_arg, sem_index_args, sem_then_not,
    sem_basic, sem_boolean, sem_num, sem_text, sem_list, sem_list_eql, sem_list_text,
};
use crate::object::types::rustfn::{RustFn, RustFnFn, fn_name};
use crate::object::typed::bound::BoundFn;
use crate::object::types::basic::BasicFn;
use crate::object::types::boolean::BooleanFn;
use crate::object::types::num::NumFn;
use crate::object::types::text::TextFn;
use crate::object::types::list::ListFn;

verus! {

/// The result is not the error of running out of depth.
pub open spec fn not_limited<T>(r: Result<T, ErrorM>) -> bool {
    !(r matches Err(ErrorM::RecursionLimit))
}

proof fn deeper_call_attr(h: Seq<EntryM>, obj: Object, name: Seq<char>, args: Seq<Object>, fuel: nat)
    requires
        not_limited(sem_call_attr(h, obj, name, args, fuel).1),
    ensures
        sem_call_attr(h, obj, name, args, fuel + 1) == sem_call_attr(h, obj, name, args, fuel),
    decreases fuel, 1nat, 0nat,
{
    match resolve(h, obj, name) {
        Found::Native(f) => deeper_apply(h, f, obj, args, fuel),
        Found::Own(v) => match h[v.id as int].value {
            ValueM::RustFn(f) => deeper_apply(h, f, obj, args, fuel),
            _ => if fuel > 0 {
                deeper_call_attr(h, v, CALL@, seq![obj] + args, (fuel - 1) as nat);
            },
        },
        Found::Missing => {},
    }
}

proof fn deeper_apply(h: Seq<EntryM>, f: RustFn, this: Object, args: Seq<Object>, fuel: nat)
    requires
        not_limited(sem_apply(h, f, this, args, fuel).1),
    ensures
        sem_apply(h, f, this, args, fuel + 1) == sem_apply(h, f, this, args, fuel),
    decreases fuel, 0nat, 0nat,
{
    if fuel > 0 {
        let g = (fuel - 1) as nat;
        let v = h[this.id as int].value;
        match f {
            RustFn::Basic(b) => deeper_basic(h, b, this, args, g),
            RustFn::Boolean(b) => if v is Boolean {
                deeper_boolean(h, b, this, args, g);
            },
            RustFn::Num(n) => if v is Num {
                deeper_num(h, n, this, args, g);
            },
            RustFn::Text(t) => if v is Text {
                deeper_text(h, t, this, args, g);
            },
            RustFn::List(l) => if v is List {
                deeper_list(h, l, this, args, g);
            },
            RustFn::Function(m) => if v is RustFn {
                if m == RustFnFn::Call {
                    if let Ok(a) = getarg(args, 0, fn_name(f)) {
                        deeper_apply(h, v->RustFn_0, a, args.drop_first(), g);
                    }
                }
            },
            RustFn::Bound(b) => if v is Bound {
                if b == BoundFn::Call {
                    if let ValueM::Bound(Some(o), p, _) = v {
                        deeper_call_attr(h, o, CALL@, seq![p] + args, g);
                    }
                }
            },
            _ => {},
        }
    }
}

proof fn deeper_convert(h: Seq<EntryM>, obj: Object, conv: Seq<char>, k: Kind, fuel: nat)
    requires
        not_limited(sem_convert(h, obj, conv, k, fuel).1),
    ensures
        sem_convert(h, obj, conv, k, fuel + 1) == sem_convert(h, obj, conv, k, fuel),
    decreases fuel, 2nat, 0nat,
{
    deeper_call_attr(h, obj, conv, Seq::empty(), fuel);
}

proof fn deeper_convert_arg(h: Seq<EntryM>, args: Seq<Object>, func: Seq<char>, conv: Seq<char>, k: Kind, fuel: nat)
    requires
        not_limited(sem_convert_arg(h, args, func, conv, k, fuel).1),
    ensures
        sem_convert_arg(h, args, func, conv, k, fuel + 1) == sem_convert_arg(h, args, func, conv, k, fuel),
    decreases fuel, 3nat, 0nat,
{
    if let Ok(a) = getarg(args, 0, func) {
        deeper_convert(h, a, conv, k, fuel);
    }
}

proof fn deeper_then_not(h: Seq<EntryM>, obj: Object, name: Seq<char>, args: Seq<Object>, fuel: nat)
    requires
        not_limited(sem_then_not(h, obj, name, args, fuel).1),
    ensures
        sem_then_not(h, obj, name, args, fuel + 1) == sem_then_not(h, obj, name, args, fuel),
    decreases fuel, 3nat, 0nat,
{
    let (h1, r) = sem_call_attr(h, obj, name, args, fuel);
    deeper_call_attr(h, obj, name, args, fuel);
    if let Ok(o) = r {
        deeper_call_attr(h1, o, NOT@, Seq::empty(), fuel);
    }
}

proof fn deeper_basic(h: Seq<EntryM>, b: BasicFn, this: Object, args: Seq<Object>, fuel: nat)
    requires
        not_limited(sem_basic(h, b, this, args, fuel).1),
    ensures
        sem_basic(h, b, this, args, fuel + 1) == sem_basic(h, b, this, args, fuel),
    decreases fuel, 4nat, 0nat,
{
    match b {
        BasicFn::StrictNeq => deeper_then_not(h, this, STRICT_EQL@, args, fuel),
        BasicFn::Eql => deeper_call_attr(h, this, STRICT_EQL@, args, fuel),
        BasicFn::Neq => deeper_then_not(h, this, EQL@, args, fuel),
        BasicFn::ArrowRight => if let Ok(a) = getarg(args, 0, fn_name(RustFn::Basic(b))) {
            deeper_call_attr(h, a, ARROW_LEFT@, seq![this], fuel);
        },
        BasicFn::Not => {
            let (h1, r) = sem_convert(h, this, AT_BOOL@, Kind::Boolean, fuel);
            deeper_convert(h, this, AT_BOOL@, Kind::Boolean, fuel);
            if let Ok(o) = r {
                deeper_call_attr(h1, o, NOT@, Seq::empty(), fuel);
            }
        },
        BasicFn::And | BasicFn::Or => deeper_convert(h, this, AT_BOOL@, Kind::Boolean, fuel),
        _ => {},
    }
}

proof fn deeper_boolean(h: Seq<EntryM>, b: BooleanFn, this: Object, args: Seq<Object>, fuel: nat)
    requires
        not_limited(sem_boolean(h, b, this, args, fuel).1),
    ensures
        sem_boolean(h, b, this, args, fuel + 1) == sem_boolean(h, b, this, args, fuel),
    decreases fuel, 4nat, 0nat,
{
    if let Ok(a) = getarg(args, 0, fn_name(RustFn::Boolean(b))) {
        match b {
            BooleanFn::AtBool | BooleanFn::AtNum | BooleanFn::AtText | BooleanFn::Not => {},
            _ => deeper_convert(h, a, AT_BOOL@, Kind::Boolean, fuel),
        }
    }
}

proof fn deeper_num(h: Seq<EntryM>, n: NumFn, this: Object, args: Seq<Object>, fuel: nat)
    requires
        not_limited(sem_num(h, n, this, args, fuel).1),
    ensures
        sem_num(h, n, this, args, fuel + 1) == sem_num(h, n, this, args, fuel),
    decreases fuel, 4nat, 0nat,
{
    if let Ok(a) = getarg(args, 0, fn_name(RustFn::Num(n))) {
        match n {
            NumFn::AtNum | NumFn::AtBool | NumFn::AtText | NumFn::Pos | NumFn::Neg => {},
            _ => deeper_convert(h, a, AT_NUM@, Kind::Num, fuel),
        }
    }
}

proof fn deeper_index_args(h: Seq<EntryM>, args: Seq<Object>, func: Seq<char>, assign: bool, fuel: nat)
    requires
        not_limited(sem_index_args(h, args, func, assign, fuel).1),
    ensures
        sem_index_args(h, args, func, assign, fuel + 1) == sem_index_args(h, args, func, assign, fuel),
    decreases fuel, 3nat, 0nat,
{
    if let Ok(a0) = getarg(args, 0, func) {
        let (h1, r0) = sem_convert(h, a0, AT_NUM@, Kind::Num, fuel);
        deeper_convert(h, a0, AT_NUM@, Kind::Num, fuel);
        if let Ok(o0) = r0 {
            if (!assign && args.len() > 1) || (assign && args.len() >= 3) {
                let (h2, r1) = sem_convert(h1, args[1], AT_NUM@, Kind::Num, fuel);
                deeper_convert(h1, args[1], AT_NUM@, Kind::Num, fuel);
                if let Ok(o1) = r1 {
                    if assign {
                        deeper_convert(h2, args[2], AT_TEXT@, Kind::Text, fuel);
                    }
                }
            } else if assign {
                if let Ok(a) = getarg(args, if args.len() == 2 { 1 } else { 2 }, func) {
                    deeper_convert(h1, a, AT_TEXT@, Kind::Text, fuel);
                }
            }
        }
    }
}

proof fn deeper_text(h: Seq<EntryM>, t: TextFn, this: Object, args: Seq<Object>, fuel: nat)
    requires
        not_limited(sem_text(h, t, this, args, fuel).1),
    ensures
        sem_text(h, t, this, args, fuel + 1) == sem_text(h, t, this, args, fuel),
    decreases fuel, 4nat, 0nat,
{
    match t {
        TextFn::Add | TextFn::AddAssign => deeper_convert_arg(h, args, fn_name(RustFn::Text(t)), AT_TEXT@, Kind::Text, fuel),
        TextFn::Mul => deeper_convert_arg(h, args, fn_name(RustFn::Text(t)), AT_NUM@, Kind::Num, fuel),
        TextFn::Index => deeper_index_args(h, args, fn_name(RustFn::Text(t)), false, fuel),
        TextFn::IndexAssign => deeper_index_args(h, args, fn_name(RustFn::Text(t)), true, fuel),
        _ => {},
    }
}

proof fn deeper_list_eql(h: Seq<EntryM>, l: Seq<Object>, r: Seq<Object>, i: nat, fuel: nat)
    requires
        not_limited(sem_list_eql(h, l, r, i, fuel).1),
    ensures
        sem_list_eql(h, l, r, i, fuel + 1) == sem_list_eql(h, l, r, i, fuel),
    decreases fuel, 3nat, l.len() - i,
{
    if i < l.len() && i < r.len() {
        let (h1, c) = sem_call_attr(h, l[i as int], EQL@, seq![r[i as int]], fuel);
        deeper_call_attr(h, l[i as int], EQL@, seq![r[i as int]], fuel);
        if let Ok(o) = c {
            let (h2, b) = sem_convert(h1, o, AT_BOOL@, Kind::Boolean, fuel);
            deeper_convert(h1, o, AT_BOOL@, Kind::Boolean, fuel);
            if let Ok(bo) = b {
                if h2[bo.id as int].value->Boolean_0 {
                    deeper_list_eql(h2, l, r, i + 1, fuel);
                }
            }
        }
    }
}

proof fn deeper_list_text(h: Seq<EntryM>, items: Seq<Object>, i: nat, acc: Seq<Seq<char>>, fuel: nat)
    requires
        not_limited(sem_list_text(h, items, i, acc, fuel).1),
    ensures
        sem_list_text(h, items, i, acc, fuel + 1) == sem_list_text(h, items, i, acc, fuel),
    decreases fuel, 3nat, items.len() - i,
{
    if i < items.len() {
        let (h1, c) = sem_convert(h, items[i as int], AT_TEXT@, Kind::Text, fuel);
        deeper_convert(h, items[i as int], AT_TEXT@, Kind::Text, fuel);
        if let Ok(o) = c {
            deeper_list_text(h1, items, i + 1, acc.push(h1[o.id as int].value->Text_0), fuel);
        }
    }
}

proof fn deeper_list(h: Seq<EntryM>, l: ListFn, this: Object, args: Seq<Object>, fuel: nat)
    requires
        not_limited(sem_list(h, l, this, args, fuel).1),
    ensures
        sem_list(h, l, this, args, fuel + 1) == sem_list(h, l, this, args, fuel),
    decreases fuel, 4nat, 0nat,
{
    let items = h[this.id as int].value->List_0;
    match l {
        ListFn::AtText => deeper_list_text(h, items, 0, Seq::empty(), fuel),
        ListFn::Eql => if let Ok(a) = getarg(args, 0, fn_name(RustFn::List(l))) {
            if let ValueM::List(other) = h[a.id as int].value {
                if items.len() == other.len() {
                    deeper_list_eql(h, items, other, 0, fuel);
                }
            }
        },
        ListFn::Add | ListFn::AddAssign => deeper_convert_arg(h, args, fn_name(RustFn::List(l)), AT_LIST@, Kind::List, fuel),
        _ => {},
    }
}

/// A call that does not run out of depth gives the same heap and the same
/// result with any greater depth: the limit only ever cuts a call short.
pub proof fn law_depth_only_cuts_off(h: Seq<EntryM>, obj: Object, name: Seq<char>, args: Seq<Object>, fuel: nat, more: nat)
    requires
        not_limited(sem_call_attr(h, obj, name, args, fuel).1),
        fuel <= more,
    ensures
        sem_call_attr(h, obj, name, args, more) == sem_call_attr(h, obj, name, args, fuel),
    decreases more - fuel,
{
    if fuel < more {
        deeper_call_attr(h, obj, name, args, fuel);
        law_depth_only_cuts_off(h, obj, name, args, fuel + 1, more);
    }
}

} // verus!
