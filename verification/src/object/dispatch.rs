//! Calling attributes: finding what a name refers to and running it.
//!
//! Every function here does what the function of the same name in
//! [`crate::object::semantics`] says, for the same `fuel`.

use vstd::prelude::*;
use crate::error::{Error, ErrorM, result_view};
use crate::object::heap::{Object, Kind, Data, Heap, assoc_get, find_from, lemma_find_from};
use crate::object::literal::consts::{
    ASSIGN, INDEX, INDEX_ASSIGN, ADD, ADD_ASSIGN, AND, ATTR_DEL, ATTR_GET, ATTR_HAS, ATTR_SET, AT_BOOL,
    AT_LIST, AT_MAP, AT_NUM, AT_TEXT, AT_VAR, B_AND, B_OR, B_XOR, B_LSH, B_RSH, CALL, CMP, COLON_COLON, DIV, EQL,
    GEQ, GTH, LEQ, LTH, L_CLONE, L_ID, L_LEN, L_POP, L_PUSH, MOD, MUL, NEG, NEQ, NOT, OR, POS, POW,
    STRICT_EQL, STRICT_NEQ, SUB, ARROW_RIGHT, ARROW_LEFT,
};
use crate::object::semantics::{
    Found, Outcome, AttrKey, resolve, basic_table, pristine_table, type_table, getarg, key_arg,
    key_of, own_get, missing, sem_get, sem_call,
    sem_call_attr, sem_convert, sem_convert_arg, sem_then_not, sem_apply, sem_basic, sem_pristine,
    sem_access, sem_bound, sem_function, sem_index_args, sem_null, sem_boolean, sem_num, sem_text, sem_list, sem_list_eql, sem_list_text,
};
use crate::object::types::rustfn::{RustFn, RustFnFn, NAME};
use crate::object::types::basic::BasicFn;
use crate::object::types::pristine::PristineFn;
use crate::object::types::boolean::BooleanFn;
use crate::object::types::null::NullFn;
use crate::object::types::num::NumFn;
use crate::object::types::text::{TextFn, Span, span_exec, str_equal, ZERO_INDEX};
use crate::object::types::variable::VariableFn;
use crate::object::types::list::{ListFn, join_texts, lemma_items_held};
use crate::object::typed::bound::{BoundFn, FUNC, PARENT, KEY};
use crate::object::types::{boolean, null, num, text, variable, list};
use crate::object::types::{Num, Text};

verus! {

/// A table of native functions as names paired with functions.
pub open spec fn table_view(t: Seq<(&'static str, RustFn)>) -> Seq<(Seq<char>, RustFn)> {
    t.map_values(|p: (&'static str, RustFn)| (p.0@, p.1))
}

/// No entry of the table is a constant function.
pub open spec fn natives_only(t: Seq<(Seq<char>, RustFn)>) -> bool {
    forall|i: int| 0 <= i < t.len() ==> !((#[trigger] t[i]).1 is Const)
}

/// The tables of native methods hold no constant functions.
proof fn lemma_tables_native(k: Kind)
    ensures
        natives_only(type_table(k)),
        natives_only(basic_table()),
        natives_only(pristine_table()),
{
}

/// The function that `name` is paired with first in `t`.
fn find_fn(t: &Vec<(&'static str, RustFn)>, name: &str) -> (r: Option<RustFn>)
    requires
        natives_only(table_view(t@)),
    ensures
        r == assoc_get(table_view(t@), name@),
        r matches Some(f) ==> !(f is Const),
{
    let ghost tv = table_view(t@);
    let mut i: usize = 0;
    while i < t.len()
        invariant
            i <= t@.len(),
            tv == table_view(t@),
            natives_only(tv),
            find_from(tv, name@, 0) == find_from(tv, name@, i as int),
        decreases t@.len() - i,
    {
        if str_equal(t[i].0, name) {
            assert(tv[i as int].0 == name@);
            assert(!(tv[i as int].1 is Const));
            return Some(t[i].1);
        }
        assert(tv[i as int].0 != name@);
        i = i + 1;
    }
    None
}

/// The methods every object has.
fn basic_methods() -> (r: Vec<(&'static str, RustFn)>)
    ensures
        table_view(r@) == basic_table(),
{
    let mut t: Vec<(&'static str, RustFn)> = Vec::new();
    t.push((STRICT_EQL, RustFn::Basic(BasicFn::StrictEql)));
    t.push((STRICT_NEQ, RustFn::Basic(BasicFn::StrictNeq)));
    t.push((AT_BOOL, RustFn::Basic(BasicFn::AtBool)));
    t.push((L_CLONE, RustFn::Basic(BasicFn::Clone)));
    t.push((EQL, RustFn::Basic(BasicFn::Eql)));
    t.push((NEQ, RustFn::Basic(BasicFn::Neq)));
    t.push((ARROW_RIGHT, RustFn::Basic(BasicFn::ArrowRight)));
    t.push((NOT, RustFn::Basic(BasicFn::Not)));
    t.push((AND, RustFn::Basic(BasicFn::And)));
    t.push((OR, RustFn::Basic(BasicFn::Or)));
    assert(table_view(t@) =~= basic_table());
    t
}

/// The methods that reach an object's own attributes.
fn pristine_methods() -> (r: Vec<(&'static str, RustFn)>)
    ensures
        table_view(r@) == pristine_table(),
{
    let mut t: Vec<(&'static str, RustFn)> = Vec::new();
    t.push((L_ID, RustFn::Pristine(PristineFn::Id)));
    t.push((COLON_COLON, RustFn::Pristine(PristineFn::ColonColon)));
    t.push((ATTR_GET, RustFn::Pristine(PristineFn::Access)));
    t.push((ATTR_SET, RustFn::Pristine(PristineFn::AccessAssign)));
    t.push((ATTR_DEL, RustFn::Pristine(PristineFn::AccessDelete)));
    t.push((ATTR_HAS, RustFn::Pristine(PristineFn::AccessHas)));
    assert(table_view(t@) =~= pristine_table());
    t
}

/// The methods of values of kind `k`.
pub fn type_methods(k: Kind) -> (r: Vec<(&'static str, RustFn)>)
    ensures
        table_view(r@) == type_table(k),
{
    let mut t: Vec<(&'static str, RustFn)> = Vec::new();
    match k {
        Kind::Boolean => {
            t.push((AT_BOOL, RustFn::Boolean(BooleanFn::AtBool)));
            t.push((AT_NUM, RustFn::Boolean(BooleanFn::AtNum)));
            t.push((AT_TEXT, RustFn::Boolean(BooleanFn::AtText)));
            t.push((NOT, RustFn::Boolean(BooleanFn::Not)));
            t.push((EQL, RustFn::Boolean(BooleanFn::Eql)));
            t.push((B_XOR, RustFn::Boolean(BooleanFn::Xor)));
            t.push((B_AND, RustFn::Boolean(BooleanFn::And)));
            t.push((B_OR, RustFn::Boolean(BooleanFn::Or)));
        },
        Kind::Null => {
            t.push((AT_TEXT, RustFn::Null(NullFn::AtText)));
            t.push((AT_BOOL, RustFn::Null(NullFn::AtBool)));
            t.push((AT_NUM, RustFn::Null(NullFn::AtNum)));
            t.push((AT_LIST, RustFn::Null(NullFn::AtList)));
            t.push((AT_MAP, RustFn::Null(NullFn::AtMap)));
            t.push((EQL, RustFn::Null(NullFn::Eql)));
            t.push((CALL, RustFn::Null(NullFn::Call)));
        },
        Kind::Num => {
            t.push((AT_NUM, RustFn::Num(NumFn::AtNum)));
            t.push((AT_BOOL, RustFn::Num(NumFn::AtBool)));
            t.push((AT_TEXT, RustFn::Num(NumFn::AtText)));
            t.push((ADD, RustFn::Num(NumFn::Add)));
            t.push((SUB, RustFn::Num(NumFn::Sub)));
            t.push((MUL, RustFn::Num(NumFn::Mul)));
            t.push((DIV, RustFn::Num(NumFn::Div)));
            t.push((MOD, RustFn::Num(NumFn::Mod)));
            t.push((POW, RustFn::Num(NumFn::Pow)));
            t.push((EQL, RustFn::Num(NumFn::Eql)));
            t.push((NEQ, RustFn::Num(NumFn::Neq)));
            t.push((LTH, RustFn::Num(NumFn::Lth)));
            t.push((LEQ, RustFn::Num(NumFn::Leq)));
            t.push((GTH, RustFn::Num(NumFn::Gth)));
            t.push((GEQ, RustFn::Num(NumFn::Geq)));
            t.push((CMP, RustFn::Num(NumFn::Cmp)));
            t.push((B_AND, RustFn::Num(NumFn::BitAnd)));
            t.push((B_OR, RustFn::Num(NumFn::BitOr)));
            t.push((B_XOR, RustFn::Num(NumFn::BitXor)));
            t.push((B_LSH, RustFn::Num(NumFn::Shl)));
            t.push((B_RSH, RustFn::Num(NumFn::Shr)));
            t.push((POS, RustFn::Num(NumFn::Pos)));
            t.push((NEG, RustFn::Num(NumFn::Neg)));
        },
        Kind::Text => {
            t.push((AT_TEXT, RustFn::Text(TextFn::AtText)));
            t.push((AT_VAR, RustFn::Text(TextFn::AtVar)));
            t.push((AT_BOOL, RustFn::Text(TextFn::AtBool)));
            t.push((AT_NUM, RustFn::Text(TextFn::AtNum)));
            t.push((EQL, RustFn::Text(TextFn::Eql)));
            t.push((ADD, RustFn::Text(TextFn::Add)));
            t.push((ADD_ASSIGN, RustFn::Text(TextFn::AddAssign)));
            t.push((MUL, RustFn::Text(TextFn::Mul)));
            t.push((L_LEN, RustFn::Text(TextFn::Len)));
            t.push((INDEX, RustFn::Text(TextFn::Index)));
            t.push((INDEX_ASSIGN, RustFn::Text(TextFn::IndexAssign)));
        },
        Kind::Variable => {
            t.push((AT_VAR, RustFn::Variable(VariableFn::AtVar)));
        },
        Kind::RustFn => {
            t.push((CALL, RustFn::Function(RustFnFn::Call)));
            t.push((NAME, RustFn::Function(RustFnFn::Name)));
        },
        Kind::Bound => {
            t.push((CALL, RustFn::Bound(BoundFn::Call)));
            t.push((FUNC, RustFn::Bound(BoundFn::Func)));
            t.push((PARENT, RustFn::Bound(BoundFn::Parent)));
            t.push((KEY, RustFn::Bound(BoundFn::Key)));
            t.push((ASSIGN, RustFn::Bound(BoundFn::Assign)));
        },
        Kind::List => {
            t.push((AT_LIST, RustFn::List(ListFn::AtList)));
            t.push((AT_BOOL, RustFn::List(ListFn::AtBool)));
            t.push((AT_TEXT, RustFn::List(ListFn::AtText)));
            t.push((EQL, RustFn::List(ListFn::Eql)));
            t.push((ADD, RustFn::List(ListFn::Add)));
            t.push((ADD_ASSIGN, RustFn::List(ListFn::AddAssign)));
            t.push((L_LEN, RustFn::List(ListFn::Len)));
            t.push((L_PUSH, RustFn::List(ListFn::Push)));
            t.push((L_POP, RustFn::List(ListFn::Pop)));
        },
        _ => {},
    }
    assert(table_view(t@) =~= type_table(k));
    t
}

/// Where the attribute `name` of `obj` is found.
pub fn resolve_exec(heap: &Heap, obj: Object, name: &str) -> (r: Found)
    requires
        heap.wf(),
        heap.holds(obj),
    ensures
        r == resolve(heap@, obj, name@),
        r matches Found::Own(v) ==> heap.holds(v),
        r matches Found::Native(f) ==> !(f is Const),
{
    let key = String::from_str(name);
    match heap.entry(obj).get(&key) {
        Some(v) => {
            proof {
                let e = heap@[obj.id as int];
                assert(e.refs_below(heap@.len()));
                lemma_find_from(e.attrs, name@, 0);
            }
            Found::Own(v)
        },
        None => {
            proof {
                lemma_tables_native(heap@[obj.id as int].value.kind());
            }
            let k = heap.kind(obj);
            match find_fn(&type_methods(k), name) {
                Some(f) => Found::Native(f),
                None => match find_fn(&basic_methods(), name) {
                    Some(f) => Found::Native(f),
                    None => match find_fn(&pristine_methods(), name) {
                        Some(f) => Found::Native(f),
                        None => Found::Missing,
                    },
                },
            }
        },
    }
}

/// The argument at `pos`, or the error that it is missing.
pub fn getarg_exec(args: &[Object], pos: usize, func: &str) -> (r: Result<Object, Error>)
    ensures
        result_view(r) == getarg(args@, pos as nat, func@),
{
    if pos < args.len() {
        Ok(args[pos])
    } else {
        Err(Error::MissingArgument { func: String::from_str(func), pos })
    }
}

/// An attribute key: the name a variable holds, or another object.
pub enum Key {
    Name(String),
    Obj(Object),
}

impl View for Key {
    type V = AttrKey;

    open spec fn view(&self) -> AttrKey {
        match self {
            Key::Name(n) => AttrKey::Name(n@),
            Key::Obj(o) => AttrKey::Obj(*o),
        }
    }
}

/// The key that `key` stands for.
pub fn key_exec(heap: &Heap, key: Object) -> (r: Key)
    requires
        heap.holds(key),
    ensures
        r@ == key_of(heap@, key),
{
    match heap.value(key) {
        Data::Variable(v) => Key::Name(v.literal().to_text()),
        _ => Key::Obj(key),
    }
}

/// The attribute key that the argument at `pos` stands for.
pub fn key_arg_exec(heap: &Heap, args: &[Object], pos: usize, func: &str) -> (r: Result<Key, Error>)
    requires
        heap.wf(),
        forall|i: int| 0 <= i < args@.len() ==> heap.holds(#[trigger] args@[i]),
    ensures
        match (r, key_arg(heap@, args@, pos as nat, func@)) {
            (Ok(k), Ok(k2)) => k@ == k2,
            (Err(e), Err(e2)) => e@ == e2,
            _ => false,
        },
        r matches Ok(Key::Obj(o)) ==> heap.holds(o),
{
    match getarg_exec(args, pos, func) {
        Err(e) => Err(e),
        Ok(a) => Ok(key_exec(heap, a)),
    }
}

/// `obj`'s own attribute under `k`.
pub fn own_get_exec(heap: &Heap, obj: Object, k: &Key) -> (r: Option<Object>)
    requires
        heap.wf(),
        heap.holds(obj),
    ensures
        r == own_get(heap@[obj.id as int], k@),
        r matches Some(o) ==> heap.holds(o),
{
    let e = heap.entry(obj);
    proof {
        let em = heap@[obj.id as int];
        assert(em.refs_below(heap@.len()));
        match k@ {
            AttrKey::Name(n) => lemma_find_from(em.attrs, n, 0),
            AttrKey::Obj(o) => lemma_find_from(em.keyed, o, 0),
        }
    }
    match k {
        Key::Name(n) => e.get(n),
        Key::Obj(o) => e.get_keyed(*o),
    }
}

/// The error that `obj` has nothing under `k`.
pub fn missing_exec(k: Key, obj: Object) -> (r: Error)
    ensures
        r@ == missing(k@, obj),
{
    match k {
        Key::Name(n) => Error::AttrMissing { attr: n, obj },
        Key::Obj(o) => Error::MissingKey { key: o, obj },
    }
}

/// The attribute of `obj` under `k`.
pub fn get_exec(heap: &mut Heap, obj: Object, k: &Key) -> (r: Result<Object, Error>)
    requires
        old(heap).wf(),
        old(heap).holds(obj),
    ensures
        runs_as(old(heap), final(heap), r, sem_get(old(heap)@, obj, k@)),
{
    match k {
        Key::Name(n) => access_exec(heap, obj, n.as_str()),
        Key::Obj(o) => match own_get_exec(heap, obj, k) {
            Some(v) => Ok(v),
            None => Err(Error::MissingKey { key: *o, obj }),
        },
    }
}

/// Calls the attribute of `obj` under the key `attr`, nesting calls at most
/// `fuel` deep.
pub fn call_key_fuel(heap: &mut Heap, obj: Object, attr: Object, args: &[Object], fuel: u64) -> (r: Result<Object, Error>)
    requires
        old(heap).wf(),
        old(heap).holds(obj),
        old(heap).holds(attr),
        holds_all(old(heap), args@),
    ensures
        runs_as(old(heap), final(heap), r, sem_call(old(heap)@, obj, attr, args@, fuel as nat)),
{
    let k = key_exec(heap, attr);
    match k {
        Key::Name(n) => call_attr_fuel(heap, obj, n.as_str(), args, fuel),
        Key::Obj(_) => match own_get_exec(heap, obj, &k) {
            None => Err(Error::MissingKey { key: attr, obj }),
            Some(v) => {
                let own = match heap.value(v) {
                    Data::RustFn(f) => Some(*f),
                    _ => None,
                };
                match own {
                    Some(f) => {
                        proof {
                            assert(heap@[v.id as int].refs_below(heap@.len()));
                        }
                        apply_fuel(heap, f, obj, args, fuel)
                    },
                    None => {
                        if fuel == 0 {
                            Err(Error::RecursionLimit)
                        } else {
                            let with_self = prepend(obj, args);
                            call_attr_fuel(heap, v, CALL, with_self.as_slice(), fuel - 1)
                        }
                    },
                }
            },
        },
    }
}


/// Every object of `s` is in the heap.
pub open spec fn holds_all(heap: &Heap, s: Seq<Object>) -> bool {
    forall|i: int| 0 <= i < s.len() ==> heap.holds(#[trigger] s[i])
}

/// A call that changed the heap from `before` to `after` and returned `r`
/// did what `o` says, kept the heap consistent, took nothing away from
/// it, and returned an object of it.
pub open spec fn runs_as(before: &Heap, after: &Heap, r: Result<Object, Error>, o: Outcome) -> bool {
    &&& (after@, result_view(r)) == o
    &&& after.wf()
    &&& before@.len() <= after@.len()
    &&& r matches Ok(x) ==> after.holds(x)
}

/// A vector holding only `o`.
fn single(o: Object) -> (r: Vec<Object>)
    ensures
        r@ == seq![o],
{
    let mut v: Vec<Object> = Vec::new();
    v.push(o);
    assert(v@ =~= seq![o]);
    v
}

/// `o` followed by the objects of `args`.
fn prepend(o: Object, args: &[Object]) -> (r: Vec<Object>)
    ensures
        r@ == seq![o] + args@,
{
    let mut v: Vec<Object> = Vec::new();
    v.push(o);
    let mut i: usize = 0;
    while i < args.len()
        invariant
            i <= args@.len(),
            v@ == seq![o] + args@.take(i as int),
        decreases args@.len() - i,
    {
        v.push(args[i]);
        assert(args@.take(i as int + 1) =~= args@.take(i as int).push(args@[i as int]));
        i = i + 1;
    }
    assert(args@.take(i as int) =~= args@);
    v
}

/// Calls the attribute `name` of `obj` with `args`, nesting calls at most
/// `fuel` deep.
pub fn call_attr_fuel(heap: &mut Heap, obj: Object, name: &str, args: &[Object], fuel: u64) -> (r: Result<Object, Error>)
    requires
        old(heap).wf(),
        old(heap).holds(obj),
        holds_all(old(heap), args@),
    ensures
        runs_as(old(heap), final(heap), r, sem_call_attr(old(heap)@, obj, name@, args@, fuel as nat)),
    decreases fuel, 1nat, 0nat,
{
    match resolve_exec(heap, obj, name) {
        Found::Native(f) => apply_fuel(heap, f, obj, args, fuel),
        Found::Own(v) => {
            let own = match heap.value(v) {
                Data::RustFn(f) => Some(*f),
                _ => None,
            };
            match own {
                Some(f) => {
                    proof {
                        assert(heap@[v.id as int].refs_below(heap@.len()));
                    }
                    apply_fuel(heap, f, obj, args, fuel)
                },
                None => {
                    if fuel == 0 {
                        Err(Error::RecursionLimit)
                    } else {
                        let with_self = prepend(obj, args);
                        call_attr_fuel(heap, v, CALL, with_self.as_slice(), fuel - 1)
                    }
                },
            }
        },
        Found::Missing => Err(Error::AttrMissing { attr: String::from_str(name), obj }),
    }
}

/// Calls the conversion `conv` of `obj` and checks that the result is of kind `k`.
pub fn convert_fuel(heap: &mut Heap, obj: Object, conv: &str, k: Kind, fuel: u64) -> (r: Result<Object, Error>)
    requires
        old(heap).wf(),
        old(heap).holds(obj),
    ensures
        runs_as(old(heap), final(heap), r, sem_convert(old(heap)@, obj, conv@, k, fuel as nat)),
        r matches Ok(o) ==> final(heap)@[o.id as int].value.kind() == k,
    decreases fuel, 2nat, 0nat,
{
    let none: Vec<Object> = Vec::new();
    match call_attr_fuel(heap, obj, conv, none.as_slice(), fuel) {
        Err(e) => Err(e),
        Ok(o) => if heap.kind(o) == k {
            Ok(o)
        } else {
            Err(Error::CastError { obj: o, expected: k })
        },
    }
}

/// Converts the argument at 0 with `conv` to kind `k`.
pub fn convert_arg_fuel(heap: &mut Heap, args: &[Object], func: &str, conv: &str, k: Kind, fuel: u64) -> (r: Result<Object, Error>)
    requires
        old(heap).wf(),
        holds_all(old(heap), args@),
    ensures
        runs_as(old(heap), final(heap), r, sem_convert_arg(old(heap)@, args@, func@, conv@, k, fuel as nat)),
        r matches Ok(o) ==> final(heap)@[o.id as int].value.kind() == k,
    decreases fuel, 3nat, 0nat,
{
    match getarg_exec(args, 0, func) {
        Err(e) => Err(e),
        Ok(a) => convert_fuel(heap, a, conv, k, fuel),
    }
}

/// Calls `name` on `obj`, then `!` on what that returned.
pub fn then_not_fuel(heap: &mut Heap, obj: Object, name: &str, args: &[Object], fuel: u64) -> (r: Result<Object, Error>)
    requires
        old(heap).wf(),
        old(heap).holds(obj),
        holds_all(old(heap), args@),
    ensures
        runs_as(old(heap), final(heap), r, sem_then_not(old(heap)@, obj, name@, args@, fuel as nat)),
    decreases fuel, 3nat, 0nat,
{
    let none: Vec<Object> = Vec::new();
    match call_attr_fuel(heap, obj, name, args, fuel) {
        Err(e) => Err(e),
        Ok(o) => call_attr_fuel(heap, o, NOT, none.as_slice(), fuel),
    }
}

/// Runs the native function `f` with receiver `this`.
pub fn apply_fuel(heap: &mut Heap, f: RustFn, this: Object, args: &[Object], fuel: u64) -> (r: Result<Object, Error>)
    requires
        old(heap).wf(),
        old(heap).holds(this),
        holds_all(old(heap), args@),
        f matches RustFn::Const(o) ==> old(heap).holds(o),
    ensures
        runs_as(old(heap), final(heap), r, sem_apply(old(heap)@, f, this, args@, fuel as nat)),
    decreases fuel, 0nat, 0nat,
{
    if fuel == 0 {
        return Err(Error::RecursionLimit);
    }
    let g = fuel - 1;
    let k = heap.kind(this);
    match f {
        RustFn::Basic(b) => basic_fuel(heap, b, this, args, g),
        RustFn::Pristine(p) => pristine_exec(heap, p, this, args),
        RustFn::Boolean(b) => if k == Kind::Boolean {
            boolean_fuel(heap, b, this, args, g)
        } else {
            Err(Error::CastError { obj: this, expected: Kind::Boolean })
        },
        RustFn::Null(n) => if k == Kind::Null {
            null_exec(heap, n, this, args)
        } else {
            Err(Error::CastError { obj: this, expected: Kind::Null })
        },
        RustFn::Num(n) => if k == Kind::Num {
            num_fuel(heap, n, this, args, g)
        } else {
            Err(Error::CastError { obj: this, expected: Kind::Num })
        },
        RustFn::Text(t) => if k == Kind::Text {
            text_fuel(heap, t, this, args, g)
        } else {
            Err(Error::CastError { obj: this, expected: Kind::Text })
        },
        RustFn::Variable(v) => if k == Kind::Variable {
            Ok(variable::at_var(heap, this))
        } else {
            Err(Error::CastError { obj: this, expected: Kind::Variable })
        },
        RustFn::List(l) => if k == Kind::List {
            list_fuel(heap, l, this, args, g)
        } else {
            Err(Error::CastError { obj: this, expected: Kind::List })
        },
        RustFn::Function(m) => if k == Kind::RustFn {
            function_fuel(heap, m, this, args, g)
        } else {
            Err(Error::CastError { obj: this, expected: Kind::RustFn })
        },
        RustFn::Bound(b) => if k == Kind::Bound {
            bound_fuel(heap, b, this, args, g)
        } else {
            Err(Error::CastError { obj: this, expected: Kind::Bound })
        },
        RustFn::Const(o) => Ok(o),
        RustFn::Fail => Err(Error::Testing),
    }
}

/// The methods every object has.
pub fn basic_fuel(heap: &mut Heap, b: BasicFn, this: Object, args: &[Object], fuel: u64) -> (r: Result<Object, Error>)
    requires
        old(heap).wf(),
        old(heap).holds(this),
        holds_all(old(heap), args@),
    ensures
        runs_as(old(heap), final(heap), r, sem_basic(old(heap)@, b, this, args@, fuel as nat)),
    decreases fuel, 4nat, 0nat,
{
    let none: Vec<Object> = Vec::new();
    match b {
        BasicFn::StrictEql => match getarg_exec(args, 0, RustFn::Basic(b).name()) {
            Err(e) => Err(e),
            Ok(a) => Ok(boolean::new_boolean_in(heap, this.id == a.id)),
        },
        BasicFn::StrictNeq => then_not_fuel(heap, this, STRICT_EQL, args, fuel),
        BasicFn::AtBool => Ok(boolean::new_boolean_in(heap, true)),
        BasicFn::Clone => Ok(heap.copy_object(this)),
        BasicFn::Eql => call_attr_fuel(heap, this, STRICT_EQL, args, fuel),
        BasicFn::Neq => then_not_fuel(heap, this, EQL, args, fuel),
        BasicFn::ArrowRight => match getarg_exec(args, 0, RustFn::Basic(b).name()) {
            Err(e) => Err(e),
            Ok(a) => {
                let one = single(this);
                call_attr_fuel(heap, a, ARROW_LEFT, one.as_slice(), fuel)
            },
        },
        BasicFn::Not => match convert_fuel(heap, this, AT_BOOL, Kind::Boolean, fuel) {
            Err(e) => Err(e),
            Ok(o) => call_attr_fuel(heap, o, NOT, none.as_slice(), fuel),
        },
        BasicFn::And => match convert_fuel(heap, this, AT_BOOL, Kind::Boolean, fuel) {
            Err(e) => Err(e),
            Ok(o) => if boolean::value_of(heap, o) {
                getarg_exec(args, 0, RustFn::Basic(b).name())
            } else {
                Ok(this)
            },
        },
        BasicFn::Or => match convert_fuel(heap, this, AT_BOOL, Kind::Boolean, fuel) {
            Err(e) => Err(e),
            Ok(o) => if boolean::value_of(heap, o) {
                Ok(this)
            } else {
                getarg_exec(args, 0, RustFn::Basic(b).name())
            },
        },
    }
}


/// The object that the attribute `name` of `obj` is: an own attribute
/// itself, or a new function object for a method.
pub fn access_exec(heap: &mut Heap, obj: Object, name: &str) -> (r: Result<Object, Error>)
    requires
        old(heap).wf(),
        old(heap).holds(obj),
    ensures
        runs_as(old(heap), final(heap), r, sem_access(old(heap)@, obj, name@)),
{
    match resolve_exec(heap, obj, name) {
        Found::Own(v) => Ok(v),
        Found::Native(f) => Ok(heap.new_object(Data::RustFn(f))),
        Found::Missing => Err(Error::AttrMissing { attr: String::from_str(name), obj }),
    }
}

/// The methods that reach an object's own attributes.
pub fn pristine_exec(heap: &mut Heap, p: PristineFn, this: Object, args: &[Object]) -> (r: Result<Object, Error>)
    requires
        old(heap).wf(),
        old(heap).holds(this),
        holds_all(old(heap), args@),
    ensures
        runs_as(old(heap), final(heap), r, sem_pristine(old(heap)@, p, this, args@)),
{
    match p {
        PristineFn::Id => Ok(heap.new_object(Data::Num(Num::new(this.id as i64)))),
        PristineFn::ColonColon => match key_arg_exec(heap, args, 0, RustFn::Pristine(p).name()) {
            Err(e) => Err(e),
            Ok(k) => match own_get_exec(heap, this, &k) {
                Some(v) => Ok(v),
                None => Err(missing_exec(k, this)),
            },
        },
        PristineFn::Access => match key_arg_exec(heap, args, 0, RustFn::Pristine(p).name()) {
            Err(e) => Err(e),
            Ok(k) => get_exec(heap, this, &k),
        },
        PristineFn::AccessAssign => match key_arg_exec(heap, args, 0, RustFn::Pristine(p).name()) {
            Err(e) => Err(e),
            Ok(k) => match getarg_exec(args, 1, RustFn::Pristine(p).name()) {
                Err(e) => Err(e),
                Ok(v) => {
                    match k {
                        Key::Name(n) => { heap.set_attr_of(this, n, v); },
                        Key::Obj(o) => { heap.set_keyed_of(this, o, v); },
                    }
                    Ok(v)
                },
            },
        },
        PristineFn::AccessDelete => match key_arg_exec(heap, args, 0, RustFn::Pristine(p).name()) {
            Err(e) => Err(e),
            Ok(k) => match own_get_exec(heap, this, &k) {
                None => Err(missing_exec(k, this)),
                Some(v) => {
                    match k {
                        Key::Name(n) => { heap.del_attr_of(this, &n); },
                        Key::Obj(o) => { heap.del_keyed_of(this, o); },
                    }
                    Ok(v)
                },
            },
        },
        PristineFn::AccessHas => match key_arg_exec(heap, args, 0, RustFn::Pristine(p).name()) {
            Err(e) => Err(e),
            Ok(k) => {
                let b = own_get_exec(heap, this, &k).is_some();
                Ok(boolean::new_boolean_in(heap, b))
            },
        },
    }
}

/// The arguments of `[]` and `[]=`, converted as [`sem_index_args`] says.
pub fn index_args_fuel(heap: &mut Heap, args: &[Object], func: &str, assign: bool, fuel: u64)
    -> (r: Result<(i64, Option<i64>, String), Error>)
    requires
        old(heap).wf(),
        holds_all(old(heap), args@),
    ensures
        final(heap)@ == sem_index_args(old(heap)@, args@, func@, assign, fuel as nat).0,
        match r {
            Ok((s, e, t)) => sem_index_args(old(heap)@, args@, func@, assign, fuel as nat).1
                == Ok::<(i64, Option<i64>, Seq<char>), ErrorM>((s, e, t@)),
            Err(e) => sem_index_args(old(heap)@, args@, func@, assign, fuel as nat).1
                == Err::<(i64, Option<i64>, Seq<char>), ErrorM>(e@),
        },
        final(heap).wf(),
        old(heap)@.len() <= final(heap)@.len(),
    decreases fuel, 3nat, 0nat,
{
    let a0 = match getarg_exec(args, 0, func) {
        Err(e) => return Err(e),
        Ok(a) => a,
    };
    let o0 = match convert_fuel(heap, a0, AT_NUM, Kind::Num, fuel) {
        Err(e) => return Err(e),
        Ok(o) => o,
    };
    let start = num::value_of(heap, o0);
    if (!assign && args.len() > 1) || (assign && args.len() >= 3) {
        let o1 = match convert_fuel(heap, args[1], AT_NUM, Kind::Num, fuel) {
            Err(e) => return Err(e),
            Ok(o) => o,
        };
        let end = num::value_of(heap, o1);
        if assign {
            match convert_fuel(heap, args[2], AT_TEXT, Kind::Text, fuel) {
                Err(e) => Err(e),
                Ok(o2) => Ok((start, Some(end), text::text_value(heap, o2))),
            }
        } else {
            Ok((start, Some(end), String::new()))
        }
    } else if assign {
        let pos: usize = if args.len() == 2 { 1 } else { 2 };
        match getarg_exec(args, pos, func) {
            Err(e) => Err(e),
            Ok(a) => match convert_fuel(heap, a, AT_TEXT, Kind::Text, fuel) {
                Err(e) => Err(e),
                Ok(o2) => Ok((start, None, text::text_value(heap, o2))),
            },
        }
    } else {
        Ok((start, None, String::new()))
    }
}

/// The objects of `args` after the first.
fn rest_of(args: &[Object]) -> (r: Vec<Object>)
    requires
        args@.len() >= 1,
    ensures
        r@ == args@.drop_first(),
{
    let mut v: Vec<Object> = Vec::new();
    let mut i: usize = 1;
    while i < args.len()
        invariant
            1 <= i <= args@.len(),
            v@ == args@.subrange(1, i as int),
        decreases args@.len() - i,
    {
        v.push(args[i]);
        i = i + 1;
        assert(v@ =~= args@.subrange(1, i as int));
    }
    assert(args@.subrange(1, i as int) =~= args@.drop_first());
    v
}

/// The methods of function objects; `this` holds a native function.
pub fn function_fuel(heap: &mut Heap, m: RustFnFn, this: Object, args: &[Object], fuel: u64) -> (r: Result<Object, Error>)
    requires
        old(heap).wf(),
        old(heap).holds(this),
        holds_all(old(heap), args@),
        old(heap)@[this.id as int].value is RustFn,
    ensures
        runs_as(old(heap), final(heap), r, sem_function(old(heap)@, m, this, args@, fuel as nat)),
    decreases fuel, 4nat, 0nat,
{
    let f = match heap.value(this) {
        Data::RustFn(f) => *f,
        _ => RustFn::Fail,
    };
    proof {
        assert(heap@[this.id as int].refs_below(heap@.len()));
    }
    match m {
        RustFnFn::Call => match getarg_exec(args, 0, RustFn::Function(m).name()) {
            Err(e) => Err(e),
            Ok(a) => {
                let rest = rest_of(args);
                apply_fuel(heap, f, a, rest.as_slice(), fuel)
            },
        },
        RustFnFn::Name => Ok(heap.new_object(Data::Text(Text::new(String::from_str(f.name()))))),
    }
}

/// The methods of bound objects; `this` holds a bound object.
pub fn bound_fuel(heap: &mut Heap, b: BoundFn, this: Object, args: &[Object], fuel: u64) -> (r: Result<Object, Error>)
    requires
        old(heap).wf(),
        old(heap).holds(this),
        holds_all(old(heap), args@),
        old(heap)@[this.id as int].value is Bound,
    ensures
        runs_as(old(heap), final(heap), r, sem_bound(old(heap)@, b, this, args@, fuel as nat)),
    decreases fuel, 4nat, 0nat,
{
    let (f, parent, key) = match heap.value(this) {
        Data::Bound(x) => (x.bound_func(), x.bound_parent(), x.bound_key()),
        _ => (None, this, this),
    };
    proof {
        assert(heap@[this.id as int].refs_below(heap@.len()));
    }
    match b {
        BoundFn::Call => match f {
            Some(o) => {
                let with_parent = prepend(parent, args);
                call_attr_fuel(heap, o, CALL, with_parent.as_slice(), fuel)
            },
            None => Ok(heap.new_object(Data::Null)),
        },
        BoundFn::Func => match f {
            Some(o) => Ok(o),
            None => Ok(heap.new_object(Data::Null)),
        },
        BoundFn::Parent => Ok(parent),
        BoundFn::Key => Ok(key),
        BoundFn::Assign => match getarg_exec(args, 0, RustFn::Bound(b).name()) {
            Err(e) => Err(e),
            Ok(v) => {
                match key_exec(heap, key) {
                    Key::Name(n) => { heap.set_attr_of(parent, n, v); },
                    Key::Obj(o) => { heap.set_keyed_of(parent, o, v); },
                }
                Ok(v)
            },
        },
    }
}

/// The methods of null; `this` holds null.
pub fn null_exec(heap: &mut Heap, n: NullFn, this: Object, args: &[Object]) -> (r: Result<Object, Error>)
    requires
        old(heap).wf(),
        old(heap).holds(this),
        old(heap)@[this.id as int].value is Null,
        holds_all(old(heap), args@),
    ensures
        runs_as(old(heap), final(heap), r, sem_null(old(heap)@, n, this, args@)),
{
    match n {
        NullFn::AtText => Ok(null::at_text(heap, this)),
        NullFn::AtBool => Ok(null::at_bool(heap, this)),
        NullFn::AtNum => Ok(null::at_num(heap, this)),
        NullFn::AtList => Ok(null::at_list(heap, this)),
        NullFn::AtMap => Ok(null::at_map(heap, this)),
        NullFn::Eql => match getarg_exec(args, 0, RustFn::Null(n).name()) {
            Err(e) => Err(e),
            Ok(a) => Ok(null::eql(heap, this, a)),
        },
        NullFn::Call => Ok(null::call(heap, this, args)),
    }
}

/// The methods of booleans; `this` holds a boolean.
pub fn boolean_fuel(heap: &mut Heap, b: BooleanFn, this: Object, args: &[Object], fuel: u64) -> (r: Result<Object, Error>)
    requires
        old(heap).wf(),
        old(heap).holds(this),
        old(heap)@[this.id as int].value is Boolean,
        holds_all(old(heap), args@),
    ensures
        runs_as(old(heap), final(heap), r, sem_boolean(old(heap)@, b, this, args@, fuel as nat)),
    decreases fuel, 4nat, 0nat,
{
    match b {
        BooleanFn::AtBool => Ok(boolean::at_bool(heap, this)),
        BooleanFn::AtNum => Ok(boolean::at_num(heap, this)),
        BooleanFn::AtText => Ok(boolean::at_text(heap, this)),
        BooleanFn::Not => Ok(boolean::not(heap, this)),
        _ => match getarg_exec(args, 0, RustFn::Boolean(b).name()) {
            Err(e) => Err(e),
            Ok(a) => match convert_fuel(heap, a, AT_BOOL, Kind::Boolean, fuel) {
                Err(e) => Err(e),
                Ok(o) => if heap.kind(this) == Kind::Boolean {
                    Ok(match b {
                        BooleanFn::Eql => boolean::eql(heap, this, o),
                        BooleanFn::Xor => boolean::b_xor(heap, this, o),
                        BooleanFn::And => boolean::b_and(heap, this, o),
                        _ => boolean::b_or(heap, this, o),
                    })
                } else {
                    Err(Error::CastError { obj: this, expected: Kind::Boolean })
                },
            },
        },
    }
}

/// The methods of numbers; `this` holds a number.
pub fn num_fuel(heap: &mut Heap, n: NumFn, this: Object, args: &[Object], fuel: u64) -> (r: Result<Object, Error>)
    requires
        old(heap).wf(),
        old(heap).holds(this),
        old(heap)@[this.id as int].value is Num,
        holds_all(old(heap), args@),
    ensures
        runs_as(old(heap), final(heap), r, sem_num(old(heap)@, n, this, args@, fuel as nat)),
    decreases fuel, 4nat, 0nat,
{
    match n {
        NumFn::AtNum => Ok(num::at_num(heap, this)),
        NumFn::AtBool => Ok(num::at_bool(heap, this)),
        NumFn::AtText => Ok(num::at_text(heap, this)),
        NumFn::Pos | NumFn::Neg => num::unary_op(heap, n, this),
        _ => match getarg_exec(args, 0, RustFn::Num(n).name()) {
            Err(e) => Err(e),
            Ok(a) => match convert_fuel(heap, a, AT_NUM, Kind::Num, fuel) {
                Err(e) => Err(e),
                Ok(o) => if heap.kind(this) == Kind::Num {
                    num::binary_op(heap, n, this, o)
                } else {
                    Err(Error::CastError { obj: this, expected: Kind::Num })
                },
            },
        },
    }
}

/// The methods of texts; `this` holds a text.
pub fn text_fuel(heap: &mut Heap, t: TextFn, this: Object, args: &[Object], fuel: u64) -> (r: Result<Object, Error>)
    requires
        old(heap).wf(),
        old(heap).holds(this),
        old(heap)@[this.id as int].value is Text,
        holds_all(old(heap), args@),
    ensures
        runs_as(old(heap), final(heap), r, sem_text(old(heap)@, t, this, args@, fuel as nat)),
    decreases fuel, 4nat, 0nat,
{
    match t {
        TextFn::AtText => Ok(text::at_text(heap, this)),
        TextFn::AtVar => Ok(text::at_var(heap, this)),
        TextFn::AtBool => Ok(text::at_bool(heap, this)),
        TextFn::AtNum => text::at_num(heap, this),
        TextFn::Eql => match getarg_exec(args, 0, RustFn::Text(t).name()) {
            Err(e) => Err(e),
            Ok(a) => Ok(text::eql(heap, this, a)),
        },
        TextFn::Len => Ok(text::len(heap, this)),
        TextFn::Add => match convert_arg_fuel(heap, args, RustFn::Text(t).name(), AT_TEXT, Kind::Text, fuel) {
            Err(e) => Err(e),
            Ok(o) => if heap.kind(this) == Kind::Text {
                Ok(text::add(heap, this, o))
            } else {
                Err(Error::CastError { obj: this, expected: Kind::Text })
            },
        },
        TextFn::AddAssign => match convert_arg_fuel(heap, args, RustFn::Text(t).name(), AT_TEXT, Kind::Text, fuel) {
            Err(e) => Err(e),
            Ok(o) => if heap.kind(this) == Kind::Text {
                Ok(text::add_assign(heap, this, o))
            } else {
                Err(Error::CastError { obj: this, expected: Kind::Text })
            },
        },
        TextFn::Index => match index_args_fuel(heap, args, RustFn::Text(t).name(), false, fuel) {
            Err(e) => Err(e),
            Ok((start, end, _)) => if heap.kind(this) == Kind::Text {
                let s = text::text_value(heap, this);
                let n = s.as_str().unicode_len();
                match span_exec(start, end, n) {
                    Span::Zero => Err(Error::BadArgument { pos: 0, msg: String::from_str(ZERO_INDEX) }),
                    Span::Outside => Ok(heap.new_object(Data::Null)),
                    Span::Within(lo, hi) => {
                        let part = String::from_str(s.as_str().substring_char(lo, hi));
                        Ok(heap.new_object(Data::Text(Text::new(part))))
                    },
                }
            } else {
                Err(Error::CastError { obj: this, expected: Kind::Text })
            },
        },
        TextFn::IndexAssign => match index_args_fuel(heap, args, RustFn::Text(t).name(), true, fuel) {
            Err(e) => Err(e),
            Ok((start, end, ins)) => if heap.kind(this) == Kind::Text {
                let s = text::text_value(heap, this);
                let n = s.as_str().unicode_len();
                match span_exec(start, end, n) {
                    Span::Zero => Err(Error::BadArgument { pos: 0, msg: String::from_str(ZERO_INDEX) }),
                    Span::Outside => Ok(heap.new_object(Data::Null)),
                    Span::Within(lo, hi) => {
                        let mut out = String::from_str(s.as_str().substring_char(0, lo));
                        out.append(ins.as_str());
                        out.append(s.as_str().substring_char(hi, n));
                        heap.set_text(this, out);
                        Ok(this)
                    },
                }
            } else {
                Err(Error::CastError { obj: this, expected: Kind::Text })
            },
        },
        TextFn::Mul => match convert_arg_fuel(heap, args, RustFn::Text(t).name(), AT_NUM, Kind::Num, fuel) {
            Err(e) => Err(e),
            Ok(o) => if heap.kind(this) == Kind::Text {
                text::mul(heap, this, o)
            } else {
                Err(Error::CastError { obj: this, expected: Kind::Text })
            },
        },
    }
}


/// The texts of a vector of strings.
pub open spec fn texts_view(v: Seq<String>) -> Seq<Seq<char>> {
    v.map_values(|s: String| s@)
}

/// The texts of `texts`, separated by `, ` and put between `[` and `]`.
fn bracket_join(texts: &Vec<String>) -> (r: String)
    ensures
        r@ == seq!['['] + join_texts(texts_view(texts@)) + seq![']'],
{
    let ghost t = texts_view(texts@);
    proof {
        reveal_strlit("[");
        reveal_strlit(", ");
        reveal_strlit("]");
    }
    let mut s = String::from_str("[");
    let mut i: usize = 0;
    while i < texts.len()
        invariant
            i <= texts@.len(),
            t == texts_view(texts@),
            s@ == seq!['['] + join_texts(t.take(i as int)),
        decreases texts@.len() - i,
    {
        let ghost before = s@;
        if i > 0 {
            s.append(", ");
        }
        s.append(texts[i].as_str());
        proof {
            reveal_strlit(", ");
            let next = t.take(i as int + 1);
            assert(next.drop_last() =~= t.take(i as int));
            assert(next.last() == texts@[i as int]@);
            assert(t[i as int] == texts@[i as int]@);
            assert(next[i as int] == t[i as int]);
            if i == 0 {
                assert(s@ == before + texts@[i as int]@);
                assert(join_texts(next) == next[0]);
                assert(t.take(0) =~= Seq::<Seq<char>>::empty());
                assert(join_texts(t.take(0)) =~= Seq::<char>::empty());
                assert(before =~= seq!['[']);
                assert(join_texts(next) == texts@[i as int]@);
                assert(s@ == seq!['['] + join_texts(next));
            } else {
                assert(join_texts(next) == join_texts(t.take(i as int)) + seq![',', ' '] + next.last());
                assert(s@ == before + seq![',', ' '] + texts@[i as int]@);
                assert(s@ =~= seq!['['] + join_texts(next));
            }
        }
        i = i + 1;
    }
    s.append("]");
    assert(t.take(i as int) =~= t);
    s
}

/// Compares two lists of equal length element by element, as `sem_list_eql` says.
pub fn list_eql_fuel(heap: &mut Heap, l: &Vec<Object>, r: &Vec<Object>, fuel: u64) -> (res: Result<bool, Error>)
    requires
        old(heap).wf(),
        holds_all(old(heap), l@),
        holds_all(old(heap), r@),
    ensures
        ({
            let (h2, sr) = sem_list_eql(old(heap)@, l@, r@, 0, fuel as nat);
            &&& final(heap)@ == h2
            &&& match (res, sr) {
                (Ok(b), Ok(b2)) => b == b2,
                (Err(e), Err(e2)) => e@ == e2,
                _ => false,
            }
        }),
        final(heap).wf(),
        old(heap)@.len() <= final(heap)@.len(),
    decreases fuel, 3nat, 0nat,
{
    let ghost h0 = heap@;
    let none: Vec<Object> = Vec::new();
    let mut i: usize = 0;
    while i < l.len() && i < r.len()
        invariant
            heap.wf(),
            h0 == old(heap)@,
            h0.len() <= heap@.len(),
            holds_all(heap, l@),
            holds_all(heap, r@),
            i <= l@.len(),
            none@ == Seq::<Object>::empty(),
            sem_list_eql(h0, l@, r@, 0, fuel as nat) == sem_list_eql(heap@, l@, r@, i as nat, fuel as nat),
        decreases l@.len() - i,
    {
        let one = single(r[i]);
        match call_attr_fuel(heap, l[i], EQL, one.as_slice(), fuel) {
            Err(e) => return Err(e),
            Ok(o) => match convert_fuel(heap, o, AT_BOOL, Kind::Boolean, fuel) {
                Err(e) => return Err(e),
                Ok(bo) => if !boolean::value_of(heap, bo) {
                    return Ok(false);
                },
            },
        }
        i = i + 1;
    }
    Ok(true)
}

/// Converts the objects of `items` with `@text`, as `sem_list_text` says.
pub fn list_text_fuel(heap: &mut Heap, items: &Vec<Object>, fuel: u64) -> (res: Result<Vec<String>, Error>)
    requires
        old(heap).wf(),
        holds_all(old(heap), items@),
    ensures
        ({
            let (h2, sr) = sem_list_text(old(heap)@, items@, 0, Seq::empty(), fuel as nat);
            &&& final(heap)@ == h2
            &&& match (res, sr) {
                (Ok(v), Ok(t)) => texts_view(v@) == t,
                (Err(e), Err(e2)) => e@ == e2,
                _ => false,
            }
        }),
        final(heap).wf(),
        old(heap)@.len() <= final(heap)@.len(),
    decreases fuel, 3nat, 0nat,
{
    let ghost h0 = heap@;
    let mut acc: Vec<String> = Vec::new();
    let mut i: usize = 0;
    assert(texts_view(acc@) =~= Seq::<Seq<char>>::empty());
    while i < items.len()
        invariant
            heap.wf(),
            h0 == old(heap)@,
            h0.len() <= heap@.len(),
            holds_all(heap, items@),
            i <= items@.len(),
            sem_list_text(h0, items@, 0, Seq::empty(), fuel as nat)
                == sem_list_text(heap@, items@, i as nat, texts_view(acc@), fuel as nat),
        decreases items@.len() - i,
    {
        match convert_fuel(heap, items[i], AT_TEXT, Kind::Text, fuel) {
            Err(e) => return Err(e),
            Ok(o) => {
                let ghost before = acc@;
                let s = text::text_value(heap, o);
                acc.push(s);
                assert(texts_view(acc@) =~= texts_view(before).push(heap@[o.id as int].value->Text_0));
            },
        }
        i = i + 1;
    }
    Ok(acc)
}

/// The methods of lists; `this` holds a list.
pub fn list_fuel(heap: &mut Heap, l: ListFn, this: Object, args: &[Object], fuel: u64) -> (r: Result<Object, Error>)
    requires
        old(heap).wf(),
        old(heap).holds(this),
        old(heap)@[this.id as int].value is List,
        holds_all(old(heap), args@),
    ensures
        runs_as(old(heap), final(heap), r, sem_list(old(heap)@, l, this, args@, fuel as nat)),
    decreases fuel, 4nat, 0nat,
{
    match l {
        ListFn::AtList => Ok(list::at_list(heap, this)),
        ListFn::AtBool => Ok(list::at_bool(heap, this)),
        ListFn::Len => Ok(list::len(heap, this)),
        ListFn::AtText => {
            let items = list::items_value(heap, this);
            proof {
                lemma_items_held(heap, this);
            }
            match list_text_fuel(heap, &items, fuel) {
                Err(e) => Err(e),
                Ok(texts) => {
                    let s = bracket_join(&texts);
                    Ok(heap.new_object(Data::Text(Text::new(s))))
                },
            }
        },
        ListFn::Eql => match getarg_exec(args, 0, RustFn::List(l).name()) {
            Err(e) => Err(e),
            Ok(a) => if heap.kind(a) == Kind::List {
                let mine = list::items_value(heap, this);
                let other = list::items_value(heap, a);
                proof {
                    lemma_items_held(heap, this);
                    lemma_items_held(heap, a);
                }
                if mine.len() != other.len() {
                    Ok(boolean::new_boolean_in(heap, false))
                } else {
                    match list_eql_fuel(heap, &mine, &other, fuel) {
                        Err(e) => Err(e),
                        Ok(b) => Ok(boolean::new_boolean_in(heap, b)),
                    }
                }
            } else {
                Err(Error::CastError { obj: a, expected: Kind::List })
            },
        },
        ListFn::Add => match convert_arg_fuel(heap, args, RustFn::List(l).name(), AT_LIST, Kind::List, fuel) {
            Err(e) => Err(e),
            Ok(o) => if heap.kind(this) == Kind::List {
                Ok(list::add(heap, this, o))
            } else {
                Err(Error::CastError { obj: this, expected: Kind::List })
            },
        },
        ListFn::AddAssign => match convert_arg_fuel(heap, args, RustFn::List(l).name(), AT_LIST, Kind::List, fuel) {
            Err(e) => Err(e),
            Ok(o) => if heap.kind(this) == Kind::List {
                let other = list::items_value(heap, o);
                proof {
                    lemma_items_held(heap, o);
                }
                heap.extend_list(this, &other);
                Ok(this)
            } else {
                Err(Error::CastError { obj: this, expected: Kind::List })
            },
        },
        ListFn::Push => match getarg_exec(args, 0, RustFn::List(l).name()) {
            Err(e) => Err(e),
            Ok(a) => Ok(list::push(heap, this, a)),
        },
        ListFn::Pop => Ok(list::pop(heap, this)),
    }
}

} // verus!
