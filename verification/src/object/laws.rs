//! Properties of the object model that hold for every heap and every object.

use vstd::prelude::*;
use crate::error::ErrorM;
use crate::object::heap::{Object, Kind, ValueM, EntryM, plain, assoc_get, assoc_set, assoc_del, assoc_find, find_from, unique_names, heap_ok};
use crate::object::literal::consts::{STRICT_EQL, STRICT_NEQ, EQL, NEQ, NOT, CALL, AT_TEXT, AT_BOOL};
use crate::object::semantics::{
    Found, fresh, resolve, basic_table, type_table, sem_call_attr, sem_apply, sem_basic, sem_boolean,
    sem_then_not, sem_pristine, sem_list, sem_access, AttrKey, key_of, own_get, sem_call,
    sem_list_text, sem_list_eql, method_of, sem_convert, sem_text, copy_of,
};
use crate::object::types::rustfn::RustFn;
use crate::object::types::basic::BasicFn;
use crate::object::types::boolean::BooleanFn;
use crate::object::types::pristine::PristineFn;
use crate::object::types::list::{ListFn, join_texts};
use crate::object::types::text::TextFn;
use crate::object::types::num::{NumFn, num_binary, abs, trunc_div, trunc_rem, int_text, nat_text, parse_num, digit_char, digit_value, is_digit, all_digits, digits_value};
use crate::object::types::text::repeat;
use crate::object::typed::oper::{Oper, Arity, arity_of, call_sigil_of, sem_oper_call};
use crate::object::typed::eval::{Token, sem_net, sem_eval, yields_to};

verus! {

/// A key that no entry of `t` from `i` on has is not found there.
pub proof fn lemma_find_absent<K, V>(t: Seq<(K, V)>, k: K, i: int)
    requires
        0 <= i,
        forall|j: int| i <= j < t.len() ==> (#[trigger] t[j]).0 != k,
    ensures
        find_from(t, k, i) == -1,
    decreases t.len() - i,
{
    if i < t.len() {
        lemma_find_absent(t, k, i + 1);
    }
}

/// The names of the built-in methods, spelled out.
pub(crate) proof fn lemma_method_names()
    ensures
        "==="@ =~= seq!['=', '=', '='],
        "!=="@ =~= seq!['!', '=', '='],
        "=="@ =~= seq!['=', '='],
        "@bool"@ =~= seq!['@', 'b', 'o', 'o', 'l'],
        "@num"@ =~= seq!['@', 'n', 'u', 'm'],
        "@text"@ =~= seq!['@', 't', 'e', 'x', 't'],
        "!"@ =~= seq!['!'],
        "^"@ =~= seq!['^'],
        "&"@ =~= seq!['&'],
        "|"@ =~= seq!['|'],
        "@list"@ =~= seq!['@', 'l', 'i', 's', 't'],
        "@map"@ =~= seq!['@', 'm', 'a', 'p'],
        "()"@ =~= seq!['(', ')'],
        "+"@ =~= seq!['+'],
        "-"@ =~= seq!['-'],
        "*"@ =~= seq!['*'],
        "/"@ =~= seq!['/'],
        "%"@ =~= seq!['%'],
        "**"@ =~= seq!['*', '*'],
        "!="@ =~= seq!['!', '='],
        "<"@ =~= seq!['<'],
        "<="@ =~= seq!['<', '='],
        ">"@ =~= seq!['>'],
        ">="@ =~= seq!['>', '='],
        "<=>"@ =~= seq!['<', '=', '>'],
        "<<"@ =~= seq!['<', '<'],
        ">>"@ =~= seq!['>', '>'],
        "@+"@ =~= seq!['@', '+'],
        "@-"@ =~= seq!['@', '-'],
        "@var"@ =~= seq!['@', 'v', 'a', 'r'],
        "+="@ =~= seq!['+', '='],
        "len"@ =~= seq!['l', 'e', 'n'],
        "push"@ =~= seq!['p', 'u', 's', 'h'],
        "pop"@ =~= seq!['p', 'o', 'p'],
        "and"@ =~= seq!['a', 'n', 'd'],
        "or"@ =~= seq!['o', 'r'],
        "->"@ =~= seq!['-', '>'],
        "clone"@ =~= seq!['c', 'l', 'o', 'n', 'e'],
        "__id__"@ =~= seq!['_', '_', 'i', 'd', '_', '_'],
        "::"@ =~= seq![':', ':'],
        "."@ =~= seq!['.'],
        ".="@ =~= seq!['.', '='],
        ".~"@ =~= seq!['.', '~'],
        ".?"@ =~= seq!['.', '?'],
        "="@ =~= seq!['='],
        "func"@ =~= seq!['f', 'u', 'n', 'c'],
        "parent"@ =~= seq!['p', 'a', 'r', 'e', 'n', 't'],
        "key"@ =~= seq!['k', 'e', 'y'],
        "name"@ =~= seq!['n', 'a', 'm', 'e'],
        "[]"@ =~= seq!['[', ']'],
        "[]="@ =~= seq!['[', ']', '='],
{
    reveal_strlit("===");
    reveal_strlit("!==");
    reveal_strlit("==");
    reveal_strlit("@bool");
    reveal_strlit("@num");
    reveal_strlit("@text");
    reveal_strlit("!");
    reveal_strlit("^");
    reveal_strlit("&");
    reveal_strlit("|");
    reveal_strlit("@list");
    reveal_strlit("@map");
    reveal_strlit("()");
    reveal_strlit("+");
    reveal_strlit("-");
    reveal_strlit("*");
    reveal_strlit("/");
    reveal_strlit("%");
    reveal_strlit("**");
    reveal_strlit("!=");
    reveal_strlit("<");
    reveal_strlit("<=");
    reveal_strlit(">");
    reveal_strlit(">=");
    reveal_strlit("<=>");
    reveal_strlit("<<");
    reveal_strlit(">>");
    reveal_strlit("@+");
    reveal_strlit("@-");
    reveal_strlit("@var");
    reveal_strlit("+=");
    reveal_strlit("len");
    reveal_strlit("push");
    reveal_strlit("pop");
    reveal_strlit("and");
    reveal_strlit("or");
    reveal_strlit("->");
    reveal_strlit("clone");
    reveal_strlit("__id__");
    reveal_strlit("::");
    reveal_strlit(".");
    reveal_strlit(".=");
    reveal_strlit(".~");
    reveal_strlit(".?");
    reveal_strlit("=");
    reveal_strlit("func");
    reveal_strlit("parent");
    reveal_strlit("key");
    reveal_strlit("name");
    reveal_strlit("[]");
    reveal_strlit("[]=");
}

/// A key at `i` and at no earlier index from `start` is found at `i`.
pub proof fn lemma_find_at<K, V>(t: Seq<(K, V)>, k: K, i: int, start: int)
    requires
        0 <= start <= i < t.len(),
        t[i].0 == k,
        forall|j: int| start <= j < i ==> (#[trigger] t[j]).0 != k,
    ensures
        find_from(t, k, start) == i,
    decreases i - start,
{
    if start < i {
        lemma_find_at(t, k, i, start + 1);
    }
}

/// No type has a method of its own named `===` or `!==`.
proof fn lemma_strict_names_untyped(k: Kind)
    ensures
        assoc_get(type_table(k), STRICT_EQL@) is None,
        assoc_get(type_table(k), STRICT_NEQ@) is None,
{
    lemma_method_names();
    let t = type_table(k);
    assert forall|j: int| 0 <= j < t.len() implies (#[trigger] t[j]).0 != STRICT_EQL@ by {
        assert(t[j].0.len() != 3 || t[j].0[0] != '=' || t[j].0[1] != '=');
    }
    assert forall|j: int| 0 <= j < t.len() implies (#[trigger] t[j]).0 != STRICT_NEQ@ by {
        assert(t[j].0.len() != 3 || t[j].0[0] != '!');
    }
    lemma_find_absent(t, STRICT_EQL@, 0);
    lemma_find_absent(t, STRICT_NEQ@, 0);
}

/// The methods every object has, found by name.
proof fn lemma_basic_names()
    ensures
        assoc_get(basic_table(), STRICT_EQL@) == Some(RustFn::Basic(BasicFn::StrictEql)),
        assoc_get(basic_table(), STRICT_NEQ@) == Some(RustFn::Basic(BasicFn::StrictNeq)),
        assoc_get(basic_table(), EQL@) == Some(RustFn::Basic(BasicFn::Eql)),
        assoc_get(basic_table(), NEQ@) == Some(RustFn::Basic(BasicFn::Neq)),
{
    lemma_method_names();
    let t = basic_table();
    assert(t[0].0 != STRICT_NEQ@) by { assert(t[0].0[0] != STRICT_NEQ@[0]); }
    lemma_find_at(t, STRICT_EQL@, 0, 0);
    lemma_find_at(t, STRICT_NEQ@, 1, 0);
    assert forall|j: int| 0 <= j < 4 implies (#[trigger] t[j]).0 != EQL@ by {
        assert(t[j].0.len() != 2);
    }
    lemma_find_at(t, EQL@, 4, 0);
    assert forall|j: int| 0 <= j < 5 implies (#[trigger] t[j]).0 != NEQ@ by {
        assert(t[j].0.len() != 2 || t[j].0[0] != '!');
    }
    lemma_find_at(t, NEQ@, 5, 0);
}

/// A boolean with no attributes of its own answers `!` with its negation.
proof fn lemma_boolean_not(h: Seq<EntryM>, o: Object, fuel: nat)
    requires
        0 <= o.id < h.len(),
        h[o.id as int] == plain(ValueM::Boolean(h[o.id as int].value->Boolean_0)),
        fuel >= 1,
    ensures
        sem_call_attr(h, o, NOT@, Seq::empty(), fuel)
            == fresh(h, ValueM::Boolean(!h[o.id as int].value->Boolean_0)),
{
    lemma_method_names();
    let t = type_table(Kind::Boolean);
    assert forall|j: int| 0 <= j < 3 implies (#[trigger] t[j]).0 != NOT@ by {
        assert(t[j].0.len() != 1);
    }
    lemma_find_at(t, NOT@, 3, 0);
    let f = RustFn::Boolean(BooleanFn::Not);
    assert(resolve(h, o, NOT@) == Found::Native(f));
    let v = h[o.id as int].value->Boolean_0;
    assert(sem_boolean(h, BooleanFn::Not, o, Seq::empty(), (fuel - 1) as nat) == fresh(h, ValueM::Boolean(!v)));
    assert(sem_apply(h, f, o, Seq::empty(), fuel) == fresh(h, ValueM::Boolean(!v)));
}

/// `===` is identity: an object that has no `===` of its own is strictly
/// equal to the first argument exactly when that argument is the object
/// itself; the answer is a new boolean, and nothing else changes.
pub proof fn law_strict_eql_is_identity(h: Seq<EntryM>, a: Object, b: Object, rest: Seq<Object>, fuel: nat)
    requires
        0 <= a.id < h.len(),
        assoc_get(h[a.id as int].attrs, STRICT_EQL@) is None,
        fuel >= 1,
    ensures
        sem_call_attr(h, a, STRICT_EQL@, seq![b] + rest, fuel) == fresh(h, ValueM::Boolean(a.id == b.id)),
{
    lemma_strict_names_untyped(h[a.id as int].value.kind());
    lemma_basic_names();
    let args = seq![b] + rest;
    assert(args[0] == b);
    let f = RustFn::Basic(BasicFn::StrictEql);
    assert(resolve(h, a, STRICT_EQL@) == Found::Native(f));
    assert(sem_basic(h, BasicFn::StrictEql, a, args, (fuel - 1) as nat) == fresh(h, ValueM::Boolean(a.id == b.id)));
    assert(sem_apply(h, f, a, args, fuel) == fresh(h, ValueM::Boolean(a.id == b.id)));
}

/// `!==` is the negation of `===`: for an object with neither of its own,
/// `!==` first makes the boolean that `===` gives, then its negation, which
/// it returns.
pub proof fn law_strict_neq_negates(h: Seq<EntryM>, a: Object, b: Object, rest: Seq<Object>, fuel: nat)
    requires
        0 <= a.id < h.len(),
        assoc_get(h[a.id as int].attrs, STRICT_EQL@) is None,
        assoc_get(h[a.id as int].attrs, STRICT_NEQ@) is None,
        h.len() < usize::MAX,
        fuel >= 2,
    ensures
        ({
            let (h1, first) = fresh(h, ValueM::Boolean(a.id == b.id));
            sem_call_attr(h, a, STRICT_NEQ@, seq![b] + rest, fuel) == fresh(h1, ValueM::Boolean(a.id != b.id))
        }),
{
    lemma_strict_names_untyped(h[a.id as int].value.kind());
    lemma_basic_names();
    let g = (fuel - 1) as nat;
    law_strict_eql_is_identity(h, a, b, rest, g);
    let (h1, first) = fresh(h, ValueM::Boolean(a.id == b.id));
    let o = Object { id: h.len() as usize };
    assert(first == Ok::<Object, ErrorM>(o));
    assert(h1[o.id as int] == plain(ValueM::Boolean(a.id == b.id)));
    lemma_boolean_not(h1, o, g);
    let args = seq![b] + rest;
    let f = RustFn::Basic(BasicFn::StrictNeq);
    assert(resolve(h, a, STRICT_NEQ@) == Found::Native(f));
    assert(sem_then_not(h, a, STRICT_EQL@, args, g) == fresh(h1, ValueM::Boolean(a.id != b.id)));
    assert(sem_basic(h, BasicFn::StrictNeq, a, args, g) == fresh(h1, ValueM::Boolean(a.id != b.id)));
    assert(sem_apply(h, f, a, args, fuel) == fresh(h1, ValueM::Boolean(a.id != b.id)));
}

/// `==` defaults to `===`: for an object whose type defines no `==` and
/// that has neither `==` nor `===` of its own, `==` is identity.
pub proof fn law_eql_defaults_to_identity(h: Seq<EntryM>, a: Object, b: Object, rest: Seq<Object>, fuel: nat)
    requires
        0 <= a.id < h.len(),
        assoc_get(h[a.id as int].attrs, EQL@) is None,
        assoc_get(h[a.id as int].attrs, STRICT_EQL@) is None,
        assoc_get(type_table(h[a.id as int].value.kind()), EQL@) is None,
        fuel >= 2,
    ensures
        sem_call_attr(h, a, EQL@, seq![b] + rest, fuel) == fresh(h, ValueM::Boolean(a.id == b.id)),
{
    lemma_basic_names();
    let g = (fuel - 1) as nat;
    law_strict_eql_is_identity(h, a, b, rest, g);
    let args = seq![b] + rest;
    let f = RustFn::Basic(BasicFn::Eql);
    assert(resolve(h, a, EQL@) == Found::Native(f));
    assert(sem_basic(h, BasicFn::Eql, a, args, g) == fresh(h, ValueM::Boolean(a.id == b.id)));
    assert(sem_apply(h, f, a, args, fuel) == fresh(h, ValueM::Boolean(a.id == b.id)));
}

/// `and` and `or` never make a new object: when they succeed they return
/// the object itself or their first argument.
pub proof fn law_and_or_return_an_operand(h: Seq<EntryM>, obj: Object, args: Seq<Object>, fuel: nat)
    ensures
        sem_basic(h, BasicFn::And, obj, args, fuel).1 matches Ok(o) ==> o == obj || (args.len() > 0 && o == args[0]),
        sem_basic(h, BasicFn::Or, obj, args, fuel).1 matches Ok(o) ==> o == obj || (args.len() > 0 && o == args[0]),
{
}

/// An attribute of the object's own hides every method of the same name:
/// if it is a native function, calling the name runs that function on the
/// object; otherwise it calls the attribute's `()`, with the object first.
pub proof fn law_own_attribute_overrides(h: Seq<EntryM>, obj: Object, name: Seq<char>, args: Seq<Object>, fuel: nat)
    requires
        0 <= obj.id < h.len(),
        assoc_get(h[obj.id as int].attrs, name) is Some,
    ensures
        ({
            let v = assoc_get(h[obj.id as int].attrs, name)->Some_0;
            sem_call_attr(h, obj, name, args, fuel) == match h[v.id as int].value {
                ValueM::RustFn(f) => sem_apply(h, f, obj, args, fuel),
                _ => if fuel == 0 {
                    (h, Err(ErrorM::RecursionLimit))
                } else {
                    sem_call_attr(h, v, CALL@, seq![obj] + args, (fuel - 1) as nat)
                },
            }
        }),
{
}

/// Two tables whose entries from `i` on have the key `k` at the same
/// places find `k` at the same place.
proof fn lemma_find_same<K, V>(t1: Seq<(K, V)>, t2: Seq<(K, V)>, k: K, i: int)
    requires
        0 <= i,
        t1.len() == t2.len(),
        forall|j: int| i <= j < t1.len() ==> ((#[trigger] t1[j]).0 == k) == (t2[j].0 == k),
    ensures
        find_from(t1, k, i) == find_from(t2, k, i),
    decreases t1.len() - i,
{
    if i < t1.len() {
        lemma_find_same(t1, t2, k, i + 1);
    }
}

/// What `find_from` finds: -1, or the first index from `i` on with key `k`.
proof fn lemma_find_from_any<K, V>(t: Seq<(K, V)>, k: K, i: int)
    requires
        0 <= i,
    ensures
        find_from(t, k, i) == -1 || (i <= find_from(t, k, i) < t.len() && t[find_from(t, k, i)].0 == k),
        forall|j: int| i <= j < t.len() && (find_from(t, k, i) == -1 || j < find_from(t, k, i))
            ==> (#[trigger] t[j]).0 != k,
    decreases t.len() - i,
{
    if i < t.len() && t[i].0 != k {
        lemma_find_from_any(t, k, i + 1);
    }
}

/// Setting a key and then reading it gives what was set; every other
/// key reads as before.
pub proof fn law_set_then_get<K, V>(t: Seq<(K, V)>, k: K, v: V, other: K)
    ensures
        assoc_get(assoc_set(t, k, v), k) == Some(v),
        other != k ==> assoc_get(assoc_set(t, k, v), other) == assoc_get(t, other),
{
    let t2 = assoc_set(t, k, v);
    lemma_find_from_any(t, k, 0);
    lemma_find_from_any(t, other, 0);
    let i = assoc_find(t, k);
    if i >= 0 {
        lemma_find_at(t2, k, i, 0);
        if other != k {
            lemma_find_same(t2, t, other, 0);
        }
    } else {
        lemma_find_at(t2, k, t.len() as int, 0);
        if other != k {
            lemma_find_from_any(t2, other, 0);
            let j = assoc_find(t, other);
            if j >= 0 {
                lemma_find_at(t2, other, j, 0);
            } else {
                lemma_find_absent(t2, other, 0);
            }
        }
    }
}

/// Removing a key from a table where no key repeats leaves no entry for
/// it; every other key reads as before.
pub proof fn law_del_then_get<K, V>(t: Seq<(K, V)>, k: K, other: K)
    requires
        unique_names(t),
    ensures
        assoc_get(assoc_del(t, k), k) is None,
        other != k ==> assoc_get(assoc_del(t, k), other) == assoc_get(t, other),
{
    let t2 = assoc_del(t, k);
    lemma_find_from_any(t, k, 0);
    lemma_find_from_any(t, other, 0);
    let i = assoc_find(t, k);
    if i >= 0 {
        assert forall|j: int| 0 <= j < t2.len() implies (#[trigger] t2[j]).0 != k by {
            if j < i {
                assert(t2[j] == t[j]);
            } else {
                assert(t2[j] == t[j + 1]);
                assert(t[i].0 != t[j + 1].0);
            }
        }
        lemma_find_absent(t2, k, 0);
        if other != k {
            let j = assoc_find(t, other);
            if j >= 0 {
                if j < i {
                    assert(t2[j] == t[j]);
                    assert forall|m: int| 0 <= m < j implies (#[trigger] t2[m]).0 != other by {
                        assert(t2[m] == t[m]);
                    }
                    lemma_find_at(t2, other, j, 0);
                } else {
                    assert(t2[j - 1] == t[j]);
                    assert forall|m: int| 0 <= m < j - 1 implies (#[trigger] t2[m]).0 != other by {
                        if m < i {
                            assert(t2[m] == t[m]);
                        } else {
                            assert(t2[m] == t[m + 1]);
                        }
                    }
                    lemma_find_at(t2, other, j - 1, 0);
                }
            } else {
                assert forall|m: int| 0 <= m < t2.len() implies (#[trigger] t2[m]).0 != other by {
                    if m < i {
                        assert(t2[m] == t[m]);
                    } else {
                        assert(t2[m] == t[m + 1]);
                    }
                }
                lemma_find_absent(t2, other, 0);
            }
        }
    }
}

/// Setting a key keeps a table free of repeated keys.
pub proof fn law_set_keeps_names_unique<K, V>(t: Seq<(K, V)>, k: K, v: V)
    requires
        unique_names(t),
    ensures
        unique_names(assoc_set(t, k, v)),
{
    lemma_find_from_any(t, k, 0);
    let i = assoc_find(t, k);
    let t2 = assoc_set(t, k, v);
    assert forall|a: int, b: int| 0 <= a < b < t2.len() implies (#[trigger] t2[a]).0 != (#[trigger] t2[b]).0 by {
        if i >= 0 {
            assert(t2[a].0 == t[a].0);
            assert(t2[b].0 == t[b].0);
        } else if b < t.len() {
            assert(t2[a] == t[a]);
            assert(t2[b] == t[b]);
        } else {
            assert(t2[a] == t[a]);
        }
    }
}

/// Removing a key keeps a table free of repeated keys.
pub proof fn law_del_keeps_names_unique<K, V>(t: Seq<(K, V)>, k: K)
    requires
        unique_names(t),
    ensures
        unique_names(assoc_del(t, k)),
{
    lemma_find_from_any(t, k, 0);
    let i = assoc_find(t, k);
    let t3 = assoc_del(t, k);
    assert forall|a: int, b: int| 0 <= a < b < t3.len() implies (#[trigger] t3[a]).0 != (#[trigger] t3[b]).0 by {
        if i >= 0 {
            let a1 = if a < i { a } else { a + 1 };
            let b1 = if b < i { b } else { b + 1 };
            assert(t3[a] == t[a1]);
            assert(t3[b] == t[b1]);
        }
    }
}

/// `.=` then `::`: an attribute written through `.=` is read back by `::`,
/// whatever object the key is, and `.=` answers with the value it wrote.
pub proof fn law_attr_write_then_read(h: Seq<EntryM>, obj: Object, key: Object, v: Object)
    requires
        0 <= obj.id < h.len(),
        0 <= key.id < h.len(),
    ensures
        ({
            let (h2, r) = sem_pristine(h, PristineFn::AccessAssign, obj, seq![key, v]);
            &&& r == Ok::<Object, ErrorM>(v)
            &&& sem_pristine(h2, PristineFn::ColonColon, obj, seq![key]) == (h2, Ok::<Object, ErrorM>(v))
        }),
{
    let e = h[obj.id as int];
    match key_of(h, key) {
        AttrKey::Name(n) => law_set_then_get(e.attrs, n, v, Seq::<char>::empty()),
        AttrKey::Obj(o) => law_set_then_get(e.keyed, o, v, o),
    }
    let (h2, r) = sem_pristine(h, PristineFn::AccessAssign, obj, seq![key, v]);
    assert(h2[key.id as int].value == h[key.id as int].value);
}

/// `.~` then `.?`: once an attribute is removed the object no longer has
/// it, whatever object the key is.
pub proof fn law_attr_delete_then_has(h: Seq<EntryM>, obj: Object, key: Object)
    requires
        0 <= obj.id < h.len(),
        0 <= key.id < h.len(),
        heap_ok(h),
        own_get(h[obj.id as int], key_of(h, key)) is Some,
    ensures
        ({
            let (h2, r) = sem_pristine(h, PristineFn::AccessDelete, obj, seq![key]);
            &&& r == Ok::<Object, ErrorM>(own_get(h[obj.id as int], key_of(h, key))->Some_0)
            &&& sem_pristine(h2, PristineFn::AccessHas, obj, seq![key]) == fresh(h2, ValueM::Boolean(false))
        }),
{
    let e = h[obj.id as int];
    assert(unique_names(e.attrs) && unique_names(e.keyed));
    match key_of(h, key) {
        AttrKey::Name(n) => law_del_then_get(e.attrs, n, Seq::<char>::empty()),
        AttrKey::Obj(o) => law_del_then_get(e.keyed, o, o),
    }
    let (h2, r) = sem_pristine(h, PristineFn::AccessDelete, obj, seq![key]);
    assert(h2[key.id as int].value == h[key.id as int].value);
}

/// Calling through a key object: once `.=` has set an attribute under a
/// key that is not a variable, calling the object under that key runs
/// what was set, as an own attribute runs; before that, the call is
/// answered with [`ErrorM::MissingKey`].
pub proof fn law_call_by_key(h: Seq<EntryM>, obj: Object, key: Object, v: Object, args: Seq<Object>, fuel: nat)
    requires
        0 <= obj.id < h.len(),
        0 <= key.id < h.len(),
        0 <= v.id < h.len(),
        !(h[key.id as int].value is Variable),
    ensures
        assoc_get(h[obj.id as int].keyed, key) is None
            ==> sem_call(h, obj, key, args, fuel) == (h, Err::<Object, ErrorM>(ErrorM::MissingKey { key, obj })),
        ({
            let (h2, r) = sem_pristine(h, PristineFn::AccessAssign, obj, seq![key, v]);
            sem_call(h2, obj, key, args, fuel) == match h2[v.id as int].value {
                ValueM::RustFn(f) => sem_apply(h2, f, obj, args, fuel),
                _ => if fuel == 0 {
                    (h2, Err(ErrorM::RecursionLimit))
                } else {
                    sem_call_attr(h2, v, CALL@, seq![obj] + args, (fuel - 1) as nat)
                },
            }
        }),
{
    law_set_then_get(h[obj.id as int].keyed, key, v, key);
    let (h2, r) = sem_pristine(h, PristineFn::AccessAssign, obj, seq![key, v]);
    assert(h2[key.id as int].value == h[key.id as int].value);
}

/// `push` then `pop` on a list gives back the pushed object and leaves
/// the heap as it was.
pub proof fn law_push_then_pop(h: Seq<EntryM>, list: Object, a: Object, rest: Seq<Object>, args: Seq<Object>, fuel: nat)
    requires
        0 <= list.id < h.len(),
        h[list.id as int].value is List,
    ensures
        ({
            let (h1, r1) = sem_list(h, ListFn::Push, list, seq![a] + rest, fuel);
            &&& r1 == Ok::<Object, ErrorM>(list)
            &&& sem_list(h1, ListFn::Pop, list, args, fuel) == (h, Ok::<Object, ErrorM>(a))
        }),
{
    let items = h[list.id as int].value->List_0;
    assert((seq![a] + rest)[0] == a);
    let (h1, r1) = sem_list(h, ListFn::Push, list, seq![a] + rest, fuel);
    assert(items.push(a).drop_last() =~= items);
    let (h2, r2) = sem_list(h1, ListFn::Pop, list, args, fuel);
    assert(h2 =~= h);
}

/// The digit characters stand for their values.
proof fn lemma_digit_char(d: int)
    requires
        0 <= d <= 9,
    ensures
        is_digit(digit_char(d)),
        digit_value(digit_char(d)) == d,
{
}

/// The decimal digits of `n` are digits, at least one, and write `n`.
proof fn lemma_nat_text(n: nat)
    ensures
        nat_text(n).len() > 0,
        all_digits(nat_text(n)),
        digits_value(nat_text(n)) == n,
    decreases n,
{
    if n < 10 {
        lemma_digit_char(n as int);
        let s = seq![digit_char(n as int)];
        assert(s.drop_last() =~= Seq::<char>::empty());
        assert(digits_value(s.drop_last()) == 0);
        assert(digits_value(s) == digits_value(s.drop_last()) * 10 + digit_value(s.last()));
    } else {
        lemma_nat_text(n / 10);
        lemma_digit_char((n % 10) as int);
        let s = nat_text(n);
        assert(s.drop_last() =~= nat_text(n / 10));
        assert(s.last() == digit_char((n % 10) as int));
        assert(digits_value(s) == digits_value(s.drop_last()) * 10 + digit_value(s.last()));
        assert(n == (n / 10) * 10 + n % 10);
        assert forall|i: int| 0 <= i < s.len() implies is_digit(#[trigger] s[i]) by {
            if i < s.len() - 1 {
                assert(s[i] == nat_text(n / 10)[i]);
            }
        }
    }
}

/// `@num` reads back what `@text` writes: the text of any number parses
/// to that number.
pub proof fn law_num_text_roundtrip(n: i64)
    ensures
        parse_num(int_text(n as int)) == Some(n),
{
    let s = int_text(n as int);
    if n < 0 {
        lemma_nat_text((-n) as nat);
        assert(s.drop_first() =~= nat_text((-n) as nat));
    } else {
        lemma_nat_text(n as nat);
        assert(is_digit(s[0]));
    }
}

/// Division and remainder of numbers, when both succeed, split the
/// dividend: `x == y * (x / y) + x % y`, the remainder is smaller than the
/// divisor in size, and it is never of the opposite sign to the dividend.
pub proof fn law_div_rem(x: i64, y: i64)
    requires
        y != 0,
        num_binary(NumFn::Div, x, y) is Ok,
    ensures
        num_binary(NumFn::Mod, x, y) is Ok,
        ({
            let q = num_binary(NumFn::Div, x, y)->Ok_0->Num_0;
            let r = num_binary(NumFn::Mod, x, y)->Ok_0->Num_0;
            &&& x == y * q + r
            &&& abs(r as int) < abs(y as int)
            &&& (x >= 0 ==> r >= 0)
            &&& (x <= 0 ==> r <= 0)
        }),
{
    let (xi, yi) = (x as int, y as int);
    let q = trunc_div(xi, yi);
    let (ax, ay) = (abs(xi), abs(yi));
    let uq = ax / ay;
    let ur = ax % ay;
    assert(ax == ay * uq + ur && 0 <= ur < ay) by (nonlinear_arith) requires ay > 0, ax >= 0, uq == ax / ay, ur == ax % ay;
    let r = trunc_rem(xi, yi);
    if (xi < 0) == (yi < 0) {
        assert(q == uq);
        if xi < 0 {
            assert(r == -ur) by (nonlinear_arith) requires xi == -ax, yi == -ay, ax == ay * uq + ur, q == uq, r == xi - yi * q;
        } else {
            assert(r == ur) by (nonlinear_arith) requires xi == ax, yi == ay, ax == ay * uq + ur, q == uq, r == xi - yi * q;
        }
    } else {
        assert(q == -uq);
        if xi < 0 {
            assert(r == -ur) by (nonlinear_arith) requires xi == -ax, yi == ay, ax == ay * uq + ur, q == -uq, r == xi - yi * q;
        } else {
            assert(r == ur) by (nonlinear_arith) requires xi == ax, yi == -ay, ax == ay * uq + ur, q == -uq, r == xi - yi * q;
        }
    }
}

/// `*` on texts: the repeated text is the text's length times the count long.
pub proof fn law_repeat_len(s: Seq<char>, n: nat)
    ensures
        repeat(s, n).len() == n * s.len(),
    decreases n,
{
    if n > 0 {
        let m = (n - 1) as nat;
        law_repeat_len(s, m);
        assert(repeat(s, n) == repeat(s, m) + s);
        assert(m * s.len() + s.len() == n * s.len()) by (nonlinear_arith) requires m + 1 == n;
    } else {
        assert(n * s.len() == 0) by (nonlinear_arith) requires n == 0;
    }
}

/// The equality methods every object has delegate to each other: unless
/// an object or its type defines them, `==` calls `===`, `!=` calls `==`
/// then `!`, and `!==` calls `===` then `!`, each one call deeper.
pub proof fn law_equality_delegates(h: Seq<EntryM>, a: Object, args: Seq<Object>, fuel: nat)
    requires
        0 <= a.id < h.len(),
        fuel >= 1,
    ensures
        resolve(h, a, EQL@) == Found::Native(RustFn::Basic(BasicFn::Eql)) ==>
            sem_call_attr(h, a, EQL@, args, fuel) == sem_call_attr(h, a, STRICT_EQL@, args, (fuel - 1) as nat),
        resolve(h, a, NEQ@) == Found::Native(RustFn::Basic(BasicFn::Neq)) ==>
            sem_call_attr(h, a, NEQ@, args, fuel) == sem_then_not(h, a, EQL@, args, (fuel - 1) as nat),
        resolve(h, a, STRICT_NEQ@) == Found::Native(RustFn::Basic(BasicFn::StrictNeq)) ==>
            sem_call_attr(h, a, STRICT_NEQ@, args, fuel) == sem_then_not(h, a, STRICT_EQL@, args, (fuel - 1) as nat),
{
    let g = (fuel - 1) as nat;
    let eql = RustFn::Basic(BasicFn::Eql);
    assert(sem_basic(h, BasicFn::Eql, a, args, g) == sem_call_attr(h, a, STRICT_EQL@, args, g));
    assert(sem_apply(h, eql, a, args, fuel) == sem_basic(h, BasicFn::Eql, a, args, g));
    let neq = RustFn::Basic(BasicFn::Neq);
    assert(sem_basic(h, BasicFn::Neq, a, args, g) == sem_then_not(h, a, EQL@, args, g));
    assert(sem_apply(h, neq, a, args, fuel) == sem_basic(h, BasicFn::Neq, a, args, g));
    let sneq = RustFn::Basic(BasicFn::StrictNeq);
    assert(sem_basic(h, BasicFn::StrictNeq, a, args, g) == sem_then_not(h, a, STRICT_EQL@, args, g));
    assert(sem_apply(h, sneq, a, args, fuel) == sem_basic(h, BasicFn::StrictNeq, a, args, g));
}

/// Which methods an object without attributes of its own, whose type
/// defines no equality, finds for `==`, `!=` and `!==`: the ones every
/// object has.
pub proof fn law_plain_equality_methods(h: Seq<EntryM>, a: Object)
    requires
        0 <= a.id < h.len(),
        h[a.id as int].attrs.len() == 0,
        assoc_get(type_table(h[a.id as int].value.kind()), EQL@) is None,
        assoc_get(type_table(h[a.id as int].value.kind()), NEQ@) is None,
    ensures
        resolve(h, a, EQL@) == Found::Native(RustFn::Basic(BasicFn::Eql)),
        resolve(h, a, NEQ@) == Found::Native(RustFn::Basic(BasicFn::Neq)),
        resolve(h, a, STRICT_EQL@) == Found::Native(RustFn::Basic(BasicFn::StrictEql)),
        resolve(h, a, STRICT_NEQ@) == Found::Native(RustFn::Basic(BasicFn::StrictNeq)),
{
    lemma_basic_names();
    lemma_strict_names_untyped(h[a.id as int].value.kind());
}

/// `clone` makes a new object: it holds the same value and attributes as
/// the original, yet `===` tells the two apart.
pub proof fn law_clone_is_a_new_object(h: Seq<EntryM>, obj: Object, args: Seq<Object>, rest: Seq<Object>, fuel: nat)
    requires
        0 <= obj.id < h.len(),
        h.len() < usize::MAX,
        assoc_get(h[obj.id as int].attrs, STRICT_EQL@) is None,
        fuel >= 1,
    ensures
        ({
            let (h1, r) = sem_basic(h, BasicFn::Clone, obj, args, fuel);
            &&& r matches Ok(c) && h1[c.id as int] == h[obj.id as int] && c.id != obj.id
            &&& sem_call_attr(h1, obj, STRICT_EQL@, seq![r->Ok_0] + rest, fuel).1
                == Ok::<Object, ErrorM>(Object { id: h1.len() as usize })
            &&& sem_call_attr(h1, obj, STRICT_EQL@, seq![r->Ok_0] + rest, fuel).0
                == h1.push(plain(ValueM::Boolean(false)))
        }),
{
    let (h1, r) = sem_basic(h, BasicFn::Clone, obj, args, fuel);
    let c = r->Ok_0;
    assert(c.id == h.len());
    assert(h1[obj.id as int] == h[obj.id as int]);
    law_strict_eql_is_identity(h1, obj, c, rest, fuel);
}

/// An operator between two operands is a call: evaluating `a op b` calls
/// `op`'s attribute on `a` with `b`, and leaves nothing else on the stack.
pub proof fn law_binary_operator_is_a_call(h: Seq<EntryM>, a: Object, op: Oper, b: Object, fuel: nat)
    requires
        arity_of(op) == Arity::BinaryLtoR || arity_of(op) == Arity::BinaryRtoL,
        op != Oper::Call,
    ensures
        ({
            let toks = seq![Token::Value(a), Token::Op(op), Token::Value(b)];
            let (h2, r) = sem_call_attr(h, a, call_sigil_of(op), seq![b], fuel);
            sem_net(h, toks, 0, Seq::empty(), Oper::Endline, fuel) == match r {
                Ok(o) => (h2, 3nat, Seq::<Object>::empty(), Ok::<Option<Object>, ErrorM>(Some(o))),
                Err(e) => (h2, 3nat, Seq::<Object>::empty(), Err::<Option<Object>, ErrorM>(e)),
            }
        }),
{
    let toks = seq![Token::Value(a), Token::Op(op), Token::Value(b)];
    let e: Seq<Object> = Seq::empty();
    assert(!yields_to(Oper::Endline, op));
    assert(seq![a].drop_last() =~= e);
    assert(seq![b].drop_last() =~= e);
    assert(sem_net(h, toks, 3, seq![b], op, fuel) == (h, 3nat, e, Ok::<Option<Object>, ErrorM>(Some(b))));
    assert(sem_net(h, toks, 2, e, op, fuel) == sem_net(h, toks, 3, e.push(b), op, fuel));
    assert(e.push(b) =~= seq![b]);
    let (h2, r2) = sem_oper_call(h, op, seq![a, b], fuel);
    assert(sem_eval(h, toks, 2, seq![a], op, fuel) == (h2, 3nat, e, r2));
    assert(e.push(a) =~= seq![a]);
    if let Ok(v) = r2 {
        assert(e.push(v).drop_last() =~= e);
        assert(sem_net(h2, toks, 3, e.push(v), Oper::Endline, fuel) == (h2, 3nat, e, Ok::<Option<Object>, ErrorM>(Some(v))));
    }
    assert(sem_net(h, toks, 1, seq![a], Oper::Endline, fuel) == sem_net(h, toks, 0, e, Oper::Endline, fuel));
}

/// `has_attr` and `get_attr` agree: an object has an attribute exactly
/// when reading it succeeds, and reading it changes the heap at most by
/// adding the function object it returns.
pub proof fn law_has_iff_get(h: Seq<EntryM>, obj: Object, name: Seq<char>)
    ensures
        !(resolve(h, obj, name) is Missing) <==> sem_access(h, obj, name).1 is Ok,
        sem_access(h, obj, name).0 == h || sem_access(h, obj, name).0 == h.push(plain(ValueM::RustFn(
            resolve(h, obj, name)->Native_0))),
{
}

/// The texts that the objects of `items` hold.
pub open spec fn texts_of(h: Seq<EntryM>, items: Seq<Object>) -> Seq<Seq<char>> {
    items.map_values(|o: Object| h[o.id as int].value->Text_0)
}

/// Every object of `items` is in the heap, holds a text, and has no `@text`
/// attribute of its own.
pub open spec fn plain_texts(h: Seq<EntryM>, items: Seq<Object>) -> bool {
    forall|j: int| 0 <= j < items.len() ==> {
        &&& 0 <= (#[trigger] items[j]).id < h.len()
        &&& h[items[j].id as int].value is Text
        &&& assoc_get(h[items[j].id as int].attrs, AT_TEXT@) is None
    }
}

/// Converting texts from `i` on with `@text` adds their texts to `acc` in
/// order, and only adds copies to the heap.
proof fn lemma_list_text_of_texts(h: Seq<EntryM>, items: Seq<Object>, i: nat, acc: Seq<Seq<char>>, fuel: nat)
    requires
        plain_texts(h, items),
        i <= items.len(),
        fuel >= 1,
        h.len() + items.len() - i <= usize::MAX,
    ensures
        ({
            let (h2, r) = sem_list_text(h, items, i, acc, fuel);
            &&& r == Ok::<Seq<Seq<char>>, ErrorM>(acc + texts_of(h, items).subrange(i as int, items.len() as int))
            &&& h2.len() == h.len() + items.len() - i
            &&& forall|j: int| 0 <= j < h.len() ==> h2[j] == h[j]
        }),
    decreases items.len() - i,
{
    let t = texts_of(h, items);
    if i < items.len() {
        let e = items[i as int];
        assert(0 <= e.id < h.len() && h[e.id as int].value is Text);
        assert(type_table(Kind::Text)[0].0 == AT_TEXT@);
        assert(resolve(h, e, AT_TEXT@) == Found::Native(RustFn::Text(TextFn::AtText)));
        let h1 = h.push(h[e.id as int]);
        let o = Object { id: h.len() as usize };
        assert(sem_text(h, TextFn::AtText, e, Seq::empty(), (fuel - 1) as nat) == copy_of(h, e));
        assert(sem_apply(h, RustFn::Text(TextFn::AtText), e, Seq::empty(), fuel) == copy_of(h, e));
        assert(sem_call_attr(h, e, AT_TEXT@, Seq::empty(), fuel) == copy_of(h, e));
        assert(sem_convert(h, e, AT_TEXT@, Kind::Text, fuel) == (h1, Ok::<Object, ErrorM>(o)));
        assert(plain_texts(h1, items));
        let acc1 = acc.push(h1[o.id as int].value->Text_0);
        lemma_list_text_of_texts(h1, items, i + 1, acc1, fuel);
        assert(texts_of(h1, items) =~= t) by {
            assert forall|j: int| 0 <= j < items.len() implies texts_of(h1, items)[j] == t[j] by {
                assert(0 <= (#[trigger] items[j]).id < h.len());
            }
        }
        assert(acc1 + t.subrange((i + 1) as int, items.len() as int) =~= acc + t.subrange(i as int, items.len() as int));
    } else {
        assert(t.subrange(i as int, items.len() as int) =~= Seq::<Seq<char>>::empty());
        assert(acc + Seq::<Seq<char>>::empty() =~= acc);
    }
}

/// `@text` of a list whose elements are texts (with no `@text` of their
/// own) is `[`, then the texts joined by `, `, then `]`: a new text object
/// after one copy of each element.
pub proof fn law_list_text_of_texts(h: Seq<EntryM>, list: Object, args: Seq<Object>, fuel: nat)
    requires
        0 <= list.id < h.len(),
        h[list.id as int].value is List,
        plain_texts(h, h[list.id as int].value->List_0),
        fuel >= 1,
        h.len() + h[list.id as int].value->List_0.len() < usize::MAX,
    ensures
        ({
            let items = h[list.id as int].value->List_0;
            let (h2, r) = sem_list(h, ListFn::AtText, list, args, fuel);
            &&& r == Ok::<Object, ErrorM>(Object { id: (h.len() + items.len()) as usize })
            &&& h2.len() == h.len() + items.len() + 1
            &&& h2.last().value == ValueM::Text(seq!['['] + join_texts(texts_of(h, items)) + seq![']'])
        }),
{
    let items = h[list.id as int].value->List_0;
    lemma_list_text_of_texts(h, items, 0, Seq::empty(), fuel);
    assert(Seq::<Seq<char>>::empty() + texts_of(h, items).subrange(0, items.len() as int) =~= texts_of(h, items));
}

/// Texts are joined with `, ` between them: none gives the empty text, one
/// gives itself, and another one adds `, ` and itself.
pub proof fn law_join_texts(s: Seq<Seq<char>>, a: Seq<char>)
    ensures
        join_texts(Seq::empty()) == Seq::<char>::empty(),
        join_texts(seq![a]) == a,
        s.len() > 0 ==> join_texts(s.push(a)) == join_texts(s) + seq![',', ' '] + a,
{
    if s.len() > 0 {
        assert(s.push(a).drop_last() =~= s);
    }
}

/// `==` of two lists of different lengths is false, and nothing is called.
pub proof fn law_list_eql_lengths(h: Seq<EntryM>, list: Object, other: Object, rest: Seq<Object>, fuel: nat)
    requires
        0 <= list.id < h.len(),
        0 <= other.id < h.len(),
        h[list.id as int].value is List,
        h[other.id as int].value is List,
        h[list.id as int].value->List_0.len() != h[other.id as int].value->List_0.len(),
    ensures
        sem_list(h, ListFn::Eql, list, seq![other] + rest, fuel) == fresh(h, ValueM::Boolean(false)),
{
    assert((seq![other] + rest)[0] == other);
}

/// Converting the elements of `s` and then `x`, from index `i`, is
/// converting those of `s` and, unless that failed, then `x`.
proof fn lemma_list_text_snoc(h: Seq<EntryM>, s: Seq<Object>, x: Object, i: nat, acc: Seq<Seq<char>>, fuel: nat)
    requires
        i <= s.len(),
    ensures
        sem_list_text(h, s.push(x), i, acc, fuel) == match sem_list_text(h, s, i, acc, fuel) {
            (h1, Err(e)) => (h1, Err(e)),
            (h1, Ok(ts)) => match sem_convert(h1, x, AT_TEXT@, Kind::Text, fuel) {
                (h2, Err(e)) => (h2, Err(e)),
                (h2, Ok(o)) => (h2, Ok(ts.push(h2[o.id as int].value->Text_0))),
            },
        },
    decreases s.len() - i,
{
    let t = s.push(x);
    if i < s.len() {
        assert(t[i as int] == s[i as int]);
        let (h1, c) = sem_convert(h, s[i as int], AT_TEXT@, Kind::Text, fuel);
        if let Ok(o) = c {
            lemma_list_text_snoc(h1, s, x, i + 1, acc.push(h1[o.id as int].value->Text_0), fuel);
        }
    } else {
        assert(t[i as int] == x);
        let (h1, c) = sem_convert(h, x, AT_TEXT@, Kind::Text, fuel);
        if let Ok(o) = c {
            assert(sem_list_text(h1, t, i + 1, acc.push(h1[o.id as int].value->Text_0), fuel)
                == (h1, Ok::<Seq<Seq<char>>, ErrorM>(acc.push(h1[o.id as int].value->Text_0))));
        }
    }
}

/// A conversion that succeeds from index `i` adds one text per element to `acc`.
proof fn lemma_list_text_len(h: Seq<EntryM>, s: Seq<Object>, i: nat, acc: Seq<Seq<char>>, fuel: nat)
    requires
        i <= s.len(),
    ensures
        sem_list_text(h, s, i, acc, fuel).1 matches Ok(ts) ==> ts.len() == acc.len() + s.len() - i,
    decreases s.len() - i,
{
    if i < s.len() {
        let (h1, c) = sem_convert(h, s[i as int], AT_TEXT@, Kind::Text, fuel);
        if let Ok(o) = c {
            lemma_list_text_len(h1, s, i + 1, acc.push(h1[o.id as int].value->Text_0), fuel);
        }
    }
}

/// The texts of the first `i` elements of `items`, converted one after
/// the other with `@text` from the heap `h`: the heap they leave, and the
/// texts or the first error.
pub open spec fn texts_prefix(h: Seq<EntryM>, items: Seq<Object>, i: nat, fuel: nat)
    -> (Seq<EntryM>, Result<Seq<Seq<char>>, ErrorM>)
{
    sem_list_text(h, items.take(i as int), 0, Seq::empty(), fuel)
}

/// `@text` of a list converts its elements with `@text` one after the
/// other, in order, each on the heap that the earlier conversions left;
/// it stops at the first error, which it returns, and converts no later
/// element; if none fails, it gives `[`, the texts (one per element)
/// joined by `, `, and `]`.
pub proof fn law_list_text_in_order(h: Seq<EntryM>, list: Object, args: Seq<Object>, fuel: nat)
    requires
        0 <= list.id < h.len(),
        h[list.id as int].value is List,
    ensures
        ({
            let items = h[list.id as int].value->List_0;
            &&& texts_prefix(h, items, 0, fuel) == (h, Ok::<Seq<Seq<char>>, ErrorM>(Seq::empty()))
            &&& forall|i: nat| #![trigger texts_prefix(h, items, i + 1, fuel)] i < items.len() ==>
                texts_prefix(h, items, i + 1, fuel) == match texts_prefix(h, items, i, fuel) {
                    (h1, Err(e)) => (h1, Err(e)),
                    (h1, Ok(ts)) => match sem_convert(h1, items[i as int], AT_TEXT@, Kind::Text, fuel) {
                        (h2, Err(e)) => (h2, Err(e)),
                        (h2, Ok(o)) => (h2, Ok(ts.push(h2[o.id as int].value->Text_0))),
                    },
                }
            &&& texts_prefix(h, items, items.len(), fuel).1 matches Ok(ts) ==> ts.len() == items.len()
            &&& sem_list(h, ListFn::AtText, list, args, fuel) == match texts_prefix(h, items, items.len(), fuel) {
                (h1, Err(e)) => (h1, Err(e)),
                (h1, Ok(ts)) => fresh(h1, ValueM::Text(seq!['['] + join_texts(ts) + seq![']'])),
            }
        }),
{
    let items = h[list.id as int].value->List_0;
    assert(items.take(0) =~= Seq::<Object>::empty());
    assert forall|i: nat| #![trigger texts_prefix(h, items, i + 1, fuel)] i < items.len() implies
        texts_prefix(h, items, i + 1, fuel) == match texts_prefix(h, items, i, fuel) {
            (h1, Err(e)) => (h1, Err(e)),
            (h1, Ok(ts)) => match sem_convert(h1, items[i as int], AT_TEXT@, Kind::Text, fuel) {
                (h2, Err(e)) => (h2, Err(e)),
                (h2, Ok(o)) => (h2, Ok(ts.push(h2[o.id as int].value->Text_0))),
            },
        } by {
        assert(items.take((i + 1) as int) =~= items.take(i as int).push(items[i as int]));
        lemma_list_text_snoc(h, items.take(i as int), items[i as int], 0, Seq::empty(), fuel);
    }
    assert(items.take(items.len() as int) =~= items);
    lemma_list_text_len(h, items, 0, Seq::empty(), fuel);
}

/// Comparing the pairs of `l` and `r` and then `x` with `y`, from index
/// `i`, is comparing those of `l` and `r` and, unless that failed or found
/// a pair unequal, then `x` with `y`.
proof fn lemma_list_eql_snoc(h: Seq<EntryM>, l: Seq<Object>, r: Seq<Object>, x: Object, y: Object, i: nat, fuel: nat)
    requires
        i <= l.len(),
        l.len() == r.len(),
    ensures
        sem_list_eql(h, l.push(x), r.push(y), i, fuel) == match sem_list_eql(h, l, r, i, fuel) {
            (h1, Err(e)) => (h1, Err(e)),
            (h1, Ok(false)) => (h1, Ok(false)),
            (h1, Ok(true)) => match sem_call_attr(h1, x, EQL@, seq![y], fuel) {
                (h2, Err(e)) => (h2, Err(e)),
                (h2, Ok(o)) => match sem_convert(h2, o, AT_BOOL@, Kind::Boolean, fuel) {
                    (h3, Err(e)) => (h3, Err(e)),
                    (h3, Ok(b)) => (h3, Ok(h3[b.id as int].value->Boolean_0)),
                },
            },
        },
    decreases l.len() - i,
{
    let (lx, ry) = (l.push(x), r.push(y));
    if i < l.len() {
        assert(lx[i as int] == l[i as int] && ry[i as int] == r[i as int]);
        let (h1, c) = sem_call_attr(h, l[i as int], EQL@, seq![r[i as int]], fuel);
        if let Ok(o) = c {
            let (h2, b) = sem_convert(h1, o, AT_BOOL@, Kind::Boolean, fuel);
            if let Ok(bo) = b {
                if h2[bo.id as int].value->Boolean_0 {
                    lemma_list_eql_snoc(h2, l, r, x, y, i + 1, fuel);
                }
            }
        }
    } else {
        assert(lx[i as int] == x && ry[i as int] == y);
        let (h1, c) = sem_call_attr(h, x, EQL@, seq![y], fuel);
        if let Ok(o) = c {
            let (h2, b) = sem_convert(h1, o, AT_BOOL@, Kind::Boolean, fuel);
            if let Ok(bo) = b {
                if h2[bo.id as int].value->Boolean_0 {
                    assert(sem_list_eql(h2, lx, ry, i + 1, fuel) == (h2, Ok::<bool, ErrorM>(true)));
                }
            }
        }
    }
}

/// The comparison of the first `i` pairs of `l` and `r`, one after the
/// other with `==` and `@bool`, from the heap `h`: the heap it leaves, and
/// whether all were equal, or the first error.
pub open spec fn eql_prefix(h: Seq<EntryM>, l: Seq<Object>, r: Seq<Object>, i: nat, fuel: nat)
    -> (Seq<EntryM>, Result<bool, ErrorM>)
{
    sem_list_eql(h, l.take(i as int), r.take(i as int), 0, fuel)
}

/// `==` of two lists: lists of different lengths are unequal and nothing
/// is called; otherwise the pairs are compared with `==` and `@bool` one
/// after the other, in order, each on the heap that the earlier ones left;
/// the comparison stops at the first pair that is unequal (false) or whose
/// comparison fails (that error), and calls nothing for later pairs; if
/// every pair is equal, the lists are equal.
pub proof fn law_list_eql_in_order(h: Seq<EntryM>, list: Object, other: Object, rest: Seq<Object>, fuel: nat)
    requires
        0 <= list.id < h.len(),
        0 <= other.id < h.len(),
        h[list.id as int].value is List,
        h[other.id as int].value is List,
    ensures
        ({
            let l = h[list.id as int].value->List_0;
            let r = h[other.id as int].value->List_0;
            &&& l.len() != r.len() ==> sem_list(h, ListFn::Eql, list, seq![other] + rest, fuel)
                == fresh(h, ValueM::Boolean(false))
            &&& eql_prefix(h, l, r, 0, fuel) == (h, Ok::<bool, ErrorM>(true))
            &&& l.len() == r.len() ==> forall|i: nat| #![trigger eql_prefix(h, l, r, i + 1, fuel)] i < l.len() ==>
                eql_prefix(h, l, r, i + 1, fuel) == match eql_prefix(h, l, r, i, fuel) {
                    (h1, Err(e)) => (h1, Err(e)),
                    (h1, Ok(false)) => (h1, Ok(false)),
                    (h1, Ok(true)) => match sem_call_attr(h1, l[i as int], EQL@, seq![r[i as int]], fuel) {
                        (h2, Err(e)) => (h2, Err(e)),
                        (h2, Ok(o)) => match sem_convert(h2, o, AT_BOOL@, Kind::Boolean, fuel) {
                            (h3, Err(e)) => (h3, Err(e)),
                            (h3, Ok(b)) => (h3, Ok(h3[b.id as int].value->Boolean_0)),
                        },
                    },
                }
            &&& l.len() == r.len() ==> sem_list(h, ListFn::Eql, list, seq![other] + rest, fuel)
                == match eql_prefix(h, l, r, l.len(), fuel) {
                    (h1, Err(e)) => (h1, Err(e)),
                    (h1, Ok(b)) => fresh(h1, ValueM::Boolean(b)),
                }
        }),
{
    let l = h[list.id as int].value->List_0;
    let r = h[other.id as int].value->List_0;
    assert((seq![other] + rest)[0] == other);
    assert(l.take(0) =~= Seq::<Object>::empty());
    assert(r.take(0) =~= Seq::<Object>::empty());
    if l.len() == r.len() {
        assert forall|i: nat| #![trigger eql_prefix(h, l, r, i + 1, fuel)] i < l.len() implies
            eql_prefix(h, l, r, i + 1, fuel) == match eql_prefix(h, l, r, i, fuel) {
                (h1, Err(e)) => (h1, Err(e)),
                (h1, Ok(false)) => (h1, Ok(false)),
                (h1, Ok(true)) => match sem_call_attr(h1, l[i as int], EQL@, seq![r[i as int]], fuel) {
                    (h2, Err(e)) => (h2, Err(e)),
                    (h2, Ok(o)) => match sem_convert(h2, o, AT_BOOL@, Kind::Boolean, fuel) {
                        (h3, Err(e)) => (h3, Err(e)),
                        (h3, Ok(b)) => (h3, Ok(h3[b.id as int].value->Boolean_0)),
                    },
                },
            } by {
            assert(l.take((i + 1) as int) =~= l.take(i as int).push(l[i as int]));
            assert(r.take((i + 1) as int) =~= r.take(i as int).push(r[i as int]));
            lemma_list_eql_snoc(h, l.take(i as int), r.take(i as int), l[i as int], r[i as int], 0, fuel);
        }
        assert(l.take(l.len() as int) =~= l);
        assert(r.take(r.len() as int) =~= r);
    }
}

/// An object's own attributes, read and changed through `set_attr`,
/// `get_attr`, `has_attr` and `del_attr`, behave as a store: after setting
/// `name` to `v` (which answers with the attribute's earlier value),
/// reading `name` gives `v` and the object has it; deleting it then
/// answers with `v`, after which `name` is found exactly as the method of
/// that name is (the object has it exactly when it is a method of its
/// kind or of every object), and every other name is found as before.
pub proof fn law_attr_store(h: Seq<EntryM>, obj: Object, name: Seq<char>, v: Object, other: Seq<char>)
    requires
        0 <= obj.id < h.len(),
        heap_ok(h),
    ensures
        ({
            let e = h[obj.id as int];
            let h2 = h.update(obj.id as int, EntryM { value: e.value, attrs: assoc_set(e.attrs, name, v), keyed: e.keyed });
            let e2 = h2[obj.id as int];
            let h3 = h2.update(obj.id as int, EntryM { value: e2.value, attrs: assoc_del(e2.attrs, name), keyed: e2.keyed });
            &&& resolve(h2, obj, name) == Found::Own(v)
            &&& sem_access(h2, obj, name) == (h2, Ok::<Object, ErrorM>(v))
            &&& assoc_get(e2.attrs, name) == Some(v)
            &&& resolve(h3, obj, name) == method_of(e.value.kind(), name)
            &&& other != name ==> resolve(h3, obj, other) == resolve(h, obj, other)
        }),
{
    let e = h[obj.id as int];
    let t2 = assoc_set(e.attrs, name, v);
    law_set_then_get(e.attrs, name, v, other);
    law_set_keeps_names_unique(e.attrs, name, v);
    law_del_then_get(t2, name, other);
}

} // verus!
