use quest::error::Error;
use quest::object::{Heap, Object, Data, Kind};
use quest::object::types::{pristine, RustFn, Num, Boolean, Text, List, IntoObject, Type};
use quest::object::typed::{Parens, bound::BoundObject};
use quest::object::literal::consts::{AT_BOOL, CALL, ADD, ASSIGN, AND};
use quest::object::typed::bound::{FUNC, PARENT, KEY};
use quest::object::types::rustfn::NAME;

#[test]
fn attributes() {
    let mut heap = Heap::new();
    let obj = heap.new_object(Data::Blank);
    let val = Object::new_null(&mut heap);
    assert!(obj.get_attr(&mut heap, "x").is_none());
    assert_eq!(obj.set_attr(&mut heap, "x", val), None);
    assert!(obj.has_attr(&heap, "x"));
    assert!(obj.has_attr(&heap, AT_BOOL));
    assert!(!obj.has_attr(&heap, "y"));
    assert_eq!(obj.get_attr(&mut heap, "x"), Some(val));
    assert_eq!(obj.del_attr(&mut heap, "x"), Some(val));
    assert_eq!(obj.del_attr(&mut heap, "x"), None);
    assert!(!obj.has_attr(&heap, "x"));
    assert_eq!(obj.map(&heap).len(), 0);
}

#[test]
fn call_with_variable_key() {
    let mut heap = Heap::new();
    let a = heap.new_object(Data::Num(Num::new(1)));
    let key = Object::new_variable_testing(&mut heap, ADD);
    let r = a.call(&mut heap, key, &[a]).unwrap();
    assert!(matches!(heap.value(r), Data::Num(n) if n.into_inner() == 2));
    let not_key = Object::new_null(&mut heap);
    match a.call(&mut heap, not_key, &[a]) {
        Err(Error::MissingKey { key, obj }) => {
            assert!(key.ptr_eq(&not_key));
            assert!(obj.ptr_eq(&a));
        },
        other => panic!("expected a missing key, got {:?}", other),
    }
}

#[test]
fn call_with_object_key() {
    let mut heap = Heap::new();
    let obj = heap.new_object(Data::Blank);
    let key = Object::new_text_str(&mut heap, "x");
    let other_key = Object::new_text_str(&mut heap, "x");
    assert!(matches!(obj.call(&mut heap, key, &[]), Err(Error::MissingKey { .. })));
    // a native function set under a text key runs with the object as receiver
    let f = heap.new_object(Data::RustFn(RustFn::Basic(quest::object::types::basic::BasicFn::AtBool)));
    let r = pristine::access_assign(&mut heap, obj, &[key, f]).unwrap();
    assert!(r.ptr_eq(&f));
    let r = obj.call(&mut heap, key, &[]).unwrap();
    assert!(r.is_true(&heap));
    // keys other than variables are told apart by identity
    assert!(matches!(obj.call(&mut heap, other_key, &[]), Err(Error::MissingKey { .. })));
    // any other object under a key is itself called, with the object first
    let callee = Object::new_null(&mut heap);
    pristine::access_assign(&mut heap, obj, &[key, callee]).unwrap();
    let r = obj.call(&mut heap, key, &[]).unwrap();
    assert!(r.is_null(&heap));
    assert!(pristine::colon_colon(&mut heap, obj, &[key]).unwrap().ptr_eq(&callee));
    assert!(pristine::access(&mut heap, obj, &[key]).unwrap().ptr_eq(&callee));
    assert!(pristine::access_has(&mut heap, obj, &[key]).unwrap().is_true(&heap));
    assert!(pristine::access_delete(&mut heap, obj, &[key]).unwrap().ptr_eq(&callee));
    assert!(!pristine::access_has(&mut heap, obj, &[key]).unwrap().is_true(&heap));
    match pristine::colon_colon(&mut heap, obj, &[key]) {
        Err(Error::MissingKey { key: k, obj: o }) => {
            assert!(k.ptr_eq(&key));
            assert!(o.ptr_eq(&obj));
        },
        other => panic!("expected a missing key, got {:?}", other),
    }
    assert!(matches!(pristine::access_delete(&mut heap, obj, &[key]), Err(Error::MissingKey { .. })));
    assert!(matches!(obj.call(&mut heap, key, &[]), Err(Error::MissingKey { .. })));
}

#[test]
fn own_attribute_called_with_self() {
    let mut heap = Heap::new();
    // `f()` on a null object: its `()` returns null; calling an own
    // attribute that is not a native function calls its `()`.
    let callee = Object::new_null(&mut heap);
    let obj = heap.new_object(Data::Blank);
    obj.set_attr(&mut heap, "f", callee);
    let r = obj.call_attr(&mut heap, "f", &[]).unwrap();
    assert!(r.is_null(&heap));

    // an object whose `()` is itself recurses until the depth runs out
    let looping = heap.new_object(Data::Blank);
    looping.set_attr(&mut heap, CALL, looping);
    assert!(matches!(looping.call_attr(&mut heap, CALL, &[]), Err(Error::RecursionLimit)));
}

#[test]
fn missing_attribute() {
    let mut heap = Heap::new();
    let obj = heap.new_object(Data::Blank);
    match obj.call_attr(&mut heap, "nope", &[]) {
        Err(Error::AttrMissing { attr, obj: o }) => {
            assert_eq!(attr, "nope");
            assert!(o.ptr_eq(&obj));
        },
        other => panic!("bad result {:?}", other),
    }
}

#[test]
fn duplicate_and_ids() {
    let mut heap = Heap::new();
    let obj = Object::new_text_str(&mut heap, "x");
    let val = Object::new_null(&mut heap);
    obj.set_attr(&mut heap, "a", val);
    let dup = obj.duplicate(&mut heap);
    assert!(!dup.ptr_eq(&obj));
    assert_ne!(dup.id(), obj.id());
    assert_eq!(dup.get_attr(&mut heap, "a"), Some(val));
    assert!(dup.is_text(&heap));
}

#[test]
fn pristine_fns() {
    let mut heap = Heap::new();
    let obj = heap.new_object(Data::Blank);
    let key = Object::new_variable_testing(&mut heap, "k");
    let val = Object::new_null(&mut heap);
    let r = pristine::access_assign(&mut heap, obj, &[key, val]).unwrap();
    assert!(r.ptr_eq(&val));
    assert!(pristine::colon_colon(&mut heap, obj, &[key]).unwrap().ptr_eq(&val));
    assert!(pristine::access(&mut heap, obj, &[key]).unwrap().ptr_eq(&val));
    let r = pristine::access_has(&mut heap, obj, &[key]).unwrap();
    assert!(r.is_true(&heap));
    assert!(pristine::access_delete(&mut heap, obj, &[key]).unwrap().ptr_eq(&val));
    let r = pristine::access_has(&mut heap, obj, &[key]).unwrap();
    assert!(!r.is_true(&heap));
    assert!(matches!(pristine::colon_colon(&mut heap, obj, &[key]), Err(Error::AttrMissing { .. })));
    assert!(matches!(pristine::access_delete(&mut heap, obj, &[key]), Err(Error::AttrMissing { .. })));
    assert!(matches!(pristine::access(&mut heap, obj, &[val]), Err(Error::MissingKey { .. })));
    match pristine::access(&mut heap, obj, &[]) {
        Err(Error::MissingArgument { func, pos }) => {
            assert_eq!(func, ".");
            assert_eq!(pos, 0);
        },
        other => panic!("expected a missing argument, got {:?}", other),
    }
    // a method is found as a new function object
    let b = Object::new_variable_testing(&mut heap, AT_BOOL);
    let f = pristine::access(&mut heap, obj, &[b]).unwrap();
    assert!(matches!(heap.value(f), Data::RustFn(RustFn::Basic(_))));
}

#[test]
fn bound_object() {
    let mut heap = Heap::new();
    let obj = heap.new_object(Data::Blank);
    let val = Object::new_null(&mut heap);
    obj.set_attr(&mut heap, "k", val);
    let key = Object::new_variable_testing(&mut heap, "k");
    let bound = BoundObject::new(&mut heap, obj, key);
    assert_eq!(bound.bound_func(), Some(val));
    assert_eq!(bound.bound_parent(), obj);
    assert_eq!(bound.bound_key(), key);
    let other = Object::new_variable_testing(&mut heap, "zz");
    assert_eq!(BoundObject::new(&mut heap, obj, other).bound_func(), None);
}

#[test]
fn bound_object_methods() {
    let mut heap = Heap::new();
    let obj = heap.new_object(Data::Blank);
    // the attribute `f` is `&&`: called through the bound object, its
    // receiver is the parent and its argument is passed on
    let and = heap.new_object(Data::RustFn(RustFn::Basic(quest::object::types::basic::BasicFn::And)));
    obj.set_attr(&mut heap, "f", and);
    let key = Object::new_variable_testing(&mut heap, "f");
    let bound = Object::new_bound(&mut heap, obj, key);
    assert!(bound.is_bound(&heap));
    assert_eq!(bound.call_attr(&mut heap, FUNC, &[]).unwrap(), and);
    assert_eq!(bound.call_attr(&mut heap, PARENT, &[]).unwrap(), obj);
    assert_eq!(bound.call_attr(&mut heap, KEY, &[]).unwrap(), key);
    let arg = Object::new_null(&mut heap);
    // `()` runs `and` with the parent as receiver: the parent is truthy, so
    // the argument comes back
    assert_eq!(bound.call_attr(&mut heap, CALL, &[arg]).unwrap(), arg);
    // `=` sets the parent's attribute under the key
    let val = Object::new_null(&mut heap);
    assert_eq!(bound.call_attr(&mut heap, ASSIGN, &[val]).unwrap(), val);
    assert_eq!(obj.get_attr(&mut heap, "f"), Some(val));
    // nothing found: `()` and `func` give null
    let missing = Object::new_variable_testing(&mut heap, "zz");
    let empty = Object::new_bound(&mut heap, obj, missing);
    assert!(empty.call_attr(&mut heap, CALL, &[]).unwrap().is_null(&heap));
    assert!(empty.call_attr(&mut heap, FUNC, &[]).unwrap().is_null(&heap));
    match empty.call_attr(&mut heap, ASSIGN, &[]) {
        Err(Error::MissingArgument { func, pos }) => {
            assert_eq!(func, "=");
            assert_eq!(pos, 0);
        },
        other => panic!("expected a missing argument, got {:?}", other),
    }
}

#[test]
fn function_objects() {
    let mut heap = Heap::new();
    let and = heap.new_object(Data::RustFn(RustFn::Basic(quest::object::types::basic::BasicFn::And)));
    let name = and.call_attr(&mut heap, NAME, &[]).unwrap();
    assert_eq!(String::from(name.downcast_text(&heap).unwrap()), AND);
    // `()` takes its receiver from the first argument
    let yes = Object::new_boolean(&mut heap, true);
    let no = Object::new_boolean(&mut heap, false);
    let x = Object::new_null(&mut heap);
    assert_eq!(and.call_attr(&mut heap, CALL, &[yes, x]).unwrap(), x);
    assert_eq!(and.call_attr(&mut heap, CALL, &[no, x]).unwrap(), no);
    match and.call_attr(&mut heap, CALL, &[]) {
        Err(Error::MissingArgument { func, pos }) => {
            assert_eq!(func, CALL);
            assert_eq!(pos, 0);
        },
        other => panic!("expected a missing argument, got {:?}", other),
    }
}

#[test]
fn blocks() {
    let mut heap = Heap::new();
    let b = Object::new_block(&mut heap, Parens::Curly, "1 + 2".to_string());
    match heap.value(b) {
        Data::Block(block) => assert_eq!(block.to_text(), "{1 + 2}"),
        other => panic!("expected a block, got {:?}", other),
    }
    assert_eq!(Parens::try_from_start('('), Some(Parens::Round));
    assert_eq!(Parens::try_from_end(']'), Some(Parens::Square));
    assert_eq!(Parens::try_from_end('x'), None);
    assert!(heap.value(b).is(Kind::Block));
}

#[test]
fn into_object_and_type() {
    let mut heap = Heap::new();
    let b = Boolean::new(true).into_object(&mut heap);
    assert!(b.is_true(&heap));
    let t = Text::new("x".to_string()).into_object(&mut heap);
    assert!(t.is_text(&heap));
    let l = List::new(vec![b, t]).into_object(&mut heap);
    assert!(matches!(heap.value(l), Data::List(items) if items.len() == 2));
    assert_eq!(Boolean::type_kind(), Kind::Boolean);
    assert_eq!(List::type_kind(), Kind::List);
}

#[test]
fn clone_is_a_new_object() {
    let mut heap = Heap::new();
    let obj = heap.new_object(Data::Blank);
    let val = Object::new_null(&mut heap);
    obj.set_attr(&mut heap, "a", val);
    let c = obj.call_attr(&mut heap, "clone", &[]).unwrap();
    assert!(!c.ptr_eq(&obj));
    assert_eq!(c.get_attr(&mut heap, "a"), Some(val));
    let same = obj.call_attr(&mut heap, "===", &[c]).unwrap();
    assert!(!same.is_true(&heap));
}

#[test]
fn attribute_names_stay_unique() {
    let mut heap = Heap::new();
    let obj = heap.new_object(Data::Blank);
    let (a, b) = (Object::new_null(&mut heap), Object::new_null(&mut heap));
    assert_eq!(obj.set_attr(&mut heap, "x", a), None);
    assert_eq!(obj.set_attr(&mut heap, "x", b), Some(a));
    assert_eq!(obj.map(&heap).len(), 1);
    assert_eq!(obj.del_attr(&mut heap, "x"), Some(b));
    assert!(!obj.has_attr(&heap, "x"));
}
