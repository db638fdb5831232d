use quest::error::Error;
use quest::object::{Heap, Object, Data};
use quest::object::types::{basic, RustFn};
use quest::object::types::basic::BasicFn;
use quest::object::literal::consts::{STRICT_EQL, STRICT_NEQ, EQL, NEQ, AT_BOOL, AT_TEXT, ARROW_LEFT, NOT};

fn boolean(r: Result<Object, Error>, heap: &Heap) -> bool {
    match heap.value(r.expect("the call failed")) {
        Data::Boolean(b) => b.is_true(),
        other => panic!("expected a boolean, got {:?}", other),
    }
}

fn blank(heap: &mut Heap) -> Object {
    heap.new_object(Data::Blank)
}

/// A blank object whose own attribute `name` always returns `result`.
fn blank_with(heap: &mut Heap, name: &str, result: Object) -> Object {
    let obj = blank(heap);
    let f = heap.new_object(Data::RustFn(RustFn::Const(result)));
    obj.set_attr(heap, name, f);
    obj
}

/// A blank object whose own attribute `name` always fails.
fn blank_failing(heap: &mut Heap, name: &str) -> Object {
    let obj = blank(heap);
    let f = heap.new_object(Data::RustFn(RustFn::Fail));
    obj.set_attr(heap, name, f);
    obj
}

fn blank_but_false(heap: &mut Heap) -> Object {
    let f = Object::new_boolean(heap, false);
    blank_with(heap, AT_BOOL, f)
}

fn is_param_missing(r: Result<Object, Error>) -> bool {
    matches!(r, Err(Error::MissingArgument { .. }))
}

#[test]
fn basic_strict_eql() {
    let mut heap = Heap::new();
    let obj = blank(&mut heap);
    let obj_clone = obj;
    let obj_duplicate = blank(&mut heap);

    assert_eq!(boolean(basic::strict_eql(&mut heap, obj, &[obj]), &heap), true);
    assert_eq!(boolean(basic::strict_eql(&mut heap, obj, &[obj_clone]), &heap), true);
    assert_eq!(boolean(basic::strict_eql(&mut heap, obj, &[obj_duplicate]), &heap), false);
    assert_eq!(boolean(basic::strict_eql(&mut heap, obj, &[obj_duplicate, obj]), &heap), false);

    assert!(is_param_missing(basic::strict_eql(&mut heap, obj, &[])));
}

#[test]
fn basic_strict_neq() {
    let mut heap = Heap::new();
    let obj = blank(&mut heap);
    let obj_clone = obj;
    let obj_duplicate = blank(&mut heap);

    assert_eq!(boolean(basic::strict_neq(&mut heap, obj, &[obj]), &heap), false);
    assert_eq!(boolean(basic::strict_neq(&mut heap, obj, &[obj_clone]), &heap), false);
    assert_eq!(boolean(basic::strict_neq(&mut heap, obj, &[obj_duplicate]), &heap), true);
    assert_eq!(boolean(basic::strict_neq(&mut heap, obj, &[obj_duplicate, obj]), &heap), true);

    assert!(is_param_missing(basic::strict_neq(&mut heap, obj, &[])));
}

#[test]
fn basic_at_bool() {
    let mut heap = Heap::new();
    let obj = blank(&mut heap);
    let other = blank_but_false(&mut heap);
    assert_eq!(boolean(basic::at_bool(&mut heap, obj, &[]), &heap), true);
    assert_eq!(boolean(basic::at_bool(&mut heap, obj, &[other]), &heap), true);
}

#[test]
fn basic_eql() {
    let mut heap = Heap::new();
    let obj = blank(&mut heap);
    let obj_clone = obj;
    let obj_duplicate = blank(&mut heap);

    assert_eq!(boolean(basic::eql(&mut heap, obj, &[obj]), &heap), true);
    assert_eq!(boolean(basic::eql(&mut heap, obj, &[obj_clone]), &heap), true);
    assert_eq!(boolean(basic::eql(&mut heap, obj, &[obj_duplicate]), &heap), false);
    assert_eq!(boolean(basic::eql(&mut heap, obj, &[obj_duplicate, obj]), &heap), false);

    assert!(is_param_missing(basic::eql(&mut heap, obj, &[])));
}

#[test]
fn basic_neq() {
    let mut heap = Heap::new();
    let obj = blank(&mut heap);
    let obj_clone = obj;
    let obj_duplicate = blank(&mut heap);

    assert_eq!(boolean(basic::neq(&mut heap, obj, &[obj]), &heap), false);
    assert_eq!(boolean(basic::neq(&mut heap, obj, &[obj_clone]), &heap), false);
    assert_eq!(boolean(basic::neq(&mut heap, obj, &[obj_duplicate]), &heap), true);
    assert_eq!(boolean(basic::neq(&mut heap, obj, &[obj_duplicate, obj]), &heap), true);

    assert!(is_param_missing(basic::neq(&mut heap, obj, &[])));
}

#[test]
fn basic_arrow_right() {
    let mut heap = Heap::new();
    let obj1 = blank(&mut heap);
    let obj2 = blank(&mut heap);
    match basic::arrow_right(&mut heap, obj1, &[obj2]) {
        Err(Error::AttrMissing { attr, obj }) => {
            assert!(obj.ptr_eq(&obj2));
            assert_eq!(attr, ARROW_LEFT);
        },
        other => panic!("got bad result {:?}", other),
    }

    // `<-` on the receiver is called with the object on the left of `->`.
    let null = Object::new_null(&mut heap);
    let cantake = blank_with(&mut heap, ARROW_LEFT, null);
    let r = basic::arrow_right(&mut heap, obj1, &[cantake, obj2]).unwrap();
    assert!(r.is_null(&heap));
    assert!(r.ptr_eq(&null));

    // `&&` as `<-` answers with its argument (its receiver is truthy):
    // that argument is the object on the left of `->`.
    let cantake = blank(&mut heap);
    let and = heap.new_object(Data::RustFn(RustFn::Basic(BasicFn::And)));
    cantake.set_attr(&mut heap, ARROW_LEFT, and);
    let r = basic::arrow_right(&mut heap, obj1, &[cantake, obj2]).unwrap();
    assert!(r.ptr_eq(&obj1));

    // `||` as `<-` answers with its receiver: the object on the right of `->`.
    let or = heap.new_object(Data::RustFn(RustFn::Basic(BasicFn::Or)));
    cantake.set_attr(&mut heap, ARROW_LEFT, or);
    let r = basic::arrow_right(&mut heap, obj1, &[cantake, obj2]).unwrap();
    assert!(r.ptr_eq(&cantake));
}

#[test]
fn basic_not() {
    let mut heap = Heap::new();
    let b1 = blank(&mut heap);
    let b2 = blank(&mut heap);
    let f = blank_but_false(&mut heap);
    let f2 = blank_but_false(&mut heap);
    assert_eq!(boolean(basic::not(&mut heap, b1, &[]), &heap), false);
    assert_eq!(boolean(basic::not(&mut heap, b2, &[f]), &heap), false);
    assert_eq!(boolean(basic::not(&mut heap, f2, &[]), &heap), true);
}

#[test]
fn basic_and() {
    let mut heap = Heap::new();
    let t = blank(&mut heap);
    let f = blank_but_false(&mut heap);
    let e = blank_failing(&mut heap, AT_BOOL);
    let f2 = blank_but_false(&mut heap);
    let t2 = blank(&mut heap);

    assert!(basic::and(&mut heap, t, &[t]).unwrap().ptr_eq(&t));
    assert!(basic::and(&mut heap, t, &[t2]).unwrap().ptr_eq(&t2));
    assert!(basic::and(&mut heap, t, &[f]).unwrap().ptr_eq(&f));
    assert!(basic::and(&mut heap, t, &[f, e]).unwrap().ptr_eq(&f));
    assert!(basic::and(&mut heap, t, &[e]).unwrap().ptr_eq(&e));

    assert!(basic::and(&mut heap, f, &[t]).unwrap().ptr_eq(&f));
    assert!(basic::and(&mut heap, f, &[f2]).unwrap().ptr_eq(&f));
    assert!(basic::and(&mut heap, f, &[f]).unwrap().ptr_eq(&f));
    assert!(basic::and(&mut heap, f, &[t, e]).unwrap().ptr_eq(&f));
    assert!(basic::and(&mut heap, f, &[e]).unwrap().ptr_eq(&f));

    assert!(matches!(basic::and(&mut heap, e, &[t]).unwrap_err(), Error::Testing));
    assert!(matches!(basic::and(&mut heap, e, &[f2]).unwrap_err(), Error::Testing));
    assert!(matches!(basic::and(&mut heap, e, &[f]).unwrap_err(), Error::Testing));
    assert!(matches!(basic::and(&mut heap, e, &[f, e]).unwrap_err(), Error::Testing));
    assert!(matches!(basic::and(&mut heap, e, &[e]).unwrap_err(), Error::Testing));
}

#[test]
fn basic_or() {
    let mut heap = Heap::new();
    let t = blank(&mut heap);
    let f = blank_but_false(&mut heap);
    let e = blank_failing(&mut heap, AT_BOOL);
    let f2 = blank_but_false(&mut heap);
    let fresh = blank(&mut heap);

    assert!(basic::or(&mut heap, t, &[t]).unwrap().ptr_eq(&t));
    assert!(basic::or(&mut heap, t, &[fresh]).unwrap().ptr_eq(&t));
    assert!(basic::or(&mut heap, t, &[f]).unwrap().ptr_eq(&t));
    assert!(basic::or(&mut heap, t, &[f, e]).unwrap().ptr_eq(&t));
    assert!(basic::or(&mut heap, t, &[e]).unwrap().ptr_eq(&t));

    assert!(basic::or(&mut heap, f, &[t]).unwrap().ptr_eq(&t));
    assert!(basic::or(&mut heap, f, &[f2]).unwrap().ptr_eq(&f2));
    assert!(basic::or(&mut heap, f, &[f]).unwrap().ptr_eq(&f));
    assert!(basic::or(&mut heap, f, &[t, e]).unwrap().ptr_eq(&t));
    assert!(basic::or(&mut heap, f, &[e]).unwrap().ptr_eq(&e));

    assert!(matches!(basic::or(&mut heap, e, &[t]).unwrap_err(), Error::Testing));
    assert!(matches!(basic::or(&mut heap, e, &[f2]).unwrap_err(), Error::Testing));
    assert!(matches!(basic::or(&mut heap, e, &[f]).unwrap_err(), Error::Testing));
    assert!(matches!(basic::or(&mut heap, e, &[f, e]).unwrap_err(), Error::Testing));
    assert!(matches!(basic::or(&mut heap, e, &[e]).unwrap_err(), Error::Testing));
}

/// A blank object whose `===` is always true.
fn strictly_eq_always(heap: &mut Heap) -> Object {
    let t = Object::new_boolean(heap, true);
    blank_with(heap, STRICT_EQL, t)
}

/// A blank object whose `!==` is always true.
fn strictly_neq_always(heap: &mut Heap) -> Object {
    let t = Object::new_boolean(heap, true);
    blank_with(heap, STRICT_NEQ, t)
}

/// A blank object whose `==` is always false, and whose `===` and `!==` fail.
fn eq_never_strict_crash(heap: &mut Heap) -> Object {
    let f = Object::new_boolean(heap, false);
    let obj = blank_with(heap, EQL, f);
    let crash = heap.new_object(Data::RustFn(RustFn::Fail));
    obj.set_attr(heap, STRICT_EQL, crash);
    obj.set_attr(heap, STRICT_NEQ, crash);
    obj
}

#[test]
fn strict_eql() {
    let mut heap = Heap::new();
    let obj = blank(&mut heap);
    let obj_clone = obj;
    let obj_duplicate = blank(&mut heap);

    assert_eq!(boolean(obj.call_attr(&mut heap, STRICT_EQL, &[obj]), &heap), true);
    assert_eq!(boolean(obj.call_attr(&mut heap, STRICT_EQL, &[obj_clone]), &heap), true);
    assert_eq!(boolean(obj.call_attr(&mut heap, STRICT_EQL, &[obj_duplicate]), &heap), false);
    assert_eq!(boolean(obj.call_attr(&mut heap, STRICT_EQL, &[obj_duplicate, obj]), &heap), false);

    assert!(is_param_missing(obj.call_attr(&mut heap, STRICT_EQL, &[])));

    let obj = strictly_eq_always(&mut heap);
    let obj_clone = obj;
    let obj_duplicate = strictly_eq_always(&mut heap);

    assert_eq!(boolean(obj.call_attr(&mut heap, STRICT_EQL, &[obj]), &heap), true);
    assert_eq!(boolean(obj.call_attr(&mut heap, STRICT_EQL, &[obj_clone]), &heap), true);
    assert_eq!(boolean(obj.call_attr(&mut heap, STRICT_EQL, &[obj_duplicate]), &heap), true);
}

#[test]
fn strict_neq() {
    let mut heap = Heap::new();
    let obj = blank(&mut heap);
    let obj_clone = obj;
    let obj_duplicate = blank(&mut heap);

    assert_eq!(boolean(obj.call_attr(&mut heap, STRICT_NEQ, &[obj]), &heap), false);
    assert_eq!(boolean(obj.call_attr(&mut heap, STRICT_NEQ, &[obj_clone]), &heap), false);
    assert_eq!(boolean(obj.call_attr(&mut heap, STRICT_NEQ, &[obj_duplicate]), &heap), true);
    assert_eq!(boolean(obj.call_attr(&mut heap, STRICT_NEQ, &[obj_duplicate, obj]), &heap), true);

    assert!(is_param_missing(obj.call_attr(&mut heap, STRICT_NEQ, &[])));

    let obj = strictly_eq_always(&mut heap);
    let obj_clone = obj;
    let obj_duplicate = strictly_eq_always(&mut heap);

    assert_eq!(boolean(obj.call_attr(&mut heap, STRICT_NEQ, &[obj]), &heap), false);
    assert_eq!(boolean(obj.call_attr(&mut heap, STRICT_NEQ, &[obj_clone]), &heap), false);
    assert_eq!(boolean(obj.call_attr(&mut heap, STRICT_NEQ, &[obj_duplicate]), &heap), false);

    let obj = strictly_neq_always(&mut heap);
    let obj_clone = obj;
    let obj_duplicate = strictly_neq_always(&mut heap);

    assert_eq!(boolean(obj.call_attr(&mut heap, STRICT_NEQ, &[obj]), &heap), true);
    assert_eq!(boolean(obj.call_attr(&mut heap, STRICT_NEQ, &[obj_clone]), &heap), true);
    assert_eq!(boolean(obj.call_attr(&mut heap, STRICT_NEQ, &[obj_duplicate]), &heap), true);
}

#[test]
fn at_bool() {
    let mut heap = Heap::new();
    let obj = blank(&mut heap);
    let other = blank_but_false(&mut heap);
    assert_eq!(boolean(obj.call_attr(&mut heap, AT_BOOL, &[]), &heap), true);
    assert_eq!(boolean(obj.call_attr(&mut heap, AT_BOOL, &[other]), &heap), true);

    let obj = blank_but_false(&mut heap);
    let other = blank(&mut heap);
    assert_eq!(boolean(obj.call_attr(&mut heap, AT_BOOL, &[]), &heap), false);
    assert_eq!(boolean(obj.call_attr(&mut heap, AT_BOOL, &[other]), &heap), false);
}

#[test]
fn basic_at_text() {
    const TEXT: &'static str = "im textually savvy";
    let mut heap = Heap::new();
    let text = Object::new_text_str(&mut heap, TEXT);
    let obj = blank_with(&mut heap, AT_TEXT, text);
    let other = blank(&mut heap);

    let r = obj.call_attr(&mut heap, AT_TEXT, &[]).unwrap();
    assert_eq!(String::from(r.downcast_text(&heap).unwrap()), TEXT);
    let r = obj.call_attr(&mut heap, AT_TEXT, &[other]).unwrap();
    assert_eq!(String::from(r.downcast_text(&heap).unwrap()), TEXT);
}

#[test]
fn eql() {
    let mut heap = Heap::new();
    let obj = blank(&mut heap);
    let obj_clone = obj;
    let obj_duplicate = blank(&mut heap);

    assert_eq!(boolean(obj.call_attr(&mut heap, EQL, &[obj]), &heap), true);
    assert_eq!(boolean(obj.call_attr(&mut heap, EQL, &[obj_clone]), &heap), true);
    assert_eq!(boolean(obj.call_attr(&mut heap, EQL, &[obj_duplicate]), &heap), false);
    assert_eq!(boolean(obj.call_attr(&mut heap, EQL, &[obj_duplicate, obj]), &heap), false);

    assert!(is_param_missing(obj.call_attr(&mut heap, EQL, &[])));

    let obj = strictly_eq_always(&mut heap);
    let obj_clone = obj;
    let obj_duplicate = strictly_eq_always(&mut heap);

    assert_eq!(boolean(obj.call_attr(&mut heap, EQL, &[obj]), &heap), true);
    assert_eq!(boolean(obj.call_attr(&mut heap, EQL, &[obj_clone]), &heap), true);
    assert_eq!(boolean(obj.call_attr(&mut heap, EQL, &[obj_duplicate]), &heap), true);

    let obj = eq_never_strict_crash(&mut heap);
    let obj_clone = obj;
    let obj_duplicate = eq_never_strict_crash(&mut heap);

    assert_eq!(boolean(obj.call_attr(&mut heap, EQL, &[obj]), &heap), false);
    assert_eq!(boolean(obj.call_attr(&mut heap, EQL, &[obj_clone]), &heap), false);
    assert_eq!(boolean(obj.call_attr(&mut heap, EQL, &[obj_duplicate]), &heap), false);
}

#[test]
fn neq() {
    let mut heap = Heap::new();
    let obj = blank(&mut heap);
    let obj_clone = obj;
    let obj_duplicate = blank(&mut heap);

    assert_eq!(boolean(obj.call_attr(&mut heap, NEQ, &[obj]), &heap), false);
    assert_eq!(boolean(obj.call_attr(&mut heap, NEQ, &[obj_clone]), &heap), false);
    assert_eq!(boolean(obj.call_attr(&mut heap, NEQ, &[obj_duplicate]), &heap), true);
    assert_eq!(boolean(obj.call_attr(&mut heap, NEQ, &[obj_duplicate, obj]), &heap), true);

    assert!(is_param_missing(obj.call_attr(&mut heap, NEQ, &[])));

    let obj = strictly_eq_always(&mut heap);
    let obj_clone = obj;
    let obj_duplicate = strictly_eq_always(&mut heap);

    assert_eq!(boolean(obj.call_attr(&mut heap, NEQ, &[obj]), &heap), false);
    assert_eq!(boolean(obj.call_attr(&mut heap, NEQ, &[obj_clone]), &heap), false);
    assert_eq!(boolean(obj.call_attr(&mut heap, NEQ, &[obj_duplicate]), &heap), false);

    let obj = strictly_neq_always(&mut heap);
    let obj_clone = obj;
    let obj_duplicate = strictly_neq_always(&mut heap);

    assert_eq!(boolean(obj.call_attr(&mut heap, NEQ, &[obj]), &heap), false);
    assert_eq!(boolean(obj.call_attr(&mut heap, NEQ, &[obj_clone]), &heap), false);
    assert_eq!(boolean(obj.call_attr(&mut heap, NEQ, &[obj_duplicate]), &heap), true);

    let obj = eq_never_strict_crash(&mut heap);
    let obj_clone = obj;
    let obj_duplicate = eq_never_strict_crash(&mut heap);

    assert_eq!(boolean(obj.call_attr(&mut heap, NEQ, &[obj]), &heap), true);
    assert_eq!(boolean(obj.call_attr(&mut heap, NEQ, &[obj_clone]), &heap), true);
    assert_eq!(boolean(obj.call_attr(&mut heap, NEQ, &[obj_duplicate]), &heap), true);
}

#[test]
fn not_calls_not_on_the_boolean() {
    let mut heap = Heap::new();
    let obj = blank(&mut heap);
    let r = obj.call_attr(&mut heap, NOT, &[]);
    assert_eq!(boolean(r, &heap), false);
}
