use quest::error::Error;
use quest::object::{Heap, Object, Data, TypedObject};
use quest::object::types::{boolean, Boolean, Num};
use quest::object::literal::consts::{AT_BOOL, AT_TEXT, AT_NUM, NOT, EQL, B_XOR, B_AND, B_OR};

fn num(heap: &Heap, o: Object) -> i64 {
    match heap.value(o) {
        Data::Num(x) => x.into_inner(),
        other => panic!("expected a number, got {:?}", other),
    }
}

fn text(heap: &Heap, o: Object) -> String {
    String::from(o.downcast_text(heap).expect("expected a text"))
}

fn pair(heap: &mut Heap) -> (Object, Object) {
    (Object::new_boolean(heap, true), Object::new_boolean(heap, false))
}

fn is_param_missing(r: Result<Object, Error>) -> bool {
    matches!(r, Err(Error::MissingArgument { .. }))
}

#[test]
fn boolean_at_bool() {
    let mut heap = Heap::new();
    let (t, f) = pair(&mut heap);
    let r = boolean::at_bool(&mut heap, t);
    assert!(r.is_true(&heap));
    let r = boolean::at_bool(&mut heap, f);
    assert!(!r.is_true(&heap));
    // the result is a copy
    let r = boolean::at_bool(&mut heap, t);
    assert!(!r.ptr_eq(&t));

    let r = t.call_attr(&mut heap, AT_BOOL, &[]).unwrap();
    assert!(r.is_true(&heap));
    let r = f.call_attr(&mut heap, AT_BOOL, &[t]).unwrap();
    assert!(!r.is_true(&heap));
    let r = t.call_attr(&mut heap, AT_BOOL, &[]).unwrap();
    assert!(!r.ptr_eq(&t));
}

#[test]
fn boolean_at_text() {
    let mut heap = Heap::new();
    let (t, f) = pair(&mut heap);
    let r = boolean::at_text(&mut heap, t);
    assert_eq!(text(&heap, r), "true");
    let r = boolean::at_text(&mut heap, f);
    assert_eq!(text(&heap, r), "false");

    let r = t.call_attr(&mut heap, AT_TEXT, &[]).unwrap();
    assert_eq!(text(&heap, r), "true");
    let r = f.call_attr(&mut heap, AT_TEXT, &[t]).unwrap();
    assert_eq!(text(&heap, r), "false");
}

#[test]
fn boolean_at_num() {
    let mut heap = Heap::new();
    let (t, f) = pair(&mut heap);
    let r = boolean::at_num(&mut heap, t);
    assert_eq!(num(&heap, r), 1);
    let r = boolean::at_num(&mut heap, f);
    assert_eq!(num(&heap, r), 0);

    let r = t.call_attr(&mut heap, AT_NUM, &[]).unwrap();
    assert_eq!(num(&heap, r), 1);
    let r = f.call_attr(&mut heap, AT_NUM, &[t]).unwrap();
    assert_eq!(num(&heap, r), 0);
}

#[test]
fn boolean_not() {
    let mut heap = Heap::new();
    let (t, f) = pair(&mut heap);
    let r = boolean::not(&mut heap, t);
    assert!(!r.is_true(&heap));
    let r = boolean::not(&mut heap, f);
    assert!(r.is_true(&heap));

    let r = t.call_attr(&mut heap, NOT, &[]).unwrap();
    assert!(!r.is_true(&heap));
    let r = f.call_attr(&mut heap, NOT, &[t]).unwrap();
    assert!(r.is_true(&heap));
}

#[test]
fn boolean_eql() {
    let mut heap = Heap::new();
    let (t, f) = pair(&mut heap);
    for (a, b, expected) in [(t, t, true), (t, f, false), (f, t, false), (f, f, true)] {
        let r = boolean::eql(&mut heap, a, b);
        assert_eq!(r.is_true(&heap), expected);
    }

    let r = t.call_attr(&mut heap, EQL, &[t]).unwrap();
    assert!(r.is_true(&heap));
    let r = t.call_attr(&mut heap, EQL, &[f, t]).unwrap();
    assert!(!r.is_true(&heap));
    assert!(is_param_missing(t.call_attr(&mut heap, EQL, &[])));
}

#[test]
fn boolean_b_xor() {
    let mut heap = Heap::new();
    let (t, f) = pair(&mut heap);
    for (a, b, expected) in [(t, t, false), (t, f, true), (f, t, true), (f, f, false)] {
        let r = boolean::b_xor(&mut heap, a, b);
        assert_eq!(r.is_true(&heap), expected);
    }

    let r = t.call_attr(&mut heap, B_XOR, &[t]).unwrap();
    assert!(!r.is_true(&heap));
    let r = t.call_attr(&mut heap, B_XOR, &[f, t]).unwrap();
    assert!(r.is_true(&heap));
    assert!(is_param_missing(t.call_attr(&mut heap, B_XOR, &[])));
}

#[test]
fn boolean_b_and() {
    let mut heap = Heap::new();
    let (t, f) = pair(&mut heap);
    for (a, b, expected) in [(t, t, true), (t, f, false), (f, t, false), (f, f, false)] {
        let r = boolean::b_and(&mut heap, a, b);
        assert_eq!(r.is_true(&heap), expected);
    }

    let r = t.call_attr(&mut heap, B_AND, &[t]).unwrap();
    assert!(r.is_true(&heap));
    let r = t.call_attr(&mut heap, B_AND, &[f, t]).unwrap();
    assert!(!r.is_true(&heap));
    assert!(is_param_missing(t.call_attr(&mut heap, B_AND, &[])));
}

#[test]
fn boolean_b_or() {
    let mut heap = Heap::new();
    let (t, f) = pair(&mut heap);
    for (a, b, expected) in [(t, t, true), (t, f, true), (f, t, true), (f, f, false)] {
        let r = boolean::b_or(&mut heap, a, b);
        assert_eq!(r.is_true(&heap), expected);
    }

    let r = t.call_attr(&mut heap, B_OR, &[t]).unwrap();
    assert!(r.is_true(&heap));
    let r = t.call_attr(&mut heap, B_OR, &[f, t]).unwrap();
    assert!(r.is_true(&heap));
    assert!(is_param_missing(t.call_attr(&mut heap, B_OR, &[])));
}

#[test]
fn boolean_converts_its_argument() {
    let mut heap = Heap::new();
    let (t, _) = pair(&mut heap);
    let zero = heap.new_object(Data::Num(Num::new(0)));
    let r = t.call_attr(&mut heap, B_AND, &[zero]).unwrap();
    assert!(!r.is_true(&heap));
}

#[test]
fn boolean_new() {
    assert_eq!(Boolean::new(true), Boolean::new(true));
    assert_ne!(Boolean::new(true), Boolean::new(false));
    assert_eq!(Boolean::new(false), Boolean::new(false));
}

#[test]
fn new_boolean() {
    let mut heap = Heap::new();
    for b in [true, false] {
        let a = Object::new(&mut heap, TypedObject::new(Data::Boolean(Boolean::new(b))));
        let c = Object::new_boolean(&mut heap, b);
        assert!(a.equals(&mut heap, c));
    }
}

#[test]
fn to_boolean() {
    let mut heap = Heap::new();
    let (t, f) = pair(&mut heap);
    let r = t.to_boolean(&mut heap).unwrap();
    assert!(r.is_true(&heap));
    let r = f.to_boolean(&mut heap).unwrap();
    assert!(!r.is_true(&heap));
    let zero = heap.new_object(Data::Num(Num::new(0)));
    let r = zero.to_boolean(&mut heap).unwrap();
    assert!(!r.is_true(&heap));
    let one = heap.new_object(Data::Num(Num::new(1)));
    let r = one.to_boolean(&mut heap).unwrap();
    assert!(r.is_true(&heap));
}

#[test]
fn is_true() {
    assert_eq!(Boolean::new(true).is_true(), true);
    assert_eq!(Boolean::new(false).is_true(), false);
}

#[test]
fn boolean_from_and_into() {
    assert_eq!(Boolean::from(true), Boolean::new(true));
    assert_eq!(Boolean::from(false), Boolean::new(false));
    assert_eq!(bool::from(Boolean::new(true)), true);
    assert_eq!(bool::from(Boolean::new(false)), false);
}

#[test]
fn as_ref() {
    assert_eq!(Boolean::new(false).as_ref(), &false);
    assert_eq!(Boolean::new(true).as_ref(), &true);
}

#[test]
fn boolean_equality() {
    assert_eq!(Boolean::new(true), Boolean::new(true));
    assert_eq!(Boolean::new(false), Boolean::new(false));
    assert_ne!(Boolean::new(false), Boolean::new(true));
    assert_ne!(Boolean::new(true), Boolean::new(false));
}
