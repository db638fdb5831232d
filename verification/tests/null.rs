use quest::error::Error;
use quest::object::{Heap, Object, Data, TypedObject};
use quest::object::types::{null, Null};
use quest::object::literal::consts::{AT_BOOL, AT_TEXT, AT_NUM, AT_MAP, AT_LIST, EQL, CALL};

fn blank(heap: &mut Heap) -> Object {
    heap.new_object(Data::Blank)
}

#[test]
fn null_at_bool() {
    let mut heap = Heap::new();
    let n = Object::new_null(&mut heap);
    let r = null::at_bool(&mut heap, n);
    assert!(!r.is_true(&heap));

    let b = blank(&mut heap);
    let r = n.call_attr(&mut heap, AT_BOOL, &[]).unwrap();
    assert!(!r.is_true(&heap));
    let r = n.call_attr(&mut heap, AT_BOOL, &[b]).unwrap();
    assert!(!r.is_true(&heap));
}

#[test]
fn null_at_text() {
    let mut heap = Heap::new();
    let n = Object::new_null(&mut heap);
    let r = null::at_text(&mut heap, n);
    assert_eq!(String::from(r.downcast_text(&heap).unwrap()), "null");

    let b = blank(&mut heap);
    let r = n.call_attr(&mut heap, AT_TEXT, &[]).unwrap();
    assert_eq!(String::from(r.downcast_text(&heap).unwrap()), "null");
    let r = n.call_attr(&mut heap, AT_TEXT, &[b]).unwrap();
    assert_eq!(String::from(r.downcast_text(&heap).unwrap()), "null");
}

#[test]
fn null_at_num() {
    let mut heap = Heap::new();
    let n = Object::new_null(&mut heap);
    let r = null::at_num(&mut heap, n);
    assert!(matches!(heap.value(r), Data::Num(x) if x.into_inner() == 0));

    let b = blank(&mut heap);
    let r = n.call_attr(&mut heap, AT_NUM, &[]).unwrap();
    assert!(matches!(heap.value(r), Data::Num(x) if x.into_inner() == 0));
    let r = n.call_attr(&mut heap, AT_NUM, &[b]).unwrap();
    assert!(matches!(heap.value(r), Data::Num(x) if x.into_inner() == 0));
}

#[test]
fn null_at_map() {
    let mut heap = Heap::new();
    let n = Object::new_null(&mut heap);
    let r = null::at_map(&mut heap, n);
    assert!(matches!(heap.value(r), Data::Dict(m) if m.len() == 0));

    let b = blank(&mut heap);
    let r = n.call_attr(&mut heap, AT_MAP, &[]).unwrap();
    assert!(matches!(heap.value(r), Data::Dict(m) if m.len() == 0));
    let r = n.call_attr(&mut heap, AT_MAP, &[b]).unwrap();
    assert!(matches!(heap.value(r), Data::Dict(m) if m.len() == 0));
}

#[test]
fn null_at_list() {
    let mut heap = Heap::new();
    let n = Object::new_null(&mut heap);
    let r = null::at_list(&mut heap, n);
    assert!(matches!(heap.value(r), Data::List(l) if l.is_empty()));

    let b = blank(&mut heap);
    let r = n.call_attr(&mut heap, AT_LIST, &[]).unwrap();
    assert!(matches!(heap.value(r), Data::List(l) if l.is_empty()));
    let r = n.call_attr(&mut heap, AT_LIST, &[b]).unwrap();
    assert!(matches!(heap.value(r), Data::List(l) if l.is_empty()));
}

#[test]
fn null_eql() {
    let mut heap = Heap::new();
    let n = Object::new_null(&mut heap);
    let r = null::eql(&mut heap, n, n);
    assert!(r.is_true(&heap));
    let n2 = Object::new_null(&mut heap);
    let r = null::eql(&mut heap, n, n2);
    assert!(r.is_true(&heap));

    let b = blank(&mut heap);
    let r = n.call_attr(&mut heap, EQL, &[n]).unwrap();
    assert!(r.is_true(&heap));
    let r = n.call_attr(&mut heap, EQL, &[b]).unwrap();
    assert!(!r.is_true(&heap));
    assert!(matches!(n.call_attr(&mut heap, EQL, &[]), Err(Error::MissingArgument { .. })));
}

#[test]
fn null_call() {
    let mut heap = Heap::new();
    let n = Object::new_null(&mut heap);
    let r = null::call(&mut heap, n, &[]);
    assert!(r.is_null(&heap));
    let n2 = Object::new_null(&mut heap);
    let r = null::call(&mut heap, n, &[n2]);
    assert!(r.is_null(&heap));

    let b = blank(&mut heap);
    let r = n.call_attr(&mut heap, CALL, &[]).unwrap();
    assert!(r.is_null(&heap));
    let r = n.call_attr(&mut heap, CALL, &[b]).unwrap();
    assert!(r.is_null(&heap));
}

#[test]
fn null_new() {
    assert_eq!(Null, Null);
}

#[test]
fn new_null() {
    let mut heap = Heap::new();
    let a = Object::new(&mut heap, TypedObject::new_null());
    let b = Object::new_null(&mut heap);
    assert!(a.equals(&mut heap, b));
    assert!(TypedObject::new_null().is_null());
    assert_eq!(a.downcast_null(&heap), Some(Null));
}

#[test]
fn to_null() {
    let mut heap = Heap::new();
    let n = Object::new_null(&mut heap);
    assert!(n.to_null(&heap).unwrap().ptr_eq(&n));
    let f = Object::new_boolean(&mut heap, false);
    assert!(matches!(f.to_null(&heap), Err(Error::CastError { .. })));
}

#[test]
fn is_null() {
    let mut heap = Heap::new();
    let n = Object::new_null(&mut heap);
    let f = Object::new_boolean(&mut heap, false);
    assert!(n.is_null(&heap));
    assert!(!f.is_null(&heap));
    assert_eq!(f.downcast_null(&heap), None);
}

#[test]
fn null_from_and_into() {
    assert_eq!(Null::from(()), Null);
    assert_eq!(<()>::from(Null), ());
}
