use quest::error::Error;
use quest::object::{Heap, Object, Data};
use quest::object::types::{list, List, Num, RustFn};
use quest::object::literal::consts::{AT_TEXT, AT_BOOL, EQL, ADD, ADD_ASSIGN, L_LEN, L_PUSH, L_POP, AT_LIST};

fn num(heap: &mut Heap, n: i64) -> Object {
    heap.new_object(Data::Num(Num::new(n)))
}

fn items(heap: &Heap, o: Object) -> Vec<Object> {
    match heap.value(o) {
        Data::List(l) => l.iter().to_vec(),
        other => panic!("expected a list, got {:?}", other),
    }
}

#[test]
fn list_struct() {
    let mut heap = Heap::new();
    let a = num(&mut heap, 1);
    let b = num(&mut heap, 2);
    let mut l = List::new(vec![a]);
    assert_eq!(l.len(), 1);
    assert!(!l.is_empty());
    l.push(b);
    assert_eq!(l.get(1), b);
    assert_eq!(l.pop(), Some(b));
    assert_eq!(l.pop(), Some(a));
    assert_eq!(l.pop(), None);
    assert!(List::empty().is_empty());
    assert_eq!(List::new(vec![a, b]).into_inner(), vec![a, b]);
}

#[test]
fn list_at_text() {
    let mut heap = Heap::new();
    let one = num(&mut heap, 1);
    let text = Object::new_text_str(&mut heap, "two");
    let inner = Object::new_list(&mut heap, vec![one]);
    let l = Object::new_list(&mut heap, vec![one, text, inner]);
    let r = list::at_text(&mut heap, l).unwrap();
    assert_eq!(String::from(r.downcast_text(&heap).unwrap()), "[1, two, [1]]");
    let empty = Object::new_list(&mut heap, vec![]);
    let r = empty.call_attr(&mut heap, AT_TEXT, &[]).unwrap();
    assert_eq!(String::from(r.downcast_text(&heap).unwrap()), "[]");
}

#[test]
fn list_eql() {
    let mut heap = Heap::new();
    let (a, b, c) = (num(&mut heap, 1), num(&mut heap, 1), num(&mut heap, 2));
    let l1 = Object::new_list(&mut heap, vec![a, c]);
    let l2 = Object::new_list(&mut heap, vec![b, c]);
    let l3 = Object::new_list(&mut heap, vec![b]);
    let l4 = Object::new_list(&mut heap, vec![c, a]);
    let r = list::eql(&mut heap, l1, l2).unwrap();
    assert!(r.is_true(&heap));
    let r = list::eql(&mut heap, l1, l3).unwrap();
    assert!(!r.is_true(&heap));
    let r = l1.call_attr(&mut heap, EQL, &[l4]).unwrap();
    assert!(!r.is_true(&heap));
    let t = Object::new_text_str(&mut heap, "[1, 2]");
    assert!(matches!(l1.call_attr(&mut heap, EQL, &[t]), Err(Error::CastError { .. })));
}

#[test]
fn list_of_texts_at_text() {
    let mut heap = Heap::new();
    let a = Object::new_text_str(&mut heap, "a");
    let b = Object::new_text_str(&mut heap, "b");
    let l = Object::new_list(&mut heap, vec![a, b]);
    let r = list::at_text(&mut heap, l).unwrap();
    assert_eq!(String::from(r.downcast_text(&heap).unwrap()), "[a, b]");
}

#[test]
fn list_eql_lengths_first() {
    let mut heap = Heap::new();
    // an element whose `==` fails is never compared when the lengths differ
    let bad = heap.new_object(Data::Blank);
    let fail = heap.new_object(Data::RustFn(RustFn::Fail));
    bad.set_attr(&mut heap, EQL, fail);
    let one = num(&mut heap, 1);
    let l1 = Object::new_list(&mut heap, vec![bad]);
    let l2 = Object::new_list(&mut heap, vec![one, one]);
    let r = list::eql(&mut heap, l1, l2).unwrap();
    assert!(!r.is_true(&heap));
    let l3 = Object::new_list(&mut heap, vec![one]);
    assert!(matches!(list::eql(&mut heap, l1, l3), Err(Error::Testing)));
}

#[test]
fn list_add_and_push() {
    let mut heap = Heap::new();
    let (a, b) = (num(&mut heap, 1), num(&mut heap, 2));
    let l1 = Object::new_list(&mut heap, vec![a]);
    let l2 = Object::new_list(&mut heap, vec![b]);
    let sum = l1.call_attr(&mut heap, ADD, &[l2]).unwrap();
    assert_eq!(items(&heap, sum), vec![a, b]);
    assert_eq!(items(&heap, l1), vec![a]);

    let r = l1.call_attr(&mut heap, ADD_ASSIGN, &[l2]).unwrap();
    assert!(r.ptr_eq(&l1));
    assert_eq!(items(&heap, l1), vec![a, b]);

    let r = l1.call_attr(&mut heap, L_PUSH, &[a]).unwrap();
    assert!(r.ptr_eq(&l1));
    assert_eq!(items(&heap, l1), vec![a, b, a]);
    let r = l1.call_attr(&mut heap, L_LEN, &[]).unwrap();
    assert!(matches!(heap.value(r), Data::Num(n) if n.into_inner() == 3));

    let r = l1.call_attr(&mut heap, L_POP, &[]).unwrap();
    assert!(r.ptr_eq(&a));
    assert_eq!(items(&heap, l1), vec![a, b]);

    let empty = Object::new_list(&mut heap, vec![]);
    let r = empty.call_attr(&mut heap, L_POP, &[]).unwrap();
    assert!(r.is_null(&heap));
    let r = empty.call_attr(&mut heap, AT_BOOL, &[]).unwrap();
    assert!(!r.is_true(&heap));

    let copy = l1.call_attr(&mut heap, AT_LIST, &[]).unwrap();
    assert!(!copy.ptr_eq(&l1));
    assert_eq!(items(&heap, copy), vec![a, b]);
}

#[test]
fn list_add_to_itself() {
    let mut heap = Heap::new();
    let a = num(&mut heap, 7);
    let l = Object::new_list(&mut heap, vec![a]);
    let r = l.call_attr(&mut heap, ADD_ASSIGN, &[l]).unwrap();
    assert!(r.ptr_eq(&l));
    assert_eq!(items(&heap, l), vec![a, a]);
}

#[test]
fn list_fns() {
    let mut heap = Heap::new();
    let (a, b) = (num(&mut heap, 1), num(&mut heap, 2));
    let l1 = Object::new_list(&mut heap, vec![a]);
    let l2 = Object::new_list(&mut heap, vec![b]);
    let r = list::add_assign(&mut heap, l1, l2);
    assert!(r.ptr_eq(&l1));
    assert_eq!(items(&heap, l1), vec![a, b]);
    let r = list::push(&mut heap, l2, a);
    assert!(r.ptr_eq(&l2));
    let r = list::pop(&mut heap, l2);
    assert!(r.ptr_eq(&a));
    assert_eq!(list::items_value(&heap, l2), vec![b]);
}
