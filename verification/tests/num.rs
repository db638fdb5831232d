use quest::error::Error;
use quest::object::{Heap, Object, Data};
use quest::object::types::{num, Num};
use quest::object::types::num::NumFn;
use quest::object::literal::consts::{ADD, SUB, MUL, DIV, MOD, POW, CMP, LTH, AT_TEXT, NEG, POS, B_LSH};

fn n(heap: &mut Heap, x: i64) -> Object {
    heap.new_object(Data::Num(Num::new(x)))
}

fn value(heap: &Heap, o: Object) -> i64 {
    match heap.value(o) {
        Data::Num(x) => x.into_inner(),
        other => panic!("expected a number, got {:?}", other),
    }
}

#[test]
fn num_arithmetic() {
    let mut heap = Heap::new();
    let (a, b) = (n(&mut heap, -7), n(&mut heap, 2));
    for (attr, expected) in [(ADD, -5), (SUB, -9), (MUL, -14), (DIV, -3), (MOD, -1), (CMP, -1)] {
        let r = a.call_attr(&mut heap, attr, &[b]).unwrap();
        assert_eq!(value(&heap, r), expected, "{}", attr);
    }
    let r = b.call_attr(&mut heap, POW, &[b]).unwrap();
    assert_eq!(value(&heap, r), 4);
    let r = b.call_attr(&mut heap, B_LSH, &[b]).unwrap();
    assert_eq!(value(&heap, r), 8);
    let r = a.call_attr(&mut heap, LTH, &[b]).unwrap();
    assert!(r.is_true(&heap));
    let r = a.call_attr(&mut heap, NEG, &[]).unwrap();
    assert_eq!(value(&heap, r), 7);
    let r = a.call_attr(&mut heap, POS, &[]).unwrap();
    assert_eq!(value(&heap, r), 7);
    let r = a.call_attr(&mut heap, AT_TEXT, &[]).unwrap();
    assert_eq!(String::from(r.downcast_text(&heap).unwrap()), "-7");
}

#[test]
fn num_errors() {
    let mut heap = Heap::new();
    let (max, zero, one, minus) = (n(&mut heap, i64::MAX), n(&mut heap, 0), n(&mut heap, 1), n(&mut heap, -1));
    assert!(matches!(max.call_attr(&mut heap, ADD, &[one]), Err(Error::Overflow)));
    assert!(matches!(one.call_attr(&mut heap, DIV, &[zero]), Err(Error::DivideByZero)));
    assert!(matches!(one.call_attr(&mut heap, MOD, &[zero]), Err(Error::DivideByZero)));
    assert!(matches!(one.call_attr(&mut heap, POW, &[minus]), Err(Error::BadArgument { pos: 0, .. })));
    let min = n(&mut heap, i64::MIN);
    assert!(matches!(min.call_attr(&mut heap, DIV, &[minus]), Err(Error::Overflow)));
    assert!(matches!(min.call_attr(&mut heap, NEG, &[]), Err(Error::Overflow)));
    let text = Object::new_text_str(&mut heap, "x");
    assert!(matches!(one.call_attr(&mut heap, ADD, &[text]), Err(Error::BadArgument { pos: 0, .. })));
}

#[test]
fn num_plain() {
    assert_eq!(num::int_to_text(i64::MIN), "-9223372036854775808");
    assert_eq!(num::int_to_text(0), "0");
    assert_eq!(num::parse_text("-12"), Some(-12));
    assert_eq!(num::parse_text("12a"), None);
    assert_eq!(num::checked_pow(3, 4), Some(81));
    assert_eq!(num::checked_pow(2, 63), None);
    assert!(matches!(num::binary(NumFn::Mod, 7, -2), Ok(Data::Num(x)) if x.into_inner() == 1));
    assert!(matches!(num::unary(NumFn::Neg, 5), Ok(Data::Num(x)) if x.into_inner() == -5));
}

#[test]
fn num_heap_fns() {
    let mut heap = Heap::new();
    let (a, b) = (n(&mut heap, 6), n(&mut heap, 4));
    let r = num::add(&mut heap, a, b).unwrap();
    assert_eq!(value(&heap, r), 10);
    let r = num::rem(&mut heap, a, b).unwrap();
    assert_eq!(value(&heap, r), 2);
    let r = num::cmp(&mut heap, b, a).unwrap();
    assert_eq!(value(&heap, r), -1);
    let r = num::at_bool(&mut heap, a);
    assert!(r.is_true(&heap));
}

#[test]
fn num_text_roundtrip() {
    let mut heap = Heap::new();
    for x in [0i64, 7, -7, 10, -100, 1234567890, i64::MAX, i64::MIN] {
        let o = n(&mut heap, x);
        let t = o.call_attr(&mut heap, AT_TEXT, &[]).unwrap();
        let back = t.call_attr(&mut heap, quest::object::literal::consts::AT_NUM, &[]).unwrap();
        assert_eq!(value(&heap, back), x);
    }
}

#[test]
fn num_div_rem_split_the_dividend() {
    let mut heap = Heap::new();
    for (x, y) in [(7i64, 2i64), (-7, 2), (7, -2), (-7, -2), (0, 5), (i64::MIN, 3)] {
        let (a, b) = (n(&mut heap, x), n(&mut heap, y));
        let q = a.call_attr(&mut heap, DIV, &[b]).unwrap();
        let r = a.call_attr(&mut heap, MOD, &[b]).unwrap();
        let (q, r) = (value(&heap, q), value(&heap, r));
        assert_eq!(x as i128, y as i128 * q as i128 + r as i128);
        assert!(r.unsigned_abs() < y.unsigned_abs());
        assert!(r == 0 || (r < 0) == (x < 0));
    }
}
