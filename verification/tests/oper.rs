use quest::error::Error;
use quest::object::{Heap, Object, Data};
use quest::object::types::Num;
use quest::object::typed::oper::{Oper, Arity, Precedence};

#[test]
fn oper_parse_longest() {
    assert_eq!(Oper::parse("**= 3"), Some((Oper::PowEq, 3)));
    assert_eq!(Oper::parse("** 3"), Some((Oper::Pow, 2)));
    assert_eq!(Oper::parse("*3"), Some((Oper::Mul, 1)));
    assert_eq!(Oper::parse("<=>"), Some((Oper::Cmp, 3)));
    assert_eq!(Oper::parse("<= 4"), Some((Oper::Leq, 2)));
    assert_eq!(Oper::parse("<<="), Some((Oper::BitShlEq, 3)));
    assert_eq!(Oper::parse("<-x"), Some((Oper::ArrowLeft, 2)));
    assert_eq!(Oper::parse("and then"), Some((Oper::And, 3)));
    assert_eq!(Oper::parse("::x"), Some((Oper::ColonColon, 2)));
    assert_eq!(Oper::parse(":"), Some((Oper::Call, 1)));
    assert_eq!(Oper::parse("+@"), Some((Oper::Pos, 2)));
    assert_eq!(Oper::parse("abc"), None);
    assert_eq!(Oper::parse(""), None);
}

#[test]
fn oper_properties() {
    assert_eq!(Oper::Pow.arity(), Arity::BinaryRtoL);
    assert_eq!(Oper::Add.arity(), Arity::BinaryLtoR);
    assert_eq!(Oper::Not.arity(), Arity::UnaryOnL);
    assert_eq!(Oper::Execute.arity(), Arity::UnaryOnR);
    assert_eq!(Oper::Comma.arity(), Arity::Nonary);
    assert_eq!(Oper::Mul.precedence(), Precedence::Mul_Div_Mod);
    assert!(Oper::Mul.precedence() < Oper::Add.precedence());
    assert_eq!(Oper::Call.sigil(), ":");
    assert_eq!(Oper::Call.call_sigil(), "()");
    assert_eq!(Oper::Add.call_sigil(), "+");
}

#[test]
fn oper_call() {
    let mut heap = Heap::new();
    let a = heap.new_object(Data::Num(Num::new(2)));
    let b = heap.new_object(Data::Num(Num::new(3)));
    let r = Oper::Add.call(&mut heap, &[a, b]).unwrap();
    assert!(matches!(heap.value(r), Data::Num(n) if n.into_inner() == 5));
    let r = Oper::Pow.call(&mut heap, &[a, b]).unwrap();
    assert!(matches!(heap.value(r), Data::Num(n) if n.into_inner() == 8));
    assert!(matches!(Oper::Comma.call(&mut heap, &[a]), Err(Error::NothingToReturn)));
    assert!(matches!(Oper::Add.call(&mut heap, &[a]), Err(Error::MissingArgument { pos: 1, .. })));
    assert!(matches!(Oper::Add.call(&mut heap, &[]), Err(Error::MissingArgument { pos: 0, .. })));
    match Oper::Sub.call(&mut heap, &[a]) {
        Err(Error::MissingArgument { func, pos }) => {
            assert_eq!(func, "-");
            assert_eq!(pos, 1);
        },
        other => panic!("expected a missing argument, got {:?}", other),
    }

    // `:` calls its first operand with the elements of its second
    let n = Object::new_null(&mut heap);
    let args = Object::new_list(&mut heap, vec![a]);
    let r = Oper::Call.call(&mut heap, &[n, args]).unwrap();
    assert!(r.is_null(&heap));
}
