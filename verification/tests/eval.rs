use quest::error::Error;
use quest::object::{Heap, Object, Data};
use quest::object::types::Num;
use quest::object::typed::oper::Oper;
use quest::object::typed::eval::{Token, Parser, Environment};

fn n(heap: &mut Heap, x: i64) -> Token {
    Token::Value(heap.new_object(Data::Num(Num::new(x))))
}

fn value(heap: &Heap, o: Object) -> i64 {
    match heap.value(o) {
        Data::Num(x) => x.into_inner(),
        other => panic!("expected a number, got {:?}", other),
    }
}

/// Evaluates every token: `;` binds least tightly, so it yields to nothing.
fn run(heap: &mut Heap, tokens: Vec<Token>) -> Result<Option<Object>, Error> {
    let mut parser = Parser::new(tokens);
    let mut env = Environment::new();
    Oper::Endline.get_net_obj(heap, &mut parser, &mut env)
}

#[test]
fn evaluate_respects_precedence() {
    let mut heap = Heap::new();
    let toks = vec![n(&mut heap, 1), Token::Op(Oper::Add), n(&mut heap, 2), Token::Op(Oper::Mul), n(&mut heap, 3)];
    let r = run(&mut heap, toks).unwrap().unwrap();
    assert_eq!(value(&heap, r), 7);

    let toks = vec![n(&mut heap, 2), Token::Op(Oper::Mul), n(&mut heap, 3), Token::Op(Oper::Add), n(&mut heap, 1)];
    let r = run(&mut heap, toks).unwrap().unwrap();
    assert_eq!(value(&heap, r), 7);
}

#[test]
fn evaluate_groups_by_arity() {
    let mut heap = Heap::new();
    let toks = vec![n(&mut heap, 10), Token::Op(Oper::Sub), n(&mut heap, 3), Token::Op(Oper::Sub), n(&mut heap, 2)];
    let r = run(&mut heap, toks).unwrap().unwrap();
    assert_eq!(value(&heap, r), 5);

    let toks = vec![n(&mut heap, 2), Token::Op(Oper::Pow), n(&mut heap, 3), Token::Op(Oper::Pow), n(&mut heap, 2)];
    let r = run(&mut heap, toks).unwrap().unwrap();
    assert_eq!(value(&heap, r), 512);
}

#[test]
fn evaluate_missing_operands() {
    let mut heap = Heap::new();
    let toks = vec![Token::Op(Oper::Add), n(&mut heap, 1)];
    match run(&mut heap, toks) {
        Err(Error::MissingArgument { func, pos }) => {
            assert_eq!(func, "+");
            assert_eq!(pos, 0);
        },
        other => panic!("expected a missing argument, got {:?}", other),
    }
    let toks = vec![n(&mut heap, 1), Token::Op(Oper::Add)];
    match run(&mut heap, toks) {
        Err(Error::MissingArgument { func, pos }) => {
            assert_eq!(func, "+");
            assert_eq!(pos, 1);
        },
        other => panic!("expected a missing argument, got {:?}", other),
    }
    let toks = vec![n(&mut heap, 1), Token::Op(Oper::Comma)];
    assert!(matches!(run(&mut heap, toks), Err(Error::NothingToReturn)));
    assert!(run(&mut heap, vec![]).unwrap().is_none());
}

#[test]
fn parser_and_environment() {
    let mut heap = Heap::new();
    let one = n(&mut heap, 1);
    let mut p = Parser::new(vec![one, Token::Op(Oper::Neg)]);
    assert_eq!(p.next_unevaluated_object(), Some(one));
    assert_eq!(p.next_unevaluated_object(), Some(Token::Op(Oper::Neg)));
    assert_eq!(p.next_unevaluated_object(), None);
    p.rollback();
    assert_eq!(p.next_unevaluated_object(), Some(Token::Op(Oper::Neg)));

    let mut env = Environment::new();
    let o = Object::new_null(&mut heap);
    env.push(o);
    assert_eq!(env.pop(), Some(o));
    assert_eq!(env.pop(), None);
    assert!(Oper::Add.yields_to(&Oper::Add));
    assert!(!Oper::Pow.yields_to(&Oper::Pow));
    assert!(Oper::Mul.yields_to(&Oper::Add));
    assert!(!Oper::Add.yields_to(&Oper::Mul));
}
