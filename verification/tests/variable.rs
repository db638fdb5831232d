use quest::object::{Heap, Object, Data, TypedObject};
use quest::object::types::Variable;
use quest::object::literal::Literal;

fn l(s: &str) -> Literal {
    Literal::new_testing(s)
}

#[test]
fn variable_new() {
    assert_eq!(Variable::new(l("")).into_inner(), l(""));
    assert_eq!(Variable::new(l("foobar")).into_inner(), l("foobar"));
    assert_eq!(Variable::new(l("a b c d ")).into_inner(), l("a b c d "));
    assert_eq!(Variable::new(l("`I ❤️ Quest`")).into_inner(), l("`I \u{2764}\u{fe0f} Quest`"));
    assert_eq!(Variable::new(l("🚀s are cool!")).into_inner(), l("\u{1f680}s are cool!"));
    assert_eq!(Variable::new(l("Ɣ㠨𥊗")).into_inner(), l("\u{194}㠨\u{25297}"));
}

#[test]
fn variable_literal_round_trip() {
    for s in ["", "foobar", "a b c d "] {
        assert_eq!(Literal::from(Variable::new(l(s))), l(s));
        assert_eq!(Variable::from(l(s)), Variable::new(l(s)));
        assert_eq!(Literal::from(Variable::from(l(s))).as_str(), s);
    }
}

#[test]
fn from_static_str() {
    assert_eq!(Variable::from(l("foobarbaz")).into_inner(), l("foobarbaz"));
    assert_eq!(Variable::from(l("__!_@#__$*!~")).into_inner(), l("__!_@#__$*!~"));
    assert_eq!(Variable::from(l("`lol`")).into_inner(), l("`lol`"));
    assert_eq!(Variable::from(l("I ❤️ 🚀, they r cool")).into_inner(), l("I \u{2764}\u{fe0f} \u{1f680}, they r cool"));
    assert_eq!(Variable::from(l("Ɣ㠨𥊗")).into_inner(), l("\u{194}㠨\u{25297}"));
}

#[test]
fn variable_from_string() {
    assert_eq!(Variable::from_string("lol".to_string()).literal().as_str(), "lol");
    assert_eq!(Variable::from_string("".to_string()).literal().as_str(), "");
    assert_eq!(Variable::from_string("AWF_EAW".to_string()).literal().as_str(), "AWF_EAW");
    assert_eq!(Variable::from_string("┌─┘lol what ⓪❼༩".to_string()).literal().as_str(), "┌─┘lol what ⓪❼༩");
}

#[test]
fn new_variable() {
    let mut heap = Heap::new();
    let a = Object::new(&mut heap, TypedObject::new(Data::Variable(Variable::new(l("`quest is fun`")))));
    let b = Object::new_variable(&mut heap, l("`quest is fun`"));
    assert!(a.equals(&mut heap, b));
}

#[test]
fn to_variable() {
    let mut heap = Heap::new();
    for s in ["abc", "", "I ❤️ 🚀, they r cool"] {
        let o = Object::new_variable(&mut heap, l(s));
        let r = o.to_variable(&mut heap).unwrap();
        assert!(!r.ptr_eq(&o));
        assert!(r.is_variable(&heap, s));
    }
}

#[test]
fn variable_from_static() {
    assert_eq!(Variable::from_static("abc").literal().as_str(), "abc");
    let mut heap = Heap::new();
    let o = Object::new_variable_testing(&mut heap, "x");
    assert!(o.is_variable(&heap, "x"));
    assert!(!o.is_variable(&heap, "y"));
}
