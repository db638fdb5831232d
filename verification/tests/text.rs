use quest::error::Error;
use quest::object::{Heap, Object, Data};
use quest::object::types::Text;
use quest::object::literal::consts::{AT_TEXT, AT_VAR, AT_BOOL, AT_NUM, EQL, ADD, ADD_ASSIGN, MUL, L_LEN, INDEX, INDEX_ASSIGN};
use quest::object::types::Num;

fn text_of(heap: &Heap, o: Object) -> String {
    match heap.value(o) {
        Data::Text(t) => t.as_str().to_string(),
        other => panic!("expected a text, got {:?}", other),
    }
}

fn call(heap: &mut Heap, s: &str, attr: &str, args: &[Object]) -> Result<Object, Error> {
    let t = Object::new_text_str(heap, s);
    t.call_attr(heap, attr, args)
}

#[test]
fn to_string_conversion_works() {
    assert_eq!(String::from("where is the sun"), "where is the sun".to_string());
}

#[test]
fn empty_string() {
    assert_eq!(String::from(Text::new(String::new())), "".to_string());
}

#[test]
fn preserves_contents() {
    assert_eq!(String::from(Text::new("my contents".to_string())), "my contents".to_string());
}

#[test]
fn create_string_object() {
    let mut heap = Heap::new();
    let o = Object::new_text(&mut heap, "hi friend".to_string());
    assert_eq!(o.downcast_text(&heap).unwrap(), Text::new("hi friend".to_string()));
}

#[test]
fn is_text() {
    let mut heap = Heap::new();
    let o = Object::new_text(&mut heap, "lol".to_string());
    assert!(o.is_text(&heap));
}

#[test]
fn object_eql_works() {
    let mut heap = Heap::new();
    let a = Object::new_text(&mut heap, "hi there".to_string());
    let b = Object::new_text(&mut heap, "hi there".to_string());
    assert!(a.equals(&mut heap, b));
}

#[test]
fn text_at_text() {
    let mut heap = Heap::new();
    for s in ["", r#"`\"\'`"#, "my name is not fred", "jk, \0its not", "I ❤️ Quest", "🚀s are cool! yah! 🚀", "\0"] {
        let r = call(&mut heap, s, AT_TEXT, &[]).unwrap();
        assert_eq!(text_of(&heap, r), s);
    }
    let ing = Object::new_text_str(&mut heap, "ing");
    let r = call(&mut heap, "test", AT_TEXT, &[ing]).unwrap();
    assert_eq!(text_of(&heap, r), "test");

    // the result is a new object
    let obj = Object::new_text_str(&mut heap, "hi there");
    let dup = obj.call_attr(&mut heap, AT_TEXT, &[]).unwrap();
    assert!(!obj.ptr_eq(&dup));
    assert_eq!(text_of(&heap, dup), "hi there");
}

#[test]
fn text_at_var() {
    let mut heap = Heap::new();
    for s in ["", "``", "my name is not fred", "`jk, \0its not`", "I ❤️ Quest", "🚀s are cool! yah! 🚀", "\0"] {
        let r = call(&mut heap, s, AT_VAR, &[]).unwrap();
        assert!(r.is_variable(&heap, s));
    }
    let ing = Object::new_text_str(&mut heap, "ing");
    let r = call(&mut heap, "test", AT_VAR, &[ing]).unwrap();
    assert!(r.is_variable(&heap, "test"));
}

#[test]
fn text_at_bool() {
    let mut heap = Heap::new();
    for (s, b) in [("", false), ("\0", true), ("foo", true), ("bar baz quux", true), ("I ❤️ 🚀, they r cool", true)] {
        let r = call(&mut heap, s, AT_BOOL, &[]).unwrap();
        assert_eq!(r.is_true(&heap), b);
    }
    let empty = Object::new_text_str(&mut heap, "");
    let r = call(&mut heap, "Ɣ㠨𥊗", AT_BOOL, &[empty]).unwrap();
    assert!(r.is_true(&heap));
}

#[test]
fn text_at_num_whole_numbers() {
    let mut heap = Heap::new();
    for (s, n) in [("", 0i64), ("1", 1), ("-1", -1), ("+42", 42), ("9223372036854775807", i64::MAX), ("-9223372036854775808", i64::MIN)] {
        let r = call(&mut heap, s, AT_NUM, &[]).unwrap();
        match heap.value(r) {
            Data::Num(x) => assert_eq!(x.into_inner(), n),
            other => panic!("expected a number, got {:?}", other),
        }
    }
    for s in ["a", "1.0", "-", "9223372036854775808", "1 2"] {
        match call(&mut heap, s, AT_NUM, &[]) {
            Err(Error::BadArgument { pos: 0, .. }) => {},
            other => panic!("bad result for {:?}: {:?}", s, other),
        }
    }
}

#[test]
fn text_eql() {
    let mut heap = Heap::new();
    let cases = [
        ("", "", true),
        ("my name is not fred", "my name is fred", false),
        ("`jk, it's \0 not ºåΩ∂ª≈Z≥≥ afsoeifhawef", "`jk, it's \0 not ºåΩ∂ª≈Z≥≥ afsoeifhawef", true),
        ("I ❤️ Quest", "I ❤️ Quest", true),
        ("🚀s are cool! yah! 🚀", "🚀s are cool! yah!", false),
        (" ", "", false),
        ("\0", "\0", true),
    ];
    for (a, b, eq) in cases {
        let rhs = Object::new_text_str(&mut heap, b);
        let r = call(&mut heap, a, EQL, &[rhs]).unwrap();
        assert_eq!(r.is_true(&heap), eq);
    }
    let (t1, t2) = (Object::new_text_str(&mut heap, "test"), Object::new_text_str(&mut heap, "ing"));
    let r = call(&mut heap, "test", EQL, &[t1, t2]).unwrap();
    assert!(r.is_true(&heap));
    assert!(matches!(call(&mut heap, "lol", EQL, &[]), Err(Error::MissingArgument { .. })));
}

#[test]
fn text_add() {
    let mut heap = Heap::new();
    for (a, b, sum) in [("", "", ""), ("123", "456", "123456"), ("`\0❤️🚀ºåΩ", "wotm8", "`\0❤️🚀ºåΩwotm8"), ("I \u{2764}", "\u{fe0f} Lali", "I ❤️ Lali"), ("\t\n \0", "\0 \n\t", "\t\n \0\0 \n\t")] {
        let rhs = Object::new_text_str(&mut heap, b);
        let r = call(&mut heap, a, ADD, &[rhs]).unwrap();
        assert_eq!(text_of(&heap, r), sum);
    }
    let (ing, n123) = (Object::new_text_str(&mut heap, "ing"), Object::new_text_str(&mut heap, "123"));
    let r = call(&mut heap, "test", ADD, &[ing, n123]).unwrap();
    assert_eq!(text_of(&heap, r), "testing");

    // an object can be added to itself
    let t = Object::new_text_str(&mut heap, "hi");
    let r = t.call_attr(&mut heap, ADD, &[t]).unwrap();
    assert_eq!(text_of(&heap, r), "hihi");

    // no edit in place
    let obj = Object::new_text_str(&mut heap, "Hello, ");
    let world = Object::new_text_str(&mut heap, "world");
    let dup = obj.call_attr(&mut heap, ADD, &[world]).unwrap();
    assert_eq!(text_of(&heap, obj), "Hello, ");
    assert_eq!(text_of(&heap, dup), "Hello, world");
    assert!(!obj.ptr_eq(&dup));

    assert!(matches!(call(&mut heap, "lol", ADD, &[]), Err(Error::MissingArgument { .. })));
}

#[test]
fn text_add_assign() {
    let mut heap = Heap::new();
    let obj = Object::new_text_str(&mut heap, "Hello, ");
    let world = Object::new_text_str(&mut heap, "world");
    let r = obj.call_attr(&mut heap, ADD_ASSIGN, &[world]).unwrap();
    assert!(r.ptr_eq(&obj));
    assert_eq!(text_of(&heap, obj), "Hello, world");
}

#[test]
fn text_mul() {
    let mut heap = Heap::new();
    for (s, n, out) in [("1234", 0i64, ""), ("1234", 1, "1234"), ("", 3, ""), ("a", 9, "aaaaaaaaa"), ("\0", 3, "\0\0\0"), ("\u{2764}\u{fe0f}", 4, "❤️❤️❤️❤️")] {
        let count = heap.new_object(Data::Num(quest::object::types::Num::new(n)));
        let r = call(&mut heap, s, MUL, &[count]).unwrap();
        assert_eq!(text_of(&heap, r), out);
    }

    let (two, ing) = (heap.new_object(Data::Num(quest::object::types::Num::new(2))), Object::new_text_str(&mut heap, "ing"));
    let r = call(&mut heap, "test", MUL, &[two, ing]).unwrap();
    assert_eq!(text_of(&heap, r), "testtest");

    // no edit in place
    let obj = Object::new_text_str(&mut heap, "foo");
    let three = heap.new_object(Data::Num(quest::object::types::Num::new(3)));
    let dup = obj.call_attr(&mut heap, MUL, &[three]).unwrap();
    assert_eq!(text_of(&heap, obj), "foo");
    assert_eq!(text_of(&heap, dup), "foofoofoo");
    assert!(!obj.ptr_eq(&dup));

    // texts that are numbers can be multiplied by themselves
    let t = Object::new_text_str(&mut heap, "4");
    let r = t.call_attr(&mut heap, MUL, &[t]).unwrap();
    assert_eq!(text_of(&heap, r), "4444");

    let minus = heap.new_object(Data::Num(quest::object::types::Num::new(-2)));
    match call(&mut heap, "_", MUL, &[minus]) {
        Err(Error::BadArgument { pos: 0, msg }) => assert_eq!(msg, "received a negative value"),
        other => panic!("bad result {:?}", other),
    }

    assert!(matches!(call(&mut heap, "lol", MUL, &[]), Err(Error::MissingArgument { .. })));
}

#[test]
fn mul_nonnum() {
    let mut heap = Heap::new();
    let t = Object::new_boolean(&mut heap, true);
    let r = call(&mut heap, "lol", MUL, &[t]).unwrap();
    assert_eq!(text_of(&heap, r), "lol");
    let four = Object::new_text_str(&mut heap, "4");
    let r = call(&mut heap, "a", MUL, &[four]).unwrap();
    assert_eq!(text_of(&heap, r), "aaaa");
    let f = Object::new_boolean(&mut heap, false);
    let two = heap.new_object(Data::Num(quest::object::types::Num::new(2)));
    let r = call(&mut heap, "test", MUL, &[f, two]).unwrap();
    assert_eq!(text_of(&heap, r), "");

    let minus = Object::new_text_str(&mut heap, "-2");
    match call(&mut heap, "_", MUL, &[minus]) {
        Err(Error::BadArgument { pos: 0, msg }) => assert_eq!(msg, "received a negative value"),
        other => panic!("bad result {:?}", other),
    }
}

#[test]
fn len() {
    let mut heap = Heap::new();
    let ing = Object::new_text_str(&mut heap, "ing");
    let r = call(&mut heap, "test", L_LEN, &[ing]).unwrap();
    assert!(matches!(heap.value(r), Data::Num(x) if x.into_inner() == 4));
    for (s, n) in [("", 0i64), ("123", 3), ("\x7f\x00\n\0", 4), ("🚀", 1), ("I Like 🚀", 8)] {
        let r = call(&mut heap, s, L_LEN, &[]).unwrap();
        match heap.value(r) {
            Data::Num(x) => assert_eq!(x.into_inner(), n),
            other => panic!("expected a number, got {:?}", other),
        }
    }
}

#[test]
fn text_new() {
    assert_eq!(Text::new("".to_string()).as_str(), "");
    assert_eq!(Text::new("foobar".to_string()).as_str(), "foobar");
    assert_eq!(Text::new("a b c d ".to_string()).as_str(), "a b c d ");
    assert_eq!(Text::new("I ❤️ Quest".to_string()).as_str(), "I \u{2764}\u{fe0f} Quest");
    assert_eq!(Text::new("🚀s are cool!".to_string()).as_str(), "\u{1f680}s are cool!");
    assert_eq!(Text::new("Ɣ㠨𥊗".to_string()).as_str(), "\u{194}㠨\u{25297}");
}

#[test]
fn text_from_string() {
    assert_eq!(Text::from("foobarbaz".to_string()).as_str(), "foobarbaz");
    assert_eq!(Text::from("__!_@#__$*!~".to_string()).as_str(), "__!_@#__$*!~");
    assert_eq!(Text::from("I ❤️ 🚀, they r cool".to_string()).as_str(), "I \u{2764}\u{fe0f} \u{1f680}, they r cool");
}

#[test]
fn new_text() {
    let mut heap = Heap::new();
    let a = Object::new(&mut heap, quest::object::TypedObject::new(Data::Text(Text::new("quest is fun".to_string()))));
    let b = Object::new_text_str(&mut heap, "quest is fun");
    assert!(a.equals(&mut heap, b));
}

#[test]
fn to_text() {
    let mut heap = Heap::new();
    for s in ["abc", "", "I ❤️ 🚀, they r cool"] {
        let o = Object::new_text_str(&mut heap, s);
        let r = o.to_text(&mut heap).unwrap();
        assert_eq!(text_of(&heap, r), s);
    }
}

fn n(heap: &mut Heap, x: i64) -> Object {
    heap.new_object(Data::Num(Num::new(x)))
}

fn index(heap: &mut Heap, s: &str, args: &[i64]) -> Result<Object, Error> {
    let objs: Vec<Object> = args.iter().map(|x| n(heap, *x)).collect();
    call(heap, s, INDEX, &objs)
}

#[test]
fn text_index() {
    let mut heap = Heap::new();
    let r = index(&mut heap, "hello", &[1]).unwrap();
    assert_eq!(text_of(&heap, r), "h");
    let r = index(&mut heap, "hello", &[5]).unwrap();
    assert_eq!(text_of(&heap, r), "o");
    let r = index(&mut heap, "hello", &[-1]).unwrap();
    assert_eq!(text_of(&heap, r), "o");
    let r = index(&mut heap, "hello", &[2, 4]).unwrap();
    assert_eq!(text_of(&heap, r), "ell");
    let r = index(&mut heap, "hello", &[2, 100]).unwrap();
    assert_eq!(text_of(&heap, r), "ello");
    let r = index(&mut heap, "I ❤️ Quest", &[3]).unwrap();
    assert_eq!(text_of(&heap, r), "\u{2764}");
    assert!(index(&mut heap, "hello", &[6]).unwrap().is_null(&heap));
    assert!(index(&mut heap, "hello", &[-6]).unwrap().is_null(&heap));
    assert!(index(&mut heap, "hello", &[4, 2]).unwrap().is_null(&heap));
    assert!(index(&mut heap, "", &[1]).unwrap().is_null(&heap));
    match index(&mut heap, "hello", &[0]) {
        Err(Error::BadArgument { pos, msg }) => {
            assert_eq!(pos, 0);
            assert_eq!(msg, "0 is not allowed for indexing");
        },
        other => panic!("expected a bad argument, got {:?}", other),
    }
    assert!(matches!(index(&mut heap, "hello", &[1, 0]), Err(Error::BadArgument { pos: 0, .. })));
    match index(&mut heap, "hello", &[]) {
        Err(Error::MissingArgument { func, pos }) => {
            assert_eq!(func, INDEX);
            assert_eq!(pos, 0);
        },
        other => panic!("expected a missing argument, got {:?}", other),
    }
    let t = Object::new_text_str(&mut heap, "x");
    assert!(matches!(call(&mut heap, "hello", INDEX, &[t]), Err(Error::BadArgument { .. })));
}

#[test]
fn text_index_assign() {
    let mut heap = Heap::new();
    let t = Object::new_text_str(&mut heap, "hello");
    let (one, j) = (n(&mut heap, 1), Object::new_text_str(&mut heap, "J"));
    let r = t.call_attr(&mut heap, INDEX_ASSIGN, &[one, j]).unwrap();
    assert!(r.ptr_eq(&t));
    assert_eq!(text_of(&heap, t), "Jello");
    let (two, three, ee) = (n(&mut heap, 2), n(&mut heap, 3), Object::new_text_str(&mut heap, "EE"));
    t.call_attr(&mut heap, INDEX_ASSIGN, &[two, three, ee]).unwrap();
    assert_eq!(text_of(&heap, t), "JEElo");
    let (nine, x) = (n(&mut heap, 9), Object::new_text_str(&mut heap, "x"));
    assert!(t.call_attr(&mut heap, INDEX_ASSIGN, &[nine, x]).unwrap().is_null(&heap));
    assert_eq!(text_of(&heap, t), "JEElo");
    let zero = n(&mut heap, 0);
    assert!(matches!(t.call_attr(&mut heap, INDEX_ASSIGN, &[zero, x]), Err(Error::BadArgument { pos: 0, .. })));
    match t.call_attr(&mut heap, INDEX_ASSIGN, &[one]) {
        Err(Error::MissingArgument { func, pos }) => {
            assert_eq!(func, INDEX_ASSIGN);
            assert_eq!(pos, 2);
        },
        other => panic!("expected a missing argument, got {:?}", other),
    }
}
