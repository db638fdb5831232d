use quest::object::Kind;
use quest::object::map::ObjectMap;
use quest::object::types::{RustFn, Variable};
use quest::object::types::variable::VariableFn;
use quest::object::types::text::TextFn;

#[test]
fn map_new() {
    assert!(!ObjectMap::from_func(Kind::Num).is_initialized());
    let table: Vec<(String, RustFn)> = Vec::new();
    assert!(ObjectMap::initialized(table).is_initialized());
    assert!(!ObjectMap::from_type::<Variable>().is_initialized());
}

#[test]
fn map_is_created() {
    let mut m = ObjectMap::from_type::<Variable>();

    assert!(!m.is_initialized());
    m.get("anything");
    assert!(m.is_initialized());
    assert_eq!(m.len(), 1);
}

#[test]
fn map_reads_and_writes() {
    let mut m = ObjectMap::from_type::<Variable>();
    assert_eq!(m.get("@var"), Some(RustFn::Variable(VariableFn::AtVar)));
    assert!(m.has("@var"));
    assert!(!m.has("@text"));
    m.set("@text".to_string(), RustFn::Text(TextFn::AtText));
    assert_eq!(m.len(), 2);
    assert_eq!(m.get("@text"), Some(RustFn::Text(TextFn::AtText)));
    assert_eq!(m.del("@var"), Some(RustFn::Variable(VariableFn::AtVar)));
    assert_eq!(m.del("@var"), None);
    assert_eq!(m.len(), 1);
}

#[test]
fn map_built_once() {
    let mut m = ObjectMap::from_type::<Variable>();
    m.access_map();
    assert!(m.is_initialized());
    assert_eq!(m.len(), 1);
    // a change made after the table was built is kept by later uses: the
    // table is not built again
    m.del("@var");
    m.access_map();
    assert_eq!(m.get("@var"), None);
    assert_eq!(m.len(), 0);
}
