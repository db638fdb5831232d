//! Native functions: what an attribute runs when it is called.

use vstd::prelude::*;
use crate::object::Object;
use crate::object::types::basic::BasicFn;
use crate::object::types::pristine::PristineFn;
use crate::object::types::boolean::BooleanFn;
use crate::object::types::null::NullFn;
use crate::object::types::num::NumFn;
use crate::object::types::text::TextFn;
use crate::object::types::variable::VariableFn;
use crate::object::types::list::ListFn;
use crate::object::typed::bound::{BoundFn, FUNC, PARENT, KEY};
use crate::object::literal::consts::{ASSIGN, INDEX, INDEX_ASSIGN, ADD, ADD_ASSIGN, AND, ARROW_RIGHT, ATTR_DEL, ATTR_GET, ATTR_HAS, ATTR_SET, AT_BOOL, AT_LIST, AT_MAP, AT_NUM, AT_TEXT, AT_VAR, B_AND, B_LSH, B_OR, B_RSH, B_XOR, CALL, CMP, COLON_COLON, DIV, EQL, GEQ, GTH, LEQ, LTH, L_CLONE, L_ID, L_LEN, L_POP, L_PUSH, MOD, MUL, NEG, NEQ, NOT, OR, POS, POW, STRICT_EQL, STRICT_NEQ, SUB};

verus! {

/// The name of a function object's method that gives the function's name.
pub const NAME: &'static str = "name";

/// The methods of function objects.
#[derive(Debug, Clone, Copy, PartialEq, Eq, Structural)]
pub enum RustFnFn {
    /// `()`: runs the function with the first argument as its receiver.
    Call,
    /// `name`: the name under which the function is found among the methods.
    Name,
}

/// A function written in Rust that Quest code can call.
///
/// The built-in methods of each type are listed by group. Besides them,
/// `Const(obj)` always returns `obj`, and `Fail` always raises
/// [`crate::error::Error::Testing`].
#[derive(Debug, Clone, Copy, PartialEq, Eq, Structural)]
pub enum RustFn {
    Basic(BasicFn),
    Pristine(PristineFn),
    Boolean(BooleanFn),
    Null(NullFn),
    Num(NumFn),
    Text(TextFn),
    Variable(VariableFn),
    List(ListFn),
    Bound(BoundFn),
    Function(RustFnFn),
    Const(Object),
    Fail,
}

/// The name under which a built-in method is found among the methods of
/// its type; the other native functions have an empty name.
pub open spec fn fn_name(f: RustFn) -> Seq<char> {
    match f {
        RustFn::Basic(BasicFn::StrictEql) => STRICT_EQL@,
        RustFn::Basic(BasicFn::StrictNeq) => STRICT_NEQ@,
        RustFn::Basic(BasicFn::AtBool) => AT_BOOL@,
        RustFn::Basic(BasicFn::Clone) => L_CLONE@,
        RustFn::Basic(BasicFn::Eql) => EQL@,
        RustFn::Basic(BasicFn::Neq) => NEQ@,
        RustFn::Basic(BasicFn::ArrowRight) => ARROW_RIGHT@,
        RustFn::Basic(BasicFn::Not) => NOT@,
        RustFn::Basic(BasicFn::And) => AND@,
        RustFn::Basic(BasicFn::Or) => OR@,
        RustFn::Pristine(PristineFn::Id) => L_ID@,
        RustFn::Pristine(PristineFn::ColonColon) => COLON_COLON@,
        RustFn::Pristine(PristineFn::Access) => ATTR_GET@,
        RustFn::Pristine(PristineFn::AccessAssign) => ATTR_SET@,
        RustFn::Pristine(PristineFn::AccessDelete) => ATTR_DEL@,
        RustFn::Pristine(PristineFn::AccessHas) => ATTR_HAS@,
        RustFn::Boolean(BooleanFn::AtBool) => AT_BOOL@,
        RustFn::Boolean(BooleanFn::AtNum) => AT_NUM@,
        RustFn::Boolean(BooleanFn::AtText) => AT_TEXT@,
        RustFn::Boolean(BooleanFn::Not) => NOT@,
        RustFn::Boolean(BooleanFn::Eql) => EQL@,
        RustFn::Boolean(BooleanFn::Xor) => B_XOR@,
        RustFn::Boolean(BooleanFn::And) => B_AND@,
        RustFn::Boolean(BooleanFn::Or) => B_OR@,
        RustFn::Null(NullFn::AtText) => AT_TEXT@,
        RustFn::Null(NullFn::AtBool) => AT_BOOL@,
        RustFn::Null(NullFn::AtNum) => AT_NUM@,
        RustFn::Null(NullFn::AtList) => AT_LIST@,
        RustFn::Null(NullFn::AtMap) => AT_MAP@,
        RustFn::Null(NullFn::Eql) => EQL@,
        RustFn::Null(NullFn::Call) => CALL@,
        RustFn::Num(NumFn::AtNum) => AT_NUM@,
        RustFn::Num(NumFn::AtBool) => AT_BOOL@,
        RustFn::Num(NumFn::AtText) => AT_TEXT@,
        RustFn::Num(NumFn::Add) => ADD@,
        RustFn::Num(NumFn::Sub) => SUB@,
        RustFn::Num(NumFn::Mul) => MUL@,
        RustFn::Num(NumFn::Div) => DIV@,
        RustFn::Num(NumFn::Mod) => MOD@,
        RustFn::Num(NumFn::Pow) => POW@,
        RustFn::Num(NumFn::Eql) => EQL@,
        RustFn::Num(NumFn::Neq) => NEQ@,
        RustFn::Num(NumFn::Lth) => LTH@,
        RustFn::Num(NumFn::Leq) => LEQ@,
        RustFn::Num(NumFn::Gth) => GTH@,
        RustFn::Num(NumFn::Geq) => GEQ@,
        RustFn::Num(NumFn::Cmp) => CMP@,
        RustFn::Num(NumFn::BitAnd) => B_AND@,
        RustFn::Num(NumFn::BitOr) => B_OR@,
        RustFn::Num(NumFn::BitXor) => B_XOR@,
        RustFn::Num(NumFn::Shl) => B_LSH@,
        RustFn::Num(NumFn::Shr) => B_RSH@,
        RustFn::Num(NumFn::Pos) => POS@,
        RustFn::Num(NumFn::Neg) => NEG@,
        RustFn::Text(TextFn::AtText) => AT_TEXT@,
        RustFn::Text(TextFn::AtVar) => AT_VAR@,
        RustFn::Text(TextFn::AtBool) => AT_BOOL@,
        RustFn::Text(TextFn::AtNum) => AT_NUM@,
        RustFn::Text(TextFn::Eql) => EQL@,
        RustFn::Text(TextFn::Add) => ADD@,
        RustFn::Text(TextFn::AddAssign) => ADD_ASSIGN@,
        RustFn::Text(TextFn::Mul) => MUL@,
        RustFn::Text(TextFn::Len) => L_LEN@,
        RustFn::Text(TextFn::Index) => INDEX@,
        RustFn::Text(TextFn::IndexAssign) => INDEX_ASSIGN@,
        RustFn::Variable(VariableFn::AtVar) => AT_VAR@,
        RustFn::List(ListFn::AtList) => AT_LIST@,
        RustFn::List(ListFn::AtBool) => AT_BOOL@,
        RustFn::List(ListFn::AtText) => AT_TEXT@,
        RustFn::List(ListFn::Eql) => EQL@,
        RustFn::List(ListFn::Add) => ADD@,
        RustFn::List(ListFn::AddAssign) => ADD_ASSIGN@,
        RustFn::List(ListFn::Len) => L_LEN@,
        RustFn::List(ListFn::Push) => L_PUSH@,
        RustFn::List(ListFn::Pop) => L_POP@,
        RustFn::Bound(BoundFn::Call) => CALL@,
        RustFn::Bound(BoundFn::Func) => FUNC@,
        RustFn::Bound(BoundFn::Parent) => PARENT@,
        RustFn::Bound(BoundFn::Key) => KEY@,
        RustFn::Bound(BoundFn::Assign) => ASSIGN@,
        RustFn::Function(RustFnFn::Call) => CALL@,
        RustFn::Function(RustFnFn::Name) => NAME@,
        RustFn::Const(_) | RustFn::Fail => ""@,
    }
}

impl RustFn {
    /// The name under which the function is found among the methods.
    pub fn name(&self) -> (r: &'static str)
        ensures
            r@ == fn_name(*self),
    {
        match self {
            RustFn::Basic(BasicFn::StrictEql) => STRICT_EQL,
            RustFn::Basic(BasicFn::StrictNeq) => STRICT_NEQ,
            RustFn::Basic(BasicFn::AtBool) => AT_BOOL,
            RustFn::Basic(BasicFn::Clone) => L_CLONE,
            RustFn::Basic(BasicFn::Eql) => EQL,
            RustFn::Basic(BasicFn::Neq) => NEQ,
            RustFn::Basic(BasicFn::ArrowRight) => ARROW_RIGHT,
            RustFn::Basic(BasicFn::Not) => NOT,
            RustFn::Basic(BasicFn::And) => AND,
            RustFn::Basic(BasicFn::Or) => OR,
            RustFn::Pristine(PristineFn::Id) => L_ID,
            RustFn::Pristine(PristineFn::ColonColon) => COLON_COLON,
            RustFn::Pristine(PristineFn::Access) => ATTR_GET,
            RustFn::Pristine(PristineFn::AccessAssign) => ATTR_SET,
            RustFn::Pristine(PristineFn::AccessDelete) => ATTR_DEL,
            RustFn::Pristine(PristineFn::AccessHas) => ATTR_HAS,
            RustFn::Boolean(BooleanFn::AtBool) => AT_BOOL,
            RustFn::Boolean(BooleanFn::AtNum) => AT_NUM,
            RustFn::Boolean(BooleanFn::AtText) => AT_TEXT,
            RustFn::Boolean(BooleanFn::Not) => NOT,
            RustFn::Boolean(BooleanFn::Eql) => EQL,
            RustFn::Boolean(BooleanFn::Xor) => B_XOR,
            RustFn::Boolean(BooleanFn::And) => B_AND,
            RustFn::Boolean(BooleanFn::Or) => B_OR,
            RustFn::Null(NullFn::AtText) => AT_TEXT,
            RustFn::Null(NullFn::AtBool) => AT_BOOL,
            RustFn::Null(NullFn::AtNum) => AT_NUM,
            RustFn::Null(NullFn::AtList) => AT_LIST,
            RustFn::Null(NullFn::AtMap) => AT_MAP,
            RustFn::Null(NullFn::Eql) => EQL,
            RustFn::Null(NullFn::Call) => CALL,
            RustFn::Num(NumFn::AtNum) => AT_NUM,
            RustFn::Num(NumFn::AtBool) => AT_BOOL,
            RustFn::Num(NumFn::AtText) => AT_TEXT,
            RustFn::Num(NumFn::Add) => ADD,
            RustFn::Num(NumFn::Sub) => SUB,
            RustFn::Num(NumFn::Mul) => MUL,
            RustFn::Num(NumFn::Div) => DIV,
            RustFn::Num(NumFn::Mod) => MOD,
            RustFn::Num(NumFn::Pow) => POW,
            RustFn::Num(NumFn::Eql) => EQL,
            RustFn::Num(NumFn::Neq) => NEQ,
            RustFn::Num(NumFn::Lth) => LTH,
            RustFn::Num(NumFn::Leq) => LEQ,
            RustFn::Num(NumFn::Gth) => GTH,
            RustFn::Num(NumFn::Geq) => GEQ,
            RustFn::Num(NumFn::Cmp) => CMP,
            RustFn::Num(NumFn::BitAnd) => B_AND,
            RustFn::Num(NumFn::BitOr) => B_OR,
            RustFn::Num(NumFn::BitXor) => B_XOR,
            RustFn::Num(NumFn::Shl) => B_LSH,
            RustFn::Num(NumFn::Shr) => B_RSH,
            RustFn::Num(NumFn::Pos) => POS,
            RustFn::Num(NumFn::Neg) => NEG,
            RustFn::Text(TextFn::AtText) => AT_TEXT,
            RustFn::Text(TextFn::AtVar) => AT_VAR,
            RustFn::Text(TextFn::AtBool) => AT_BOOL,
            RustFn::Text(TextFn::AtNum) => AT_NUM,
            RustFn::Text(TextFn::Eql) => EQL,
            RustFn::Text(TextFn::Add) => ADD,
            RustFn::Text(TextFn::AddAssign) => ADD_ASSIGN,
            RustFn::Text(TextFn::Mul) => MUL,
            RustFn::Text(TextFn::Len) => L_LEN,
            RustFn::Text(TextFn::Index) => INDEX,
            RustFn::Text(TextFn::IndexAssign) => INDEX_ASSIGN,
            RustFn::Variable(VariableFn::AtVar) => AT_VAR,
            RustFn::List(ListFn::AtList) => AT_LIST,
            RustFn::List(ListFn::AtBool) => AT_BOOL,
            RustFn::List(ListFn::AtText) => AT_TEXT,
            RustFn::List(ListFn::Eql) => EQL,
            RustFn::List(ListFn::Add) => ADD,
            RustFn::List(ListFn::AddAssign) => ADD_ASSIGN,
            RustFn::List(ListFn::Len) => L_LEN,
            RustFn::List(ListFn::Push) => L_PUSH,
            RustFn::List(ListFn::Pop) => L_POP,
            RustFn::Bound(BoundFn::Call) => CALL,
            RustFn::Bound(BoundFn::Func) => FUNC,
            RustFn::Bound(BoundFn::Parent) => PARENT,
            RustFn::Bound(BoundFn::Key) => KEY,
            RustFn::Bound(BoundFn::Assign) => ASSIGN,
            RustFn::Function(RustFnFn::Call) => CALL,
            RustFn::Function(RustFnFn::Name) => NAME,
            RustFn::Const(_) | RustFn::Fail => "",
        }
    }
}

} // verus!
