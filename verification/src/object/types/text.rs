//! The text type.

use vstd::prelude::*;
use crate::object::heap::Kind;
use crate::object::literal::consts::AT_TEXT;
use crate::object::semantics::sem_convert;
use crate::object::dispatch::{runs_as, convert_fuel};
use crate::object::object::CALL_DEPTH;
use crate::error::Error;
use crate::object::heap::{Heap, Object, Data, ValueM, EntryM, plain};
use crate::error::ErrorM;
use crate::object::types::{Boolean, Num, Variable};
use crate::object::types::num::{parse_num, parse_text};

verus! {

/// A piece of text.
#[derive(Debug, Clone, PartialEq, Eq, Hash)]
pub struct Text(String);

impl View for Text {
    type V = Seq<char>;

    closed spec fn view(&self) -> Seq<char> {
        self.0@
    }
}

impl Text {
    /// The text `text`.
    pub fn new(text: String) -> (r: Text)
        ensures
            r@ == text@,
    {
        Text(text)
    }

    /// The text as a string slice.
    pub fn as_str(&self) -> (r: &str)
        ensures
            r@ == self@,
    {
        self.0.as_str()
    }

    /// A copy of the text.
    pub fn duplicate(&self) -> (r: Text)
        ensures
            r@ == self@,
    {
        Text(self.0.clone())
    }

    /// Appends `s` to the text.
    pub fn append(&mut self, s: &str)
        ensures
            final(self)@ == old(self)@ + s@,
    {
        self.0.append(s)
    }

    /// The owned string.
    pub fn into_inner(self) -> (r: String)
        ensures
            r@ == self@,
    {
        self.0
    }
}

} // verus!

verus! {

/// The native methods of texts.
#[derive(Debug, Clone, Copy, PartialEq, Eq, Structural)]
pub enum TextFn { AtText, AtVar, AtBool, AtNum, Eql, Add, AddAssign, Mul, Len, Index, IndexAssign }

} // verus!

verus! {

/// The message of the error raised for a negative repeat count.
pub const NEGATIVE_COUNT: &'static str = "received a negative value";

/// The message of the error raised for a text that is not a number.
pub const NOT_A_NUMBER: &'static str = "text is not a number";

/// The message of the error raised for the index 0.
pub const ZERO_INDEX: &'static str = "0 is not allowed for indexing";

/// What an index (and an optional end index) picks out of a text.
#[derive(Debug, Clone, Copy, PartialEq, Eq, Structural)]
pub enum Span {
    /// An index was 0, which no character has.
    Zero,
    /// The start lies outside the text, or the end before the start.
    Outside,
    /// The characters from the first position up to, not including, the second.
    Within(usize, usize),
}

/// The place in a text of `len` characters that the index `i` names:
/// positive indices count from 1 at the start, negative ones from -1 at
/// the end.
pub open spec fn position(i: int, len: int) -> int {
    if i > 0 { i - 1 } else { len + i }
}

/// The characters that `start` and `end` pick out of a text of `len`
/// characters: the one at `start`, or those from `start` through `end`
/// (an end past the text stops at its last character).
pub open spec fn span(start: i64, end: Option<i64>, len: nat) -> Span {
    if start == 0 || end == Some(0i64) {
        Span::Zero
    } else {
        let lo = position(start as int, len as int);
        if lo < 0 || lo >= len {
            Span::Outside
        } else {
            match end {
                None => Span::Within(lo as usize, (lo + 1) as usize),
                Some(e) => {
                    let hi = position(e as int, len as int);
                    if hi < lo {
                        Span::Outside
                    } else if hi >= len {
                        Span::Within(lo as usize, len as usize)
                    } else {
                        Span::Within(lo as usize, (hi + 1) as usize)
                    }
                },
            }
        }
    }
}

/// `s` written `n` times in a row.
pub open spec fn repeat(s: Seq<char>, n: nat) -> Seq<char>
    decreases n,
{
    if n == 0 {
        Seq::empty()
    } else {
        repeat(s, (n - 1) as nat) + s
    }
}

} // verus!

verus! {

/// What `start` and `end` pick out of a text of `len` characters.
pub fn span_exec(start: i64, end: Option<i64>, len: usize) -> (r: Span)
    ensures
        r == span(start, end, len as nat),
{
    if start == 0 {
        return Span::Zero;
    }
    match end {
        Some(e) => if e == 0 {
            return Span::Zero;
        },
        None => {},
    }
    let n: i128 = len as i128;
    let lo: i128 = if start > 0 { start as i128 - 1 } else { n + start as i128 };
    if lo < 0 || lo >= n {
        return Span::Outside;
    }
    match end {
        None => Span::Within(lo as usize, (lo + 1) as usize),
        Some(e) => {
            let hi: i128 = if e > 0 { e as i128 - 1 } else { n + e as i128 };
            if hi < lo {
                Span::Outside
            } else if hi >= n {
                Span::Within(lo as usize, len)
            } else {
                Span::Within(lo as usize, (hi + 1) as usize)
            }
        },
    }
}

/// Whether two texts are the same.
pub fn str_equal(a: &str, b: &str) -> (r: bool)
    ensures
        r == (a@ == b@),
{
    String::from_str(a) == String::from_str(b)
}

/// `s` written `n` times in a row.
pub fn repeat_text(s: &str, n: i64) -> (r: String)
    requires
        n >= 0,
    ensures
        r@ == repeat(s@, n as nat),
{
    let mut r = String::new();
    let mut i: i64 = 0;
    while i < n
        invariant
            0 <= i <= n,
            r@ == repeat(s@, i as nat),
        decreases n - i,
    {
        r.append(s);
        i = i + 1;
    }
    r
}

/// `obj` is an object of the heap that holds a text.
pub open spec fn is_text(heap: &Heap, obj: Object) -> bool {
    heap.holds(obj) && heap@[obj.id as int].value is Text
}

/// The text `obj` holds.
pub open spec fn text_of(h: Seq<EntryM>, obj: Object) -> Seq<char> {
    h[obj.id as int].value->Text_0
}

/// A copy of the text that `obj` holds.
pub fn text_value(heap: &Heap, obj: Object) -> (r: String)
    requires
        is_text(heap, obj),
    ensures
        r@ == text_of(heap@, obj),
{
    match heap.value(obj) {
        Data::Text(t) => String::from_str(t.as_str()),
        _ => String::new(),
    }
}

/// `@text` of a text: a copy of it.
pub fn at_text(heap: &mut Heap, text: Object) -> (r: Object)
    requires
        old(heap).wf(),
        is_text(old(heap), text),
    ensures
        final(heap)@ == old(heap)@.push(old(heap)@[text.id as int]),
        r.id == old(heap)@.len(),
        final(heap).wf(),
{
    heap.copy_object(text)
}

/// `@var` of a text: the variable named by it.
pub fn at_var(heap: &mut Heap, text: Object) -> (r: Object)
    requires
        old(heap).wf(),
        is_text(old(heap), text),
    ensures
        final(heap)@ == old(heap)@.push(plain(ValueM::Variable(text_of(old(heap)@, text)))),
        r.id == old(heap)@.len(),
        final(heap).wf(),
{
    let s = text_value(heap, text);
    heap.new_object(Data::Variable(Variable::from_string(s)))
}

/// `@bool` of a text: whether it is not empty.
pub fn at_bool(heap: &mut Heap, text: Object) -> (r: Object)
    requires
        old(heap).wf(),
        is_text(old(heap), text),
    ensures
        final(heap)@ == old(heap)@.push(plain(ValueM::Boolean(text_of(old(heap)@, text).len() != 0))),
        r.id == old(heap)@.len(),
        final(heap).wf(),
{
    let s = text_value(heap, text);
    let b = s.as_str().unicode_len() != 0;
    heap.new_object(Data::Boolean(Boolean::new(b)))
}

/// `@num` of a text: the number it writes, or an error if it writes none.
pub fn at_num(heap: &mut Heap, text: Object) -> (r: Result<Object, Error>)
    requires
        old(heap).wf(),
        is_text(old(heap), text),
    ensures
        match parse_num(text_of(old(heap)@, text)) {
            Some(n) => r matches Ok(o) && o.id == old(heap)@.len()
                && final(heap)@ == old(heap)@.push(plain(ValueM::Num(n))),
            None => r matches Err(e) && e@ == (ErrorM::BadArgument { pos: 0, msg: NOT_A_NUMBER@ })
                && final(heap)@ == old(heap)@,
        },
        final(heap).wf(),
{
    let s = text_value(heap, text);
    match parse_text(s.as_str()) {
        Some(n) => Ok(heap.new_object(Data::Num(Num::new(n)))),
        None => Err(Error::BadArgument { pos: 0, msg: String::from_str(NOT_A_NUMBER) }),
    }
}

/// `==` of a text: whether `rhs` holds the same text.
pub fn eql(heap: &mut Heap, text: Object, rhs: Object) -> (r: Object)
    requires
        old(heap).wf(),
        is_text(old(heap), text),
        old(heap).holds(rhs),
    ensures
        final(heap)@ == old(heap)@.push(plain(ValueM::Boolean(
            old(heap)@[rhs.id as int].value == ValueM::Text(text_of(old(heap)@, text))))),
        r.id == old(heap)@.len(),
        final(heap).wf(),
{
    let s = text_value(heap, text);
    let b = match heap.value(rhs) {
        Data::Text(t) => str_equal(t.as_str(), s.as_str()),
        _ => false,
    };
    heap.new_object(Data::Boolean(Boolean::new(b)))
}

/// `+` of two texts: a new text, the first followed by the second.
pub fn add(heap: &mut Heap, text: Object, rhs: Object) -> (r: Object)
    requires
        old(heap).wf(),
        is_text(old(heap), text),
        is_text(old(heap), rhs),
    ensures
        final(heap)@ == old(heap)@.push(plain(ValueM::Text(text_of(old(heap)@, text) + text_of(old(heap)@, rhs)))),
        r.id == old(heap)@.len(),
        final(heap).wf(),
{
    let mut s = text_value(heap, text);
    let t = text_value(heap, rhs);
    s.append(t.as_str());
    heap.new_object(Data::Text(Text::new(s)))
}

/// `+=` of two texts: appends the second to the first, in place, and returns the first.
pub fn add_assign(heap: &mut Heap, text: Object, rhs: Object) -> (r: Object)
    requires
        old(heap).wf(),
        is_text(old(heap), text),
        is_text(old(heap), rhs),
    ensures
        r == text,
        final(heap)@ == old(heap)@.update(text.id as int, EntryM {
            value: ValueM::Text(text_of(old(heap)@, text) + text_of(old(heap)@, rhs)),
            attrs: old(heap)@[text.id as int].attrs,
            keyed: old(heap)@[text.id as int].keyed,
        }),
        final(heap).wf(),
{
    let t = text_value(heap, rhs);
    heap.append_text(text, t.as_str());
    text
}

/// `*` of a text and a number: the text repeated that many times; a
/// negative count is an error.
pub fn mul(heap: &mut Heap, text: Object, count: Object) -> (r: Result<Object, Error>)
    requires
        old(heap).wf(),
        is_text(old(heap), text),
        old(heap).holds(count),
        old(heap)@[count.id as int].value is Num,
    ensures
        ({
            let n = old(heap)@[count.id as int].value->Num_0;
            if n < 0 {
                r matches Err(e) && e@ == (ErrorM::BadArgument { pos: 0, msg: NEGATIVE_COUNT@ })
                    && final(heap)@ == old(heap)@
            } else {
                r matches Ok(o) && o.id == old(heap)@.len()
                    && final(heap)@ == old(heap)@.push(plain(ValueM::Text(repeat(text_of(old(heap)@, text), n as nat))))
            }
        }),
        final(heap).wf(),
{
    let n = match heap.value(count) {
        Data::Num(n) => n.into_inner(),
        _ => 0,
    };
    if n < 0 {
        return Err(Error::BadArgument { pos: 0, msg: String::from_str(NEGATIVE_COUNT) });
    }
    let s = text_value(heap, text);
    let r = repeat_text(s.as_str(), n);
    Ok(heap.new_object(Data::Text(Text::new(r))))
}

/// `len` of a text: the number of its characters.
pub fn len(heap: &mut Heap, text: Object) -> (r: Object)
    requires
        old(heap).wf(),
        is_text(old(heap), text),
    ensures
        final(heap)@ == old(heap)@.push(plain(ValueM::Num(text_of(old(heap)@, text).len() as i64))),
        r.id == old(heap)@.len(),
        final(heap).wf(),
{
    let s = text_value(heap, text);
    let n = s.as_str().unicode_len();
    heap.new_object(Data::Num(Num::new(n as i64)))
}

} // verus!

verus! {

impl Object {
    /// A new object holding the text `text`.
    pub fn new_text(heap: &mut Heap, text: String) -> (r: Object)
        requires
            old(heap).wf(),
        ensures
            final(heap)@ == old(heap)@.push(plain(ValueM::Text(text@))),
            r.id == old(heap)@.len(),
            final(heap).wf(),
    {
        heap.new_object(Data::Text(Text::new(text)))
    }

    /// A new object holding a copy of the text `text`.
    pub fn new_text_str(heap: &mut Heap, text: &str) -> (r: Object)
        requires
            old(heap).wf(),
        ensures
            final(heap)@ == old(heap)@.push(plain(ValueM::Text(text@))),
            r.id == old(heap)@.len(),
            final(heap).wf(),
    {
        Object::new_text(heap, String::from_str(text))
    }

    /// Converts the object with `@text`.
    pub fn to_text(&self, heap: &mut Heap) -> (r: Result<Object, Error>)
        requires
            old(heap).wf(),
            old(heap).holds(*self),
        ensures
            runs_as(old(heap), final(heap), r, sem_convert(old(heap)@, *self, AT_TEXT@, Kind::Text, CALL_DEPTH as nat)),
    {
        convert_fuel(heap, *self, AT_TEXT, Kind::Text, CALL_DEPTH)
    }
}

} // verus!

verus! {

impl From<String> for Text {
    fn from(text: String) -> (r: Text)
        ensures
            r@ == text@,
    {
        Text(text)
    }
}

impl vstd::std_specs::convert::FromSpecImpl<String> for Text {
    open spec fn obeys_from_spec() -> bool {
        true
    }

    closed spec fn from_spec(v: String) -> Text {
        Text(v)
    }
}

impl From<Text> for String {
    fn from(text: Text) -> (r: String)
        ensures
            r@ == text@,
    {
        text.0
    }
}

impl vstd::std_specs::convert::FromSpecImpl<Text> for String {
    open spec fn obeys_from_spec() -> bool {
        true
    }

    closed spec fn from_spec(v: Text) -> String {
        v.0
    }
}

impl Object {
    /// A copy of the text the object holds, if it holds a text.
    pub fn downcast_text(&self, heap: &Heap) -> (r: Option<Text>)
        requires
            heap.holds(*self),
        ensures
            r is Some <==> (heap@[self.id as int].value is Text),
            r matches Some(t) ==> t@ == text_of(heap@, *self),
    {
        match heap.value(*self) {
            Data::Text(t) => Some(t.duplicate()),
            _ => None,
        }
    }

    /// Whether the object holds a text.
    pub fn is_text(&self, heap: &Heap) -> (r: bool)
        requires
            heap.holds(*self),
        ensures
            r == (heap@[self.id as int].value is Text),
    {
        heap.kind(*self) == Kind::Text
    }
}

} // verus!
