//! The integer type.

use vstd::prelude::*;
use crate::error::{Error, ErrorM};
use crate::object::heap::{Heap, Object, Data, ValueM, EntryM, plain};
use crate::object::types::Text;
use crate::object::types::Boolean;

verus! {

/// A whole number.
#[derive(Debug, Clone, Copy, PartialEq, Eq, Hash, Structural)]
pub struct Num(i64);

impl View for Num {
    type V = i64;

    closed spec fn view(&self) -> i64 {
        self.0
    }
}

impl Num {
    /// The number `num`.
    pub fn new(num: i64) -> (r: Num)
        ensures
            r@ == num,
    {
        Num(num)
    }

    /// The plain `i64`.
    pub fn into_inner(self) -> (r: i64)
        ensures
            r == self@,
    {
        self.0
    }
}

} // verus!

verus! {

/// The native methods of numbers.
#[derive(Debug, Clone, Copy, PartialEq, Eq, Structural)]
pub enum NumFn {
    AtNum, AtBool, AtText,
    Add, Sub, Mul, Div, Mod, Pow,
    Eql, Neq, Lth, Leq, Gth, Geq, Cmp,
    BitAnd, BitOr, BitXor, Shl, Shr,
    Pos, Neg,
}

} // verus!

verus! {

/// The message of the error raised for a negative exponent.
pub const NEGATIVE_EXPONENT: &'static str = "received a negative exponent";

/// `x` fits in an `i64`.
pub open spec fn in_i64(x: int) -> bool {
    i64::MIN <= x <= i64::MAX
}

/// The absolute value.
pub open spec fn abs(x: int) -> int {
    if x < 0 {
        -x
    } else {
        x
    }
}

/// Division that rounds toward zero, as Rust's `/` on integers does.
pub open spec fn trunc_div(x: int, y: int) -> int {
    if (x < 0) == (y < 0) {
        abs(x) / abs(y)
    } else {
        -(abs(x) / abs(y))
    }
}

/// The remainder that goes with [`trunc_div`], as Rust's `%` on integers.
pub open spec fn trunc_rem(x: int, y: int) -> int {
    x - y * trunc_div(x, y)
}

/// `b` raised to the power `e`.
pub open spec fn int_pow(b: int, e: nat) -> int
    decreases e,
{
    if e == 0 {
        1
    } else {
        int_pow(b, (e - 1) as nat) * b
    }
}

/// The result of a binary method of numbers on `x` and `y`.
pub open spec fn num_binary(op: NumFn, x: i64, y: i64) -> Result<ValueM, ErrorM> {
    let (x, y) = (x as int, y as int);
    match op {
        NumFn::Add => if in_i64(x + y) { Ok(ValueM::Num((x + y) as i64)) } else { Err(ErrorM::Overflow) },
        NumFn::Sub => if in_i64(x - y) { Ok(ValueM::Num((x - y) as i64)) } else { Err(ErrorM::Overflow) },
        NumFn::Mul => if in_i64(x * y) { Ok(ValueM::Num((x * y) as i64)) } else { Err(ErrorM::Overflow) },
        NumFn::Div => if y == 0 {
            Err(ErrorM::DivideByZero)
        } else if in_i64(trunc_div(x, y)) {
            Ok(ValueM::Num(trunc_div(x, y) as i64))
        } else {
            Err(ErrorM::Overflow)
        },
        NumFn::Mod => if y == 0 {
            Err(ErrorM::DivideByZero)
        } else if in_i64(trunc_div(x, y)) {
            Ok(ValueM::Num(trunc_rem(x, y) as i64))
        } else {
            Err(ErrorM::Overflow)
        },
        NumFn::Pow => if y < 0 {
            Err(ErrorM::BadArgument { pos: 0, msg: NEGATIVE_EXPONENT@ })
        } else if in_i64(int_pow(x, y as nat)) {
            Ok(ValueM::Num(int_pow(x, y as nat) as i64))
        } else {
            Err(ErrorM::Overflow)
        },
        NumFn::Eql => Ok(ValueM::Boolean(x == y)),
        NumFn::Neq => Ok(ValueM::Boolean(x != y)),
        NumFn::Lth => Ok(ValueM::Boolean(x < y)),
        NumFn::Leq => Ok(ValueM::Boolean(x <= y)),
        NumFn::Gth => Ok(ValueM::Boolean(x > y)),
        NumFn::Geq => Ok(ValueM::Boolean(x >= y)),
        NumFn::Cmp => Ok(ValueM::Num(if x < y { -1i64 } else if x == y { 0i64 } else { 1i64 })),
        NumFn::BitAnd => Ok(ValueM::Num(x as i64 & y as i64)),
        NumFn::BitOr => Ok(ValueM::Num(x as i64 | y as i64)),
        NumFn::BitXor => Ok(ValueM::Num(x as i64 ^ y as i64)),
        NumFn::Shl => if 0 <= y < 64 { Ok(ValueM::Num((x as i64) << (y as u64))) } else { Err(ErrorM::Overflow) },
        NumFn::Shr => if 0 <= y < 64 { Ok(ValueM::Num((x as i64) >> (y as u64))) } else { Err(ErrorM::Overflow) },
        _ => Err(ErrorM::NothingToReturn),
    }
}

/// The result of a unary method of numbers on `x`.
pub open spec fn num_unary(op: NumFn, x: i64) -> Result<ValueM, ErrorM> {
    match op {
        NumFn::Pos => if x == i64::MIN { Err(ErrorM::Overflow) } else { Ok(ValueM::Num(abs(x as int) as i64)) },
        NumFn::Neg => if x == i64::MIN { Err(ErrorM::Overflow) } else { Ok(ValueM::Num((-x) as i64)) },
        _ => Err(ErrorM::NothingToReturn),
    }
}

/// The character of a decimal digit.
pub open spec fn digit_char(d: int) -> char {
    if d == 0 { '0' }
    else if d == 1 { '1' }
    else if d == 2 { '2' }
    else if d == 3 { '3' }
    else if d == 4 { '4' }
    else if d == 5 { '5' }
    else if d == 6 { '6' }
    else if d == 7 { '7' }
    else if d == 8 { '8' }
    else { '9' }
}

/// The decimal digits of `n`.
pub open spec fn nat_text(n: nat) -> Seq<char>
    decreases n,
{
    if n < 10 {
        seq![digit_char(n as int)]
    } else {
        nat_text(n / 10).push(digit_char((n % 10) as int))
    }
}

/// The decimal text of `n`, with a leading `-` when it is negative.
pub open spec fn int_text(n: int) -> Seq<char> {
    if n < 0 {
        seq!['-'] + nat_text((-n) as nat)
    } else {
        nat_text(n as nat)
    }
}

/// `c` is one of `0` to `9`.
pub open spec fn is_digit(c: char) -> bool {
    '0' <= c && c <= '9'
}

/// The value of the digit `c`.
pub open spec fn digit_value(c: char) -> int {
    c as int - '0' as int
}

/// Every character of `s` is a digit.
pub open spec fn all_digits(s: Seq<char>) -> bool {
    forall|i: int| 0 <= i < s.len() ==> is_digit(#[trigger] s[i])
}

/// The number that the digits `s` write in decimal.
pub open spec fn digits_value(s: Seq<char>) -> int
    decreases s.len(),
{
    if s.len() == 0 {
        0
    } else {
        digits_value(s.drop_last()) * 10 + digit_value(s.last())
    }
}

/// The number a text stands for: the empty text is 0; otherwise an
/// optional sign (`+` or `-`) followed by one or more decimal digits whose
/// value fits in an `i64`.
pub open spec fn parse_num(s: Seq<char>) -> Option<i64> {
    if s.len() == 0 {
        Some(0)
    } else {
        let signed = s[0] == '-' || s[0] == '+';
        let body = if signed { s.drop_first() } else { s };
        let v = if s[0] == '-' { -digits_value(body) } else { digits_value(body) };
        if body.len() == 0 || !all_digits(body) || !in_i64(v) {
            None
        } else {
            Some(v as i64)
        }
    }
}

} // verus!

verus! {

/// The result of a function that gives a value or raises an error, as mathematical values.
pub open spec fn value_result(r: Result<Data, Error>) -> Result<ValueM, ErrorM> {
    match r {
        Ok(v) => Ok(v@),
        Err(e) => Err(e@),
    }
}

proof fn lemma_abs_mul(a: int, b: int)
    ensures
        abs(a * b) == abs(a) * abs(b),
{
    assert(abs(a * b) == abs(a) * abs(b)) by (nonlinear_arith);
}

/// The absolute value of a power is the power of the absolute value.
proof fn lemma_pow_abs(b: int, e: nat)
    ensures
        abs(int_pow(b, e)) == int_pow(abs(b), e),
    decreases e,
{
    if e > 0 {
        lemma_pow_abs(b, (e - 1) as nat);
        lemma_abs_mul(int_pow(b, (e - 1) as nat), b);
    }
}

proof fn lemma_pow_nonneg(b: int, e: nat)
    requires
        b >= 0,
    ensures
        int_pow(b, e) >= 0,
    decreases e,
{
    if e > 0 {
        lemma_pow_nonneg(b, (e - 1) as nat);
        let p = int_pow(b, (e - 1) as nat);
        assert(p * b >= 0) by (nonlinear_arith) requires p >= 0, b >= 0;
    }
}

/// Powers of a base of 2 or more at least double with each step.
proof fn lemma_pow_doubles(b: int, k: nat, e: nat)
    requires
        b >= 2,
        k < e,
    ensures
        int_pow(b, e) >= 2 * int_pow(b, k),
    decreases e,
{
    let p = int_pow(b, (e - 1) as nat);
    lemma_pow_nonneg(b, (e - 1) as nat);
    assert(p * b >= 2 * p) by (nonlinear_arith) requires p >= 0, b >= 2;
    if k < e - 1 {
        lemma_pow_doubles(b, k, (e - 1) as nat);
        lemma_pow_nonneg(b, k);
    }
}

/// Powers of -1, 0 and 1.
proof fn lemma_pow_small(b: int, e: nat)
    requires
        -1 <= b <= 1,
    ensures
        b == 0 ==> int_pow(b, e) == (if e == 0 { 1int } else { 0int }),
        b == 1 ==> int_pow(b, e) == 1,
        b == -1 ==> int_pow(b, e) == (if e % 2 == 0 { 1int } else { -1int }),
    decreases e,
{
    if e > 0 {
        lemma_pow_small(b, (e - 1) as nat);
    }
}

/// `x` to the power `e`, if it fits in an `i64`.
pub fn checked_pow(x: i64, e: i64) -> (r: Option<i64>)
    requires
        e >= 0,
    ensures
        r matches Some(v) ==> v == int_pow(x as int, e as nat),
        r is None ==> !in_i64(int_pow(x as int, e as nat)),
{
    proof {
        if -1 <= x <= 1 {
            lemma_pow_small(x as int, e as nat);
        }
    }
    if x == 0 {
        return Some(if e == 0 { 1 } else { 0 });
    }
    if x == 1 {
        return Some(1);
    }
    if x == -1 {
        return Some(if e % 2 == 0 { 1 } else { -1 });
    }
    let mut acc: i64 = 1;
    let mut i: i64 = 0;
    while i < e
        invariant
            0 <= i <= e,
            acc == int_pow(x as int, i as nat),
            abs(x as int) >= 2,
        decreases e - i,
    {
        assert(-0x4000_0000_0000_0000_0000_0000_0000_0000 <= acc as i128 * x as i128 <= 0x4000_0000_0000_0000_0000_0000_0000_0000)
            by (nonlinear_arith) requires i64::MIN <= acc <= i64::MAX, i64::MIN <= x <= i64::MAX;
        let p: i128 = acc as i128 * x as i128;
        assert(p == int_pow(x as int, (i + 1) as nat));
        if p < i64::MIN as i128 || p > i64::MAX as i128 {
            proof {
                let v = int_pow(x as int, (i + 1) as nat);
                lemma_pow_abs(x as int, (i + 1) as nat);
                lemma_pow_abs(x as int, e as nat);
                if i + 1 < e {
                    lemma_pow_doubles(abs(x as int), (i + 1) as nat, e as nat);
                }
            }
            return None;
        }
        acc = p as i64;
        i = i + 1;
    }
    Some(acc)
}

/// Runs a binary method of numbers on plain values.
pub fn binary(op: NumFn, x: i64, y: i64) -> (r: Result<Data, Error>)
    ensures
        value_result(r) == num_binary(op, x, y),
{
    let (a, b) = (x as i128, y as i128);
    let min = i64::MIN as i128;
    let max = i64::MAX as i128;
    match op {
        NumFn::Add => if a + b < min || a + b > max {
            Err(Error::Overflow)
        } else {
            Ok(Data::Num(Num::new((a + b) as i64)))
        },
        NumFn::Sub => if a - b < min || a - b > max {
            Err(Error::Overflow)
        } else {
            Ok(Data::Num(Num::new((a - b) as i64)))
        },
        NumFn::Mul => {
            assert(-0x4000_0000_0000_0000_0000_0000_0000_0000 <= a * b <= 0x4000_0000_0000_0000_0000_0000_0000_0000)
                by (nonlinear_arith) requires min <= a <= max, min <= b <= max, min == -0x8000_0000_0000_0000, max == 0x7fff_ffff_ffff_ffff;
            if a * b < min || a * b > max {
                Err(Error::Overflow)
            } else {
                Ok(Data::Num(Num::new((a * b) as i64)))
            }
        },
        NumFn::Div | NumFn::Mod => {
            if b == 0 {
                return Err(Error::DivideByZero);
            }
            let ua: i128 = if a < 0 { -a } else { a };
            let ub: i128 = if b < 0 { -b } else { b };
            let q = ua / ub;
            assert(0 <= q <= ua) by (nonlinear_arith) requires ua >= 0, ub >= 1, q == ua / ub;
            let sq: i128 = if (a < 0) == (b < 0) { q } else { -q };
            assert(sq == trunc_div(x as int, y as int));
            if sq < min || sq > max {
                Err(Error::Overflow)
            } else if op == NumFn::Div {
                Ok(Data::Num(Num::new(sq as i64)))
            } else {
                let r: i128 = ua % ub;
                proof {
                    vstd::arithmetic::div_mod::lemma_fundamental_div_mod(ua as int, ub as int);
                    vstd::arithmetic::div_mod::lemma_mod_bound(ua as int, ub as int);
                    let xi = x as int;
                    let yi = y as int;
                    assert(ua == ub * q + r);
                    if (xi < 0) == (yi < 0) {
                        assert(trunc_div(xi, yi) == q);
                        if xi < 0 {
                            assert(trunc_rem(xi, yi) == -r) by (nonlinear_arith)
                                requires xi == -ua, yi == -ub, ua == ub * q + r, trunc_div(xi, yi) == q,
                                    trunc_rem(xi, yi) == xi - yi * trunc_div(xi, yi);
                        } else {
                            assert(trunc_rem(xi, yi) == r) by (nonlinear_arith)
                                requires xi == ua, yi == ub, ua == ub * q + r, trunc_div(xi, yi) == q,
                                    trunc_rem(xi, yi) == xi - yi * trunc_div(xi, yi);
                        }
                    } else {
                        assert(trunc_div(xi, yi) == -q);
                        if xi < 0 {
                            assert(trunc_rem(xi, yi) == -r) by (nonlinear_arith)
                                requires xi == -ua, yi == ub, ua == ub * q + r, trunc_div(xi, yi) == -q,
                                    trunc_rem(xi, yi) == xi - yi * trunc_div(xi, yi);
                        } else {
                            assert(trunc_rem(xi, yi) == r) by (nonlinear_arith)
                                requires xi == ua, yi == -ub, ua == ub * q + r, trunc_div(xi, yi) == -q,
                                    trunc_rem(xi, yi) == xi - yi * trunc_div(xi, yi);
                        }
                    }
                }
                let rem: i128 = if a < 0 { -r } else { r };
                Ok(Data::Num(Num::new(rem as i64)))
            }
        },
        NumFn::Pow => if y < 0 {
            Err(Error::BadArgument { pos: 0, msg: String::from_str(NEGATIVE_EXPONENT) })
        } else {
            match checked_pow(x, y) {
                Some(v) => Ok(Data::Num(Num::new(v))),
                None => Err(Error::Overflow),
            }
        },
        NumFn::Eql => Ok(Data::Boolean(Boolean::new(x == y))),
        NumFn::Neq => Ok(Data::Boolean(Boolean::new(x != y))),
        NumFn::Lth => Ok(Data::Boolean(Boolean::new(x < y))),
        NumFn::Leq => Ok(Data::Boolean(Boolean::new(x <= y))),
        NumFn::Gth => Ok(Data::Boolean(Boolean::new(x > y))),
        NumFn::Geq => Ok(Data::Boolean(Boolean::new(x >= y))),
        NumFn::Cmp => Ok(Data::Num(Num::new(if x < y { -1 } else if x == y { 0 } else { 1 }))),
        NumFn::BitAnd => Ok(Data::Num(Num::new(x & y))),
        NumFn::BitOr => Ok(Data::Num(Num::new(x | y))),
        NumFn::BitXor => Ok(Data::Num(Num::new(x ^ y))),
        NumFn::Shl => if y < 0 || y >= 64 {
            Err(Error::Overflow)
        } else {
            Ok(Data::Num(Num::new(x << (y as u64))))
        },
        NumFn::Shr => if y < 0 || y >= 64 {
            Err(Error::Overflow)
        } else {
            Ok(Data::Num(Num::new(x >> (y as u64))))
        },
        _ => Err(Error::NothingToReturn),
    }
}

/// Runs a unary method of numbers on a plain value.
pub fn unary(op: NumFn, x: i64) -> (r: Result<Data, Error>)
    ensures
        value_result(r) == num_unary(op, x),
{
    match op {
        NumFn::Pos => if x == i64::MIN {
            Err(Error::Overflow)
        } else {
            Ok(Data::Num(Num::new(if x < 0 { -x } else { x })))
        },
        NumFn::Neg => if x == i64::MIN {
            Err(Error::Overflow)
        } else {
            Ok(Data::Num(Num::new(-x)))
        },
        _ => Err(Error::NothingToReturn),
    }
}

/// The text of one decimal digit.
fn digit_str(d: u64) -> (r: &'static str)
    requires
        d < 10,
    ensures
        r@ == seq![digit_char(d as int)],
{
    proof {
        reveal_strlit("0");
        reveal_strlit("1");
        reveal_strlit("2");
        reveal_strlit("3");
        reveal_strlit("4");
        reveal_strlit("5");
        reveal_strlit("6");
        reveal_strlit("7");
        reveal_strlit("8");
        reveal_strlit("9");
    }
    match d {
        0 => "0",
        1 => "1",
        2 => "2",
        3 => "3",
        4 => "4",
        5 => "5",
        6 => "6",
        7 => "7",
        8 => "8",
        _ => "9",
    }
}

/// Appends the decimal digits of `n` to `s`.
fn append_digits(s: &mut String, n: u64)
    ensures
        final(s)@ == old(s)@ + nat_text(n as nat),
    decreases n,
{
    if n >= 10 {
        append_digits(s, n / 10);
    }
    s.append(digit_str(n % 10));
    assert(final(s)@ =~= old(s)@ + nat_text(n as nat));
}

/// The decimal text of `n`.
pub fn int_to_text(n: i64) -> (r: String)
    ensures
        r@ == int_text(n as int),
{
    let mut s = String::new();
    if n < 0 {
        proof {
            reveal_strlit("-");
        }
        s.append("-");
        let mag: i128 = -(n as i128);
        append_digits(&mut s, mag as u64);
        assert(s@ =~= int_text(n as int));
    } else {
        append_digits(&mut s, n as u64);
        assert(s@ =~= int_text(n as int));
    }
    s
}

proof fn lemma_all_digits_prefix(t: Seq<char>, k: int)
    requires
        all_digits(t),
        0 <= k <= t.len(),
    ensures
        all_digits(t.take(k)),
{
    assert forall|i: int| 0 <= i < t.take(k).len() implies is_digit(#[trigger] t.take(k)[i]) by {
        assert(t.take(k)[i] == t[i]);
    }
}

proof fn lemma_digits_value_nonneg(t: Seq<char>)
    requires
        all_digits(t),
    ensures
        digits_value(t) >= 0,
    decreases t.len(),
{
    if t.len() > 0 {
        lemma_all_digits_prefix(t, t.len() - 1);
        assert(t.take(t.len() - 1) =~= t.drop_last());
        lemma_digits_value_nonneg(t.drop_last());
        assert(is_digit(t[t.len() - 1]));
    }
}

/// The value of digits is at least the value of any prefix of them.
proof fn lemma_digits_value_mono(t: Seq<char>, k: int)
    requires
        all_digits(t),
        0 <= k <= t.len(),
    ensures
        digits_value(t) >= digits_value(t.take(k)),
    decreases t.len(),
{
    if k == t.len() {
        assert(t.take(k) =~= t);
    } else {
        lemma_all_digits_prefix(t, t.len() - 1);
        assert(t.take(t.len() - 1) =~= t.drop_last());
        lemma_digits_value_mono(t.drop_last(), k);
        assert(t.drop_last().take(k) =~= t.take(k));
        lemma_digits_value_nonneg(t.drop_last());
        assert(is_digit(t[t.len() - 1]));
    }
}

/// The number that the text `s` stands for, as [`parse_num`] defines it.
pub fn parse_text(s: &str) -> (r: Option<i64>)
    ensures
        r == parse_num(s@),
{
    let len = s.unicode_len();
    if len == 0 {
        return Some(0);
    }
    let first = s.get_char(0);
    let negative = first == '-';
    let start: usize = if first == '-' || first == '+' { 1 } else { 0 };
    let ghost body = if start == 1 { s@.drop_first() } else { s@ };
    assert(body =~= s@.subrange(start as int, len as int));
    if start == len {
        return None;
    }
    let limit: i128 = 0x8000_0000_0000_0000;
    let mut acc: i128 = 0;
    let mut i: usize = start;
    while i < len
        invariant
            start <= i <= len,
            len == s@.len(),
            len > 0,
            limit == 0x8000_0000_0000_0000,
            body == (if s@[0] == '-' || s@[0] == '+' { s@.drop_first() } else { s@ }),
            body == s@.subrange(start as int, len as int),
            all_digits(body.take(i - start)),
            acc == digits_value(body.take(i - start)),
            0 <= acc <= limit,
        decreases len - i,
    {
        let c = s.get_char(i);
        if !(c >= '0' && c <= '9') {
            proof {
                assert(body[i - start] == c);
                assert(!is_digit(body[i - start]));
            }
            return None;
        }
        let d = (c as u32 - '0' as u32) as i128;
        assert(0 <= d <= 9);
        assert(d == digit_value(c));
        let ghost k = i - start;
        assert(body.take(k + 1).drop_last() =~= body.take(k));
        assert(body.take(k + 1).last() == c);
        acc = acc * 10 + d;
        i = i + 1;
        assert forall|j: int| 0 <= j < body.take(k + 1).len() implies is_digit(#[trigger] body.take(k + 1)[j]) by {
            if j < k {
                assert(body.take(k + 1)[j] == body.take(k)[j]);
            }
        }
        if acc > limit {
            proof {
                if all_digits(body) {
                    lemma_digits_value_mono(body, k + 1);
                }
            }
            return None;
        }
    }
    assert(body.take(len - start) =~= body);
    if negative {
        Some((-acc) as i64)
    } else if acc == limit {
        None
    } else {
        Some(acc as i64)
    }
}

} // verus!

verus! {

/// `obj` is an object of the heap that holds a number.
pub open spec fn is_num(heap: &Heap, obj: Object) -> bool {
    heap.holds(obj) && heap@[obj.id as int].value is Num
}

/// The number `obj` holds.
pub open spec fn num_of(h: Seq<EntryM>, obj: Object) -> i64 {
    h[obj.id as int].value->Num_0
}

/// The number that `obj` holds.
pub fn value_of(heap: &Heap, obj: Object) -> (r: i64)
    requires
        is_num(heap, obj),
    ensures
        r == num_of(heap@, obj),
{
    match heap.value(obj) {
        Data::Num(n) => n.into_inner(),
        _ => 0,
    }
}

/// `@num` of a number: a new object with the same number.
pub fn at_num(heap: &mut Heap, num: Object) -> (r: Object)
    requires
        old(heap).wf(),
        is_num(old(heap), num),
    ensures
        final(heap)@ == old(heap)@.push(plain(ValueM::Num(num_of(old(heap)@, num)))),
        r.id == old(heap)@.len(),
        final(heap).wf(),
{
    let x = value_of(heap, num);
    heap.new_object(Data::Num(Num::new(x)))
}

/// `@bool` of a number: whether it is not zero.
pub fn at_bool(heap: &mut Heap, num: Object) -> (r: Object)
    requires
        old(heap).wf(),
        is_num(old(heap), num),
    ensures
        final(heap)@ == old(heap)@.push(plain(ValueM::Boolean(num_of(old(heap)@, num) != 0))),
        r.id == old(heap)@.len(),
        final(heap).wf(),
{
    let x = value_of(heap, num);
    heap.new_object(Data::Boolean(Boolean::new(x != 0)))
}

/// `@text` of a number: its decimal text.
pub fn at_text(heap: &mut Heap, num: Object) -> (r: Object)
    requires
        old(heap).wf(),
        is_num(old(heap), num),
    ensures
        final(heap)@ == old(heap)@.push(plain(ValueM::Text(int_text(num_of(old(heap)@, num) as int)))),
        r.id == old(heap)@.len(),
        final(heap).wf(),
{
    let x = value_of(heap, num);
    heap.new_object(Data::Text(Text::new(int_to_text(x))))
}

/// The heap and result after a method of numbers that gives `res`.
pub open spec fn num_outcome(h: Seq<EntryM>, res: Result<ValueM, ErrorM>, h2: Seq<EntryM>, r: Result<Object, Error>) -> bool {
    match res {
        Ok(v) => r matches Ok(o) && o.id == h.len() && h2 == h.push(plain(v)),
        Err(e) => r matches Err(e2) && e2@ == e && h2 == h,
    }
}

/// Runs the binary method `op` on the numbers `lhs` and `rhs`.
pub fn binary_op(heap: &mut Heap, op: NumFn, lhs: Object, rhs: Object) -> (r: Result<Object, Error>)
    requires
        old(heap).wf(),
        is_num(old(heap), lhs),
        is_num(old(heap), rhs),
    ensures
        num_outcome(old(heap)@, num_binary(op, num_of(old(heap)@, lhs), num_of(old(heap)@, rhs)), final(heap)@, r),
        final(heap).wf(),
{
    let x = value_of(heap, lhs);
    let y = value_of(heap, rhs);
    match binary(op, x, y) {
        Ok(v) => {
            assert(v@ is Num || v@ is Boolean);
            Ok(heap.new_object(v))
        },
        Err(e) => Err(e),
    }
}

/// Runs the unary method `op` on the number `num`.
pub fn unary_op(heap: &mut Heap, op: NumFn, num: Object) -> (r: Result<Object, Error>)
    requires
        old(heap).wf(),
        is_num(old(heap), num),
    ensures
        num_outcome(old(heap)@, num_unary(op, num_of(old(heap)@, num)), final(heap)@, r),
        final(heap).wf(),
{
    let x = value_of(heap, num);
    match unary(op, x) {
        Ok(v) => {
            assert(v@ is Num);
            Ok(heap.new_object(v))
        },
        Err(e) => Err(e),
    }
}

/// `+`: the sum.
pub fn add(heap: &mut Heap, lhs: Object, rhs: Object) -> (r: Result<Object, Error>)
    requires
        old(heap).wf(),
        is_num(old(heap), lhs),
        is_num(old(heap), rhs),
    ensures
        num_outcome(old(heap)@, num_binary(NumFn::Add, num_of(old(heap)@, lhs), num_of(old(heap)@, rhs)), final(heap)@, r),
        final(heap).wf(),
{
    binary_op(heap, NumFn::Add, lhs, rhs)
}

/// `-`: the difference.
pub fn sub(heap: &mut Heap, lhs: Object, rhs: Object) -> (r: Result<Object, Error>)
    requires
        old(heap).wf(),
        is_num(old(heap), lhs),
        is_num(old(heap), rhs),
    ensures
        num_outcome(old(heap)@, num_binary(NumFn::Sub, num_of(old(heap)@, lhs), num_of(old(heap)@, rhs)), final(heap)@, r),
        final(heap).wf(),
{
    binary_op(heap, NumFn::Sub, lhs, rhs)
}

/// `*`: the product.
pub fn mul(heap: &mut Heap, lhs: Object, rhs: Object) -> (r: Result<Object, Error>)
    requires
        old(heap).wf(),
        is_num(old(heap), lhs),
        is_num(old(heap), rhs),
    ensures
        num_outcome(old(heap)@, num_binary(NumFn::Mul, num_of(old(heap)@, lhs), num_of(old(heap)@, rhs)), final(heap)@, r),
        final(heap).wf(),
{
    binary_op(heap, NumFn::Mul, lhs, rhs)
}

/// `/`: the quotient, rounded toward zero.
pub fn div(heap: &mut Heap, lhs: Object, rhs: Object) -> (r: Result<Object, Error>)
    requires
        old(heap).wf(),
        is_num(old(heap), lhs),
        is_num(old(heap), rhs),
    ensures
        num_outcome(old(heap)@, num_binary(NumFn::Div, num_of(old(heap)@, lhs), num_of(old(heap)@, rhs)), final(heap)@, r),
        final(heap).wf(),
{
    binary_op(heap, NumFn::Div, lhs, rhs)
}

/// `%`: the remainder of `/`.
pub fn rem(heap: &mut Heap, lhs: Object, rhs: Object) -> (r: Result<Object, Error>)
    requires
        old(heap).wf(),
        is_num(old(heap), lhs),
        is_num(old(heap), rhs),
    ensures
        num_outcome(old(heap)@, num_binary(NumFn::Mod, num_of(old(heap)@, lhs), num_of(old(heap)@, rhs)), final(heap)@, r),
        final(heap).wf(),
{
    binary_op(heap, NumFn::Mod, lhs, rhs)
}

/// `**`: `lhs` to the power `rhs`.
pub fn pow(heap: &mut Heap, lhs: Object, rhs: Object) -> (r: Result<Object, Error>)
    requires
        old(heap).wf(),
        is_num(old(heap), lhs),
        is_num(old(heap), rhs),
    ensures
        num_outcome(old(heap)@, num_binary(NumFn::Pow, num_of(old(heap)@, lhs), num_of(old(heap)@, rhs)), final(heap)@, r),
        final(heap).wf(),
{
    binary_op(heap, NumFn::Pow, lhs, rhs)
}

/// `==`: whether they are equal.
pub fn eql(heap: &mut Heap, lhs: Object, rhs: Object) -> (r: Result<Object, Error>)
    requires
        old(heap).wf(),
        is_num(old(heap), lhs),
        is_num(old(heap), rhs),
    ensures
        num_outcome(old(heap)@, num_binary(NumFn::Eql, num_of(old(heap)@, lhs), num_of(old(heap)@, rhs)), final(heap)@, r),
        final(heap).wf(),
{
    binary_op(heap, NumFn::Eql, lhs, rhs)
}

/// `!=`: whether they differ.
pub fn neq(heap: &mut Heap, lhs: Object, rhs: Object) -> (r: Result<Object, Error>)
    requires
        old(heap).wf(),
        is_num(old(heap), lhs),
        is_num(old(heap), rhs),
    ensures
        num_outcome(old(heap)@, num_binary(NumFn::Neq, num_of(old(heap)@, lhs), num_of(old(heap)@, rhs)), final(heap)@, r),
        final(heap).wf(),
{
    binary_op(heap, NumFn::Neq, lhs, rhs)
}

/// `<`.
pub fn lth(heap: &mut Heap, lhs: Object, rhs: Object) -> (r: Result<Object, Error>)
    requires
        old(heap).wf(),
        is_num(old(heap), lhs),
        is_num(old(heap), rhs),
    ensures
        num_outcome(old(heap)@, num_binary(NumFn::Lth, num_of(old(heap)@, lhs), num_of(old(heap)@, rhs)), final(heap)@, r),
        final(heap).wf(),
{
    binary_op(heap, NumFn::Lth, lhs, rhs)
}

/// `<=`.
pub fn leq(heap: &mut Heap, lhs: Object, rhs: Object) -> (r: Result<Object, Error>)
    requires
        old(heap).wf(),
        is_num(old(heap), lhs),
        is_num(old(heap), rhs),
    ensures
        num_outcome(old(heap)@, num_binary(NumFn::Leq, num_of(old(heap)@, lhs), num_of(old(heap)@, rhs)), final(heap)@, r),
        final(heap).wf(),
{
    binary_op(heap, NumFn::Leq, lhs, rhs)
}

/// `>`.
pub fn gth(heap: &mut Heap, lhs: Object, rhs: Object) -> (r: Result<Object, Error>)
    requires
        old(heap).wf(),
        is_num(old(heap), lhs),
        is_num(old(heap), rhs),
    ensures
        num_outcome(old(heap)@, num_binary(NumFn::Gth, num_of(old(heap)@, lhs), num_of(old(heap)@, rhs)), final(heap)@, r),
        final(heap).wf(),
{
    binary_op(heap, NumFn::Gth, lhs, rhs)
}

/// `>=`.
pub fn geq(heap: &mut Heap, lhs: Object, rhs: Object) -> (r: Result<Object, Error>)
    requires
        old(heap).wf(),
        is_num(old(heap), lhs),
        is_num(old(heap), rhs),
    ensures
        num_outcome(old(heap)@, num_binary(NumFn::Geq, num_of(old(heap)@, lhs), num_of(old(heap)@, rhs)), final(heap)@, r),
        final(heap).wf(),
{
    binary_op(heap, NumFn::Geq, lhs, rhs)
}

/// `<=>`: -1, 0 or 1 as `lhs` is less than, equal to or greater than `rhs`.
pub fn cmp(heap: &mut Heap, lhs: Object, rhs: Object) -> (r: Result<Object, Error>)
    requires
        old(heap).wf(),
        is_num(old(heap), lhs),
        is_num(old(heap), rhs),
    ensures
        num_outcome(old(heap)@, num_binary(NumFn::Cmp, num_of(old(heap)@, lhs), num_of(old(heap)@, rhs)), final(heap)@, r),
        final(heap).wf(),
{
    binary_op(heap, NumFn::Cmp, lhs, rhs)
}

/// `@+`: the absolute value.
pub fn pos(heap: &mut Heap, num: Object) -> (r: Result<Object, Error>)
    requires
        old(heap).wf(),
        is_num(old(heap), num),
    ensures
        num_outcome(old(heap)@, num_unary(NumFn::Pos, num_of(old(heap)@, num)), final(heap)@, r),
        final(heap).wf(),
{
    unary_op(heap, NumFn::Pos, num)
}

/// `@-`: the negation.
pub fn neg(heap: &mut Heap, num: Object) -> (r: Result<Object, Error>)
    requires
        old(heap).wf(),
        is_num(old(heap), num),
    ensures
        num_outcome(old(heap)@, num_unary(NumFn::Neg, num_of(old(heap)@, num)), final(heap)@, r),
        final(heap).wf(),
{
    unary_op(heap, NumFn::Neg, num)
}

} // verus!
