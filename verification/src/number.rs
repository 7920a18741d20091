//! A closed numeric union preserving the original width and signedness of a
//! parsed number, with lossless widening accessors.
//!
//! Floating-point payloads are carried as their IEEE 754 bit patterns
//! (`F32`/`F64` wrap `u32`/`u64`), since this core performs no float
//! arithmetic; interpreting or producing the bits is left to the embedding
//! layer.

use vstd::prelude::*;
use vstd::string::StrSliceExecFns;
use vstd::string::StringExecFns;

verus! {

/// Bit pattern of a 32-bit IEEE 754 float.
#[derive(Clone, Copy, Debug, PartialEq, Eq, Structural)]
pub struct F32(pub u32);

/// Bit pattern of a 64-bit IEEE 754 float.
#[derive(Clone, Copy, Debug, PartialEq, Eq, Structural)]
pub struct F64(pub u64);

impl F32 {
    pub fn new(v: u32) -> (r: Self)
        ensures
            r == (F32(v)),
    {
        F32(v)
    }
}

impl F64 {
    pub fn new(v: u64) -> (r: Self)
        ensures
            r == (F64(v)),
    {
        F64(v)
    }
}

/// A number as it appeared in the source data: one variant per standard
/// integer width plus the two float widths (held as bit patterns).
#[derive(Clone, Copy, Debug, PartialEq, Eq, Structural)]
pub enum Number {
    U8(u8),
    U16(u16),
    U32(u32),
    U64(u64),
    U128(u128),
    USize(usize),
    I8(i8),
    I16(i16),
    I32(i32),
    I64(i64),
    I128(i128),
    ISize(isize),
    F32(F32),
    F64(F64),
}

impl Number {
    /// The mathematical value of an integer variant; floats have none.
    pub open spec fn int_value(self) -> Option<int> {
        match self {
            Number::U8(v) => Some(v as int),
            Number::U16(v) => Some(v as int),
            Number::U32(v) => Some(v as int),
            Number::U64(v) => Some(v as int),
            Number::U128(v) => Some(v as int),
            Number::USize(v) => Some(v as int),
            Number::I8(v) => Some(v as int),
            Number::I16(v) => Some(v as int),
            Number::I32(v) => Some(v as int),
            Number::I64(v) => Some(v as int),
            Number::I128(v) => Some(v as int),
            Number::ISize(v) => Some(v as int),
            Number::F32(_) => None,
            Number::F64(_) => None,
        }
    }

    /// Lossless widening to `u128`: defined exactly when the number is an
    /// integer that fits in `0 ..= u128::MAX`.
    pub fn as_u128(&self) -> (r: Option<u128>)
        ensures
            r is Some <==> (self.int_value() is Some && 0 <= self.int_value()->0),
            r is Some ==> r->0 == self.int_value()->0,
    {
        match *self {
            Number::U8(v) => Some(v as u128),
            Number::U16(v) => Some(v as u128),
            Number::U32(v) => Some(v as u128),
            Number::U64(v) => Some(v as u128),
            Number::U128(v) => Some(v),
            Number::USize(v) => Some(v as u128),
            Number::I8(v) => if v >= 0 { Some(v as u128) } else { None },
            Number::I16(v) => if v >= 0 { Some(v as u128) } else { None },
            Number::I32(v) => if v >= 0 { Some(v as u128) } else { None },
            Number::I64(v) => if v >= 0 { Some(v as u128) } else { None },
            Number::I128(v) => if v >= 0 { Some(v as u128) } else { None },
            Number::ISize(v) => if v >= 0 { Some(v as u128) } else { None },
            Number::F32(_) => None,
            Number::F64(_) => None,
        }
    }

    /// Lossless widening to `i128`: defined exactly when the number is an
    /// integer that fits in `i128::MIN ..= i128::MAX`.
    pub fn as_i128(&self) -> (r: Option<i128>)
        ensures
            r is Some <==> (self.int_value() is Some && self.int_value()->0 <= i128::MAX),
            r is Some ==> r->0 == self.int_value()->0,
    {
        match *self {
            Number::U8(v) => Some(v as i128),
            Number::U16(v) => Some(v as i128),
            Number::U32(v) => Some(v as i128),
            Number::U64(v) => Some(v as i128),
            Number::U128(v) => if v <= i128::MAX as u128 { Some(v as i128) } else { None },
            Number::USize(v) => Some(v as i128),
            Number::I8(v) => Some(v as i128),
            Number::I16(v) => Some(v as i128),
            Number::I32(v) => Some(v as i128),
            Number::I64(v) => Some(v as i128),
            Number::I128(v) => Some(v),
            Number::ISize(v) => Some(v as i128),
            Number::F32(_) => None,
            Number::F64(_) => None,
        }
    }
}



/// The kind of number a schema position holds: one variant per width, with
/// no payload.
#[derive(Clone, Copy, Debug, PartialEq, Eq, Structural)]
pub enum NumberValueLight {
    U8,
    U16,
    U32,
    U64,
    U128,
    USize,
    I8,
    I16,
    I32,
    I64,
    I128,
    ISize,
    F32,
    F64,
}

/// A number bound to a schema position, preserving its declared width.
/// Float payloads are IEEE 754 bit patterns, as in [`Number`].
#[derive(Clone, Copy, Debug, PartialEq, Eq, Structural)]
pub enum NumberValue {
    U8(u8),
    U16(u16),
    U32(u32),
    U64(u64),
    U128(u128),
    USize(usize),
    I8(i8),
    I16(i16),
    I32(i32),
    I64(i64),
    I128(i128),
    ISize(isize),
    F32(u32),
    F64(u64),
}

/// The number a [`NumberValue`] stands for, as a [`Number`].
pub open spec fn spec_to_number(nv: NumberValue) -> Number {
    match nv {
        NumberValue::U8(v) => Number::U8(v),
        NumberValue::U16(v) => Number::U16(v),
        NumberValue::U32(v) => Number::U32(v),
        NumberValue::U64(v) => Number::U64(v),
        NumberValue::U128(v) => Number::U128(v),
        NumberValue::USize(v) => Number::USize(v),
        NumberValue::I8(v) => Number::I8(v),
        NumberValue::I16(v) => Number::I16(v),
        NumberValue::I32(v) => Number::I32(v),
        NumberValue::I64(v) => Number::I64(v),
        NumberValue::I128(v) => Number::I128(v),
        NumberValue::ISize(v) => Number::ISize(v),
        NumberValue::F32(v) => Number::F32(F32(v)),
        NumberValue::F64(v) => Number::F64(F64(v)),
    }
}

/// The [`NumberValue`] carrying the same number as a [`Number`].
pub open spec fn spec_from_number(n: Number) -> NumberValue {
    match n {
        Number::U8(v) => NumberValue::U8(v),
        Number::U16(v) => NumberValue::U16(v),
        Number::U32(v) => NumberValue::U32(v),
        Number::U64(v) => NumberValue::U64(v),
        Number::U128(v) => NumberValue::U128(v),
        Number::USize(v) => NumberValue::USize(v),
        Number::I8(v) => NumberValue::I8(v),
        Number::I16(v) => NumberValue::I16(v),
        Number::I32(v) => NumberValue::I32(v),
        Number::I64(v) => NumberValue::I64(v),
        Number::I128(v) => NumberValue::I128(v),
        Number::ISize(v) => NumberValue::ISize(v),
        Number::F32(v) => NumberValue::F32(v.0),
        Number::F64(v) => NumberValue::F64(v.0),
    }
}

impl NumberValue {
    /// The mathematical value of an integer variant; floats have none.
    pub open spec fn int_value(self) -> Option<int> {
        spec_to_number(self).int_value()
    }

    pub fn to_number(&self) -> (r: Number)
        ensures
            r == spec_to_number(*self),
    {
        match *self {
            NumberValue::U8(v) => Number::U8(v),
            NumberValue::U16(v) => Number::U16(v),
            NumberValue::U32(v) => Number::U32(v),
            NumberValue::U64(v) => Number::U64(v),
            NumberValue::U128(v) => Number::U128(v),
            NumberValue::USize(v) => Number::USize(v),
            NumberValue::I8(v) => Number::I8(v),
            NumberValue::I16(v) => Number::I16(v),
            NumberValue::I32(v) => Number::I32(v),
            NumberValue::I64(v) => Number::I64(v),
            NumberValue::I128(v) => Number::I128(v),
            NumberValue::ISize(v) => Number::ISize(v),
            NumberValue::F32(v) => Number::F32(F32(v)),
            NumberValue::F64(v) => Number::F64(F64(v)),
        }
    }

    pub fn from_number(number: &Number) -> (r: NumberValue)
        ensures
            r == spec_from_number(*number),
    {
        match *number {
            Number::U8(v) => NumberValue::U8(v),
            Number::U16(v) => NumberValue::U16(v),
            Number::U32(v) => NumberValue::U32(v),
            Number::U64(v) => NumberValue::U64(v),
            Number::U128(v) => NumberValue::U128(v),
            Number::USize(v) => NumberValue::USize(v),
            Number::I8(v) => NumberValue::I8(v),
            Number::I16(v) => NumberValue::I16(v),
            Number::I32(v) => NumberValue::I32(v),
            Number::I64(v) => NumberValue::I64(v),
            Number::I128(v) => NumberValue::I128(v),
            Number::ISize(v) => NumberValue::ISize(v),
            Number::F32(v) => NumberValue::F32(v.0),
            Number::F64(v) => NumberValue::F64(v.0),
        }
    }
}

/// The kind named by a schema format hint, if any.
pub open spec fn spec_kind_of_hint(s: Seq<char>) -> Option<NumberValueLight> {
    if s == "uint8"@ {
        Some(NumberValueLight::U8)
    } else if s == "uint16"@ {
        Some(NumberValueLight::U16)
    } else if s == "uint32"@ {
        Some(NumberValueLight::U32)
    } else if s == "uint64"@ {
        Some(NumberValueLight::U64)
    } else if s == "uint128"@ {
        Some(NumberValueLight::U128)
    } else if s == "usize"@ {
        Some(NumberValueLight::USize)
    } else if s == "int8"@ {
        Some(NumberValueLight::I8)
    } else if s == "int16"@ {
        Some(NumberValueLight::I16)
    } else if s == "int32"@ {
        Some(NumberValueLight::I32)
    } else if s == "int64"@ {
        Some(NumberValueLight::I64)
    } else if s == "int128"@ {
        Some(NumberValueLight::I128)
    } else if s == "isize"@ {
        Some(NumberValueLight::ISize)
    } else if s == "float"@ {
        Some(NumberValueLight::F32)
    } else if s == "float64"@ {
        Some(NumberValueLight::F64)
    } else {
        None
    }
}

/// Equality of two string slices, decided character by character.
pub fn str_eq(a: &str, b: &str) -> (r: bool)
    ensures
        r == (a@ == b@),
{
    let alen = a.unicode_len();
    let blen = b.unicode_len();
    if alen != blen {
        return false;
    }
    let mut i: usize = 0;
    while i < alen
        invariant
            0 <= i <= alen,
            alen == a@.len(),
            alen == b@.len(),
            forall|j: int| 0 <= j < i ==> a@[j] == b@[j],
        decreases alen - i,
    {
        if a.get_char(i) != b.get_char(i) {
            return false;
        }
        i += 1;
    }
    proof {
        assert(a@ =~= b@);
    }
    true
}

impl NumberValue {
    /// Maps a schema format hint such as `"uint8"` or `"float64"` to the
    /// number kind it names.
    pub fn kind_from_str(s: &str) -> (r: Option<NumberValueLight>)
        ensures
            r == spec_kind_of_hint(s@),
    {
        if str_eq(s, "uint8") {
            Some(NumberValueLight::U8)
        } else if str_eq(s, "uint16") {
            Some(NumberValueLight::U16)
        } else if str_eq(s, "uint32") {
            Some(NumberValueLight::U32)
        } else if str_eq(s, "uint64") {
            Some(NumberValueLight::U64)
        } else if str_eq(s, "uint128") {
            Some(NumberValueLight::U128)
        } else if str_eq(s, "usize") {
            Some(NumberValueLight::USize)
        } else if str_eq(s, "int8") {
            Some(NumberValueLight::I8)
        } else if str_eq(s, "int16") {
            Some(NumberValueLight::I16)
        } else if str_eq(s, "int32") {
            Some(NumberValueLight::I32)
        } else if str_eq(s, "int64") {
            Some(NumberValueLight::I64)
        } else if str_eq(s, "int128") {
            Some(NumberValueLight::I128)
        } else if str_eq(s, "isize") {
            Some(NumberValueLight::ISize)
        } else if str_eq(s, "float") {
            Some(NumberValueLight::F32)
        } else if str_eq(s, "float64") {
            Some(NumberValueLight::F64)
        } else {
            None
        }
    }
}

/// The decimal digits of a natural number, most significant first.
pub open spec fn dec_digits(n: nat) -> Seq<char>
    decreases n,
{
    if n < 10 {
        seq![digit_char(n)]
    } else {
        dec_digits(n / 10).push(digit_char(n % 10))
    }
}

/// The character for one decimal digit.
pub open spec fn digit_char(d: nat) -> char {
    ((48 + d) as u8) as char
}

/// The decimal rendering of an integer, with a leading minus when negative.
pub open spec fn dec_int(i: int) -> Seq<char> {
    if i < 0 {
        seq!['-'] + dec_digits((-i) as nat)
    } else {
        dec_digits(i as nat)
    }
}

/// The canonical display text of a bound number: decimal digits for the
/// integer kinds. A float's text is not defined here: its bits are opaque to
/// this core and the embedding layer renders them.
pub open spec fn number_display(nv: NumberValue) -> Seq<char> {
    match nv.int_value() {
        Some(i) => dec_int(i),
        None => Seq::empty(),
    }
}

/// One decimal digit as a string.
fn digit_str(d: u8) -> (r: &'static str)
    requires
        d < 10,
    ensures
        r@ == seq![digit_char(d as nat)],
{
    proof {
        reveal_strlit("0");
        reveal_strlit("1");
        reveal_strlit("2");
        reveal_strlit("3");
        reveal_strlit("4");
        reveal_strlit("5");
        reveal_strlit("6");
        reveal_strlit("7");
        reveal_strlit("8");
        reveal_strlit("9");
    }
    match d {
        0 => "0",
        1 => "1",
        2 => "2",
        3 => "3",
        4 => "4",
        5 => "5",
        6 => "6",
        7 => "7",
        8 => "8",
        _ => "9",
    }
}

/// The decimal rendering of a `u128`.
pub fn render_u128(n: u128) -> (r: String)
    ensures
        r@ == dec_digits(n as nat),
    decreases n,
{
    if n < 10 {
        String::from_str(digit_str(n as u8))
    } else {
        let q = n / 10;
        let d = (n % 10) as u8;
        let mut s = render_u128(q);
        s.append(digit_str(d));
        s
    }
}

/// The decimal rendering of the number a [`NumberValue`] holds, when it is
/// an integer; the empty string for the float kinds, whose bits this core
/// does not interpret.
pub fn render_number(nv: &NumberValue) -> (r: String)
    ensures
        r@ == number_display(*nv),
{
    let neg: bool;
    let mag: u128;
    match *nv {
        NumberValue::U8(v) => { neg = false; mag = v as u128; }
        NumberValue::U16(v) => { neg = false; mag = v as u128; }
        NumberValue::U32(v) => { neg = false; mag = v as u128; }
        NumberValue::U64(v) => { neg = false; mag = v as u128; }
        NumberValue::U128(v) => { neg = false; mag = v; }
        NumberValue::USize(v) => { neg = false; mag = v as u128; }
        NumberValue::I8(v) => {
            if v < 0 { neg = true; mag = (-(v as i128)) as u128; } else { neg = false; mag = v as u128; }
        }
        NumberValue::I16(v) => {
            if v < 0 { neg = true; mag = (-(v as i128)) as u128; } else { neg = false; mag = v as u128; }
        }
        NumberValue::I32(v) => {
            if v < 0 { neg = true; mag = (-(v as i128)) as u128; } else { neg = false; mag = v as u128; }
        }
        NumberValue::I64(v) => {
            if v < 0 { neg = true; mag = (-(v as i128)) as u128; } else { neg = false; mag = v as u128; }
        }
        NumberValue::I128(v) => {
            if v < 0 {
                neg = true;
                if v == i128::MIN {
                    mag = 170141183460469231731687303715884105728u128;
                } else {
                    mag = (-v) as u128;
                }
            } else {
                neg = false;
                mag = v as u128;
            }
        }
        NumberValue::ISize(v) => {
            if v < 0 { neg = true; mag = (-(v as i128)) as u128; } else { neg = false; mag = v as u128; }
        }
        NumberValue::F32(_) => {
            return String::new();
        }
        NumberValue::F64(_) => {
            return String::new();
        }
    }
    let digits = render_u128(mag);
    if neg {
        proof {
            reveal_strlit("-");
        }
        let mut s = String::from_str("-");
        s.append(digits.as_str());
        s
    } else {
        digits
    }
}

/// Whether a character is a decimal digit.
pub open spec fn is_dec_digit(c: char) -> bool {
    48 <= c as u32 <= 57
}

/// Whether every character of `s` is a decimal digit.
pub open spec fn all_dec_digits(s: Seq<char>) -> bool {
    forall|i: int| 0 <= i < s.len() ==> is_dec_digit(#[trigger] s[i])
}

/// The value of a sequence of decimal digits, most significant first.
pub open spec fn digits_value(s: Seq<char>) -> nat
    decreases s.len(),
{
    if s.len() == 0 {
        0
    } else {
        (digits_value(s.drop_last()) * 10 + (if is_dec_digit(s.last()) {
            s.last() as u32 - 48
        } else {
            0
        })) as nat
    }
}

/// The sign and magnitude a decimal integer literal denotes: an optional
/// sign followed by one or more digits, as `str::parse` accepts for the
/// integer types.
pub open spec fn spec_parse_int(s: Seq<char>) -> Option<(bool, nat)> {
    if s.len() == 0 {
        None
    } else {
        let neg = s[0] == '-';
        let core = if s[0] == '-' || s[0] == '+' {
            s.drop_first()
        } else {
            s
        };
        if core.len() == 0 || !all_dec_digits(core) {
            None
        } else {
            Some((neg, digits_value(core)))
        }
    }
}

proof fn lemma_digits_monotone(t: Seq<char>, k: int)
    requires
        0 <= k <= t.len(),
    ensures
        digits_value(t.take(k)) <= digits_value(t),
    decreases t.len() - k,
{
    if k < t.len() {
        lemma_digits_monotone(t, k + 1);
        assert(t.take(k + 1).drop_last() =~= t.take(k));
        assert(t.take(k + 1).last() == t[k]);
        assert(digits_value(t.take(k)) * 10 >= digits_value(t.take(k))) by (nonlinear_arith);
        assert(digits_value(t.take(k + 1)) >= digits_value(t.take(k)) * 10);
    } else {
        assert(t.take(k) =~= t);
    }
}

/// Parses a decimal integer literal into its sign and magnitude; `None` when
/// the text is not an optionally signed digit string or its magnitude
/// exceeds `u128::MAX`.
pub fn parse_decimal(s: &str) -> (r: Option<(bool, u128)>)
    ensures
        r is Some <==> (spec_parse_int(s@) is Some && (spec_parse_int(s@)->0).1 <= u128::MAX),
        r matches Some(p) ==> spec_parse_int(s@) matches Some(q) && p.0 == q.0 && p.1 == q.1,
{
    let len = s.unicode_len();
    if len == 0 {
        return None;
    }
    let first = s.get_char(0);
    let neg = first == '-';
    let start: usize = if first == '-' || first == '+' {
        1
    } else {
        0
    };
    let ghost core = if s@[0] == '-' || s@[0] == '+' {
        s@.drop_first()
    } else {
        s@
    };
    proof {
        assert(core =~= s@.subrange(start as int, len as int));
    }
    if start >= len {
        return None;
    }
    let mut val: u128 = 0;
    let mut i: usize = start;
    while i < len
        invariant
            start <= i <= len,
            len == s@.len(),
            start == if s@[0] == '-' || s@[0] == '+' {
                1int
            } else {
                0int
            },
            core == s@.subrange(start as int, len as int),
            all_dec_digits(core.take(i - start)),
            val == digits_value(core.take(i - start)),
        decreases len - i,
    {
        let c = s.get_char(i);
        if !('0' <= c && c <= '9') {
            proof {
                assert(core[i - start] == s@[i as int]);
                assert(c as u32 == s@[i as int] as u32);
                assert(!(48 <= c as u32 <= 57));
                assert(!is_dec_digit(core[i - start]));
                assert(i - start < core.len());
                assert(!all_dec_digits(core));
                assert(spec_parse_int(s@) is None);
            }
            return None;
        }
        let d = (c as u32 - 48) as u128;
        let ghost pre = core.take(i - start);
        proof {
            assert(core.take(i - start + 1).drop_last() =~= pre);
            assert(core.take(i - start + 1).last() == core[i - start]);
            assert(core[i - start] == s@[i as int]);
        }
        let ghost dnext = digits_value(core.take(i - start + 1));
        proof {
            assert(is_dec_digit(core[i - start]));
            assert(dnext == digits_value(pre) * 10 + (core[i - start] as u32 - 48));
            assert(dnext == val * 10 + d);
        }
        match val.checked_mul(10) {
            None => {
                proof {
                    assert(val * 10 > u128::MAX);
                    assert(dnext > u128::MAX);
                    lemma_digits_monotone(core, i - start + 1);
                    assert(digits_value(core) > u128::MAX);
                    assert(s@.subrange(0, len as int) =~= s@);
                    assert(s@.drop_first() =~= s@.subrange(1, len as int));
                    assert(spec_parse_int(s@) is Some ==> (spec_parse_int(s@)->0).1
                        == digits_value(core));
                }
                return None;
            },
            Some(x) => {
                match x.checked_add(d) {
                    None => {
                        proof {
                            assert(dnext > u128::MAX);
                            lemma_digits_monotone(core, i - start + 1);
                            assert(digits_value(core) > u128::MAX);
                            assert(s@.subrange(0, len as int) =~= s@);
                            assert(s@.drop_first() =~= s@.subrange(1, len as int));
                            assert(spec_parse_int(s@) is Some ==> (spec_parse_int(s@)->0).1
                                == digits_value(core));
                        }
                        return None;
                    },
                    Some(y) => {
                        val = y;
                    },
                }
            },
        }
        i += 1;
    }
    proof {
        assert(core.take(len - start) =~= core);
    }
    Some((neg, val))
}

/// The number value of a decimal literal for a given kind, when the literal
/// parses and fits that kind; the float kinds parse nothing here, since
/// float text is interpreted by the embedding layer.
pub open spec fn spec_parse_kind(kind: NumberValueLight, s: Seq<char>) -> Option<NumberValue> {
    match spec_parse_int(s) {
        None => None,
        Some((neg, mag)) => {
            let v: int = if neg {
                -(mag as int)
            } else {
                mag as int
            };
            match kind {
                NumberValueLight::U8 => if !neg && v <= u8::MAX {
                    Some(NumberValue::U8(v as u8))
                } else {
                    None
                },
                NumberValueLight::U16 => if !neg && v <= u16::MAX {
                    Some(NumberValue::U16(v as u16))
                } else {
                    None
                },
                NumberValueLight::U32 => if !neg && v <= u32::MAX {
                    Some(NumberValue::U32(v as u32))
                } else {
                    None
                },
                NumberValueLight::U64 => if !neg && v <= u64::MAX {
                    Some(NumberValue::U64(v as u64))
                } else {
                    None
                },
                NumberValueLight::U128 => if !neg && v <= u128::MAX {
                    Some(NumberValue::U128(v as u128))
                } else {
                    None
                },
                NumberValueLight::USize => if !neg && v <= usize::MAX {
                    Some(NumberValue::USize(v as usize))
                } else {
                    None
                },
                NumberValueLight::I8 => if i8::MIN <= v <= i8::MAX {
                    Some(NumberValue::I8(v as i8))
                } else {
                    None
                },
                NumberValueLight::I16 => if i16::MIN <= v <= i16::MAX {
                    Some(NumberValue::I16(v as i16))
                } else {
                    None
                },
                NumberValueLight::I32 => if i32::MIN <= v <= i32::MAX {
                    Some(NumberValue::I32(v as i32))
                } else {
                    None
                },
                NumberValueLight::I64 => if i64::MIN <= v <= i64::MAX {
                    Some(NumberValue::I64(v as i64))
                } else {
                    None
                },
                NumberValueLight::I128 => if i128::MIN <= v <= i128::MAX {
                    Some(NumberValue::I128(v as i128))
                } else {
                    None
                },
                NumberValueLight::ISize => if isize::MIN <= v <= isize::MAX {
                    Some(NumberValue::ISize(v as isize))
                } else {
                    None
                },
                NumberValueLight::F32 => None,
                NumberValueLight::F64 => None,
            }
        },
    }
}

/// Parses a decimal literal as a value of the given kind: exactly the texts
/// `str::parse` accepts for that integer width, magnitude included.
pub fn parse_kind(kind: NumberValueLight, s: &str) -> (r: Option<NumberValue>)
    ensures
        r == spec_parse_kind(kind, s@),
{
    let parsed = parse_decimal(s);
    let (neg, mag) = match parsed {
        Some(p) => p,
        None => {
            proof {
                if spec_parse_int(s@) is Some {
                    assert((spec_parse_int(s@)->0).1 > u128::MAX);
                }
            }
            return None;
        },
    };
    match kind {
        NumberValueLight::U8 => {
            if !neg && mag <= u8::MAX as u128 {
                Some(NumberValue::U8(mag as u8))
            } else {
                None
            }
        },
        NumberValueLight::U16 => {
            if !neg && mag <= u16::MAX as u128 {
                Some(NumberValue::U16(mag as u16))
            } else {
                None
            }
        },
        NumberValueLight::U32 => {
            if !neg && mag <= u32::MAX as u128 {
                Some(NumberValue::U32(mag as u32))
            } else {
                None
            }
        },
        NumberValueLight::U64 => {
            if !neg && mag <= u64::MAX as u128 {
                Some(NumberValue::U64(mag as u64))
            } else {
                None
            }
        },
        NumberValueLight::U128 => {
            if !neg {
                Some(NumberValue::U128(mag))
            } else {
                None
            }
        },
        NumberValueLight::USize => {
            if !neg && mag <= usize::MAX as u128 {
                Some(NumberValue::USize(mag as usize))
            } else {
                None
            }
        },
        NumberValueLight::I8 => {
            if neg {
                if mag <= 128 {
                    Some(NumberValue::I8((-(mag as i128)) as i8))
                } else {
                    None
                }
            } else if mag <= i8::MAX as u128 {
                Some(NumberValue::I8(mag as i8))
            } else {
                None
            }
        },
        NumberValueLight::I16 => {
            if neg {
                if mag <= 32768 {
                    Some(NumberValue::I16((-(mag as i128)) as i16))
                } else {
                    None
                }
            } else if mag <= i16::MAX as u128 {
                Some(NumberValue::I16(mag as i16))
            } else {
                None
            }
        },
        NumberValueLight::I32 => {
            if neg {
                if mag <= 2147483648 {
                    Some(NumberValue::I32((-(mag as i128)) as i32))
                } else {
                    None
                }
            } else if mag <= i32::MAX as u128 {
                Some(NumberValue::I32(mag as i32))
            } else {
                None
            }
        },
        NumberValueLight::I64 => {
            if neg {
                if mag <= 9223372036854775808 {
                    Some(NumberValue::I64((-(mag as i128)) as i64))
                } else {
                    None
                }
            } else if mag <= i64::MAX as u128 {
                Some(NumberValue::I64(mag as i64))
            } else {
                None
            }
        },
        NumberValueLight::I128 => {
            if neg {
                if mag <= 170141183460469231731687303715884105728u128 {
                    if mag == 170141183460469231731687303715884105728u128 {
                        Some(NumberValue::I128(i128::MIN))
                    } else {
                        Some(NumberValue::I128(-(mag as i128)))
                    }
                } else {
                    None
                }
            } else if mag <= i128::MAX as u128 {
                Some(NumberValue::I128(mag as i128))
            } else {
                None
            }
        },
        NumberValueLight::ISize => {
            if neg {
                if mag <= isize::MAX as u128 + 1 {
                    if mag == isize::MAX as u128 + 1 {
                        Some(NumberValue::ISize(isize::MIN))
                    } else {
                        Some(NumberValue::ISize((-(mag as i128)) as isize))
                    }
                } else {
                    None
                }
            } else if mag <= isize::MAX as u128 {
                Some(NumberValue::ISize(mag as isize))
            } else {
                None
            }
        },
        NumberValueLight::F32 => None,
        NumberValueLight::F64 => None,
    }
}

} // verus!
