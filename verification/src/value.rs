//! The values a record carries, and the literal each one is written as.

use vstd::prelude::*;
use crate::decimal::{decimal, decimal_number, lemma_decimal_round_trip};

verus! {

/// A value of one of the kinds that a record can carry.
#[derive(Debug)]
pub enum TypedValue {
    U8(u8),
    I8(i8),
    U16(u16),
    I16(i16),
    U32(u32),
    I32(i32),
    U64(u64),
    I64(i64),
    Usize(usize),
    Isize(isize),
    /// A 32- or 64-bit float, held as the decimal text of its 64-bit value.
    Float(String),
    Bool(bool),
    Char(char),
    Str(String),
    /// Text that some formatting produced.
    Arguments(String),
    /// The unit value.
    Unit,
    /// The marker for a value that is not there.
    Absent,
}

/// A key with its value.
#[derive(Debug)]
pub struct KeyValue {
    pub key: String,
    pub value: TypedValue,
}

/// An unsigned 64-bit value read as a signed one: values above `i64::MAX`
/// wrap round to the negative numbers.
pub open spec fn wrapped(v: int) -> int {
    if v <= i64::MAX {
        v
    } else {
        v - 0x1_0000_0000_0000_0000
    }
}

/// The literal of an integer: its decimal text, then `i`.
pub open spec fn int_literal(v: int) -> Seq<char> {
    decimal(v).push('i')
}

/// The literal of a boolean: `t` or `f`.
pub open spec fn bool_literal(b: bool) -> Seq<char> {
    if b {
        seq!['t']
    } else {
        seq!['f']
    }
}

/// A text between two double quotes, itself unchanged.
pub open spec fn quoted(text: Seq<char>) -> Seq<char> {
    seq!['"'] + text + seq!['"']
}

/// The literal of the unit value: `0`.
pub open spec fn unit_literal() -> Seq<char> {
    seq!['0']
}

/// The literal of a value that is not there: `f`.
pub open spec fn absent_literal() -> Seq<char> {
    seq!['f']
}

/// A key, the equals sign, and a literal.
pub open spec fn pair(key: Seq<char>, literal: Seq<char>) -> Seq<char> {
    key + seq!['='] + literal
}

/// What stands before a pair: nothing where the comma is skipped, else a comma.
pub open spec fn separator(skip_comma: bool) -> Seq<char> {
    if skip_comma {
        Seq::empty()
    } else {
        seq![',']
    }
}

impl TypedValue {
    /// Is the value of one of the integer kinds?
    pub open spec fn is_integer(self) -> bool {
        match self {
            TypedValue::U8(_) | TypedValue::I8(_) | TypedValue::U16(_) | TypedValue::I16(_)
            | TypedValue::U32(_) | TypedValue::I32(_) | TypedValue::U64(_) | TypedValue::I64(_)
            | TypedValue::Usize(_) | TypedValue::Isize(_) => true,
            _ => false,
        }
    }

    /// The number that an integer value holds; 0 for a value of another kind.
    pub open spec fn number(self) -> int {
        match self {
            TypedValue::U8(v) => v as int,
            TypedValue::I8(v) => v as int,
            TypedValue::U16(v) => v as int,
            TypedValue::I16(v) => v as int,
            TypedValue::U32(v) => v as int,
            TypedValue::I32(v) => v as int,
            TypedValue::U64(v) => v as int,
            TypedValue::I64(v) => v as int,
            TypedValue::Usize(v) => v as int,
            TypedValue::Isize(v) => v as int,
            _ => 0,
        }
    }

    /// The signed 64-bit number that an integer value is written as: the
    /// number it holds, wrapped round where it is above `i64::MAX`.
    pub open spec fn widened(self) -> int {
        wrapped(self.number())
    }

    /// The literal that the value is written as.
    pub open spec fn literal(self) -> Seq<char> {
        match self {
            TypedValue::Float(text) => text@,
            TypedValue::Bool(b) => bool_literal(b),
            TypedValue::Char(c) => quoted(seq![c]),
            TypedValue::Str(text) => quoted(text@),
            TypedValue::Arguments(text) => quoted(text@),
            TypedValue::Unit => unit_literal(),
            TypedValue::Absent => absent_literal(),
            _ => int_literal(self.widened()),
        }
    }
}

impl KeyValue {
    /// The pair as it is written: the key, `=`, the value's literal.
    pub open spec fn text(self) -> Seq<char> {
        pair(self.key@, self.value.literal())
    }

    /// A pair of `key` and `value`.
    pub fn new(key: &str, value: TypedValue) -> (r: KeyValue)
        ensures
            r.key@ == key@,
            r.value == value,
    {
        KeyValue { key: key.to_owned(), value }
    }
}

/// An unsigned 64-bit value as the signed one with the same bits.
pub fn wrap_u64(v: u64) -> (r: i64)
    ensures
        r == wrapped(v as int),
{
    if v <= 0x7fff_ffff_ffff_ffff {
        v as i64
    } else {
        -((u64::MAX - v) as i64) - 1
    }
}

/// An integer is written as its decimal text and a final `i`, and the text
/// reads back as the number written.
pub proof fn lemma_int_literal_round_trip(v: int)
    ensures
        int_literal(v).last() == 'i',
        int_literal(v).drop_last() == decimal(v),
        decimal_number(int_literal(v).drop_last()) == v,
{
    lemma_decimal_round_trip(v);
    assert(int_literal(v).drop_last() =~= decimal(v));
}

/// An integer value of any width that fits a signed 64-bit number is written
/// as its own decimal text and a final `i`.
pub proof fn lemma_integer_value_round_trip(value: TypedValue)
    requires
        value.is_integer(),
        value.number() <= i64::MAX,
    ensures
        value.literal() == decimal(value.number()).push('i'),
        decimal_number(value.literal().drop_last()) == value.number(),
{
    lemma_int_literal_round_trip(value.number());
}

/// An unsigned value above `i64::MAX` is written as the negative number with
/// the same 64 bits.
pub proof fn lemma_integer_value_wraps(value: TypedValue)
    requires
        value.is_integer(),
        value.number() > i64::MAX,
    ensures
        value.literal() == decimal(value.number() - 0x1_0000_0000_0000_0000).push('i'),
{
}

/// A boolean is written as `t` or `f`, the unit value as `0`, and a value
/// that is not there as `f`.
pub proof fn lemma_marker_literals(b: bool)
    ensures
        TypedValue::Bool(b).literal() == if b {
            seq!['t']
        } else {
            seq!['f']
        },
        TypedValue::Unit.literal() == seq!['0'],
        TypedValue::Absent.literal() == seq!['f'],
{
}

/// A quoted text is the text itself between one double quote and another:
/// nothing in it is escaped or left out.
pub proof fn lemma_quoted(text: Seq<char>)
    ensures
        quoted(text).len() == text.len() + 2,
        quoted(text).first() == '"',
        quoted(text).last() == '"',
        quoted(text).subrange(1, quoted(text).len() - 1) == text,
{
    assert(quoted(text).subrange(1, quoted(text).len() - 1) =~= text);
}

/// A string, a formatted text and a character are written quoted.
pub proof fn lemma_text_literals(text: String, c: char)
    ensures
        TypedValue::Str(text).literal() == quoted(text@),
        TypedValue::Arguments(text).literal() == quoted(text@),
        TypedValue::Char(c).literal() == quoted(seq![c]),
{
}

/// The first pair of a section follows what stands before it directly; any
/// other pair follows a comma.
pub proof fn lemma_pair_after_separator(
    before: Seq<char>,
    skip_comma: bool,
    key: Seq<char>,
    literal: Seq<char>,
)
    ensures
        skip_comma ==> before + separator(skip_comma) + pair(key, literal) == before + key
            + seq!['='] + literal,
        !skip_comma ==> before + separator(skip_comma) + pair(key, literal) == before + seq![',']
            + key + seq!['='] + literal,
{
    if skip_comma {
        assert(before + separator(skip_comma) + pair(key, literal) =~= before + key + seq!['=']
            + literal);
    } else {
        assert(before + separator(skip_comma) + pair(key, literal) =~= before + seq![','] + key
            + seq!['='] + literal);
    }
}

} // verus!
