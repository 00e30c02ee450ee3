//! The encoder: one line of text, built pair by pair in a single pass.

use vstd::prelude::*;
use vstd::string::*;
use crate::decimal::push_decimal;
use crate::error::FormatError;
use crate::value::{
    absent_literal, bool_literal, int_literal, pair, quoted, separator, unit_literal, wrap_u64,
    wrapped, TypedValue,
};

verus! {

/// The room that a line gets where the caller names none.
pub const DEFAULT_CAPACITY: usize = 120;

/// The field that `end` can put into an empty field section.
pub open spec fn dummy_field() -> Seq<char> {
    seq!['_', 'd', 'u', 'm', 'm', 'y', '=', '1', 'i']
}

/// The line as `end` closes it: the text so far, the dummy field where it is
/// asked for, and one line feed.
pub open spec fn closed_line(text: Seq<char>, insert_dummy_field: bool) -> Seq<char> {
    if insert_dummy_field {
        (text + dummy_field()).push('\n')
    } else {
        text.push('\n')
    }
}

fn push_key(buf: &mut String, key: &str)
    ensures
        final(buf)@ == old(buf)@ + key@ + seq!['='],
{
    buf.append(key);
    buf.push('=');
}

fn push_pair_int(buf: &mut String, key: &str, v: i64)
    ensures
        final(buf)@ == old(buf)@ + pair(key@, int_literal(v as int)),
{
    push_key(buf, key);
    push_decimal(buf, v);
    buf.push('i');
}

fn push_pair_raw(buf: &mut String, key: &str, literal: &str)
    ensures
        final(buf)@ == old(buf)@ + pair(key@, literal@),
{
    push_key(buf, key);
    buf.append(literal);
}

fn push_pair_bool(buf: &mut String, key: &str, val: bool)
    ensures
        final(buf)@ == old(buf)@ + pair(key@, bool_literal(val)),
{
    push_key(buf, key);
    if val {
        buf.push('t');
    } else {
        buf.push('f');
    }
}

fn push_pair_char(buf: &mut String, key: &str, val: char)
    ensures
        final(buf)@ == old(buf)@ + pair(key@, quoted(seq![val])),
{
    push_key(buf, key);
    buf.push('"');
    buf.push(val);
    buf.push('"');
}

fn push_pair_quoted(buf: &mut String, key: &str, text: &str)
    ensures
        final(buf)@ == old(buf)@ + pair(key@, quoted(text@)),
{
    push_key(buf, key);
    buf.push('"');
    buf.append(text);
    buf.push('"');
}

fn push_pair_unit(buf: &mut String, key: &str)
    ensures
        final(buf)@ == old(buf)@ + pair(key@, unit_literal()),
{
    push_key(buf, key);
    buf.push('0');
}

fn push_pair_absent(buf: &mut String, key: &str)
    ensures
        final(buf)@ == old(buf)@ + pair(key@, absent_literal()),
{
    push_key(buf, key);
    buf.push('f');
}

/// The encoder of one line. It is made by `start`, filled through the two
/// handles, and used up by `end`.
pub struct TelegrafSocketSerializer {
    data: String,
}

impl View for TelegrafSocketSerializer {
    type V = Seq<char>;

    /// The text written so far.
    closed spec fn view(&self) -> Seq<char> {
        self.data@
    }
}

impl TelegrafSocketSerializer {
    /// Opens a line with the measurement's name. `len` is the room to set
    /// aside for the line; it changes nothing of what is written.
    pub fn start(measurement: &str, len: Option<usize>) -> (r: Result<Self, FormatError>)
        ensures
            r is Ok,
            r->Ok_0@ == measurement@,
    {
        let capacity = match len {
            Some(n) => if n <= isize::MAX as usize { n } else { DEFAULT_CAPACITY },
            None => DEFAULT_CAPACITY,
        };
        let mut data = String::with_capacity(capacity);
        data.append(measurement);
        Ok(TelegrafSocketSerializer { data })
    }

    /// The handle that writes tags. When it is let go, the line holds what it
    /// wrote.
    pub fn tag_serializer(&mut self) -> (r: TelegrafSocketTagSerializer<'_>)
        ensures
            r.data@ == old(self)@,
            final(self)@ == final(r.data)@,
    {
        TelegrafSocketTagSerializer { data: &mut self.data }
    }

    /// The handle that writes fields. It starts a section: its first pair
    /// gets no comma. When it is let go, the line holds what it wrote.
    pub fn field_serializer(&mut self) -> (r: TelegrafSocketFieldSerializer<'_>)
        ensures
            r.data@ == old(self)@,
            r.skip_comma,
            final(self)@ == final(r.data)@,
    {
        TelegrafSocketFieldSerializer { data: &mut self.data, skip_comma: true }
    }

    /// Ends the tag section: one space.
    pub fn tag_value_break(&mut self) -> (r: Result<(), FormatError>)
        ensures
            r is Ok,
            final(self)@ == old(self)@.push(' '),
    {
        self.data.push(' ');
        Ok(())
    }

    /// Closes the line with one line feed and hands it out. With
    /// `insert_dummy_field` the field `_dummy=1i` is written first, for a line
    /// that got no field.
    pub fn end(self, insert_dummy_field: bool) -> (r: Result<String, FormatError>)
        ensures
            r is Ok,
            r->Ok_0@ == closed_line(self@, insert_dummy_field),
    {
        let mut data = self.data;
        if insert_dummy_field {
            push_pair_int(&mut data, "_dummy", 1);
            proof {
                reveal_strlit("_dummy");
                lemma_dummy_field();
            }
        }
        data.push('\n');
        Ok(data)
    }
}

/// A closed line is the text, the dummy field where it was asked for, and
/// one line feed at the very end.
pub proof fn lemma_closed_line(text: Seq<char>, insert_dummy_field: bool)
    ensures
        closed_line(text, insert_dummy_field).last() == '\n',
        closed_line(text, false).drop_last() == text,
        closed_line(text, true).drop_last() == text + dummy_field(),
        closed_line(text, false).len() == text.len() + 1,
{
    assert(closed_line(text, false).drop_last() =~= text);
    assert(closed_line(text, true).drop_last() =~= text + dummy_field());
}

proof fn lemma_dummy_field()
    ensures
        pair(seq!['_', 'd', 'u', 'm', 'm', 'y'], int_literal(1)) == dummy_field(),
{
    reveal_with_fuel(crate::decimal::digits, 2);
    assert(crate::decimal::decimal(1) =~= seq!['1']);
    assert(pair(seq!['_', 'd', 'u', 'm', 'm', 'y'], int_literal(1)) =~= dummy_field());
}

/// The handle that writes the tag section. Each pair follows a comma: the
/// first one comes after the measurement's name.
///
/// `data` is the line being written. The last clause of each method says
/// that the handle still writes to the same line when the method is done.
pub struct TelegrafSocketTagSerializer<'a> {
    pub data: &'a mut String,
}

impl<'a> TelegrafSocketTagSerializer<'a> {
    /// The text after one more pair: a comma, the key, `=`, the literal.
    pub open spec fn after(self, key: Seq<char>, literal: Seq<char>) -> Seq<char> {
        self.data@ + separator(false) + pair(key, literal)
    }

    /// Writes a `u8`: its decimal text, then `i`.
    pub fn emit_u8(&mut self, key: &str, val: u8) -> (r: Result<(), FormatError>)
        ensures
            r is Ok,
            final(self).data@ == old(self).after(key@, int_literal(val as int)),
            final(final(self).data)@ == final(old(self).data)@,
    {
        self.data.push(',');
        push_pair_int(self.data, key, val as i64);
        Ok(())
    }

    /// Writes an `i8`: its decimal text, then `i`.
    pub fn emit_i8(&mut self, key: &str, val: i8) -> (r: Result<(), FormatError>)
        ensures
            r is Ok,
            final(self).data@ == old(self).after(key@, int_literal(val as int)),
            final(final(self).data)@ == final(old(self).data)@,
    {
        self.data.push(',');
        push_pair_int(self.data, key, val as i64);
        Ok(())
    }

    /// Writes a `u16`: its decimal text, then `i`.
    pub fn emit_u16(&mut self, key: &str, val: u16) -> (r: Result<(), FormatError>)
        ensures
            r is Ok,
            final(self).data@ == old(self).after(key@, int_literal(val as int)),
            final(final(self).data)@ == final(old(self).data)@,
    {
        self.data.push(',');
        push_pair_int(self.data, key, val as i64);
        Ok(())
    }

    /// Writes an `i16`: its decimal text, then `i`.
    pub fn emit_i16(&mut self, key: &str, val: i16) -> (r: Result<(), FormatError>)
        ensures
            r is Ok,
            final(self).data@ == old(self).after(key@, int_literal(val as int)),
            final(final(self).data)@ == final(old(self).data)@,
    {
        self.data.push(',');
        push_pair_int(self.data, key, val as i64);
        Ok(())
    }

    /// Writes a `usize` as the signed 64-bit number with the same bits: its decimal text, then `i`.
    pub fn emit_usize(&mut self, key: &str, val: usize) -> (r: Result<(), FormatError>)
        ensures
            r is Ok,
            final(self).data@ == old(self).after(key@, int_literal(wrapped(val as int))),
            final(final(self).data)@ == final(old(self).data)@,
    {
        self.data.push(',');
        push_pair_int(self.data, key, wrap_u64(val as u64));
        Ok(())
    }

    /// Writes an `isize`: its decimal text, then `i`.
    pub fn emit_isize(&mut self, key: &str, val: isize) -> (r: Result<(), FormatError>)
        ensures
            r is Ok,
            final(self).data@ == old(self).after(key@, int_literal(val as int)),
            final(final(self).data)@ == final(old(self).data)@,
    {
        self.data.push(',');
        push_pair_int(self.data, key, val as i64);
        Ok(())
    }

    /// Writes a `u32`: its decimal text, then `i`.
    pub fn emit_u32(&mut self, key: &str, val: u32) -> (r: Result<(), FormatError>)
        ensures
            r is Ok,
            final(self).data@ == old(self).after(key@, int_literal(val as int)),
            final(final(self).data)@ == final(old(self).data)@,
    {
        self.data.push(',');
        push_pair_int(self.data, key, val as i64);
        Ok(())
    }

    /// Writes an `i32`: its decimal text, then `i`.
    pub fn emit_i32(&mut self, key: &str, val: i32) -> (r: Result<(), FormatError>)
        ensures
            r is Ok,
            final(self).data@ == old(self).after(key@, int_literal(val as int)),
            final(final(self).data)@ == final(old(self).data)@,
    {
        self.data.push(',');
        push_pair_int(self.data, key, val as i64);
        Ok(())
    }

    /// Writes a `u64` as the signed 64-bit number with the same bits: its decimal text, then `i`.
    pub fn emit_u64(&mut self, key: &str, val: u64) -> (r: Result<(), FormatError>)
        ensures
            r is Ok,
            final(self).data@ == old(self).after(key@, int_literal(wrapped(val as int))),
            final(final(self).data)@ == final(old(self).data)@,
    {
        self.data.push(',');
        push_pair_int(self.data, key, wrap_u64(val));
        Ok(())
    }

    /// Writes an `i64`: its decimal text, then `i`.
    pub fn emit_i64(&mut self, key: &str, val: i64) -> (r: Result<(), FormatError>)
        ensures
            r is Ok,
            final(self).data@ == old(self).after(key@, int_literal(val as int)),
            final(final(self).data)@ == final(old(self).data)@,
    {
        self.data.push(',');
        push_pair_int(self.data, key, val);
        Ok(())
    }

    /// Writes a float. `text` is the decimal text of its 64-bit value, which is written as it is.
    pub fn emit_float(&mut self, key: &str, text: &str) -> (r: Result<(), FormatError>)
        ensures
            r is Ok,
            final(self).data@ == old(self).after(key@, text@),
            final(final(self).data)@ == final(old(self).data)@,
    {
        self.data.push(',');
        push_pair_raw(self.data, key, text);
        Ok(())
    }

    /// Writes a boolean: `t` or `f`.
    pub fn emit_bool(&mut self, key: &str, val: bool) -> (r: Result<(), FormatError>)
        ensures
            r is Ok,
            final(self).data@ == old(self).after(key@, bool_literal(val)),
            final(final(self).data)@ == final(old(self).data)@,
    {
        self.data.push(',');
        push_pair_bool(self.data, key, val);
        Ok(())
    }

    /// Writes a character between double quotes.
    pub fn emit_char(&mut self, key: &str, val: char) -> (r: Result<(), FormatError>)
        ensures
            r is Ok,
            final(self).data@ == old(self).after(key@, quoted(seq![val])),
            final(final(self).data)@ == final(old(self).data)@,
    {
        self.data.push(',');
        push_pair_char(self.data, key, val);
        Ok(())
    }

    /// Writes a string between double quotes, without escaping anything in it.
    pub fn emit_str(&mut self, key: &str, val: &str) -> (r: Result<(), FormatError>)
        ensures
            r is Ok,
            final(self).data@ == old(self).after(key@, quoted(val@)),
            final(final(self).data)@ == final(old(self).data)@,
    {
        self.data.push(',');
        push_pair_quoted(self.data, key, val);
        Ok(())
    }

    /// Writes the unit value: `0`.
    pub fn emit_unit(&mut self, key: &str) -> (r: Result<(), FormatError>)
        ensures
            r is Ok,
            final(self).data@ == old(self).after(key@, unit_literal()),
            final(final(self).data)@ == final(old(self).data)@,
    {
        self.data.push(',');
        push_pair_unit(self.data, key);
        Ok(())
    }

    /// Writes a value that is not there: `f`.
    pub fn emit_none(&mut self, key: &str) -> (r: Result<(), FormatError>)
        ensures
            r is Ok,
            final(self).data@ == old(self).after(key@, absent_literal()),
            final(final(self).data)@ == final(old(self).data)@,
    {
        self.data.push(',');
        push_pair_absent(self.data, key);
        Ok(())
    }

    /// Writes formatted text between double quotes, without escaping anything in it.
    pub fn emit_arguments(&mut self, key: &str, val: &str) -> (r: Result<(), FormatError>)
        ensures
            r is Ok,
            final(self).data@ == old(self).after(key@, quoted(val@)),
            final(final(self).data)@ == final(old(self).data)@,
    {
        self.data.push(',');
        push_pair_quoted(self.data, key, val);
        Ok(())
    }

    /// Writes a value of any kind, by the rule of its kind.
    pub fn emit(&mut self, key: &str, value: &TypedValue) -> (r: Result<(), FormatError>)
        ensures
            r is Ok,
            final(self).data@ == old(self).after(key@, value.literal()),
            final(final(self).data)@ == final(old(self).data)@,
    {
        match value {
            TypedValue::U8(val) => self.emit_u8(key, *val),
            TypedValue::I8(val) => self.emit_i8(key, *val),
            TypedValue::U16(val) => self.emit_u16(key, *val),
            TypedValue::I16(val) => self.emit_i16(key, *val),
            TypedValue::Usize(val) => self.emit_usize(key, *val),
            TypedValue::Isize(val) => self.emit_isize(key, *val),
            TypedValue::U32(val) => self.emit_u32(key, *val),
            TypedValue::I32(val) => self.emit_i32(key, *val),
            TypedValue::U64(val) => self.emit_u64(key, *val),
            TypedValue::I64(val) => self.emit_i64(key, *val),
            TypedValue::Float(text) => self.emit_float(key, text.as_str()),
            TypedValue::Bool(val) => self.emit_bool(key, *val),
            TypedValue::Char(val) => self.emit_char(key, *val),
            TypedValue::Str(text) => self.emit_str(key, text.as_str()),
            TypedValue::Arguments(text) => self.emit_arguments(key, text.as_str()),
            TypedValue::Unit => self.emit_unit(key),
            TypedValue::Absent => self.emit_none(key),
        }
    }
}

/// The handle that writes the field section. Its pairs are set apart by
/// commas; `skip_comma` holds until the first pair is written.
///
/// `data` is the line being written. The last clause of each method says
/// that the handle still writes to the same line when the method is done.
pub struct TelegrafSocketFieldSerializer<'a> {
    pub data: &'a mut String,
    pub skip_comma: bool,
}

impl<'a> TelegrafSocketFieldSerializer<'a> {
    /// The text after one more pair: a comma unless it is skipped, the key,
    /// `=`, the literal.
    pub open spec fn after(self, key: Seq<char>, literal: Seq<char>) -> Seq<char> {
        self.data@ + separator(self.skip_comma) + pair(key, literal)
    }

    /// Writes the comma that sets a pair apart from the one before it; for
    /// the first pair of the section it writes nothing and clears the flag.
    pub fn maybe_write_comma(&mut self) -> (r: Result<(), FormatError>)
        ensures
            r is Ok,
            final(self).data@ == old(self).data@ + separator(old(self).skip_comma),
            !final(self).skip_comma,
            final(final(self).data)@ == final(old(self).data)@,
    {
        if self.skip_comma {
            self.skip_comma = false;
        } else {
            self.data.push(',');
        }
        Ok(())
    }

    /// Writes a signed 64-bit number: its decimal text, then `i`.
    pub fn write_int(&mut self, key: &str, integer: i64) -> (r: Result<(), FormatError>)
        ensures
            r is Ok,
            final(self).data@ == old(self).after(key@, int_literal(integer as int)),
            !final(self).skip_comma,
            final(final(self).data)@ == final(old(self).data)@,
    {
        let _ = self.maybe_write_comma();
        push_pair_int(self.data, key, integer);
        Ok(())
    }

    /// Writes a `u8`: its decimal text, then `i`.
    pub fn emit_u8(&mut self, key: &str, val: u8) -> (r: Result<(), FormatError>)
        ensures
            r is Ok,
            final(self).data@ == old(self).after(key@, int_literal(val as int)),
            !final(self).skip_comma,
            final(final(self).data)@ == final(old(self).data)@,
    {
        self.write_int(key, val as i64)
    }

    /// Writes an `i8`: its decimal text, then `i`.
    pub fn emit_i8(&mut self, key: &str, val: i8) -> (r: Result<(), FormatError>)
        ensures
            r is Ok,
            final(self).data@ == old(self).after(key@, int_literal(val as int)),
            !final(self).skip_comma,
            final(final(self).data)@ == final(old(self).data)@,
    {
        self.write_int(key, val as i64)
    }

    /// Writes a `u16`: its decimal text, then `i`.
    pub fn emit_u16(&mut self, key: &str, val: u16) -> (r: Result<(), FormatError>)
        ensures
            r is Ok,
            final(self).data@ == old(self).after(key@, int_literal(val as int)),
            !final(self).skip_comma,
            final(final(self).data)@ == final(old(self).data)@,
    {
        self.write_int(key, val as i64)
    }

    /// Writes an `i16`: its decimal text, then `i`.
    pub fn emit_i16(&mut self, key: &str, val: i16) -> (r: Result<(), FormatError>)
        ensures
            r is Ok,
            final(self).data@ == old(self).after(key@, int_literal(val as int)),
            !final(self).skip_comma,
            final(final(self).data)@ == final(old(self).data)@,
    {
        self.write_int(key, val as i64)
    }

    /// Writes a `usize` as the signed 64-bit number with the same bits: its decimal text, then `i`.
    pub fn emit_usize(&mut self, key: &str, val: usize) -> (r: Result<(), FormatError>)
        ensures
            r is Ok,
            final(self).data@ == old(self).after(key@, int_literal(wrapped(val as int))),
            !final(self).skip_comma,
            final(final(self).data)@ == final(old(self).data)@,
    {
        self.write_int(key, wrap_u64(val as u64))
    }

    /// Writes an `isize`: its decimal text, then `i`.
    pub fn emit_isize(&mut self, key: &str, val: isize) -> (r: Result<(), FormatError>)
        ensures
            r is Ok,
            final(self).data@ == old(self).after(key@, int_literal(val as int)),
            !final(self).skip_comma,
            final(final(self).data)@ == final(old(self).data)@,
    {
        self.write_int(key, val as i64)
    }

    /// Writes a `u32`: its decimal text, then `i`.
    pub fn emit_u32(&mut self, key: &str, val: u32) -> (r: Result<(), FormatError>)
        ensures
            r is Ok,
            final(self).data@ == old(self).after(key@, int_literal(val as int)),
            !final(self).skip_comma,
            final(final(self).data)@ == final(old(self).data)@,
    {
        self.write_int(key, val as i64)
    }

    /// Writes an `i32`: its decimal text, then `i`.
    pub fn emit_i32(&mut self, key: &str, val: i32) -> (r: Result<(), FormatError>)
        ensures
            r is Ok,
            final(self).data@ == old(self).after(key@, int_literal(val as int)),
            !final(self).skip_comma,
            final(final(self).data)@ == final(old(self).data)@,
    {
        self.write_int(key, val as i64)
    }

    /// Writes a `u64` as the signed 64-bit number with the same bits: its decimal text, then `i`.
    pub fn emit_u64(&mut self, key: &str, val: u64) -> (r: Result<(), FormatError>)
        ensures
            r is Ok,
            final(self).data@ == old(self).after(key@, int_literal(wrapped(val as int))),
            !final(self).skip_comma,
            final(final(self).data)@ == final(old(self).data)@,
    {
        self.write_int(key, wrap_u64(val))
    }

    /// Writes an `i64`: its decimal text, then `i`.
    pub fn emit_i64(&mut self, key: &str, val: i64) -> (r: Result<(), FormatError>)
        ensures
            r is Ok,
            final(self).data@ == old(self).after(key@, int_literal(val as int)),
            !final(self).skip_comma,
            final(final(self).data)@ == final(old(self).data)@,
    {
        self.write_int(key, val)
    }

    /// Writes a float. `text` is the decimal text of its 64-bit value, which is written as it is.
    pub fn emit_float(&mut self, key: &str, text: &str) -> (r: Result<(), FormatError>)
        ensures
            r is Ok,
            final(self).data@ == old(self).after(key@, text@),
            !final(self).skip_comma,
            final(final(self).data)@ == final(old(self).data)@,
    {
        let _ = self.maybe_write_comma();
        push_pair_raw(self.data, key, text);
        Ok(())
    }

    /// Writes a boolean: `t` or `f`.
    pub fn emit_bool(&mut self, key: &str, val: bool) -> (r: Result<(), FormatError>)
        ensures
            r is Ok,
            final(self).data@ == old(self).after(key@, bool_literal(val)),
            !final(self).skip_comma,
            final(final(self).data)@ == final(old(self).data)@,
    {
        let _ = self.maybe_write_comma();
        push_pair_bool(self.data, key, val);
        Ok(())
    }

    /// Writes a character between double quotes.
    pub fn emit_char(&mut self, key: &str, val: char) -> (r: Result<(), FormatError>)
        ensures
            r is Ok,
            final(self).data@ == old(self).after(key@, quoted(seq![val])),
            !final(self).skip_comma,
            final(final(self).data)@ == final(old(self).data)@,
    {
        let _ = self.maybe_write_comma();
        push_pair_char(self.data, key, val);
        Ok(())
    }

    /// Writes a string between double quotes, without escaping anything in it.
    pub fn emit_str(&mut self, key: &str, val: &str) -> (r: Result<(), FormatError>)
        ensures
            r is Ok,
            final(self).data@ == old(self).after(key@, quoted(val@)),
            !final(self).skip_comma,
            final(final(self).data)@ == final(old(self).data)@,
    {
        let _ = self.maybe_write_comma();
        push_pair_quoted(self.data, key, val);
        Ok(())
    }

    /// Writes the unit value: `0`.
    pub fn emit_unit(&mut self, key: &str) -> (r: Result<(), FormatError>)
        ensures
            r is Ok,
            final(self).data@ == old(self).after(key@, unit_literal()),
            !final(self).skip_comma,
            final(final(self).data)@ == final(old(self).data)@,
    {
        let _ = self.maybe_write_comma();
        push_pair_unit(self.data, key);
        Ok(())
    }

    /// Writes a value that is not there: `f`.
    pub fn emit_none(&mut self, key: &str) -> (r: Result<(), FormatError>)
        ensures
            r is Ok,
            final(self).data@ == old(self).after(key@, absent_literal()),
            !final(self).skip_comma,
            final(final(self).data)@ == final(old(self).data)@,
    {
        let _ = self.maybe_write_comma();
        push_pair_absent(self.data, key);
        Ok(())
    }

    /// Writes formatted text between double quotes, without escaping anything in it.
    pub fn emit_arguments(&mut self, key: &str, val: &str) -> (r: Result<(), FormatError>)
        ensures
            r is Ok,
            final(self).data@ == old(self).after(key@, quoted(val@)),
            !final(self).skip_comma,
            final(final(self).data)@ == final(old(self).data)@,
    {
        let _ = self.maybe_write_comma();
        push_pair_quoted(self.data, key, val);
        Ok(())
    }

    /// Writes a value of any kind, by the rule of its kind.
    pub fn emit(&mut self, key: &str, value: &TypedValue) -> (r: Result<(), FormatError>)
        ensures
            r is Ok,
            final(self).data@ == old(self).after(key@, value.literal()),
            !final(self).skip_comma,
            final(final(self).data)@ == final(old(self).data)@,
    {
        match value {
            TypedValue::U8(val) => self.emit_u8(key, *val),
            TypedValue::I8(val) => self.emit_i8(key, *val),
            TypedValue::U16(val) => self.emit_u16(key, *val),
            TypedValue::I16(val) => self.emit_i16(key, *val),
            TypedValue::Usize(val) => self.emit_usize(key, *val),
            TypedValue::Isize(val) => self.emit_isize(key, *val),
            TypedValue::U32(val) => self.emit_u32(key, *val),
            TypedValue::I32(val) => self.emit_i32(key, *val),
            TypedValue::U64(val) => self.emit_u64(key, *val),
            TypedValue::I64(val) => self.emit_i64(key, *val),
            TypedValue::Float(text) => self.emit_float(key, text.as_str()),
            TypedValue::Bool(val) => self.emit_bool(key, *val),
            TypedValue::Char(val) => self.emit_char(key, *val),
            TypedValue::Str(text) => self.emit_str(key, text.as_str()),
            TypedValue::Arguments(text) => self.emit_arguments(key, text.as_str()),
            TypedValue::Unit => self.emit_unit(key),
            TypedValue::Absent => self.emit_none(key),
        }
    }
}

} // verus!
