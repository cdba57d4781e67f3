//! Catalog rows as the store hands them over, and the two readings that the
//! engine makes of a column: as text and as an unsigned number.

use vstd::prelude::*;
use vstd::utf8::{decode_utf8, valid_utf8};

verus! {

/// One column of a row, in the two forms in which the store gives it: read
/// as a signed integer, and read as raw bytes.
#[derive(Clone, Debug, PartialEq, Eq)]
pub struct Field {
    pub integer: i64,
    pub bytes: Vec<u8>,
}

/// One row of a query's result: its columns from left to right.
#[derive(Clone, Debug, PartialEq, Eq)]
pub struct Record {
    pub fields: Vec<Field>,
}

/// The row has no column at that index.
#[derive(Clone, Copy, Debug, PartialEq, Eq, Structural)]
pub struct NoSuchField;

/// The view of a text that may be missing.
pub open spec fn text_view(text: Option<String>) -> Option<Seq<char>> {
    match text {
        Some(s) => Some(s@),
        None => None,
    }
}

/// A signed 64-bit integer taken as unsigned: the same 64 bits.
pub open spec fn as_unsigned_spec(v: i64) -> u64 {
    if v >= 0 {
        v as u64
    } else {
        (v + 0x1_0000_0000_0000_0000) as u64
    }
}

/// Reads a column as text.
pub trait TextField {
    /// The text in column `i`, if the row has that column and it holds text.
    spec fn text_spec(&self, i: usize) -> Option<Seq<char>>;

    /// The text in column `i`; `None` where there is none.
    fn read_text(&self, i: usize) -> (text: Option<String>)
        ensures
            text_view(text) == self.text_spec(i),
    ;
}

/// Reads a column as an unsigned number.
pub trait UnsignedField {
    /// The unsigned number in column `i`, if the row has that column.
    spec fn unsigned_spec(&self, i: usize) -> Result<u64, NoSuchField>;

    /// The unsigned number in column `i`.
    fn read_u64(&self, i: usize) -> (value: Result<u64, NoSuchField>)
        ensures
            value == self.unsigned_spec(i),
    ;
}

/// `String::from_utf8`: the text that the bytes encode in UTF-8, and `None`
/// exactly when they are not well-formed UTF-8.
#[verifier::external_body]
fn utf8_text(bytes: &Vec<u8>) -> (text: Option<String>)
    ensures
        text is Some <==> valid_utf8(bytes@),
        text matches Some(s) ==> s@ == decode_utf8(bytes@),
{
    String::from_utf8(bytes.clone()).ok()
}

/// Takes a signed integer as unsigned, bit for bit.
pub fn as_unsigned(v: i64) -> (u: u64)
    ensures
        u == as_unsigned_spec(v),
{
    if v >= 0 {
        v as u64
    } else {
        let low: u64 = (v + i64::MAX + 1) as u64;
        low + 0x8000_0000_0000_0000
    }
}

impl TextField for Record {
    /// A column holds text when its bytes are well-formed UTF-8; the text is
    /// what they decode to.
    open spec fn text_spec(&self, i: usize) -> Option<Seq<char>> {
        if i < self.fields.len() && valid_utf8(self.fields[i as int].bytes@) {
            Some(decode_utf8(self.fields[i as int].bytes@))
        } else {
            None
        }
    }

    fn read_text(&self, i: usize) -> (text: Option<String>) {
        if i < self.fields.len() {
            utf8_text(&self.fields[i].bytes)
        } else {
            None
        }
    }
}

impl UnsignedField for Record {
    /// A column's unsigned number is its integer taken as unsigned.
    open spec fn unsigned_spec(&self, i: usize) -> Result<u64, NoSuchField> {
        if i < self.fields.len() {
            Ok(as_unsigned_spec(self.fields[i as int].integer))
        } else {
            Err(NoSuchField)
        }
    }

    fn read_u64(&self, i: usize) -> (value: Result<u64, NoSuchField>) {
        if i < self.fields.len() {
            Ok(as_unsigned(self.fields[i].integer))
        } else {
            Err(NoSuchField)
        }
    }
}

impl Record {
    /// The text in column `i`, or the empty text where the column is
    /// missing or does not hold text.
    pub open spec fn text_or_empty_spec(&self, i: usize) -> Seq<char> {
        match self.text_spec(i) {
            Some(s) => s,
            None => Seq::empty(),
        }
    }

    /// The text in column `i`; empty where there is none.
    pub fn text_or_empty(&self, i: usize) -> (text: String)
        ensures
            text@ == self.text_or_empty_spec(i),
    {
        match self.read_text(i) {
            Some(s) => s,
            None => String::new(),
        }
    }

    /// The signed integer in column `i`.
    pub fn read_i64(&self, i: usize) -> (value: Result<i64, NoSuchField>)
        ensures
            value == if i < self.fields.len() {
                Ok::<i64, NoSuchField>(self.fields[i as int].integer)
            } else {
                Err::<i64, NoSuchField>(NoSuchField)
            },
    {
        if i < self.fields.len() {
            Ok(self.fields[i].integer)
        } else {
            Err(NoSuchField)
        }
    }
}

} // verus!
