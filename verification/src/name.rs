//! Entry names: how a directory entry's name carries the identity of what it
//! names, and how the identity is read back out of a name.
//!
//! A name starts with the identity between brackets, `[42] Summer Trip` for a
//! directory (a tag or an event), or between parentheses, `(17) sunset.jpg`
//! for a file (a photo or a video). What follows the closing bracket is a
//! label for people and is never read back.

use vstd::prelude::*;
use vstd::string::StringExecFns;
use crate::text::{
    chars_of, decimal_spec, find_first, find_last, lemma_decimal_value, lemma_parse_decimal,
    parse_spec, parse_u64, push_decimal, string_of, is_digit,
};

verus! {

/// The identity found in a name, and the kind of bracket it stood in.
#[derive(Clone, Copy, Debug, PartialEq, Eq, Structural)]
pub enum FileId {
    /// `(id)`: a photo or a video.
    FileKind(u64),
    /// `[id]`: a tag or an event.
    DirKind(u64),
}

/// The number between the first character of `s` and the first `close`.
pub open spec fn bracketed_spec(s: Seq<char>, close: char) -> Option<u64> {
    match s.index_of_first(close) {
        Some(end) => parse_spec(s.subrange(1, end)),
        None => None,
    }
}

/// The identity that a name carries, if it carries one: the name starts with
/// `[` or `(`, the matching closing bracket occurs, and the text between the
/// opening bracket and the first closing one denotes an unsigned number.
pub open spec fn extract_id_spec(s: Seq<char>) -> Option<FileId> {
    if s.len() > 0 && s[0] == '[' {
        match bracketed_spec(s, ']') {
            Some(id) => Some(FileId::DirKind(id)),
            None => None,
        }
    } else if s.len() > 0 && s[0] == '(' {
        match bracketed_spec(s, ')') {
            Some(id) => Some(FileId::FileKind(id)),
            None => None,
        }
    } else {
        None
    }
}

/// The name of a directory entry: `[id] label`.
pub open spec fn dir_name_spec(id: u64, label: Seq<char>) -> Seq<char> {
    seq!['['] + decimal_spec(id as nat) + seq![']', ' '] + label
}

/// The name of a file entry: `(id) label.extension`.
pub open spec fn file_name_spec(id: u64, label: Seq<char>, extension: Seq<char>) -> Seq<char> {
    seq!['('] + decimal_spec(id as nat) + seq![')', ' '] + label + seq!['.'] + extension
}

/// What follows the last dot of a file name; empty where there is no dot.
pub open spec fn extension_spec(filename: Seq<char>) -> Seq<char> {
    match filename.index_of_last('.') {
        Some(dot) => filename.subrange(dot + 1, filename.len() as int),
        None => Seq::empty(),
    }
}

/// The label of an entry: its title, or else the text of its time stamp.
pub open spec fn label_spec(title: Seq<char>, stamp: Seq<char>) -> Seq<char> {
    if title.len() > 0 {
        title
    } else {
        stamp
    }
}

/// A tag's name without its leading slashes.
pub open spec fn trim_slashes_spec(name: Seq<char>) -> Seq<char>
    decreases name.len(),
{
    if name.len() > 0 && name[0] == '/' {
        trim_slashes_spec(name.drop_first())
    } else {
        name
    }
}

/// A tag below another tag: a slash remains after the leading ones.
pub open spec fn is_nested_spec(name: Seq<char>) -> bool {
    trim_slashes_spec(name).contains('/')
}

/// Reads the identity out of an entry name.
pub fn extract_id(name: &str) -> (id: Option<FileId>)
    ensures
        id == extract_id_spec(name@),
{
    let chars = chars_of(name);
    let len: usize = chars.len();
    if len == 0 {
        return None;
    }
    assert(chars@.subrange(0, len as int) =~= chars@);
    let open: char = chars[0];
    if open == '[' {
        match find_first(&chars, 0, len, ']') {
            Some(end) => {
                proof {
                    chars@.index_of_first_ensures(']');
                }
                match parse_u64(&chars, 1, end) {
                    Some(id) => Some(FileId::DirKind(id)),
                    None => None,
                }
            },
            None => None,
        }
    } else if open == '(' {
        match find_first(&chars, 0, len, ')') {
            Some(end) => {
                proof {
                    chars@.index_of_first_ensures(')');
                }
                match parse_u64(&chars, 1, end) {
                    Some(id) => Some(FileId::FileKind(id)),
                    None => None,
                }
            },
            None => None,
        }
    } else {
        None
    }
}

/// Builds the name of a directory entry.
pub fn dir_name(id: u64, label: &str) -> (name: String)
    ensures
        name@ == dir_name_spec(id, label@),
{
    let mut name = String::new();
    name.push('[');
    push_decimal(&mut name, id);
    name.push(']');
    name.push(' ');
    name.append(label);
    assert(name@ =~= dir_name_spec(id, label@));
    name
}

/// Builds the name of a file entry.
pub fn file_name(id: u64, label: &str, extension: &str) -> (name: String)
    ensures
        name@ == file_name_spec(id, label@, extension@),
{
    let mut name = String::new();
    name.push('(');
    push_decimal(&mut name, id);
    name.push(')');
    name.push(' ');
    name.append(label);
    name.push('.');
    name.append(extension);
    assert(name@ =~= file_name_spec(id, label@, extension@));
    name
}

/// The extension of a file name.
pub fn extension(filename: &str) -> (ext: String)
    ensures
        ext@ == extension_spec(filename@),
{
    let chars = chars_of(filename);
    let len: usize = chars.len();
    assert(chars@.subrange(0, len as int) =~= chars@);
    match find_last(&chars, 0, len, '.') {
        Some(dot) => string_of(&chars, dot + 1, len),
        None => String::new(),
    }
}

/// Drops the leading slashes of a tag's name.
pub fn trim_slashes(name: &str) -> (trimmed: String)
    ensures
        trimmed@ == trim_slashes_spec(name@),
{
    let chars = chars_of(name);
    let len: usize = chars.len();
    let mut i: usize = 0;
    assert(chars@.subrange(0, len as int) =~= chars@);
    while i < len && chars[i] == '/'
        invariant
            i <= len == chars.len(),
            trim_slashes_spec(chars@) == trim_slashes_spec(chars@.subrange(i as int, len as int)),
        decreases len - i,
    {
        let ghost rest = chars@.subrange(i as int, len as int);
        assert(rest.drop_first() =~= chars@.subrange(i + 1, len as int));
        i += 1;
    }
    proof {
        let rest = chars@.subrange(i as int, len as int);
        assert(i < len ==> rest[0] == chars@[i as int]);
        assert(chars@.subrange(0, len as int) =~= chars@);
    }
    string_of(&chars, i, len)
}

/// Tells whether a text holds a slash.
pub fn has_slash(text: &str) -> (found: bool)
    ensures
        found == text@.contains('/'),
{
    let chars = chars_of(text);
    let len: usize = chars.len();
    assert(chars@.subrange(0, len as int) =~= chars@);
    proof {
        chars@.index_of_first_ensures('/');
    }
    find_first(&chars, 0, len, '/').is_some()
}

/// No decimal numeral holds a closing bracket, so in a name that starts with
/// an opening bracket and a numeral the first closing bracket is the one that
/// follows the numeral.
proof fn lemma_numeral_then_close(id: u64, open: char, close: char, rest: Seq<char>)
    requires
        (open == '[' && close == ']') || (open == '(' && close == ')'),
    ensures
        bracketed_spec(seq![open] + decimal_spec(id as nat) + seq![close] + rest, close) == Some(
            id,
        ),
{
    let digits = decimal_spec(id as nat);
    let s = seq![open] + digits + seq![close] + rest;
    let end = 1 + digits.len() as int;
    lemma_decimal_value(id as nat);
    lemma_parse_decimal(id);
    s.index_of_first_ensures(close);
    assert(s[end] == close);
    assert(s.contains(close));
    assert forall|j: int| 0 <= j < end implies s[j] != close by {
        if j > 0 {
            assert(s[j] == digits[j - 1]);
            assert(is_digit(digits[j - 1]));
        }
    }
    assert(s.subrange(1, end) =~= digits);
}

/// A directory entry's name resolves to the identity it was built from,
/// whatever its label holds.
pub proof fn lemma_dir_name_resolves(id: u64, label: Seq<char>)
    ensures
        extract_id_spec(dir_name_spec(id, label)) == Some(FileId::DirKind(id)),
{
    let s = dir_name_spec(id, label);
    lemma_numeral_then_close(id, '[', ']', seq![' '] + label);
    assert(s =~= seq!['['] + decimal_spec(id as nat) + seq![']'] + (seq![' '] + label));
    assert(s[0] == '[');
}

/// A file entry's name resolves to the identity it was built from, whatever
/// its label and extension hold.
pub proof fn lemma_file_name_resolves(id: u64, label: Seq<char>, extension: Seq<char>)
    ensures
        extract_id_spec(file_name_spec(id, label, extension)) == Some(FileId::FileKind(id)),
{
    let s = file_name_spec(id, label, extension);
    let rest = seq![' '] + label + seq!['.'] + extension;
    lemma_numeral_then_close(id, '(', ')', rest);
    assert(s =~= seq!['('] + decimal_spec(id as nat) + seq![')'] + rest);
    assert(s[0] == '(');
}

} // verus!
