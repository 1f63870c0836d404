//! Text fields that the foreign runtime reports as NUL-terminated byte arrays.
use vstd::prelude::*;
use vstd::utf8::{decode_utf8, valid_utf8};
use crate::error::{NrtError, NrtResult};

verus! {

/// The index of the first NUL at or after `from`, or the field's length when
/// there is none.
pub open spec fn c_str_end(field: Seq<u8>, from: int) -> int
    decreases field.len() - from,
{
    if from < 0 || from >= field.len() || field[from] == 0 {
        if from < 0 { 0 } else { from }
    } else {
        c_str_end(field, from + 1)
    }
}

/// The text bytes of a field: everything before its first NUL.
pub open spec fn c_str(field: Seq<u8>) -> Seq<u8> {
    field.take(c_str_end(field, 0))
}

/// Whether a field holds well-formed text.
pub open spec fn c_str_valid(field: Seq<u8>) -> bool {
    valid_utf8(c_str(field))
}

/// The text that a field holds.
pub open spec fn c_str_text(field: Seq<u8>) -> Seq<char> {
    decode_utf8(c_str(field))
}

/// Relies on `String::from_utf8`: it succeeds exactly on UTF-8 input, and the
/// string then holds the characters that the bytes encode.
#[verifier::external_body]
fn string_from_utf8(bytes: Vec<u8>) -> (r: Option<String>)
    ensures
        r is Some <==> valid_utf8(bytes@),
        r matches Some(s) ==> s@ == decode_utf8(bytes@),
{
    String::from_utf8(bytes).ok()
}

/// The length of the text in a NUL-terminated field.
pub fn c_str_len(field: &[u8]) -> (n: usize)
    ensures
        n == c_str_end(field@, 0),
        n <= field@.len(),
{
    let mut i: usize = 0;
    while i < field.len() && field[i] != 0
        invariant
            i <= field@.len(),
            c_str_end(field@, i as int) == c_str_end(field@, 0),
        decreases field@.len() - i,
    {
        i = i + 1;
    }
    i
}

/// Decodes the text of a NUL-terminated field.
pub fn decode_c_str(field: &[u8]) -> (r: NrtResult<String>)
    ensures
        r is Ok <==> c_str_valid(field@),
        r matches Ok(s) ==> s@ == c_str_text(field@),
        r matches Err(e) ==> e == NrtError::NRT_INVALID,
{
    let n = c_str_len(field);
    let mut bytes: Vec<u8> = Vec::new();
    let mut i: usize = 0;
    while i < n
        invariant
            n <= field@.len(),
            i <= n,
            bytes@ == field@.take(i as int),
        decreases n - i,
    {
        bytes.push(field[i]);
        i = i + 1;
        assert(bytes@ =~= field@.take(i as int));
    }
    assert(bytes@ =~= c_str(field@));
    match string_from_utf8(bytes) {
        Some(s) => Ok(s),
        None => Err(NrtError::NRT_INVALID),
    }
}

} // verus!
