//! The text that the engine leaves in fixed-capacity byte buffers.
//!
//! The engine writes C strings: the text ends at the first zero byte, and
//! what lies behind that byte means nothing. A buffer is therefore cut at
//! its terminator first and decoded afterwards, so that nothing is assumed
//! of the bytes behind the text.

use vstd::prelude::*;
use vstd::slice::slice_subrange;
use vstd::string::StringSliceAdditionalSpecFns;
use vstd::utf8::{decode_utf8, encode_utf8_decode_utf8, valid_utf8};

verus! {

/// The capacity of every text buffer that is handed to the engine.
pub const MAXCH: usize = 256;

/// The number of bytes before the first zero byte of `buffer`, or the
/// length of `buffer` where it holds none.
pub open spec fn logical_len(buffer: Seq<u8>) -> int
    decreases buffer.len(),
{
    if buffer.len() == 0 || buffer[0] == 0 {
        0
    } else {
        1 + logical_len(buffer.drop_first())
    }
}

/// The bytes of `buffer` before its terminator.
pub open spec fn logical_content(buffer: Seq<u8>) -> Seq<u8> {
    buffer.subrange(0, logical_len(buffer))
}

/// Whether `n` is where the text of `buffer` ends: no byte before `n` is
/// zero, and `n` is a zero byte or the end of the buffer.
pub open spec fn ends_at(buffer: Seq<u8>, n: int) -> bool {
    &&& 0 <= n <= buffer.len()
    &&& forall|i: int| 0 <= i < n ==> buffer[i] != 0
    &&& n < buffer.len() ==> buffer[n] == 0
}

/// Each byte read as the character with that code point.
pub open spec fn latin1(bytes: Seq<u8>) -> Seq<char> {
    Seq::new(bytes.len(), |i: int| bytes[i] as char)
}

/// The character of a decimal digit.
pub open spec fn digit(d: int) -> char {
    ((48 + d) as u8) as char
}

/// The decimal numeral of a natural number, without leading zeros.
pub open spec fn decimal_nat(n: nat) -> Seq<char>
    decreases n,
{
    if n < 10 {
        seq![digit(n as int)]
    } else {
        decimal_nat(n / 10).push(digit((n % 10) as int))
    }
}

/// The decimal numeral of an integer: a minus sign before the numeral of
/// the magnitude where the integer is negative.
pub open spec fn decimal(n: int) -> Seq<char> {
    if n < 0 {
        seq!['-'] + decimal_nat((-n) as nat)
    } else {
        decimal_nat(n as nat)
    }
}

/// The text of a buffer ends where `ends_at` says, and nowhere else.
pub proof fn logical_len_is_end(buffer: Seq<u8>, n: int)
    ensures
        ends_at(buffer, n) <==> n == logical_len(buffer),
    decreases buffer.len(),
{
    if buffer.len() == 0 || buffer[0] == 0 {
        if ends_at(buffer, n) && n > 0 {
            assert(buffer[0] != 0);
        }
    } else {
        let rest = buffer.drop_first();
        logical_len_is_end(rest, n - 1);
        if ends_at(buffer, n) {
            assert(n > 0);
            assert forall|i: int| 0 <= i < n - 1 implies rest[i] != 0 by {
                assert(rest[i] == buffer[i + 1]);
            }
            assert(ends_at(rest, n - 1));
        }
        if n == logical_len(buffer) {
            assert(ends_at(rest, n - 1));
            assert forall|i: int| 0 <= i < n implies buffer[i] != 0 by {
                if i > 0 {
                    assert(buffer[i] == rest[i - 1]);
                }
            }
            if n < buffer.len() {
                assert(buffer[n] == rest[n - 1]);
            }
        }
    }
}

/// Whatever follows the terminator is discarded: a text without a zero
/// byte, followed by nothing or by a zero byte and anything else, is the
/// content of the whole.
pub proof fn padding_is_discarded(text: Seq<u8>, rest: Seq<u8>)
    requires
        forall|i: int| 0 <= i < text.len() ==> text[i] != 0,
        rest.len() > 0 ==> rest[0] == 0,
    ensures
        logical_content(text + rest) == text,
{
    let whole = text + rest;
    assert(ends_at(whole, text.len() as int)) by {
        assert forall|i: int| 0 <= i < text.len() implies whole[i] != 0 by {
            assert(whole[i] == text[i]);
        }
        if text.len() < whole.len() {
            assert(whole[text.len() as int] == rest[0]);
        }
    }
    logical_len_is_end(whole, text.len() as int);
    assert(whole.subrange(0, text.len() as int) =~= text);
}

/// A fresh buffer for the engine to write text into: `MAXCH` zero bytes.
pub fn text_buffer() -> (buffer: Vec<u8>)
    ensures
        buffer@.len() == MAXCH,
        forall|i: int| 0 <= i < buffer@.len() ==> buffer@[i] == 0,
        logical_content(buffer@) == Seq::<u8>::empty(),
{
    let mut buffer: Vec<u8> = Vec::new();
    let mut i: usize = 0;
    while i < MAXCH
        invariant
            i <= MAXCH,
            buffer@.len() == i,
            forall|j: int| 0 <= j < buffer@.len() ==> buffer@[j] == 0,
        decreases MAXCH - i,
    {
        buffer.push(0u8);
        i = i + 1;
    }
    proof {
        assert(logical_len(buffer@) == 0);
        assert(logical_content(buffer@) =~= Seq::<u8>::empty());
    }
    buffer
}

/// The length of the text in `buffer`: the index of its first zero byte,
/// or its length where there is none.
pub fn text_len(buffer: &[u8]) -> (n: usize)
    ensures
        n == logical_len(buffer@),
        ends_at(buffer@, n as int),
{
    let mut n: usize = 0;
    while n < buffer.len() && buffer[n] != 0
        invariant
            n <= buffer@.len(),
            forall|i: int| 0 <= i < n ==> buffer@[i] != 0,
        decreases buffer@.len() - n,
    {
        n = n + 1;
    }
    proof {
        logical_len_is_end(buffer@, n as int);
    }
    n
}

/// Reads `bytes` as UTF-8, by `core::str::from_utf8`: the answer is a
/// string slice over the very same bytes where they are well-formed UTF-8,
/// and `None` where they are not.
#[verifier::external_body]
fn utf8_str(bytes: &[u8]) -> (r: Option<&str>)
    ensures
        r is Some <==> valid_utf8(bytes@),
        r matches Some(s) ==> s.spec_bytes() == bytes@,
{
    core::str::from_utf8(bytes).ok()
}

/// Appends one character to a string, by `String::push`.
#[verifier::external_body]
fn push_char(text: &mut String, c: char)
    ensures
        final(text)@ == old(text)@.push(c),
{
    text.push(c)
}

fn append_decimal_nat(text: &mut String, n: u64)
    ensures
        final(text)@ == old(text)@ + decimal_nat(n as nat),
    decreases n,
{
    if n >= 10 {
        append_decimal_nat(text, n / 10);
    }
    let d: u8 = (n % 10) as u8;
    push_char(text, (48u8 + d) as char);
    proof {
        assert(text@ =~= old(text)@ + decimal_nat(n as nat));
    }
}

/// Appends the decimal numeral of `n` to `text`.
pub fn append_decimal(text: &mut String, n: i32)
    ensures
        final(text)@ == old(text)@ + decimal(n as int),
{
    let wide: i64 = n as i64;
    if wide < 0 {
        push_char(text, '-');
        append_decimal_nat(text, (-wide) as u64);
        proof {
            assert(text@ =~= old(text)@ + decimal(n as int));
        }
    } else {
        append_decimal_nat(text, wide as u64);
    }
}

/// Decodes the text that the engine left in `buffer`.
///
/// The buffer is cut at its first zero byte, and the bytes before it are
/// read as UTF-8. The answer is `None` exactly where those bytes are not
/// well-formed UTF-8; the bytes behind the terminator are never looked at.
pub fn decode_text(buffer: &[u8]) -> (r: Option<String>)
    ensures
        r is Some <==> valid_utf8(logical_content(buffer@)),
        r matches Some(text) ==> text@ == decode_utf8(logical_content(buffer@)),
{
    let n: usize = text_len(buffer);
    let content: &[u8] = slice_subrange(buffer, 0, n);
    match utf8_str(content) {
        None => None,
        Some(s) => {
            proof {
                encode_utf8_decode_utf8(s@);
            }
            Some(s.to_owned())
        },
    }
}

/// The text that the engine left in `buffer`, where that text is known to
/// be well-formed: the bytes before the first zero byte, read as UTF-8.
pub fn decoded_text(buffer: &[u8]) -> (text: String)
    requires
        valid_utf8(logical_content(buffer@)),
    ensures
        text@ == decode_utf8(logical_content(buffer@)),
{
    decode_text(buffer).unwrap()
}

/// Copies the C string in `bytes` into an owned string, each byte becoming
/// the character with that code point. The copy ends at the first zero byte.
pub fn decode_path(bytes: &[u8]) -> (path: String)
    ensures
        path@ == latin1(logical_content(bytes@)),
{
    let n: usize = text_len(bytes);
    let mut path: String = String::new();
    let mut i: usize = 0;
    while i < n
        invariant
            i <= n <= bytes@.len(),
            path@ == latin1(bytes@.subrange(0, i as int)),
        decreases n - i,
    {
        let b: u8 = bytes[i];
        push_char(&mut path, b as char);
        proof {
            assert(path@ =~= latin1(bytes@.subrange(0, i + 1)));
        }
        i = i + 1;
    }
    path
}

} // verus!
