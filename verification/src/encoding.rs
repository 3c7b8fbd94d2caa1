//! Wire-level text encodings: lowercase hex, decimal rendering,
//! percent-encoding of object names and metadata, and JSON string quoting.
//!
//! Everything here is stated over `Seq<char>` / `Seq<u8>` and built
//! character by character, so the exact output is pinned down by the
//! contracts.

use vstd::prelude::*;
use vstd::string::StrSliceExecFns;
use vstd::string::StringSliceAdditionalSpecFns;

verus! {

/// Relies on std's `String::push`: appends exactly the one character.
#[verifier::external_body]
pub fn push_char(out: &mut String, c: char)
    ensures
        final(out)@ == old(out)@ + seq![c],
{
    out.push(c);
}

/// The lowercase hex character for a value below 16.
pub open spec fn hex_digit_char(n: u8) -> char {
    if n < 10 {
        ((0x30 + n) as u8) as char
    } else {
        ((0x57 + n) as u8) as char
    }
}

fn push_hex_digit(out: &mut String, n: u8)
    requires
        n < 16,
    ensures
        final(out)@ == old(out)@ + seq![hex_digit_char(n)],
{
    if n < 10 {
        push_char(out, (0x30 + n) as char);
    } else {
        push_char(out, (0x57 + n) as char);
    }
}

/// Lowercase hex rendering of a byte string: two digits per byte.
pub open spec fn hex_of(data: Seq<u8>) -> Seq<char> {
    Seq::new(
        2 * data.len(),
        |i: int|
            if i % 2 == 0 {
                hex_digit_char((data[i / 2] / 16) as u8)
            } else {
                hex_digit_char((data[i / 2] % 16) as u8)
            },
    )
}

pub fn hex_string(data: &[u8]) -> (r: String)
    ensures
        r@ == hex_of(data@),
{
    let mut out = String::new();
    let n = data.len();
    let mut i: usize = 0;
    while i < n
        invariant
            i <= n == data@.len(),
            out@ == hex_of(data@.take(i as int)),
        decreases n - i,
    {
        let b = data[i];
        push_hex_digit(&mut out, b / 16);
        push_hex_digit(&mut out, b % 16);
        proof {
            assert(out@ =~= hex_of(data@.take(i + 1 as int)));
        }
        i = i + 1;
    }
    proof {
        assert(data@.take(n as int) =~= data@);
    }
    out
}

/// Decimal rendering of a natural number, most significant digit first,
/// without leading zeros (a lone zero renders as "0").
pub open spec fn dec_chars_of(n: nat) -> Seq<char>
    decreases n,
{
    if n < 10 {
        seq![hex_digit_char(n as u8)]
    } else {
        dec_chars_of(n / 10) + seq![hex_digit_char((n % 10) as u8)]
    }
}

pub fn push_dec(out: &mut String, n: u64)
    ensures
        final(out)@ == old(out)@ + dec_chars_of(n as nat),
    decreases n,
{
    if n < 10 {
        push_hex_digit(out, n as u8);
    } else {
        push_dec(out, n / 10);
        push_hex_digit(out, (n % 10) as u8);
        proof {
            assert(out@ =~= old(out)@ + dec_chars_of(n as nat));
        }
    }
}

pub fn u64_string(n: u64) -> (r: String)
    ensures
        r@ == dec_chars_of(n as nat),
{
    let mut out = String::new();
    push_dec(&mut out, n);
    proof {
        assert(out@ =~= dec_chars_of(n as nat));
    }
    out
}

/// Bytes that percent-encoding passes through unchanged: the RFC 3986
/// unreserved set, plus '/' so that an object name keeps its path shape.
pub open spec fn is_unreserved_byte(b: u8) -> bool {
    ||| 0x41 <= b <= 0x5a  // A-Z
    ||| 0x61 <= b <= 0x7a  // a-z
    ||| 0x30 <= b <= 0x39  // 0-9
    ||| b == 0x2d  // -
    ||| b == 0x2e  // .
    ||| b == 0x5f  // _
    ||| b == 0x7e  // ~
    ||| b == 0x2f  // /
}

pub open spec fn percent_byte_chars(b: u8) -> Seq<char> {
    if is_unreserved_byte(b) {
        seq![b as char]
    } else {
        seq!['%', hex_digit_char((b / 16) as u8), hex_digit_char((b % 16) as u8)]
    }
}

/// Percent-encoding of a byte string, one byte at a time.
pub open spec fn percent_encoding_of(data: Seq<u8>) -> Seq<char>
    decreases data.len(),
{
    if data.len() == 0 {
        Seq::empty()
    } else {
        percent_byte_chars(data[0]) + percent_encoding_of(data.skip(1))
    }
}

proof fn lemma_percent_encoding_push(data: Seq<u8>, b: u8)
    ensures
        percent_encoding_of(data.push(b)) == percent_encoding_of(data) + percent_byte_chars(b),
    decreases data.len(),
{
    if data.len() == 0 {
        assert(data.push(b).skip(1) =~= Seq::<u8>::empty());
        assert(data.push(b)[0] == b);
        assert(percent_encoding_of(Seq::<u8>::empty()) =~= Seq::<char>::empty());
        assert(percent_encoding_of(data.push(b)) =~= percent_encoding_of(data)
            + percent_byte_chars(b));
    } else {
        assert(data.push(b).skip(1) =~= data.skip(1).push(b));
        lemma_percent_encoding_push(data.skip(1), b);
        assert(percent_encoding_of(data.push(b)) =~= percent_encoding_of(data)
            + percent_byte_chars(b));
    }
}

fn byte_is_unreserved(b: u8) -> (r: bool)
    ensures
        r == is_unreserved_byte(b),
{
    (0x41 <= b && b <= 0x5a) || (0x61 <= b && b <= 0x7a) || (0x30 <= b && b <= 0x39) || b == 0x2d
        || b == 0x2e || b == 0x5f || b == 0x7e || b == 0x2f
}

pub fn percent_encode_bytes(data: &[u8]) -> (r: String)
    ensures
        r@ == percent_encoding_of(data@),
{
    let mut out = String::new();
    let n = data.len();
    let mut i: usize = 0;
    while i < n
        invariant
            i <= n == data@.len(),
            out@ == percent_encoding_of(data@.take(i as int)),
        decreases n - i,
    {
        let b = data[i];
        if byte_is_unreserved(b) {
            push_char(&mut out, b as char);
        } else {
            push_char(&mut out, '%');
            push_hex_digit(&mut out, b / 16);
            push_hex_digit(&mut out, b % 16);
        }
        proof {
            lemma_percent_encoding_push(data@.take(i as int), data@[i as int]);
            assert(data@.take(i + 1 as int) =~= data@.take(i as int).push(data@[i as int]));
            assert(out@ =~= percent_encoding_of(data@.take(i + 1 as int)));
        }
        i = i + 1;
    }
    proof {
        assert(data@.take(n as int) =~= data@);
    }
    out
}

/// Percent-encoding of a string's UTF-8 bytes.
pub fn percent_encode(s: &str) -> (r: String)
    ensures
        r@ == percent_encoding_of(s.spec_bytes()),
{
    percent_encode_bytes(s.as_bytes())
}

/// How one character is written inside a JSON string literal.
pub open spec fn json_char_escape(c: char) -> Seq<char> {
    if c == '"' {
        seq!['\\', '"']
    } else if c == '\\' {
        seq!['\\', '\\']
    } else if c == '\u{8}' {
        seq!['\\', 'b']
    } else if c == '\t' {
        seq!['\\', 't']
    } else if c == '\n' {
        seq!['\\', 'n']
    } else if c == '\u{c}' {
        seq!['\\', 'f']
    } else if c == '\r' {
        seq!['\\', 'r']
    } else if (c as u32) < 0x20 {
        seq!['\\', 'u', '0', '0', hex_digit_char((c as u8) / 16), hex_digit_char((c as u8) % 16)]
    } else {
        seq![c]
    }
}

pub open spec fn json_escaped(s: Seq<char>) -> Seq<char>
    decreases s.len(),
{
    if s.len() == 0 {
        Seq::empty()
    } else {
        json_char_escape(s[0]) + json_escaped(s.skip(1))
    }
}

/// A full JSON string literal: quotes around the escaped characters.
pub open spec fn json_string_of(s: Seq<char>) -> Seq<char> {
    seq!['"'] + json_escaped(s) + seq!['"']
}

proof fn lemma_json_escaped_push(s: Seq<char>, c: char)
    ensures
        json_escaped(s.push(c)) == json_escaped(s) + json_char_escape(c),
    decreases s.len(),
{
    if s.len() == 0 {
        assert(s.push(c).skip(1) =~= Seq::<char>::empty());
        assert(s.push(c)[0] == c);
        assert(json_escaped(Seq::<char>::empty()) =~= Seq::<char>::empty());
        assert(json_escaped(s.push(c)) =~= json_escaped(s) + json_char_escape(c));
    } else {
        assert(s.push(c).skip(1) =~= s.skip(1).push(c));
        lemma_json_escaped_push(s.skip(1), c);
        assert(json_escaped(s.push(c)) =~= json_escaped(s) + json_char_escape(c));
    }
}

/// Appends `s` as a JSON string literal, quotes and escapes included.
pub fn push_json_string(out: &mut String, s: &str)
    ensures
        final(out)@ == old(out)@ + json_string_of(s@),
{
    push_char(out, '"');
    let n = s.unicode_len();
    let mut i: usize = 0;
    while i < n
        invariant
            i <= n == s@.len(),
            out@ == old(out)@ + seq!['"'] + json_escaped(s@.take(i as int)),
        decreases n - i,
    {
        let c = s.get_char(i);
        if c == '"' {
            push_char(out, '\\');
            push_char(out, '"');
        } else if c == '\\' {
            push_char(out, '\\');
            push_char(out, '\\');
        } else if (c as u32) < 0x20 {
            let b = c as u8;
            if b == 0x8 {
                push_char(out, '\\');
                push_char(out, 'b');
            } else if b == 0x9 {
                push_char(out, '\\');
                push_char(out, 't');
            } else if b == 0xa {
                push_char(out, '\\');
                push_char(out, 'n');
            } else if b == 0xc {
                push_char(out, '\\');
                push_char(out, 'f');
            } else if b == 0xd {
                push_char(out, '\\');
                push_char(out, 'r');
            } else {
                push_char(out, '\\');
                push_char(out, 'u');
                push_char(out, '0');
                push_char(out, '0');
                push_hex_digit(out, b / 16);
                push_hex_digit(out, b % 16);
            }
        } else {
            push_char(out, c);
        }
        proof {
            lemma_json_escaped_push(s@.take(i as int), s@[i as int]);
            assert(s@.take(i + 1 as int) =~= s@.take(i as int).push(s@[i as int]));
            assert(out@ =~= old(out)@ + seq!['"'] + json_escaped(s@.take(i + 1 as int)));
        }
        i = i + 1;
    }
    push_char(out, '"');
    proof {
        assert(s@.take(n as int) =~= s@);
        assert(out@ =~= old(out)@ + json_string_of(s@));
    }
}

} // verus!
