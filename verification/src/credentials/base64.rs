//! Base64 text for the credential file.
use vstd::prelude::*;

use crate::util::push_char;
use vstd::string::StringSliceAdditionalSpecFns;

verus! {

/// The base64 character of a 6-bit value.
pub open spec fn b64_char(v: nat) -> char {
    if v < 26 {
        (65 + v) as char
    } else if v < 52 {
        (97 + (v - 26)) as char
    } else if v < 62 {
        (48 + (v - 52)) as char
    } else if v == 62 {
        '+'
    } else {
        '/'
    }
}

/// The four characters that encode up to three bytes; missing bytes count as zero and their
/// characters become `=`.
pub open spec fn encode_chunk(c: Seq<u8>) -> Seq<char>
    recommends
        1 <= c.len() <= 3,
{
    let b0 = c[0] as nat;
    let b1 = if c.len() > 1 { c[1] as nat } else { 0 };
    let b2 = if c.len() > 2 { c[2] as nat } else { 0 };
    seq![
        b64_char(b0 / 4),
        b64_char((b0 % 4) * 16 + b1 / 16),
        if c.len() > 1 { b64_char((b1 % 16) * 4 + b2 / 64) } else { '=' },
        if c.len() > 2 { b64_char(b2 % 64) } else { '=' },
    ]
}

/// Base64 text of a byte sequence, with `=` padding.
pub open spec fn b64_encode(data: Seq<u8>) -> Seq<char>
    decreases data.len(),
{
    if data.len() == 0 {
        Seq::empty()
    } else if data.len() <= 3 {
        encode_chunk(data)
    } else {
        encode_chunk(data.take(3)) + b64_encode(data.skip(3))
    }
}

/// The value of a base64 character: `None` for a character outside the alphabet; `=`
/// counts as zero.
pub open spec fn b64_value(c: u8) -> Option<nat> {
    if 65 <= c <= 90 {
        Some((c - 65) as nat)
    } else if 97 <= c <= 122 {
        Some((c - 97 + 26) as nat)
    } else if 48 <= c <= 57 {
        Some((c - 48 + 52) as nat)
    } else if c == 43 {
        Some(62)
    } else if c == 47 {
        Some(63)
    } else if c == 61 {
        Some(0)
    } else {
        None
    }
}

/// ASCII whitespace as `u8::is_ascii_whitespace` defines it.
pub open spec fn is_ascii_whitespace(b: u8) -> bool {
    b == 32 || b == 9 || b == 10 || b == 12 || b == 13
}

/// The bytes of a group of four characters, all of them in the alphabet.
#[verifier::opaque]
pub open spec fn decode_quad(q: Seq<u8>) -> Seq<u8>
    recommends
        q.len() == 4,
{
    let t = b64_value(q[0])->0 * 262144 + b64_value(q[1])->0 * 4096 + b64_value(q[2])->0 * 64
        + b64_value(q[3])->0;
    let first = seq![((t / 65536) % 256) as u8];
    let second = if q[2] != 61 { seq![((t / 256) % 256) as u8] } else { Seq::empty() };
    let third = if q[3] != 61 { seq![(t % 256) as u8] } else { Seq::empty() };
    first + second + third
}

/// Decoding of text without whitespace, four characters at a time; a trailing group of fewer
/// than four characters is ignored. The error is the first character outside the alphabet
/// in the decoded groups.
pub open spec fn b64_decode_bytes(s: Seq<u8>) -> Result<Seq<u8>, u8>
    decreases s.len(),
{
    if s.len() < 4 {
        Ok(Seq::empty())
    } else if b64_value(s[0]) is None {
        Err(s[0])
    } else if b64_value(s[1]) is None {
        Err(s[1])
    } else if b64_value(s[2]) is None {
        Err(s[2])
    } else if b64_value(s[3]) is None {
        Err(s[3])
    } else {
        match b64_decode_bytes(s.skip(4)) {
            Ok(rest) => Ok(decode_quad(s.take(4)) + rest),
            Err(c) => Err(c),
        }
    }
}

/// The byte sequence with ASCII whitespace removed.
pub open spec fn strip_whitespace(s: Seq<u8>) -> Seq<u8> {
    s.filter(|b: u8| !is_ascii_whitespace(b))
}

/// The character of a 6-bit value.
fn char_of(v: u32) -> (c: char)
    requires
        v < 64,
    ensures
        c == b64_char(v as nat),
{
    if v < 26 {
        ((65 + v) as u8) as char
    } else if v < 52 {
        ((97 + (v - 26)) as u8) as char
    } else if v < 62 {
        ((48 + (v - 52)) as u8) as char
    } else if v == 62 {
        '+'
    } else {
        '/'
    }
}

/// Encode bytes as base64 text with `=` padding.
pub fn base64_encode(data: &[u8]) -> (s: String)
    ensures
        s@ == b64_encode(data@),
{
    let mut result = String::new();
    let n = data.len();
    let mut i: usize = 0;
    assert(data@.skip(0) =~= data@);
    assert(result@ + b64_encode(data@) =~= b64_encode(data@));
    while i < n
        invariant
            n == data@.len(),
            i <= n,
            result@ + b64_encode(data@.skip(i as int)) == b64_encode(data@),
        decreases n - i,
    {
        let len = if n - i >= 3 {
            3
        } else {
            n - i
        };
        let b0: u32 = data[i] as u32;
        let b1: u32 = if len > 1 {
            data[i + 1] as u32
        } else {
            0
        };
        let b2: u32 = if len > 2 {
            data[i + 2] as u32
        } else {
            0
        };
        let triple: u32 = (b0 << 16) | (b1 << 8) | b2;
        assert(((triple >> 18) & 0x3F) == b0 / 4 && ((triple >> 12) & 0x3F) == (b0 % 4) * 16 + b1 / 16
            && ((triple >> 6) & 0x3F) == (b1 % 16) * 4 + b2 / 64 && (triple & 0x3F) == b2 % 64)
            by (bit_vector)
            requires
                b0 < 256,
                b1 < 256,
                b2 < 256,
                triple == (b0 << 16) | (b1 << 8) | b2,
        ;
        let ghost before = result@;
        push_char(&mut result, char_of((triple >> 18) & 0x3F));
        push_char(&mut result, char_of((triple >> 12) & 0x3F));
        if len > 1 {
            push_char(&mut result, char_of((triple >> 6) & 0x3F));
        } else {
            push_char(&mut result, '=');
        }
        if len > 2 {
            push_char(&mut result, char_of(triple & 0x3F));
        } else {
            push_char(&mut result, '=');
        }
        proof {
            let rest = data@.skip(i as int);
            let chunk = rest.take(len as int);
            assert(chunk =~= data@.subrange(i as int, i + len));
            assert(result@ == before + encode_chunk(chunk));
            if rest.len() <= 3 {
                assert(rest =~= chunk);
                assert(data@.skip(i + len) =~= Seq::<u8>::empty());
                assert(b64_encode(data@.skip(i + len)) =~= Seq::<char>::empty());
                assert(b64_encode(rest) == encode_chunk(chunk));
            } else {
                assert(rest.skip(3) =~= data@.skip(i + 3));
                assert(b64_encode(rest) == encode_chunk(chunk) + b64_encode(data@.skip(i + len)));
            }
            assert(result@ + b64_encode(data@.skip(i + len)) =~= before + b64_encode(rest));
        }
        i = i + len;
    }
    assert(data@.skip(n as int) =~= Seq::<u8>::empty());
    assert(result@ + Seq::<char>::empty() =~= result@);
    result
}

/// The value of a base64 character, or the message naming the byte that is not one.
fn char_to_val(c: u8) -> (r: Result<u32, String>)
    ensures
        match b64_value(c) {
            Some(v) => r == Ok::<u32, String>(v as u32),
            None => r matches Err(m) && m@ == invalid_char_message(c),
        },
{
    if 65 <= c && c <= 90 {
        Ok((c - 65) as u32)
    } else if 97 <= c && c <= 122 {
        Ok((c - 97 + 26) as u32)
    } else if 48 <= c && c <= 57 {
        Ok((c - 48 + 52) as u32)
    } else if c == 43 {
        Ok(62)
    } else if c == 47 {
        Ok(63)
    } else if c == 61 {
        Ok(0)
    } else {
        let mut m = "Invalid base64 char: ".to_string();
        crate::text::push_decimal(&mut m, c as u64);
        Err(m)
    }
}

/// The message for a byte outside the base64 alphabet.
pub open spec fn invalid_char_message(c: u8) -> Seq<char> {
    "Invalid base64 char: "@ + crate::text::decimal(c as nat)
}

/// Decoding of text: whitespace is dropped, then groups of four characters are decoded.
pub open spec fn b64_decode(text: Seq<u8>) -> Result<Seq<u8>, Seq<char>> {
    match b64_decode_bytes(strip_whitespace(text)) {
        Ok(d) => Ok(d),
        Err(c) => Err(invalid_char_message(c)),
    }
}

/// Decode base64 text, ignoring ASCII whitespace and a trailing incomplete group.
pub fn base64_decode(input: &str) -> (r: Result<Vec<u8>, String>)
    ensures
        match b64_decode(input.spec_bytes()) {
            Ok(d) => r matches Ok(v) && v@ == d,
            Err(m) => r matches Err(e) && e@ == m,
        },
{
    let raw = input.as_bytes();
    let ghost pred = |b: u8| !is_ascii_whitespace(b);
    let mut bytes: Vec<u8> = Vec::new();
    let mut k: usize = 0;
    assert(raw@.take(0) =~= Seq::<u8>::empty());
    while k < raw.len()
        invariant
            k <= raw@.len(),
            bytes@ == raw@.take(k as int).filter(pred),
            pred == (|b: u8| !is_ascii_whitespace(b)),
            raw@ == input.spec_bytes(),
        decreases raw@.len() - k,
    {
        let b = raw[k];
        proof {
            raw@.take(k as int).lemma_filter_push(b, pred);
            assert(raw@.take(k as int).push(b) =~= raw@.take(k + 1));
        }
        if !(b == 32 || b == 9 || b == 10 || b == 12 || b == 13) {
            assert(pred(b));
            bytes.push(b);
        } else {
            assert(!pred(b));
        }
        k = k + 1;
    }
    assert(raw@.take(raw@.len() as int) =~= raw@);
    assert(bytes@ == strip_whitespace(input.spec_bytes()));
    let mut result: Vec<u8> = Vec::new();
    let n = bytes.len();
    let mut i: usize = 0;
    assert(bytes@.skip(0) =~= bytes@);
    assert(Seq::<u8>::empty() + Seq::<u8>::empty() =~= Seq::<u8>::empty());
    while n - i >= 4
        invariant
            n == bytes@.len(),
            i <= n,
            bytes@ == strip_whitespace(input.spec_bytes()),
            b64_decode_bytes(bytes@) == (match b64_decode_bytes(bytes@.skip(i as int)) {
                Ok(rest) => Ok(result@ + rest),
                Err(c) => Err::<Seq<u8>, u8>(c),
            }),
        decreases n - i,
    {
        let ghost rest = bytes@.skip(i as int);
        assert(rest.skip(4) =~= bytes@.skip(i + 4));
        assert(rest.take(4) =~= bytes@.subrange(i as int, i + 4));
        assert(rest[0] == bytes@[i as int] && rest[1] == bytes@[i + 1] && rest[2] == bytes@[i + 2]
            && rest[3] == bytes@[i + 3]);
        assert(rest.len() >= 4);
        let a = match char_to_val(bytes[i]) {
            Ok(v) => v,
            Err(m) => {
                return Err(m);
            },
        };
        let b = match char_to_val(bytes[i + 1]) {
            Ok(v) => v,
            Err(m) => {
                return Err(m);
            },
        };
        let c = match char_to_val(bytes[i + 2]) {
            Ok(v) => v,
            Err(m) => {
                return Err(m);
            },
        };
        let d = match char_to_val(bytes[i + 3]) {
            Ok(v) => v,
            Err(m) => {
                return Err(m);
            },
        };
        let triple: u32 = (a << 18) | (b << 12) | (c << 6) | d;
        assert(triple == a * 262144 + b * 4096 + c * 64 + d && ((triple >> 16) & 0xFF) == (triple
            / 65536) % 256 && ((triple >> 8) & 0xFF) == (triple / 256) % 256 && (triple & 0xFF)
            == triple % 256) by (bit_vector)
            requires
                a < 64,
                b < 64,
                c < 64,
                d < 64,
                triple == (a << 18) | (b << 12) | (c << 6) | d,
        ;
        let ghost before = result@;
        result.push(((triple >> 16) & 0xFF) as u8);
        if bytes[i + 2] != 61 {
            result.push(((triple >> 8) & 0xFF) as u8);
        }
        if bytes[i + 3] != 61 {
            result.push((triple & 0xFF) as u8);
        }
        assert(result@ =~= before + decode_quad(rest.take(4))) by {
            reveal(decode_quad);
        }
        proof {
            assert(b64_value(rest[0]) is Some && b64_value(rest[1]) is Some && b64_value(rest[2])
                is Some && b64_value(rest[3]) is Some);
            match b64_decode_bytes(rest.skip(4)) {
                Ok(r) => {
                    assert(b64_decode_bytes(rest) == Ok::<Seq<u8>, u8>(decode_quad(rest.take(4)) + r));
                    assert(before + (decode_quad(rest.take(4)) + r) =~= result@ + r);
                },
                Err(e) => {
                    assert(b64_decode_bytes(rest) == Err::<Seq<u8>, u8>(e));
                },
            }
        }
        i = i + 4;
    }
    assert(b64_decode_bytes(bytes@.skip(i as int)) == Ok::<Seq<u8>, u8>(Seq::empty()));
    assert(result@ + Seq::<u8>::empty() =~= result@);
    Ok(result)
}

/// The bytes of a sequence of ASCII characters.
pub open spec fn ascii_bytes(s: Seq<char>) -> Seq<u8> {
    Seq::new(s.len(), |i: int| s[i] as u8)
}

/// An alphabet character is ASCII, not `=`, not whitespace, and decodes to its value.
proof fn lemma_alphabet_char(v: nat)
    requires
        v < 64,
    ensures
        '\0' <= b64_char(v) <= '\u{7f}',
        b64_value(b64_char(v) as u8) == Some(v),
        b64_char(v) as u8 != 61,
        !is_ascii_whitespace(b64_char(v) as u8),
{
}

/// The characters of one encoded chunk are ASCII, not whitespace, and decode back to it.
proof fn lemma_chunk_round_trip(c: Seq<u8>)
    requires
        1 <= c.len() <= 3,
    ensures
        encode_chunk(c).len() == 4,
        forall|i: int| 0 <= i < 4 ==> '\0' <= #[trigger] encode_chunk(c)[i] <= '\u{7f}'
            && !is_ascii_whitespace(encode_chunk(c)[i] as u8),
        forall|i: int| 0 <= i < 4 ==> #[trigger] b64_value(ascii_bytes(encode_chunk(c))[i]) is Some,
        decode_quad(ascii_bytes(encode_chunk(c))) == c,
{
    let b0 = c[0] as nat;
    let b1 = if c.len() > 1 { c[1] as nat } else { 0 };
    let b2 = if c.len() > 2 { c[2] as nat } else { 0 };
    let v0 = b0 / 4;
    let v1 = (b0 % 4) * 16 + b1 / 16;
    let v2 = (b1 % 16) * 4 + b2 / 64;
    let v3 = b2 % 64;
    lemma_alphabet_char(v0);
    lemma_alphabet_char(v1);
    lemma_alphabet_char(v2);
    lemma_alphabet_char(v3);
    let q = ascii_bytes(encode_chunk(c));
    assert(q[0] == b64_char(v0) as u8);
    assert(q[1] == b64_char(v1) as u8);
    let w2: nat = if c.len() > 1 { v2 } else { 0 };
    let w3: nat = if c.len() > 2 { v3 } else { 0 };
    assert(b64_value(q[2]) == Some(w2));
    assert(b64_value(q[3]) == Some(w3));
    let t = v0 * 262144 + v1 * 4096 + w2 * 64 + w3;
    assert(t == b0 * 65536 + b1 * 256 + b2) by (nonlinear_arith)
        requires
            b0 < 256,
            b1 < 256,
            b2 < 256,
            v0 == b0 / 4,
            v1 == (b0 % 4) * 16 + b1 / 16,
            w2 == (if c.len() > 1 { (b1 % 16) * 4 + b2 / 64 } else { 0 }),
            w3 == (if c.len() > 2 { b2 % 64 } else { 0 }),
            c.len() <= 1 ==> b1 == 0,
            c.len() <= 2 ==> b2 == 0,
            t == v0 * 262144 + v1 * 4096 + w2 * 64 + w3,
    ;
    assert((t / 65536) % 256 == b0 && (t / 256) % 256 == b1 && t % 256 == b2) by (nonlinear_arith)
        requires
            b0 < 256,
            b1 < 256,
            b2 < 256,
            t == b0 * 65536 + b1 * 256 + b2,
    ;
    assert(decode_quad(q) =~= c) by {
        reveal(decode_quad);
    }
}

/// Every character of an encoding is ASCII and not whitespace.
proof fn lemma_encoding_is_plain_ascii(data: Seq<u8>)
    ensures
        forall|i: int| 0 <= i < b64_encode(data).len() ==> '\0' <= #[trigger] b64_encode(data)[i]
            <= '\u{7f}' && !is_ascii_whitespace(b64_encode(data)[i] as u8),
    decreases data.len(),
{
    if data.len() == 0 {
    } else if data.len() <= 3 {
        lemma_chunk_round_trip(data);
    } else {
        lemma_chunk_round_trip(data.take(3));
        lemma_encoding_is_plain_ascii(data.skip(3));
        let a = encode_chunk(data.take(3));
        let b = b64_encode(data.skip(3));
        assert forall|i: int| 0 <= i < b64_encode(data).len() implies '\0' <= #[trigger] b64_encode(data)[i]
            <= '\u{7f}' && !is_ascii_whitespace(b64_encode(data)[i] as u8) by {
            if i < 4 {
                assert(b64_encode(data)[i] == a[i]);
            } else {
                assert(b64_encode(data)[i] == b[i - 4]);
            }
        }
    }
}

/// Decoding the bytes of an encoding gives back the data.
proof fn lemma_decode_encoding(data: Seq<u8>)
    ensures
        b64_decode_bytes(ascii_bytes(b64_encode(data))) == Ok::<Seq<u8>, u8>(data),
    decreases data.len(),
{
    if data.len() == 0 {
        assert(ascii_bytes(b64_encode(data)) =~= Seq::<u8>::empty());
        assert(data =~= Seq::<u8>::empty());
    } else if data.len() <= 3 {
        lemma_chunk_round_trip(data);
        let q = ascii_bytes(encode_chunk(data));
        assert(q.take(4) =~= q);
        assert(q.skip(4) =~= Seq::<u8>::empty());
        assert(decode_quad(q) + Seq::<u8>::empty() =~= data);
        assert(b64_value(q[0]) is Some && b64_value(q[1]) is Some && b64_value(q[2]) is Some
            && b64_value(q[3]) is Some);
        assert(b64_decode_bytes(q.skip(4)) == Ok::<Seq<u8>, u8>(Seq::empty()));
        assert(ascii_bytes(b64_encode(data)) == q);
        assert(b64_decode_bytes(q) == Ok::<Seq<u8>, u8>(decode_quad(q.take(4)) + Seq::<u8>::empty()));
    } else {
        let head = data.take(3);
        let tail = data.skip(3);
        lemma_chunk_round_trip(head);
        lemma_decode_encoding(tail);
        let q = ascii_bytes(encode_chunk(head));
        let r = ascii_bytes(b64_encode(tail));
        let all = ascii_bytes(b64_encode(data));
        assert(all =~= q + r);
        assert(all.take(4) =~= q);
        assert(all.skip(4) =~= r);
        assert(b64_value(all[0]) is Some && b64_value(all[1]) is Some && b64_value(all[2]) is Some
            && b64_value(all[3]) is Some) by {
            assert(all[0] == q[0] && all[1] == q[1] && all[2] == q[2] && all[3] == q[3]);
        }
        assert(head + tail =~= data);
        assert(b64_decode_bytes(all.skip(4)) == Ok::<Seq<u8>, u8>(tail));
        assert(decode_quad(all.take(4)) == head);
        assert(b64_decode_bytes(all) == Ok::<Seq<u8>, u8>(decode_quad(all.take(4)) + tail));
    }
}

/// Filtering with a predicate that every element meets leaves the sequence unchanged.
proof fn lemma_filter_keeps_all(s: Seq<u8>)
    requires
        forall|i: int| 0 <= i < s.len() ==> !is_ascii_whitespace(#[trigger] s[i]),
    ensures
        strip_whitespace(s) == s,
    decreases s.len(),
{
    let pred = |b: u8| !is_ascii_whitespace(b);
    if s.len() == 0 {
        assert(s.filter(pred) =~= s) by {
            reveal(Seq::filter);
        }
    } else {
        let init = s.drop_last();
        lemma_filter_keeps_all(init);
        init.lemma_filter_push(s.last(), pred);
        assert(init.push(s.last()) =~= s);
    }
}

/// Decoding the UTF-8 bytes of a base64 encoding gives back the encoded data.
pub proof fn lemma_base64_round_trip(data: Seq<u8>)
    ensures
        b64_decode(vstd::utf8::encode_utf8(b64_encode(data))) == Ok::<Seq<u8>, Seq<char>>(data),
{
    let text = b64_encode(data);
    lemma_encoding_is_plain_ascii(data);
    assert(vstd::utf8::is_ascii_chars(text));
    vstd::utf8::is_ascii_chars_encode_utf8(text);
    assert(vstd::utf8::encode_utf8(text) =~= ascii_bytes(text));
    lemma_filter_keeps_all(ascii_bytes(text));
    lemma_decode_encoding(data);
}

} // verus!
