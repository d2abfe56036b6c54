//! Encoding of file paths for use in API URLs.

use vstd::prelude::*;
use vstd::utf8::{
    encode_scalar, encode_utf8, has_width_1_encoding, has_width_2_encoding, has_width_3_encoding,
};
use vstd::string::StringSliceAdditionalSpecFns;
use crate::text::string_from_chars;

verus! {

/// Bytes that stand for themselves in an encoded path: ASCII letters and
/// digits, the unreserved marks `-`, `.`, `_`, `~`, and the separator `/`.
pub open spec fn is_kept_byte(b: u8) -> bool {
    ||| (0x41 <= b && b <= 0x5a)
    ||| (0x61 <= b && b <= 0x7a)
    ||| (0x30 <= b && b <= 0x39)
    ||| b == 0x2d || b == 0x2e || b == 0x5f || b == 0x7e || b == 0x2f
}

/// The upper-case hexadecimal digit for `d < 16`.
pub open spec fn hex_digit(d: u8) -> char {
    if d < 10 { ((d + 0x30) as u8) as char } else { ((d - 10 + 0x41) as u8) as char }
}

/// The encoding of one byte: itself, or `%` and its two upper-case hex digits.
pub open spec fn encode_byte(b: u8) -> Seq<char> {
    if is_kept_byte(b) {
        seq![b as char]
    } else {
        seq!['%', hex_digit(b / 16), hex_digit(b % 16)]
    }
}

/// The percent-encoding of a byte string.
pub open spec fn encode_bytes(bs: Seq<u8>) -> Seq<char>
    decreases bs.len(),
{
    if bs.len() == 0 {
        Seq::empty()
    } else {
        encode_bytes(bs.drop_last()) + encode_byte(bs.last())
    }
}

/// An encoded path starts with `/`: one is added to a non-empty path that lacks it.
pub open spec fn path_lead(path: Seq<char>) -> Seq<char> {
    if path.len() > 0 && path[0] != '/' { seq!['/'] } else { Seq::empty() }
}

/// The URL form of a file path: a leading `/` where missing, and every byte of
/// its UTF-8 encoding other than letters, digits, `-._~` and `/` written as `%XY`.
pub open spec fn encoded_path(path: &str) -> Seq<char> {
    path_lead(path@) + encode_bytes(path.spec_bytes())
}

fn hex(d: u8) -> (c: char)
    requires
        d < 16,
    ensures
        c == hex_digit(d),
{
    if d < 10 { (d + 0x30) as char } else { (d - 10 + 0x41) as char }
}

fn is_kept(b: u8) -> (r: bool)
    ensures
        r == is_kept_byte(b),
{
    (0x41 <= b && b <= 0x5a) || (0x61 <= b && b <= 0x7a) || (0x30 <= b && b <= 0x39)
        || b == 0x2d || b == 0x2e || b == 0x5f || b == 0x7e || b == 0x2f
}

/// Encodes a file path for use in an API URL (see `encoded_path`).
pub fn encode_path(path: &str) -> (r: String)
    ensures
        r@ == encoded_path(path),
{
    let bytes = path.as_bytes();
    let ghost bs = path.spec_bytes();
    let mut out: Vec<char> = Vec::new();
    if bytes.len() > 0 && bytes[0] != 0x2f {
        out.push('/');
    }
    proof {
        assert(path@.len() > 0 <==> bs.len() > 0) by {
            if path@.len() > 0 {
                assert(encode_utf8(path@) == encode_scalar(path@[0] as u32) + encode_utf8(path@.drop_first()));
            }
        }
        if bs.len() > 0 {
            lemma_first_byte_slash(path@);
        }
        assert(out@ =~= path_lead(path@) + encode_bytes(bs.take(0)));
    }
    let mut i: usize = 0;
    while i < bytes.len()
        invariant
            0 <= i <= bytes.len(),
            bytes@ == bs,
            out@ == path_lead(path@) + encode_bytes(bs.take(i as int)),
        decreases bytes.len() - i,
    {
        let b = bytes[i];
        if is_kept(b) {
            out.push(b as char);
        } else {
            out.push('%');
            out.push(hex(b / 16));
            out.push(hex(b % 16));
        }
        proof {
            assert(bs.take(i + 1).drop_last() =~= bs.take(i as int));
            assert(out@ =~= path_lead(path@) + encode_bytes(bs.take(i + 1)));
        }
        i = i + 1;
    }
    proof {
        assert(bs.take(bytes.len() as int) =~= bs);
    }
    string_from_chars(&out)
}

/// A non-empty string starts with `/` exactly when its UTF-8 encoding starts with byte 0x2f.
proof fn lemma_first_byte_slash(s: Seq<char>)
    requires
        s.len() > 0,
    ensures
        encode_utf8(s).len() > 0,
        (s[0] == '/') <==> (encode_utf8(s)[0] == 0x2f),
{
    let c = s[0] as u32;
    assert(encode_utf8(s) == encode_scalar(c) + encode_utf8(s.drop_first()));
    vstd::utf8::char_is_scalar(s[0]);
    vstd::utf8::char_u32_cast(s[0], c);
    vstd::utf8::char_u32_cast('/', '/' as u32);
    assert(('/' as u32) == 0x2f);
    assert((s[0] == '/') <==> (c == 0x2f));
    assert(encode_utf8(s)[0] == encode_scalar(c)[0]);
    if has_width_1_encoding(c) {
        assert(encode_scalar(c)[0] == (c & 0x7F) as u8);
        assert((c & 0x7F) as u8 == 0x2f <==> c == 0x2f) by (bit_vector)
            requires c <= 0x7F;
    } else if has_width_2_encoding(c) {
        assert(encode_scalar(c)[0] == 0xC0u8 | ((c >> 6) & 0x1F) as u8);
        assert(0xC0u8 | ((c >> 6) & 0x1F) as u8 != 0x2f) by (bit_vector);
    } else if has_width_3_encoding(c) {
        assert(encode_scalar(c)[0] == 0xE0u8 | ((c >> 12) & 0x0F) as u8);
        assert(0xE0u8 | ((c >> 12) & 0x0F) as u8 != 0x2f) by (bit_vector);
    } else {
        assert(encode_scalar(c)[0] == 0xF0u8 | ((c >> 18) & 0x7) as u8);
        assert(0xF0u8 | ((c >> 18) & 0x7) as u8 != 0x2f) by (bit_vector);
    }
}

} // verus!

verus! {

/// Characters that may stand in an encoded path: those of kept bytes, `%`, and
/// the upper-case hexadecimal digits.
pub open spec fn is_url_safe_char(c: char) -> bool {
    ||| ('A' <= c && c <= 'Z')
    ||| ('a' <= c && c <= 'z')
    ||| ('0' <= c && c <= '9')
    ||| c == '-' || c == '.' || c == '_' || c == '~' || c == '/' || c == '%'
}

proof fn lemma_hex_digit(d: u8)
    requires
        d < 16,
    ensures
        is_url_safe_char(hex_digit(d)),
        hex_digit(d) != '%',
        ('0' <= hex_digit(d) <= '9') || ('A' <= hex_digit(d) <= 'F'),
{
}

proof fn lemma_encode_byte_safe(b: u8)
    ensures
        forall|i: int| 0 <= i < encode_byte(b).len() ==> #[trigger] is_url_safe_char(encode_byte(b)[i]),
{
    if !is_kept_byte(b) {
        lemma_hex_digit(b / 16);
        lemma_hex_digit(b % 16);
    }
}

/// Every character of an encoded byte string is URL-safe.
pub proof fn lemma_encoding_is_url_safe(bs: Seq<u8>)
    ensures
        forall|i: int| 0 <= i < encode_bytes(bs).len() ==> #[trigger] is_url_safe_char(encode_bytes(bs)[i]),
    decreases bs.len(),
{
    if bs.len() > 0 {
        lemma_encoding_is_url_safe(bs.drop_last());
        lemma_encode_byte_safe(bs.last());
        let p = encode_bytes(bs.drop_last());
        let t = encode_byte(bs.last());
        assert forall|i: int| 0 <= i < encode_bytes(bs).len() implies #[trigger] is_url_safe_char(encode_bytes(bs)[i]) by {
            if i < p.len() {
                assert(encode_bytes(bs)[i] == p[i]);
            } else {
                assert(encode_bytes(bs)[i] == t[i - p.len()]);
            }
        }
    }
}

/// Every character of an encoded path is URL-safe: letters, digits, `-._~/`,
/// and `%` with upper-case hexadecimal digits.
pub proof fn lemma_encoded_path_is_url_safe(path: &str)
    ensures
        forall|i: int| 0 <= i < encoded_path(path).len() ==> #[trigger] is_url_safe_char(encoded_path(path)[i]),
{
    lemma_encoding_is_url_safe(path.spec_bytes());
    let l = path_lead(path@);
    let e = encode_bytes(path.spec_bytes());
    assert forall|i: int| 0 <= i < encoded_path(path).len() implies #[trigger] is_url_safe_char(encoded_path(path)[i]) by {
        if i < l.len() {
            assert(encoded_path(path)[i] == '/');
        } else {
            assert(encoded_path(path)[i] == e[i - l.len()]);
        }
    }
}

proof fn lemma_kept_char(b: u8)
    requires
        is_kept_byte(b),
    ensures
        (b as char) != '%',
{
}

proof fn lemma_hex_digit_injective(x: u8, y: u8)
    requires
        x < 16,
        y < 16,
        hex_digit(x) == hex_digit(y),
    ensures
        x == y,
{
}

proof fn lemma_encode_byte_injective(x: u8, y: u8)
    requires
        encode_byte(x) == encode_byte(y),
    ensures
        x == y,
{
    if is_kept_byte(x) && is_kept_byte(y) {
        assert(encode_byte(x) == seq![x as char]);
        assert(encode_byte(y) == seq![y as char]);
        let cx = x as char;
        let cy = y as char;
        assert(seq![cx][0] == cx);
        assert(seq![cy][0] == cy);
        assert(cx == cy);
    } else if !is_kept_byte(x) && !is_kept_byte(y) {
        assert(encode_byte(x)[1] == encode_byte(y)[1]);
        assert(encode_byte(x)[2] == encode_byte(y)[2]);
        lemma_hex_digit_injective(x / 16, y / 16);
        lemma_hex_digit_injective(x % 16, y % 16);
    } else {
        assert(encode_byte(x).len() != encode_byte(y).len());
    }
}

/// In an encoding, every `%` is followed by two more characters.
proof fn lemma_percent_starts_escape(bs: Seq<u8>)
    ensures
        forall|i: int| 0 <= i < encode_bytes(bs).len() && #[trigger] encode_bytes(bs)[i] == '%'
            ==> i + 2 < encode_bytes(bs).len(),
    decreases bs.len(),
{
    if bs.len() > 0 {
        lemma_percent_starts_escape(bs.drop_last());
        let p = encode_bytes(bs.drop_last());
        let t = encode_byte(bs.last());
        assert forall|i: int| 0 <= i < encode_bytes(bs).len() && #[trigger] encode_bytes(bs)[i] == '%'
            implies i + 2 < encode_bytes(bs).len() by {
            if i < p.len() {
                assert(encode_bytes(bs)[i] == p[i]);
            } else {
                assert(encode_bytes(bs)[i] == t[i - p.len()]);
                if is_kept_byte(bs.last()) {
                    lemma_kept_char(bs.last());
                }
            }
        }
    }
}

/// The last byte of a non-empty string was escaped exactly when its encoding
/// has a `%` three characters from the end.
proof fn lemma_last_token(bs: Seq<u8>)
    requires
        bs.len() > 0,
    ensures
        encode_bytes(bs).len() == encode_bytes(bs.drop_last()).len() + encode_byte(bs.last()).len(),
        !is_kept_byte(bs.last()) <==> (encode_bytes(bs).len() >= 3
            && encode_bytes(bs)[encode_bytes(bs).len() - 3] == '%'),
{
    let p = encode_bytes(bs.drop_last());
    let e = encode_bytes(bs);
    if is_kept_byte(bs.last()) && e.len() >= 3 {
        lemma_percent_starts_escape(bs.drop_last());
        assert(e[e.len() - 3] == p[p.len() - 2]);
    }
}

proof fn lemma_encode_nonempty(bs: Seq<u8>)
    requires
        bs.len() > 0,
    ensures
        encode_bytes(bs).len() > 0,
{
}

/// Different byte strings have different encodings: the encoding of a path's
/// bytes determines them.
pub proof fn lemma_encoding_injective(a: Seq<u8>, b: Seq<u8>)
    requires
        encode_bytes(a) == encode_bytes(b),
    ensures
        a == b,
    decreases a.len(),
{
    if a.len() == 0 {
        if b.len() > 0 {
            lemma_encode_nonempty(b);
        }
        assert(a =~= b);
    } else {
        if b.len() == 0 {
            lemma_encode_nonempty(a);
        }
        lemma_last_token(a);
        lemma_last_token(b);
        let e = encode_bytes(a);
        let ta = encode_byte(a.last());
        let tb = encode_byte(b.last());
        assert(ta.len() == tb.len());
        let cut = e.len() - ta.len();
        assert(encode_bytes(a.drop_last()) =~= e.subrange(0, cut));
        assert(encode_bytes(b.drop_last()) =~= e.subrange(0, cut));
        assert(ta =~= e.subrange(cut, e.len() as int));
        assert(tb =~= e.subrange(cut, e.len() as int));
        lemma_encode_byte_injective(a.last(), b.last());
        lemma_encoding_injective(a.drop_last(), b.drop_last());
        assert(a =~= a.drop_last().push(a.last()));
        assert(b =~= b.drop_last().push(b.last()));
    }
}

/// Two paths that start with `/` have the same encoding only when they are
/// the same path.
pub proof fn lemma_encoded_path_injective(p: &str, q: &str)
    requires
        p@.len() > 0 && p@[0] == '/',
        q@.len() > 0 && q@[0] == '/',
        encoded_path(p) == encoded_path(q),
    ensures
        p@ == q@,
{
    assert(path_lead(p@) =~= Seq::<char>::empty());
    assert(path_lead(q@) =~= Seq::<char>::empty());
    assert(encode_bytes(p.spec_bytes()) =~= encoded_path(p));
    assert(encode_bytes(q.spec_bytes()) =~= encoded_path(q));
    lemma_encoding_injective(p.spec_bytes(), q.spec_bytes());
    vstd::utf8::encode_utf8_decode_utf8(p@);
    vstd::utf8::encode_utf8_decode_utf8(q@);
}

/// The value of an upper-case hexadecimal digit character.
pub open spec fn hex_value(c: char) -> int {
    if '0' <= c <= '9' {
        c as int - '0' as int
    } else {
        c as int - 'A' as int + 10
    }
}

/// Each byte encodes as itself when it is a kept byte, and otherwise as `%`
/// followed by two upper-case hexadecimal digits that read back as the byte.
pub proof fn lemma_encode_byte_reads_back(b: u8)
    ensures
        is_kept_byte(b) ==> encode_byte(b) == seq![b as char],
        !is_kept_byte(b) ==> ({
            let e = encode_byte(b);
            &&& e.len() == 3
            &&& e[0] == '%'
            &&& ('0' <= e[1] <= '9' || 'A' <= e[1] <= 'F')
            &&& ('0' <= e[2] <= '9' || 'A' <= e[2] <= 'F')
            &&& 16 * hex_value(e[1]) + hex_value(e[2]) == b as int
        }),
        is_kept_byte(0x41) && is_kept_byte(0x2f) && !is_kept_byte(0x20) && !is_kept_byte(0x25)
            && !is_kept_byte(0x23),
{
    if !is_kept_byte(b) {
        let hi = b / 16;
        let lo = b % 16;
        assert(hex_value(hex_digit(hi)) == hi as int);
        assert(hex_value(hex_digit(lo)) == lo as int);
        assert(b as int == 16 * (hi as int) + lo as int);
    }
}

} // verus!
