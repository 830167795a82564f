//! The two encodings a request needs: Base64 for Basic credentials and
//! percent-encoding for query parameters.
use vstd::prelude::*;

use vstd::utf8::encode_utf8;

verus! {

/// The Base64 digit for a 6-bit value (standard alphabet).
pub open spec fn b64_digit(v: nat) -> char {
    if v < 26 {
        ((v + 65) as u8) as char
    } else if v < 52 {
        ((v - 26 + 97) as u8) as char
    } else if v < 62 {
        ((v - 52 + 48) as u8) as char
    } else if v == 62 {
        '+'
    } else {
        '/'
    }
}

/// The four characters encoding the group of `len` (1 to 3) bytes whose
/// 24-bit value, padded with zero bytes, is `n`; missing bytes give `=`.
pub open spec fn b64_group(n: nat, len: nat) -> Seq<char> {
    seq![
        b64_digit((n / 262144) % 64),
        b64_digit((n / 4096) % 64),
        if len > 1 { b64_digit((n / 64) % 64) } else { '=' },
        if len > 2 { b64_digit(n % 64) } else { '=' },
    ]
}

/// Standard Base64 with `=` padding (RFC 4648), three bytes at a time.
pub open spec fn base64(bytes: Seq<u8>) -> Seq<char>
    decreases bytes.len(),
{
    if bytes.len() == 0 {
        Seq::empty()
    } else {
        let b0 = bytes[0] as nat;
        let b1 = if bytes.len() > 1 { bytes[1] as nat } else { 0 };
        let b2 = if bytes.len() > 2 { bytes[2] as nat } else { 0 };
        let len: nat = if bytes.len() >= 3 { 3 } else { bytes.len() };
        b64_group(b0 * 65536 + b1 * 256 + b2, len) + base64(
            bytes.subrange(len as int, bytes.len() as int),
        )
    }
}

fn b64_char(v: u32) -> (c: char)
    requires
        v < 64,
    ensures
        c == b64_digit(v as nat),
{
    if v < 26 {
        ((v + 65) as u8) as char
    } else if v < 52 {
        ((v - 26 + 97) as u8) as char
    } else if v < 62 {
        ((v - 52 + 48) as u8) as char
    } else if v == 62 {
        '+'
    } else {
        '/'
    }
}

proof fn lemma_sextets(b0: u32, b1: u32, b2: u32)
    requires
        b0 < 256,
        b1 < 256,
        b2 < 256,
    ensures
        ((b0 << 16) | (b1 << 8) | b2) == b0 * 65536 + b1 * 256 + b2,
{
    assert(((b0 << 16) | (b1 << 8) | b2) == b0 * 65536 + b1 * 256 + b2) by (bit_vector)
        requires
            b0 < 256,
            b1 < 256,
            b2 < 256,
    ;
}

proof fn lemma_shift_mask(n: u32)
    ensures
        (n >> 18) & 63 == (n / 262144) % 64,
        (n >> 12) & 63 == (n / 4096) % 64,
        (n >> 6) & 63 == (n / 64) % 64,
        n & 63 == n % 64,
{
    assert((n >> 18) & 63 == (n / 262144) % 64) by (bit_vector);
    assert((n >> 12) & 63 == (n / 4096) % 64) by (bit_vector);
    assert((n >> 6) & 63 == (n / 64) % 64) by (bit_vector);
    assert(n & 63 == n % 64) by (bit_vector);
}

/// Simple base64 encoder.
pub fn base64_encode(input: &[u8]) -> (r: String)
    ensures
        r@ == base64(input@),
{
    let mut out = String::new();
    let n = input.len();
    let mut i: usize = 0;
    assert(input@.subrange(0, n as int) =~= input@);
    while i < n
        invariant
            i <= n,
            n == input@.len(),
            out@ + base64(input@.subrange(i as int, n as int)) == base64(input@),
        decreases n - i,
    {
        let rest = n - i;
        let len: usize = if rest >= 3 { 3 } else { rest };
        let b0 = input[i] as u32;
        let b1 = if len > 1 { input[i + 1] as u32 } else { 0 };
        let b2 = if len > 2 { input[i + 2] as u32 } else { 0 };
        let v = (b0 << 16) | (b1 << 8) | b2;
        proof {
            lemma_sextets(b0, b1, b2);
            lemma_shift_mask(v);
        }
        let ghost chunk = input@.subrange(i as int, n as int);
        let ghost group = b64_group((b0 * 65536 + b1 * 256 + b2) as nat, len as nat);
        out.push(b64_char((v >> 18) & 63));
        out.push(b64_char((v >> 12) & 63));
        out.push(if len > 1 { b64_char((v >> 6) & 63) } else { '=' });
        out.push(if len > 2 { b64_char(v & 63) } else { '=' });
        proof {
            assert(chunk.subrange(len as int, chunk.len() as int) =~= input@.subrange(i + len, n as int));
            assert(base64(chunk) == group + base64(input@.subrange(i + len, n as int)));
        }
        let ghost before = out@;
        i = i + len;
        assert(out@ + base64(input@.subrange(i as int, n as int)) =~= base64(input@));
    }
    assert(input@.subrange(n as int, n as int) =~= Seq::<u8>::empty());
    assert(out@ =~= out@ + base64(input@.subrange(n as int, n as int)));
    out
}

/// A byte that RFC 3986 lets stand unescaped in a query: letters, digits and
/// `-`, `_`, `.`, `~`.
pub open spec fn is_unreserved(b: u8) -> bool {
    (65 <= b <= 90) || (97 <= b <= 122) || (48 <= b <= 57) || b == 45 || b == 95 || b == 46 || b
        == 126
}

/// The uppercase hexadecimal digit for `d < 16`.
pub open spec fn hex_digit(d: nat) -> char {
    if d < 10 {
        ((d + 48) as u8) as char
    } else {
        ((d - 10 + 65) as u8) as char
    }
}

/// How one byte appears in a percent-encoded string.
pub open spec fn percent_byte(b: u8) -> Seq<char> {
    if is_unreserved(b) {
        seq![b as char]
    } else {
        seq!['%', hex_digit((b / 16) as nat), hex_digit((b % 16) as nat)]
    }
}

/// The percent-encoding of a byte string.
pub open spec fn percent_bytes(bs: Seq<u8>) -> Seq<char>
    decreases bs.len(),
{
    if bs.len() == 0 {
        Seq::empty()
    } else {
        percent_bytes(bs.drop_last()) + percent_byte(bs.last())
    }
}

fn hex_char(d: u8) -> (c: char)
    requires
        d < 16,
    ensures
        c == hex_digit(d as nat),
{
    if d < 10 {
        (d + 48) as char
    } else {
        (d - 10 + 65) as char
    }
}

/// Percent-encode a query parameter key or value per RFC 3986.
pub fn percent_encode(input: &str) -> (r: String)
    ensures
        r@ == percent_bytes(encode_utf8(input@)),
{
    let bytes = input.as_bytes();
    let mut out = String::new();
    let mut i: usize = 0;
    while i < bytes.len()
        invariant
            i <= bytes@.len(),
            bytes@ == encode_utf8(input@),
            out@ == percent_bytes(bytes@.take(i as int)),
        decreases bytes.len() - i,
    {
        let b = bytes[i];
        if (65 <= b && b <= 90) || (97 <= b && b <= 122) || (48 <= b && b <= 57) || b == 45 || b
            == 95 || b == 46 || b == 126 {
            out.push(b as char);
        } else {
            out.push('%');
            out.push(hex_char(b / 16));
            out.push(hex_char(b % 16));
        }
        assert(bytes@.take(i + 1).drop_last() =~= bytes@.take(i as int));
        i += 1;
        assert(out@ =~= percent_bytes(bytes@.take(i as int)));
    }
    assert(bytes@.take(bytes@.len() as int) =~= bytes@);
    out
}

/// Every character of a percent-encoded string is unreserved or part of a
/// `%XX` escape, so no `&`, `=`, `?` or `#` of a key or value can reach the
/// query string unescaped.
pub proof fn lemma_percent_no_delimiters(bs: Seq<u8>)
    ensures
        !percent_bytes(bs).contains('&'),
        !percent_bytes(bs).contains('='),
        !percent_bytes(bs).contains('?'),
        !percent_bytes(bs).contains('#'),
    decreases bs.len(),
{
    if bs.len() > 0 {
        lemma_percent_no_delimiters(bs.drop_last());
        let p = percent_bytes(bs.drop_last());
        let q = percent_byte(bs.last());
        assert(percent_bytes(bs) == p + q);
        let b = bs.last();
        assert forall|c: char| (c == '&' || c == '=' || c == '?' || c == '#') implies !(p + q).contains(c) by {
            if (p + q).contains(c) {
                let k = choose|k: int| 0 <= k < (p + q).len() && (p + q)[k] == c;
                if k < p.len() {
                    assert(p[k] == c);
                } else {
                    assert(q[k - p.len()] == c);
                    if is_unreserved(b) {
                        assert(c == b as char);
                    } else {
                        let hi = (b / 16) as nat;
                        let lo = (b % 16) as nat;
                        assert(q == seq!['%', hex_digit(hi), hex_digit(lo)]);
                    }
                }
            }
        }
    }
}

/// The Base64 text of `len` bytes has `4 * ceil(len / 3)` characters.
pub proof fn lemma_base64_length(bytes: Seq<u8>)
    ensures
        base64(bytes).len() == 4 * ((bytes.len() + 2) / 3),
    decreases bytes.len(),
{
    if bytes.len() > 0 {
        let len: nat = if bytes.len() >= 3 { 3 } else { bytes.len() };
        lemma_base64_length(bytes.subrange(len as int, bytes.len() as int));
    }
}


// ── Laws of percent-encoding ─────────────────────────────────────────────────

/// The characters a percent-encoded text may hold: the RFC 3986 unreserved
/// characters `A`-`Z`, `a`-`z`, `0`-`9`, `-`, `_`, `.`, `~`, and `%`.
pub open spec fn in_encoded_alphabet(c: char) -> bool {
    ||| 'A' <= c <= 'Z'
    ||| 'a' <= c <= 'z'
    ||| '0' <= c <= '9'
    ||| c == '-'
    ||| c == '_'
    ||| c == '.'
    ||| c == '~'
    ||| c == '%'
}

/// The value of a hexadecimal digit (either case).
pub open spec fn hex_value(c: char) -> nat {
    if '0' <= c <= '9' {
        (c as nat - 48) as nat
    } else if 'A' <= c <= 'F' {
        (c as nat - 55) as nat
    } else if 'a' <= c <= 'f' {
        (c as nat - 87) as nat
    } else {
        0
    }
}

/// Percent-decoding, left to right: `%XY` stands for the byte with
/// hexadecimal value `XY`, any other character for its own code.
pub open spec fn percent_decode(s: Seq<char>) -> Seq<u8>
    decreases s.len(),
{
    if s.len() == 0 {
        Seq::empty()
    } else if s[0] == '%' && s.len() >= 3 {
        seq![(hex_value(s[1]) * 16 + hex_value(s[2])) as u8] + percent_decode(s.skip(3))
    } else {
        seq![s[0] as u8] + percent_decode(s.skip(1))
    }
}

proof fn lemma_percent_byte_alphabet(b: u8)
    ensures
        forall|i: int| 0 <= i < percent_byte(b).len() ==> in_encoded_alphabet(#[trigger] percent_byte(b)[i]),
{
    let hi = (b / 16) as nat;
    let lo = (b % 16) as nat;
    assert(hi < 16 && lo < 16);
    assert(in_encoded_alphabet(hex_digit(hi)));
    assert(in_encoded_alphabet(hex_digit(lo)));
}

/// Every character of a percent-encoded text is unreserved or `%`: no other
/// character (such as `+`, `&`, `=`, space) is ever sent raw.
pub proof fn lemma_percent_alphabet(bs: Seq<u8>)
    ensures
        forall|i: int| 0 <= i < percent_bytes(bs).len() ==> in_encoded_alphabet(#[trigger] percent_bytes(bs)[i]),
    decreases bs.len(),
{
    if bs.len() > 0 {
        lemma_percent_alphabet(bs.drop_last());
        lemma_percent_byte_alphabet(bs.last());
        let p = percent_bytes(bs.drop_last());
        let q = percent_byte(bs.last());
        assert forall|i: int| 0 <= i < (p + q).len() implies in_encoded_alphabet(#[trigger] (p + q)[i]) by {
            if i < p.len() {
                assert((p + q)[i] == p[i]);
            } else {
                assert((p + q)[i] == q[i - p.len()]);
            }
        }
    }
}

proof fn lemma_percent_bytes_front(bs: Seq<u8>)
    requires
        bs.len() > 0,
    ensures
        percent_bytes(bs) == percent_byte(bs[0]) + percent_bytes(bs.drop_first()),
    decreases bs.len(),
{
    if bs.len() == 1 {
        assert(bs.drop_last() =~= Seq::<u8>::empty());
        assert(bs.drop_first() =~= Seq::<u8>::empty());
        assert(percent_bytes(bs.drop_first()) == Seq::<char>::empty());
        assert(percent_bytes(bs) =~= percent_byte(bs[0]) + percent_bytes(bs.drop_first()));
    } else {
        lemma_percent_bytes_front(bs.drop_last());
        assert(bs.drop_last().drop_first() =~= bs.drop_first().drop_last());
        assert(bs.drop_first().last() == bs.last());
        assert(bs.drop_last()[0] == bs[0]);
        assert(percent_bytes(bs) =~= percent_byte(bs[0]) + percent_bytes(bs.drop_first()));
    }
}

proof fn lemma_decode_piece(b: u8, rest: Seq<char>)
    ensures
        percent_decode(percent_byte(b) + rest) == seq![b] + percent_decode(rest),
{
    let q = percent_byte(b);
    let s = q + rest;
    if is_unreserved(b) {
        assert(s[0] == b as char);
        assert(s.skip(1) =~= rest);
        assert((s[0] as u8) == b);
    } else {
        let hi = (b / 16) as nat;
        let lo = (b % 16) as nat;
        assert(s[0] == '%' && s[1] == hex_digit(hi) && s[2] == hex_digit(lo));
        assert(s.skip(3) =~= rest);
        assert(hex_value(hex_digit(hi)) == hi);
        assert(hex_value(hex_digit(lo)) == lo);
        assert(hi * 16 + lo == b) by (nonlinear_arith)
            requires
                hi == (b / 16) as nat,
                lo == (b % 16) as nat,
        ;
    }
}

/// Percent-decoding a percent-encoded text gives back the bytes encoded.
pub proof fn lemma_percent_decode_roundtrip(bs: Seq<u8>)
    ensures
        percent_decode(percent_bytes(bs)) == bs,
    decreases bs.len(),
{
    if bs.len() > 0 {
        lemma_percent_bytes_front(bs);
        lemma_percent_decode_roundtrip(bs.drop_first());
        lemma_decode_piece(bs[0], percent_bytes(bs.drop_first()));
        assert(seq![bs[0]] + bs.drop_first() =~= bs);
    }
}


/// An uppercase hexadecimal digit.
pub open spec fn is_upper_hex(c: char) -> bool {
    ('0' <= c <= '9') || ('A' <= c <= 'F')
}

/// Every `%` of a percent-encoded text starts an escape of two uppercase
/// hexadecimal digits.
pub proof fn lemma_percent_escape_form(bs: Seq<u8>)
    ensures
        forall|i: int|
            0 <= i < percent_bytes(bs).len() && #[trigger] percent_bytes(bs)[i] == '%' ==> i + 2
                < percent_bytes(bs).len() && is_upper_hex(percent_bytes(bs)[i + 1]) && is_upper_hex(
                percent_bytes(bs)[i + 2],
            ),
    decreases bs.len(),
{
    if bs.len() > 0 {
        lemma_percent_escape_form(bs.drop_last());
        let p = percent_bytes(bs.drop_last());
        let b = bs.last();
        let q = percent_byte(b);
        let hi = (b / 16) as nat;
        let lo = (b % 16) as nat;
        assert(is_upper_hex(hex_digit(hi)) && is_upper_hex(hex_digit(lo)));
        assert forall|i: int| 0 <= i < (p + q).len() && #[trigger] (p + q)[i] == '%' implies i + 2 < (
        p + q).len() && is_upper_hex((p + q)[i + 1]) && is_upper_hex((p + q)[i + 2]) by {
            if i < p.len() {
                assert((p + q)[i] == p[i]);
                assert((p + q)[i + 1] == p[i + 1]);
                assert((p + q)[i + 2] == p[i + 2]);
            } else {
                assert((p + q)[i] == q[i - p.len()]);
                if is_unreserved(b) {
                    assert(q[0] == b as char);
                } else {
                    assert(i == p.len());
                    assert((p + q)[i + 1] == q[1]);
                    assert((p + q)[i + 2] == q[2]);
                }
            }
        }
    }
}

/// Bytes that are unreserved characters (`A`-`Z`, `a`-`z`, `0`-`9`, `-`,
/// `_`, `.`, `~`) are never escaped: a text made only of them encodes to
/// itself.
pub proof fn lemma_percent_keeps_unreserved(bs: Seq<u8>)
    requires
        forall|i: int|
            0 <= i < bs.len() ==> {
                let b = #[trigger] bs[i];
                (65 <= b <= 90) || (97 <= b <= 122) || (48 <= b <= 57) || b == 45 || b == 95 || b
                    == 46 || b == 126
            },
    ensures
        percent_bytes(bs) == bs.map_values(|b: u8| b as char),
    decreases bs.len(),
{
    if bs.len() > 0 {
        lemma_percent_keeps_unreserved(bs.drop_last());
        assert(bs.drop_last().map_values(|b: u8| b as char).push(bs.last() as char) =~= bs.map_values(
            |b: u8| b as char,
        ));
    } else {
        assert(bs.map_values(|b: u8| b as char) =~= Seq::<char>::empty());
    }
}

} // verus!
