//! Wire encodings of the allowlist: lowercase hex for SHA-256 digests and
//! unpadded URL-safe base64 (RFC 4648 §5) for Ed25519 keys.
use vstd::prelude::*;
use vstd::utf8::{encode_utf8, is_ascii_chars, is_ascii_chars_encode_utf8};
use vstd::string::StringSliceAdditionalSpecFns;
use crate::text::push_char;

verus! {

// ── Hex ─────────────────────────────────────────────────────────────────

/// Lowercase hex digit of a nibble.
pub open spec fn hex_digit(n: int) -> char {
    if n < 10 {
        (('0' as int) + n) as char
    } else {
        (('a' as int) + n - 10) as char
    }
}

/// Two lowercase hex digits per byte, most significant nibble first.
pub open spec fn hex_encode(b: Seq<u8>) -> Seq<char>
    decreases b.len(),
{
    if b.len() == 0 {
        seq![]
    } else {
        hex_encode(b.drop_last()) + seq![
            hex_digit((b.last() / 16) as int),
            hex_digit((b.last() % 16) as int),
        ]
    }
}

/// Value of one hex digit byte (either case).
pub open spec fn hex_value(c: u8) -> Option<u8> {
    if 48 <= c <= 57 {
        Some((c - 48) as u8)
    } else if 97 <= c <= 102 {
        Some((c - 87) as u8)
    } else if 65 <= c <= 70 {
        Some((c - 55) as u8)
    } else {
        None
    }
}

/// Decoding of exactly 64 hex digit bytes into 32 bytes.
pub open spec fn spec_decode_hex32(s: Seq<u8>) -> Option<Seq<u8>> {
    if s.len() == 64 && (forall|i: int| 0 <= i < 64 ==> #[trigger] hex_value(s[i]) is Some) {
        Some(
            Seq::new(
                32,
                |i: int| (hex_value(s[2 * i])->0 * 16 + hex_value(s[2 * i + 1])->0) as u8,
            ),
        )
    } else {
        None
    }
}

fn hex_char(n: u8) -> (r: char)
    requires
        n < 16,
    ensures
        r == hex_digit(n as int),
{
    if n < 10 {
        (48u8 + n) as char
    } else {
        (87u8 + n) as char
    }
}

/// Lowercase hex encoding of `bytes`.
pub fn hex_encode_bytes(bytes: &[u8]) -> (r: String)
    ensures
        r@ == hex_encode(bytes@),
{
    let mut out = String::new();
    let mut i: usize = 0;
    assert(bytes@.take(0) =~= Seq::<u8>::empty());
    while i < bytes.len()
        invariant
            i <= bytes@.len(),
            out@ == hex_encode(bytes@.take(i as int)),
        decreases bytes@.len() - i,
    {
        let b = bytes[i];
        assert(b >> 4 == b / 16 && b & 0xf == b % 16) by (bit_vector);
        let hi = b >> 4;
        let lo = b & 0xf;
        push_char(&mut out, hex_char(hi));
        push_char(&mut out, hex_char(lo));
        assert(bytes@.take(i + 1).drop_last() =~= bytes@.take(i as int));
        i = i + 1;
    }
    assert(bytes@.take(bytes@.len() as int) =~= bytes@);
    out
}

fn hex_nibble(b: u8) -> (r: Option<u8>)
    ensures
        r == hex_value(b),
{
    if 48 <= b && b <= 57 {
        Some(b - 48)
    } else if 97 <= b && b <= 102 {
        Some(b - 87)
    } else if 65 <= b && b <= 70 {
        Some(b - 55)
    } else {
        None
    }
}

/// Decodes exactly 64 hex digit bytes into 32 bytes.
pub fn hex_decode_32(s: &[u8]) -> (r: Option<[u8; 32]>)
    ensures
        r is Some <==> spec_decode_hex32(s@) is Some,
        r is Some ==> r->0@ == spec_decode_hex32(s@)->0,
{
    if s.len() != 64 {
        return None;
    }
    let mut out: [u8; 32] = [0u8; 32];
    let mut i: usize = 0;
    while i < 32
        invariant
            s@.len() == 64,
            i <= 32,
            out@.len() == 32,
            forall|k: int| 0 <= k < 2 * i ==> #[trigger] hex_value(s@[k]) is Some,
            forall|k: int|
                0 <= k < i ==> out@[k] == (hex_value(s@[2 * k])->0 * 16 + hex_value(
                    s@[2 * k + 1],
                )->0) as u8,
        decreases 32 - i,
    {
        let hi = match hex_nibble(s[2 * i]) {
            Some(v) => v,
            None => {
                assert(!(hex_value(s@[2 * i as int]) is Some));
                return None;
            },
        };
        let lo = match hex_nibble(s[2 * i + 1]) {
            Some(v) => v,
            None => {
                assert(!(hex_value(s@[2 * i + 1]) is Some));
                return None;
            },
        };
        let v = (hi << 4) | lo;
        assert(hi < 16 && lo < 16 ==> (hi << 4) | lo == hi * 16 + lo) by (bit_vector);
        out[i] = v;
        i = i + 1;
    }
    assert(spec_decode_hex32(s@) is Some);
    assert(out@ =~= spec_decode_hex32(s@)->0);
    Some(out)
}

proof fn lemma_hex_digit_value(n: int)
    requires
        0 <= n < 16,
    ensures
        hex_value(hex_digit(n) as u8) == Some(n as u8),
{
}

proof fn lemma_hex_digit_ascii(n: int)
    requires
        0 <= n < 16,
    ensures
        '\0' <= hex_digit(n) <= '\u{7f}',
{
}

proof fn lemma_hex_encode_len(b: Seq<u8>)
    ensures
        hex_encode(b).len() == 2 * b.len(),
        forall|i: int|
            0 <= i < b.len() ==> #[trigger] hex_encode(b)[2 * i] == hex_digit((b[i] / 16) as int)
                && hex_encode(b)[2 * i + 1] == hex_digit((b[i] % 16) as int),
    decreases b.len(),
{
    if b.len() > 0 {
        lemma_hex_encode_len(b.drop_last());
        let p = b.drop_last();
        assert forall|i: int| 0 <= i < b.len() implies #[trigger] hex_encode(b)[2 * i]
            == hex_digit((b[i] / 16) as int) && hex_encode(b)[2 * i + 1] == hex_digit(
            (b[i] % 16) as int,
        ) by {
            if i < p.len() {
                assert(hex_encode(p)[2 * i] == hex_digit((p[i] / 16) as int));
            }
        }
    }
}

/// Hex encoding is ASCII.
pub proof fn lemma_hex_encode_ascii(b: Seq<u8>)
    ensures
        is_ascii_chars(hex_encode(b)),
{
    lemma_hex_encode_len(b);
    let h = hex_encode(b);
    assert forall|i: int| 0 <= i < h.len() implies '\0' <= #[trigger] h[i] <= '\u{7f}' by {
        let j = i / 2;
        assert(0 <= j < b.len());
        if i % 2 == 0 {
            assert(i == 2 * j);
            assert(h[2 * j] == hex_digit((b[j] / 16) as int));
            lemma_hex_digit_ascii((b[j] / 16) as int);
        } else {
            assert(i == 2 * j + 1);
            assert(h[2 * j] == hex_digit((b[j] / 16) as int));
            assert(h[2 * j + 1] == hex_digit((b[j] % 16) as int));
            lemma_hex_digit_ascii((b[j] % 16) as int);
        }
    }
}

/// Decoding the UTF-8 bytes of the hex encoding of 32 bytes gives them back.
pub proof fn lemma_hex_roundtrip(b: Seq<u8>)
    requires
        b.len() == 32,
    ensures
        spec_decode_hex32(encode_utf8(hex_encode(b))) == Some(b),
{
    lemma_hex_encode_len(b);
    lemma_hex_encode_ascii(b);
    let h = hex_encode(b);
    is_ascii_chars_encode_utf8(h);
    let e = encode_utf8(h);
    assert forall|i: int| 0 <= i < 64 implies #[trigger] hex_value(e[i]) is Some by {
        let j = i / 2;
        assert(e[i] == h[i] as u8);
        if i % 2 == 0 {
            assert(i == 2 * j);
            assert(h[2 * j] == hex_digit((b[j] / 16) as int));
            lemma_hex_digit_value((b[j] / 16) as int);
        } else {
            assert(i == 2 * j + 1);
            assert(h[2 * j] == hex_digit((b[j] / 16) as int));
            assert(h[2 * j + 1] == hex_digit((b[j] % 16) as int));
            lemma_hex_digit_value((b[j] % 16) as int);
        }
    }
    let d = spec_decode_hex32(e)->0;
    assert forall|j: int| 0 <= j < 32 implies d[j] == b[j] by {
        assert(e[2 * j] == h[2 * j] as u8);
        assert(e[2 * j + 1] == h[2 * j + 1] as u8);
        lemma_hex_digit_value((b[j] / 16) as int);
        lemma_hex_digit_value((b[j] % 16) as int);
    }
    assert(d =~= b);
}

// ── Base64 (URL-safe alphabet, no padding) ──────────────────────────────

/// The character for a 6-bit value.
pub open spec fn b64_char(n: int) -> char {
    if n < 26 {
        (('A' as int) + n) as char
    } else if n < 52 {
        (('a' as int) + n - 26) as char
    } else if n < 62 {
        (('0' as int) + n - 52) as char
    } else if n == 62 {
        '-'
    } else {
        '_'
    }
}

/// Encoding of one chunk of one to three bytes: two, three or four
/// characters.
pub open spec fn b64_chunk(c: Seq<u8>) -> Seq<char> {
    let b0 = c[0] as int;
    let b1 = if c.len() > 1 {
        c[1] as int
    } else {
        0
    };
    let b2 = if c.len() > 2 {
        c[2] as int
    } else {
        0
    };
    let n = b0 * 65536 + b1 * 256 + b2;
    let two = seq![b64_char((n / 262144) % 64), b64_char((n / 4096) % 64)];
    if c.len() == 1 {
        two
    } else if c.len() == 2 {
        two.push(b64_char((n / 64) % 64))
    } else {
        two.push(b64_char((n / 64) % 64)).push(b64_char(n % 64))
    }
}

/// Unpadded URL-safe base64 of `b`, three bytes at a time.
pub open spec fn b64_enc(b: Seq<u8>) -> Seq<char>
    decreases b.len(),
{
    if b.len() == 0 {
        seq![]
    } else if b.len() <= 3 {
        b64_chunk(b)
    } else {
        b64_chunk(b.take(3)) + b64_enc(b.skip(3))
    }
}

/// Value of one alphabet byte.
pub open spec fn b64_value(c: u8) -> Option<int> {
    if 65 <= c <= 90 {
        Some(c - 65)
    } else if 97 <= c <= 122 {
        Some(c - 97 + 26)
    } else if 48 <= c <= 57 {
        Some(c - 48 + 52)
    } else if c == 45 {
        Some(62)
    } else if c == 95 {
        Some(63)
    } else {
        None
    }
}

/// Decoding of one chunk of one to four alphabet bytes: the bits are
/// packed as if the chunk were zero-padded to four characters, and
/// `len - 1` whole bytes are kept.
pub open spec fn b64_dec_chunk(c: Seq<u8>) -> Option<Seq<u8>> {
    if forall|i: int| 0 <= i < c.len() ==> #[trigger] b64_value(c[i]) is Some {
        let v0 = b64_value(c[0])->0;
        let v1 = if c.len() > 1 {
            b64_value(c[1])->0
        } else {
            0
        };
        let v2 = if c.len() > 2 {
            b64_value(c[2])->0
        } else {
            0
        };
        let v3 = if c.len() > 3 {
            b64_value(c[3])->0
        } else {
            0
        };
        let n = v0 * 262144 + v1 * 4096 + v2 * 64 + v3;
        let all = seq![(n / 65536 % 256) as u8, (n / 256 % 256) as u8, (n % 256) as u8];
        Some(all.take(c.len() - 1))
    } else {
        None
    }
}

/// Decoding of `s` four bytes at a time; `None` on any byte outside the
/// alphabet.
pub open spec fn b64_dec(s: Seq<u8>) -> Option<Seq<u8>>
    decreases s.len(),
{
    if s.len() == 0 {
        Some(seq![])
    } else if s.len() <= 4 {
        b64_dec_chunk(s)
    } else {
        match b64_dec_chunk(s.take(4)) {
            None => None,
            Some(x) => match b64_dec(s.skip(4)) {
                None => None,
                Some(y) => Some(x + y),
            },
        }
    }
}

/// The bytes of an ASCII character sequence.
pub open spec fn ascii_bytes(s: Seq<char>) -> Seq<u8> {
    Seq::new(s.len(), |i: int| s[i] as u8)
}

proof fn lemma_encode_utf8_ascii(s: Seq<char>)
    requires
        is_ascii_chars(s),
    ensures
        encode_utf8(s) == ascii_bytes(s),
{
    is_ascii_chars_encode_utf8(s);
    assert(encode_utf8(s) =~= ascii_bytes(s));
}

proof fn lemma_b64_char(k: int)
    requires
        0 <= k < 64,
    ensures
        '\0' <= b64_char(k) <= '\u{7f}',
        b64_value(b64_char(k) as u8) == Some(k),
{
}

proof fn lemma_b64_bits(b0: u32, b1: u32, b2: u32)
    by (bit_vector)
    requires
        b0 < 256,
        b1 < 256,
        b2 < 256,
    ensures
        (b0 * 65536 + b1 * 256 + b2) / 262144 % 64 * 262144 + (b0 * 65536 + b1 * 256 + b2) / 4096
            % 64 * 4096 + (b0 * 65536 + b1 * 256 + b2) / 64 % 64 * 64 + (b0 * 65536 + b1 * 256
            + b2) % 64 == b0 * 65536 + b1 * 256 + b2,
        (b0 * 65536 + b1 * 256 + b2) / 65536 % 256 == b0,
        (b0 * 65536 + b1 * 256 + b2) / 256 % 256 == b1,
        (b0 * 65536 + b1 * 256 + b2) % 256 == b2,
        b2 == 0 ==> (b0 * 65536 + b1 * 256 + b2) % 64 == 0,
        b1 == 0 && b2 == 0 ==> (b0 * 65536 + b1 * 256 + b2) / 64 % 64 == 0,
{
}

/// A chunk of one to three bytes encodes to `len + 1` ASCII characters
/// that decode back to it.
proof fn lemma_b64_chunk_roundtrip(c: Seq<u8>)
    requires
        1 <= c.len() <= 3,
    ensures
        b64_chunk(c).len() == c.len() + 1,
        is_ascii_chars(b64_chunk(c)),
        b64_dec_chunk(ascii_bytes(b64_chunk(c))) == Some(c),
{
    let b0 = c[0] as u32;
    let b1: u32 = if c.len() > 1 {
        c[1] as u32
    } else {
        0
    };
    let b2: u32 = if c.len() > 2 {
        c[2] as u32
    } else {
        0
    };
    lemma_b64_bits(b0, b1, b2);
    let n = b0 * 65536 + b1 * 256 + b2;
    let k0 = n / 262144 % 64;
    let k1 = n / 4096 % 64;
    let k2 = n / 64 % 64;
    let k3 = n % 64;
    lemma_b64_char(k0);
    lemma_b64_char(k1);
    lemma_b64_char(k2);
    lemma_b64_char(k3);
    let e = b64_chunk(c);
    let bs = ascii_bytes(e);
    assert(e[0] == b64_char(k0) && e[1] == b64_char(k1));
    assert(c.len() > 1 ==> e[2] == b64_char(k2));
    assert(c.len() > 2 ==> e[3] == b64_char(k3));
    assert(bs.len() == c.len() + 1);
    assert(b64_value(bs[0]) == Some(k0));
    assert(b64_value(bs[1]) == Some(k1));
    assert(c.len() > 1 ==> b64_value(bs[2]) == Some(k2));
    assert(c.len() > 2 ==> b64_value(bs[3]) == Some(k3));
    assert(forall|i: int| 0 <= i < bs.len() ==> #[trigger] b64_value(bs[i]) is Some);
    let v2 = if bs.len() > 2 {
        b64_value(bs[2])->0
    } else {
        0
    };
    let v3 = if bs.len() > 3 {
        b64_value(bs[3])->0
    } else {
        0
    };
    let v0 = b64_value(bs[0])->0;
    let v1 = b64_value(bs[1])->0;
    assert(v0 == k0 && v1 == k1);
    assert(v0 * 262144 + v1 * 4096 + v2 * 64 + v3 == n);
    let all = seq![(n / 65536 % 256) as u8, (n / 256 % 256) as u8, (n % 256) as u8];
    assert(b64_dec_chunk(bs) == Some(all.take(bs.len() - 1)));
    assert(all.take(bs.len() - 1) =~= c);
}

/// Base64 output is ASCII, and decoding its UTF-8 bytes gives the input
/// back: `b64_decode(&b64_encode(b))` is `Ok(b)`.
pub proof fn lemma_b64_roundtrip(b: Seq<u8>)
    ensures
        is_ascii_chars(b64_enc(b)),
        b64_dec(encode_utf8(b64_enc(b))) == Some(b),
    decreases b.len(),
{
    lemma_b64_enc_ascii_bytes(b);
    lemma_encode_utf8_ascii(b64_enc(b));
}

proof fn lemma_b64_enc_ascii_bytes(b: Seq<u8>)
    ensures
        is_ascii_chars(b64_enc(b)),
        b64_dec(ascii_bytes(b64_enc(b))) == Some(b),
        b.len() > 0 ==> b64_enc(b).len() >= 2,
    decreases b.len(),
{
    if b.len() == 0 {
        assert(ascii_bytes(b64_enc(b)) =~= Seq::<u8>::empty());
        assert(b =~= Seq::<u8>::empty());
    } else if b.len() <= 3 {
        lemma_b64_chunk_roundtrip(b);
    } else {
        let head = b.take(3);
        let tail = b.skip(3);
        lemma_b64_chunk_roundtrip(head);
        lemma_b64_enc_ascii_bytes(tail);
        let e1 = b64_chunk(head);
        let e2 = b64_enc(tail);
        assert(b64_enc(b) == e1 + e2);
        let s = ascii_bytes(e1 + e2);
        assert(s.take(4) =~= ascii_bytes(e1));
        assert(s.skip(4) =~= ascii_bytes(e2));
        assert(is_ascii_chars(e1 + e2)) by {
            assert forall|i: int| 0 <= i < (e1 + e2).len() implies '\0' <= #[trigger] (e1
                + e2)[i] <= '\u{7f}' by {
                if i < e1.len() {
                    assert((e1 + e2)[i] == e1[i]);
                } else {
                    assert((e1 + e2)[i] == e2[i - e1.len()]);
                }
            }
        }
        assert(head + tail =~= b);
    }
}

fn b64_alphabet_char(n: u32) -> (r: char)
    requires
        n < 64,
    ensures
        r == b64_char(n as int),
{
    if n < 26 {
        ((65 + n) as u8) as char
    } else if n < 52 {
        ((97 + n - 26) as u8) as char
    } else if n < 62 {
        ((48 + n - 52) as u8) as char
    } else if n == 62 {
        '-'
    } else {
        '_'
    }
}

/// Unpadded URL-safe base64 encoding of `bytes`.
pub fn b64_encode(bytes: &[u8]) -> (r: String)
    ensures
        r@ == b64_enc(bytes@),
{
    let mut out = String::new();
    let mut pos: usize = 0;
    let len = bytes.len();
    assert(bytes@.skip(0) =~= bytes@);
    while pos < len
        invariant
            len == bytes@.len(),
            pos <= len,
            out@ + b64_enc(bytes@.skip(pos as int)) == b64_enc(bytes@),
        decreases len - pos,
    {
        let ghost rest = bytes@.skip(pos as int);
        let clen = if len - pos >= 3 {
            3
        } else {
            len - pos
        };
        let b0 = bytes[pos] as u32;
        let b1 = if clen > 1 {
            bytes[pos + 1] as u32
        } else {
            0
        };
        let b2 = if clen > 2 {
            bytes[pos + 2] as u32
        } else {
            0
        };
        let n = (b0 << 16) | (b1 << 8) | b2;
        let ghost c = rest.take(clen as int);
        assert(c[0] == b0);
        assert(b0 < 256 && b1 < 256 && b2 < 256 ==> (b0 << 16) | (b1 << 8) | b2 == b0 * 65536
            + b1 * 256 + b2) by (bit_vector);
        assert(n < 16777216 ==> (n >> 18) & 0x3f == (n / 262144) % 64 && (n >> 12) & 0x3f == (n
            / 4096) % 64 && (n >> 6) & 0x3f == (n / 64) % 64 && n & 0x3f == n % 64
            && (n >> 18) & 0x3f < 64 && (n >> 12) & 0x3f < 64 && (n >> 6) & 0x3f < 64 && n & 0x3f
            < 64) by (bit_vector);
        let ghost before = out@;
        push_char(&mut out, b64_alphabet_char((n >> 18) & 0x3f));
        push_char(&mut out, b64_alphabet_char((n >> 12) & 0x3f));
        if clen > 1 {
            push_char(&mut out, b64_alphabet_char((n >> 6) & 0x3f));
        }
        if clen > 2 {
            push_char(&mut out, b64_alphabet_char(n & 0x3f));
        }
        assert(out@ =~= before + b64_chunk(c));
        proof {
            if rest.len() > 3 {
                assert(rest.skip(3) =~= bytes@.skip(pos + 3));
                assert(b64_enc(rest) == b64_chunk(c) + b64_enc(rest.skip(3)));
            } else {
                assert(c =~= rest);
                assert(bytes@.skip(pos + clen) =~= Seq::<u8>::empty());
            }
        }
        pos = pos + clen;
        assert(out@ + b64_enc(bytes@.skip(pos as int)) =~= b64_enc(bytes@));
    }
    assert(bytes@.skip(len as int) =~= Seq::<u8>::empty());
    assert(out@ =~= out@ + b64_enc(bytes@.skip(len as int)));
    out
}

fn b64_val(c: u8) -> (r: Option<u32>)
    ensures
        r is Some <==> b64_value(c) is Some,
        r is Some ==> r->0 == b64_value(c)->0 && r->0 < 64,
{
    if 65 <= c && c <= 90 {
        Some((c - 65) as u32)
    } else if 97 <= c && c <= 122 {
        Some((c - 97 + 26) as u32)
    } else if 48 <= c && c <= 57 {
        Some((c - 48 + 52) as u32)
    } else if c == 45 {
        Some(62)
    } else if c == 95 {
        Some(63)
    } else {
        None
    }
}

pub open spec fn prepend_opt(x: Seq<u8>, o: Option<Seq<u8>>) -> Option<Seq<u8>> {
    match o {
        Some(y) => Some(x + y),
        None => None,
    }
}

/// Decodes one chunk `bytes[pos..pos + clen]` (one to four bytes).
fn b64_decode_chunk(bytes: &[u8], pos: usize, clen: usize) -> (r: Option<Vec<u8>>)
    requires
        1 <= clen <= 4,
        pos + clen <= bytes@.len(),
    ensures
        r is Some <==> b64_dec_chunk(bytes@.subrange(pos as int, pos + clen)) is Some,
        r is Some ==> r->0@ == b64_dec_chunk(bytes@.subrange(pos as int, pos + clen))->0,
{
    let ghost c = bytes@.subrange(pos as int, pos + clen);
    let mut vals: Vec<u32> = Vec::new();
    let mut k: usize = 0;
    while k < clen
        invariant
            pos + clen <= bytes@.len(),
            bytes@.len() == bytes.len(),
            1 <= clen <= 4,
            k <= clen,
            c == bytes@.subrange(pos as int, pos + clen),
            vals@.len() == k,
            forall|i: int| 0 <= i < k ==> #[trigger] b64_value(c[i]) is Some,
            forall|i: int| 0 <= i < k ==> vals@[i] == b64_value(#[trigger] c[i])->0,
            forall|i: int| 0 <= i < k ==> #[trigger] vals@[i] < 64,
        decreases clen - k,
    {
        match b64_val(bytes[pos + k]) {
            Some(v) => {
                vals.push(v);
            },
            None => {
                assert(c[k as int] == bytes@[pos + k]);
                assert(!(b64_value(c[k as int]) is Some));
                return None;
            },
        }
        k = k + 1;
    }
    let v0 = vals[0];
    let v1 = if clen > 1 {
        vals[1]
    } else {
        0
    };
    let v2 = if clen > 2 {
        vals[2]
    } else {
        0
    };
    let v3 = if clen > 3 {
        vals[3]
    } else {
        0
    };
    assert(v0 < 64 && v1 < 64 && v2 < 64 && v3 < 64 ==> (v0 << 18) | (v1 << 12) | (v2 << 6) | v3
        == v0 * 262144 + v1 * 4096 + v2 * 64 + v3) by (bit_vector);
    let n: u32 = (v0 << 18) | (v1 << 12) | (v2 << 6) | v3;
    assert(n < 16777216 ==> ((n >> 16) & 0xff) as u8 == (n / 65536 % 256) as u8 && ((n >> 8)
        & 0xff) as u8 == (n / 256 % 256) as u8 && (n & 0xff) as u8 == (n % 256) as u8)
        by (bit_vector);
    let mut out: Vec<u8> = Vec::new();
    if clen >= 2 {
        out.push(((n >> 16) & 0xff) as u8);
    }
    if clen >= 3 {
        out.push(((n >> 8) & 0xff) as u8);
    }
    if clen >= 4 {
        out.push((n & 0xff) as u8);
    }
    assert(out@ =~= b64_dec_chunk(c)->0);
    Some(out)
}

/// Decodes unpadded URL-safe base64; any byte outside the alphabet is an
/// error.
pub fn b64_decode(s: &str) -> (r: Result<Vec<u8>, &'static str>)
    ensures
        r is Ok <==> b64_dec(s.spec_bytes()) is Some,
        r is Ok ==> r->Ok_0@ == b64_dec(s.spec_bytes())->0,
        r is Err ==> r->Err_0@ == "invalid base64 character"@,
{
    let bytes = s.as_bytes();
    let len = bytes.len();
    let mut out: Vec<u8> = Vec::new();
    let mut pos: usize = 0;
    assert(bytes@.skip(0) =~= bytes@);
    assert(prepend_opt(out@, b64_dec(bytes@.skip(0))) =~= b64_dec(bytes@)) by {
        match b64_dec(bytes@) {
            Some(y) => {
                assert(Seq::<u8>::empty() + y =~= y);
            },
            None => {},
        }
    }
    while pos < len
        invariant
            len == bytes@.len(),
            bytes@ == s.spec_bytes(),
            pos <= len,
            prepend_opt(out@, b64_dec(bytes@.skip(pos as int))) == b64_dec(bytes@),
        decreases len - pos,
    {
        let ghost rest = bytes@.skip(pos as int);
        let clen = if len - pos >= 4 {
            4
        } else {
            len - pos
        };
        let ghost c = bytes@.subrange(pos as int, pos + clen);
        proof {
            if rest.len() > 4 {
                assert(c =~= rest.take(4));
                assert(rest.skip(4) =~= bytes@.skip(pos + 4));
            } else {
                assert(c =~= rest);
                assert(bytes@.skip(pos + clen) =~= Seq::<u8>::empty());
            }
        }
        let chunk = match b64_decode_chunk(bytes, pos, clen) {
            Some(x) => x,
            None => {
                return Err("invalid base64 character");
            },
        };
        let ghost before = out@;
        let mut j: usize = 0;
        while j < chunk.len()
            invariant
                j <= chunk@.len(),
                out@ == before + chunk@.take(j as int),
            decreases chunk@.len() - j,
        {
            out.push(chunk[j]);
            j = j + 1;
            assert(out@ =~= before + chunk@.take(j as int));
        }
        assert(chunk@.take(chunk@.len() as int) =~= chunk@);
        pos = pos + clen;
        assert(prepend_opt(out@, b64_dec(bytes@.skip(pos as int))) =~= b64_dec(bytes@)) by {
            match b64_dec(bytes@.skip(pos as int)) {
                Some(y) => {
                    assert(before + chunk@ + y =~= before + (chunk@ + y));
                },
                None => {},
            }
        }
    }
    assert(bytes@.skip(len as int) =~= Seq::<u8>::empty());
    assert(out@ + Seq::<u8>::empty() =~= out@);
    Ok(out)
}

} // verus!
