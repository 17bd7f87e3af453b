use vstd::prelude::*;
use vstd::utf8::{encode_utf8, encode_utf8_decode_utf8};

verus! {

/// The decimal digits of `n` as ASCII bytes, most significant first.
pub open spec fn decimal_bytes(n: nat) -> Seq<u8>
    decreases n,
{
    if n < 10 {
        seq![(48 + n) as u8]
    } else {
        decimal_bytes(n / 10).push((48 + n % 10) as u8)
    }
}

/// What is hashed: the original bytes, then the UTF-8 text `{width}x{height}:{format}`.
pub open spec fn key_message(data: Seq<u8>, width: u32, height: u32, format: Seq<char>) -> Seq<u8> {
    data + decimal_bytes(width as nat) + seq![120u8] + decimal_bytes(height as nat) + seq![58u8]
        + encode_utf8(format)
}

/// A lowercase hexadecimal digit.
pub open spec fn is_hex_digit(c: char) -> bool {
    ('0' <= c && c <= '9') || ('a' <= c && c <= 'f')
}

/// Text that can serve as a cache key: at least two lowercase hex digits.
pub open spec fn is_key_text(k: Seq<char>) -> bool {
    k.len() >= 2 && forall|i: int| 0 <= i < k.len() ==> is_hex_digit(#[trigger] k[i])
}

/// The BLAKE3 digest of some bytes, in lowercase hexadecimal.
pub uninterp spec fn blake3_hex_of(data: Seq<u8>) -> Seq<char>;

/// The cache key of an original image and the requested transform.
pub open spec fn cache_key_of(data: Seq<u8>, width: u32, height: u32, format: Seq<char>) -> Seq<
    char,
> {
    blake3_hex_of(key_message(data, width, height, format))
}

/// Relies on blake3::hash and Hash::to_hex: the 32-byte digest of `data`,
/// written as 64 lowercase hexadecimal digits.
#[verifier::external_body]
fn blake3_hex(data: &[u8]) -> (r: String)
    ensures
        r@ == blake3_hex_of(data@),
        r@.len() == 64,
        forall|i: int| 0 <= i < r@.len() ==> is_hex_digit(#[trigger] r@[i]),
{
    blake3::hash(data).to_hex().to_string()
}

/// Appends the decimal digits of `n`.
fn push_decimal(out: &mut Vec<u8>, n: u32)
    ensures
        final(out)@ == old(out)@ + decimal_bytes(n as nat),
    decreases n,
{
    if n >= 10 {
        push_decimal(out, n / 10);
    }
    let d: u8 = (n % 10) as u8;
    out.push(48 + d);
    proof {
        reveal_with_fuel(decimal_bytes, 2);
        assert(final(out)@ =~= old(out)@ + decimal_bytes(n as nat));
    }
}

/// Appends every byte of `src`.
fn push_all(out: &mut Vec<u8>, src: &[u8])
    ensures
        final(out)@ == old(out)@ + src@,
{
    let ghost start = out@;
    let mut i: usize = 0;
    while i < src.len()
        invariant
            i <= src@.len(),
            out@ == start + src@.subrange(0, i as int),
        decreases src@.len() - i,
    {
        out.push(src[i]);
        i = i + 1;
        assert(out@ =~= start + src@.subrange(0, i as int));
    }
    assert(src@.subrange(0, i as int) =~= src@);
}

/// Derives the cache key of `original_data` transformed to `width`×`height` in `format`:
/// the BLAKE3 digest of the bytes followed by `{width}x{height}:{format}`, in hex.
pub fn cache_key(original_data: &[u8], width: u32, height: u32, format: &str) -> (r: String)
    ensures
        r@ == cache_key_of(original_data@, width, height, format@),
        r@.len() == 64,
        is_key_text(r@),
{
    let mut msg: Vec<u8> = Vec::new();
    push_all(&mut msg, original_data);
    push_decimal(&mut msg, width);
    msg.push(120u8);
    push_decimal(&mut msg, height);
    msg.push(58u8);
    push_all(&mut msg, format.as_bytes());
    assert(msg@ =~= key_message(original_data@, width, height, format@));
    blake3_hex(msg.as_slice())
}

proof fn lemma_decimal_digits(n: nat)
    ensures
        decimal_bytes(n).len() >= 1,
        n >= 10 ==> decimal_bytes(n).len() >= 2,
        forall|i: int|
            0 <= i < decimal_bytes(n).len() ==> 48 <= #[trigger] decimal_bytes(n)[i] <= 57,
    decreases n,
{
    if n >= 10 {
        lemma_decimal_digits(n / 10);
    }
}

proof fn lemma_decimal_injective(a: nat, b: nat)
    requires
        decimal_bytes(a) == decimal_bytes(b),
    ensures
        a == b,
    decreases a,
{
    lemma_decimal_digits(a);
    lemma_decimal_digits(b);
    if a < 10 && b < 10 {
        assert(decimal_bytes(a)[0] == decimal_bytes(b)[0]);
        assert(decimal_bytes(a)[0] == 48 + a);
        assert(decimal_bytes(b)[0] == 48 + b);
    } else if a >= 10 && b >= 10 {
        assert(decimal_bytes(a).drop_last() =~= decimal_bytes(a / 10));
        assert(decimal_bytes(b).drop_last() =~= decimal_bytes(b / 10));
        lemma_decimal_injective(a / 10, b / 10);
        assert(decimal_bytes(a).last() == decimal_bytes(b).last());
        assert(decimal_bytes(a).last() == 48 + a % 10);
        assert(decimal_bytes(b).last() == 48 + b % 10);
        assert(a == 10 * (a / 10) + a % 10);
        assert(b == 10 * (b / 10) + b % 10);
    }
}

proof fn lemma_split_at_separator(d1: Seq<u8>, r1: Seq<u8>, d2: Seq<u8>, r2: Seq<u8>, c: u8)
    requires
        forall|i: int| 0 <= i < d1.len() ==> 48 <= #[trigger] d1[i] <= 57,
        forall|i: int| 0 <= i < d2.len() ==> 48 <= #[trigger] d2[i] <= 57,
        !(48 <= c <= 57),
        d1 + seq![c] + r1 == d2 + seq![c] + r2,
    ensures
        d1 == d2,
        r1 == r2,
{
    let s = d1 + seq![c] + r1;
    let t = d2 + seq![c] + r2;
    if d1.len() < d2.len() {
        assert(s[d1.len() as int] == c);
        assert(t[d1.len() as int] == d2[d1.len() as int]);
    } else if d1.len() > d2.len() {
        assert(t[d2.len() as int] == c);
        assert(s[d2.len() as int] == d1[d2.len() as int]);
    } else {
        assert(d1 =~= s.subrange(0, d1.len() as int));
        assert(d2 =~= t.subrange(0, d2.len() as int));
        assert(r1 =~= s.subrange(d1.len() as int + 1, s.len() as int));
        assert(r2 =~= t.subrange(d2.len() as int + 1, t.len() as int));
    }
}

/// Two requests that differ in one input hash different bytes: with the same
/// original bytes, any change of width, height or format changes what is
/// hashed, and so does changing bytes of the original in place. The keys then
/// differ unless BLAKE3 has a collision.
pub proof fn law_changed_request_changes_hash_input(
    data1: Seq<u8>,
    width1: u32,
    height1: u32,
    format1: Seq<char>,
    data2: Seq<u8>,
    width2: u32,
    height2: u32,
    format2: Seq<char>,
)
    requires
        (data1 == data2 && (width1 != width2 || height1 != height2 || format1 != format2)) || (
        data1.len() == data2.len() && data1 != data2 && width1 == width2 && height1 == height2
            && format1 == format2),
    ensures
        key_message(data1, width1, height1, format1) != key_message(
            data2,
            width2,
            height2,
            format2,
        ),
{
    let m1 = key_message(data1, width1, height1, format1);
    let m2 = key_message(data2, width2, height2, format2);
    if m1 == m2 {
        if data1 == data2 {
            let tail1 = decimal_bytes(height1 as nat) + seq![58u8] + encode_utf8(format1);
            let tail2 = decimal_bytes(height2 as nat) + seq![58u8] + encode_utf8(format2);
            let rest1 = decimal_bytes(width1 as nat) + seq![120u8] + tail1;
            let rest2 = decimal_bytes(width2 as nat) + seq![120u8] + tail2;
            assert(m1 =~= data1 + rest1);
            assert(m2 =~= data2 + rest2);
            assert(rest1 =~= m1.subrange(data1.len() as int, m1.len() as int));
            assert(rest2 =~= m2.subrange(data2.len() as int, m2.len() as int));
            lemma_decimal_digits(width1 as nat);
            lemma_decimal_digits(width2 as nat);
            lemma_decimal_digits(height1 as nat);
            lemma_decimal_digits(height2 as nat);
            lemma_split_at_separator(
                decimal_bytes(width1 as nat),
                tail1,
                decimal_bytes(width2 as nat),
                tail2,
                120u8,
            );
            lemma_decimal_injective(width1 as nat, width2 as nat);
            lemma_split_at_separator(
                decimal_bytes(height1 as nat),
                encode_utf8(format1),
                decimal_bytes(height2 as nat),
                encode_utf8(format2),
                58u8,
            );
            lemma_decimal_injective(height1 as nat, height2 as nat);
            encode_utf8_decode_utf8(format1);
            encode_utf8_decode_utf8(format2);
        } else {
            assert(data1 =~= m1.subrange(0, data1.len() as int));
            assert(data2 =~= m2.subrange(0, data2.len() as int));
        }
    }
}

} // verus!
