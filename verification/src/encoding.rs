//! The base64 encoding that call arguments travel in.

use base64::Engine;
use vstd::prelude::*;

verus! {

/// The character of a group of six bits, in the standard alphabet.
pub open spec fn base64_digit(v: nat) -> u8 {
    if v < 26 {
        (65 + v) as u8
    } else if v < 52 {
        (71 + v) as u8
    } else if v < 62 {
        (v - 4) as u8
    } else if v == 62 {
        43
    } else {
        47
    }
}

/// The four characters of twenty-four bits.
pub open spec fn base64_group(n: nat) -> Seq<u8> {
    seq![
        base64_digit(n / 262144),
        base64_digit(n / 4096 % 64),
        base64_digit(n / 64 % 64),
        base64_digit(n % 64),
    ]
}

/// The base64 encoding of some bytes: the standard alphabet, four characters for three
/// bytes, and `=` in the places that a last group of one or two bytes leaves.
pub open spec fn base64(data: Seq<u8>) -> Seq<u8>
    decreases data.len(),
{
    if data.len() == 0 {
        Seq::empty()
    } else if data.len() == 1 {
        base64_group(data[0] as nat * 65536).take(2) + seq![61u8, 61u8]
    } else if data.len() == 2 {
        base64_group(data[0] as nat * 65536 + data[1] as nat * 256).take(3) + seq![61u8]
    } else {
        base64_group(data[0] as nat * 65536 + data[1] as nat * 256 + data[2] as nat) + base64(
            data.skip(3),
        )
    }
}

/// Calls `encode` of the `STANDARD` engine of the base64 crate.
///
/// Claimed of it: the result is the encoding with the alphabet of `A` to `Z`, `a` to `z`,
/// `0` to `9`, `+` and `/`, padded with `=` to a multiple of four characters.
#[verifier::external_body]
pub(crate) fn encode_standard(data: &[u8]) -> (encoded: Vec<u8>)
    ensures
        encoded@ == base64(data@),
{
    base64::engine::general_purpose::STANDARD.encode(data).into_bytes()
}

/// An encoding has four characters for each three bytes or part of three bytes.
pub proof fn lemma_base64_len(data: Seq<u8>)
    ensures
        base64(data).len() == 4 * ((data.len() + 2) / 3),
    decreases data.len(),
{
    if data.len() >= 3 {
        lemma_base64_len(data.skip(3));
    }
}

proof fn lemma_digit_injective(v: nat, w: nat)
    requires
        v < 64,
        w < 64,
    ensures
        base64_digit(v) == base64_digit(w) ==> v == w,
        base64_digit(v) != 61,
{
}

proof fn lemma_group_injective(m: nat, n: nat)
    requires
        m < 16777216,
        n < 16777216,
        base64_group(m)[0] == base64_group(n)[0],
        base64_group(m)[1] == base64_group(n)[1],
    ensures
        m / 4096 == n / 4096,
        base64_group(m)[2] == base64_group(n)[2] ==> m / 64 == n / 64,
        base64_group(m) == base64_group(n) ==> m == n,
        base64_group(m)[2] != 61,
        base64_group(m)[3] != 61,
{
    lemma_digit_injective(m / 262144, n / 262144);
    lemma_digit_injective(m / 4096 % 64, n / 4096 % 64);
    lemma_digit_injective(m / 64 % 64, n / 64 % 64);
    lemma_digit_injective(m % 64, n % 64);
    if base64_group(m) == base64_group(n) {
        assert(base64_group(m)[2] == base64_group(n)[2]);
        assert(base64_group(m)[3] == base64_group(n)[3]);
    }
}

/// The value of the first group of an encoding.
spec fn first_group(data: Seq<u8>) -> nat {
    if data.len() == 1 {
        data[0] as nat * 65536
    } else if data.len() == 2 {
        data[0] as nat * 65536 + data[1] as nat * 256
    } else {
        data[0] as nat * 65536 + data[1] as nat * 256 + data[2] as nat
    }
}

proof fn lemma_first_characters(data: Seq<u8>)
    requires
        data.len() > 0,
    ensures
        base64(data).len() >= 4,
        base64(data)[0] == base64_group(first_group(data))[0],
        base64(data)[1] == base64_group(first_group(data))[1],
        base64(data)[2] == (if data.len() == 1 {
            61u8
        } else {
            base64_group(first_group(data))[2]
        }),
        base64(data)[3] == (if data.len() <= 2 {
            61u8
        } else {
            base64_group(first_group(data))[3]
        }),
        data.len() >= 3 ==> base64(data).skip(4) == base64(data.skip(3)),
{
    if data.len() >= 3 {
        assert(base64(data).skip(4) =~= base64(data.skip(3)));
    }
}

proof fn lemma_first_bytes(a: Seq<u8>, b: Seq<u8>)
    requires
        a.len() > 0,
        b.len() > 0,
        a.len() < 3 || b.len() < 3 ==> a.len() == b.len(),
        a.len() == 1 ==> first_group(a) / 4096 == first_group(b) / 4096,
        a.len() == 2 ==> first_group(a) / 64 == first_group(b) / 64,
        a.len() >= 3 ==> first_group(a) == first_group(b),
    ensures
        a[0] == b[0],
        a.len() >= 2 ==> a[1] == b[1],
        a.len() >= 3 ==> a[2] == b[2],
{
}

/// Different bytes have different encodings.
pub proof fn lemma_base64_injective(a: Seq<u8>, b: Seq<u8>)
    requires
        base64(a) == base64(b),
    ensures
        a == b,
    decreases a.len(),
{
    lemma_base64_len(a);
    lemma_base64_len(b);
    if a.len() == 0 {
        assert(b.len() == 0);
        assert(a =~= b);
    } else {
        let m = first_group(a);
        let n = first_group(b);
        lemma_first_characters(a);
        lemma_first_characters(b);
        lemma_group_injective(m, n);
        lemma_group_injective(n, m);
        if a.len() >= 3 {
            assert(b.len() >= 3);
            assert(base64_group(m) =~= base64_group(n));
        }
        lemma_first_bytes(a, b);
        if a.len() <= 2 {
            assert(a =~= b);
        } else {
            lemma_base64_injective(a.skip(3), b.skip(3));
            assert(a =~= seq![a[0], a[1], a[2]] + a.skip(3));
            assert(b =~= seq![b[0], b[1], b[2]] + b.skip(3));
        }
    }
}

} // verus!
