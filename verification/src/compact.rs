//! The variable-width ("compact") integer encoding used on the wire.
//!
//! The two low bits of the first byte select one of four layouts:
//!
//! | low bits | layout                                                                  |
//! |----------|-------------------------------------------------------------------------|
//! | `00`     | one byte, the value in its six high bits                                |
//! | `01`     | two bytes little-endian, the value in the fourteen high bits            |
//! | `10`     | four bytes little-endian, the value in the thirty high bits             |
//! | `11`     | the six high bits hold `n - 4`; `n` bytes follow, little-endian         |

use parity_codec::{Compact, Decode, Encode};
use vstd::prelude::*;
use crate::bytes::{
    le_bytes, le_value, radix, significant_bytes, lemma_le_bytes_len, lemma_le_value_of_le_bytes,
    lemma_radix_values, lemma_significant_bytes_bounds, lemma_significant_bytes_fit,
};

verus! {

/// The compact encoding of `v`: the shortest of the four layouts that holds it.
pub open spec fn compact_encoding(v: nat) -> Seq<u8> {
    if v < 0x40 {
        seq![(4 * v) as u8]
    } else if v < 0x4000 {
        le_bytes(4 * v + 1, 2)
    } else if v < 0x4000_0000 {
        le_bytes(4 * v + 2, 4)
    } else {
        seq![(4 * (significant_bytes(v) - 4) + 3) as u8] + le_bytes(v, significant_bytes(v))
    }
}

/// What a decoder for integers of `width` bytes reads from the front of `input`:
/// the value and the number of bytes it took, or `None` where `input` ends too
/// soon or announces more than `width` bytes. A value written in a longer layout
/// than it needs is read all the same.
pub open spec fn compact_decoding(input: Seq<u8>, width: nat) -> Option<(nat, nat)> {
    if input.len() == 0 {
        None
    } else {
        let first = input[0] as nat;
        if first % 4 == 0 {
            Some((first / 4, 1))
        } else if first % 4 == 1 {
            if input.len() < 2 {
                None
            } else {
                Some((le_value(input.subrange(0, 2)) / 4, 2))
            }
        } else if first % 4 == 2 {
            if input.len() < 4 {
                None
            } else {
                Some((le_value(input.subrange(0, 4)) / 4, 4))
            }
        } else {
            let n = first / 4 + 4;
            if n > width || input.len() < 1 + n {
                None
            } else {
                Some((le_value(input.subrange(1, 1 + n as int)), 1 + n))
            }
        }
    }
}

/// A compact encoding is between one and seventeen bytes long for any value of
/// at most sixteen bytes.
pub proof fn lemma_compact_encoding_len(v: nat)
    requires
        v < radix(16),
    ensures
        1 <= compact_encoding(v).len() <= 17,
        v < 0x40 ==> compact_encoding(v).len() == 1,
        0x40 <= v < 0x4000 ==> compact_encoding(v).len() == 2,
        0x4000 <= v < 0x4000_0000 ==> compact_encoding(v).len() == 4,
        0x4000_0000 <= v ==> compact_encoding(v).len() == 1 + significant_bytes(v),
        v < radix(4) ==> compact_encoding(v).len() <= 5,
        v < radix(8) ==> compact_encoding(v).len() <= 9,
{
    lemma_radix_values();
    lemma_le_bytes_len(4 * v + 1, 2);
    lemma_le_bytes_len(4 * v + 2, 4);
    lemma_le_bytes_len(v, significant_bytes(v));
    lemma_significant_bytes_fit(v, 16);
    lemma_significant_bytes_fit(v, 8);
    lemma_significant_bytes_fit(v, 4);
}

/// Decoding reads back exactly what was encoded, whatever follows it in the input.
pub proof fn lemma_compact_round_trip(v: nat, width: nat, rest: Seq<u8>)
    requires
        width == 4 || width == 8 || width == 16,
        v < radix(width),
    ensures
        compact_decoding(compact_encoding(v) + rest, width) == Some(
            (v, compact_encoding(v).len()),
        ),
{
    lemma_radix_values();
    let enc = compact_encoding(v);
    let input = enc + rest;
    if v < 0x40 {
        assert(input[0] == enc[0]);
    } else if v < 0x4000 {
        lemma_le_bytes_len(4 * v + 1, 2);
        lemma_le_value_of_le_bytes(4 * v + 1, 2);
        assert(input.subrange(0, 2) =~= enc);
        assert(input[0] == enc[0]);
        assert(enc[0] as nat == (4 * v + 1) % 256);
    } else if v < 0x4000_0000 {
        lemma_le_bytes_len(4 * v + 2, 4);
        lemma_le_value_of_le_bytes(4 * v + 2, 4);
        assert(input.subrange(0, 4) =~= enc);
        assert(input[0] == enc[0]);
        assert(enc[0] as nat == (4 * v + 2) % 256);
    } else {
        let n = significant_bytes(v);
        lemma_significant_bytes_fit(v, width);
        lemma_significant_bytes_fit(v, 3);
        lemma_significant_bytes_bounds(v);
        lemma_le_bytes_len(v, n);
        lemma_le_value_of_le_bytes(v, n);
        assert(4 <= n <= 16);
        assert(input[0] as nat == 4 * (n - 4) + 3);
        assert(input.subrange(1, 1 + n as int) =~= le_bytes(v, n));
    }
}

/// What a reader of `width`-byte integers hands back for `input`: the value
/// together with the input that is left, or nothing where decoding fails.
pub open spec fn compact_split(input: Seq<u8>, width: nat) -> Option<(nat, Seq<u8>)> {
    match compact_decoding(input, width) {
        Some((v, n)) => Some((v, input.skip(n as int))),
        None => None,
    }
}

/// `parity_codec`'s `Encode::encode` on a `Compact<u32>`: the bytes are the
/// compact encoding of `v`.
#[verifier::external_body]
pub(crate) fn encode_compact_u32(v: u32) -> (out: Vec<u8>)
    ensures
        out@ == compact_encoding(v as nat),
{
    Compact(v).encode()
}

/// `parity_codec`'s `Encode::encode` on a `Compact<u64>`: the bytes are the
/// compact encoding of `v`.
#[verifier::external_body]
pub(crate) fn encode_compact_u64(v: u64) -> (out: Vec<u8>)
    ensures
        out@ == compact_encoding(v as nat),
{
    Compact(v).encode()
}

/// `parity_codec`'s `Encode::encode` on a `Compact<u128>`: the bytes are the
/// compact encoding of `v`.
#[verifier::external_body]
pub(crate) fn encode_compact_u128(v: u128) -> (out: Vec<u8>)
    ensures
        out@ == compact_encoding(v as nat),
{
    Compact(v).encode()
}

/// `parity_codec`'s `Decode::decode` for `Compact<u32>`, reading from the front
/// of a byte slice: it succeeds exactly where `compact_decoding` with a width
/// of four bytes does, and then hands back that value and the unread input.
#[verifier::external_body]
pub(crate) fn decode_compact_u32<'a>(input: &'a [u8]) -> (r: Option<(u32, &'a [u8])>)
    ensures
        match r {
            Some((v, rest)) => compact_split(input@, 4) == Some((v as nat, rest@)),
            None => compact_split(input@, 4) is None,
        },
{
    let mut rest = input;
    let v = Compact::<u32>::decode(&mut rest)?;
    Some((v.0, rest))
}

/// `parity_codec`'s `Decode::decode` for `Compact<u64>`, reading from the front
/// of a byte slice: it succeeds exactly where `compact_decoding` with a width
/// of eight bytes does, and then hands back that value and the unread input.
#[verifier::external_body]
pub(crate) fn decode_compact_u64<'a>(input: &'a [u8]) -> (r: Option<(u64, &'a [u8])>)
    ensures
        match r {
            Some((v, rest)) => compact_split(input@, 8) == Some((v as nat, rest@)),
            None => compact_split(input@, 8) is None,
        },
{
    let mut rest = input;
    let v = Compact::<u64>::decode(&mut rest)?;
    Some((v.0, rest))
}

/// `parity_codec`'s `Decode::decode` for `Compact<u128>`, reading from the
/// front of a byte slice: it succeeds exactly where `compact_decoding` with a
/// width of sixteen bytes does, and then hands back that value and the unread
/// input.
#[verifier::external_body]
pub(crate) fn decode_compact_u128<'a>(input: &'a [u8]) -> (r: Option<(u128, &'a [u8])>)
    ensures
        match r {
            Some((v, rest)) => compact_split(input@, 16) == Some((v as nat, rest@)),
            None => compact_split(input@, 16) is None,
        },
{
    let mut rest = input;
    let v = Compact::<u128>::decode(&mut rest)?;
    Some((v.0, rest))
}

} // verus!
