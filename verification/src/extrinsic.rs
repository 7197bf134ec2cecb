//! Transactions before and after signing, and their form on the wire.
//!
//! An encoded transaction is a length in compact form followed by that many
//! bytes: a version byte whose high bit says whether a signature follows, the
//! signature block if so (address, signature, nonce in compact form, era), and
//! the call.

use vstd::prelude::*;
use crate::address::{Address, lemma_address_round_trip};
use crate::bytes::lemma_radix_values;
use crate::call::{Call, lemma_call_round_trip};
use crate::compact::{
    compact_encoding, compact_split, decode_compact_u32, decode_compact_u64, encode_compact_u32,
    encode_compact_u64, lemma_compact_encoding_len, lemma_compact_round_trip,
};
use crate::era::{Era, lemma_era_round_trip};
use crate::primitives::{
    AccountId, BlockHash, Index, Signature, fixed_decoding, lemma_fixed_round_trip, read_fixed,
};

verus! {

/// The version of the wire format.
pub const TRANSACTION_VERSION: u8 = 1;

/// Added to the version byte of a transaction that carries a signature.
pub const SIGNED_FLAG: u8 = 128;

/// What a transaction is meant to do, before it is signed: who sends it and with
/// which nonce (nobody, for an inherent), and the call. It is used up by the one
/// signing that turns it into a transaction.
#[derive(Debug, PartialEq, Eq)]
pub struct CheckedExtrinsic {
    pub signed: Option<(AccountId, Index)>,
    pub function: Call,
}

/// A transaction as it goes over the wire: the sender's address, signature,
/// nonce and era (none of them for an inherent), and the call.
#[derive(Clone, Copy, Debug, PartialEq, Eq)]
pub struct UncheckedExtrinsic {
    pub signature: Option<(Address, Signature, Index, Era)>,
    pub function: Call,
}

/// The bytes that a sender signs: nonce, call, era and the hash of the block
/// that anchors the era, one after the other.
pub open spec fn signing_payload(index: Index, call: Call, era: Era, hash: BlockHash) -> Seq<u8> {
    compact_encoding(index as nat) + call.encoding() + era.encoding() + hash@
}

/// The bytes that a sender signs for the given nonce, call, era and block hash.
pub fn encode_payload(index: Index, call: &Call, era: &Era, hash: &BlockHash) -> (payload: Vec<u8>)
    requires
        era.wf(),
    ensures
        payload@ == signing_payload(index, *call, *era, *hash),
{
    let mut payload = encode_compact_u64(index);
    call.encode_to(&mut payload);
    era.encode_to(&mut payload);
    payload.extend_from_slice(hash.as_slice());
    payload
}

impl UncheckedExtrinsic {
    /// Whether the transaction can be written on the wire: its era, if it has
    /// one, is well-formed.
    pub open spec fn wf(self) -> bool {
        match self.signature {
            Some((_, _, _, era)) => era.wf(),
            None => true,
        }
    }

    /// The bytes of a signature block: address, signature, nonce in compact
    /// form and era, one after the other.
    pub open spec fn signature_encoding(block: (Address, Signature, Index, Era)) -> Seq<u8> {
        block.0.encoding() + block.1@ + compact_encoding(block.2 as nat) + block.3.encoding()
    }

    /// The bytes of the transaction without the length in front.
    pub open spec fn body(self) -> Seq<u8> {
        match self.signature {
            Some(block) => seq![(TRANSACTION_VERSION + SIGNED_FLAG) as u8]
                + UncheckedExtrinsic::signature_encoding(block) + self.function.encoding(),
            None => seq![TRANSACTION_VERSION] + self.function.encoding(),
        }
    }

    /// The bytes that stand for the transaction.
    pub open spec fn encoding(self) -> Seq<u8> {
        compact_encoding(self.body().len()) + self.body()
    }

    /// What a reader takes from the signature block at the front of `input`.
    pub open spec fn signature_decoding(input: Seq<u8>) -> Option<
        ((Address, Signature, Index, Era), Seq<u8>),
    > {
        match Address::decoding(input) {
            Some((address, after_address)) => match fixed_decoding::<64>(after_address) {
                Some((signature, after_signature)) => match compact_split(after_signature, 8) {
                    Some((index, after_index)) => match Era::decoding(after_index) {
                        Some((era, rest)) => Some(
                            ((address, signature, index as u64, era), rest),
                        ),
                        None => None,
                    },
                    None => None,
                },
                None => None,
            },
            None => None,
        }
    }

    /// What a reader takes from the front of `input`: the transaction and the
    /// input that is left, or nothing where `input` spells no transaction of
    /// this version. The length in front must be a compact number of at most
    /// four bytes; its value is not looked at.
    pub open spec fn decoding(input: Seq<u8>) -> Option<(UncheckedExtrinsic, Seq<u8>)> {
        match compact_split(input, 4) {
            Some((_, body)) => {
                if body.len() == 0 || body[0] % SIGNED_FLAG != TRANSACTION_VERSION {
                    None
                } else if body[0] >= SIGNED_FLAG {
                    match UncheckedExtrinsic::signature_decoding(body.skip(1)) {
                        Some((signature, after)) => match Call::decoding(after) {
                            Some((function, rest)) => Some(
                                (
                                    UncheckedExtrinsic { signature: Some(signature), function },
                                    rest,
                                ),
                            ),
                            None => None,
                        },
                        None => None,
                    }
                } else {
                    match Call::decoding(body.skip(1)) {
                        Some((function, rest)) => Some(
                            (UncheckedExtrinsic { signature: None, function }, rest),
                        ),
                        None => None,
                    }
                }
            },
            None => None,
        }
    }

    /// Whether the transaction can be written on the wire.
    pub fn is_well_formed(&self) -> (ok: bool)
        ensures
            ok == self.wf(),
    {
        match &self.signature {
            Some((_, _, _, era)) => era.is_well_formed(),
            None => true,
        }
    }

    /// The transaction's bytes.
    pub fn encode(&self) -> (out: Vec<u8>)
        requires
            self.wf(),
        ensures
            out@ == self.encoding(),
    {
        let mut body: Vec<u8> = Vec::new();
        match &self.signature {
            Some((address, signature, index, era)) => {
                body.push(TRANSACTION_VERSION + SIGNED_FLAG);
                address.encode_to(&mut body);
                body.extend_from_slice(signature.as_slice());
                let mut number = encode_compact_u64(*index);
                body.append(&mut number);
                era.encode_to(&mut body);
            },
            None => {
                body.push(TRANSACTION_VERSION);
            },
        }
        self.function.encode_to(&mut body);
        proof {
            assert(body@ =~= self.body());
            lemma_body_len(*self);
        }
        let mut out = encode_compact_u32(body.len() as u32);
        out.append(&mut body);
        out
    }

    /// Reads a transaction from the front of `input` and hands it back with the
    /// input that is left.
    pub fn decode<'a>(input: &'a [u8]) -> (r: Option<(UncheckedExtrinsic, &'a [u8])>)
        ensures
            match r {
                Some((xt, rest)) => UncheckedExtrinsic::decoding(input@) == Some((xt, rest@))
                    && xt.wf(),
                None => UncheckedExtrinsic::decoding(input@) is None,
            },
    {
        let body = match decode_compact_u32(input) {
            Some((_, body)) => body,
            None => { return None; },
        };
        if body.len() == 0 {
            return None;
        }
        let first = body[0];
        if first % SIGNED_FLAG != TRANSACTION_VERSION {
            return None;
        }
        let after_version = vstd::slice::slice_subrange(body, 1, body.len());
        if first >= SIGNED_FLAG {
            let (address, after_address) = match Address::decode(after_version) {
                Some(read) => read,
                None => { return None; },
            };
            let (signature, after_signature) = match read_fixed::<64>(after_address) {
                Some(read) => read,
                None => { return None; },
            };
            let (index, after_index) = match decode_compact_u64(after_signature) {
                Some(read) => read,
                None => { return None; },
            };
            let (era, after_era) = match Era::decode(after_index) {
                Some(read) => read,
                None => { return None; },
            };
            match Call::decode(after_era) {
                Some((function, rest)) => Some(
                    (
                        UncheckedExtrinsic {
                            signature: Some((address, signature, index, era)),
                            function,
                        },
                        rest,
                    ),
                ),
                None => None,
            }
        } else {
            match Call::decode(after_version) {
                Some((function, rest)) => Some(
                    (UncheckedExtrinsic { signature: None, function }, rest),
                ),
                None => None,
            }
        }
    }
}

/// A signature block is between 99 and 108 bytes long.
pub proof fn lemma_signature_len(block: (Address, Signature, Index, Era))
    ensures
        99 <= UncheckedExtrinsic::signature_encoding(block).len() <= 108,
{
    lemma_radix_values();
    lemma_compact_encoding_len(block.2 as nat);
}

/// A call is between 3 and 52 bytes long.
pub proof fn lemma_call_len(call: Call)
    ensures
        3 <= call.encoding().len() <= 52,
{
    lemma_radix_values();
    match call {
        Call::SetTimestamp { now } => {
            lemma_compact_encoding_len(now as nat);
        },
        Call::Transfer { dest, value } => {
            lemma_compact_encoding_len(value as nat);
        },
    }
}

/// A transaction's body is between 4 and 161 bytes long.
pub proof fn lemma_body_len(xt: UncheckedExtrinsic)
    ensures
        4 <= xt.body().len() <= 161,
{
    lemma_call_len(xt.function);
    match xt.signature {
        Some(block) => {
            lemma_signature_len(block);
        },
        None => {},
    }
}

/// Decoding reads back exactly the signature block that was encoded, whatever
/// follows it.
pub proof fn lemma_signature_round_trip(block: (Address, Signature, Index, Era), rest: Seq<u8>)
    requires
        block.3.wf(),
    ensures
        UncheckedExtrinsic::signature_decoding(
            UncheckedExtrinsic::signature_encoding(block) + rest,
        ) == Some((block, rest)),
{
    let (address, signature, index, era) = block;
    let number = compact_encoding(index as nat);
    let after_index = era.encoding() + rest;
    let after_signature = number + after_index;
    let after_address = signature@ + after_signature;
    assert(UncheckedExtrinsic::signature_encoding(block) + rest =~= address.encoding()
        + after_address);
    lemma_address_round_trip(address, after_address);
    lemma_fixed_round_trip::<64>(signature, after_signature);
    lemma_radix_values();
    lemma_compact_round_trip(index as nat, 8, after_index);
    assert(after_signature.skip(number.len() as int) =~= after_index);
    lemma_era_round_trip(era, rest);
}

/// Decoding reads back exactly the transaction that was encoded, whatever
/// follows it.
pub proof fn lemma_extrinsic_round_trip(xt: UncheckedExtrinsic, rest: Seq<u8>)
    requires
        xt.wf(),
    ensures
        UncheckedExtrinsic::decoding(xt.encoding() + rest) == Some((xt, rest)),
{
    let body = xt.body();
    let length = compact_encoding(body.len());
    let framed = body + rest;
    assert(xt.encoding() + rest =~= length + framed);
    assert(compact_split(length + framed, 4) == Some((body.len(), framed))) by {
        lemma_radix_values();
        lemma_body_len(xt);
        lemma_compact_round_trip(body.len(), 4, framed);
        assert((length + framed).skip(length.len() as int) =~= framed);
    }
    let call = xt.function.encoding();
    match xt.signature {
        Some(block) => {
            let after = call + rest;
            assert(framed[0] == (TRANSACTION_VERSION + SIGNED_FLAG) as u8);
            assert(framed.skip(1) =~= UncheckedExtrinsic::signature_encoding(block) + after);
            lemma_signature_round_trip(block, after);
            lemma_call_round_trip(xt.function, rest);
        },
        None => {
            assert(framed[0] == TRANSACTION_VERSION);
            assert(framed.skip(1) =~= call + rest);
            lemma_call_round_trip(xt.function, rest);
        },
    }
}

} // verus!
