//! Signing: from what a transaction is meant to do to what goes over the wire.

use vstd::prelude::*;
use crate::address::Address;
use crate::era::{Era, lemma_is_period, lemma_period_of_period};
use crate::extrinsic::{
    CheckedExtrinsic, UncheckedExtrinsic, encode_payload, lemma_extrinsic_round_trip,
    signing_payload,
};
use crate::hashing::{blake2_256, blake2_256_of};
use crate::keys::{Secret, sr25519_verifies, verify};
use crate::primitives::{AccountId, BlockHash, Phase, Signature};

verus! {

/// How many blocks a signed transaction stays valid.
pub const MORTALITY_PERIOD: u64 = 256;

/// The longest payload that is signed as it is; a longer one is hashed first.
pub const MAX_RAW_PAYLOAD: usize = 256;

/// The bytes that are signed for `payload`: the payload itself, or its 32-byte
/// hash where it is longer than 256 bytes. Which of the two applies can be told
/// from the payload's length alone.
pub open spec fn signing_input(payload: Seq<u8>) -> Seq<u8> {
    if payload.len() > MAX_RAW_PAYLOAD {
        blake2_256(payload)
    } else {
        payload
    }
}

/// The era of a transaction signed at `phase`: a window of 256 blocks, whatever
/// the phase.
pub open spec fn mortal_era(phase: Phase) -> Era {
    Era::Mortal(MORTALITY_PERIOD, phase % MORTALITY_PERIOD)
}

/// A wish of 256 blocks gives a window of exactly 256 blocks, whatever the
/// phase, and the phase in it is the block number's remainder by 256.
pub proof fn lemma_mortal_era(phase: Phase)
    ensures
        Era::mortal_for(MORTALITY_PERIOD, phase) == mortal_era(phase),
        mortal_era(phase).wf(),
{
    lemma_is_period(MORTALITY_PERIOD as nat);
    lemma_period_of_period(MORTALITY_PERIOD as nat);
}

/// Signs `payload` with `key`: the payload itself where it is at most 256 bytes
/// long, its hash where it is longer.
pub fn sign_payload(key: &Secret, payload: &[u8]) -> (signature: Signature)
    ensures
        sr25519_verifies(signature@, signing_input(payload@), key.public_key()),
{
    if payload.len() > MAX_RAW_PAYLOAD {
        let digest = blake2_256_of(payload);
        key.sign(digest.as_slice())
    } else {
        key.sign(payload)
    }
}

/// Whether `signature` is the signature of `account` on `payload`, signed as it
/// is or by its hash, as the payload's length says.
pub fn verify_payload(signature: &Signature, payload: &[u8], account: &AccountId) -> (ok: bool)
    ensures
        ok == sr25519_verifies(signature@, signing_input(payload@), account@),
{
    if payload.len() > MAX_RAW_PAYLOAD {
        let digest = blake2_256_of(payload);
        verify(signature, digest.as_slice(), account)
    } else {
        verify(signature, payload, account)
    }
}

impl UncheckedExtrinsic {
    /// Whether the transaction's signature is that of `public` on the
    /// transaction's nonce, call and era together with `hash`.
    pub open spec fn signed_by(self, public: Seq<u8>, hash: BlockHash) -> bool {
        match self.signature {
            Some((_, signature, index, era)) => sr25519_verifies(
                signature@,
                signing_input(signing_payload(index, self.function, era, hash)),
                public,
            ),
            None => false,
        }
    }

    /// Whether the transaction is what it claims to be: an unsigned one always
    /// is, a signed one where its signature is that of the account in its
    /// address.
    pub open spec fn signature_holds(self, hash: BlockHash) -> bool {
        match self.signature {
            Some((address, _, _, _)) => self.signed_by(address.account()@, hash),
            None => true,
        }
    }

    /// Checks a transaction whose era is anchored at the block with hash
    /// `prior_block_hash`: whether it can be written on the wire and its
    /// signature, if it has one, is that of the account in its address.
    pub fn check_signature(&self, prior_block_hash: &BlockHash) -> (ok: bool)
        ensures
            ok == (self.wf() && self.signature_holds(*prior_block_hash)),
    {
        match &self.signature {
            Some((Address::Id(account), signature, index, era)) => {
                if !era.is_well_formed() {
                    return false;
                }
                let payload = encode_payload(*index, &self.function, era, prior_block_hash);
                verify_payload(signature, payload.as_slice(), account)
            },
            None => true,
        }
    }
}

/// Turns `xt` into its wire form.
///
/// A transaction without a sender goes out unsigned, and `key` is not used. One
/// with a sender gets an era of 256 blocks at `phase` and the signature of `key`
/// on its nonce, call, era and `prior_block_hash`. Before it is handed back the
/// result is encoded and decoded again; that this reproduces it is proved, not
/// hoped for.
pub fn sign(
    xt: CheckedExtrinsic,
    key: &Secret,
    prior_block_hash: &BlockHash,
    phase: Phase,
) -> (signed: UncheckedExtrinsic)
    ensures
        signed.function == xt.function,
        signed.wf(),
        UncheckedExtrinsic::decoding(signed.encoding()) == Some((signed, Seq::<u8>::empty())),
        match xt.signed {
            Some((sender, index)) => {
                &&& signed.signature matches Some((address, _, nonce, era))
                &&& address == Address::Id(sender)
                &&& nonce == index
                &&& era == mortal_era(phase)
                &&& signed.signed_by(key.public_key(), *prior_block_hash)
            },
            None => signed.signature is None,
        },
{
    let assembled = match xt.signed {
        Some((sender, index)) => {
            let era = Era::mortal(MORTALITY_PERIOD, phase);
            proof {
                lemma_mortal_era(phase);
            }
            let payload = encode_payload(index, &xt.function, &era, prior_block_hash);
            let signature = sign_payload(key, payload.as_slice());
            UncheckedExtrinsic {
                signature: Some((Address::Id(sender), signature, index, era)),
                function: xt.function,
            }
        },
        None => UncheckedExtrinsic { signature: None, function: xt.function },
    };
    let encoded = assembled.encode();
    proof {
        lemma_extrinsic_round_trip(assembled, Seq::<u8>::empty());
        assert(encoded@ + Seq::<u8>::empty() =~= encoded@);
    }
    match UncheckedExtrinsic::decode(encoded.as_slice()) {
        Some((decoded, _)) => decoded,
        None => vstd::pervasive::unreached(),
    }
}

} // verus!
