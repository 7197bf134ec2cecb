//! Signing keys and the accounts that belong to them.

use sp_core::sr25519;
use sp_core::Pair;
use sp_keyring::Sr25519Keyring;
use vstd::prelude::*;
use crate::primitives::{AccountId, Signature};

verus! {

/// The public key of the sr25519 key pair that is made from the 32 bytes `seed`.
pub uninterp spec fn sr25519_public_key(seed: Seq<u8>) -> Seq<u8>;

/// Whether `signature` is accepted as an sr25519 signature on `message` under the
/// public key `public`.
pub uninterp spec fn sr25519_verifies(
    signature: Seq<u8>,
    message: Seq<u8>,
    public: Seq<u8>,
) -> bool;

/// The public key of the chain's well-known, funded test account.
pub open spec fn master_public_key() -> Seq<u8> {
    seq![
        0xd4u8, 0x35, 0x93, 0xc7, 0x15, 0xfd, 0xd3, 0x1c, 0x61, 0x14, 0x1a, 0xbd, 0x04, 0xa9, 0x9f,
        0xd6, 0x82, 0x2c, 0x85, 0x58, 0x85, 0x4c, 0xcd, 0xe3, 0x9a, 0x56, 0x84, 0xe7, 0xa5, 0x6d,
        0xa2, 0x7d,
    ]
}

/// `sp_core`'s `sr25519::Pair::from_seed` followed by `public`: the public key
/// of the pair that the seed expands to. Every 32-byte seed gives a pair, and
/// the same seed the same pair.
#[verifier::external_body]
fn public_key_from_seed(seed: &[u8; 32]) -> (public: [u8; 32])
    ensures
        public@ == sr25519_public_key(seed@),
{
    sr25519::Pair::from_seed(seed).public().0
}

/// `sp_core`'s `sr25519::Pair::sign`, with the pair made from `seed`. The
/// signature differs from call to call, since signing draws fresh randomness;
/// each one is accepted on `message` under the seed's public key.
#[verifier::external_body]
fn sign_with_seed(seed: &[u8; 32], message: &[u8]) -> (signature: [u8; 64])
    ensures
        sr25519_verifies(signature@, message@, sr25519_public_key(seed@)),
{
    sr25519::Pair::from_seed(seed).sign(message).0
}

/// `sp_core`'s `sr25519::Pair::verify`: whether the signature is accepted on the
/// message under the public key. Bytes that are no signature or no public key
/// are reported as not accepted.
#[verifier::external_body]
fn verify_with_public_key(signature: &[u8; 64], message: &[u8], public: &[u8; 32]) -> (ok: bool)
    ensures
        ok == sr25519_verifies(signature@, message@, public@),
{
    sr25519::Pair::verify(
        &sr25519::Signature::from_raw(*signature),
        message,
        &sr25519::Public::from_raw(*public),
    )
}

/// The seed of `sp_keyring`'s `Sr25519Keyring::Alice`, as `sp_core`'s
/// `Pair::from_string_with_seed` derives it from that account's secret path: the
/// pair made from it has Alice's published public key.
#[verifier::external_body]
fn keyring_master_seed() -> (seed: [u8; 32])
    ensures
        sr25519_public_key(seed@) == master_public_key(),
{
    let path = Sr25519Keyring::Alice.to_seed();
    let derived = sr25519::Pair::from_string_with_seed(&path, None);
    derived.expect("the well-known path is valid").1.expect("a hard path yields a seed")
}

/// The capability to sign for one account: the key material and the public key
/// that belongs to it.
pub struct Secret {
    seed: [u8; 32],
    public: AccountId,
}

impl Secret {
    /// The key material.
    pub closed spec fn seed(self) -> Seq<u8> {
        self.seed@
    }

    /// The public key held beside the key material.
    pub closed spec fn public_key(self) -> Seq<u8> {
        self.public@
    }

    /// Whether the public key is the one that belongs to the key material.
    pub open spec fn wf(self) -> bool {
        self.public_key() == sr25519_public_key(self.seed())
    }

    /// Every key in use is well-formed.
    #[verifier::type_invariant]
    spec fn paired(self) -> bool {
        self.wf()
    }

    /// The key pair that `seed` expands to.
    pub fn from_seed(seed: [u8; 32]) -> (secret: Secret)
        ensures
            secret.wf(),
            secret.seed() == seed@,
    {
        let public = public_key_from_seed(&seed);
        Secret { seed, public }
    }

    /// The key pair of the well-known test account.
    pub fn master() -> (secret: Secret)
        ensures
            secret.wf(),
            secret.public_key() == master_public_key(),
    {
        Secret::from_seed(keyring_master_seed())
    }

    /// The account that the key signs for.
    pub fn public(&self) -> (id: AccountId)
        ensures
            id@ == self.public_key(),
            id@ == sr25519_public_key(self.seed()),
    {
        proof {
            use_type_invariant(self);
        }
        self.public
    }

    /// Signs `message`. The signature is accepted on `message` under the key's
    /// public half; two calls give different signatures.
    pub fn sign(&self, message: &[u8]) -> (signature: Signature)
        ensures
            sr25519_verifies(signature@, message@, self.public_key()),
    {
        proof {
            use_type_invariant(self);
        }
        sign_with_seed(&self.seed, message)
    }
}

impl Clone for Secret {
    fn clone(&self) -> (copy: Self)
        ensures
            copy == *self,
    {
        proof {
            use_type_invariant(self);
        }
        Secret { seed: self.seed, public: self.public }
    }
}

/// Whether `signature` is accepted on `message` under the public key of
/// `account`.
pub fn verify(signature: &Signature, message: &[u8], account: &AccountId) -> (ok: bool)
    ensures
        ok == sr25519_verifies(signature@, message@, account@),
{
    verify_with_public_key(signature, message, account)
}

} // verus!
