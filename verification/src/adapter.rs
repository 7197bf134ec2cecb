//! What a load generator needs from the chain: transactions to send, accounts to
//! send them from and to, and the chain's current figures.
//!
//! The figures (`minimum_balance`, `minimum_period`, `extract_index`,
//! `extract_phase`, `extract_timestamp`) are defaults for running without a
//! chain to ask; each can be replaced without touching the others or the
//! signing.

use std::time::{Duration, UNIX_EPOCH};
use vstd::prelude::*;
use crate::address::Address;
use crate::call::Call;
use crate::extrinsic::{CheckedExtrinsic, UncheckedExtrinsic};
use crate::keys::{Secret, master_public_key, sr25519_public_key};
use crate::primitives::{AccountId, Balance, BlockHash, Index, Moment, Phase};
use crate::seed::{gen_seed_bytes, seed_bytes};
use crate::signer::{mortal_era, sign};

verus! {

/// The time that has passed since the start of 1970 by the system's clock, as
/// std's `SystemTime::elapsed` on `UNIX_EPOCH` gives it; nothing where the
/// clock stands before that.
#[verifier::external_body]
fn time_since_epoch() -> (elapsed: Option<Duration>) {
    UNIX_EPOCH.elapsed().ok()
}

/// std's `Duration::as_secs`: the whole seconds of a span of time.
#[verifier::external_body]
fn whole_seconds(span: &Duration) -> (seconds: u64) {
    span.as_secs()
}

/// The smallest balance that keeps an account alive, as assumed without a chain
/// to ask.
pub const DEFAULT_MINIMUM_BALANCE: Balance = 1337;

/// The shortest time between two blocks, as assumed without a chain to ask.
pub const DEFAULT_MINIMUM_PERIOD: Moment = 99;

/// The public key of the account that `seed` stands for.
pub open spec fn derived_public_key(seed: u64) -> Seq<u8> {
    sr25519_public_key(seed_bytes(seed))
}

/// The call that moves `amount` to `destination`.
pub open spec fn transfer_call(destination: AccountId, amount: Balance) -> Call {
    Call::Transfer { dest: Address::Id(destination), value: amount }
}

/// The chain as a load generator sees it.
pub struct RuntimeAdapterImpl;

impl RuntimeAdapterImpl {
    /// A signed transfer of `amount` from `sender` to `destination`, with nonce
    /// `index`, valid for 256 blocks at `phase`, anchored at the block with hash
    /// `prior_block_hash` and signed with `key`.
    ///
    /// The signature is that of `key`. It is the sender's own where `key` is the
    /// sender's key.
    pub fn transfer_extrinsic(
        sender: &AccountId,
        key: &Secret,
        destination: &AccountId,
        amount: Balance,
        index: Index,
        phase: Phase,
        prior_block_hash: &BlockHash,
    ) -> (xt: UncheckedExtrinsic)
        ensures
            xt.function == transfer_call(*destination, amount),
            xt.signature matches Some((address, _, nonce, era)) && address == Address::Id(*sender)
                && nonce == index && era == mortal_era(phase),
            xt.signed_by(key.public_key(), *prior_block_hash),
            sender@ == key.public_key() ==> xt.signature_holds(*prior_block_hash),
            xt.wf(),
            UncheckedExtrinsic::decoding(xt.encoding()) == Some((xt, Seq::<u8>::empty())),
    {
        let intent = CheckedExtrinsic {
            signed: Some((*sender, index)),
            function: Call::Transfer { dest: Address::Id(*destination), value: amount },
        };
        sign(intent, key, prior_block_hash, phase)
    }

    /// The inherent that sets the chain's clock to `ts`. It carries no sender and
    /// no signature, whatever `key` is.
    pub fn timestamp_inherent(
        ts: Moment,
        key: Secret,
        phase: Phase,
        prior_block_hash: &BlockHash,
    ) -> (xt: UncheckedExtrinsic)
        ensures
            xt == (UncheckedExtrinsic { signature: None, function: Call::SetTimestamp { now: ts } }),
            UncheckedExtrinsic::decoding(xt.encoding()) == Some((xt, Seq::<u8>::empty())),
    {
        let intent = CheckedExtrinsic { signed: None, function: Call::SetTimestamp { now: ts } };
        sign(intent, &key, prior_block_hash, phase)
    }

    /// The smallest balance that keeps an account alive.
    pub fn minimum_balance() -> (balance: Balance)
        ensures
            balance == DEFAULT_MINIMUM_BALANCE,
    {
        DEFAULT_MINIMUM_BALANCE
    }

    /// The shortest time between two blocks.
    pub fn minimum_period() -> (period: Moment)
        ensures
            period == DEFAULT_MINIMUM_PERIOD,
    {
        DEFAULT_MINIMUM_PERIOD
    }

    /// The well-known account that holds the funds to hand out.
    pub fn master_account_id() -> (id: AccountId)
        ensures
            id@ == master_public_key(),
    {
        Secret::master().public()
    }

    /// The key of the well-known account that holds the funds to hand out.
    pub fn master_account_secret() -> (secret: Secret)
        ensures
            secret.wf(),
            secret.public_key() == master_public_key(),
    {
        Secret::master()
    }

    /// The account that `seed` stands for.
    pub fn gen_random_account_id(seed: u64) -> (id: AccountId)
        ensures
            id@ == derived_public_key(seed),
    {
        Secret::from_seed(gen_seed_bytes(seed)).public()
    }

    /// The key of the account that `seed` stands for.
    pub fn gen_random_account_secret(seed: u64) -> (secret: Secret)
        ensures
            secret.wf(),
            secret.seed() == seed_bytes(seed),
            secret.public_key() == derived_public_key(seed),
    {
        Secret::from_seed(gen_seed_bytes(seed))
    }

    /// The chain's time at the block with hash `_block_hash`. Without a chain to
    /// ask this is the system's clock, in whole seconds since the start of 1970,
    /// and zero where the clock stands before that.
    pub fn extract_timestamp(_block_hash: BlockHash) -> (now: Moment) {
        let reading = match time_since_epoch() {
            Some(span) => Some(whole_seconds(&span)),
            None => None,
        };
        timestamp_from_clock(reading)
    }

    /// The nonce of `_account_id` at the block with hash `_block_hash`. Without
    /// a chain to ask it is zero.
    pub fn extract_index(_account_id: AccountId, _block_hash: BlockHash) -> (index: Index)
        ensures
            index == 0,
    {
        0
    }

    /// The phase at the block with hash `_block_hash`. Without a chain to ask
    /// it is zero.
    pub fn extract_phase(_block_hash: BlockHash) -> (phase: Phase)
        ensures
            phase == 0,
    {
        0
    }
}

/// The chain's time that stands for a reading of the clock: the reading itself,
/// and zero where there is none.
pub open spec fn clock_timestamp(reading: Option<u64>) -> Moment {
    match reading {
        Some(seconds) => seconds,
        None => 0,
    }
}

/// The chain's time for a reading of the clock in whole seconds since the start
/// of 1970, where `None` is a clock that stands before that.
pub fn timestamp_from_clock(reading: Option<u64>) -> (now: Moment)
    ensures
        now == clock_timestamp(reading),
{
    match reading {
        Some(seconds) => seconds,
        None => 0,
    }
}

/// The account and the key that belong to one seed belong together: the key's
/// public half is the account.
pub proof fn lemma_derived_pair(seed: u64, id: AccountId, secret: Secret)
    requires
        id@ == derived_public_key(seed),
        secret.wf(),
        secret.seed() == seed_bytes(seed),
    ensures
        secret.public_key() == id@,
{
}

} // verus!
