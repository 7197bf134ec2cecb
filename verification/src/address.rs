//! How an account is named on the wire.

use vstd::prelude::*;
use crate::primitives::{AccountId, fixed_decoding, lemma_fixed_round_trip, read_fixed};

verus! {

/// The byte that announces a full account identifier.
pub const ID_TAG: u8 = 0xff;

/// The name of an account on the wire. Accounts are always named by their full
/// identifier; the short index form is neither written nor read.
#[derive(Clone, Copy, Debug, PartialEq, Eq)]
pub enum Address {
    /// The account with this identifier.
    Id(AccountId),
}

impl Address {
    /// The account that the address names.
    pub open spec fn account(self) -> AccountId {
        match self {
            Address::Id(id) => id,
        }
    }

    /// The bytes that stand for the address: the tag, then the identifier.
    pub open spec fn encoding(self) -> Seq<u8> {
        seq![ID_TAG] + self.account()@
    }

    /// What a reader takes from the front of `input`: the address and the
    /// input that is left, or nothing where `input` does not start with a
    /// tagged identifier.
    pub open spec fn decoding(input: Seq<u8>) -> Option<(Address, Seq<u8>)> {
        if input.len() == 0 || input[0] != ID_TAG {
            None
        } else {
            match fixed_decoding::<32>(input.skip(1)) {
                Some((id, rest)) => Some((Address::Id(id), rest)),
                None => None,
            }
        }
    }

    /// Appends the address's bytes to `out`.
    pub fn encode_to(&self, out: &mut Vec<u8>)
        ensures
            final(out)@ == old(out)@ + self.encoding(),
    {
        match self {
            Address::Id(id) => {
                out.push(ID_TAG);
                out.extend_from_slice(id.as_slice());
                assert(out@ =~= old(out)@ + self.encoding());
            },
        }
    }

    /// Reads an address from the front of `input` and hands it back with the
    /// input that is left.
    pub fn decode<'a>(input: &'a [u8]) -> (r: Option<(Address, &'a [u8])>)
        ensures
            match r {
                Some((address, rest)) => Address::decoding(input@) == Some((address, rest@)),
                None => Address::decoding(input@) is None,
            },
    {
        if input.len() == 0 || input[0] != ID_TAG {
            return None;
        }
        let tail = vstd::slice::slice_subrange(input, 1, input.len());
        match read_fixed::<32>(tail) {
            Some((id, rest)) => Some((Address::Id(id), rest)),
            None => None,
        }
    }
}

/// Decoding reads back exactly the address that was encoded, whatever follows it.
pub proof fn lemma_address_round_trip(address: Address, rest: Seq<u8>)
    ensures
        Address::decoding(address.encoding() + rest) == Some((address, rest)),
{
    let input = address.encoding() + rest;
    let id = address.account();
    assert(input[0] == ID_TAG);
    assert(input.skip(1) =~= id@ + rest);
    lemma_fixed_round_trip::<32>(id, rest);
}

} // verus!
