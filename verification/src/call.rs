//! The calls that a transaction can carry.

use vstd::prelude::*;
use crate::address::{Address, lemma_address_round_trip};
use crate::bytes::lemma_radix_values;
use crate::compact::{
    compact_encoding, compact_split, decode_compact_u128, decode_compact_u64,
    encode_compact_u128, encode_compact_u64, lemma_compact_round_trip,
};
use crate::primitives::{Balance, Moment};

verus! {

/// Where the timestamp module stands in the chain's dispatch table.
pub const TIMESTAMP_MODULE: u8 = 0;

/// Where setting the time stands among the timestamp module's calls.
pub const TIMESTAMP_SET: u8 = 0;

/// Where the balances module stands in the chain's dispatch table.
pub const BALANCES_MODULE: u8 = 3;

/// Where a transfer stands among the balances module's calls.
pub const BALANCES_TRANSFER: u8 = 0;

/// What a transaction asks the chain to do.
#[derive(Clone, Copy, Debug, PartialEq, Eq)]
pub enum Call {
    /// Set the chain's clock to `now`.
    SetTimestamp { now: Moment },
    /// Move `value` from the sender to `dest`.
    Transfer { dest: Address, value: Balance },
}

impl Call {
    /// The bytes that stand for the call: its place in the dispatch table, then
    /// its arguments in order, numbers in compact form.
    pub open spec fn encoding(self) -> Seq<u8> {
        match self {
            Call::SetTimestamp { now } => seq![TIMESTAMP_MODULE, TIMESTAMP_SET] + compact_encoding(
                now as nat,
            ),
            Call::Transfer { dest, value } => seq![BALANCES_MODULE, BALANCES_TRANSFER]
                + dest.encoding() + compact_encoding(value as nat),
        }
    }

    /// What a reader takes from the front of `input`: the call and the input
    /// that is left, or nothing where `input` does not start with one of the
    /// calls above.
    pub open spec fn decoding(input: Seq<u8>) -> Option<(Call, Seq<u8>)> {
        if input.len() < 2 {
            None
        } else if input[0] == TIMESTAMP_MODULE && input[1] == TIMESTAMP_SET {
            match compact_split(input.skip(2), 8) {
                Some((now, rest)) => Some((Call::SetTimestamp { now: now as u64 }, rest)),
                None => None,
            }
        } else if input[0] == BALANCES_MODULE && input[1] == BALANCES_TRANSFER {
            match Address::decoding(input.skip(2)) {
                Some((dest, after)) => match compact_split(after, 16) {
                    Some((value, rest)) => Some(
                        (Call::Transfer { dest, value: value as u128 }, rest),
                    ),
                    None => None,
                },
                None => None,
            }
        } else {
            None
        }
    }

    /// Appends the call's bytes to `out`.
    pub fn encode_to(&self, out: &mut Vec<u8>)
        ensures
            final(out)@ == old(out)@ + self.encoding(),
    {
        match self {
            Call::SetTimestamp { now } => {
                out.push(TIMESTAMP_MODULE);
                out.push(TIMESTAMP_SET);
                let mut number = encode_compact_u64(*now);
                out.append(&mut number);
                assert(out@ =~= old(out)@ + self.encoding());
            },
            Call::Transfer { dest, value } => {
                out.push(BALANCES_MODULE);
                out.push(BALANCES_TRANSFER);
                dest.encode_to(out);
                let mut number = encode_compact_u128(*value);
                out.append(&mut number);
                assert(out@ =~= old(out)@ + self.encoding());
            },
        }
    }

    /// Reads a call from the front of `input` and hands it back with the input
    /// that is left.
    pub fn decode<'a>(input: &'a [u8]) -> (r: Option<(Call, &'a [u8])>)
        ensures
            match r {
                Some((call, rest)) => Call::decoding(input@) == Some((call, rest@)),
                None => Call::decoding(input@) is None,
            },
    {
        if input.len() < 2 {
            return None;
        }
        let module = input[0];
        let function = input[1];
        let arguments = vstd::slice::slice_subrange(input, 2, input.len());
        if module == TIMESTAMP_MODULE && function == TIMESTAMP_SET {
            match decode_compact_u64(arguments) {
                Some((now, rest)) => Some((Call::SetTimestamp { now }, rest)),
                None => None,
            }
        } else if module == BALANCES_MODULE && function == BALANCES_TRANSFER {
            match Address::decode(arguments) {
                Some((dest, after)) => match decode_compact_u128(after) {
                    Some((value, rest)) => Some((Call::Transfer { dest, value }, rest)),
                    None => None,
                },
                None => None,
            }
        } else {
            None
        }
    }
}

/// Decoding reads back exactly the call that was encoded, whatever follows it.
pub proof fn lemma_call_round_trip(call: Call, rest: Seq<u8>)
    ensures
        Call::decoding(call.encoding() + rest) == Some((call, rest)),
{
    let input = call.encoding() + rest;
    lemma_radix_values();
    match call {
        Call::SetTimestamp { now } => {
            let number = compact_encoding(now as nat);
            assert(input.skip(2) =~= number + rest);
            lemma_compact_round_trip(now as nat, 8, rest);
            assert((number + rest).skip(number.len() as int) =~= rest);
        },
        Call::Transfer { dest, value } => {
            let number = compact_encoding(value as nat);
            assert(input.skip(2) =~= dest.encoding() + (number + rest));
            lemma_address_round_trip(dest, number + rest);
            lemma_compact_round_trip(value as nat, 16, rest);
            assert((number + rest).skip(number.len() as int) =~= rest);
        },
    }
}

} // verus!
