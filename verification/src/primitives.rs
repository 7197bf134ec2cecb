//! The plain values that transactions are made of.

use vstd::prelude::*;

verus! {

/// The public identifier of an account: the 32 bytes of its public key.
pub type AccountId = [u8; 32];

/// The hash of a block.
pub type BlockHash = [u8; 32];

/// A signature over a transaction's signing payload.
pub type Signature = [u8; 64];

/// An amount of funds.
pub type Balance = u128;

/// A point in time, in seconds since the Unix epoch.
pub type Moment = u64;

/// The number of transactions an account has sent before this one.
pub type Index = u64;

/// A position in the cycle of validity windows.
pub type Phase = u64;

/// The array of `N` bytes whose content is `bytes`.
pub open spec fn array_of<const N: usize>(bytes: Seq<u8>) -> [u8; N] {
    choose|a: [u8; N]| a@ == bytes
}

/// What a reader of `N` raw bytes takes from the front of `input`.
pub open spec fn fixed_decoding<const N: usize>(input: Seq<u8>) -> Option<([u8; N], Seq<u8>)> {
    if input.len() < N {
        None
    } else {
        Some((array_of::<N>(input.subrange(0, N as int)), input.skip(N as int)))
    }
}

/// An array is the only array with its content.
pub proof fn lemma_array_of_view<const N: usize>(a: [u8; N])
    ensures
        array_of::<N>(a@) == a,
{
    let b = array_of::<N>(a@);
    assert(b@ == a@);
    assert(b =~= a);
}

/// Reading `N` raw bytes gives back the array that was written, whatever follows.
pub proof fn lemma_fixed_round_trip<const N: usize>(a: [u8; N], rest: Seq<u8>)
    ensures
        fixed_decoding::<N>(a@ + rest) == Some((a, rest)),
{
    let input = a@ + rest;
    assert(input.subrange(0, N as int) =~= a@);
    assert(input.skip(N as int) =~= rest);
    lemma_array_of_view(a);
}

/// Reads `N` raw bytes from the front of `input` and hands them back with the
/// input that is left.
pub fn read_fixed<'a, const N: usize>(input: &'a [u8]) -> (r: Option<([u8; N], &'a [u8])>)
    ensures
        match r {
            Some((a, rest)) => fixed_decoding::<N>(input@) == Some((a, rest@)),
            None => fixed_decoding::<N>(input@) is None,
        },
{
    if input.len() < N {
        return None;
    }
    let mut a: [u8; N] = vstd::array::array_fill_for_copy_types(0u8);
    let mut i: usize = 0;
    while i < N
        invariant
            i <= N <= input.len(),
            forall|j: int| 0 <= j < i ==> a[j] == input[j],
        decreases N - i,
    {
        a[i] = input[i];
        i = i + 1;
    }
    proof {
        assert(a@ =~= input@.subrange(0, N as int));
        lemma_array_of_view(a);
    }
    let rest = vstd::slice::slice_subrange(input, N, input.len());
    Some((a, rest))
}

} // verus!
