//! Little-endian byte strings and the numbers they stand for.

use vstd::prelude::*;

verus! {

/// `256^n`: the number of values that `n` bytes can hold.
pub open spec fn radix(n: nat) -> nat
    decreases n,
{
    if n == 0 {
        1
    } else {
        256 * radix((n - 1) as nat)
    }
}

/// The `n` low-order bytes of `v`, least significant first.
pub open spec fn le_bytes(v: nat, n: nat) -> Seq<u8>
    decreases n,
{
    if n == 0 {
        Seq::<u8>::empty()
    } else {
        seq![(v % 256) as u8] + le_bytes(v / 256, (n - 1) as nat)
    }
}

/// The number that `bytes` spells, least significant byte first.
pub open spec fn le_value(bytes: Seq<u8>) -> nat
    decreases bytes.len(),
{
    if bytes.len() == 0 {
        0
    } else {
        bytes[0] as nat + 256 * le_value(bytes.skip(1))
    }
}

/// How many bytes it takes to write `v` with no leading zero byte (none for zero).
pub open spec fn significant_bytes(v: nat) -> nat
    decreases v,
{
    if v == 0 {
        0
    } else {
        1 + significant_bytes(v / 256)
    }
}

/// The values of `256^n` for the widths that occur on the wire.
pub proof fn lemma_radix_values()
    ensures
        radix(0) == 1,
        radix(1) == 0x100,
        radix(2) == 0x1_0000,
        radix(3) == 0x100_0000,
        radix(4) == 0x1_0000_0000,
        radix(8) == 0x1_0000_0000_0000_0000,
        radix(16) == 0x1_0000_0000_0000_0000_0000_0000_0000_0000,
{
    reveal_with_fuel(radix, 17);
}

/// `256^n` is positive and grows with `n`.
pub proof fn lemma_radix_monotonic(a: nat, b: nat)
    requires
        a <= b,
    ensures
        0 < radix(a) <= radix(b),
    decreases b,
{
    if b == 0 {
    } else if a == b {
        lemma_radix_monotonic((a - 1) as nat, (b - 1) as nat);
    } else {
        lemma_radix_monotonic(a, (b - 1) as nat);
    }
}

/// Writing `n` bytes gives `n` bytes.
pub proof fn lemma_le_bytes_len(v: nat, n: nat)
    ensures
        le_bytes(v, n).len() == n,
    decreases n,
{
    if n > 0 {
        lemma_le_bytes_len(v / 256, (n - 1) as nat);
    }
}

/// Reading back the `n` bytes written for `v` gives `v`, provided `v` fits in them.
pub proof fn lemma_le_value_of_le_bytes(v: nat, n: nat)
    requires
        v < radix(n),
    ensures
        le_value(le_bytes(v, n)) == v,
    decreases n,
{
    if n > 0 {
        let tail = le_bytes(v / 256, (n - 1) as nat);
        let whole = le_bytes(v, n);
        lemma_le_bytes_len(v / 256, (n - 1) as nat);
        assert(whole.skip(1) =~= tail);
        lemma_le_value_of_le_bytes(v / 256, (n - 1) as nat);
    }
}

/// `significant_bytes(v)` bytes are enough for `v`, and one fewer is not.
pub proof fn lemma_significant_bytes_bounds(v: nat)
    ensures
        v < radix(significant_bytes(v)),
        v > 0 ==> radix((significant_bytes(v) - 1) as nat) <= v,
    decreases v,
{
    if v > 0 {
        lemma_significant_bytes_bounds(v / 256);
    }
}

/// A number below `256^n` has at most `n` significant bytes; one at or above it has more.
pub proof fn lemma_significant_bytes_fit(v: nat, n: nat)
    ensures
        v < radix(n) <==> significant_bytes(v) <= n,
    decreases n,
{
    if v == 0 {
        lemma_radix_monotonic(0, n);
    } else if n == 0 {
    } else {
        lemma_significant_bytes_fit(v / 256, (n - 1) as nat);
    }
}

} // verus!
