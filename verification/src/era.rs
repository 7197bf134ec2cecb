//! The validity window of a transaction.
//!
//! A mortal transaction is valid for `period` blocks, where `period` is a power
//! of two from 4 to 65536. Windows start at the block numbers that leave the
//! remainder `phase` when divided by `period`. On the wire a mortal era takes two
//! bytes, so phases of long periods are kept only to a multiple of
//! `period / 4096`.

use vstd::prelude::*;

verus! {

/// The longest validity window, in blocks.
pub const MAX_PERIOD: u64 = 65536;

/// The shortest validity window, in blocks.
pub const MIN_PERIOD: u64 = 4;

/// How long a transaction stays valid.
#[derive(Clone, Copy, Debug, PartialEq, Eq)]
pub enum Era {
    /// Valid forever.
    Immortal,
    /// Valid for `.0` blocks, in the window that starts at phase `.1`.
    Mortal(u64, u64),
}

/// `2^k`.
pub open spec fn two_to(k: nat) -> nat
    decreases k,
{
    if k == 0 {
        1
    } else {
        2 * two_to((k - 1) as nat)
    }
}

/// The number of times `p` can be halved before it reaches one.
pub open spec fn halvings(p: nat) -> nat
    decreases p,
{
    if p <= 1 {
        0
    } else {
        1 + halvings(p / 2)
    }
}

/// Whether `p` is a length that a window can have: a power of two from 4 to 65536.
pub open spec fn is_period(p: nat) -> bool {
    2 <= halvings(p) <= 16 && p == two_to(halvings(p))
}

/// The step between the phases that a window of `period` blocks can start at.
pub open spec fn quantize_factor(period: nat) -> nat {
    if period / 4096 > 1 {
        period / 4096
    } else {
        1
    }
}

/// Whether `p` is the window length chosen for a wish of `wanted` blocks: the
/// least valid length that is no shorter, or the longest one where none is.
pub open spec fn is_period_for(p: nat, wanted: nat) -> bool {
    &&& is_period(p)
    &&& wanted <= p || p == MAX_PERIOD
    &&& p == MIN_PERIOD || p / 2 < wanted
}

/// The window length chosen for a wish of `wanted` blocks.
pub open spec fn period_of(wanted: nat) -> nat {
    choose|p: nat| is_period_for(p, wanted)
}

/// The phase of the window of `period` blocks that block `current` falls in.
pub open spec fn quantized_phase(period: nat, current: nat) -> nat {
    (current % period) / quantize_factor(period) * quantize_factor(period)
}

/// The powers of two up to `2^16`.
pub proof fn lemma_two_to_values()
    ensures
        two_to(0) == 1,
        two_to(1) == 2,
        two_to(2) == 4,
        two_to(3) == 8,
        two_to(4) == 16,
        two_to(5) == 32,
        two_to(6) == 64,
        two_to(7) == 128,
        two_to(8) == 256,
        two_to(9) == 512,
        two_to(10) == 1024,
        two_to(11) == 2048,
        two_to(12) == 4096,
        two_to(13) == 8192,
        two_to(14) == 16384,
        two_to(15) == 32768,
        two_to(16) == 65536,
{
    reveal_with_fuel(two_to, 17);
}

/// Halving undoes doubling: `2^k` can be halved `k` times.
pub proof fn lemma_halvings_of_two_to(k: nat)
    ensures
        halvings(two_to(k)) == k,
        two_to(k) >= 1,
    decreases k,
{
    if k > 0 {
        lemma_halvings_of_two_to((k - 1) as nat);
        assert(two_to(k) / 2 == two_to((k - 1) as nat));
    }
}

/// The valid window lengths are exactly `2^2` to `2^16`.
pub proof fn lemma_is_period(p: nat)
    ensures
        is_period(p) <==> (p == 4 || p == 8 || p == 16 || p == 32 || p == 64 || p == 128 || p
            == 256 || p == 512 || p == 1024 || p == 2048 || p == 4096 || p == 8192 || p == 16384
            || p == 32768 || p == 65536),
{
    lemma_two_to_values();
    if is_period(p) {
        let k = halvings(p);
        assert(2 <= k <= 16);
    } else {
        lemma_halvings_of_two_to(2);
        lemma_halvings_of_two_to(3);
        lemma_halvings_of_two_to(4);
        lemma_halvings_of_two_to(5);
        lemma_halvings_of_two_to(6);
        lemma_halvings_of_two_to(7);
        lemma_halvings_of_two_to(8);
        lemma_halvings_of_two_to(9);
        lemma_halvings_of_two_to(10);
        lemma_halvings_of_two_to(11);
        lemma_halvings_of_two_to(12);
        lemma_halvings_of_two_to(13);
        lemma_halvings_of_two_to(14);
        lemma_halvings_of_two_to(15);
        lemma_halvings_of_two_to(16);
    }
}

/// For every wish there is exactly one window length.
pub proof fn lemma_period_unique(p: nat, q: nat, wanted: nat)
    requires
        is_period_for(p, wanted),
        is_period_for(q, wanted),
    ensures
        p == q,
{
    lemma_is_period(p);
    lemma_is_period(q);
}

/// A length that meets the conditions for a wish is the one chosen for it.
pub proof fn lemma_period_of(p: nat, wanted: nat)
    requires
        is_period_for(p, wanted),
    ensures
        period_of(wanted) == p,
{
    lemma_period_unique(period_of(wanted), p, wanted);
}

/// A valid window length is the one chosen for a wish of just that length.
pub proof fn lemma_period_of_period(p: nat)
    requires
        is_period(p),
    ensures
        period_of(p) == p,
{
    lemma_is_period(p);
    lemma_period_of(p, p);
}

impl Era {
    /// Whether the era can be written on the wire: a mortal era has a valid
    /// window length and a phase that lies in the window, on one of its steps.
    pub open spec fn wf(self) -> bool {
        match self {
            Era::Immortal => true,
            Era::Mortal(period, phase) => {
                &&& is_period(period as nat)
                &&& phase < period
                &&& phase as nat % quantize_factor(period as nat) == 0
            },
        }
    }

    /// The mortal era for a wish of `period` blocks around block `current`: the
    /// window length chosen for the wish, and the phase of `current` in it.
    pub open spec fn mortal_for(period: u64, current: u64) -> Era {
        let p = period_of(period as nat);
        Era::Mortal(p as u64, quantized_phase(p, current as nat) as u64)
    }

    /// The two-byte number that stands for a mortal era: the window length in
    /// the low four bits, as one less than its exponent, and above them the
    /// phase in steps.
    pub open spec fn mortal_code(period: nat, phase: nat) -> nat {
        (halvings(period) - 1) as nat + 16 * (phase / quantize_factor(period))
    }

    /// The bytes that stand for the era: a single zero for an immortal one, the
    /// two bytes of its code, low byte first, for a mortal one.
    pub open spec fn encoding(self) -> Seq<u8> {
        match self {
            Era::Immortal => seq![0u8],
            Era::Mortal(period, phase) => {
                let code = Era::mortal_code(period as nat, phase as nat);
                seq![(code % 256) as u8, (code / 256) as u8]
            },
        }
    }

    /// What a reader takes from the front of `input`: the era and the input
    /// that is left, or nothing where `input` ends too soon or spells no era.
    pub open spec fn decoding(input: Seq<u8>) -> Option<(Era, Seq<u8>)> {
        if input.len() == 0 {
            None
        } else if input[0] == 0 {
            Some((Era::Immortal, input.skip(1)))
        } else if input.len() < 2 {
            None
        } else {
            let code = input[0] as nat + 256 * (input[1] as nat);
            let period = two_to(code % 16 + 1);
            let phase = (code / 16) * quantize_factor(period);
            if period >= 4 && phase < period {
                Some((Era::Mortal(period as u64, phase as u64), input.skip(2)))
            } else {
                None
            }
        }
    }

    /// A mortal era for a transaction made at block `current` that should live
    /// for `period` blocks. The window length is `period` rounded up to a power
    /// of two and kept between 4 and 65536; the phase is where `current` falls
    /// in that window, rounded down to a step.
    pub fn mortal(period: u64, current: u64) -> (era: Era)
        ensures
            era == Era::mortal_for(period, current),
            era.wf(),
    {
        let p = period_for(period);
        let step = step_of(p);
        let steps = (current % p) / step;
        proof {
            lemma_is_period(p as nat);
            lemma_whole_steps(steps as nat, step as nat, (current % p) as nat);
        }
        Era::Mortal(p, steps * step)
    }

    /// Whether the era can be written on the wire.
    pub fn is_well_formed(&self) -> (ok: bool)
        ensures
            ok == self.wf(),
    {
        match *self {
            Era::Immortal => true,
            Era::Mortal(period, phase) => {
                let p = period_for(period);
                proof {
                    if is_period(period as nat) {
                        lemma_period_of_period(period as nat);
                    }
                }
                p == period && phase < period && phase % step_of(period) == 0
            },
        }
    }

    /// Appends the era's bytes to `out`.
    pub fn encode_to(&self, out: &mut Vec<u8>)
        requires
            self.wf(),
        ensures
            final(out)@ == old(out)@ + self.encoding(),
    {
        match *self {
            Era::Immortal => {
                out.push(0);
                assert(out@ =~= old(out)@ + self.encoding());
            },
            Era::Mortal(period, phase) => {
                proof {
                    lemma_is_period(period as nat);
                    lemma_two_to_values();
                }
                let mut exponent: u64 = 0;
                let mut left: u64 = period;
                while left > 1
                    invariant
                        halvings(period as nat) == exponent + halvings(left as nat),
                        exponent <= 16,
                        halvings(period as nat) <= 16,
                    decreases left,
                {
                    left = left / 2;
                    exponent = exponent + 1;
                }
                let step = step_of(period);
                let steps = phase / step;
                assert(steps < 4096) by (nonlinear_arith)
                    requires
                        steps == phase / step,
                        step > 0,
                        phase < period,
                        period <= 4096 * step,
                ;
                let code: u64 = (exponent - 1) + 16 * steps;
                assert(code == Era::mortal_code(period as nat, phase as nat));
                out.push((code % 256) as u8);
                out.push((code / 256) as u8);
                assert(out@ =~= old(out)@ + self.encoding());
            },
        }
    }

    /// Reads an era from the front of `input` and hands it back with the input
    /// that is left.
    pub fn decode<'a>(input: &'a [u8]) -> (r: Option<(Era, &'a [u8])>)
        ensures
            match r {
                Some((era, rest)) => Era::decoding(input@) == Some((era, rest@)) && era.wf(),
                None => Era::decoding(input@) is None,
            },
    {
        if input.len() == 0 {
            return None;
        }
        let first = input[0];
        if first == 0 {
            let rest = vstd::slice::slice_subrange(input, 1, input.len());
            return Some((Era::Immortal, rest));
        }
        if input.len() < 2 {
            return None;
        }
        let code: u64 = first as u64 + 256 * (input[1] as u64);
        let low = code % 16;
        let mut period: u64 = 2;
        let mut doubled: u64 = 0;
        proof {
            lemma_two_to_values();
        }
        while doubled < low
            invariant
                doubled <= low < 16,
                period == two_to(doubled as nat + 1),
                period <= two_to(16),
                two_to(16) == 65536,
            decreases low - doubled,
        {
            proof {
                lemma_two_to_bound(doubled as nat + 2, 16);
            }
            period = period * 2;
            doubled = doubled + 1;
        }
        let step = step_of(period);
        let steps = code / 16;
        assert(steps < 4096);
        assert(step <= 16) by {
            lemma_two_to_values();
        }
        assert(steps * step <= 4096 * 16) by (nonlinear_arith)
            requires
                steps < 4096,
                step <= 16,
        ;
        let phase = steps * step;
        if period >= 4 && phase < period {
            proof {
                lemma_halvings_of_two_to(low as nat + 1);
                lemma_whole_steps(steps as nat, step as nat, phase as nat);
            }
            let rest = vstd::slice::slice_subrange(input, 2, input.len());
            Some((Era::Mortal(period, phase), rest))
        } else {
            None
        }
    }
}

/// The window length for a wish of `wanted` blocks: `wanted` rounded up to a
/// power of two and kept between 4 and 65536.
pub fn period_for(wanted: u64) -> (p: u64)
    ensures
        p == period_of(wanted as nat),
        is_period_for(p as nat, wanted as nat),
{
    let mut p: u64 = MIN_PERIOD;
    proof {
        lemma_is_period(p as nat);
    }
    while p < wanted && p < MAX_PERIOD
        invariant
            is_period(p as nat),
            p == MIN_PERIOD || p / 2 < wanted,
        decreases MAX_PERIOD - p,
    {
        proof {
            lemma_is_period(p as nat);
            lemma_is_period(2 * p as nat);
        }
        p = p * 2;
    }
    proof {
        lemma_is_period(p as nat);
        lemma_period_of(p as nat, wanted as nat);
    }
    p
}

/// The step between the phases that a window of `period` blocks can start at.
pub fn step_of(period: u64) -> (step: u64)
    ensures
        step == quantize_factor(period as nat),
        step >= 1,
{
    if period / 4096 > 1 {
        period / 4096
    } else {
        1
    }
}

/// A whole number of steps is a multiple of the step, and rounding down to a
/// step does not go up.
pub proof fn lemma_whole_steps(steps: nat, step: nat, from: nat)
    by (nonlinear_arith)
    requires
        step > 0,
        steps == from / step || from == steps * step,
    ensures
        (steps * step) % step == 0,
        steps * step <= from,
        from % step == 0 ==> steps * step == from,
{
}

/// Powers of two grow with the exponent.
pub proof fn lemma_two_to_bound(a: nat, b: nat)
    requires
        a <= b,
    ensures
        two_to(a) <= two_to(b),
    decreases b,
{
    if a < b {
        lemma_two_to_bound(a, (b - 1) as nat);
    }
}

/// Decoding reads back exactly the era that was encoded, whatever follows it.
pub proof fn lemma_era_round_trip(era: Era, rest: Seq<u8>)
    requires
        era.wf(),
    ensures
        Era::decoding(era.encoding() + rest) == Some((era, rest)),
{
    let input = era.encoding() + rest;
    match era {
        Era::Immortal => {
            assert(input[0] == 0);
            assert(input.skip(1) =~= rest);
        },
        Era::Mortal(period, phase) => {
            lemma_is_period(period as nat);
            lemma_two_to_values();
            let k = halvings(period as nat);
            let step = quantize_factor(period as nat);
            let steps = phase as nat / step;
            assert(steps < 4096) by (nonlinear_arith)
                requires
                    steps == phase as nat / step,
                    step > 0,
                    phase < period,
                    period <= 4096 * step,
            ;
            assert(steps * step == phase) by (nonlinear_arith)
                requires
                    steps == phase as nat / step,
                    step > 0,
                    phase as nat % step == 0,
            ;
            let code = Era::mortal_code(period as nat, phase as nat);
            assert(code == (k - 1) + 16 * steps);
            assert(input[0] as nat == code % 256);
            assert(input[1] as nat == code / 256);
            assert(input[0] as nat + 256 * (input[1] as nat) == code);
            assert(code % 16 == k - 1);
            assert(code / 16 == steps);
            assert(input[0] != 0);
            assert(two_to((k - 1) as nat + 1) == period);
            assert(input.skip(2) =~= rest);
        },
    }
}

} // verus!
