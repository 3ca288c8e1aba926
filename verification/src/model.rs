//! The probability model: how many trials one match is expected to cost.

use crate::search::ENCODED_LEN;
use crate::search::SearchSpec;
use vstd::arithmetic::mul::lemma_mul_inequality;
use vstd::prelude::*;

verus! {

/// 64 to the `n`: a uniformly random rendering shows a given `n`-byte
/// string at a given offset once in `pow64(n)` draws.
pub open spec fn pow64(n: nat) -> nat
    decreases n,
{
    if n == 0 {
        1
    } else {
        64 * pow64((n - 1) as nat)
    }
}

pub open spec fn is_ascii_letter(b: u8) -> bool {
    (65 <= b <= 90) || (97 <= b <= 122)
}

/// How many byte values satisfy one target byte: a letter compared
/// case-insensitively can be hit in either case, anything else only
/// exactly.
pub open spec fn case_factor(b: u8, case_sensitive: bool) -> nat {
    if !case_sensitive && is_ascii_letter(b) {
        2
    } else {
        1
    }
}

/// Product of the case factors over the whole target.
pub open spec fn case_mult(p: Seq<u8>, case_sensitive: bool) -> nat
    decreases p.len(),
{
    if p.len() == 0 {
        1
    } else {
        case_mult(p.drop_last(), case_sensitive) * case_factor(p.last(), case_sensitive)
    }
}

/// How many start offsets the window offers, capped at the length of the
/// rendering.
pub open spec fn window_positions(prefix_len: int, end: int) -> int {
    if 1 + end - prefix_len <= ENCODED_LEN {
        1 + end - prefix_len
    } else {
        ENCODED_LEN as int
    }
}

/// Expected trials per match.  Each window position is treated as an
/// independent chance to match; that overstates the probability where
/// windows overlap and is kept so as an explicit approximation.  The
/// division truncates.
pub open spec fn spec_trials_per_key(p: Seq<u8>, end: int, case_sensitive: bool) -> int {
    pow64(p.len()) as int / (window_positions(p.len() as int, end) * case_mult(
        p,
        case_sensitive,
    ) as int)
}

proof fn lemma_pow64_mono(a: nat, b: nat)
    requires
        a <= b,
    ensures
        pow64(a) <= pow64(b),
    decreases b,
{
    if a < b {
        lemma_pow64_mono(a, (b - 1) as nat);
    }
}

proof fn lemma_pow64_values()
    ensures
        pow64(20) == 0x1000000000000000000000000000000,
        pow64(21) == 0x40000000000000000000000000000000,
{
    reveal_with_fuel(pow64, 22);
}

proof fn lemma_case_mult_bound(p: Seq<u8>, case_sensitive: bool)
    ensures
        1 <= case_mult(p, case_sensitive) <= pow64(p.len()),
    decreases p.len(),
{
    if p.len() > 0 {
        lemma_case_mult_bound(p.drop_last(), case_sensitive);
    }
}

/// Expected trials per match for a validated search spec.  The target may
/// hold at most 21 bytes, so that 64 to its length fits the machine
/// arithmetic.
pub fn trials_per_key(spec: &SearchSpec) -> (r: u128)
    requires
        spec.wf(),
        spec.prefix@.len() <= 21,
    ensures
        r == spec_trials_per_key(spec.prefix@, spec.end as int, spec.case_sensitive),
{
    let len = spec.prefix.len();
    let avail = spec.end - len + 1;
    let offsets: u128 = if avail > ENCODED_LEN {
        ENCODED_LEN as u128
    } else {
        avail as u128
    };
    assert(offsets == window_positions(len as int, spec.end as int));
    assert(spec.prefix@.take(0).len() == 0);
    assert(case_mult(spec.prefix@.take(0), spec.case_sensitive) == 1);
    let mut num: u128 = offsets;
    let mut denom: u128 = 1;
    let mut i: usize = 0;
    while i < len
        invariant
            spec.wf(),
            spec.prefix@.len() <= 21,
            len == spec.prefix@.len(),
            0 <= i <= len,
            1 <= offsets <= 44,
            offsets == window_positions(len as int, spec.end as int),
            denom == pow64(i as nat),
            num == offsets * case_mult(spec.prefix@.take(i as int), spec.case_sensitive),
            num >= 1,
        decreases len - i,
    {
        let ghost prev = spec.prefix@.take(i as int);
        let ghost nxt = spec.prefix@.take(i + 1);
        let c = spec.prefix[i];
        let ghost cm = case_mult(prev, spec.case_sensitive);
        proof {
            lemma_pow64_mono((i + 1) as nat, 21);
            lemma_pow64_mono(i as nat, 20);
            lemma_pow64_values();
            lemma_case_mult_bound(prev, spec.case_sensitive);
            lemma_mul_inequality(offsets as int, 44, cm as int);
            lemma_mul_inequality(cm as int, pow64(i as nat) as int, 44);
            assert(nxt.drop_last() =~= prev);
            assert(nxt.last() == c);
            assert(case_mult(nxt, spec.case_sensitive) == cm * case_factor(
                c,
                spec.case_sensitive,
            ));
        }
        if !spec.case_sensitive && ((65 <= c && c <= 90) || (97 <= c && c <= 122)) {
            proof {
                assert(case_factor(c, spec.case_sensitive) == 2);
                assert((offsets * cm) * 2 == offsets * (cm * 2)) by (nonlinear_arith);
            }
            num = num * 2;
        } else {
            proof {
                assert(case_factor(c, spec.case_sensitive) == 1);
            }
        }
        denom = denom * 64;
        i = i + 1;
    }
    proof {
        assert(spec.prefix@.take(len as int) =~= spec.prefix@);
    }
    denom / num
}

/// The model is a pure function of the search spec: two calls on specs
/// with the same content yield the identical estimate.
pub proof fn lemma_model_deterministic(a: SearchSpec, b: SearchSpec)
    requires
        a.prefix@ == b.prefix@,
        a.end == b.end,
        a.case_sensitive == b.case_sensitive,
    ensures
        spec_trials_per_key(a.prefix@, a.end as int, a.case_sensitive) == spec_trials_per_key(
            b.prefix@,
            b.end as int,
            b.case_sensitive,
        ),
{
}

} // verus!
