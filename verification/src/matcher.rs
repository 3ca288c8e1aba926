//! Positional, optionally case-insensitive substring test against the
//! start of an encoded public key.

use vstd::prelude::*;

verus! {

/// ASCII upper-case letters fold to lower case; every other byte is itself.
pub open spec fn fold_case(b: u8) -> u8 {
    if 65 <= b && b <= 90 {
        (b + 32) as u8
    } else {
        b
    }
}

/// One position of the comparison: exact equality when case-sensitive,
/// ASCII-case-folded equality otherwise.  A digit or a symbol still has to
/// match exactly under either rule, since folding leaves it unchanged.
pub open spec fn byte_matches(b: u8, c: u8, case_sensitive: bool) -> bool {
    if case_sensitive {
        b == c
    } else {
        fold_case(b) == fold_case(c)
    }
}

/// The target `p` occurs whole in `s` starting at offset `off`.
pub open spec fn match_at(s: Seq<u8>, p: Seq<u8>, off: int, case_sensitive: bool) -> bool {
    forall|i: int| 0 <= i < p.len() ==> byte_matches(s[off + i], p[i], case_sensitive)
}

/// The target `p` matches `s` within the window `[0, end)`: it occurs
/// whole at some offset `off` with `off + p.len() <= end`.
pub open spec fn match_in_window(s: Seq<u8>, p: Seq<u8>, end: int, case_sensitive: bool) -> bool {
    exists|off: int| 0 <= off && off + p.len() <= end && match_at(s, p, off, case_sensitive)
}

fn byte_eq(b: u8, c: u8, case_sensitive: bool) -> (r: bool)
    ensures
        r == byte_matches(b, c, case_sensitive),
{
    if case_sensitive {
        b == c
    } else {
        let fb: u8 = if 65 <= b && b <= 90 {
            b + 32
        } else {
            b
        };
        let fc: u8 = if 65 <= c && c <= 90 {
            c + 32
        } else {
            c
        };
        fb == fc
    }
}

fn match_at_offset(s: &[u8], p: &[u8], off: usize, case_sensitive: bool) -> (r: bool)
    requires
        off + p@.len() <= s@.len(),
    ensures
        r == match_at(s@, p@, off as int, case_sensitive),
{
    let n = s.len();
    let mut i: usize = 0;
    while i < p.len()
        invariant
            off + p@.len() <= s@.len(),
            n == s@.len(),
            0 <= i <= p@.len(),
            forall|j: int| 0 <= j < i ==> byte_matches(s@[off + j], p@[j], case_sensitive),
        decreases p@.len() - i,
    {
        if !byte_eq(s[off + i], p[i], case_sensitive) {
            assert(!byte_matches(s@[off + i as int], p@[i as int], case_sensitive));
            return false;
        }
        i = i + 1;
    }
    true
}

/// Does the target occur in the first `end` bytes of `s`, honoring the
/// case-sensitivity flag?  The window may be shorter than the target, in
/// which case nothing matches.
pub fn matches_in_window(s: &[u8], p: &[u8], end: usize, case_sensitive: bool) -> (r: bool)
    requires
        end <= s@.len(),
    ensures
        r == match_in_window(s@, p@, end as int, case_sensitive),
{
    if p.len() > end {
        proof {
            if match_in_window(s@, p@, end as int, case_sensitive) {
                let o = choose|off: int|
                    0 <= off && off + p@.len() <= end && match_at(
                        s@,
                        p@,
                        off,
                        case_sensitive,
                    );
                assert(false);
            }
        }
        return false;
    }
    let last = end - p.len();
    let mut off: usize = 0;
    while off <= last
        invariant
            end <= s@.len(),
            p@.len() <= end,
            last == end - p@.len(),
            0 <= off <= last + 1,
            forall|o: int| 0 <= o < off ==> !match_at(s@, p@, o, case_sensitive),
        decreases last + 1 - off,
    {
        if match_at_offset(s, p, off, case_sensitive) {
            assert(match_in_window(s@, p@, end as int, case_sensitive));
            return true;
        }
        off = off + 1;
    }
    proof {
        if match_in_window(s@, p@, end as int, case_sensitive) {
            let o = choose|o: int|
                0 <= o && o + p@.len() <= end && match_at(s@, p@, o, case_sensitive);
            assert(!match_at(s@, p@, o, case_sensitive));
        }
    }
    false
}

/// With the window exactly as long as the target, a match can only start
/// at offset 0: the search degenerates to a plain prefix test.
pub proof fn lemma_exact_window(s: Seq<u8>, p: Seq<u8>, case_sensitive: bool)
    ensures
        match_in_window(s, p, p.len() as int, case_sensitive) <==> match_at(
            s,
            p,
            0,
            case_sensitive,
        ),
{
    if match_in_window(s, p, p.len() as int, case_sensitive) {
        let o = choose|off: int|
            0 <= off && off + p.len() <= p.len() && match_at(s, p, off, case_sensitive);
        assert(o == 0);
    }
    if match_at(s, p, 0, case_sensitive) {
        assert(0 + p.len() <= p.len());
    }
}

} // verus!
