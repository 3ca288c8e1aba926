//! The search itself: what a trial is, when a keypair counts as a match,
//! and a bounded run of independent trials.

use crate::encoding::base64_of;
use crate::keys::Keypair;
use crate::matcher;
use vstd::prelude::*;

verus! {

/// Length of the base64 rendering of a 32-byte public key.
pub const ENCODED_LEN: usize = 44;

/// What a search looks for: a target byte string, the bound `end` of the
/// window `[0, end)` of the rendering in which it must occur whole, and
/// the case-sensitivity of the comparison.
#[derive(Debug)]
pub struct SearchSpec {
    pub prefix: Vec<u8>,
    pub end: usize,
    pub case_sensitive: bool,
}

/// Why a would-be search spec was rejected.
#[derive(Clone, Copy, Debug, PartialEq, Eq, Structural)]
pub enum SearchSpecError {
    /// The target string is empty.
    EmptyPrefix,
    /// The window is too short for the target to fit in it.
    WindowTooShort,
    /// The window reaches past the 44-byte rendering.
    WindowTooLong,
}

impl SearchSpec {
    /// The invariants a search runs under: a non-empty target that fits
    /// in the window, and a window that fits in the rendering.
    pub open spec fn wf(self) -> bool {
        1 <= self.prefix@.len() <= self.end <= ENCODED_LEN
    }

    /// Validate and build a search spec.  Exactly the specs that satisfy
    /// the invariants are accepted.
    pub fn new(prefix: Vec<u8>, end: usize, case_sensitive: bool) -> (r: Result<
        SearchSpec,
        SearchSpecError,
    >)
        ensures
            match r {
                Ok(s) => s.wf() && s.prefix@ == prefix@ && s.end == end && s.case_sensitive
                    == case_sensitive,
                Err(e) => match e {
                    SearchSpecError::EmptyPrefix => prefix@.len() == 0,
                    SearchSpecError::WindowTooShort => prefix@.len() >= 1 && end < prefix@.len(),
                    SearchSpecError::WindowTooLong => prefix@.len() >= 1 && prefix@.len() <= end
                        && end > ENCODED_LEN,
                },
            },
    {
        if prefix.len() == 0 {
            Err(SearchSpecError::EmptyPrefix)
        } else if end < prefix.len() {
            Err(SearchSpecError::WindowTooShort)
        } else if end > ENCODED_LEN {
            Err(SearchSpecError::WindowTooLong)
        } else {
            Ok(SearchSpec { prefix, end, case_sensitive })
        }
    }

    /// Does this keypair's encoded public key satisfy the search?
    pub open spec fn is_match(self, k: Keypair) -> bool {
        matcher::match_in_window(
            base64_of(k.public@),
            self.prefix@,
            self.end as int,
            self.case_sensitive,
        )
    }
}

/// The decision half of a trial: keep the keypair iff its rendering
/// matches the search spec.
pub fn evaluate_trial(k: Keypair, spec: &SearchSpec) -> (r: Option<Keypair>)
    requires
        spec.wf(),
    ensures
        r is Some <==> spec.is_match(k),
        r matches Some(m) ==> m == k,
{
    let encoded = k.encoded_public();
    if matcher::matches_in_window(
        encoded.as_slice(),
        spec.prefix.as_slice(),
        spec.end,
        spec.case_sensitive,
    ) {
        Some(k)
    } else {
        None
    }
}

/// One trial: draw a fresh keypair and keep it iff it matches.  A `None`
/// is the expected outcome, not a failure; the caller simply tries again.
pub fn trial(spec: &SearchSpec) -> (r: Option<Keypair>)
    requires
        spec.wf(),
    ensures
        r matches Some(m) ==> m.wf() && spec.is_match(m),
{
    evaluate_trial(Keypair::generate(), spec)
}

/// Run up to `max_trials` independent trials and return the first match
/// found, if any trial in the budget produced one.
pub fn search_bounded(spec: &SearchSpec, max_trials: u64) -> (r: Option<Keypair>)
    requires
        spec.wf(),
    ensures
        r matches Some(m) ==> m.wf() && spec.is_match(m),
{
    let mut i: u64 = 0;
    while i < max_trials
        invariant
            spec.wf(),
        decreases max_trials - i,
    {
        match trial(spec) {
            Some(k) => {
                return Some(k);
            },
            None => {},
        }
        i = i + 1;
    }
    None
}

} // verus!
