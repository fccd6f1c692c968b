//! The totally ordered election token.
use vstd::prelude::*;
use vstd::std_specs::cmp::PartialOrdSpec;

verus! {

/// Identifies an epoch of leadership: a ballot number `n`, with the pid of the
/// process that holds it as a tie breaker.
#[derive(Clone, Copy, Debug, PartialEq, Eq, Structural, Ord)]
pub struct Ballot {
    /// Ballot number.
    pub n: u32,
    /// The pid of the process.
    pub pid: u64,
}

/// Strict lexicographic order on `(n, pid)`.
pub open spec fn lex_lt(a: Ballot, b: Ballot) -> bool {
    a.n < b.n || (a.n == b.n && a.pid < b.pid)
}

/// The order of two ballots, lexicographic on `(n, pid)`.
pub open spec fn ballot_cmp(a: Ballot, b: Ballot) -> core::cmp::Ordering {
    if lex_lt(a, b) {
        core::cmp::Ordering::Less
    } else if a == b {
        core::cmp::Ordering::Equal
    } else {
        core::cmp::Ordering::Greater
    }
}

/// The ballot `(0, 0)`, below every other.
pub open spec fn zero_ballot() -> Ballot {
    Ballot { n: 0, pid: 0 }
}

impl Ballot {
    /// Creates a new ballot with number `n`, using `pid` as tie breaker.
    pub fn with(n: u32, pid: u64) -> (r: Ballot)
        ensures
            r == (Ballot { n, pid }),
    {
        Ballot { n, pid }
    }
}

impl Default for Ballot {
    fn default() -> (r: Ballot)
        ensures
            r == zero_ballot(),
    {
        Ballot { n: 0, pid: 0 }
    }
}

impl PartialOrd for Ballot {
    fn partial_cmp(&self, other: &Ballot) -> (r: Option<core::cmp::Ordering>)
        ensures
            r == Some(ballot_cmp(*self, *other)),
    {
        if self.n < other.n || (self.n == other.n && self.pid < other.pid) {
            Some(core::cmp::Ordering::Less)
        } else if self.n == other.n && self.pid == other.pid {
            Some(core::cmp::Ordering::Equal)
        } else {
            Some(core::cmp::Ordering::Greater)
        }
    }
}

impl vstd::std_specs::cmp::PartialOrdSpecImpl for Ballot {
    open spec fn obeys_partial_cmp_spec() -> bool {
        true
    }

    open spec fn partial_cmp_spec(&self, other: &Ballot) -> Option<core::cmp::Ordering> {
        Some(ballot_cmp(*self, *other))
    }
}

/// Ballots are totally ordered, lexicographically on `(n, pid)`: `a < b`
/// holds exactly when `a.n < b.n`, or the numbers are equal and
/// `a.pid < b.pid`; and of two ballots exactly one of `a < b`, `a == b`,
/// `b < a` holds.
pub proof fn lemma_ballot_order_is_lexicographic(a: Ballot, b: Ballot)
    ensures
        (a.partial_cmp_spec(&b) == Some(core::cmp::Ordering::Less)) <==> (a.n < b.n || (a.n
            == b.n && a.pid < b.pid)),
        (a.partial_cmp_spec(&b) == Some(core::cmp::Ordering::Equal)) <==> a == b,
        (a.partial_cmp_spec(&b) == Some(core::cmp::Ordering::Less)) <==> (b.partial_cmp_spec(&a)
            == Some(core::cmp::Ordering::Greater)),
        lex_lt(a, b) || a == b || lex_lt(b, a),
        !(lex_lt(a, b) && lex_lt(b, a)),
{
}

} // verus!
