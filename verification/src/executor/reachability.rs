use vstd::prelude::*;

verus! {

/// The endpoints that a probe tries to reach, in this order.
pub const ENDPOINTS: [&'static str; 3] = ["1.1.1.1:80", "8.8.8.8:53", "google.com:80"];

/// The milliseconds that a probe waits for one endpoint.
pub const PROBE_TIMEOUT: u64 = 100;

/// A probe of whether the internet can be reached: the endpoints are tried one after
/// another until one answers. The value says which endpoint is to be tried next, or
/// what the probe has found.
#[derive(Debug, Clone, Copy, PartialEq, Eq, Structural)]
pub enum Reachability {
    /// The endpoint of this index is to be tried; none before it has answered.
    Trying(usize),
    /// The probe is over: the internet can be reached, or it cannot.
    Decided(bool),
}

impl Reachability {
    /// The probe after the endpoint to be tried was reached or not. The first endpoint
    /// that answers decides that the internet can be reached; the last that does not
    /// decides that it cannot. A probe that is over stays as it is.
    pub open spec fn next(self, reached: bool) -> Reachability {
        match self {
            Reachability::Trying(i) => if reached {
                Reachability::Decided(true)
            } else if i + 1 < ENDPOINTS@.len() {
                Reachability::Trying((i + 1) as usize)
            } else {
                Reachability::Decided(false)
            },
            Reachability::Decided(verdict) => Reachability::Decided(verdict),
        }
    }

    /// The probe after the endpoints were tried with these results, one after another.
    pub open spec fn after(self, results: Seq<bool>) -> Reachability
        decreases results.len(),
    {
        if results.len() == 0 {
            self
        } else {
            self.after(results.drop_last()).next(results.last())
        }
    }

    /// A probe that has tried nothing yet.
    pub fn new() -> (probe: Self)
        ensures
            probe == Reachability::Trying(0),
    {
        Reachability::Trying(0)
    }

    /// The endpoint that the host is to try next; none once the probe is over.
    pub fn pending(&self) -> (endpoint: Option<&'static str>)
        ensures
            match *self {
                Reachability::Trying(i) => if i < ENDPOINTS@.len() {
                    endpoint == Some(ENDPOINTS@[i as int])
                } else {
                    endpoint.is_none()
                },
                Reachability::Decided(_) => endpoint.is_none(),
            },
    {
        match *self {
            Reachability::Trying(i) => if i < ENDPOINTS.len() {
                Some(ENDPOINTS[i])
            } else {
                None
            },
            Reachability::Decided(_) => None,
        }
    }

    /// What the probe has found; none while endpoints are left to try.
    pub fn verdict(&self) -> (found: Option<bool>)
        ensures
            match *self {
                Reachability::Trying(_) => found.is_none(),
                Reachability::Decided(verdict) => found == Some(verdict),
            },
    {
        match *self {
            Reachability::Trying(_) => None,
            Reachability::Decided(verdict) => Some(verdict),
        }
    }

    /// Takes the result of trying the pending endpoint and moves on.
    pub fn advance(self, reached: bool) -> (probe: Self)
        ensures
            probe == self.next(reached),
    {
        match self {
            Reachability::Trying(i) => if reached {
                Reachability::Decided(true)
            } else if i < ENDPOINTS.len() - 1 {
                Reachability::Trying(i + 1)
            } else {
                Reachability::Decided(false)
            },
            Reachability::Decided(verdict) => Reachability::Decided(verdict),
        }
    }
}

/// Once every endpoint has its result the probe is over, and the internet counts as
/// reachable exactly if one of them answered. Results behind the first endpoint that
/// answered are of no account: the probe was over before they could be asked for.
pub proof fn lemma_reachable_iff_an_endpoint_answers(results: Seq<bool>)
    requires
        results.len() == ENDPOINTS@.len(),
    ensures
        Reachability::Trying(0).after(results) == Reachability::Decided(
            exists|i: int| 0 <= i < results.len() && results[i],
        ),
        forall|k: int|
            0 <= k < results.len() && results[k] ==> #[trigger] Reachability::Trying(0).after(
                results.take(k + 1),
            ) == Reachability::Decided(true),
{
    let start = Reachability::Trying(0);
    assert(ENDPOINTS@.len() == 3);
    let first = start.after(results.take(1));
    let second = start.after(results.take(2));
    assert(start.after(results.take(0)) == start);
    assert(results.take(1).drop_last() == results.take(0));
    assert(first == start.next(results[0]));
    assert(results.take(2).drop_last() == results.take(1));
    assert(second == first.next(results[1]));
    assert(results.take(3).drop_last() == results.take(2));
    assert(results.take(3) == results);
    assert(start.after(results) == second.next(results[2]));
    if results[0] || results[1] || results[2] {
        assert(exists|i: int| 0 <= i < results.len() && results[i]);
    }
    assert forall|k: int| 0 <= k < results.len() && results[k] implies #[trigger] start.after(
        results.take(k + 1),
    ) == Reachability::Decided(true) by {
        assert(k == 0 || k == 1 || k == 2);
    }
}

} // verus!
