//! The pool: one fixed endpoint and the ordered set of live connections to it.
//!
//! The pool is generic over the connection handle `C`, which it owns and
//! never looks into. Attempts run outside and hand their outcomes to
//! [`ConnectionPool::collect_outcomes`]; sends are planned by
//! [`ConnectionPool::plan_send`] and written through
//! [`ConnectionPool::connections_mut`].
use vstd::prelude::*;
use crate::address::{first_address, ResolutionError, SocketAddress};
use crate::attempt::AttemptFailure;
use crate::dispatch::{round_robin_plan, can_plan, assigned_payload, SendError};

verus! {

/// Where a pool connects: one resolved address, and for a TLS pool the
/// domain name that the peer's certificate must carry.
#[derive(Debug)]
pub struct Endpoint {
    pub address: SocketAddress,
    pub domain: Option<String>,
}

/// What came of one `connect`: how many attempts joined the live set, and
/// why each of the others did not, in the order the outcomes were given.
#[derive(Debug)]
pub struct ConnectReport {
    pub succeeded: usize,
    pub failures: Vec<AttemptFailure>,
}

/// The handles of the attempts that succeeded, in the order given.
pub open spec fn admitted<C>(outcomes: Seq<Result<C, AttemptFailure>>) -> Seq<C>
    decreases outcomes.len(),
{
    if outcomes.len() == 0 {
        Seq::empty()
    } else {
        let earlier = admitted(outcomes.drop_last());
        match outcomes.last() {
            Ok(c) => earlier.push(c),
            Err(_) => earlier,
        }
    }
}

/// The failures among the outcomes, in the order given.
pub open spec fn failures_of<C>(outcomes: Seq<Result<C, AttemptFailure>>) -> Seq<AttemptFailure>
    decreases outcomes.len(),
{
    if outcomes.len() == 0 {
        Seq::empty()
    } else {
        let earlier = failures_of(outcomes.drop_last());
        match outcomes.last() {
            Ok(_) => earlier,
            Err(e) => earlier.push(e),
        }
    }
}

/// Every outcome is either admitted or a failure.
pub proof fn lemma_outcomes_split<C>(outcomes: Seq<Result<C, AttemptFailure>>)
    ensures
        admitted(outcomes).len() + failures_of(outcomes).len() == outcomes.len(),
    decreases outcomes.len(),
{
    if outcomes.len() > 0 {
        lemma_outcomes_split(outcomes.drop_last());
    }
}

pub struct ConnectionPool<C> {
    endpoint: Endpoint,
    live: Vec<C>,
}

impl<C> ConnectionPool<C> {
    /// The live connections, in the order they were admitted.
    pub closed spec fn live(&self) -> Seq<C> {
        self.live@
    }

    /// The endpoint the pool was built for; it never changes.
    pub closed spec fn target(&self) -> Endpoint {
        self.endpoint
    }

    /// A pool for `endpoint` with no live connection: building a pool opens
    /// nothing.
    pub fn new(endpoint: Endpoint) -> (r: Self)
        ensures
            r.target() == endpoint,
            r.live() == Seq::<C>::empty(),
    {
        ConnectionPool { endpoint, live: Vec::new() }
    }

    /// A pool of plain TCP connections to `address`.
    pub fn plain(address: SocketAddress) -> (r: Self)
        ensures
            r.target() == (Endpoint { address, domain: None }),
            r.live() == Seq::<C>::empty(),
    {
        Self::new(Endpoint { address, domain: None })
    }

    /// A pool of TLS connections to `address` whose peer must present a
    /// certificate for `domain`.
    pub fn tls(address: SocketAddress, domain: String) -> (r: Self)
        ensures
            r.target() == (Endpoint { address, domain: Some(domain) }),
            r.live() == Seq::<C>::empty(),
    {
        Self::new(Endpoint { address, domain: Some(domain) })
    }

    /// A pool for the first of the addresses a lookup yielded, or
    /// `NoAddress` at once when it yielded none.
    pub fn from_candidates(candidates: &Vec<SocketAddress>, domain: Option<String>) -> (r: Result<
        Self,
        ResolutionError,
    >)
        ensures
            r is Ok <==> candidates@.len() > 0,
            r is Err ==> r->Err_0 == ResolutionError::NoAddress,
            r matches Ok(pool) ==> {
                &&& pool.target() == (Endpoint { address: candidates@[0], domain })
                &&& pool.live() == Seq::<C>::empty()
            },
    {
        match first_address(candidates) {
            Ok(address) => Ok(Self::new(Endpoint { address, domain })),
            Err(e) => Err(e),
        }
    }

    pub fn endpoint(&self) -> (r: &Endpoint)
        ensures
            *r == self.target(),
    {
        &self.endpoint
    }

    /// Whether each attempt ends with a TLS handshake.
    pub fn is_tls(&self) -> (r: bool)
        ensures
            r == self.target().domain is Some,
    {
        self.endpoint.domain.is_some()
    }

    /// The number of live connections.
    pub fn live_count(&self) -> (r: usize)
        ensures
            r == self.live().len(),
    {
        self.live.len()
    }

    /// Takes in the outcomes of one round of concurrent attempts. The
    /// successful ones are appended to the live set, after the connections
    /// already there; the failed ones are counted and dropped.
    pub fn collect_outcomes(&mut self, outcomes: Vec<Result<C, AttemptFailure>>) -> (r: ConnectReport)
        ensures
            final(self).live() == old(self).live() + admitted(outcomes@),
            final(self).target() == old(self).target(),
            r.succeeded == admitted(outcomes@).len(),
            r.failures@ == failures_of(outcomes@),
            r.succeeded + r.failures@.len() == outcomes@.len(),
    {
        let ghost start = self.live@;
        let ghost all = outcomes@;
        let total: usize = outcomes.len();
        let mut succeeded: usize = 0;
        let mut failures: Vec<AttemptFailure> = Vec::new();
        for o in it: outcomes.into_iter()
            invariant
                it.seq() == all,
                all.len() == total,
                self.live@ == start + admitted(all.take(it.index() as int)),
                self.endpoint == old(self).endpoint,
                failures@ == failures_of(all.take(it.index() as int)),
                succeeded == admitted(all.take(it.index() as int)).len(),
                succeeded + failures@.len() == it.index(),
        {
            proof {
                assert(it.index() < total);
                assert(all.take(it.index() + 1).drop_last() == all.take(it.index() as int));
            }
            match o {
                Ok(c) => {
                    self.live.push(c);
                    succeeded = succeeded + 1;
                },
                Err(e) => {
                    failures.push(e);
                },
            }
            proof {
                assert(self.live@ == start + admitted(all.take(it.index() + 1)));
            }
        }
        proof {
            assert(all.take(all.len() as int) == all);
            lemma_outcomes_split(all);
        }
        ConnectReport { succeeded, failures }
    }

    /// The payload index for each live connection, as round-robin dispatch
    /// gives it; refused only when connections are live and there is no
    /// payload.
    pub fn plan_send(&self, payload_count: usize) -> (r: Result<Vec<usize>, SendError>)
        ensures
            r is Ok <==> can_plan(self.live().len() as int, payload_count as int),
            r is Err ==> r->Err_0 == SendError::NoPayloads,
            r matches Ok(plan) ==> {
                &&& plan@.len() == self.live().len()
                &&& forall|i: int|
                    0 <= i < self.live().len() ==> plan@[i] == assigned_payload(
                        i,
                        payload_count as int,
                    )
            },
    {
        round_robin_plan(self.live.len(), payload_count)
    }

    /// The live connections, in live-set order, for writing. The set can be
    /// written through but not grown or shrunk.
    pub fn connections_mut(&mut self) -> (r: &mut [C])
        ensures
            r@ == old(self).live(),
            final(self).live() == final(r)@,
            final(self).target() == old(self).target(),
    {
        self.live.as_mut_slice()
    }
}

} // verus!
