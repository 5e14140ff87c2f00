//! Round-robin assignment of payloads to live connections, and the summary
//! of the writes that follow it.
use vstd::prelude::*;

verus! {

/// Why a send could not be planned.
#[derive(Clone, Copy, Debug, PartialEq, Eq, Structural)]
pub enum SendError {
    /// There are live connections but no payload to give them.
    NoPayloads,
}

/// The payload index that round-robin dispatch gives to the connection at
/// `position` when there are `payload_count` payloads.
pub open spec fn assigned_payload(position: int, payload_count: int) -> int {
    position % payload_count
}

/// A send can be planned when nothing is live or there is at least one payload.
pub open spec fn can_plan(live_count: int, payload_count: int) -> bool {
    live_count == 0 || payload_count > 0
}

/// The payload index for each live connection, in live-set order: the
/// connection at position `i` gets payload `i mod payload_count`.
///
/// With no live connections the plan is empty, whatever the payloads. With
/// live connections and no payloads the send is refused with `NoPayloads`.
pub fn round_robin_plan(live_count: usize, payload_count: usize) -> (r: Result<Vec<usize>, SendError>)
    ensures
        r is Ok <==> can_plan(live_count as int, payload_count as int),
        r is Err ==> r == Err::<Vec<usize>, SendError>(SendError::NoPayloads),
        r matches Ok(plan) ==> {
            &&& plan@.len() == live_count
            &&& forall|i: int|
                0 <= i < live_count ==> plan@[i] == assigned_payload(i, payload_count as int)
        },
{
    if live_count > 0 && payload_count == 0 {
        return Err(SendError::NoPayloads);
    }
    let mut plan: Vec<usize> = Vec::with_capacity(live_count);
    let mut next: usize = 0;
    let mut i: usize = 0;
    while i < live_count
        invariant
            i <= live_count,
            live_count > 0 ==> payload_count > 0,
            plan@.len() == i,
            i < live_count ==> next == assigned_payload(i as int, payload_count as int),
            forall|j: int| 0 <= j < i ==> plan@[j] == assigned_payload(j, payload_count as int),
        decreases live_count - i,
    {
        plan.push(next);
        proof {
            lemma_cyclic_step(i as int, payload_count as int);
        }
        next = if next + 1 == payload_count { 0 } else { next + 1 };
        i = i + 1;
    }
    Ok(plan)
}

/// Stepping one position on moves the assigned index one on, wrapping to
/// zero at the payload count.
proof fn lemma_cyclic_step(i: int, m: int)
    requires
        0 <= i,
        0 < m,
    ensures
        assigned_payload(i + 1, m) == if assigned_payload(i, m) + 1 == m {
            0
        } else {
            assigned_payload(i, m) + 1
        },
{
    let q = i / m;
    let r = i % m;
    vstd::arithmetic::div_mod::lemma_fundamental_div_mod(i, m);
    vstd::arithmetic::div_mod::lemma_mod_bound(i, m);
    if r + 1 < m {
        vstd::arithmetic::div_mod::lemma_fundamental_div_mod_converse(i + 1, m, q, r + 1);
    } else {
        assert(i + 1 == (q + 1) * m + 0) by (nonlinear_arith)
            requires
                i == m * q + r,
                r + 1 == m,
        ;
        vstd::arithmetic::div_mod::lemma_fundamental_div_mod_converse(i + 1, m, q + 1, 0);
    }
}

/// What came of one send: how many writes completed, and the live-set
/// positions of the connections whose write failed, in increasing order.
#[derive(Debug)]
pub struct SendReport {
    pub delivered: usize,
    pub failed: Vec<usize>,
}

/// The positions, in increasing order, at which a write did not complete.
pub open spec fn failed_positions(written: Seq<bool>) -> Seq<usize>
    decreases written.len(),
{
    if written.len() == 0 {
        Seq::empty()
    } else {
        let earlier = failed_positions(written.drop_last());
        if written.last() {
            earlier
        } else {
            earlier.push((written.len() - 1) as usize)
        }
    }
}

/// Folds the per-connection write results of one send into a report. A
/// failed write is recorded by its position; it does not hide the others.
pub fn summarize_writes(written: &Vec<bool>) -> (r: SendReport)
    ensures
        r.failed@ == failed_positions(written@),
        r.delivered + r.failed@.len() == written@.len(),
{
    let mut failed: Vec<usize> = Vec::new();
    let mut delivered: usize = 0;
    let mut i: usize = 0;
    while i < written.len()
        invariant
            i <= written@.len(),
            failed@ == failed_positions(written@.take(i as int)),
            delivered + failed@.len() == i,
        decreases written@.len() - i,
    {
        proof {
            assert(written@.take(i + 1).drop_last() == written@.take(i as int));
        }
        if written[i] {
            delivered = delivered + 1;
        } else {
            failed.push(i);
        }
        i = i + 1;
    }
    assert(written@.take(written@.len() as int) == written@);
    SendReport { delivered, failed }
}

} // verus!
