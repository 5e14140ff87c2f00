//! Laws of the pool that relate several calls, or hold of all inputs.
use vstd::prelude::*;
use crate::attempt::AttemptFailure;
use crate::dispatch::{assigned_payload, can_plan};
use crate::pool::{admitted, failures_of, lemma_outcomes_split};

verus! {

/// Connecting is additive: collecting two rounds of outcomes, one after the
/// other, leaves the same live set as collecting both rounds at once, and the
/// live set grows by the successes of each round.
pub proof fn law_connect_is_additive<C>(
    start: Seq<C>,
    first: Seq<Result<C, AttemptFailure>>,
    second: Seq<Result<C, AttemptFailure>>,
)
    ensures
        start + admitted(first) + admitted(second) == start + admitted(first + second),
        (start + admitted(first) + admitted(second)).len() == start.len() + admitted(first).len()
            + admitted(second).len(),
        failures_of(first) + failures_of(second) == failures_of(first + second),
{
    lemma_admitted_concat(first, second);
    lemma_failures_concat(first, second);
    assert(start + admitted(first) + admitted(second) == start + (admitted(first) + admitted(
        second,
    )));
}

proof fn lemma_admitted_concat<C>(
    first: Seq<Result<C, AttemptFailure>>,
    second: Seq<Result<C, AttemptFailure>>,
)
    ensures
        admitted(first + second) == admitted(first) + admitted(second),
    decreases second.len(),
{
    if second.len() == 0 {
        assert(first + second == first);
        assert(admitted(first) + admitted(second) == admitted(first));
    } else {
        lemma_admitted_concat(first, second.drop_last());
        assert((first + second).drop_last() == first + second.drop_last());
        assert((first + second).last() == second.last());
        match second.last() {
            Ok(c) => {
                assert(admitted(first) + admitted(second.drop_last()).push(c) == (admitted(first)
                    + admitted(second.drop_last())).push(c));
            },
            Err(_) => {},
        }
    }
}

proof fn lemma_failures_concat<C>(
    first: Seq<Result<C, AttemptFailure>>,
    second: Seq<Result<C, AttemptFailure>>,
)
    ensures
        failures_of(first + second) == failures_of(first) + failures_of(second),
    decreases second.len(),
{
    if second.len() == 0 {
        assert(first + second == first);
        assert(failures_of(first) + failures_of(second) == failures_of(first));
    } else {
        lemma_failures_concat(first, second.drop_last());
        assert((first + second).drop_last() == first + second.drop_last());
        assert((first + second).last() == second.last());
        match second.last() {
            Ok(_) => {},
            Err(e) => {
                assert(failures_of(first) + failures_of(second.drop_last()).push(e) == (
                failures_of(first) + failures_of(second.drop_last())).push(e));
            },
        }
    }
}

/// When every attempt of a round succeeds, the live set grows by exactly the
/// number of attempts, and no failure is recorded.
pub proof fn law_all_succeed<C>(start: Seq<C>, outcomes: Seq<Result<C, AttemptFailure>>)
    requires
        forall|i: int| 0 <= i < outcomes.len() ==> #[trigger] outcomes[i] is Ok,
    ensures
        (start + admitted(outcomes)).len() == start.len() + outcomes.len(),
        failures_of(outcomes).len() == 0,
    decreases outcomes.len(),
{
    if outcomes.len() > 0 {
        let rest = outcomes.drop_last();
        assert forall|i: int| 0 <= i < rest.len() implies #[trigger] rest[i] is Ok by {
            assert(rest[i] == outcomes[i]);
        }
        law_all_succeed(start, rest);
        assert(outcomes[outcomes.len() - 1] is Ok);
    }
}

/// Failed attempts never enter the live set: with `K` failures among `N`
/// attempts, the live set grows by `N - K`.
pub proof fn law_failures_are_left_out<C>(start: Seq<C>, outcomes: Seq<Result<C, AttemptFailure>>)
    ensures
        (start + admitted(outcomes)).len() == start.len() + outcomes.len() - failures_of(
            outcomes,
        ).len(),
{
    lemma_outcomes_split(outcomes);
}

/// A send on a pool with no live connection can always be planned,
/// whatever the payload count.
pub proof fn law_send_on_empty_pool(payload_count: nat)
    ensures
        can_plan(0, payload_count as int),
{
}

/// With one payload every live connection is sent that payload; with as many
/// payloads as live connections each connection is sent its own.
pub proof fn law_broadcast_and_bijective(live_count: nat, position: nat)
    requires
        position < live_count,
    ensures
        assigned_payload(position as int, 1) == 0,
        assigned_payload(position as int, live_count as int) == position,
{
    vstd::arithmetic::div_mod::lemma_small_mod(position, live_count);
}

} // verus!
