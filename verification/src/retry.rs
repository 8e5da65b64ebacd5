//! Bounded retry of a racing round.
//!
//! A retrier is told the outcome of each round and answers whether to stop
//! with a result, to run another round, or to give up. Rounds are strictly
//! sequential: a round is asked for only after the one before it is known
//! to have failed.

use vstd::prelude::*;
use vstd::string::*;
use crate::error::strings_view;
use crate::error::RegistryError;
use crate::error::RegistryErrorView;
use crate::querier::all_failed;
use crate::querier::is_success_of;
use crate::querier::may_all_fail;
use crate::querier::query_healthy;
use crate::querier::QueryContext;

verus! {

/// The number of rounds that the resolution of a chain's transport spends on
/// each protocol.
pub const MAX_HEALTHY_QUERY_RETRIES_EX: u8 = 5;

/// What a retrier answers to the outcome of a round.
pub enum RetryStep<O> {
    /// The round succeeded: stop with its output.
    Done(O),
    /// The round failed and the budget allows another one.
    Retry,
    /// The round failed and the budget is spent.
    GiveUp,
}

/// The answer to the outcome of one round, when `attempted` rounds have
/// failed before it and the budget is `retries` rounds.
pub open spec fn retry_step<O, E>(attempted: int, retries: int, outcome: Result<O, E>) -> RetryStep<
    O,
> {
    match outcome {
        Ok(output) => RetryStep::Done(output),
        Err(_) => if attempted + 1 < retries {
            RetryStep::Retry
        } else {
            RetryStep::GiveUp
        },
    }
}

/// The progress of a bounded retry: the budget, and the rounds whose
/// outcome is known.
pub struct Retrier {
    /// The number of rounds allowed.
    pub retries: u8,
    /// The number of rounds whose outcome was recorded.
    pub attempted: u8,
}

impl Retrier {
    /// A retrier with a budget of `retries` rounds, none attempted.
    pub fn new(retries: u8) -> (r: Retrier)
        ensures
            r.retries == retries,
            r.attempted == 0,
    {
        Retrier { retries, attempted: 0 }
    }

    /// Whether the budget allows a round now.
    pub fn wants_round(&self) -> (r: bool)
        ensures
            r == (self.attempted < self.retries),
    {
        self.attempted < self.retries
    }

    /// Records the outcome of the round that was just run, and answers what
    /// to do next.
    pub fn record<O, E>(&mut self, outcome: Result<O, E>) -> (step: RetryStep<O>)
        requires
            old(self).attempted < old(self).retries,
        ensures
            final(self).retries == old(self).retries,
            final(self).attempted == old(self).attempted + 1,
            step == retry_step(old(self).attempted as int, old(self).retries as int, outcome),
            step is Retry <==> outcome is Err && final(self).attempted < final(self).retries,
    {
        self.attempted = self.attempted + 1;
        match outcome {
            Ok(output) => RetryStep::Done(output),
            Err(_) => if self.attempted < self.retries {
                RetryStep::Retry
            } else {
                RetryStep::GiveUp
            },
        }
    }
}

/// Where every round fails, the retrier asks for exactly as many rounds as
/// the budget holds: it answers `Retry` to each round but the last of the
/// budget, and `GiveUp` to that one.
pub proof fn lemma_failing_rounds_spend_budget<O, E>(retries: int, outcomes: Seq<Result<O, E>>)
    requires
        1 <= retries,
        outcomes.len() == retries,
        all_failed(outcomes),
    ensures
        forall|i: int|
            0 <= i < retries - 1 ==> retry_step(i, retries, #[trigger] outcomes[i])
                == RetryStep::<O>::Retry,
        retry_step(retries - 1, retries, outcomes[retries - 1]) == RetryStep::<O>::GiveUp,
{
    assert forall|i: int| 0 <= i < retries - 1 implies retry_step(
        i,
        retries,
        #[trigger] outcomes[i],
    ) == RetryStep::<O>::Retry by {
        assert(outcomes[i] is Err);
    }
    assert(outcomes[retries - 1] is Err);
}

/// Where the rounds fail up to one that succeeds within the budget, the
/// retrier asks for the rounds before it, and answers `Done` with its
/// output to that one: no round is run after it.
pub proof fn lemma_success_ends_retry<O, E>(
    retries: int,
    outcomes: Seq<Result<O, E>>,
    k: int,
    output: O,
)
    requires
        1 <= k <= retries,
        outcomes.len() == k,
        all_failed(outcomes.take(k - 1)),
        outcomes[k - 1] == Ok::<O, E>(output),
    ensures
        forall|i: int|
            0 <= i < k - 1 ==> retry_step(i, retries, #[trigger] outcomes[i])
                == RetryStep::<O>::Retry,
        retry_step(k - 1, retries, outcomes[k - 1]) == RetryStep::Done(output),
{
    assert forall|i: int| 0 <= i < k - 1 implies retry_step(i, retries, #[trigger] outcomes[i])
        == RetryStep::<O>::Retry by {
        assert(outcomes.take(k - 1)[i] is Err);
    }
}

/// The error of a bounded retry that spent its budget: every endpoint that
/// was tried, the budget, and the chain's name.
pub fn unhealthy_endpoints(endpoints: &Vec<String>, retries: u8, chain_name: &str) -> (e:
    RegistryError)
    ensures
        e@ == (RegistryErrorView::UnhealthyEndpoints {
            endpoints: strings_view(endpoints@),
            retries,
            chain: chain_name@,
        }),
{
    let mut listed: Vec<String> = Vec::new();
    let mut i: usize = 0;
    while i < endpoints.len()
        invariant
            i <= endpoints.len(),
            listed@ == endpoints@.take(i as int),
        decreases endpoints.len() - i,
    {
        listed.push(endpoints[i].clone());
        i += 1;
        assert(listed@ =~= endpoints@.take(i as int));
    }
    assert(endpoints@.take(i as int) =~= endpoints@);
    RegistryError::UnhealthyEndpoints { endpoints: listed, retries, chain: chain_name.to_owned() }
}

/// Races the endpoints up to `retries` times and returns the output of the
/// first round that succeeds. Where no round succeeds, a budget of zero
/// rounds included, the error lists every endpoint, the budget and the
/// chain's name.
pub fn query_healthy_retry<Q>(chain_name: &str, endpoints: &Vec<String>, retries: u8) -> (r: Result<
    Q::QueryOutput,
    RegistryError,
>) where Q: QueryContext<QueryInput = String>
    ensures
        retries == 0 || endpoints.len() == 0 ==> r is Err,
        r matches Ok(output) ==> retries > 0 && is_success_of::<Q>(endpoints@, output),
        r matches Err(e) ==> e@ == (RegistryErrorView::UnhealthyEndpoints {
            endpoints: strings_view(endpoints@),
            retries,
            chain: chain_name@,
        }) && (retries > 0 ==> may_all_fail::<Q>(endpoints@)),
{
    let mut retrier = Retrier::new(retries);
    while retrier.wants_round()
        invariant
            retrier.retries == retries,
            retrier.attempted > 0 ==> may_all_fail::<Q>(endpoints@),
        decreases retrier.retries - retrier.attempted,
    {
        let round = query_healthy::<Q>(chain_name, endpoints);
        match retrier.record(round) {
            RetryStep::Done(output) => {
                return Ok(output);
            },
            RetryStep::Retry => {},
            RetryStep::GiveUp => {},
        }
    }
    Err(unhealthy_endpoints(endpoints, retries, chain_name))
}

} // verus!
