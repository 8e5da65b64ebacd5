//! Endpoint probes and the racing of their outcomes.
//!
//! A probe kind fixes an input, an output and an error type. Racing takes
//! the first success among the outcomes of one round; collecting takes every
//! success. Both are written once, for every probe kind.

use vstd::prelude::*;
use vstd::string::*;
use crate::error::ProbeFailure;
use crate::error::RegistryError;
use crate::error::RegistryErrorView;
use crate::formatter::parse_url;
use crate::formatter::tendermint_url;
use crate::formatter::websocket_address;
use crate::formatter::SimpleWebSocketFormatter;

verus! {

/// The types of one probe kind.
pub trait QueryTypes {
    /// What a probe is sent to: typically an address.
    type QueryInput;

    /// What a successful probe returns.
    type QueryOutput;

    /// What a failed probe returns.
    type QueryError;
}

/// The first success among the outcomes of one round, in the order in which
/// they arrived.
pub open spec fn first_success<O, E>(outcomes: Seq<Result<O, E>>) -> Option<O>
    decreases outcomes.len(),
{
    if outcomes.len() == 0 {
        None
    } else {
        match outcomes[0] {
            Ok(output) => Some(output),
            Err(_) => first_success(outcomes.drop_first()),
        }
    }
}

/// Every success among the outcomes of one round, in the order in which they
/// arrived.
pub open spec fn successes<O, E>(outcomes: Seq<Result<O, E>>) -> Seq<O>
    decreases outcomes.len(),
{
    if outcomes.len() == 0 {
        Seq::empty()
    } else {
        match outcomes[0] {
            Ok(output) => seq![output] + successes(outcomes.drop_first()),
            Err(_) => successes(outcomes.drop_first()),
        }
    }
}

/// Whether every outcome of a round is a failure.
pub open spec fn all_failed<O, E>(outcomes: Seq<Result<O, E>>) -> bool {
    forall|i: int| 0 <= i < outcomes.len() ==> (#[trigger] outcomes[i]) is Err
}

/// A round without a first success is a round of failures, and conversely.
pub proof fn lemma_first_success_none<O, E>(outcomes: Seq<Result<O, E>>)
    ensures
        first_success(outcomes).is_none() <==> all_failed(outcomes),
        successes(outcomes).len() == 0 <==> all_failed(outcomes),
    decreases outcomes.len(),
{
    if outcomes.len() > 0 {
        let rest = outcomes.drop_first();
        lemma_first_success_none(rest);
        if outcomes[0] is Err {
            if all_failed(rest) {
                assert forall|i: int| 0 <= i < outcomes.len() implies (#[trigger] outcomes[i]) is Err by {
                    if i > 0 {
                        assert(rest[i - 1] is Err);
                    }
                }
            }
            if all_failed(outcomes) {
                assert forall|i: int| 0 <= i < rest.len() implies (#[trigger] rest[i]) is Err by {
                    assert(outcomes[i + 1] is Err);
                }
            }
        } else {
            assert(!all_failed(outcomes));
        }
    }
}

/// The racer's decision: the first success of the round, or `exhausted`
/// where the round holds none (an empty round included).
pub fn first_healthy<O, E>(outcomes: Vec<Result<O, E>>, exhausted: E) -> (r: Result<O, E>)
    ensures
        r == match first_success(outcomes@) {
            Some(output) => Ok::<O, E>(output),
            None => Err::<O, E>(exhausted),
        },
        all_failed(outcomes@) <==> r is Err,
{
    let mut pending = outcomes;
    proof {
        lemma_first_success_none(outcomes@);
    }
    while pending.len() > 0
        invariant
            first_success(pending@) == first_success(outcomes@),
            first_success(outcomes@).is_none() <==> all_failed(outcomes@),
        decreases pending.len(),
    {
        let ghost before = pending@;
        let outcome = pending.remove(0);
        assert(pending@ =~= before.drop_first());
        match outcome {
            Ok(output) => {
                return Ok(output);
            },
            Err(_) => {},
        }
    }
    Err(exhausted)
}

/// The collector's decision: every success of the round, or `exhausted`
/// where the round holds none (an empty round included).
pub fn all_healthy<O, E>(outcomes: Vec<Result<O, E>>, exhausted: E) -> (r: Result<Vec<O>, E>)
    ensures
        match r {
            Ok(outputs) => outputs@ == successes(outcomes@) && outputs@.len() > 0,
            Err(e) => successes(outcomes@).len() == 0 && e == exhausted,
        },
        all_failed(outcomes@) <==> r is Err,
{
    let mut pending = outcomes;
    let mut found: Vec<O> = Vec::new();
    proof {
        lemma_first_success_none(outcomes@);
    }
    while pending.len() > 0
        invariant
            found@ + successes(pending@) == successes(outcomes@),
        decreases pending.len(),
    {
        let ghost before = pending@;
        let ghost found_before = found@;
        let outcome = pending.remove(0);
        assert(pending@ =~= before.drop_first());
        match outcome {
            Ok(output) => {
                found.push(output);
                assert(found@ + successes(pending@) =~= found_before + (seq![output] + successes(
                    pending@,
                )));
            },
            Err(_) => {},
        }
    }
    assert(found@ =~= found@ + successes(pending@));
    if found.len() > 0 {
        Ok(found)
    } else {
        Err(exhausted)
    }
}

/// One probe kind: how to probe one input, and which error stands for a
/// round without a healthy endpoint.
pub trait QueryContext: QueryTypes + Sized {
    /// Whether `error` is the error of this probe kind for a round on
    /// `chain_name` that found no healthy endpoint.
    spec fn is_query_error(error: Self::QueryError, chain_name: Seq<char>) -> bool;

    /// Whether a probe of `url` may end in `outcome`.
    spec fn is_outcome(
        url: Self::QueryInput,
        outcome: Result<Self::QueryOutput, Self::QueryError>,
    ) -> bool;

    /// The error for a round on `chain_name` that found no healthy endpoint.
    fn query_error(chain_name: String) -> (error: Self::QueryError)
        ensures
            Self::is_query_error(error, chain_name@),
    ;

    /// Probes one input once.
    fn query(url: &Self::QueryInput) -> (r: Result<Self::QueryOutput, Self::QueryError>)
        ensures
            Self::is_outcome(*url, r),
    ;
}

/// Whether `outcomes` may be what probing the first inputs of `urls` gives,
/// one outcome for each input, in order.
pub open spec fn are_outcomes<Q: QueryContext>(
    urls: Seq<Q::QueryInput>,
    outcomes: Seq<Result<Q::QueryOutput, Q::QueryError>>,
) -> bool {
    &&& outcomes.len() <= urls.len()
    &&& forall|i: int| 0 <= i < outcomes.len() ==> Q::is_outcome(urls[i], #[trigger] outcomes[i])
}

/// Whether a probe of `url` may fail.
pub open spec fn may_fail<Q: QueryContext>(url: Q::QueryInput) -> bool {
    exists|error: Q::QueryError| #[trigger]
        Q::is_outcome(url, Err::<Q::QueryOutput, Q::QueryError>(error))
}

/// Whether a probe of each of the inputs may fail.
pub open spec fn may_all_fail<Q: QueryContext>(urls: Seq<Q::QueryInput>) -> bool {
    forall|i: int| 0 <= i < urls.len() ==> may_fail::<Q>(#[trigger] urls[i])
}

/// Whether a probe of one of the inputs may succeed with `output`.
pub open spec fn is_success_of<Q: QueryContext>(
    urls: Seq<Q::QueryInput>,
    output: Q::QueryOutput,
) -> bool {
    exists|i: int|
        0 <= i < urls.len() && Q::is_outcome(
            #[trigger] urls[i],
            Ok::<Q::QueryOutput, Q::QueryError>(output),
        )
}

/// Outcomes that are all failures show that each probed input may fail.
pub proof fn lemma_failures_may_fail<Q: QueryContext>(
    urls: Seq<Q::QueryInput>,
    outcomes: Seq<Result<Q::QueryOutput, Q::QueryError>>,
)
    requires
        are_outcomes::<Q>(urls, outcomes),
        outcomes.len() == urls.len(),
        all_failed(outcomes),
    ensures
        may_all_fail::<Q>(urls),
{
    assert forall|i: int| 0 <= i < urls.len() implies may_fail::<Q>(#[trigger] urls[i]) by {
        assert(outcomes[i] is Err);
        let error = outcomes[i]->Err_0;
        assert(outcomes[i] == Err::<Q::QueryOutput, Q::QueryError>(error));
        assert(Q::is_outcome(urls[i], Err::<Q::QueryOutput, Q::QueryError>(error)));
    }
}

/// Whether `r` is the result of a race over `urls` in which the probes
/// ended in `outcomes`: the inputs are probed in order up to the first
/// success, which is the result; where every input fails, the result is
/// the probe kind's error for the chain.
pub open spec fn is_race<Q: QueryContext>(
    chain_name: Seq<char>,
    urls: Seq<Q::QueryInput>,
    outcomes: Seq<Result<Q::QueryOutput, Q::QueryError>>,
    r: Result<Q::QueryOutput, Q::QueryError>,
) -> bool {
    &&& are_outcomes::<Q>(urls, outcomes)
    &&& match r {
        Ok(output) => first_success(outcomes) == Some(output) && outcomes.len() > 0
            && outcomes.last() == Ok::<Q::QueryOutput, Q::QueryError>(output) && all_failed(
            outcomes.drop_last(),
        ),
        Err(error) => outcomes.len() == urls.len() && all_failed(outcomes) && Q::is_query_error(
            error,
            chain_name,
        ),
    }
}

/// Whether `r` is the result of a collection over `urls` in which the
/// probes ended in `outcomes`: every input is probed, and the result holds
/// the successes in order; where there is none, the result is the probe
/// kind's error for the chain.
pub open spec fn is_collection<Q: QueryContext>(
    chain_name: Seq<char>,
    urls: Seq<Q::QueryInput>,
    outcomes: Seq<Result<Q::QueryOutput, Q::QueryError>>,
    r: Result<Vec<Q::QueryOutput>, Q::QueryError>,
) -> bool {
    &&& are_outcomes::<Q>(urls, outcomes)
    &&& outcomes.len() == urls.len()
    &&& match r {
        Ok(outputs) => outputs@ == successes(outcomes) && outputs@.len() > 0,
        Err(error) => successes(outcomes).len() == 0 && Q::is_query_error(error, chain_name),
    }
}

/// A success after failures is the first success.
pub proof fn lemma_first_success_after_failures<O, E>(outcomes: Seq<Result<O, E>>)
    requires
        outcomes.len() > 0,
        outcomes.last() is Ok,
        all_failed(outcomes.drop_last()),
    ensures
        first_success(outcomes) == Some(outcomes.last()->Ok_0),
    decreases outcomes.len(),
{
    if outcomes.len() > 1 {
        let rest = outcomes.drop_first();
        assert(outcomes.drop_last()[0] is Err);
        assert forall|i: int| 0 <= i < rest.drop_last().len() implies (#[trigger] rest.drop_last()[i])
            is Err by {
            assert(outcomes.drop_last()[i + 1] is Err);
        }
        lemma_first_success_after_failures(rest);
    }
}

/// The successes of a round with one more outcome at its end.
pub proof fn lemma_successes_push<O, E>(outcomes: Seq<Result<O, E>>, outcome: Result<O, E>)
    ensures
        successes(outcomes.push(outcome)) == match outcome {
            Ok(output) => successes(outcomes).push(output),
            Err(_) => successes(outcomes),
        },
    decreases outcomes.len(),
{
    let more = outcomes.push(outcome);
    if outcomes.len() == 0 {
        assert(more.drop_first() =~= Seq::<Result<O, E>>::empty());
        assert(more[0] == outcome);
        assert(successes(more.drop_first()) =~= Seq::<O>::empty());
        assert(successes(outcomes) =~= Seq::<O>::empty());
        match outcome {
            Ok(output) => {
                assert(successes(more) =~= seq![output]);
                assert(successes(outcomes).push(output) =~= seq![output]);
            },
            Err(_) => {},
        }
    } else {
        lemma_successes_push(outcomes.drop_first(), outcome);
        assert(more.drop_first() =~= outcomes.drop_first().push(outcome));
        assert(more[0] == outcomes[0]);
        match outcomes[0] {
            Ok(first) => {
                match outcome {
                    Ok(output) => {
                        assert(successes(more) =~= (seq![first] + successes(
                            outcomes.drop_first(),
                        )).push(output));
                    },
                    Err(_) => {},
                }
            },
            Err(_) => {},
        }
    }
}

/// Probes the inputs one after another and returns the first success;
/// the inputs after it are not probed. A round without success, an
/// empty one included, ends in the error of
/// [`QueryContext::query_error`].
pub fn query_healthy<Q: QueryContext>(chain_name: &str, urls: &Vec<Q::QueryInput>) -> (r: Result<
    Q::QueryOutput,
    Q::QueryError,
>)
    ensures
        exists|outcomes: Seq<Result<Q::QueryOutput, Q::QueryError>>|
            is_race::<Q>(chain_name@, urls@, outcomes, r),
        urls.len() == 0 ==> r is Err,
        r matches Ok(output) ==> is_success_of::<Q>(urls@, output),
        r matches Err(error) ==> Q::is_query_error(error, chain_name@) && may_all_fail::<Q>(urls@),
{
    let mut i: usize = 0;
    let ghost mut outcomes: Seq<Result<Q::QueryOutput, Q::QueryError>> = Seq::empty();
    while i < urls.len()
        invariant
            i <= urls.len(),
            outcomes.len() == i,
            are_outcomes::<Q>(urls@, outcomes),
            all_failed(outcomes),
        decreases urls.len() - i,
    {
        let outcome = Q::query(&urls[i]);
        proof {
            let ghost before = outcomes;
            outcomes = outcomes.push(outcome);
            assert(outcomes.drop_last() =~= before);
        }
        match outcome {
            Ok(output) => {
                proof {
                    lemma_first_success_none(outcomes.drop_last());
                    lemma_first_success_after_failures(outcomes);
                }
                assert(is_race::<Q>(chain_name@, urls@, outcomes, Ok(output)));
                assert(Q::is_outcome(urls@[i as int], Ok::<Q::QueryOutput, Q::QueryError>(output)));
                return Ok(output);
            },
            Err(_) => {},
        }
        i += 1;
    }
    let error = Q::query_error(chain_name.to_owned());
    proof {
        lemma_first_success_none(outcomes);
        lemma_failures_may_fail::<Q>(urls@, outcomes);
    }
    assert(is_race::<Q>(chain_name@, urls@, outcomes, Err(error)));
    Err(error)
}

/// Probes every input and returns all successes, in input order. A round
/// without success, an empty one included, ends in the error of
/// [`QueryContext::query_error`].
pub fn query_healthy_all<Q: QueryContext>(chain_name: &str, urls: &Vec<Q::QueryInput>) -> (r: Result<
    Vec<Q::QueryOutput>,
    Q::QueryError,
>)
    ensures
        exists|outcomes: Seq<Result<Q::QueryOutput, Q::QueryError>>|
            is_collection::<Q>(chain_name@, urls@, outcomes, r),
        urls.len() == 0 ==> r is Err,
        r matches Ok(outputs) ==> 0 < outputs.len() <= urls.len() && forall|k: int|
            0 <= k < outputs.len() ==> is_success_of::<Q>(urls@, #[trigger] outputs@[k]),
        r matches Err(error) ==> Q::is_query_error(error, chain_name@) && may_all_fail::<Q>(urls@),
{
    let mut found: Vec<Q::QueryOutput> = Vec::new();
    let mut i: usize = 0;
    let ghost mut outcomes: Seq<Result<Q::QueryOutput, Q::QueryError>> = Seq::empty();
    while i < urls.len()
        invariant
            i <= urls.len(),
            outcomes.len() == i,
            are_outcomes::<Q>(urls@, outcomes),
            found@ == successes(outcomes),
            found.len() <= i,
            forall|k: int| 0 <= k < found.len() ==> is_success_of::<Q>(urls@, #[trigger] found@[k]),
        decreases urls.len() - i,
    {
        let outcome = Q::query(&urls[i]);
        proof {
            lemma_successes_push(outcomes, outcome);
            outcomes = outcomes.push(outcome);
        }
        match outcome {
            Ok(output) => {
                assert(Q::is_outcome(urls@[i as int], Ok::<Q::QueryOutput, Q::QueryError>(output)));
                found.push(output);
            },
            Err(_) => {},
        }
        i += 1;
    }
    if found.len() > 0 {
        assert(is_collection::<Q>(chain_name@, urls@, outcomes, Ok(found)));
        Ok(found)
    } else {
        let error = Q::query_error(chain_name.to_owned());
        proof {
            lemma_first_success_none(outcomes);
            lemma_failures_may_fail::<Q>(urls@, outcomes);
        }
        assert(is_collection::<Q>(chain_name@, urls@, outcomes, Err(error)));
        Err(error)
    }
}

/// What a healthy RPC endpoint reported.
#[derive(Clone, Debug, PartialEq, Eq)]
pub struct HermesConfigData {
    /// The RPC address, normalised.
    pub rpc_address: String,
    /// The largest block the chain accepts, in bytes; zero where the
    /// endpoint was not asked.
    pub max_block_size: u64,
    /// The WebSocket address that belongs to the RPC address.
    pub websocket: String,
}

/// The mathematical value of a [`HermesConfigData`].
pub struct HermesConfigDataView {
    pub rpc_address: Seq<char>,
    pub max_block_size: u64,
    pub websocket: Seq<char>,
}

impl View for HermesConfigData {
    type V = HermesConfigDataView;

    open spec fn view(&self) -> HermesConfigDataView {
        HermesConfigDataView {
            rpc_address: self.rpc_address@,
            max_block_size: self.max_block_size,
            websocket: self.websocket@,
        }
    }
}

/// Every endpoint of one chain that was found healthy.
#[derive(Clone, Debug, PartialEq, Eq)]
pub struct TransportConfigData {
    /// The healthy RPC endpoints.
    pub rpc: Vec<HermesConfigData>,
    /// The healthy gRPC addresses.
    pub grpc: Vec<String>,
}

/// What the network said of one RPC endpoint: the chain's largest block
/// size, or how the probe failed.
pub type RpcObservation = Result<u64, ProbeFailure>;

/// The descriptor of an RPC endpoint, from its address and what the network
/// said of it.
///
/// The WebSocket address is formatted first; a failed probe is reported
/// with that address; the RPC address must be a URL that an RPC client
/// accepts.
pub open spec fn rpc_descriptor(rpc: Seq<char>, seen: RpcObservation) -> Result<
    HermesConfigDataView,
    RegistryErrorView,
> {
    match websocket_address(rpc) {
        Err(e) => Err(e),
        Ok(websocket) => match seen {
            Err(failure) => Err(RegistryErrorView::Probe { failure, address: websocket }),
            Ok(max_block_size) => match tendermint_url(rpc) {
                None => Err(RegistryErrorView::TendermintUrlParse { address: rpc }),
                Some(rpc_address) => Ok(
                    HermesConfigDataView { rpc_address, max_block_size, websocket },
                ),
            },
        },
    }
}

/// The outcome of a gRPC probe, from the endpoint's URI and what the
/// network said of it: the URI as a normalised URL.
pub open spec fn grpc_descriptor(uri: Seq<char>, seen: Result<(), ProbeFailure>) -> Result<
    Seq<char>,
    RegistryErrorView,
> {
    match tendermint_url(uri) {
        None => Err(RegistryErrorView::TendermintUrlParse { address: uri }),
        Some(url) => match seen {
            Err(failure) => Err(RegistryErrorView::Probe { failure, address: uri }),
            Ok(_) => Ok(url),
        },
    }
}

/// The view of an RPC probe's outcome.
pub open spec fn rpc_result_view(r: Result<HermesConfigData, RegistryError>) -> Result<
    HermesConfigDataView,
    RegistryErrorView,
> {
    match r {
        Ok(data) => Ok(data@),
        Err(e) => Err(e@),
    }
}

/// The view of a gRPC probe's outcome.
pub open spec fn grpc_result_view(r: Result<String, RegistryError>) -> Result<
    Seq<char>,
    RegistryErrorView,
> {
    match r {
        Ok(url) => Ok(url@),
        Err(e) => Err(e@),
    }
}

/// Probes an RPC endpoint through its WebSocket interface and reads the
/// chain's largest block size.
pub struct SimpleHermesRpcQuerier;

/// Accepts an RPC endpoint on the form of its address alone.
pub struct VoidHermesRpcQuerier;

/// Probes a gRPC endpoint by opening a channel to it.
pub struct GrpcHealthCheckQuerier;

/// Accepts a gRPC endpoint on the form of its address alone.
pub struct VoidGrpcHealthCheckQuerier;

impl QueryTypes for SimpleHermesRpcQuerier {
    type QueryInput = String;

    type QueryOutput = HermesConfigData;

    type QueryError = RegistryError;
}

impl QueryTypes for VoidHermesRpcQuerier {
    type QueryInput = String;

    type QueryOutput = HermesConfigData;

    type QueryError = RegistryError;
}

impl QueryTypes for GrpcHealthCheckQuerier {
    type QueryInput = String;

    type QueryOutput = String;

    type QueryError = RegistryError;
}

impl QueryTypes for VoidGrpcHealthCheckQuerier {
    type QueryInput = String;

    type QueryOutput = String;

    type QueryError = RegistryError;
}

impl SimpleHermesRpcQuerier {
    /// The error for a round on `chain_name` that found no healthy RPC
    /// endpoint.
    pub fn query_error(chain_name: String) -> (error: RegistryError)
        ensures
            error@ == (RegistryErrorView::NoHealthyRpc { chain: chain_name@ }),
    {
        RegistryError::NoHealthyRpc { chain: chain_name }
    }

    /// The outcome of probing `rpc`, once the network has been asked at the
    /// endpoint's WebSocket address and has answered `seen`.
    pub fn query(rpc: &String, seen: RpcObservation) -> (r: Result<HermesConfigData, RegistryError>)
        ensures
            rpc_result_view(r) == rpc_descriptor(rpc@, seen),
    {
        let websocket = match SimpleWebSocketFormatter::parse_or_build_address(rpc.as_str()) {
            Ok(websocket) => websocket,
            Err(e) => {
                return Err(e);
            },
        };
        let max_block_size = match seen {
            Ok(max_block_size) => max_block_size,
            Err(failure) => {
                return Err(RegistryError::Probe { failure, address: websocket });
            },
        };
        match parse_url(rpc.as_str()) {
            Ok(rpc_address) => Ok(HermesConfigData { rpc_address, max_block_size, websocket }),
            Err(_) => Err(RegistryError::TendermintUrlParse { address: rpc.clone() }),
        }
    }
}

impl GrpcHealthCheckQuerier {
    /// The error for a round on `chain_name` that found no healthy gRPC
    /// endpoint.
    pub fn query_error(chain_name: String) -> (error: RegistryError)
        ensures
            error@ == (RegistryErrorView::NoHealthyGrpc { chain: chain_name@ }),
    {
        RegistryError::NoHealthyGrpc { chain: chain_name }
    }

    /// The outcome of probing `uri`, once a channel to it has been tried
    /// and the network has answered `seen`.
    pub fn query(uri: &String, seen: Result<(), ProbeFailure>) -> (r: Result<String, RegistryError>)
        ensures
            grpc_result_view(r) == grpc_descriptor(uri@, seen),
    {
        let url = match parse_url(uri.as_str()) {
            Ok(url) => url,
            Err(_) => {
                return Err(RegistryError::TendermintUrlParse { address: uri.clone() });
            },
        };
        match seen {
            Ok(_) => Ok(url),
            Err(failure) => Err(RegistryError::Probe { failure, address: uri.clone() }),
        }
    }
}

impl QueryContext for VoidHermesRpcQuerier {
    open spec fn is_query_error(error: RegistryError, chain_name: Seq<char>) -> bool {
        error@ == (RegistryErrorView::NoHealthyRpc { chain: chain_name })
    }

    /// An endpoint is accepted where its address can be formatted, with a
    /// largest block size of zero.
    open spec fn is_outcome(rpc: String, outcome: Result<HermesConfigData, RegistryError>) -> bool {
        rpc_result_view(outcome) == rpc_descriptor(rpc@, Ok::<u64, ProbeFailure>(0))
    }

    fn query_error(chain_name: String) -> (error: RegistryError) {
        RegistryError::NoHealthyRpc { chain: chain_name }
    }

    fn query(rpc: &String) -> (r: Result<HermesConfigData, RegistryError>) {
        SimpleHermesRpcQuerier::query(rpc, Ok(0))
    }
}

impl QueryContext for VoidGrpcHealthCheckQuerier {
    open spec fn is_query_error(error: RegistryError, chain_name: Seq<char>) -> bool {
        error@ == (RegistryErrorView::NoHealthyGrpc { chain: chain_name })
    }

    /// An endpoint is accepted where its URI is a URL that an RPC client
    /// accepts.
    open spec fn is_outcome(uri: String, outcome: Result<String, RegistryError>) -> bool {
        grpc_result_view(outcome) == grpc_descriptor(uri@, Ok::<(), ProbeFailure>(()))
    }

    fn query_error(chain_name: String) -> (error: RegistryError) {
        RegistryError::NoHealthyGrpc { chain: chain_name }
    }

    fn query(uri: &String) -> (r: Result<String, RegistryError>) {
        GrpcHealthCheckQuerier::query(uri, Ok(()))
    }
}

} // verus!
