use registry_resolver::error::{ProbeFailure, RegistryError};
use registry_resolver::querier::{
    all_healthy, first_healthy, query_healthy, query_healthy_all, GrpcHealthCheckQuerier,
    HermesConfigData, QueryContext, SimpleHermesRpcQuerier, VoidGrpcHealthCheckQuerier,
    VoidHermesRpcQuerier,
};
use registry_resolver::retry::{query_healthy_retry, unhealthy_endpoints, Retrier, RetryStep};

fn s(text: &str) -> String {
    text.to_string()
}

fn local_descriptor(max_block_size: u64) -> HermesConfigData {
    HermesConfigData {
        rpc_address: s("http://localhost:26657/"),
        max_block_size,
        websocket: s("ws://localhost:26657/websocket"),
    }
}

#[test]
fn racer_takes_first_success_in_arrival_order() {
    let outcomes: Vec<Result<u32, &str>> = vec![Err("a"), Ok(7), Err("b"), Ok(9)];
    assert_eq!(first_healthy(outcomes, "none"), Ok(7));
}

#[test]
fn racer_fails_when_every_probe_fails() {
    let outcomes: Vec<Result<u32, &str>> = vec![Err("a"), Err("b")];
    assert_eq!(first_healthy(outcomes, "none"), Err("none"));
    let empty: Vec<Result<u32, &str>> = vec![];
    assert_eq!(first_healthy(empty, "none"), Err("none"));
}

#[test]
fn collector_takes_every_success() {
    let outcomes: Vec<Result<u32, &str>> = vec![Err("a"), Ok(7), Err("b"), Ok(9)];
    assert_eq!(all_healthy(outcomes, "none"), Ok(vec![7, 9]));
}

#[test]
fn collector_fails_when_every_probe_fails() {
    let outcomes: Vec<Result<u32, &str>> = vec![Err("a"), Err("b")];
    assert_eq!(all_healthy(outcomes, "none"), Err("none"));
    let empty: Vec<Result<u32, &str>> = vec![];
    assert_eq!(all_healthy(empty, "none"), Err("none"));
}

#[test]
fn query_errors_carry_the_chain_name() {
    assert_eq!(
        SimpleHermesRpcQuerier::query_error(s("juno")),
        RegistryError::NoHealthyRpc { chain: s("juno") }
    );
    assert_eq!(
        VoidHermesRpcQuerier::query_error(s("juno")),
        RegistryError::NoHealthyRpc { chain: s("juno") }
    );
    assert_eq!(
        GrpcHealthCheckQuerier::query_error(s("juno")),
        RegistryError::NoHealthyGrpc { chain: s("juno") }
    );
    assert_eq!(
        VoidGrpcHealthCheckQuerier::query_error(s("juno")),
        RegistryError::NoHealthyGrpc { chain: s("juno") }
    );
}

#[test]
fn rpc_probe_builds_descriptor() {
    assert_eq!(
        SimpleHermesRpcQuerier::query(&s("http://localhost:26657"), Ok(22020096)),
        Ok(local_descriptor(22020096))
    );
    assert_eq!(VoidHermesRpcQuerier::query(&s("http://localhost:26657")), Ok(local_descriptor(0)));
}

#[test]
fn rpc_probe_reports_failure_with_websocket_address() {
    assert_eq!(
        SimpleHermesRpcQuerier::query(
            &s("http://localhost:26657"),
            Err(ProbeFailure::WebsocketTimeOut)
        ),
        Err(RegistryError::Probe {
            failure: ProbeFailure::WebsocketTimeOut,
            address: s("ws://localhost:26657/websocket"),
        })
    );
}

#[test]
fn rpc_probe_rejects_address_that_is_no_url() {
    assert_eq!(
        VoidHermesRpcQuerier::query(&s("localhost:26657")),
        Err(RegistryError::TendermintUrlParse { address: s("localhost:26657") })
    );
    assert_eq!(
        VoidHermesRpcQuerier::query(&s("not a uri")),
        Err(RegistryError::UriParse { address: s("not a uri") })
    );
}

#[test]
fn grpc_probe_gives_normalised_url() {
    assert_eq!(
        VoidGrpcHealthCheckQuerier::query(&s("https://grpc.example.com:9090")),
        Ok(s("https://grpc.example.com:9090/"))
    );
    assert_eq!(
        GrpcHealthCheckQuerier::query(&s("https://grpc.example.com:443/"), Ok(())),
        Ok(s("https://grpc.example.com/"))
    );
}

#[test]
fn grpc_probe_reports_failure() {
    assert_eq!(
        GrpcHealthCheckQuerier::query(
            &s("https://grpc.example.com:9090/"),
            Err(ProbeFailure::GrpcTimeOut)
        ),
        Err(RegistryError::Probe {
            failure: ProbeFailure::GrpcTimeOut,
            address: s("https://grpc.example.com:9090/"),
        })
    );
    assert_eq!(
        GrpcHealthCheckQuerier::query(&s("grpc.example.com:9090"), Ok(())),
        Err(RegistryError::TendermintUrlParse { address: s("grpc.example.com:9090") })
    );
}

#[test]
fn query_healthy_returns_the_successful_output() {
    let urls = vec![s("not a uri"), s("/no/host"), s("http://localhost:26657")];
    assert_eq!(query_healthy::<VoidHermesRpcQuerier>("juno", &urls), Ok(local_descriptor(0)));
}

#[test]
fn query_healthy_fails_with_chain_name() {
    let urls = vec![s("not a uri"), s("/no/host")];
    assert_eq!(
        query_healthy::<VoidHermesRpcQuerier>("juno", &urls),
        Err(RegistryError::NoHealthyRpc { chain: s("juno") })
    );
    assert_eq!(
        query_healthy::<VoidGrpcHealthCheckQuerier>("juno", &vec![]),
        Err(RegistryError::NoHealthyGrpc { chain: s("juno") })
    );
}

#[test]
fn query_healthy_all_collects_in_order() {
    let urls = vec![
        s("https://a.example.com:9090"),
        s("not a uri"),
        s("https://b.example.com:9090"),
    ];
    assert_eq!(
        query_healthy_all::<VoidGrpcHealthCheckQuerier>("juno", &urls),
        Ok(vec![s("https://a.example.com:9090/"), s("https://b.example.com:9090/")])
    );
    assert_eq!(
        query_healthy_all::<VoidGrpcHealthCheckQuerier>("juno", &vec![s("not a uri")]),
        Err(RegistryError::NoHealthyGrpc { chain: s("juno") })
    );
}

#[test]
fn retrier_spends_exactly_its_budget_on_failures() {
    let mut retrier = Retrier::new(3);
    let mut rounds = 0;
    let mut last = None;
    while retrier.wants_round() {
        rounds += 1;
        let outcome: Result<u32, ()> = Err(());
        let step = retrier.record(outcome);
        let more = matches!(step, RetryStep::Retry);
        last = Some(step);
        if !more {
            break;
        }
    }
    assert_eq!(rounds, 3);
    assert!(matches!(last, Some(RetryStep::GiveUp)));
    assert!(!retrier.wants_round());
}

#[test]
fn retrier_stops_at_first_successful_round() {
    let outcomes: Vec<Result<u32, ()>> = vec![Err(()), Ok(42), Ok(43), Err(())];
    let mut retrier = Retrier::new(5);
    let mut rounds = 0;
    let mut output = None;
    for outcome in outcomes {
        if !retrier.wants_round() {
            break;
        }
        rounds += 1;
        match retrier.record(outcome) {
            RetryStep::Done(value) => {
                output = Some(value);
                break;
            }
            RetryStep::Retry => {}
            RetryStep::GiveUp => break,
        }
    }
    assert_eq!(rounds, 2);
    assert_eq!(output, Some(42));
}

#[test]
fn retrier_with_empty_budget_wants_no_round() {
    assert!(!Retrier::new(0).wants_round());
    assert!(Retrier::new(1).wants_round());
}

#[test]
fn unhealthy_endpoints_lists_every_input() {
    let endpoints = vec![s("http://a:1"), s("http://b:2")];
    assert_eq!(
        unhealthy_endpoints(&endpoints, 5, "juno"),
        RegistryError::UnhealthyEndpoints {
            endpoints: vec![s("http://a:1"), s("http://b:2")],
            retries: 5,
            chain: s("juno"),
        }
    );
}

#[test]
fn retry_fails_with_every_endpoint_listed() {
    let endpoints = vec![s("not a uri"), s("/no/host")];
    assert_eq!(
        query_healthy_retry::<VoidHermesRpcQuerier>("juno", &endpoints, 5),
        Err(RegistryError::UnhealthyEndpoints {
            endpoints: vec![s("not a uri"), s("/no/host")],
            retries: 5,
            chain: s("juno"),
        })
    );
    assert_eq!(
        query_healthy_retry::<VoidHermesRpcQuerier>("juno", &vec![s("http://localhost:26657")], 0),
        Err(RegistryError::UnhealthyEndpoints {
            endpoints: vec![s("http://localhost:26657")],
            retries: 0,
            chain: s("juno"),
        })
    );
}

#[test]
fn retry_returns_first_success() {
    let endpoints = vec![s("not a uri"), s("http://localhost:26657")];
    assert_eq!(
        query_healthy_retry::<VoidHermesRpcQuerier>("juno", &endpoints, 5),
        Ok(local_descriptor(0))
    );
}
