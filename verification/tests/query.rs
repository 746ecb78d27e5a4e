use alliance::contract::query::{
    get_alliance, get_alliances, get_alliances_delegations, get_alliances_delegations_by_validator,
    get_delegation, get_delegation_rewards, get_params, get_validator, get_validators, read_answer,
    QueryPlan, ResponseKind,
};
use alliance::contract::query as handle_query;
use alliance::msg::{
    query_noria, AllianceParams, AllianceParamsResponse, AllianceQuery, NoriaQuery, Pagination,
    QuerierOutcome, QueryError,
};

fn page() -> Option<Pagination> {
    Some(Pagination {
        key: Some(vec![1, 2, 3]),
        offset: Some(4),
        limit: Some(10),
        count_total: Some(true),
        reverse: None,
    })
}

fn err(msg: &str) -> QueryError {
    QueryError::GenericErr { msg: msg.to_string() }
}

#[test]
fn test_alliance_params_query() {
    let request = get_params().request;
    assert_eq!(request, NoriaQuery::Alliance(AllianceQuery::Params {}));
    println!("{:?}", request);
}

#[test]
fn every_query_is_forwarded_unchanged_with_its_answer_type() {
    let cases = vec![
        (AllianceQuery::Params {}, ResponseKind::Params),
        (AllianceQuery::Alliance { denom: "uluna".to_string() }, ResponseKind::Alliance),
        (AllianceQuery::Alliances { pagination: page() }, ResponseKind::Alliances),
        (
            AllianceQuery::AlliancesDelegations { pagination: None },
            ResponseKind::AlliancesDelegations,
        ),
        (
            AllianceQuery::AlliancesDelegationByValidator {
                delegator_addr: "d".to_string(),
                validator_addr: "v".to_string(),
                pagination: page(),
            },
            ResponseKind::AlliancesDelegations,
        ),
        (
            AllianceQuery::Delegation {
                delegator_addr: "d".to_string(),
                validator_addr: "v".to_string(),
                denom: "uluna".to_string(),
            },
            ResponseKind::Delegation,
        ),
        (
            AllianceQuery::DelegationRewards {
                delegator_addr: "d".to_string(),
                validator_addr: "v".to_string(),
                denom: "uluna".to_string(),
            },
            ResponseKind::Rewards,
        ),
        (AllianceQuery::Validator { validator_addr: "v".to_string() }, ResponseKind::Validator),
        (AllianceQuery::Validators { pagination: page() }, ResponseKind::Validators),
    ];
    for (msg, kind) in cases {
        let plan = handle_query(msg.clone());
        assert_eq!(plan, QueryPlan { request: NoriaQuery::Alliance(msg), expects: kind });
    }
}

#[test]
fn each_getter_builds_its_own_request() {
    assert_eq!(
        get_alliance("uluna".to_string()).request,
        NoriaQuery::Alliance(AllianceQuery::Alliance { denom: "uluna".to_string() })
    );
    assert_eq!(
        get_alliances(None).request,
        NoriaQuery::Alliance(AllianceQuery::Alliances { pagination: None })
    );
    assert_eq!(get_alliances_delegations(page()).expects, ResponseKind::AlliancesDelegations);
    assert_eq!(
        get_alliances_delegations_by_validator("d".to_string(), "v".to_string(), None).expects,
        ResponseKind::AlliancesDelegations
    );
    assert_eq!(
        get_delegation("d".to_string(), "v".to_string(), "x".to_string()).expects,
        ResponseKind::Delegation
    );
    assert_eq!(
        get_delegation_rewards("d".to_string(), "v".to_string(), "x".to_string()).request,
        NoriaQuery::Alliance(AllianceQuery::DelegationRewards {
            delegator_addr: "d".to_string(),
            validator_addr: "v".to_string(),
            denom: "x".to_string(),
        })
    );
    assert_eq!(get_validator("v".to_string()).expects, ResponseKind::Validator);
    assert_eq!(get_validators(None).expects, ResponseKind::Validators);
}

#[test]
fn query_noria_names_the_failing_stage() {
    assert_eq!(
        query_noria(QuerierOutcome::Unencodable("bad key".to_string())),
        Err(err("Serializing QueryRequest: bad key"))
    );
    assert_eq!(
        query_noria(QuerierOutcome::SystemError("Unknown system error".to_string())),
        Err(err("Querier system error: Unknown system error"))
    );
    assert_eq!(
        query_noria(QuerierOutcome::ContractError("not found".to_string())),
        Err(err("Querier contract error: not found"))
    );
    assert_eq!(query_noria(QuerierOutcome::Answer(vec![123, 125])), Ok(vec![123, 125]));
    assert_eq!(query_noria(QuerierOutcome::Answer(vec![])), Ok(vec![]));
}

fn params() -> AllianceParamsResponse {
    AllianceParamsResponse {
        params: AllianceParams {
            reward_delay_time: 60,
            take_rate_claim_interval: 300,
            last_take_rate_claim_time: "2023-06-06T18:37:29.956787974Z".to_string(),
        },
    }
}

#[test]
fn read_answer_passes_querier_errors_through() {
    let e = err("Querier contract error: boom");
    assert_eq!(read_answer(Err(e.clone()), Some(params())), Err(e.clone()));
    assert_eq!(read_answer::<AllianceParamsResponse>(Err(e.clone()), None), Err(e));
}

#[test]
fn read_answer_gives_the_decoded_answer() {
    assert_eq!(read_answer(Ok(b"{}".to_vec()), Some(params())), Ok(params()));
}

#[test]
fn read_answer_reports_undecodable_answer_in_base64() {
    assert_eq!(
        read_answer::<AllianceParamsResponse>(Ok(b"hello".to_vec()), None),
        Err(err("aGVsbG8="))
    );
    assert_eq!(read_answer::<AllianceParamsResponse>(Ok(vec![]), None), Err(err("")));
    assert_eq!(
        read_answer::<AllianceParamsResponse>(Ok(vec![0xff, 0x00]), None),
        Err(err("/wA="))
    );
}

#[test]
fn querier_failures_reach_the_caller_unchanged() {
    let failures = vec![
        (QuerierOutcome::Unencodable("x".to_string()), "Serializing QueryRequest: x"),
        (QuerierOutcome::SystemError("y".to_string()), "Querier system error: y"),
        (QuerierOutcome::ContractError("z".to_string()), "Querier contract error: z"),
    ];
    for (outcome, text) in failures {
        assert_eq!(read_answer(query_noria(outcome.clone()), Some(params())), Err(err(text)));
        assert_eq!(
            read_answer::<AllianceParamsResponse>(query_noria(outcome), None),
            Err(err(text))
        );
    }
}

#[test]
fn a_query_succeeds_only_with_a_decoded_answer() {
    let answered = query_noria(QuerierOutcome::Answer(b"{\"params\":{}}".to_vec()));
    assert_eq!(read_answer(answered.clone(), Some(params())), Ok(params()));
    assert!(read_answer::<AllianceParamsResponse>(answered, None).is_err());
}

#[test]
fn cloned_queries_are_equal() {
    let q = AllianceQuery::Validators { pagination: page() };
    assert_eq!(q.clone(), q);
}
