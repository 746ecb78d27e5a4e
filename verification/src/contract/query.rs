//! The queries the contract forwards to the chain's alliance module, and how it
//! reads their answers.
use vstd::prelude::*;

use crate::msg::{querier_answer, AllianceQuery, NoriaQuery, Pagination, QuerierOutcome, QueryError};

verus! {

/// The type of the answer that a query expects.
#[derive(Clone, Copy, Debug, PartialEq, Eq)]
pub enum ResponseKind {
    /// `AllianceParamsResponse`
    Params,
    /// `AllianceAllianceResponse`
    Alliance,
    /// `AllianceAlliancesResponse`
    Alliances,
    /// `AllianceAlliancesDelegationsResponse`
    AlliancesDelegations,
    /// `SingleDelegationResponse`
    Delegation,
    /// `RewardsResponse`
    Rewards,
    /// `ValidatorResponse`
    Validator,
    /// `AllValidatorsResponse`
    Validators,
}

/// A query to send to the chain, and the type of the answer to read.
#[derive(Clone, Debug, PartialEq)]
pub struct QueryPlan {
    pub request: NoriaQuery,
    pub expects: ResponseKind,
}

/// The type of the answer to the alliance query `msg`.
pub open spec fn expected_response(msg: AllianceQuery) -> ResponseKind {
    match msg {
        AllianceQuery::Alliance { .. } => ResponseKind::Alliance,
        AllianceQuery::Alliances { .. } => ResponseKind::Alliances,
        AllianceQuery::AlliancesDelegations { .. } => ResponseKind::AlliancesDelegations,
        AllianceQuery::AlliancesDelegationByValidator { .. } => ResponseKind::AlliancesDelegations,
        AllianceQuery::Delegation { .. } => ResponseKind::Delegation,
        AllianceQuery::DelegationRewards { .. } => ResponseKind::Rewards,
        AllianceQuery::Params {  } => ResponseKind::Params,
        AllianceQuery::Validator { .. } => ResponseKind::Validator,
        AllianceQuery::Validators { .. } => ResponseKind::Validators,
    }
}

/// The plan that sends `msg` to the alliance module, wrapped as the chain wants it.
pub open spec fn plan_for(msg: AllianceQuery) -> QueryPlan {
    QueryPlan { request: NoriaQuery::Alliance(msg), expects: expected_response(msg) }
}

fn plan(msg: AllianceQuery) -> (p: QueryPlan)
    ensures
        p == plan_for(msg),
        p.request == NoriaQuery::Alliance(msg),
        p.expects == expected_response(msg),
{
    let expects = match &msg {
        AllianceQuery::Alliance { .. } => ResponseKind::Alliance,
        AllianceQuery::Alliances { .. } => ResponseKind::Alliances,
        AllianceQuery::AlliancesDelegations { .. } => ResponseKind::AlliancesDelegations,
        AllianceQuery::AlliancesDelegationByValidator { .. } => ResponseKind::AlliancesDelegations,
        AllianceQuery::Delegation { .. } => ResponseKind::Delegation,
        AllianceQuery::DelegationRewards { .. } => ResponseKind::Rewards,
        AllianceQuery::Params {  } => ResponseKind::Params,
        AllianceQuery::Validator { .. } => ResponseKind::Validator,
        AllianceQuery::Validators { .. } => ResponseKind::Validators,
    };
    QueryPlan { request: NoriaQuery::Alliance(msg), expects }
}

/// The alliance module's parameters.
pub fn get_params() -> (p: QueryPlan)
    ensures
        p == plan_for(AllianceQuery::Params {  }),
        p.request == NoriaQuery::Alliance(AllianceQuery::Params {  }),
        p.expects == ResponseKind::Params,
{
    plan(AllianceQuery::Params {  })
}

/// The alliance of the denomination `denom`.
pub fn get_alliance(denom: String) -> (p: QueryPlan)
    ensures
        p == plan_for(AllianceQuery::Alliance { denom }),
        p.request == NoriaQuery::Alliance(AllianceQuery::Alliance { denom }),
        p.expects == ResponseKind::Alliance,
{
    plan(AllianceQuery::Alliance { denom })
}

/// All alliances, a page at a time.
pub fn get_alliances(pagination: Option<Pagination>) -> (p: QueryPlan)
    ensures
        p == plan_for(AllianceQuery::Alliances { pagination }),
        p.request == NoriaQuery::Alliance(AllianceQuery::Alliances { pagination }),
        p.expects == ResponseKind::Alliances,
{
    plan(AllianceQuery::Alliances { pagination })
}

/// All alliance delegations, a page at a time.
pub fn get_alliances_delegations(pagination: Option<Pagination>) -> (p: QueryPlan)
    ensures
        p == plan_for(AllianceQuery::AlliancesDelegations { pagination }),
        p.request == NoriaQuery::Alliance(AllianceQuery::AlliancesDelegations { pagination }),
        p.expects == ResponseKind::AlliancesDelegations,
{
    plan(AllianceQuery::AlliancesDelegations { pagination })
}

/// The alliance delegations of a delegator to a validator, a page at a time.
pub fn get_alliances_delegations_by_validator(
    delegator_addr: String,
    validator_addr: String,
    pagination: Option<Pagination>,
) -> (p: QueryPlan)
    ensures
        p == plan_for(
            AllianceQuery::AlliancesDelegationByValidator {
                delegator_addr,
                validator_addr,
                pagination,
            },
        ),
        p.request == NoriaQuery::Alliance(AllianceQuery::AlliancesDelegationByValidator {
                delegator_addr,
                validator_addr,
                pagination,
            },),
        p.expects == ResponseKind::AlliancesDelegations,
{
    plan(AllianceQuery::AlliancesDelegationByValidator { delegator_addr, validator_addr, pagination })
}

/// The delegation of a delegator to a validator in the denomination `denom`.
pub fn get_delegation(delegator_addr: String, validator_addr: String, denom: String) -> (p:
    QueryPlan)
    ensures
        p == plan_for(AllianceQuery::Delegation { delegator_addr, validator_addr, denom }),
        p.request == NoriaQuery::Alliance(AllianceQuery::Delegation { delegator_addr, validator_addr, denom }),
        p.expects == ResponseKind::Delegation,
{
    plan(AllianceQuery::Delegation { delegator_addr, validator_addr, denom })
}

/// The rewards of a delegation of a delegator to a validator in `denom`.
pub fn get_delegation_rewards(delegator_addr: String, validator_addr: String, denom: String) -> (p:
    QueryPlan)
    ensures
        p == plan_for(AllianceQuery::DelegationRewards { delegator_addr, validator_addr, denom }),
        p.request == NoriaQuery::Alliance(AllianceQuery::DelegationRewards { delegator_addr, validator_addr, denom }),
        p.expects == ResponseKind::Rewards,
{
    plan(AllianceQuery::DelegationRewards { delegator_addr, validator_addr, denom })
}

/// The alliance shares and stakes of a validator.
pub fn get_validator(validator_addr: String) -> (p: QueryPlan)
    ensures
        p == plan_for(AllianceQuery::Validator { validator_addr }),
        p.request == NoriaQuery::Alliance(AllianceQuery::Validator { validator_addr }),
        p.expects == ResponseKind::Validator,
{
    plan(AllianceQuery::Validator { validator_addr })
}

/// All validators, a page at a time.
pub fn get_validators(pagination: Option<Pagination>) -> (p: QueryPlan)
    ensures
        p == plan_for(AllianceQuery::Validators { pagination }),
        p.request == NoriaQuery::Alliance(AllianceQuery::Validators { pagination }),
        p.expects == ResponseKind::Validators,
{
    plan(AllianceQuery::Validators { pagination })
}

/// The standard base64 encoding, with padding, of `bytes`.
pub uninterp spec fn base64_encoding(bytes: Seq<u8>) -> Seq<char>;

/// `cosmwasm_std::Binary::to_base64`: the standard base64 encoding, with padding,
/// of the bytes (the `Display` form of a `Binary`). The contract names the result
/// and states nothing of the encoding itself.
#[verifier::external_body]
fn to_base64(bytes: &Vec<u8>) -> (text: String)
    ensures
        text@ == base64_encoding(bytes@),
{
    cosmwasm_std::Binary::from(bytes.as_slice()).to_base64()
}

/// What a query gives back: the querier's error unchanged; otherwise the decoded
/// answer, or, when the answer could not be decoded, an error whose text is the
/// answer in base64.
pub open spec fn answer_result<T>(answer: Result<Seq<u8>, Seq<char>>, decoded: Option<T>) -> Result<
    T,
    Seq<char>,
> {
    match answer {
        Err(text) => Err(text),
        Ok(bytes) => match decoded {
            Some(value) => Ok(value),
            None => Err(base64_encoding(bytes)),
        },
    }
}

/// A result with its error text as a sequence.
pub open spec fn result_view<T>(r: Result<T, QueryError>) -> Result<T, Seq<char>> {
    match r {
        Ok(value) => Ok(value),
        Err(QueryError::GenericErr { msg }) => Err(msg@),
    }
}

/// Reads the answer to a query: `answer` is what `query_noria` made of the
/// querier's outcome, and `decoded` is the answer's bytes read as the expected
/// type, if they could be.
pub fn read_answer<T>(answer: Result<Vec<u8>, QueryError>, decoded: Option<T>) -> (r: Result<
    T,
    QueryError,
>)
    ensures
        result_view(r) == answer_result(crate::msg::answer_view(answer), decoded),
        answer is Err ==> r == Err::<T, QueryError>(answer->Err_0),
{
    match answer {
        Err(err) => Err(err),
        Ok(bytes) => match decoded {
            Some(value) => Ok(value),
            None => Err(QueryError::GenericErr { msg: to_base64(&bytes) }),
        },
    }
}

/// A query succeeds exactly when the alliance module answered and its answer could
/// be decoded; then the result is the decoded answer.
pub proof fn lemma_query_succeeds_only_on_decoded_answer<T>(
    outcome: QuerierOutcome,
    decoded: Option<T>,
)
    ensures
        answer_result(querier_answer(outcome), decoded) is Ok <==> (outcome is Answer
            && decoded is Some),
        answer_result(querier_answer(outcome), decoded) is Ok ==> answer_result(
            querier_answer(outcome),
            decoded,
        ) == Ok::<T, Seq<char>>(decoded->0),
{
}

/// When the query could not be sent or the chain failed, the caller gets the
/// querier's error text unchanged, whatever the decoding step holds.
pub proof fn lemma_querier_errors_reach_caller<T>(outcome: QuerierOutcome, decoded: Option<T>)
    requires
        !(outcome is Answer),
    ensures
        answer_result(querier_answer(outcome), decoded) == Err::<T, Seq<char>>(
            querier_answer(outcome)->Err_0,
        ),
{
}

/// A query is forwarded as it came, every field (pagination included) as given,
/// and its answer is read as the type that the query names.
pub proof fn lemma_query_forwarded_unchanged(msg: AllianceQuery)
    ensures
        plan_for(msg).request == NoriaQuery::Alliance(msg),
        plan_for(msg).expects == expected_response(msg),
        msg matches AllianceQuery::Params {  } ==> expected_response(msg) == ResponseKind::Params,
        msg matches AllianceQuery::Alliance { .. } ==> expected_response(msg)
            == ResponseKind::Alliance,
        msg matches AllianceQuery::Alliances { .. } ==> expected_response(msg)
            == ResponseKind::Alliances,
        msg matches AllianceQuery::AlliancesDelegations { .. } ==> expected_response(msg)
            == ResponseKind::AlliancesDelegations,
        msg matches AllianceQuery::AlliancesDelegationByValidator { .. } ==> expected_response(msg)
            == ResponseKind::AlliancesDelegations,
        msg matches AllianceQuery::Delegation { .. } ==> expected_response(msg)
            == ResponseKind::Delegation,
        msg matches AllianceQuery::DelegationRewards { .. } ==> expected_response(msg)
            == ResponseKind::Rewards,
        msg matches AllianceQuery::Validator { .. } ==> expected_response(msg)
            == ResponseKind::Validator,
        msg matches AllianceQuery::Validators { .. } ==> expected_response(msg)
            == ResponseKind::Validators,
{
}

} // verus!
