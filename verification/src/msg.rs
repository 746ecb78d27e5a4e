//! The contract's messages, the chain's alliance messages and queries, and the
//! answers the chain gives to them.
use vstd::prelude::*;

verus! {

/// A coin: a denomination and an amount, carried through unchanged.
#[verifier::external_type_specification]
#[verifier::external_body]
pub struct ExCoin(cosmwasm_std::Coin);

/// A 256-bit fixed-point decimal, carried through unchanged.
#[verifier::external_type_specification]
#[verifier::external_body]
pub struct ExDecimal256(cosmwasm_std::Decimal256);

/// `Coin` derives `Clone`: the copy holds the same denomination and amount.
pub assume_specification[ <cosmwasm_std::Coin as Clone>::clone ](c: &cosmwasm_std::Coin) -> (res: cosmwasm_std::Coin)
    ensures
        res == *c,
;

/// `Decimal256` derives `Clone` (it is `Copy`): the copy is the same number.
pub assume_specification[ <cosmwasm_std::Decimal256 as Clone>::clone ](d: &cosmwasm_std::Decimal256) -> (res: cosmwasm_std::Decimal256)
    ensures
        res == *d,
;

/// Instantiate Message
#[derive(Clone, Debug, PartialEq)]
pub struct InstantiateMsg {}

/// Execute Messages
#[derive(Clone, Debug, PartialEq)]
pub enum ExecuteMsg {
    Delegate { validator_address: String, amount: cosmwasm_std::Coin },
    Undelegate { validator_address: String, amount: cosmwasm_std::Coin },
    Redelegate {
        validator_src_address: String,
        validator_dst_address: String,
        amount: cosmwasm_std::Coin,
    },
    ClaimDelegationRewards { validator_address: String, denom: String },
}

/// Alliance Messages
#[derive(Clone, Debug, PartialEq)]
pub enum AllianceMsg {
    Delegate {
        delegator_address: String,
        validator_address: String,
        amount: cosmwasm_std::Coin,
    },
    Undelegate {
        delegator_address: String,
        validator_address: String,
        amount: cosmwasm_std::Coin,
    },
    Redelegate {
        delegator_address: String,
        validator_src_address: String,
        validator_dst_address: String,
        amount: cosmwasm_std::Coin,
    },
    ClaimDelegationRewards { delegator_address: String, validator_address: String, denom: String },
}

/// Chain message wrapper
#[derive(Clone, Debug, PartialEq)]
pub enum NoriaMsg {
    Alliance(AllianceMsg),
}

/// Chain query wrapper
#[derive(Clone, Debug, PartialEq)]
pub enum NoriaQuery {
    /// Alliance-specific queries, must be wrapped in 'alliance'
    Alliance(AllianceQuery),
}

#[derive(Clone, Debug, PartialEq)]
pub struct Pagination {
    pub key: Option<Vec<u8>>,
    pub offset: Option<u64>,
    pub limit: Option<u64>,
    pub count_total: Option<bool>,
    pub reverse: Option<bool>,
}

#[derive(Clone, Debug, PartialEq)]
pub struct PaginationResponse {
    pub next_key: Option<Vec<u8>>,
    pub total: Option<u64>,
}

/// Alliance-specific queries
#[derive(Clone, Debug, PartialEq)]
pub enum AllianceQuery {
    Alliance { denom: String },
    Alliances { pagination: Option<Pagination> },
    AlliancesDelegations { pagination: Option<Pagination> },
    AlliancesDelegationByValidator {
        delegator_addr: String,
        validator_addr: String,
        pagination: Option<Pagination>,
    },
    Delegation { delegator_addr: String, validator_addr: String, denom: String },
    DelegationRewards { delegator_addr: String, validator_addr: String, denom: String },
    Params {},
    Validator { validator_addr: String },
    Validators { pagination: Option<Pagination> },
}

#[derive(Clone, Debug, PartialEq)]
pub struct AllianceParams {
    pub reward_delay_time: u64,
    pub take_rate_claim_interval: u64,
    pub last_take_rate_claim_time: String,
}

#[derive(Clone, Debug, PartialEq)]
pub struct DecCoin {
    pub denom: Option<String>,
    pub amount: cosmwasm_std::Decimal256,
}

#[derive(Clone, Debug, PartialEq)]
pub struct ValidatorResponse {
    pub validator_addr: String,
    pub total_delegation_shares: Vec<DecCoin>,
    pub validator_shares: Vec<DecCoin>,
    pub total_staked: Vec<DecCoin>,
}

#[derive(Clone, Debug, PartialEq)]
pub struct AllValidatorsResponse {
    pub validators: Vec<ValidatorResponse>,
    pub pagination: Option<PaginationResponse>,
}

#[derive(Clone, Debug, PartialEq)]
pub struct AllianceParamsResponse {
    pub params: AllianceParams,
}

#[derive(Clone, Debug, PartialEq)]
pub struct WeightRange {
    pub min: cosmwasm_std::Decimal256,
    pub max: cosmwasm_std::Decimal256,
}

#[derive(Clone, Debug, PartialEq)]
pub struct AllianceAsset {
    pub denom: String,
    pub reward_weight: cosmwasm_std::Decimal256,
    pub consensus_weight: cosmwasm_std::Decimal256,
    pub consensus_cap: cosmwasm_std::Decimal256,
    pub take_rate: cosmwasm_std::Decimal256,
    pub total_tokens: cosmwasm_std::Decimal256,
    pub total_validator_shares: cosmwasm_std::Decimal256,
    /// A time stamp as the chain writes it, such as "2023-06-06T18:37:29.956787974Z".
    pub reward_start_time: String,
    pub reward_change_rate: cosmwasm_std::Decimal256,
    pub reward_change_interval: u64,
    pub last_reward_change_time: String,
    pub reward_weight_range: WeightRange,
    pub is_initialized: Option<bool>,
}

#[derive(Clone, Debug, PartialEq)]
pub struct AllianceAllianceResponse {
    pub alliance: AllianceAsset,
}

#[derive(Clone, Debug, PartialEq)]
pub struct AllianceAlliancesResponse {
    pub alliances: Vec<AllianceAsset>,
    pub pagination: Option<PaginationResponse>,
}

#[derive(Clone, Debug, PartialEq)]
pub struct AllianceAlliancesDelegationsResponse {
    pub delegations: Option<Vec<DelegationResponse>>,
    pub pagination: Option<PaginationResponse>,
}

#[derive(Clone, Debug, PartialEq)]
pub struct RewardsResponse {
    pub rewards: Vec<cosmwasm_std::Coin>,
}

#[derive(Clone, Debug, PartialEq)]
pub struct SingleDelegationResponse {
    pub delegation: DelegationResponse,
}

#[derive(Clone, Debug, PartialEq)]
pub struct DelegationResponse {
    pub delegation: Delegation,
    pub balance: cosmwasm_std::Coin,
}

#[derive(Clone, Debug, PartialEq)]
pub struct Delegation {
    pub delegator_address: Option<String>,
    pub validator_address: Option<String>,
    pub denom: Option<String>,
    pub shares: cosmwasm_std::Decimal256,
    pub reward_history: Option<Vec<Option<Reward>>>,
    pub last_reward_claim_height: Option<u64>,
}

#[derive(Clone, Debug, PartialEq)]
pub struct Reward {
    pub denom: Option<String>,
    pub index: cosmwasm_std::Decimal256,
}

/// What became of a query sent to the chain's querier.
#[derive(Clone, Debug, PartialEq)]
pub enum QuerierOutcome {
    /// The request could not be encoded; the text says why.
    Unencodable(String),
    /// The querier failed; the text is its error as displayed.
    SystemError(String),
    /// The queried module failed; the text is its error.
    ContractError(String),
    /// The queried module answered with these bytes.
    Answer(Vec<u8>),
}

/// A failed query, with the text that explains it.
#[derive(Clone, Debug, PartialEq)]
pub enum QueryError {
    GenericErr { msg: String },
}

/// A query's result, with the bytes and the error text as sequences.
pub open spec fn answer_view(r: Result<Vec<u8>, QueryError>) -> Result<Seq<u8>, Seq<char>> {
    match r {
        Ok(bytes) => Ok(bytes@),
        Err(QueryError::GenericErr { msg }) => Err(msg@),
    }
}

/// What `query_noria` makes of an outcome: the answer's bytes, or the error text
/// that names the failing stage.
pub open spec fn querier_answer(outcome: QuerierOutcome) -> Result<Seq<u8>, Seq<char>> {
    match outcome {
        QuerierOutcome::Unencodable(e) => Err("Serializing QueryRequest: "@ + e@),
        QuerierOutcome::SystemError(e) => Err("Querier system error: "@ + e@),
        QuerierOutcome::ContractError(e) => Err("Querier contract error: "@ + e@),
        QuerierOutcome::Answer(bytes) => Ok(bytes@),
    }
}

/// `String::push_str`: appends `t` to `s`.
#[verifier::external_body]
fn push_str(s: &mut String, t: &str)
    ensures
        final(s)@ == old(s)@ + t@,
{
    s.push_str(t)
}

/// The error whose text is `prefix` followed by `detail`.
fn generic_err(prefix: &str, detail: String) -> (e: QueryError)
    ensures
        e->msg@ == prefix@ + detail@,
{
    let mut msg = prefix.to_owned();
    push_str(&mut msg, detail.as_str());
    QueryError::GenericErr { msg }
}

/// Reads the outcome of a query sent to the chain: the answer's bytes when the
/// module answered, and otherwise an error that names the failing stage.
pub fn query_noria(outcome: QuerierOutcome) -> (r: Result<Vec<u8>, QueryError>)
    ensures
        answer_view(r) == querier_answer(outcome),
        r is Ok <==> outcome is Answer,
{
    match outcome {
        QuerierOutcome::Unencodable(e) => Err(generic_err("Serializing QueryRequest: ", e)),
        QuerierOutcome::SystemError(e) => Err(generic_err("Querier system error: ", e)),
        QuerierOutcome::ContractError(e) => Err(generic_err("Querier contract error: ", e)),
        QuerierOutcome::Answer(bytes) => Ok(bytes),
    }
}

} // verus!
