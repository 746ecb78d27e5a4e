//! The contract's entry points.
use vstd::prelude::*;

pub mod execute;
pub mod query;

use crate::error::ContractError;
use crate::msg::{AllianceMsg, AllianceQuery, ExecuteMsg, InstantiateMsg, NoriaMsg, NoriaQuery};
use crate::response::Response;
use crate::state::State;
use self::query::{expected_response, plan_for, QueryPlan};
use self::execute::{claim_rewards, delegate, is_handler_response, redelegate, undelegate};

verus! {

/// Who called the contract, and the coins sent along with the call.
#[derive(Clone, Debug, PartialEq)]
pub struct MessageInfo {
    pub sender: String,
    pub funds: Vec<cosmwasm_std::Coin>,
}

/// The chain's empty custom message: instantiation sends none.
#[verifier::external_type_specification]
#[verifier::external_body]
pub struct ExEmpty(cosmwasm_std::Empty);

/// The name under which the contract records its version.
pub const CONTRACT_NAME: &'static str = "crates.io:alliance";

/// What instantiation decides: the name and version to record, the state to store,
/// and the response. The caller writes the version first, then the state.
#[derive(Clone, Debug, PartialEq)]
pub struct Instantiation {
    pub contract_name: String,
    pub contract_version: String,
    pub state: State,
    pub response: Response<cosmwasm_std::Empty>,
}

/// Instantiates the contract: the sender becomes its owner.
pub fn instantiate(info: MessageInfo, msg: InstantiateMsg, contract_version: &str) -> (r: Result<
    Instantiation,
    ContractError,
>)
    ensures
        r is Ok,
        r->Ok_0.contract_name@ == CONTRACT_NAME@,
        r->Ok_0.contract_version@ == contract_version@,
        r->Ok_0.state == (State { owner: info.sender }),
        r->Ok_0.response.messages@.len() == 0,
        r->Ok_0.response.attribute_pairs() == seq![("method"@, "instantiate"@), ("owner"@, info.sender@)],
{
    let state = State { owner: info.sender.clone() };
    let response = Response::new().add_attribute("method", "instantiate".to_owned()).add_attribute(
        "owner",
        info.sender,
    );
    assert(response.attribute_pairs() =~= seq![("method"@, "instantiate"@), ("owner"@, info.sender@)]);
    Ok(
        Instantiation {
            contract_name: CONTRACT_NAME.to_owned(),
            contract_version: contract_version.to_owned(),
            state,
            response,
        },
    )
}

/// The alliance message that the execute message `msg` from `sender` sends: the
/// sender as the delegator, every other field as the execute message gives it.
pub open spec fn alliance_msg_of(sender: String, msg: ExecuteMsg) -> AllianceMsg {
    match msg {
        ExecuteMsg::Delegate { validator_address, amount } => AllianceMsg::Delegate {
            delegator_address: sender,
            validator_address,
            amount,
        },
        ExecuteMsg::Undelegate { validator_address, amount } => AllianceMsg::Undelegate {
            delegator_address: sender,
            validator_address,
            amount,
        },
        ExecuteMsg::Redelegate { validator_src_address, validator_dst_address, amount } =>
            AllianceMsg::Redelegate {
            delegator_address: sender,
            validator_src_address,
            validator_dst_address,
            amount,
        },
        ExecuteMsg::ClaimDelegationRewards { validator_address, denom } =>
            AllianceMsg::ClaimDelegationRewards {
            delegator_address: sender,
            validator_address,
            denom,
        },
    }
}

/// The name of the handler of `msg`, emitted under `method`.
pub open spec fn method_of(msg: ExecuteMsg) -> Seq<char> {
    match msg {
        ExecuteMsg::Delegate { .. } => "delegate"@,
        ExecuteMsg::Undelegate { .. } => "undelegate"@,
        ExecuteMsg::Redelegate { .. } => "redelegate"@,
        ExecuteMsg::ClaimDelegationRewards { .. } => "claim_rewards"@,
    }
}

/// The account on whose behalf an alliance message acts.
pub open spec fn delegator_of(msg: AllianceMsg) -> String {
    match msg {
        AllianceMsg::Delegate { delegator_address, .. } => delegator_address,
        AllianceMsg::Undelegate { delegator_address, .. } => delegator_address,
        AllianceMsg::Redelegate { delegator_address, .. } => delegator_address,
        AllianceMsg::ClaimDelegationRewards { delegator_address, .. } => delegator_address,
    }
}

/// Handles an execute message: it never fails, and it answers with exactly one
/// message to the alliance module, on behalf of the sender.
pub fn execute(info: MessageInfo, msg: ExecuteMsg) -> (r: Result<Response<NoriaMsg>, ContractError>)
    ensures
        is_handler_response(r, method_of(msg), alliance_msg_of(info.sender, msg)),
        msg matches ExecuteMsg::Delegate { validator_address, amount } ==> {
            &&& r is Ok
            &&& r->Ok_0.messages@ == seq![
                NoriaMsg::Alliance(
                    AllianceMsg::Delegate {
                        delegator_address: info.sender,
                        validator_address: validator_address,
                        amount: amount,
                    },
                ),
            ]
            &&& r->Ok_0.attribute_pairs() == seq![("method"@, "delegate"@), ("module"@, "alliance"@)]
        },
        msg matches ExecuteMsg::Undelegate { validator_address, amount } ==> {
            &&& r is Ok
            &&& r->Ok_0.messages@ == seq![
                NoriaMsg::Alliance(
                    AllianceMsg::Undelegate {
                        delegator_address: info.sender,
                        validator_address: validator_address,
                        amount: amount,
                    },
                ),
            ]
            &&& r->Ok_0.attribute_pairs() == seq![("method"@, "undelegate"@), ("module"@, "alliance"@)]
        },
        msg matches ExecuteMsg::Redelegate { validator_src_address, validator_dst_address, amount } ==> {
            &&& r is Ok
            &&& r->Ok_0.messages@ == seq![
                NoriaMsg::Alliance(
                    AllianceMsg::Redelegate {
                        delegator_address: info.sender,
                        validator_src_address: validator_src_address,
                        validator_dst_address: validator_dst_address,
                        amount: amount,
                    },
                ),
            ]
            &&& r->Ok_0.attribute_pairs() == seq![("method"@, "redelegate"@), ("module"@, "alliance"@)]
        },
        msg matches ExecuteMsg::ClaimDelegationRewards { validator_address, denom } ==> {
            &&& r is Ok
            &&& r->Ok_0.messages@ == seq![
                NoriaMsg::Alliance(
                    AllianceMsg::ClaimDelegationRewards {
                        delegator_address: info.sender,
                        validator_address: validator_address,
                        denom: denom,
                    },
                ),
            ]
            &&& r->Ok_0.attribute_pairs() == seq![("method"@, "claim_rewards"@), ("module"@, "alliance"@)]
        },
{
    match msg {
        ExecuteMsg::Delegate { validator_address, amount } => delegate(
            info,
            validator_address,
            amount,
        ),
        ExecuteMsg::Undelegate { validator_address, amount } => undelegate(
            info,
            validator_address,
            amount,
        ),
        ExecuteMsg::Redelegate { validator_src_address, validator_dst_address, amount } =>
            redelegate(info, validator_src_address, validator_dst_address, amount),
        ExecuteMsg::ClaimDelegationRewards { validator_address, denom } => claim_rewards(
            info,
            validator_address,
            denom,
        ),
    }
}

/// Each execute message is answered by the alliance message of the same kind, on
/// behalf of the sender, with every other field as given and in the same place, and
/// is named after its own handler.
pub proof fn lemma_execute_message_matches_request(sender: String, msg: ExecuteMsg)
    ensures
        msg matches ExecuteMsg::Delegate { validator_address, amount } ==> {
            &&& alliance_msg_of(sender, msg) == AllianceMsg::Delegate {
                delegator_address: sender,
                validator_address: validator_address,
                amount: amount,
            }
            &&& method_of(msg) == "delegate"@
        },
        msg matches ExecuteMsg::Undelegate { validator_address, amount } ==> {
            &&& alliance_msg_of(sender, msg) == AllianceMsg::Undelegate {
                delegator_address: sender,
                validator_address: validator_address,
                amount: amount,
            }
            &&& method_of(msg) == "undelegate"@
        },
        msg matches ExecuteMsg::Redelegate { validator_src_address, validator_dst_address, amount } ==> {
            &&& alliance_msg_of(sender, msg) == AllianceMsg::Redelegate {
                delegator_address: sender,
                validator_src_address: validator_src_address,
                validator_dst_address: validator_dst_address,
                amount: amount,
            }
            &&& method_of(msg) == "redelegate"@
        },
        msg matches ExecuteMsg::ClaimDelegationRewards { validator_address, denom } ==> {
            &&& alliance_msg_of(sender, msg) == AllianceMsg::ClaimDelegationRewards {
                delegator_address: sender,
                validator_address: validator_address,
                denom: denom,
            }
            &&& method_of(msg) == "claim_rewards"@
        },
{
}

/// A handler's response is `Ok`, sends exactly the given message, and carries the
/// handler's name under `method` followed by `module = alliance`.
pub proof fn lemma_handler_response_is_exact(
    r: Result<Response<NoriaMsg>, ContractError>,
    method: Seq<char>,
    msg: AllianceMsg,
)
    requires
        is_handler_response(r, method, msg),
    ensures
        r is Ok,
        r->Ok_0.messages@ == seq![NoriaMsg::Alliance(msg)],
        r->Ok_0.messages@.len() == 1,
        r->Ok_0.attribute_pairs() == seq![("method"@, method), ("module"@, "alliance"@)],
{
}

/// Whatever the execute message, the one message sent acts on behalf of the sender
/// and no one else.
pub proof fn lemma_execute_acts_for_sender(sender: String, msg: ExecuteMsg)
    ensures
        delegator_of(alliance_msg_of(sender, msg)) == sender,
{
}

/// Handles a query: it is sent to the chain's alliance module as it came, and the
/// answer is read as the type that the query names.
pub fn query(msg: AllianceQuery) -> (p: QueryPlan)
    ensures
        p == plan_for(msg),
        p.request == NoriaQuery::Alliance(msg),
        p.expects == expected_response(msg),
{
    match msg {
        AllianceQuery::Params {  } => query::get_params(),
        AllianceQuery::Alliance { denom } => query::get_alliance(denom),
        AllianceQuery::Alliances { pagination } => query::get_alliances(pagination),
        AllianceQuery::AlliancesDelegations { pagination } => query::get_alliances_delegations(
            pagination,
        ),
        AllianceQuery::AlliancesDelegationByValidator {
            delegator_addr,
            validator_addr,
            pagination,
        } => query::get_alliances_delegations_by_validator(
            delegator_addr,
            validator_addr,
            pagination,
        ),
        AllianceQuery::Delegation { delegator_addr, validator_addr, denom } =>
            query::get_delegation(delegator_addr, validator_addr, denom),
        AllianceQuery::DelegationRewards { delegator_addr, validator_addr, denom } =>
            query::get_delegation_rewards(delegator_addr, validator_addr, denom),
        AllianceQuery::Validator { validator_addr } => query::get_validator(validator_addr),
        AllianceQuery::Validators { pagination } => query::get_validators(pagination),
    }
}

} // verus!
