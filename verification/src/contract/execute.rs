//! The handlers of the execute messages: each asks the chain's alliance module to
//! act on behalf of the sender.
use vstd::prelude::*;

use crate::contract::MessageInfo;
use crate::error::ContractError;
use crate::msg::{AllianceMsg, NoriaMsg};
use crate::response::Response;

verus! {

/// The attributes that every handler emits: the handler's name under `method`, then
/// `module = alliance`.
pub open spec fn handler_attributes(method: Seq<char>) -> Seq<(Seq<char>, Seq<char>)> {
    seq![("method"@, method), ("module"@, "alliance"@)]
}

/// The response of a handler: exactly the message `msg` to run, and the handler's
/// attributes.
pub open spec fn is_handler_response(
    r: Result<Response<NoriaMsg>, ContractError>,
    method: Seq<char>,
    msg: AllianceMsg,
) -> bool {
    &&& r is Ok
    &&& r->Ok_0.messages@ == seq![NoriaMsg::Alliance(msg)]
    &&& r->Ok_0.attribute_pairs() == handler_attributes(method)
}

/// Builds the response that sends `msg` with the handler's attributes.
fn alliance_response(method: &str, msg: AllianceMsg) -> (res: Response<NoriaMsg>)
    ensures
        res.messages@ == seq![NoriaMsg::Alliance(msg)],
        res.attribute_pairs() == handler_attributes(method@),
{
    let res = Response::new().add_attribute("method", method.to_owned()).add_attribute(
        "module",
        "alliance".to_owned(),
    ).add_message(NoriaMsg::Alliance(msg));
    assert(res.messages@ =~= seq![NoriaMsg::Alliance(msg)]);
    assert(res.attribute_pairs() =~= handler_attributes(method@));
    res
}

/// Delegates `amount` from the sender to the validator.
pub fn delegate(info: MessageInfo, validator_address: String, amount: cosmwasm_std::Coin) -> (r:
    Result<Response<NoriaMsg>, ContractError>)
    ensures
        is_handler_response(
            r,
            "delegate"@,
            AllianceMsg::Delegate {
                delegator_address: info.sender,
                validator_address: validator_address,
                amount: amount,
            },
        ),
{
    let msg = AllianceMsg::Delegate {
        delegator_address: info.sender,
        validator_address,
        amount,
    };
    Ok(alliance_response("delegate", msg))
}

/// Undelegates `amount` of the sender from the validator.
pub fn undelegate(info: MessageInfo, validator_address: String, amount: cosmwasm_std::Coin) -> (r:
    Result<Response<NoriaMsg>, ContractError>)
    ensures
        is_handler_response(
            r,
            "undelegate"@,
            AllianceMsg::Undelegate {
                delegator_address: info.sender,
                validator_address: validator_address,
                amount: amount,
            },
        ),
{
    let msg = AllianceMsg::Undelegate {
        delegator_address: info.sender,
        validator_address,
        amount,
    };
    Ok(alliance_response("undelegate", msg))
}

/// Moves `amount` of the sender's delegation from one validator to another.
pub fn redelegate(
    info: MessageInfo,
    validator_src_address: String,
    validator_dst_address: String,
    amount: cosmwasm_std::Coin,
) -> (r: Result<Response<NoriaMsg>, ContractError>)
    ensures
        is_handler_response(
            r,
            "redelegate"@,
            AllianceMsg::Redelegate {
                delegator_address: info.sender,
                validator_src_address: validator_src_address,
                validator_dst_address: validator_dst_address,
                amount: amount,
            },
        ),
{
    let msg = AllianceMsg::Redelegate {
        delegator_address: info.sender,
        validator_src_address,
        validator_dst_address,
        amount,
    };
    Ok(alliance_response("redelegate", msg))
}

/// Claims the sender's rewards in `denom` from the validator.
pub fn claim_rewards(info: MessageInfo, validator_address: String, denom: String) -> (r: Result<
    Response<NoriaMsg>,
    ContractError,
>)
    ensures
        is_handler_response(
            r,
            "claim_rewards"@,
            AllianceMsg::ClaimDelegationRewards {
                delegator_address: info.sender,
                validator_address: validator_address,
                denom: denom,
            },
        ),
{
    let msg = AllianceMsg::ClaimDelegationRewards {
        delegator_address: info.sender,
        validator_address,
        denom,
    };
    Ok(alliance_response("claim_rewards", msg))
}

} // verus!
