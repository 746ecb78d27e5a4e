use alliance::contract::execute::{claim_rewards, delegate, redelegate, undelegate};
use alliance::contract::{execute, instantiate, MessageInfo, CONTRACT_NAME};
use alliance::msg::{AllianceMsg, ExecuteMsg, InstantiateMsg, NoriaMsg};
use alliance::response::{Attribute, Response};
use alliance::state::State;
use cosmwasm_std::Coin;

fn info(sender: &str) -> MessageInfo {
    MessageInfo { sender: sender.to_string(), funds: vec![] }
}

fn attr(key: &str, value: &str) -> Attribute {
    Attribute { key: key.to_string(), value: value.to_string() }
}

fn handler_attrs(method: &str) -> Vec<Attribute> {
    vec![attr("method", method), attr("module", "alliance")]
}

#[test]
fn delegate_sends_one_delegate_message_for_the_sender() {
    let res = delegate(info("alice"), "val1".to_string(), Coin::new(100, "uluna")).unwrap();
    assert_eq!(
        res.messages,
        vec![NoriaMsg::Alliance(AllianceMsg::Delegate {
            delegator_address: "alice".to_string(),
            validator_address: "val1".to_string(),
            amount: Coin::new(100, "uluna"),
        })]
    );
    assert_eq!(res.attributes, handler_attrs("delegate"));
}

#[test]
fn undelegate_sends_one_undelegate_message_for_the_sender() {
    let res = undelegate(info("bob"), "val2".to_string(), Coin::new(7, "ibc/abc")).unwrap();
    assert_eq!(
        res.messages,
        vec![NoriaMsg::Alliance(AllianceMsg::Undelegate {
            delegator_address: "bob".to_string(),
            validator_address: "val2".to_string(),
            amount: Coin::new(7, "ibc/abc"),
        })]
    );
    assert_eq!(res.attributes, handler_attrs("undelegate"));
}

#[test]
fn redelegate_keeps_source_and_destination_in_order() {
    let res = redelegate(
        info("carol"),
        "src".to_string(),
        "dst".to_string(),
        Coin::new(0, "uluna"),
    )
    .unwrap();
    assert_eq!(
        res.messages,
        vec![NoriaMsg::Alliance(AllianceMsg::Redelegate {
            delegator_address: "carol".to_string(),
            validator_src_address: "src".to_string(),
            validator_dst_address: "dst".to_string(),
            amount: Coin::new(0, "uluna"),
        })]
    );
    assert_eq!(res.attributes, handler_attrs("redelegate"));
}

#[test]
fn claim_rewards_sends_one_claim_message_for_the_sender() {
    let res = claim_rewards(info("dave"), "val3".to_string(), "uluna".to_string()).unwrap();
    assert_eq!(
        res.messages,
        vec![NoriaMsg::Alliance(AllianceMsg::ClaimDelegationRewards {
            delegator_address: "dave".to_string(),
            validator_address: "val3".to_string(),
            denom: "uluna".to_string(),
        })]
    );
    assert_eq!(res.attributes, handler_attrs("claim_rewards"));
}

#[test]
fn execute_dispatches_each_message_to_its_handler() {
    let cases = vec![
        (
            ExecuteMsg::Delegate {
                validator_address: "v".to_string(),
                amount: Coin::new(5, "a"),
            },
            delegate(info("s"), "v".to_string(), Coin::new(5, "a")).unwrap(),
        ),
        (
            ExecuteMsg::Undelegate {
                validator_address: "v".to_string(),
                amount: Coin::new(6, "b"),
            },
            undelegate(info("s"), "v".to_string(), Coin::new(6, "b")).unwrap(),
        ),
        (
            ExecuteMsg::Redelegate {
                validator_src_address: "v1".to_string(),
                validator_dst_address: "v2".to_string(),
                amount: Coin::new(8, "c"),
            },
            redelegate(info("s"), "v1".to_string(), "v2".to_string(), Coin::new(8, "c")).unwrap(),
        ),
        (
            ExecuteMsg::ClaimDelegationRewards {
                validator_address: "v".to_string(),
                denom: "d".to_string(),
            },
            claim_rewards(info("s"), "v".to_string(), "d".to_string()).unwrap(),
        ),
    ];
    for (msg, expected) in cases {
        assert_eq!(execute(info("s"), msg).unwrap(), expected);
    }
}

#[test]
fn execute_acts_for_the_sender_whatever_the_funds() {
    let with_funds = MessageInfo {
        sender: "erin".to_string(),
        funds: vec![Coin::new(1, "uluna")],
    };
    let res = execute(
        with_funds,
        ExecuteMsg::Delegate { validator_address: "v".to_string(), amount: Coin::new(2, "x") },
    )
    .unwrap();
    assert_eq!(res.messages.len(), 1);
    match &res.messages[0] {
        NoriaMsg::Alliance(AllianceMsg::Delegate { delegator_address, .. }) => {
            assert_eq!(delegator_address, "erin")
        }
        other => panic!("unexpected message {:?}", other),
    }
}

#[test]
fn instantiate_makes_the_sender_owner() {
    let inst = instantiate(info("creator"), InstantiateMsg {}, "0.1.0").unwrap();
    assert_eq!(inst.contract_name, "crates.io:alliance");
    assert_eq!(inst.contract_name, CONTRACT_NAME);
    assert_eq!(inst.contract_version, "0.1.0");
    assert_eq!(inst.state, State { owner: "creator".to_string() });
    assert!(inst.response.messages.is_empty());
    assert_eq!(
        inst.response.attributes,
        vec![attr("method", "instantiate"), attr("owner", "creator")]
    );
}

#[test]
fn response_builder_appends_in_order() {
    let res: Response<u8> = Response::new()
        .add_attribute("a", "1".to_string())
        .add_message(3)
        .add_attribute("b", "2".to_string())
        .add_message(4);
    assert_eq!(res.messages, vec![3, 4]);
    assert_eq!(res.attributes, vec![attr("a", "1"), attr("b", "2")]);
    let empty: Response<u8> = Response::new();
    assert!(empty.messages.is_empty() && empty.attributes.is_empty());
}

#[test]
fn cloned_messages_keep_their_coins() {
    let msg = ExecuteMsg::Redelegate {
        validator_src_address: "a".to_string(),
        validator_dst_address: "b".to_string(),
        amount: Coin::new(42, "uluna"),
    };
    assert_eq!(msg.clone(), msg);
    let coin = Coin::new(u128::MAX, "big");
    let sent = delegate(info("s"), "v".to_string(), coin.clone()).unwrap();
    match &sent.messages[0] {
        NoriaMsg::Alliance(AllianceMsg::Delegate { amount, .. }) => assert_eq!(amount, &coin),
        other => panic!("unexpected message {:?}", other),
    }
}
