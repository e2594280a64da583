use pokearch::contract::{execute, process_grant, sudo};
use pokearch::cwfees::{CwGrant, Msg, SudoMsg};
use pokearch::msg::ExecuteMsg;
use pokearch::state::Registry;
use pokearch::ContractError;

const EXECUTE_URL: &str = "cosmwasm.wasm.v1.MsgExecuteContract";

fn action(sender: &str, type_url: &str) -> Msg {
    Msg {
        sender: sender.to_string(),
        type_url: type_url.to_string(),
        msg: Vec::new(),
    }
}

fn registry_allowing(addrs: &[&str]) -> Registry {
    let mut reg = Registry::new();
    for a in addrs {
        execute(
            &mut reg,
            a.to_string(),
            "cosmos2contract".to_string(),
            ExecuteMsg::AddAllowance(a.to_string()),
        )
        .unwrap();
    }
    reg
}

#[test]
fn empty_batch_is_accepted() {
    let reg = registry_allowing(&[]);
    let grant = CwGrant {
        fee_requested: Vec::new(),
        msgs: Vec::new(),
    };
    let res = process_grant(&reg, grant).unwrap();
    assert_eq!(res.messages.len(), 0);
}

#[test]
fn valid_batch_is_accepted() {
    let reg = registry_allowing(&["alice", "bob"]);
    let grant = CwGrant {
        fee_requested: Vec::new(),
        msgs: vec![
            action("alice", EXECUTE_URL),
            action("bob", EXECUTE_URL),
            action("alice", EXECUTE_URL),
        ],
    };
    assert!(process_grant(&reg, grant).is_ok());
}

#[test]
fn one_unallowed_sender_rejects_the_whole_batch() {
    let reg = registry_allowing(&["alice", "bob"]);
    let grant = CwGrant {
        fee_requested: Vec::new(),
        msgs: vec![
            action("alice", EXECUTE_URL),
            action("mallory", EXECUTE_URL),
            action("bob", EXECUTE_URL),
        ],
    };
    let err = process_grant(&reg, grant).unwrap_err();
    assert!(matches!(err, ContractError::Unauthorized {}));
}

#[test]
fn unexpected_message_type_rejects_the_batch() {
    let reg = registry_allowing(&["alice"]);
    let grant = CwGrant {
        fee_requested: Vec::new(),
        msgs: vec![
            action("alice", EXECUTE_URL),
            action("alice", "cosmos.bank.v1beta1.MsgSend"),
        ],
    };
    let err = process_grant(&reg, grant).unwrap_err();
    match err {
        ContractError::DisallowedMessage(url) => {
            assert_eq!(url, "cosmos.bank.v1beta1.MsgSend");
        }
        other => panic!("expected a disallowed-message error, got {:?}", other),
    }
}

#[test]
fn unallowed_sender_wins_over_bad_type_on_the_same_action() {
    // the sender check of each action comes first
    let reg = registry_allowing(&[]);
    let grant = CwGrant {
        fee_requested: Vec::new(),
        msgs: vec![action("mallory", "cosmos.bank.v1beta1.MsgSend")],
    };
    let err = process_grant(&reg, grant).unwrap_err();
    assert!(matches!(err, ContractError::Unauthorized {}));
}

#[test]
fn sudo_dispatches_grants() {
    let reg = registry_allowing(&["alice"]);
    let grant = CwGrant {
        fee_requested: Vec::new(),
        msgs: vec![action("alice", EXECUTE_URL)],
    };
    assert!(sudo(&reg, SudoMsg::CwGrant(grant)).is_ok());
}
