use dropnote::contract::{execute, instantiate, query, reply};
use dropnote::error::ContractError;
use dropnote::msg::{Coin, ExecuteMsg, InstantiateMsg, QueryMsg};
use dropnote::response::{Response, SETTLE_REPLY_ID};
use dropnote::state::{Policy, State};

fn fresh_state(owner: &str) -> State {
    let (state, _resp) = instantiate(owner.to_string(), InstantiateMsg {});
    state
}

fn one_unit() -> Vec<Coin> {
    vec![Coin { denom: "unit".to_string(), amount: 1 }]
}

fn attrs_of(resp: &Response) -> Vec<(String, String)> {
    resp.attributes.iter().map(|a| (a.key.clone(), a.value.clone())).collect()
}

fn event_attrs_of(resp: &Response, i: usize) -> Vec<(String, String)> {
    resp.events[i].attributes.iter().map(|a| (a.key.clone(), a.value.clone())).collect()
}

#[test]
fn instantiate_sets_owner_and_empty_slots() {
    let (state, resp) = instantiate("alice".to_string(), InstantiateMsg {});
    assert_eq!(state.owner, "alice");
    assert!(state.pending_message.is_none());
    assert!(state.encryption_key.is_none());
    assert!(resp.attributes.is_empty());
    assert!(resp.events.is_empty());
    assert!(resp.payment.is_none());
}

#[test]
fn query_owner_returns_instantiator() {
    let state = fresh_state("A");
    let r = query(&state, QueryMsg::Owner {});
    assert_eq!(r.owner, "A");
}

#[test]
fn escrowed_submit_parks_message_and_schedules_refund() {
    let state = fresh_state("A");
    let msg = ExecuteMsg::SubmitMessage {
        message: "hi".to_string(),
        recipient: "B".to_string(),
        encrypted: false,
        funds: one_unit(),
    };
    let (s1, resp) = execute(&state, Policy::Escrowed, "A".to_string(), msg).unwrap();
    assert_eq!(s1.pending_message.as_deref(), Some("hi"));
    assert_eq!(s1.owner, "A");
    let p = resp.payment.as_ref().expect("a refund payment must be scheduled");
    assert_eq!(p.to_address, "A");
    assert_eq!(p.denom, "unit");
    assert_eq!(p.amount, 1);
    assert!(resp.events.is_empty());
    assert_eq!(attrs_of(&resp), vec![("action".to_string(), "submit_message".to_string())]);
}

#[test]
fn escrowed_submit_rejected_while_pending() {
    let mut state = fresh_state("A");
    state.pending_message = Some("stuck".to_string());
    let msg = ExecuteMsg::SubmitMessage {
        message: "hi".to_string(),
        recipient: "B".to_string(),
        encrypted: false,
        funds: one_unit(),
    };
    let err = execute(&state, Policy::Escrowed, "A".to_string(), msg).unwrap_err();
    assert!(matches!(err, ContractError::AlreadyPending {}));
}

#[test]
fn escrowed_submit_rejects_wrong_fund_shape() {
    let state = fresh_state("A");
    for funds in [
        Vec::new(),
        vec![
            Coin { denom: "unit".to_string(), amount: 1 },
            Coin { denom: "unit".to_string(), amount: 2 },
        ],
    ] {
        let msg = ExecuteMsg::SubmitMessage {
            message: "hi".to_string(),
            recipient: "B".to_string(),
            encrypted: false,
            funds,
        };
        let err = execute(&state, Policy::Escrowed, "A".to_string(), msg).unwrap_err();
        assert!(matches!(err, ContractError::InvalidFunds {}));
    }
}

#[test]
fn settlement_success_clears_slot_and_echoes_message() {
    let state = fresh_state("A");
    let msg = ExecuteMsg::SubmitMessage {
        message: "hi".to_string(),
        recipient: "B".to_string(),
        encrypted: false,
        funds: one_unit(),
    };
    let (s1, _resp) = execute(&state, Policy::Escrowed, "A".to_string(), msg).unwrap();
    let (s2, resp) = reply(&s1, Policy::Escrowed, SETTLE_REPLY_ID, true).unwrap();
    assert!(s2.pending_message.is_none());
    assert_eq!(s2.owner, "A");
    assert_eq!(resp.events.len(), 1);
    assert_eq!(resp.events[0].ty, "dropnote");
    assert_eq!(
        event_attrs_of(&resp, 0),
        vec![
            ("type".to_string(), "settle".to_string()),
            ("message".to_string(), "hi".to_string()),
        ]
    );
}

#[test]
fn settlement_failure_clears_slot_and_omits_message() {
    let state = fresh_state("A");
    let msg = ExecuteMsg::SubmitMessage {
        message: "hi".to_string(),
        recipient: "B".to_string(),
        encrypted: false,
        funds: one_unit(),
    };
    let (s1, _resp) = execute(&state, Policy::Escrowed, "A".to_string(), msg).unwrap();
    let (s2, resp) = reply(&s1, Policy::Escrowed, SETTLE_REPLY_ID, false).unwrap();
    assert!(s2.pending_message.is_none());
    assert_eq!(
        event_attrs_of(&resp, 0),
        vec![("type".to_string(), "settle".to_string())]
    );
}

#[test]
fn settlement_on_empty_slot_is_inconsistent() {
    let state = fresh_state("A");
    let err = reply(&state, Policy::Escrowed, SETTLE_REPLY_ID, true).unwrap_err();
    assert!(matches!(err, ContractError::InconsistentState {}));
}

#[test]
fn unknown_callback_identifier_is_rejected() {
    let mut state = fresh_state("A");
    state.pending_message = Some("hi".to_string());
    let err = reply(&state, Policy::Escrowed, SETTLE_REPLY_ID + 41, true).unwrap_err();
    assert!(matches!(err, ContractError::UnknownCallback { id } if id == SETTLE_REPLY_ID + 41));
    let err = reply(&state, Policy::Broadcast, SETTLE_REPLY_ID, true).unwrap_err();
    assert!(matches!(err, ContractError::UnknownCallback { id } if id == SETTLE_REPLY_ID));
}

#[test]
fn broadcast_submit_echoes_fields_and_keeps_record() {
    let state = fresh_state("A");
    let msg = ExecuteMsg::SubmitMessage {
        message: "hello".to_string(),
        recipient: "B".to_string(),
        encrypted: true,
        funds: Vec::new(),
    };
    let (s1, resp) = execute(&state, Policy::Broadcast, "C".to_string(), msg).unwrap();
    assert_eq!(s1.owner, state.owner);
    assert_eq!(s1.pending_message, state.pending_message);
    assert_eq!(s1.encryption_key, state.encryption_key);
    assert!(resp.payment.is_none());
    assert_eq!(resp.events.len(), 1);
    assert_eq!(resp.events[0].ty, "dropnote");
    assert_eq!(
        event_attrs_of(&resp, 0),
        vec![
            ("type".to_string(), "message".to_string()),
            ("message".to_string(), "hello".to_string()),
            ("recipient".to_string(), "B".to_string()),
            ("encrypted".to_string(), "true".to_string()),
            ("sender".to_string(), "C".to_string()),
        ]
    );
    assert_eq!(attrs_of(&resp), vec![("action".to_string(), "execute".to_string())]);
}

#[test]
fn announce_echoes_fields_and_keeps_record() {
    let state = fresh_state("A");
    let msg = ExecuteMsg::Announce { message: "news".to_string() };
    let (s1, resp) = execute(&state, Policy::Broadcast, "B".to_string(), msg).unwrap();
    assert_eq!(s1.owner, state.owner);
    assert_eq!(s1.pending_message, state.pending_message);
    assert_eq!(s1.encryption_key, state.encryption_key);
    assert_eq!(
        event_attrs_of(&resp, 0),
        vec![
            ("type".to_string(), "announce".to_string()),
            ("message".to_string(), "news".to_string()),
            ("sender".to_string(), "B".to_string()),
        ]
    );
    let msg = ExecuteMsg::Announce { message: "news".to_string() };
    let (s2, _resp) = execute(&state, Policy::Escrowed, "B".to_string(), msg).unwrap();
    assert_eq!(s2.pending_message, state.pending_message);
}

#[test]
fn set_encryption_key_by_owner_updates_and_clears() {
    let state = fresh_state("A");
    let msg = ExecuteMsg::SetEncryptionKey { key: Some("pk".to_string()) };
    let (s1, resp) = execute(&state, Policy::Escrowed, "A".to_string(), msg).unwrap();
    assert_eq!(s1.encryption_key.as_deref(), Some("pk"));
    assert_eq!(s1.owner, "A");
    assert_eq!(
        event_attrs_of(&resp, 0),
        vec![
            ("type".to_string(), "pubkey".to_string()),
            ("key".to_string(), "pk".to_string()),
        ]
    );
    let msg = ExecuteMsg::SetEncryptionKey { key: None };
    let (s2, resp) = execute(&s1, Policy::Escrowed, "A".to_string(), msg).unwrap();
    assert!(s2.encryption_key.is_none());
    assert_eq!(
        event_attrs_of(&resp, 0),
        vec![
            ("type".to_string(), "pubkey".to_string()),
            ("key".to_string(), String::new()),
        ]
    );
}

#[test]
fn set_encryption_key_by_other_caller_is_unauthorized() {
    let state = fresh_state("A");
    let msg = ExecuteMsg::SetEncryptionKey { key: Some("pk".to_string()) };
    let err = execute(&state, Policy::Escrowed, "B".to_string(), msg).unwrap_err();
    assert!(matches!(err, ContractError::Unauthorized {}));
    assert!(state.encryption_key.is_none());
    let msg = ExecuteMsg::SetEncryptionKey { key: Some("pk".to_string()) };
    let err = execute(&state, Policy::Broadcast, "B".to_string(), msg).unwrap_err();
    assert!(matches!(err, ContractError::Unauthorized {}));
}

#[test]
fn emergency_reset_is_owner_only_and_clears_slot() {
    let mut state = fresh_state("A");
    state.pending_message = Some("stuck".to_string());
    let err = execute(&state, Policy::Escrowed, "B".to_string(), ExecuteMsg::EmergencyReset {})
        .unwrap_err();
    assert!(matches!(err, ContractError::Unauthorized {}));
    let (s1, resp) = execute(&state, Policy::Escrowed, "A".to_string(), ExecuteMsg::EmergencyReset {})
        .unwrap();
    assert!(s1.pending_message.is_none());
    assert_eq!(s1.owner, "A");
    assert!(resp.events.is_empty());
    assert_eq!(attrs_of(&resp), vec![("action".to_string(), "emergency_reset".to_string())]);
}

#[test]
fn emergency_reset_is_not_part_of_the_broadcast_policy() {
    let state = fresh_state("A");
    let err = execute(&state, Policy::Broadcast, "A".to_string(), ExecuteMsg::EmergencyReset {})
        .unwrap_err();
    assert!(matches!(err, ContractError::GenericError { .. }));
}

#[test]
fn generic_error_carries_its_message() {
    let err = ContractError::generic("boom".to_string());
    assert!(matches!(err, ContractError::GenericError { msg } if msg == "boom"));
}

#[test]
fn owner_survives_a_long_mixed_sequence() {
    let mut state = fresh_state("A");
    for round in 0..3u32 {
        let msg = ExecuteMsg::SubmitMessage {
            message: format!("m{round}"),
            recipient: "B".to_string(),
            encrypted: false,
            funds: one_unit(),
        };
        let (s, _) = execute(&state, Policy::Escrowed, "A".to_string(), msg).unwrap();
        state = s;
        let (s, _) = reply(&state, Policy::Escrowed, SETTLE_REPLY_ID, round % 2 == 0).unwrap();
        state = s;
        let msg = ExecuteMsg::SetEncryptionKey { key: Some(format!("pk{round}")) };
        let (s, _) = execute(&state, Policy::Escrowed, "A".to_string(), msg).unwrap();
        state = s;
        let msg = ExecuteMsg::Announce { message: "ping".to_string() };
        let (s, _) = execute(&state, Policy::Escrowed, "A".to_string(), msg).unwrap();
        state = s;
    }
    assert_eq!(state.owner, "A");
    assert_eq!(query(&state, QueryMsg::Owner {}).owner, "A");
}
