use vstd::prelude::*;

use crate::error::ContractError;
use crate::msg::{Coin, CoinModel, ExecuteMsg, InstantiateMsg, OwnerResponse, QueryMsg, coins_view};
use crate::response::{
    attr, attr_owned, Attribute, AttributeModel, Event, EventModel, Payment, PaymentModel,
    Response, ResponseModel, SETTLE_REPLY_ID,
};
use crate::state::{clone_opt_string, opt_str_view, Policy, State, StateModel};

verus! {

// ---------------------------------------------------------------------------
// The mathematical transition relation: what each handler does to the record
// and what response it emits, stated over record and response values.
// ---------------------------------------------------------------------------

/// The record after a submission parks `message` in the pending slot.
pub open spec fn pending_record(pre: StateModel, message: Seq<char>) -> StateModel {
    StateModel { pending_message: Some(message), ..pre }
}

/// The record after the pending slot is cleared.
pub open spec fn settled_record(pre: StateModel) -> StateModel {
    StateModel { pending_message: None, ..pre }
}

/// The record after the published encryption key is overwritten.
pub open spec fn rekeyed_record(pre: StateModel, key: Option<Seq<char>>) -> StateModel {
    StateModel { encryption_key: key, ..pre }
}

/// The caller-visible text of a boolean flag.
pub open spec fn bool_text(b: bool) -> Seq<char> {
    if b {
        "true"@
    } else {
        "false"@
    }
}

/// The event a broadcast submission emits: every input field echoed.
pub open spec fn broadcast_event(
    sender: Seq<char>,
    message: Seq<char>,
    recipient: Seq<char>,
    encrypted: bool,
) -> EventModel {
    EventModel {
        ty: "dropnote"@,
        attributes: seq![
            (AttributeModel { key: "type"@, value: "message"@ }),
            (AttributeModel { key: "message"@, value: message }),
            (AttributeModel { key: "recipient"@, value: recipient }),
            (AttributeModel { key: "encrypted"@, value: bool_text(encrypted) }),
            (AttributeModel { key: "sender"@, value: sender }),
        ],
    }
}

/// The event an announcement emits.
pub open spec fn announce_event(sender: Seq<char>, message: Seq<char>) -> EventModel {
    EventModel {
        ty: "dropnote"@,
        attributes: seq![
            (AttributeModel { key: "type"@, value: "announce"@ }),
            (AttributeModel { key: "message"@, value: message }),
            (AttributeModel { key: "sender"@, value: sender }),
        ],
    }
}

/// The event a key rotation emits: the new key, or empty text on clearing.
pub open spec fn pubkey_event(key: Option<Seq<char>>) -> EventModel {
    EventModel {
        ty: "dropnote"@,
        attributes: seq![
            (AttributeModel { key: "type"@, value: "pubkey"@ }),
            (AttributeModel {
                key: "key"@,
                value: match key {
                    Some(k) => k,
                    None => Seq::empty(),
                },
            }),
        ],
    }
}

/// The event a settlement emits: the settled message is included exactly
/// when the payment succeeded, so a failed delivery is signalled without
/// leaking the payload.
pub open spec fn settle_event(success: bool, message: Seq<char>) -> EventModel {
    EventModel {
        ty: "dropnote"@,
        attributes: if success {
            seq![
                (AttributeModel { key: "type"@, value: "settle"@ }),
                (AttributeModel { key: "message"@, value: message }),
            ]
        } else {
            seq![(AttributeModel { key: "type"@, value: "settle"@ })]
        },
    }
}

/// A response of one action attribute and one event, with no payment.
pub open spec fn event_response(action: Seq<char>, ev: EventModel) -> ResponseModel {
    ResponseModel {
        attributes: seq![(AttributeModel { key: "action"@, value: action })],
        events: seq![ev],
        payment: None,
    }
}

/// The response of an accepted escrowed submission: no event yet, and the
/// one attached fund unit scheduled straight back to the sender, to be
/// confirmed by the settlement callback.
pub open spec fn escrow_response(sender: Seq<char>, coin: CoinModel) -> ResponseModel {
    ResponseModel {
        attributes: seq![(AttributeModel { key: "action"@, value: "submit_message"@ })],
        events: Seq::empty(),
        payment: Some(
            (PaymentModel { to_address: sender, denom: coin.denom, amount: coin.amount }),
        ),
    }
}

/// The response of an emergency reset: administrative, no event.
pub open spec fn reset_response() -> ResponseModel {
    ResponseModel {
        attributes: seq![(AttributeModel { key: "action"@, value: "emergency_reset"@ })],
        events: Seq::empty(),
        payment: None,
    }
}

/// Owner invariance of one committed step.
pub open spec fn owner_preserved(pre: StateModel, post: StateModel) -> bool {
    post.owner == pre.owner
}

// ---------------------------------------------------------------------------
// Full per-handler contracts, shared between each handler and the dispatcher.
// ---------------------------------------------------------------------------

/// Contract of an escrowed submission: rejected with `AlreadyPending` while
/// a settlement is in flight, with `InvalidFunds` unless exactly one fund
/// unit is attached; otherwise the message is parked and the fund unit is
/// scheduled back to the sender.
pub open spec fn submit_escrowed_spec(
    state: StateModel,
    sender: Seq<char>,
    message: Seq<char>,
    funds: Seq<CoinModel>,
    r: Result<(State, Response), ContractError>,
) -> bool {
    &&& (r is Ok <==> state.pending_message is None && funds.len() == 1)
    &&& (state.pending_message is Some ==> (r matches Err(e) && e is AlreadyPending))
    &&& (state.pending_message is None && funds.len() != 1 ==> (r matches Err(e)
        && e is InvalidFunds))
    &&& (r matches Ok(p) ==> p.0@ == pending_record(state, message) && p.1@ == escrow_response(
        sender,
        funds[0],
    ))
}

/// Contract of a broadcast submission: always succeeds, never touches the
/// record, and emits one event whose attributes echo the input fields.
pub open spec fn submit_broadcast_spec(
    state: StateModel,
    sender: Seq<char>,
    message: Seq<char>,
    recipient: Seq<char>,
    encrypted: bool,
    r: Result<(State, Response), ContractError>,
) -> bool {
    &&& r is Ok
    &&& (r matches Ok(p) ==> p.0@ == state && p.1@ == event_response(
        "execute"@,
        broadcast_event(sender, message, recipient, encrypted),
    ))
}

/// Contract of an announcement: open to any caller, always succeeds, never
/// touches the record, and emits one event echoing message and sender.
pub open spec fn announce_spec(
    state: StateModel,
    sender: Seq<char>,
    message: Seq<char>,
    r: Result<(State, Response), ContractError>,
) -> bool {
    &&& r is Ok
    &&& (r matches Ok(p) ==> p.0@ == state && p.1@ == event_response(
        "announce"@,
        announce_event(sender, message),
    ))
}

/// Contract of a key rotation: owner-only, and on success the record holds
/// exactly the new key while everything else is untouched.
pub open spec fn set_key_spec(
    state: StateModel,
    sender: Seq<char>,
    key: Option<Seq<char>>,
    r: Result<(State, Response), ContractError>,
) -> bool {
    &&& (r is Ok <==> sender == state.owner)
    &&& (r matches Err(e) ==> e is Unauthorized)
    &&& (r matches Ok(p) ==> p.0@ == rekeyed_record(state, key) && p.1@ == event_response(
        "set_encryption_key"@,
        pubkey_event(key),
    ))
}

/// Contract of an emergency reset: owner-only, and on success the pending
/// slot is cleared unconditionally, bypassing settlement.
pub open spec fn reset_spec(
    state: StateModel,
    sender: Seq<char>,
    r: Result<(State, Response), ContractError>,
) -> bool {
    &&& (r is Ok <==> sender == state.owner)
    &&& (r matches Err(e) ==> e is Unauthorized)
    &&& (r matches Ok(p) ==> p.0@ == settled_record(state) && p.1@ == reset_response())
}

/// Contract of the settlement callback: an unknown identifier is rejected,
/// a callback onto an empty pending slot is a protocol violation, and
/// otherwise the slot is cleared whatever the payment's outcome was, with
/// the settled message echoed in the event exactly when it succeeded.
pub open spec fn reply_spec(
    state: StateModel,
    policy: Policy,
    id: u64,
    success: bool,
    r: Result<(State, Response), ContractError>,
) -> bool {
    &&& (policy is Broadcast || id != SETTLE_REPLY_ID ==> (r matches Err(e) && e
        == (ContractError::UnknownCallback { id })))
    &&& (policy is Escrowed && id == SETTLE_REPLY_ID && state.pending_message is None
        ==> (r matches Err(e) && e is InconsistentState))
    &&& (policy is Escrowed && id == SETTLE_REPLY_ID && state.pending_message is Some && r is Ok
        ==> r->Ok_0.0@ == settled_record(state) && r->Ok_0.1@ == event_response(
        "settle"@,
        settle_event(success, state.pending_message.unwrap()),
    ))
    &&& (r is Ok <==> policy is Escrowed && id == SETTLE_REPLY_ID
        && state.pending_message is Some)
}

// ---------------------------------------------------------------------------
// Handlers.
// ---------------------------------------------------------------------------

/// Creates the one record of the instance: the instantiating caller becomes
/// the owner for good, both optional slots start empty, and the response
/// carries nothing.
pub fn instantiate(sender: String, _msg: InstantiateMsg) -> (r: (State, Response))
    ensures
        r.0@ == (StateModel {
            owner: sender@,
            pending_message: None,
            encryption_key: None,
        }),
        r.1@.attributes.len() == 0,
        r.1@.events.len() == 0,
        r.1@.payment is None,
{
    let state = State { owner: sender, pending_message: None, encryption_key: None };
    let resp = Response { attributes: Vec::new(), events: Vec::new(), payment: None };
    proof {
        assert(resp@.attributes =~= Seq::<AttributeModel>::empty());
        assert(resp@.events =~= Seq::<EventModel>::empty());
    }
    (state, resp)
}

/// Pure access control: succeeds exactly when the caller is the owner.
pub fn assert_owner(state: &State, sender: &String) -> (r: Result<(), ContractError>)
    ensures
        r is Ok <==> sender@ == state@.owner,
        r matches Err(e) ==> e is Unauthorized,
{
    if sender.eq(&state.owner) {
        Ok(())
    } else {
        Err(ContractError::Unauthorized {})
    }
}

/// Routes a command to its handler under the deployment's policy.
pub fn execute(state: &State, policy: Policy, sender: String, msg: ExecuteMsg) -> (r: Result<
    (State, Response),
    ContractError,
>)
    ensures
        msg matches ExecuteMsg::SubmitMessage { message, recipient, encrypted, funds } ==> {
            &&& (policy is Escrowed ==> submit_escrowed_spec(
                state@,
                sender@,
                message@,
                coins_view(funds@),
                r,
            ))
            &&& (policy is Broadcast ==> submit_broadcast_spec(
                state@,
                sender@,
                message@,
                recipient@,
                encrypted,
                r,
            ))
        },
        msg matches ExecuteMsg::Announce { message } ==> announce_spec(
            state@,
            sender@,
            message@,
            r,
        ),
        msg matches ExecuteMsg::SetEncryptionKey { key } ==> set_key_spec(
            state@,
            sender@,
            opt_str_view(key),
            r,
        ),
        msg is EmergencyReset && policy is Escrowed ==> reset_spec(state@, sender@, r),
        msg is EmergencyReset && policy is Broadcast ==> (r matches Err(e) && e is GenericError),
        r matches Ok(p) ==> owner_preserved(state@, p.0@),
{
    match msg {
        ExecuteMsg::SubmitMessage { message, recipient, encrypted, funds } => match policy {
            Policy::Escrowed => exec_submit_escrowed(state, sender, message, funds),
            Policy::Broadcast => exec_submit_broadcast(state, sender, message, recipient, encrypted),
        },
        ExecuteMsg::Announce { message } => exec_announce(state, sender, message),
        ExecuteMsg::SetEncryptionKey { key } => exec_set_encryption_key(state, sender, key),
        ExecuteMsg::EmergencyReset {} => match policy {
            Policy::Escrowed => exec_emergency_reset(state, sender),
            Policy::Broadcast => Err(
                ContractError::generic("emergency reset is not part of the broadcast policy".to_owned()),
            ),
        },
    }
}

/// Escrowed submission: park the message, schedule the refund.
pub fn exec_submit_escrowed(
    state: &State,
    sender: String,
    message: String,
    funds: Vec<Coin>,
) -> (r: Result<(State, Response), ContractError>)
    ensures
        submit_escrowed_spec(state@, sender@, message@, coins_view(funds@), r),
        r matches Ok(p) ==> owner_preserved(state@, p.0@),
{
    let ghost funds0 = funds@;
    if state.pending_message.is_some() {
        return Err(ContractError::AlreadyPending {});
    }
    if funds.len() != 1 {
        return Err(ContractError::InvalidFunds {});
    }
    let mut remaining = funds;
    match remaining.pop() {
        None => Err(ContractError::InvalidFunds {}),
        Some(coin) => {
            let new_state = State {
                owner: state.owner.clone(),
                pending_message: Some(message),
                encryption_key: clone_opt_string(&state.encryption_key),
            };
            let mut attrs: Vec<Attribute> = Vec::new();
            attrs.push(attr("action", "submit_message"));
            let payment = Payment { to_address: sender, denom: coin.denom, amount: coin.amount };
            let resp = Response { attributes: attrs, events: Vec::new(), payment: Some(payment) };
            proof {
                assert(coin == funds0[0]);
                assert(resp@ =~~= escrow_response(sender@, coins_view(funds0)[0]));
                assert(new_state@ =~~= pending_record(state@, message@));
            }
            Ok((new_state, resp))
        },
    }
}

/// Broadcast submission: no escrow, no record change, one echoing event.
pub fn exec_submit_broadcast(
    state: &State,
    sender: String,
    message: String,
    recipient: String,
    encrypted: bool,
) -> (r: Result<(State, Response), ContractError>)
    ensures
        submit_broadcast_spec(state@, sender@, message@, recipient@, encrypted, r),
        r matches Ok(p) ==> owner_preserved(state@, p.0@),
{
    let new_state = crate::state::clone_state(state);
    let flag = if encrypted {
        "true"
    } else {
        "false"
    };
    let mut ev_attrs: Vec<Attribute> = Vec::new();
    ev_attrs.push(attr("type", "message"));
    ev_attrs.push(attr_owned("message", message));
    ev_attrs.push(attr_owned("recipient", recipient));
    ev_attrs.push(attr("encrypted", flag));
    ev_attrs.push(attr_owned("sender", sender));
    let mut events: Vec<Event> = Vec::new();
    events.push(Event { ty: "dropnote".to_owned(), attributes: ev_attrs });
    let mut attrs: Vec<Attribute> = Vec::new();
    attrs.push(attr("action", "execute"));
    let resp = Response { attributes: attrs, events, payment: None };
    proof {
        assert(resp@ =~~= event_response(
            "execute"@,
            broadcast_event(sender@, message@, recipient@, encrypted),
        ));
    }
    Ok((new_state, resp))
}

/// Announcement: open to any caller, no record change, one echoing event.
pub fn exec_announce(state: &State, sender: String, message: String) -> (r: Result<
    (State, Response),
    ContractError,
>)
    ensures
        announce_spec(state@, sender@, message@, r),
        r matches Ok(p) ==> owner_preserved(state@, p.0@),
{
    let new_state = crate::state::clone_state(state);
    let mut ev_attrs: Vec<Attribute> = Vec::new();
    ev_attrs.push(attr("type", "announce"));
    ev_attrs.push(attr_owned("message", message));
    ev_attrs.push(attr_owned("sender", sender));
    let mut events: Vec<Event> = Vec::new();
    events.push(Event { ty: "dropnote".to_owned(), attributes: ev_attrs });
    let mut attrs: Vec<Attribute> = Vec::new();
    attrs.push(attr("action", "announce"));
    let resp = Response { attributes: attrs, events, payment: None };
    proof {
        assert(resp@ =~~= event_response("announce"@, announce_event(sender@, message@)));
    }
    Ok((new_state, resp))
}

/// Key rotation: owner-only overwrite of the published key.
pub fn exec_set_encryption_key(state: &State, sender: String, key: Option<String>) -> (r: Result<
    (State, Response),
    ContractError,
>)
    ensures
        set_key_spec(state@, sender@, opt_str_view(key), r),
        r matches Ok(p) ==> owner_preserved(state@, p.0@),
{
    match assert_owner(state, &sender) {
        Err(e) => Err(e),
        Ok(()) => {
            let new_state = State {
                owner: state.owner.clone(),
                pending_message: clone_opt_string(&state.pending_message),
                encryption_key: clone_opt_string(&key),
            };
            let key_text: String = match key {
                Some(k) => k,
                None => String::new(),
            };
            let mut ev_attrs: Vec<Attribute> = Vec::new();
            ev_attrs.push(attr("type", "pubkey"));
            ev_attrs.push(attr_owned("key", key_text));
            let mut events: Vec<Event> = Vec::new();
            events.push(Event { ty: "dropnote".to_owned(), attributes: ev_attrs });
            let mut attrs: Vec<Attribute> = Vec::new();
            attrs.push(attr("action", "set_encryption_key"));
            let resp = Response { attributes: attrs, events, payment: None };
            proof {
                assert(new_state@ =~~= rekeyed_record(state@, opt_str_view(key)));
                assert(resp@ =~~= event_response(
                    "set_encryption_key"@,
                    pubkey_event(opt_str_view(key)),
                ));
            }
            Ok((new_state, resp))
        },
    }
}

/// Emergency reset: owner-only escape hatch for a stuck pending slot.
pub fn exec_emergency_reset(state: &State, sender: String) -> (r: Result<
    (State, Response),
    ContractError,
>)
    ensures
        reset_spec(state@, sender@, r),
        r matches Ok(p) ==> owner_preserved(state@, p.0@),
{
    match assert_owner(state, &sender) {
        Err(e) => Err(e),
        Ok(()) => {
            let new_state = State {
                owner: state.owner.clone(),
                pending_message: None,
                encryption_key: clone_opt_string(&state.encryption_key),
            };
            let mut attrs: Vec<Attribute> = Vec::new();
            attrs.push(attr("action", "emergency_reset"));
            let resp = Response { attributes: attrs, events: Vec::new(), payment: None };
            proof {
                assert(new_state@ =~~= settled_record(state@));
                assert(resp@ =~~= reset_response());
            }
            Ok((new_state, resp))
        },
    }
}

/// Settlement callback: the single finalization point of an in-flight
/// submission. The slot is cleared whether the payment succeeded or failed.
pub fn reply(state: &State, policy: Policy, id: u64, success: bool) -> (r: Result<
    (State, Response),
    ContractError,
>)
    ensures
        reply_spec(state@, policy, id, success, r),
        r matches Ok(p) ==> owner_preserved(state@, p.0@),
{
    match policy {
        Policy::Broadcast => Err(ContractError::UnknownCallback { id }),
        Policy::Escrowed => {
            if id != SETTLE_REPLY_ID {
                return Err(ContractError::UnknownCallback { id });
            }
            match &state.pending_message {
                None => Err(ContractError::InconsistentState {}),
                Some(m) => {
                    let new_state = State {
                        owner: state.owner.clone(),
                        pending_message: None,
                        encryption_key: clone_opt_string(&state.encryption_key),
                    };
                    let mut ev_attrs: Vec<Attribute> = Vec::new();
                    ev_attrs.push(attr("type", "settle"));
                    if success {
                        ev_attrs.push(attr_owned("message", m.clone()));
                    }
                    let mut events: Vec<Event> = Vec::new();
                    events.push(Event { ty: "dropnote".to_owned(), attributes: ev_attrs });
                    let mut attrs: Vec<Attribute> = Vec::new();
                    attrs.push(attr("action", "settle"));
                    let resp = Response { attributes: attrs, events, payment: None };
                    proof {
                        assert(new_state@ =~~= settled_record(state@));
                        assert(resp@ =~~= event_response(
                            "settle"@,
                            settle_event(success, state@.pending_message->0),
                        ));
                    }
                    Ok((new_state, resp))
                },
            }
        },
    }
}

/// Read-only projection of the record.
pub fn query(state: &State, msg: QueryMsg) -> (r: OwnerResponse)
    ensures
        r.owner@ == state@.owner,
{
    match msg {
        QueryMsg::Owner {} => OwnerResponse { owner: state.owner.clone() },
    }
}

// ---------------------------------------------------------------------------
// Laws.
// ---------------------------------------------------------------------------

proof fn lemma_owner_at(trace: Seq<StateModel>, i: int)
    requires
        0 <= i < trace.len(),
        forall|j: int| 0 <= j < trace.len() - 1 ==> #[trigger] owner_preserved(
            trace[j],
            trace[j + 1],
        ),
    ensures
        trace[i].owner == trace[0].owner,
    decreases i,
{
    if i > 0 {
        lemma_owner_at(trace, i - 1);
        assert(owner_preserved(trace[i - 1], trace[i - 1 + 1]));
    }
}

/// Law: across any sequence of committed records in which every step
/// preserves the owner — as every handler's contract guarantees of its
/// committed record — the owner equals the one set at instantiation.
pub proof fn lemma_owner_invariant(trace: Seq<StateModel>)
    requires
        forall|j: int| 0 <= j < trace.len() - 1 ==> #[trigger] owner_preserved(
            trace[j],
            trace[j + 1],
        ),
    ensures
        forall|i: int| 0 <= i < trace.len() ==> #[trigger] trace[i].owner == trace[0].owner,
{
    assert forall|i: int| 0 <= i < trace.len() implies #[trigger] trace[i].owner == trace[0].owner by {
        lemma_owner_at(trace, i);
    }
}

/// Law: settling a submission made on a record with an empty pending slot
/// restores that record exactly; the escrow round trip changes nothing.
pub proof fn lemma_submit_settle_round_trip(s: StateModel, message: Seq<char>)
    requires
        s.pending_message is None,
    ensures
        settled_record(pending_record(s, message)) == s,
{
    assert(settled_record(pending_record(s, message)) =~~= s);
}

/// The record the enclosing transaction commits: the handler's new record on
/// success, the old one otherwise — the host rolls back every uncommitted
/// write when a handler returns an error.
pub open spec fn committed_record(
    pre: StateModel,
    r: Result<(State, Response), ContractError>,
) -> StateModel {
    match r {
        Ok(p) => p.0@,
        Err(_) => pre,
    }
}

/// Law: a gated operation called by anyone but the owner fails with
/// `Unauthorized` and commits nothing — for every record, caller and key,
/// the record the transaction leaves behind is the old one unchanged.
pub proof fn lemma_unauthorized_commits_nothing(
    state: StateModel,
    sender: Seq<char>,
    key: Option<Seq<char>>,
    rk: Result<(State, Response), ContractError>,
    rr: Result<(State, Response), ContractError>,
)
    requires
        sender != state.owner,
        set_key_spec(state, sender, key, rk),
        reset_spec(state, sender, rr),
    ensures
        rk matches Err(e) && e is Unauthorized,
        rr matches Err(e) && e is Unauthorized,
        committed_record(state, rk) == state,
        committed_record(state, rr) == state,
{
}

} // verus!
