use vstd::prelude::*;

verus! {

/// Mathematical value of the persistent record: identities and messages as
/// character sequences.
#[verifier::ext_equal]
pub ghost struct StateModel {
    pub owner: Seq<char>,
    pub pending_message: Option<Seq<char>>,
    pub encryption_key: Option<Seq<char>>,
}

/// The single persistent record of a contract instance. Created once at
/// instantiation and never deleted; `owner` never changes afterwards.
#[derive(Debug)]
pub struct State {
    /// Identity of the account that instantiated the contract.
    pub owner: String,
    /// A message awaiting settlement confirmation, escrowed policy only.
    pub pending_message: Option<String>,
    /// The owner's currently published public key, advisory only.
    pub encryption_key: Option<String>,
}

/// Value of an optional string: the value of its text, if any.
pub open spec fn opt_str_view(s: Option<String>) -> Option<Seq<char>> {
    match s {
        Some(x) => Some(x@),
        None => None,
    }
}

impl View for State {
    type V = StateModel;

    open spec fn view(&self) -> StateModel {
        StateModel {
            owner: self.owner@,
            pending_message: opt_str_view(self.pending_message),
            encryption_key: opt_str_view(self.encryption_key),
        }
    }
}

/// Which dispatcher policy a deployment runs under. Exactly one is selected
/// per deployment; both must be reproducible.
#[derive(Clone, Copy, PartialEq, Eq, Structural, Debug)]
pub enum Policy {
    /// Submissions escrow one fund unit and park the message in the pending
    /// slot until the settlement callback clears it.
    Escrowed,
    /// Submissions only emit an event; the record is never touched.
    Broadcast,
}

/// Clones an optional string, value for value.
pub fn clone_opt_string(s: &Option<String>) -> (r: Option<String>)
    ensures
        opt_str_view(r) == opt_str_view(*s),
{
    match s {
        Some(x) => Some(x.clone()),
        None => None,
    }
}

/// Rebuilds a record whose value equals the given one, for handlers that
/// leave the record untouched.
pub fn clone_state(s: &State) -> (r: State)
    ensures
        r@ == s@,
{
    State {
        owner: s.owner.clone(),
        pending_message: clone_opt_string(&s.pending_message),
        encryption_key: clone_opt_string(&s.encryption_key),
    }
}

} // verus!
