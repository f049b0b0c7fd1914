use vstd::prelude::*;

verus! {

/// Mathematical value of a fund unit.
#[verifier::ext_equal]
pub ghost struct CoinModel {
    pub denom: Seq<char>,
    pub amount: u128,
}

/// One fund unit: an amount of a named denomination.
#[derive(Debug)]
pub struct Coin {
    pub denom: String,
    pub amount: u128,
}

impl View for Coin {
    type V = CoinModel;

    open spec fn view(&self) -> CoinModel {
        CoinModel { denom: self.denom@, amount: self.amount }
    }
}

/// Value of a funds list: the sequence of its coins' values.
pub open spec fn coins_view(funds: Seq<Coin>) -> Seq<CoinModel> {
    funds.map_values(|c: Coin| c@)
}

/// Instantiation carries no fields; the owner is the instantiating caller.
#[derive(Debug)]
pub struct InstantiateMsg {}

/// The closed set of commands the dispatcher routes on.
pub enum ExecuteMsg {
    /// Records intent to deliver `message` to `recipient`. Under the
    /// escrowed policy the attached funds are held and refunded on
    /// settlement; under the broadcast policy only an event is emitted and
    /// `encrypted` flags whether the payload was encrypted off-chain.
    SubmitMessage { message: String, recipient: String, encrypted: bool, funds: Vec<Coin> },
    /// Emits a public message event; open to any caller, no state change.
    Announce { message: String },
    /// Owner-only: overwrites the published encryption key, clearing it on
    /// `None`. Advisory only; nothing here encrypts.
    SetEncryptionKey { key: Option<String> },
    /// Owner-only, escrowed policy: clears a stuck pending slot, bypassing
    /// settlement.
    EmergencyReset {},
}

/// The closed set of read-only queries.
pub enum QueryMsg {
    /// Who instantiated the contract.
    Owner {},
}

/// Answer to `QueryMsg::Owner`.
#[derive(Debug)]
pub struct OwnerResponse {
    pub owner: String,
}

} // verus!
