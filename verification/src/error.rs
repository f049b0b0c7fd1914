use vstd::prelude::*;

verus! {

/// Everything that can go wrong in a handler. Every error aborts the
/// enclosing transaction: the runtime commits no record on an `Err`.
#[derive(Debug)]
pub enum ContractError {
    /// Passed through from the durable store collaborator.
    StorageFailure { msg: String },
    /// A gated operation was called by someone other than the owner.
    Unauthorized {},
    /// An escrowed submission arrived while another is still pending.
    AlreadyPending {},
    /// An escrowed submission did not carry exactly one fund unit.
    InvalidFunds {},
    /// A settlement callback arrived with no pending message: a protocol
    /// violation by the host, unreachable while at most one settlement is
    /// ever in flight.
    InconsistentState {},
    /// A callback carried an identifier outside the known set.
    UnknownCallback { id: u64 },
    /// A catch-all for conditions outside the taxonomy above.
    GenericError { msg: String },
}

impl ContractError {
    pub fn generic(msg: String) -> (r: Self)
        ensures
            r == (ContractError::GenericError { msg }),
    {
        ContractError::GenericError { msg }
    }
}

} // verus!
