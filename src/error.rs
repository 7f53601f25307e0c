use vstd::prelude::*;

verus! {

/// Failures that a ledger operation can report.
#[derive(Clone, Copy, Debug, PartialEq, Eq, Structural)]
pub enum ContractError {
    /// The counter is absent: the store was never initialized.
    StoreUnavailable,
    /// Advancing the counter would leave the range of `u128`.
    CounterOverflow,
    /// A stored or incoming value could not be decoded.
    SerializationError,
    /// The host store refused a write.
    WriteFailure,
}

} // verus!
