use vstd::prelude::*;

verus! {

/// The errors a request can end with.
///
/// Failures of the underlying persistence layer or of the host's
/// identity validation are surfaced by the host environment itself and
/// never reach this taxonomy.
#[derive(Clone, Copy, Debug, PartialEq, Eq)]
pub enum ContractError {
    /// Reserved for ownership checks; no current operation raises it.
    Unauthorized {},
    /// Defined for a capsule whose unlock time lies ahead; queries
    /// answer such a capsule with a redacted success instead of
    /// raising this error.
    MessageLocked { unlock_time: u64 },
    /// The queried owner has no stored capsule.
    NoMessageFound {},
}

} // verus!
