use vstd::prelude::*;

verus! {

/// Request to set up a fresh deployment. It carries no parameters; the
/// handler only records contract metadata and creates no capsules.
#[derive(Clone, Debug, PartialEq, Eq)]
pub struct InstantiateMsg {}

/// The state-changing requests.
#[derive(Clone, Debug, PartialEq, Eq)]
pub enum ExecuteMsg {
    /// Deposit one message under the sender's own identity, hidden
    /// until `unlock_time`. Any prior capsule of the sender is
    /// overwritten whole.
    StoreMessage { message: String, unlock_time: u64 },
}

/// The read-only requests.
#[derive(Clone, Debug, PartialEq, Eq)]
pub enum QueryMsg {
    /// Read the capsule stored under `owner`, redacted while locked.
    GetMessage { owner: String },
}

/// The answer to a `GetMessage` query.
///
/// A locked capsule is a successful response with redacted content,
/// not a failure: `message` then holds a fixed placeholder.
#[derive(Clone, Debug, PartialEq, Eq)]
pub struct MessageResponse {
    /// The stored text if unlocked, the fixed placeholder otherwise.
    pub message: String,
    /// The identity the query asked about.
    pub owner: String,
    /// The unlock timestamp of the stored capsule.
    pub unlock_time: u64,
    /// Whether the current time has reached the unlock timestamp.
    pub is_unlocked: bool,
}

/// The mathematical image of a [`MessageResponse`].
pub struct MessageResponseView {
    pub message: Seq<char>,
    pub owner: Seq<char>,
    pub unlock_time: u64,
    pub is_unlocked: bool,
}

impl View for MessageResponse {
    type V = MessageResponseView;

    open spec fn view(&self) -> MessageResponseView {
        MessageResponseView {
            message: self.message@,
            owner: self.owner@,
            unlock_time: self.unlock_time,
            is_unlocked: self.is_unlocked,
        }
    }
}

} // verus!
