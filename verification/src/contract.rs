use vstd::prelude::*;

use crate::error::ContractError;
use crate::msg::{ExecuteMsg, InstantiateMsg, MessageResponse, MessageResponseView, QueryMsg};
use crate::state::{Capsule, CapsuleStore, CapsuleView};

verus! {

/// One descriptive event attribute, a key-value pair of text, emitted
/// with a successful state-changing operation for the host environment
/// to audit.
pub struct Attribute {
    pub key: String,
    pub value: String,
}

/// Name under which a deployment records itself for upgrade tracking.
pub const CONTRACT_NAME: &'static str = "crates.io:time_capsule";

/// Version under which a deployment records itself for upgrade tracking.
pub const CONTRACT_VERSION: &'static str = "0.1.0";

/// The fixed placeholder a query answers with while the capsule is
/// still locked, deliberately never leaking the stored text.
pub open spec fn locked_placeholder() -> Seq<char> {
    "This message is still locked."@
}

/// The placeholder text itself; see [`locked_placeholder`].
pub fn locked_message() -> (r: String)
    ensures
        r@ == locked_placeholder(),
{
    "This message is still locked.".to_owned()
}

/// A capsule is unlocked once the current time has reached its unlock
/// timestamp.
pub open spec fn spec_is_unlocked(unlock_time: u64, current_time: u64) -> bool {
    current_time >= unlock_time
}

/// What storing a message does to the abstract store: the sender's key
/// is bound to the fresh capsule, replacing any prior binding whole.
pub open spec fn spec_store_message(
    store: Map<Seq<char>, CapsuleView>,
    sender: Seq<char>,
    message: Seq<char>,
    unlock_time: u64,
) -> Map<Seq<char>, CapsuleView> {
    store.insert(
        sender,
        CapsuleView { owner: sender, message, unlock_time },
    )
}

/// The response a found capsule is answered with at `current_time`:
/// the stored text once unlocked, the fixed placeholder before that.
pub open spec fn spec_capsule_response(
    capsule: CapsuleView,
    owner: Seq<char>,
    current_time: u64,
) -> MessageResponseView {
    MessageResponseView {
        message: if spec_is_unlocked(capsule.unlock_time, current_time) {
            capsule.message
        } else {
            locked_placeholder()
        },
        owner,
        unlock_time: capsule.unlock_time,
        is_unlocked: spec_is_unlocked(capsule.unlock_time, current_time),
    }
}

/// What a query returns over the abstract store: the response for the
/// owner's capsule, or `NoMessageFound` where no capsule is stored.
pub open spec fn spec_get_message(
    store: Map<Seq<char>, CapsuleView>,
    current_time: u64,
    owner: Seq<char>,
) -> Result<MessageResponseView, ContractError> {
    if store.contains_key(owner) {
        Ok(spec_capsule_response(store[owner], owner, current_time))
    } else {
        Err(ContractError::NoMessageFound {})
    }
}

/// The attributes a successful store emits: the action tag and the
/// identity that now owns the capsule.
pub open spec fn spec_store_attrs(attrs: Seq<Attribute>, sender: Seq<char>) -> bool {
    &&& attrs.len() == 2
    &&& attrs[0].key@ == "action"@
    &&& attrs[0].value@ == "store_message"@
    &&& attrs[1].key@ == "owner"@
    &&& attrs[1].value@ == sender
}

/// Sets up a fresh deployment. Always succeeds, touches no capsule,
/// and reports only the method attribute; recording the contract
/// metadata itself is the host environment's bookkeeping.
pub fn instantiate(store: &mut CapsuleStore, msg: InstantiateMsg) -> (r: Result<
    Vec<Attribute>,
    ContractError,
>)
    requires
        old(store).wf(),
    ensures
        final(store).wf(),
        final(store)@ == old(store)@,
        (match r {
            Ok(attrs) => {
                &&& attrs@.len() == 1
                &&& attrs@[0].key@ == "method"@
                &&& attrs@[0].value@ == "instantiate"@
            },
            Err(_) => false,
        }),
{
    let InstantiateMsg {} = msg;
    let mut attrs: Vec<Attribute> = Vec::new();
    attrs.push(Attribute { key: "method".to_owned(), value: "instantiate".to_owned() });
    Ok(attrs)
}

/// Dispatches a state-changing request from `sender`, the
/// authenticated identity the host environment hands in.
pub fn execute(store: &mut CapsuleStore, sender: String, msg: ExecuteMsg) -> (r: Result<
    Vec<Attribute>,
    ContractError,
>)
    requires
        old(store).wf(),
    ensures
        final(store).wf(),
        (match msg {
            ExecuteMsg::StoreMessage { message, unlock_time } => {
                &&& final(store)@ == spec_store_message(
                    old(store)@,
                    sender@,
                    message@,
                    unlock_time,
                )
                &&& r matches Ok(attrs) && spec_store_attrs(attrs@, sender@)
            },
        }),
{
    match msg {
        ExecuteMsg::StoreMessage { message, unlock_time } => execute_store_message(
            store,
            sender,
            message,
            unlock_time,
        ),
    }
}

/// Stores one message under the sender's own identity, overwriting any
/// prior capsule of that sender whole. Neither the message content nor
/// the unlock time is validated: a timestamp already in the past makes
/// the message immediately visible.
pub fn execute_store_message(
    store: &mut CapsuleStore,
    sender: String,
    message: String,
    unlock_time: u64,
) -> (r: Result<Vec<Attribute>, ContractError>)
    requires
        old(store).wf(),
    ensures
        final(store).wf(),
        final(store)@ == spec_store_message(old(store)@, sender@, message@, unlock_time),
        r matches Ok(attrs) && spec_store_attrs(attrs@, sender@),
{
    let capsule = Capsule { owner: sender.clone(), message, unlock_time };
    store.put(sender.clone(), capsule);

    let mut attrs: Vec<Attribute> = Vec::new();
    attrs.push(Attribute { key: "action".to_owned(), value: "store_message".to_owned() });
    attrs.push(Attribute { key: "owner".to_owned(), value: sender });
    Ok(attrs)
}

/// Dispatches a read-only request at `current_time`, the clock the
/// host execution context supplies; the caller cannot forge it.
pub fn query(store: &CapsuleStore, current_time: u64, msg: QueryMsg) -> (r: Result<
    MessageResponse,
    ContractError,
>)
    requires
        store.wf(),
    ensures
        (match msg {
            QueryMsg::GetMessage { owner } => {
                &&& (match r {
                    Ok(resp) => spec_get_message(store@, current_time, owner@)
                        == Ok::<MessageResponseView, ContractError>(resp@),
                    Err(e) => spec_get_message(store@, current_time, owner@)
                        == Err::<MessageResponseView, ContractError>(e),
                })
                &&& r is Ok <==> store@.contains_key(owner@)
            },
        }),
{
    match msg {
        QueryMsg::GetMessage { owner } => query_get_message(store, current_time, owner),
    }
}

/// Looks the owner's capsule up and answers it for `current_time`.
/// A locked capsule is a successful, redacted response; only an owner
/// with no stored capsule at all is an error.
pub fn query_get_message(store: &CapsuleStore, current_time: u64, owner: String) -> (r: Result<
    MessageResponse,
    ContractError,
>)
    requires
        store.wf(),
    ensures
        (match r {
            Ok(resp) => spec_get_message(store@, current_time, owner@)
                == Ok::<MessageResponseView, ContractError>(resp@),
            Err(e) => spec_get_message(store@, current_time, owner@)
                == Err::<MessageResponseView, ContractError>(e),
        }),
        r is Ok <==> store@.contains_key(owner@),
{
    match store.get(&owner) {
        Some(capsule) => Ok(capsule_response(capsule, owner, current_time)),
        None => Err(ContractError::NoMessageFound {}),
    }
}

/// Builds the response for one found capsule at `current_time`,
/// redacting the text while the capsule is still locked.
pub fn capsule_response(capsule: &Capsule, owner: String, current_time: u64) -> (r:
    MessageResponse)
    ensures
        r@ == spec_capsule_response(capsule@, owner@, current_time),
{
    let is_unlocked = current_time >= capsule.unlock_time;
    let message = if is_unlocked {
        capsule.message.clone()
    } else {
        locked_message()
    };
    MessageResponse { message, owner, unlock_time: capsule.unlock_time, is_unlocked }
}

} // verus!
