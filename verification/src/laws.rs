use vstd::prelude::*;

use crate::contract::{locked_placeholder, spec_get_message, spec_store_message};
use crate::error::ContractError;
use crate::msg::MessageResponseView;
use crate::state::CapsuleView;

verus! {

/// While a stored capsule's unlock time still lies ahead of the query
/// time, the query succeeds with `is_unlocked` false and the fixed
/// placeholder as its message — never the stored text, as long as the
/// stored text is not itself the placeholder.
pub proof fn lemma_locked_query_redacts(
    store: Map<Seq<char>, CapsuleView>,
    current_time: u64,
    owner: Seq<char>,
)
    requires
        store.contains_key(owner),
        current_time < store[owner].unlock_time,
    ensures
        spec_get_message(store, current_time, owner) matches Ok(resp) && {
            &&& !resp.is_unlocked
            &&& resp.message == locked_placeholder()
            &&& store[owner].message != locked_placeholder()
                ==> resp.message != store[owner].message
        },
{
}

/// Once the query time has reached a stored capsule's unlock time, the
/// query succeeds with `is_unlocked` true and exactly the stored text
/// as its message, together with the queried owner and the stored
/// unlock time.
pub proof fn lemma_unlocked_query_reveals(
    store: Map<Seq<char>, CapsuleView>,
    current_time: u64,
    owner: Seq<char>,
)
    requires
        store.contains_key(owner),
        store[owner].unlock_time <= current_time,
    ensures
        spec_get_message(store, current_time, owner) matches Ok(resp) && {
            &&& resp.is_unlocked
            &&& resp.message == store[owner].message
            &&& resp.owner == owner
            &&& resp.unlock_time == store[owner].unlock_time
        },
{
}

/// Overwrite leaves only the second capsule: storing twice under the
/// same sender ends in the very store that storing the second message
/// alone would have produced, so the first capsule is unobservable.
pub proof fn lemma_overwrite_keeps_only_second(
    store: Map<Seq<char>, CapsuleView>,
    sender: Seq<char>,
    first_message: Seq<char>,
    first_unlock: u64,
    second_message: Seq<char>,
    second_unlock: u64,
)
    ensures
        spec_store_message(
            spec_store_message(store, sender, first_message, first_unlock),
            sender,
            second_message,
            second_unlock,
        ) == spec_store_message(store, sender, second_message, second_unlock),
{
    assert(spec_store_message(
        spec_store_message(store, sender, first_message, first_unlock),
        sender,
        second_message,
        second_unlock,
    ) =~= spec_store_message(store, sender, second_message, second_unlock));
}

/// A query for an owner with no stored capsule fails with
/// `NoMessageFound`, whatever the query time.
pub proof fn lemma_unknown_owner_not_found(
    store: Map<Seq<char>, CapsuleView>,
    current_time: u64,
    owner: Seq<char>,
)
    requires
        !store.contains_key(owner),
    ensures
        spec_get_message(store, current_time, owner) == Err::<
            MessageResponseView,
            ContractError,
        >(ContractError::NoMessageFound {}),
{
}

/// A fresh deployment holds no capsules, so any query on it fails with
/// `NoMessageFound`; together with `instantiate`'s contract, which
/// leaves the store untouched, a query right after initialization
/// finds nothing.
pub proof fn lemma_fresh_deployment_not_found(current_time: u64, owner: Seq<char>)
    ensures
        spec_get_message(
            Map::<Seq<char>, CapsuleView>::empty(),
            current_time,
            owner,
        ) == Err::<MessageResponseView, ContractError>(ContractError::NoMessageFound {}),
{
    assert(!Map::<Seq<char>, CapsuleView>::empty().contains_key(owner));
}

} // verus!
