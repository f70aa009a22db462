use time_capsule::contract::{
    capsule_response, execute, instantiate, locked_message, query, query_get_message,
    CONTRACT_NAME, CONTRACT_VERSION,
};
use time_capsule::error::ContractError;
use time_capsule::msg::{ExecuteMsg, InstantiateMsg, QueryMsg};
use time_capsule::state::{Capsule, CapsuleStore};

const LOCKED_PLACEHOLDER: &str = "This message is still locked.";

#[test]
fn proper_initialization() {
    let mut store = CapsuleStore::new();
    let res = instantiate(&mut store, InstantiateMsg {}).unwrap();
    assert_eq!(1, res.len());
    assert_eq!(res[0].key, "method");
    assert_eq!(res[0].value, "instantiate");
    // Initialization creates no records.
    let err = query_get_message(&store, 1000, "creator".to_string()).unwrap_err();
    assert_eq!(err, ContractError::NoMessageFound {});
}

#[test]
fn store_and_retrieve_message() {
    let mut store = CapsuleStore::new();
    let res = instantiate(&mut store, InstantiateMsg {});
    assert!(res.is_ok());

    // Store a message with future unlock time (1 day in the future).
    let current_time: u64 = 1_600_000_000;
    let future_time = current_time + 86400;
    let msg = ExecuteMsg::StoreMessage {
        message: "Hello from the past!".to_string(),
        unlock_time: future_time,
    };
    execute(&mut store, "alice".to_string(), msg).unwrap();

    // Try to retrieve the message (should be locked).
    let response = query(
        &store,
        current_time,
        QueryMsg::GetMessage { owner: "alice".to_string() },
    )
    .unwrap();
    assert_eq!(response.message, "This message is still locked.");
    assert_eq!(response.is_unlocked, false);

    // Advance time far enough to unlock the message.
    let response = query(
        &store,
        current_time + 100000,
        QueryMsg::GetMessage { owner: "alice".to_string() },
    )
    .unwrap();
    assert_eq!(response.message, "Hello from the past!");
    assert_eq!(response.is_unlocked, true);
}

#[test]
fn integration_tests_store_and_retrieve_message() {
    let mut store = CapsuleStore::new();
    instantiate(&mut store, InstantiateMsg {}).unwrap();

    // Store a message that unlocks in the future.
    let current_time: u64 = 1_600_000_000;
    let unlock_time = current_time + 100000;
    let msg = ExecuteMsg::StoreMessage {
        message: "Test message from the past".to_string(),
        unlock_time,
    };
    execute(&mut store, "user".to_string(), msg).unwrap();

    // Reading now finds the message still locked.
    let response = query(
        &store,
        current_time,
        QueryMsg::GetMessage { owner: "user".to_string() },
    )
    .unwrap();
    assert!(!response.is_unlocked);

    // Fast forward time; now the message is readable.
    let response = query(
        &store,
        current_time + 150000,
        QueryMsg::GetMessage { owner: "user".to_string() },
    )
    .unwrap();
    assert!(response.is_unlocked);
    assert_eq!(response.message, "Test message from the past");
}

#[test]
fn locked_query_returns_placeholder() {
    let mut store = CapsuleStore::new();
    let t: u64 = 500_000;
    execute(
        &mut store,
        "A".to_string(),
        ExecuteMsg::StoreMessage { message: "hello".to_string(), unlock_time: t + 100000 },
    )
    .unwrap();

    let response = query_get_message(&store, t, "A".to_string()).unwrap();
    assert_eq!(response.message, LOCKED_PLACEHOLDER);
    assert_eq!(response.owner, "A");
    assert_eq!(response.unlock_time, t + 100000);
    assert_eq!(response.is_unlocked, false);
}

#[test]
fn unlocked_query_returns_stored_text() {
    let mut store = CapsuleStore::new();
    let t: u64 = 500_000;
    execute(
        &mut store,
        "A".to_string(),
        ExecuteMsg::StoreMessage { message: "hello".to_string(), unlock_time: t + 100000 },
    )
    .unwrap();

    let response = query_get_message(&store, t + 150000, "A".to_string()).unwrap();
    assert_eq!(response.message, "hello");
    assert_eq!(response.owner, "A");
    assert_eq!(response.unlock_time, t + 100000);
    assert_eq!(response.is_unlocked, true);
}

#[test]
fn query_without_store_fails_not_found() {
    let mut store = CapsuleStore::new();
    execute(
        &mut store,
        "A".to_string(),
        ExecuteMsg::StoreMessage { message: "hello".to_string(), unlock_time: 1 },
    )
    .unwrap();

    let err = query_get_message(&store, 100, "B".to_string()).unwrap_err();
    assert_eq!(err, ContractError::NoMessageFound {});
}

#[test]
fn unlock_exactly_at_current_time_is_unlocked() {
    let mut store = CapsuleStore::new();
    execute(
        &mut store,
        "alice".to_string(),
        ExecuteMsg::StoreMessage { message: "on time".to_string(), unlock_time: 777 },
    )
    .unwrap();

    let response = query_get_message(&store, 777, "alice".to_string()).unwrap();
    assert!(response.is_unlocked);
    assert_eq!(response.message, "on time");

    let response = query_get_message(&store, 776, "alice".to_string()).unwrap();
    assert!(!response.is_unlocked);
    assert_eq!(response.message, LOCKED_PLACEHOLDER);
}

#[test]
fn past_unlock_time_is_immediately_visible() {
    // The unlock time is never validated against the clock at store
    // time: a timestamp already in the past is allowed and such a
    // message is visible at once.
    let mut store = CapsuleStore::new();
    execute(
        &mut store,
        "alice".to_string(),
        ExecuteMsg::StoreMessage { message: "already out".to_string(), unlock_time: 0 },
    )
    .unwrap();

    let response = query_get_message(&store, 5, "alice".to_string()).unwrap();
    assert!(response.is_unlocked);
    assert_eq!(response.message, "already out");
}

#[test]
fn store_emits_action_and_owner_attributes() {
    let mut store = CapsuleStore::new();
    let attrs = execute(
        &mut store,
        "alice".to_string(),
        ExecuteMsg::StoreMessage { message: "m".to_string(), unlock_time: 1 },
    )
    .unwrap();
    assert_eq!(attrs.len(), 2);
    assert_eq!(attrs[0].key, "action");
    assert_eq!(attrs[0].value, "store_message");
    assert_eq!(attrs[1].key, "owner");
    assert_eq!(attrs[1].value, "alice");
}

#[test]
fn overwrite_leaves_only_second_message() {
    let mut store = CapsuleStore::new();
    execute(
        &mut store,
        "alice".to_string(),
        ExecuteMsg::StoreMessage { message: "first".to_string(), unlock_time: 10 },
    )
    .unwrap();
    execute(
        &mut store,
        "alice".to_string(),
        ExecuteMsg::StoreMessage { message: "second".to_string(), unlock_time: 20 },
    )
    .unwrap();

    // Only the second capsule is observable, with both fields replaced.
    let response = query_get_message(&store, 100, "alice".to_string()).unwrap();
    assert_eq!(response.message, "second");
    assert_eq!(response.unlock_time, 20);

    // Before the second unlock time nothing of the first shows either,
    // even though the first capsule would already be unlocked.
    let response = query_get_message(&store, 15, "alice".to_string()).unwrap();
    assert_eq!(response.message, LOCKED_PLACEHOLDER);
    assert!(!response.is_unlocked);
}

#[test]
fn owners_hold_independent_capsules() {
    let mut store = CapsuleStore::new();
    execute(
        &mut store,
        "alice".to_string(),
        ExecuteMsg::StoreMessage { message: "for alice".to_string(), unlock_time: 10 },
    )
    .unwrap();
    execute(
        &mut store,
        "bob".to_string(),
        ExecuteMsg::StoreMessage { message: "for bob".to_string(), unlock_time: 1000 },
    )
    .unwrap();

    let response = query_get_message(&store, 100, "alice".to_string()).unwrap();
    assert_eq!(response.message, "for alice");
    assert!(response.is_unlocked);

    let response = query_get_message(&store, 100, "bob".to_string()).unwrap();
    assert_eq!(response.message, LOCKED_PLACEHOLDER);
    assert!(!response.is_unlocked);
}

#[test]
fn empty_message_round_trips() {
    let mut store = CapsuleStore::new();
    execute(
        &mut store,
        "alice".to_string(),
        ExecuteMsg::StoreMessage { message: String::new(), unlock_time: 1 },
    )
    .unwrap();

    let response = query_get_message(&store, 2, "alice".to_string()).unwrap();
    assert!(response.is_unlocked);
    assert_eq!(response.message, "");
}

#[test]
fn capsule_response_redacts_and_reveals() {
    let capsule = Capsule {
        owner: "alice".to_string(),
        message: "secret".to_string(),
        unlock_time: 50,
    };
    let locked = capsule_response(&capsule, "alice".to_string(), 49);
    assert_eq!(locked.message, LOCKED_PLACEHOLDER);
    assert!(!locked.is_unlocked);
    let open = capsule_response(&capsule, "alice".to_string(), 50);
    assert_eq!(open.message, "secret");
    assert!(open.is_unlocked);
}

#[test]
fn placeholder_text_is_fixed() {
    assert_eq!(locked_message(), LOCKED_PLACEHOLDER);
}

#[test]
fn contract_metadata_constants() {
    assert_eq!(CONTRACT_NAME, "crates.io:time_capsule");
    assert_eq!(CONTRACT_VERSION, "0.1.0");
}
