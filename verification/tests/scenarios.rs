use cw1_whitelist::contract::instantiate;
use cw1_whitelist::msg::Empty;
use cw1_whitelist::state::Addr;
use cw1_whitelist::store::Store;
use cw1_whitelist::whitelist::WhiteListContract;
use cw1_whitelist::whitelist_helper::{can_execute, map_validate};
use cw1_whitelist::ContractError;

fn addr(name: &str) -> Addr {
    Addr::new(name.to_string())
}

fn validated(names: &[&str]) -> Vec<Option<Addr>> {
    names.iter().map(|n| Some(addr(n))).collect()
}

fn admin_names(store: &Store) -> Vec<String> {
    WhiteListContract::<Empty, Empty, Empty>::default()
        .query_admin_list(store)
        .admins
}

#[test]
fn instantiate_rejects_invalid_entry() {
    let mut store = Store::new();
    let entries = vec![Some(addr("alice")), None, Some(addr("carl"))];
    let err = instantiate(&mut store, entries, true).unwrap_err();
    assert_eq!(err, ContractError::InvalidAddress);
    // nothing was written
    assert!(!store.is_initialized());
}

#[test]
fn instantiate_returns_empty_response() {
    let mut store = Store::new();
    let res = instantiate(&mut store, validated(&["alice"]), true).unwrap();
    assert!(res.messages.is_empty());
    assert!(res.attributes.is_empty());
    assert!(store.is_initialized());
}

#[test]
fn update_with_invalid_entry_is_atomic() {
    let mut store = Store::new();
    instantiate(&mut store, validated(&["alice", "bob"]), true).unwrap();
    let contract = WhiteListContract::<Empty, Empty, Empty>::default();

    // a batch with one failed entry changes nothing, even for an admin
    let entries = vec![Some(addr("alice")), None];
    let err = contract
        .execute_update_admins(&mut store, &addr("alice"), entries)
        .unwrap_err();
    assert_eq!(err, ContractError::InvalidAddress);
    assert_eq!(admin_names(&store), vec!["alice".to_string(), "bob".to_string()]);

    // the authorization check comes first: a stranger gets Unauthorized
    // even when the batch also holds a failed entry
    let entries = vec![None];
    let err = contract
        .execute_update_admins(&mut store, &addr("anyone"), entries)
        .unwrap_err();
    assert_eq!(err, ContractError::Unauthorized);
    assert_eq!(admin_names(&store), vec!["alice".to_string(), "bob".to_string()]);
}

#[test]
fn admin_may_remove_themself() {
    let mut store = Store::new();
    instantiate(&mut store, validated(&["alice", "bob"]), true).unwrap();
    let contract = WhiteListContract::<Empty, Empty, Empty>::default();

    // alice hands in a set that no longer contains her; she was an admin
    // before the call, so it succeeds
    let res = contract
        .execute_update_admins(&mut store, &addr("alice"), validated(&["bob"]))
        .unwrap();
    assert_eq!(res.attributes.len(), 1);
    assert_eq!(res.attributes[0].key, "action");
    assert_eq!(res.attributes[0].value, "update_admins");
    assert_eq!(admin_names(&store), vec!["bob".to_string()]);

    // and she may not act any more
    let err = contract
        .execute_update_admins(&mut store, &addr("alice"), validated(&["alice"]))
        .unwrap_err();
    assert_eq!(err, ContractError::Unauthorized);
}

#[test]
fn freeze_is_permanent() {
    let mut store = Store::new();
    instantiate(&mut store, validated(&["alice", "bob"]), true).unwrap();
    let contract = WhiteListContract::<Empty, Empty, Empty>::default();

    let res = contract.execute_freeze(&mut store, &addr("alice")).unwrap();
    assert_eq!(res.attributes.len(), 1);
    assert_eq!(res.attributes[0].key, "action");
    assert_eq!(res.attributes[0].value, "freeze");

    // a second freeze fails, whoever calls
    let err = contract.execute_freeze(&mut store, &addr("alice")).unwrap_err();
    assert_eq!(err, ContractError::Unauthorized);
    let err = contract.execute_freeze(&mut store, &addr("bob")).unwrap_err();
    assert_eq!(err, ContractError::Unauthorized);

    // and so does every later update
    let err = contract
        .execute_update_admins(&mut store, &addr("bob"), validated(&["bob"]))
        .unwrap_err();
    assert_eq!(err, ContractError::Unauthorized);
    assert_eq!(admin_names(&store), vec!["alice".to_string(), "bob".to_string()]);
}

#[test]
fn relay_ignores_mutability() {
    let mut store = Store::new();
    instantiate(&mut store, validated(&["alice"]), true).unwrap();
    let contract = WhiteListContract::<Empty, Empty, Empty>::default();

    // relaying works on a mutable record...
    let res = contract
        .execute_execute(&mut store, &addr("alice"), vec![Empty {}, Empty {}])
        .unwrap();
    assert_eq!(res.messages, vec![Empty {}, Empty {}]);
    assert_eq!(res.attributes[0].key, "action");
    assert_eq!(res.attributes[0].value, "execute");

    // ...and just the same after a freeze
    contract.execute_freeze(&mut store, &addr("alice")).unwrap();
    let res = contract
        .execute_execute(&mut store, &addr("alice"), vec![Empty {}])
        .unwrap();
    assert_eq!(res.messages, vec![Empty {}]);

    // while a non-member is rejected in both states
    let err = contract
        .execute_execute(&mut store, &addr("anyone"), vec![Empty {}])
        .unwrap_err();
    assert_eq!(err, ContractError::Unauthorized);
}

#[test]
fn queries_do_not_change_state() {
    let mut store = Store::new();
    instantiate(&mut store, validated(&["alice", "bob"]), true).unwrap();
    let contract = WhiteListContract::<Empty, Empty, Empty>::default();

    let first = contract.query_admin_list(&store);
    let can = contract.query_can_execute(&store, "alice".to_string(), Empty {});
    assert!(can.can_execute);
    let can = contract.query_can_execute(&store, "stranger".to_string(), Empty {});
    assert!(!can.can_execute);
    let second = contract.query_admin_list(&store);
    assert_eq!(first, second);
    assert!(second.mutable);
}

#[test]
fn duplicates_are_kept_verbatim() {
    let mut store = Store::new();
    // the library does not deduplicate: a repeated entry stays repeated
    instantiate(&mut store, validated(&["alice", "alice"]), true).unwrap();
    assert_eq!(admin_names(&store), vec!["alice".to_string(), "alice".to_string()]);
    let contract = WhiteListContract::<Empty, Empty, Empty>::default();
    let can = contract.query_can_execute(&store, "alice".to_string(), Empty {});
    assert!(can.can_execute);
}

#[test]
fn empty_admin_list_locks_everyone_out() {
    let mut store = Store::new();
    instantiate(&mut store, validated(&[]), true).unwrap();
    let contract = WhiteListContract::<Empty, Empty, Empty>::default();

    assert!(admin_names(&store).is_empty());
    let err = contract
        .execute_execute(&mut store, &addr("anyone"), vec![Empty {}])
        .unwrap_err();
    assert_eq!(err, ContractError::Unauthorized);
    let err = contract.execute_freeze(&mut store, &addr("anyone")).unwrap_err();
    assert_eq!(err, ContractError::Unauthorized);
}

#[test]
fn map_validate_keeps_order_and_rejects_failures() {
    let ok = map_validate(validated(&["carl", "alice", "bob"])).unwrap();
    let names: Vec<String> = ok.iter().map(|a| a.to_string()).collect();
    assert_eq!(
        names,
        vec!["carl".to_string(), "alice".to_string(), "bob".to_string()]
    );

    let err = map_validate(vec![Some(addr("carl")), None]).unwrap_err();
    assert_eq!(err, ContractError::InvalidAddress);
}

#[test]
fn can_execute_reads_membership() {
    let mut store = Store::new();
    instantiate(&mut store, validated(&["alice"]), false).unwrap();
    assert!(can_execute(&store, &"alice".to_string()));
    assert!(!can_execute(&store, &"bob".to_string()));
}
