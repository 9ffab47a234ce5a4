use cw1_whitelist::state::{Addr, AdminList};

#[test]
fn is_admin() {
    let admins: Vec<Addr> = vec!["bob", "paul", "john"]
        .into_iter()
        .map(|s| Addr::new(s.to_string()))
        .collect();
    let config = AdminList {
        admins,
        mutable: false,
    };

    assert!(config.is_admin(&"bob".to_string()));
    assert!(config.is_admin(&"john".to_string()));
    assert!(!config.is_admin(&"other".to_string()));
}

#[test]
fn can_modify() {
    let alice = "alice";
    let bob = "bob";

    // an admin may modify a mutable record
    let config = AdminList {
        admins: vec![Addr::new(bob.to_string())],
        mutable: true,
    };
    assert!(!config.can_modify(&alice.to_string()));
    assert!(config.can_modify(&bob.to_string()));

    // nobody may modify an immutable record
    let config = AdminList {
        admins: vec![Addr::new(alice.to_string())],
        mutable: false,
    };
    assert!(!config.can_modify(&alice.to_string()));
    assert!(!config.can_modify(&bob.to_string()));
}
