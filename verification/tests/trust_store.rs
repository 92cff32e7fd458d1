use cmk_agent_ctl::trust_store::{get_reg_state, RegistrationState, ServerSpec, StoreEntry};

fn record(id: &str) -> ServerSpec {
    ServerSpec {
        uuid: id.to_string(),
        private_key: format!("key of {}", id),
        certificate: format!("certificate of {}", id),
        root_cert: format!("root of {}", id),
    }
}

fn entry(address: &str, id: &str) -> StoreEntry {
    StoreEntry { address: address.to_string(), record: record(id) }
}

#[test]
fn new_store_is_empty() {
    let store = RegistrationState::new();
    assert!(store.is_empty());
    assert_eq!(store.len(), 0);
    assert!(store.latest().is_none());
    assert!(store.get(&"server:8000".to_string()).is_none());
    assert_eq!(store.position(&"server:8000".to_string()), None);
}

#[test]
fn insert_adds_an_entry_at_the_end() {
    let mut store = RegistrationState::new();
    store.insert("a:8000".to_string(), record("1"));
    store.insert("b:8000".to_string(), record("2"));
    assert!(!store.is_empty());
    assert_eq!(store.len(), 2);
    assert_eq!(store.entry(0), &entry("a:8000", "1"));
    assert_eq!(store.entry(1), &entry("b:8000", "2"));
    assert_eq!(store.latest(), Some(&entry("b:8000", "2")));
    assert_eq!(store.position(&"b:8000".to_string()), Some(1));
    assert_eq!(store.get(&"a:8000".to_string()), Some(&record("1")));
    assert_eq!(store.get(&"c:8000".to_string()), None);
}

#[test]
fn insert_replaces_the_record_of_the_same_address() {
    let mut store = RegistrationState::new();
    store.insert("a:8000".to_string(), record("1"));
    store.insert("b:8000".to_string(), record("2"));
    store.insert("a:8000".to_string(), record("3"));
    assert_eq!(store.len(), 2);
    assert_eq!(store.entry(0), &entry("b:8000", "2"));
    assert_eq!(store.entry(1), &entry("a:8000", "3"));
    assert_eq!(store.get(&"a:8000".to_string()), Some(&record("3")));
    assert_eq!(store.latest(), Some(&entry("a:8000", "3")));
}

#[test]
fn insert_into_a_single_entry_store_replaces_it() {
    let mut store = RegistrationState::new();
    store.insert("a:8000".to_string(), record("1"));
    store.insert("a:8000".to_string(), record("2"));
    assert_eq!(store.len(), 1);
    assert_eq!(store.entry(0), &entry("a:8000", "2"));
}

#[test]
fn get_reg_state_keeps_the_order_read() {
    let store = get_reg_state(vec![entry("a:8000", "1"), entry("b:8000", "2"), entry("c:8000", "3")]);
    assert_eq!(store.len(), 3);
    assert_eq!(store.entry(0).address, "a:8000");
    assert_eq!(store.entry(1).address, "b:8000");
    assert_eq!(store.entry(2).address, "c:8000");
    assert_eq!(store.latest(), Some(&entry("c:8000", "3")));
}

#[test]
fn get_reg_state_of_nothing_is_empty() {
    let store = get_reg_state(Vec::new());
    assert!(store.is_empty());
    assert_eq!(store, RegistrationState::new());
}

#[test]
fn get_reg_state_lets_the_later_entry_count() {
    let store = get_reg_state(vec![entry("a:8000", "1"), entry("b:8000", "2"), entry("a:8000", "3")]);
    assert_eq!(store.len(), 2);
    assert_eq!(store.entry(0), &entry("b:8000", "2"));
    assert_eq!(store.entry(1), &entry("a:8000", "3"));
    assert_eq!(store.get(&"a:8000".to_string()), Some(&record("3")));
}

#[test]
fn cloned_records_are_equal() {
    let source = entry("a:8000", "1");
    let copy = source.clone();
    assert_eq!(copy, source);
    assert_eq!(copy.record.clone(), record("1"));
}

#[test]
fn addresses_differ_by_case_and_port() {
    let mut store = RegistrationState::new();
    store.insert("server:8000".to_string(), record("1"));
    store.insert("Server:8000".to_string(), record("2"));
    store.insert("server:8001".to_string(), record("3"));
    assert_eq!(store.len(), 3);
}

#[test]
fn into_entries_hands_out_the_entries_in_order() {
    let mut store = RegistrationState::new();
    store.insert("a:8000".to_string(), record("1"));
    store.insert("b:8000".to_string(), record("2"));
    store.insert("a:8000".to_string(), record("3"));
    assert_eq!(store.into_entries(), vec![entry("b:8000", "2"), entry("a:8000", "3")]);
    assert_eq!(RegistrationState::new().into_entries(), Vec::new());
}

#[test]
fn entries_read_back_give_the_same_store() {
    let mut store = RegistrationState::new();
    store.insert("a:8000".to_string(), record("1"));
    store.insert("b:8000".to_string(), record("2"));
    let mut again = RegistrationState::new();
    again.insert("a:8000".to_string(), record("1"));
    again.insert("b:8000".to_string(), record("2"));
    assert_eq!(get_reg_state(store.into_entries()), again);
}
