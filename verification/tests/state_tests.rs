use rafilter::prefix::NetworkPrefix;
use rafilter::state::{
    add_to_container, clear_container, clear_interface_name, get_container_data,
    get_interface_name, set_interface_name, SharedState,
};

fn prefix(addr: u128, len: u8) -> NetworkPrefix {
    NetworkPrefix::new(addr, len).unwrap()
}

#[test]
fn order_preservation_three_appends() {
    let mut state = SharedState::new();
    let p1 = prefix(0x2001_0db8_0000_0000_0000_0000_0000_0000, 32);
    let p2 = prefix(0xfd00_0000_0000_0000_0000_0000_0000_0000, 8);
    let p3 = prefix(0x2001_0db8_0001_0000_0000_0000_0000_0000, 48);
    add_to_container(&mut state, p1);
    add_to_container(&mut state, p2);
    add_to_container(&mut state, p3);
    assert_eq!(get_container_data(&state), vec![p1, p2, p3]);
}

#[test]
fn appends_store_canonical_form() {
    let mut state = SharedState::new();
    // A non-canonical value is truncated on append.
    let raw = NetworkPrefix { addr: 0x2001_0db8_0000_0000_0000_0000_0000_0001, len: 32 };
    add_to_container(&mut state, raw);
    let snap = get_container_data(&state);
    assert_eq!(snap.len(), 1);
    assert_eq!(snap[0].addr, 0x2001_0db8_0000_0000_0000_0000_0000_0000);
    assert_eq!(snap[0].len, 32);
}

#[test]
fn duplicates_are_kept() {
    let mut state = SharedState::new();
    let p = prefix(0x2001_0db8_0000_0000_0000_0000_0000_0000, 32);
    add_to_container(&mut state, p);
    add_to_container(&mut state, p);
    assert_eq!(get_container_data(&state), vec![p, p]);
}

#[test]
fn snapshot_is_a_copy() {
    let mut state = SharedState::new();
    let p = prefix(0xfe80_0000_0000_0000_0000_0000_0000_0000, 10);
    add_to_container(&mut state, p);
    let snap = get_container_data(&state);
    add_to_container(&mut state, p);
    assert_eq!(snap.len(), 1);
    assert_eq!(get_container_data(&state).len(), 2);
}

#[test]
fn clear_empties_container_only() {
    let mut state = SharedState::new();
    set_interface_name(&mut state, "eth0".to_string());
    add_to_container(&mut state, prefix(0xfd00_0000_0000_0000_0000_0000_0000_0000, 8));
    clear_container(&mut state);
    assert!(get_container_data(&state).is_empty());
    assert_eq!(get_interface_name(&state), Some("eth0".to_string()));
}

#[test]
fn interface_selector_set_get_clear() {
    let mut state = SharedState::new();
    assert_eq!(get_interface_name(&state), None);
    set_interface_name(&mut state, "wlan0".to_string());
    assert_eq!(get_interface_name(&state), Some("wlan0".to_string()));
    clear_interface_name(&mut state);
    assert_eq!(get_interface_name(&state), None);
}
