use std::cell::RefCell;

use wifi_android_connect_lib::adb_device::{AdbConnectionState, AdbDeviceAutentication};
use wifi_android_connect_lib::address_cache::AddressCache;
use wifi_android_connect_lib::client::AdbClient;

struct Recorder {
    pair_ok: bool,
    connect_ok: bool,
    calls: RefCell<Vec<String>>,
}

impl Recorder {
    fn new(pair_ok: bool, connect_ok: bool) -> Recorder {
        Recorder { pair_ok, connect_ok, calls: RefCell::new(Vec::new()) }
    }

    fn calls(&self) -> Vec<String> {
        self.calls.borrow().clone()
    }
}

impl AdbClient for Recorder {
    fn adb_pair(&self, address: &str, code: u32) -> Result<(), ()> {
        self.calls.borrow_mut().push(format!("pair {address} {code}"));
        if self.pair_ok {
            Ok(())
        } else {
            Err(())
        }
    }

    fn adb_connect(&self, address: &str) -> Result<(), ()> {
        self.calls.borrow_mut().push(format!("connect {address}"));
        if self.connect_ok {
            Ok(())
        } else {
            Err(())
        }
    }
}

fn unpaired(code: u32) -> AdbDeviceAutentication {
    AdbDeviceAutentication { state: AdbConnectionState::Unpaired(code) }
}

fn devices() -> AddressCache {
    let mut devices = AddressCache::new();
    devices.insert("1.2.3.4".to_string(), "1.2.3.4:5555".to_string());
    devices
}

#[test]
fn the_queries_tell_the_states_apart() {
    let auth = unpaired(123456);
    assert_eq!(auth.pair_code(), Some(123456));
    assert!(!auth.is_paried());
    assert!(!auth.is_connected());

    let auth = AdbDeviceAutentication { state: AdbConnectionState::Paired };
    assert_eq!(auth.pair_code(), None);
    assert!(auth.is_paried());
    assert!(!auth.is_connected());

    let auth = AdbDeviceAutentication { state: AdbConnectionState::Connected };
    assert_eq!(auth.pair_code(), None);
    assert!(!auth.is_paried());
    assert!(auth.is_connected());
}

#[test]
fn on_connect_connects_when_the_call_succeeds() {
    let mut auth = unpaired(123456);
    let client = Recorder::new(false, true);
    auth.on_connect("1.2.3.4:5555", &client);
    assert!(auth.is_connected());
    assert_eq!(client.calls(), vec!["connect 1.2.3.4:5555".to_string()]);
}

#[test]
fn on_connect_keeps_the_state_when_the_call_fails() {
    let mut auth = unpaired(123456);
    auth.on_connect("1.2.3.4:5555", &Recorder::new(true, false));
    assert_eq!(auth.pair_code(), Some(123456));

    let mut auth = AdbDeviceAutentication { state: AdbConnectionState::Paired };
    auth.on_connect("1.2.3.4:5555", &Recorder::new(true, false));
    assert!(auth.is_paried());

    let mut auth = AdbDeviceAutentication { state: AdbConnectionState::Connected };
    auth.on_connect("1.2.3.4:5555", &Recorder::new(true, false));
    assert!(auth.is_connected());
}

#[test]
fn on_pair_pairs_and_connects_to_the_known_address() {
    let mut auth = unpaired(123456);
    let client = Recorder::new(true, true);
    auth.on_pair("1.2.3.4", "1.2.3.4:40000", &client, &devices());
    assert!(auth.is_connected());
    assert_eq!(
        client.calls(),
        vec!["pair 1.2.3.4:40000 123456".to_string(), "connect 1.2.3.4:5555".to_string()]
    );
}

#[test]
fn on_pair_stays_paired_without_a_known_address() {
    let mut auth = unpaired(123456);
    let client = Recorder::new(true, true);
    auth.on_pair("1.2.3.9", "1.2.3.9:40000", &client, &devices());
    assert!(auth.is_paried());
    assert_eq!(client.calls(), vec!["pair 1.2.3.9:40000 123456".to_string()]);
}

#[test]
fn on_pair_stays_paired_when_the_connect_call_fails() {
    let mut auth = unpaired(123456);
    auth.on_pair("1.2.3.4", "1.2.3.4:40000", &Recorder::new(true, false), &devices());
    assert!(auth.is_paried());
}

#[test]
fn on_pair_stays_unpaired_when_the_pair_call_fails() {
    let mut auth = unpaired(123456);
    let client = Recorder::new(false, true);
    auth.on_pair("1.2.3.4", "1.2.3.4:40000", &client, &devices());
    assert_eq!(auth.pair_code(), Some(123456));
    assert_eq!(client.calls(), vec!["pair 1.2.3.4:40000 123456".to_string()]);
}

#[test]
fn on_pair_makes_no_call_unless_unpaired() {
    let client = Recorder::new(true, true);
    let mut auth = AdbDeviceAutentication { state: AdbConnectionState::Paired };
    auth.on_pair("1.2.3.4", "1.2.3.4:40000", &client, &devices());
    assert!(auth.is_paried());
    let mut auth = AdbDeviceAutentication { state: AdbConnectionState::Connected };
    auth.on_pair("1.2.3.4", "1.2.3.4:40000", &client, &devices());
    assert!(auth.is_connected());
    assert!(client.calls().is_empty());
}

#[test]
fn the_results_are_taken_in() {
    let mut auth = unpaired(1);
    auth.pair_result(false);
    assert_eq!(auth.pair_code(), Some(1));
    auth.connect_result(false);
    assert_eq!(auth.pair_code(), Some(1));
    auth.pair_result(true);
    assert!(auth.is_paried());
    auth.pair_result(true);
    assert!(auth.is_paried());
    auth.connect_result(true);
    assert!(auth.is_connected());
    auth.pair_result(true);
    assert!(auth.is_connected());
    auth.connect_result(false);
    assert!(auth.is_connected());
}
