use std::cell::RefCell;

use qrcode::render::unicode::Dense1x2;
use qrcode::QrCode;
use wifi_android_connect_lib::adb_device_authentication::{
    AdbConnectionState, AdbDeviceAuthentication, AdbService,
};
use wifi_android_connect_lib::adb_mdns_discovery_service::AdbMDnsDiscoveryService;
use wifi_android_connect_lib::client::AdbClient;
use wifi_android_connect_lib::reconciliation::reconcile;
use wifi_android_connect_lib::{random_6_digits_pair_code, WifiAndroidConnect};

struct Recorder {
    pair_ok: bool,
    connect_ok: bool,
    calls: RefCell<Vec<String>>,
}

impl Recorder {
    fn new(pair_ok: bool, connect_ok: bool) -> Recorder {
        Recorder { pair_ok, connect_ok, calls: RefCell::new(Vec::new()) }
    }

    fn calls(&self) -> Vec<String> {
        self.calls.borrow().clone()
    }
}

impl AdbClient for Recorder {
    fn adb_pair(&self, address: &str, code: u32) -> Result<(), ()> {
        self.calls.borrow_mut().push(format!("pair {address} {code}"));
        if self.pair_ok {
            Ok(())
        } else {
            Err(())
        }
    }

    fn adb_connect(&self, address: &str) -> Result<(), ()> {
        self.calls.borrow_mut().push(format!("connect {address}"));
        if self.connect_ok {
            Ok(())
        } else {
            Err(())
        }
    }
}

/// A discovery service that knows the same services at every query.
struct Fixed {
    pairing: Vec<AdbService>,
    connect: Vec<AdbService>,
}

impl AdbMDnsDiscoveryService for Fixed {
    fn start(&self) -> Result<(), String> {
        Ok(())
    }

    fn stop(&self) -> Result<(), String> {
        Ok(())
    }

    fn adb_tls_pairing(&self) -> Vec<AdbService> {
        self.pairing.clone()
    }

    fn adb_tls_connect(&self) -> Vec<AdbService> {
        self.connect.clone()
    }
}

fn service(name: &str, ip: &str, port: u16, domain: &str) -> AdbService {
    AdbService { name: name.into(), ip: ip.into(), port, domain: domain.into() }
}

fn image_of(data: &str) -> String {
    QrCode::new(data)
        .unwrap()
        .render::<Dense1x2>()
        .dark_color(Dense1x2::Light)
        .light_color(Dense1x2::Dark)
        .build()
}

#[test]
fn new_takes_the_name_and_the_code() {
    let conn = WifiAndroidConnect::new("my phone".to_string(), 42);
    assert_eq!(conn.pair_name, "my phone");
    assert_eq!(conn.pair_code, 42);
}

#[test]
fn the_default_has_the_default_name_and_a_pair_code() {
    for _ in 0..50 {
        let conn = WifiAndroidConnect::default();
        assert_eq!(conn.pair_name, "WIFI Android Connect");
        assert!((100_000..999_000).contains(&conn.pair_code));
        assert!(conn.qrcode_img().is_ok());
    }
}

#[test]
fn random_pair_codes_have_six_digits() {
    let mut seen = Vec::new();
    for _ in 0..200 {
        let code = random_6_digits_pair_code();
        assert!((100_000..999_000).contains(&code));
        assert_eq!(code.to_string().len(), 6);
        if !seen.contains(&code) {
            seen.push(code);
        }
    }
    assert!(seen.len() > 1);
}

#[test]
fn with_replaces_what_is_given() {
    let conn = WifiAndroidConnect::new("a".to_string(), 1);
    let same = conn.with(None, None);
    assert_eq!(same.pair_name, "a");
    assert_eq!(same.pair_code, 1);
    let named = same.with(Some("b".to_string()), None);
    assert_eq!(named.pair_name, "b");
    assert_eq!(named.pair_code, 1);
    let coded = named.with(None, Some(2));
    assert_eq!(coded.pair_name, "b");
    assert_eq!(coded.pair_code, 2);
    let both = coded.with(Some("c".to_string()), Some(3));
    assert_eq!(both.pair_name, "c");
    assert_eq!(both.pair_code, 3);
}

#[test]
fn the_image_is_the_qr_code_of_the_payload() {
    let conn = WifiAndroidConnect::new("connectAndroid".to_string(), 765912);
    let image = conn.qrcode_img().unwrap();
    assert_eq!(image, image_of("WIFI:T:ADB;S:connectAndroid;P:765912;;"));
    assert_ne!(image, "WIFI:T:ADB;S:connectAndroid;P:765912;;");
    assert!(image.lines().count() > 10);
    assert!(image.chars().all(|c| " \u{2584}\u{2580}\u{2588}\n".contains(c)));
    assert_eq!(conn.qrcode_img().unwrap(), image);
}

#[test]
fn other_payloads_have_other_images() {
    let a = WifiAndroidConnect::new("connectAndroid".to_string(), 765912).qrcode_img().unwrap();
    let b = WifiAndroidConnect::new("connectAndroid".to_string(), 765913).qrcode_img().unwrap();
    let c = WifiAndroidConnect::new("connectandroid".to_string(), 765912).qrcode_img().unwrap();
    assert_ne!(a, b);
    assert_ne!(a, c);
}

#[test]
fn there_is_no_image_for_a_wrong_pair_code() {
    for code in [0, 1, 12345, 99_999, 1_000_000, 1234567, u32::MAX] {
        let conn = WifiAndroidConnect::new("connectAndroid".to_string(), code);
        assert_eq!(conn.qrcode_img(), Err("Pair code should be a 6 digits number".to_string()));
    }
}

#[test]
fn there_is_no_image_for_a_name_that_is_too_long() {
    let conn = WifiAndroidConnect::new("x".repeat(4000), 765912);
    assert_eq!(conn.qrcode_img(), Err("Pair name is too long for a QR code".to_string()));
}

#[test]
fn a_round_pairs_first_and_connects_second() {
    let pairing = vec![service("test", "1.2.3.4", 40000, "local")];
    let connect = vec![service("adb-1", "1.2.3.4", 5555, "local")];
    let mut auth = AdbDeviceAuthentication::new(123456, "test".into());
    let client = Recorder::new(true, true);
    assert!(reconcile(&mut auth, &pairing, &connect, &client));
    assert!(auth.is_connected());
    assert_eq!(
        client.calls(),
        vec!["pair 1.2.3.4:40000 123456".to_string(), "connect 1.2.3.4:5555".to_string()]
    );
}

#[test]
fn a_round_takes_the_services_in_order() {
    let pairing = vec![
        service("other", "1.2.3.1", 40001, "local"),
        service("test", "1.2.3.2", 40002, "lan"),
        service("test", "1.2.3.3", 40003, "local"),
        service("test", "1.2.3.4", 40004, "local"),
    ];
    let connect = vec![
        service("adb-1", "1.2.3.5", 5551, "lan"),
        service("adb-2", "1.2.3.6", 5552, "local"),
        service("adb-3", "1.2.3.7", 5553, "local"),
    ];
    let mut auth = AdbDeviceAuthentication::new(123456, "test".into());
    let client = Recorder::new(true, false);
    assert!(!reconcile(&mut auth, &pairing, &connect, &client));
    assert!(matches!(auth.state, AdbConnectionState::Paired));
    assert_eq!(
        client.calls(),
        vec![
            "pair 1.2.3.3:40003 123456".to_string(),
            "connect 1.2.3.6:5552".to_string(),
            "connect 1.2.3.6:5552".to_string(),
            "connect 1.2.3.7:5553".to_string(),
            "connect 1.2.3.7:5553".to_string(),
        ]
    );
    assert_eq!(auth.get_address("1.2.3.5"), None);
    assert_eq!(auth.get_address("1.2.3.6"), Some("1.2.3.6:5552".to_string()));
    assert_eq!(auth.get_address("1.2.3.7"), Some("1.2.3.7:5553".to_string()));
}

#[test]
fn a_round_without_services_changes_nothing() {
    let mut auth = AdbDeviceAuthentication::new(123456, "test".into());
    let client = Recorder::new(true, true);
    assert!(!reconcile(&mut auth, &Vec::new(), &Vec::new(), &client));
    assert!(matches!(auth.state, AdbConnectionState::Unpaired(_, 123456)));
    assert!(client.calls().is_empty());
}

#[test]
fn rounds_are_repeated_until_connected() {
    let discovery = Fixed {
        pairing: vec![service("test", "1.2.3.4", 40000, "local")],
        connect: vec![service("adb-1", "1.2.3.4", 5555, "local")],
    };
    let conn = WifiAndroidConnect::new("test".to_string(), 123456);
    let mut auth = AdbDeviceAuthentication::new(conn.pair_code, conn.pair_name.clone());

    let failing = Recorder::new(false, false);
    assert!(!conn.iter(&mut auth, &discovery, &failing));
    assert!(!conn.iter(&mut auth, &discovery, &failing));
    assert_eq!(
        failing.calls(),
        vec![
            "pair 1.2.3.4:40000 123456".to_string(),
            "connect 1.2.3.4:5555".to_string(),
            "pair 1.2.3.4:40000 123456".to_string(),
        ]
    );

    let succeeding = Recorder::new(true, true);
    assert!(conn.iter(&mut auth, &discovery, &succeeding));
    assert_eq!(
        succeeding.calls(),
        vec!["pair 1.2.3.4:40000 123456".to_string(), "connect 1.2.3.4:5555".to_string()]
    );

    let idle = Recorder::new(true, true);
    assert!(conn.iter(&mut auth, &discovery, &idle));
    assert!(idle.calls().is_empty());
}
