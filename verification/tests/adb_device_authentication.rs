use wifi_android_connect_lib::adb_device_authentication::{
    AdbConnectionState, AdbDeviceAuthentication, AdbService,
};
use wifi_android_connect_lib::client::AdbClient;

struct SuccessMock;
struct ErrorMock;

impl AdbClient for SuccessMock {
    fn adb_pair(&self, _address: &str, _code: u32) -> Result<(), ()> {
        Ok(())
    }

    fn adb_connect(&self, _address: &str) -> Result<(), ()> {
        Ok(())
    }
}

impl AdbClient for ErrorMock {
    fn adb_pair(&self, _address: &str, _code: u32) -> Result<(), ()> {
        Err(())
    }

    fn adb_connect(&self, _address: &str) -> Result<(), ()> {
        Err(())
    }
}

#[test]
fn test_device_paired() {
    let mut auth = AdbDeviceAuthentication::new(10, "test".into());
    let service = AdbService {
        domain: "local".into(),
        ip: "123.123.0.123".into(),
        name: "android".into(),
        port: 33001,
    };
    auth.on_connect(&service, &SuccessMock);

    assert!(auth.is_connected());
}

#[test]
fn test_device_not_paired() {
    let mut auth = AdbDeviceAuthentication::new(10, "test".into());
    let service = AdbService {
        domain: "local".into(),
        ip: "123.123.0.123".into(),
        name: "android".into(),
        port: 33001,
    };
    auth.on_connect(&service, &ErrorMock);

    assert!(!auth.is_connected());
}

#[test]
fn test_on_connect_before_on_pair() {
    let mut auth = AdbDeviceAuthentication::new(10, "test".into());
    let connect_service = AdbService {
        domain: "local".into(),
        ip: "123.123.0.123".into(),
        name: "adb-wg858lj7t959helz-si5LWZ".into(),
        port: 34003,
    };
    auth.on_connect(&connect_service, &ErrorMock);

    assert!(!auth.is_connected());

    auth.on_pair(&connect_service, &SuccessMock);

    // Should failed because the service's name is different from auth
    assert!(!auth.is_connected());

    let pair_service = AdbService {
        domain: "local".into(),
        ip: "123.123.0.123".into(),
        name: "test".into(),
        port: 44123,
    };

    auth.on_pair(&pair_service, &SuccessMock);

    assert!(auth.is_connected());
}

#[test]
fn test_on_pair_before_on_connect() {
    let mut auth = AdbDeviceAuthentication::new(10, "WIFI Android Connect".into());

    let pair_service = AdbService {
        name: "WIFI Android Connect._adb-tls-pairing._tcp.local.".into(),
        ip: "192.168.0.197".into(),
        port: 34317,
        domain: "local".into(),
    };

    auth.on_pair(&pair_service, &SuccessMock);

    if let AdbConnectionState::Paired = auth.state {
        assert!(!auth.is_connected());
    } else {
        panic!("Auth should be paired at this time {auth:?}");
    }

    let connect_service = AdbService {
        name: "adb-wg858lj7t959helz-si5LWZ._adb-tls-pairing._tcp.local.".into(),
        ip: "192.168.0.197".into(),
        port: 34317,
        domain: "local".into(),
    };

    auth.on_connect(&connect_service, &SuccessMock);
    assert!(auth.is_connected());
}
