//! Discovery by a zero-configuration browser: the reading of what the
//! browser hands to its callback.

use crate::adb_device_authentication::{AdbService, ServiceRecord};
use vstd::prelude::*;

verus! {

/// A service as the browser describes it.
#[derive(Debug)]
pub struct ZeroConfService {
    pub name: String,
    pub address: String,
    pub port: u16,
    pub domain: String,
}

impl ZeroConfService {
    /// The service that is described, with the address as its ip.
    pub open spec fn service(self) -> ServiceRecord {
        ServiceRecord {
            name: self.name@,
            ip: self.address@,
            port: self.port,
            domain: self.domain@,
        }
    }
}

impl From<ZeroConfService> for AdbService {
    /// The service with the address as its ip.
    fn from(value: ZeroConfService) -> (service: AdbService)
        ensures
            service@ == value.service(),
    {
        AdbService { name: value.name, ip: value.address, port: value.port, domain: value.domain }
    }
}

impl vstd::std_specs::convert::FromSpecImpl<ZeroConfService> for AdbService {
    open spec fn obeys_from_spec() -> bool {
        true
    }

    open spec fn from_spec(value: ZeroConfService) -> AdbService {
        AdbService { name: value.name, ip: value.address, port: value.port, domain: value.domain }
    }
}

/// The service that the browser found, where it found one and met no error.
pub fn zero_conf_filter_service(service: Result<ZeroConfService, String>) -> (found: Option<
    AdbService,
>)
    ensures
        match service {
            Ok(s) => found matches Some(a) && a@ == s.service(),
            Err(_) => found is None,
        },
{
    match service {
        Ok(s) => Some(AdbService::from(s)),
        Err(_) => None,
    }
}

} // verus!
