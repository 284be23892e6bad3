//! Discovery by a multicast DNS daemon: the service types to browse for and
//! the reading of the daemon's events.

use crate::adb_device_authentication::{AdbService, ServiceRecord};
use vstd::prelude::*;
use vstd::string::StringExecFns;

verus! {

/// The service type of the pairing stream.
pub const ADB_TLS_PAIRING: &'static str = "_adb-tls-pairing._tcp.local.";

/// The service type of the connect stream.
pub const ADB_TLS_CONNECT: &'static str = "_adb-tls-connect._tcp.local.";

/// An event of the daemon, as far as it is read.
#[derive(Debug)]
pub enum DiscoveryEvent {
    /// A service was resolved: its full name, its IPv4 addresses in the
    /// order in which the daemon gives them, and its port.
    ServiceResolved { fullname: String, addresses_v4: Vec<String>, port: u16 },
    /// Any other event.
    Other,
}

impl DiscoveryEvent {
    /// The service that the event announces: a resolved service with at
    /// least one IPv4 address, under its full name, at the first of its
    /// addresses, in the local domain.
    pub open spec fn service(self) -> Option<ServiceRecord> {
        match self {
            DiscoveryEvent::ServiceResolved { fullname, addresses_v4, port } => {
                if addresses_v4@.len() > 0 {
                    Some(
                        ServiceRecord {
                            name: fullname@,
                            ip: addresses_v4@[0]@,
                            port,
                            domain: "local"@,
                        },
                    )
                } else {
                    None
                }
            },
            DiscoveryEvent::Other => None,
        }
    }
}

/// The service that `e` announces, if it announces one.
pub fn event_to_adbservice(e: DiscoveryEvent) -> (service: Option<AdbService>)
    ensures
        match service {
            Some(s) => e.service() == Some(s@),
            None => e.service() is None,
        },
{
    if let DiscoveryEvent::ServiceResolved { fullname, addresses_v4, port } = e {
        if addresses_v4.len() > 0 {
            let adbservice = AdbService {
                name: fullname,
                ip: addresses_v4[0].clone(),
                port,
                domain: String::from_str("local"),
            };
            return Some(adbservice);
        }
    }
    None
}

} // verus!
