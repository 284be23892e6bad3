//! The discovery service: the capability that browses for the services of
//! the pairing stream and of the connect stream.

use crate::adb_device_authentication::AdbService;
use vstd::prelude::*;

verus! {

/// Browsing for devices. Between `start` and `stop`, each of the two
/// queries gives the services known at that moment; a service may be given
/// again by a later query.
pub trait AdbMDnsDiscoveryService {
    /// Starts browsing.
    fn start(&self) -> Result<(), String>;

    /// Stops browsing.
    fn stop(&self) -> Result<(), String>;

    /// The services of the pairing stream known by now.
    fn adb_tls_pairing(&self) -> Vec<AdbService>;

    /// The services of the connect stream known by now.
    fn adb_tls_connect(&self) -> Vec<AdbService>;
}

} // verus!
