//! Pairing a terminal with an Android device over wireless debugging.
//!
//! The device scans a QR code that holds a name and a pair code, and then
//! announces itself on two discovery streams: the pairing stream, for
//! devices that wait for the pair code, and the connect stream, for devices
//! that are trusted and ready for a session. The authentication engine folds
//! the services of both streams into one state, until it is connected.

pub mod adb_device;
pub mod adb_device_authentication;
pub mod adb_mdns_discovery_service;
pub mod adb_zero_conf;
pub mod adb_zero_conf_mdns_sd;
pub mod address_cache;
pub mod authentication_laws;
pub mod client;
pub mod payload;
pub mod reconciliation;
pub mod setup;
pub mod text;

use crate::adb_device_authentication::{AdbDeviceAuthentication, ServiceRecord};
use crate::adb_mdns_discovery_service::AdbMDnsDiscoveryService;
use crate::client::AdbClient;
use crate::payload::{is_pair_code, is_valid_pair_code, payload, MIN_PAIR_CODE};
use crate::reconciliation::{reconcile, round, round_answers};
use qrcode::render::unicode::Dense1x2;
use qrcode::QrCode;
use rand::Rng;
use vstd::prelude::*;
use vstd::string::StringExecFns;

verus! {

/// The payload for `name` and `pair_code`, or an error where `pair_code` is
/// not a number of six digits.
pub fn wifi_connect_msg(name: &str, pair_code: u32) -> (msg: Result<String, String>)
    ensures
        match msg {
            Ok(text) => is_pair_code(pair_code) && text@ == payload(name@, pair_code),
            Err(reason) => !is_pair_code(pair_code) && reason@
                == "Pair code should be a 6 digits number"@,
        },
{
    if !is_valid_pair_code(pair_code) {
        return Err(String::from_str("Pair code should be a 6 digits number"));
    }
    Ok(crate::payload::wifi_connect_msg(name, pair_code))
}

/// The image of the QR code for `data`, as lines of text for a terminal, or
/// `None` where `data` does not fit into a QR code.
pub uninterp spec fn qr_image(data: Seq<char>) -> Option<Seq<char>>;

/// Encodes `data` with `qrcode::QrCode::new` and renders the code with its
/// `render` builder, as `Dense1x2` characters with dark and light exchanged.
/// The contract claims that the image is a function of `data` alone, and that
/// the call fails on the same `data` on which `QrCode::new` does.
#[verifier::external_body]
fn generate_qrcode_img(data: &str) -> (img: Option<String>)
    ensures
        match img {
            Some(image) => qr_image(data@) == Some(image@),
            None => qr_image(data@) is None,
        },
{
    match QrCode::new(data) {
        Ok(code) => Some(
            code.render::<Dense1x2>().dark_color(Dense1x2::Light).light_color(
                Dense1x2::Dark,
            ).build(),
        ),
        Err(_) => None,
    }
}

/// Draws a number from `low` up to, not including, `high` with
/// `rand::Rng::gen_range` on `rand::thread_rng()`. The contract claims the
/// range only.
#[verifier::external_body]
fn random_in(low: u32, high: u32) -> (n: u32)
    requires
        low < high,
    ensures
        low <= n < high,
{
    rand::thread_rng().gen_range(low..high)
}

/// One past the largest pair code that is drawn at random.
pub const RANDOM_PAIR_CODE_END: u32 = 999_000;

/// A pair code drawn at random, from the smallest pair code up to, not
/// including, `RANDOM_PAIR_CODE_END`.
pub fn random_6_digits_pair_code() -> (code: u32)
    ensures
        MIN_PAIR_CODE <= code < RANDOM_PAIR_CODE_END,
        is_pair_code(code),
{
    random_in(MIN_PAIR_CODE, RANDOM_PAIR_CODE_END)
}

/// What a device is paired with: the name that it shows and the pair code.
pub struct WifiAndroidConnect {
    pub pair_name: String,
    pub pair_code: u32,
}

impl Default for WifiAndroidConnect {
    /// The default name with a pair code drawn at random.
    fn default() -> (connect: WifiAndroidConnect)
        ensures
            connect.pair_name@ == "WIFI Android Connect"@,
            is_pair_code(connect.pair_code),
    {
        WifiAndroidConnect {
            pair_name: String::from_str("WIFI Android Connect"),
            pair_code: random_6_digits_pair_code(),
        }
    }
}

impl WifiAndroidConnect {
    /// The name and the pair code as they are given.
    pub fn new(pair_name: String, pair_code: u32) -> (connect: WifiAndroidConnect)
        ensures
            connect.pair_name == pair_name,
            connect.pair_code == pair_code,
    {
        WifiAndroidConnect { pair_name, pair_code }
    }

    /// The name and the pair code of `self`, each replaced by the one that is
    /// given, where one is given.
    pub fn with(self, pair_name: Option<String>, pair_code: Option<u32>) -> (connect:
        WifiAndroidConnect)
        ensures
            connect.pair_name == (match pair_name {
                Some(name) => name,
                None => self.pair_name,
            }),
            connect.pair_code == (match pair_code {
                Some(code) => code,
                None => self.pair_code,
            }),
    {
        let mut connect = self;
        if let Some(code) = pair_code {
            connect.pair_code = code;
        }
        if let Some(name) = pair_name {
            connect.pair_name = name;
        }
        connect
    }

    /// The image of the QR code that holds the payload for the name and the
    /// pair code, or the reason why there is none: the pair code is not a
    /// number of six digits, or the payload does not fit into a QR code.
    pub open spec fn image(self) -> Result<Seq<char>, Seq<char>> {
        if !is_pair_code(self.pair_code) {
            Err("Pair code should be a 6 digits number"@)
        } else {
            match qr_image(payload(self.pair_name@, self.pair_code)) {
                Some(image) => Ok(image),
                None => Err("Pair name is too long for a QR code"@),
            }
        }
    }

    /// The image of the QR code that holds the payload for the name and the
    /// pair code. It is an error if the pair code is not a number of six
    /// digits, or if the payload does not fit into a QR code.
    pub fn qrcode_img(&self) -> (img: Result<String, String>)
        ensures
            match img {
                Ok(image) => self.image() == Ok::<Seq<char>, Seq<char>>(image@),
                Err(reason) => self.image() == Err::<Seq<char>, Seq<char>>(reason@),
            },
    {
        let code = wifi_connect_msg(&self.pair_name, self.pair_code)?;
        match generate_qrcode_img(&code) {
            Some(image) => Ok(image),
            None => Err(String::from_str("Pair name is too long for a QR code")),
        }
    }

    /// One round of reconciliation: asks `mdns` for the services of both
    /// streams, hands them to `auth`, and says whether it is connected.
    pub fn iter<D: AdbMDnsDiscoveryService, C: AdbClient>(
        &self,
        auth: &mut AdbDeviceAuthentication,
        mdns: &D,
        client: &C,
    ) -> (connected: bool)
        ensures
            exists|
                pairing: Seq<ServiceRecord>,
                pair_outcomes: Seq<(bool, bool)>,
                connecting: Seq<ServiceRecord>,
                connect_outcomes: Seq<(bool, bool)>,
            |
                {
                    &&& final(auth)@ == #[trigger] round(
                        old(auth)@,
                        pairing,
                        pair_outcomes,
                        connecting,
                        connect_outcomes,
                    )
                    &&& round_answers(
                        old(auth)@,
                        pairing,
                        pair_outcomes,
                        connecting,
                        connect_outcomes,
                        client,
                    )
                },
            connected == (final(auth)@.state is Connected),
            old(auth)@.state.rank() <= final(auth)@.state.rank(),
            old(auth)@.known_address.submap_of(final(auth)@.known_address),
    {
        let pair_set = mdns.adb_tls_pairing();
        let connect_set = mdns.adb_tls_connect();
        reconcile(auth, &pair_set, &connect_set, client)
    }
}

} // verus!
