//! The settings of an editor plugin, and what the plugin tells its user.

use crate::payload::is_pair_code;
use crate::WifiAndroidConnect;
use vstd::prelude::*;
use vstd::string::StringExecFns;

verus! {

/// The time in seconds after which a connection attempt is given up, where
/// the settings name none.
pub const DEFAULT_TIMEOUT: u64 = 2 * 60;

/// The settings: each of them may be left out.
#[derive(Debug)]
pub struct Setup {
    pub pair_name: Option<String>,
    pub pair_code: Option<u32>,
    pub timeout_in_seconds: Option<u64>,
}

impl Default for Setup {
    /// No name and no pair code, and the default timeout.
    fn default() -> (setup: Setup)
        ensures
            setup.pair_name is None,
            setup.pair_code is None,
            setup.timeout_in_seconds == Some(DEFAULT_TIMEOUT),
    {
        Setup { pair_code: None, pair_name: None, timeout_in_seconds: Some(DEFAULT_TIMEOUT) }
    }
}

impl Setup {
    /// `connect` is what these settings ask for: it has the name and the
    /// pair code of the settings, the default name where they give no name,
    /// and some pair code where they give none.
    pub open spec fn asks_for(self, connect: WifiAndroidConnect) -> bool {
        &&& connect.pair_name@ == match self.pair_name {
            Some(name) => name@,
            None => "WIFI Android Connect"@,
        }
        &&& match self.pair_code {
            Some(code) => connect.pair_code == code,
            None => is_pair_code(connect.pair_code),
        }
    }

    /// The time in seconds after which a connection attempt is given up.
    pub fn timeout(&self) -> (seconds: u64)
        ensures
            seconds == (match self.timeout_in_seconds {
                Some(given) => given,
                None => DEFAULT_TIMEOUT,
            }),
    {
        match self.timeout_in_seconds {
            Some(given) => given,
            None => DEFAULT_TIMEOUT,
        }
    }
}

impl From<Setup> for WifiAndroidConnect {
    /// What the settings ask for, with a pair code drawn at random where
    /// they give none.
    fn from(value: Setup) -> (connect: WifiAndroidConnect)
        ensures
            value.asks_for(connect),
    {
        WifiAndroidConnect::default().with(value.pair_name, value.pair_code)
    }
}

impl vstd::std_specs::convert::FromSpecImpl<Setup> for WifiAndroidConnect {
    open spec fn obeys_from_spec() -> bool {
        false
    }

    open spec fn from_spec(value: Setup) -> WifiAndroidConnect {
        arbitrary()
    }
}

impl From<&Setup> for WifiAndroidConnect {
    /// What the settings ask for, with a pair code drawn at random where
    /// they give none.
    fn from(value: &Setup) -> (connect: WifiAndroidConnect)
        ensures
            value.asks_for(connect),
    {
        let pair_name = match &value.pair_name {
            Some(name) => Some(name.clone()),
            None => None,
        };
        WifiAndroidConnect::default().with(pair_name, value.pair_code)
    }
}

impl vstd::std_specs::convert::FromSpecImpl<&Setup> for WifiAndroidConnect {
    open spec fn obeys_from_spec() -> bool {
        false
    }

    open spec fn from_spec(value: &Setup) -> WifiAndroidConnect {
        arbitrary()
    }
}

/// What the plugin shows for `connect`: the image of its QR code, or the
/// reason why there is none.
pub open spec fn shown(connect: WifiAndroidConnect) -> Seq<char> {
    match connect.image() {
        Ok(image) => image,
        Err(reason) => reason,
    }
}

/// What the plugin shows for `connect`.
pub fn qrcode_text(connect: &WifiAndroidConnect) -> (text: String)
    ensures
        text@ == shown(*connect),
{
    match connect.qrcode_img() {
        Ok(qrcode_img) => qrcode_img,
        Err(error_msg) => error_msg,
    }
}

/// What the plugin shows for the settings `setup`.
pub fn qrcode(setup: &Setup) -> (text: String)
    ensures
        exists|connect: WifiAndroidConnect|
            setup.asks_for(connect) && text@ == #[trigger] shown(connect),
{
    let conn = WifiAndroidConnect::from(setup);
    qrcode_text(&conn)
}

/// What the plugin reports when a connection attempt has ended: `outcome`
/// is how it ended, or nothing where it was given up after the timeout.
pub open spec fn report(outcome: Option<Result<(), String>>) -> Seq<char> {
    match outcome {
        Some(Ok(_)) => "Connected"@,
        Some(Err(reason)) => reason@,
        None => "Timeout"@,
    }
}

/// What the plugin reports when a connection attempt has ended.
pub fn connect_message(outcome: Option<Result<(), String>>) -> (message: String)
    ensures
        message@ == report(outcome),
{
    match outcome {
        Some(connect_result) => match connect_result {
            Ok(_) => String::from_str("Connected"),
            Err(e) => e,
        },
        None => String::from_str("Timeout"),
    }
}

} // verus!
