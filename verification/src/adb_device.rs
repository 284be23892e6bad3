//! Authentication of one device by address: the state alone, with the
//! addresses of known devices kept by the caller.

use crate::address_cache::AddressCache;
use crate::client::AdbClient;
use vstd::prelude::*;

verus! {

/// The authentication state of the device.
#[derive(Debug, Clone, Copy)]
pub enum AdbConnectionState {
    /// Not paired yet, with the pair code.
    Unpaired(u32),
    /// Paired, without a session yet.
    Paired,
    /// Connected: the final state.
    Connected,
}

impl AdbConnectionState {
    /// How far the authentication has come.
    pub open spec fn rank(self) -> nat {
        match self {
            AdbConnectionState::Unpaired(_) => 0,
            AdbConnectionState::Paired => 1,
            AdbConnectionState::Connected => 2,
        }
    }

    /// The state after a pair call: paired if the call succeeded while the
    /// device was unpaired.
    pub open spec fn after_pair(self, paired: bool) -> AdbConnectionState {
        if paired && self is Unpaired {
            AdbConnectionState::Paired
        } else {
            self
        }
    }

    /// The state after a connect call: connected if the call succeeded.
    pub open spec fn after_connect(self, connected: bool) -> AdbConnectionState {
        if connected {
            AdbConnectionState::Connected
        } else {
            self
        }
    }

    /// `paired` and `connected` are answers that `client` may give to the
    /// calls that are made for a pairing announcement of an unpaired device:
    /// the pair call for `address` with the pair code and, if it succeeds,
    /// the connect call to the address that `devices` holds for `ip`. Of a
    /// call that is not made, nothing is asked.
    pub open spec fn pair_answers<C: AdbClient>(
        self,
        address: Seq<char>,
        devices: Map<Seq<char>, Seq<char>>,
        ip: Seq<char>,
        client: &C,
        paired: bool,
        connected: bool,
    ) -> bool {
        match self {
            AdbConnectionState::Unpaired(pair_code) => {
                &&& client.may_pair(address, pair_code, paired)
                &&& paired && devices.contains_key(ip) ==> client.may_connect(
                    devices[ip],
                    connected,
                )
            },
            _ => true,
        }
    }

    /// The state after a pairing announcement was handled, where `known`
    /// says whether an address is known for the device, and `paired` and
    /// `connected` say how the pair call and the connect call ended, as far
    /// as they were made.
    pub open spec fn on_pair(self, known: bool, paired: bool, connected: bool)
        -> AdbConnectionState {
        if self is Unpaired && paired {
            if known {
                self.after_pair(true).after_connect(connected)
            } else {
                self.after_pair(true)
            }
        } else {
            self
        }
    }
}

/// The authentication of one device.
#[derive(Debug)]
pub struct AdbDeviceAutentication {
    pub state: AdbConnectionState,
}

impl AdbDeviceAutentication {
    /// The pair code, for as long as the device is unpaired.
    pub fn pair_code(&self) -> (code: Option<u32>)
        ensures
            code == (match self.state {
                AdbConnectionState::Unpaired(pair_code) => Some(pair_code),
                _ => None::<u32>,
            }),
    {
        match self.state {
            AdbConnectionState::Unpaired(code) => Some(code),
            _ => None,
        }
    }

    /// Whether the device is paired and not connected yet.
    pub fn is_paried(&self) -> (paired: bool)
        ensures
            paired == (self.state is Paired),
    {
        match self.state {
            AdbConnectionState::Paired => true,
            _ => false,
        }
    }

    /// Whether the device is connected.
    pub fn is_connected(&self) -> (connected: bool)
        ensures
            connected == (self.state is Connected),
    {
        match self.state {
            AdbConnectionState::Connected => true,
            _ => false,
        }
    }

    /// Takes in how a pair call ended.
    pub fn pair_result(&mut self, paired: bool)
        ensures
            final(self).state == old(self).state.after_pair(paired),
    {
        if paired {
            if let AdbConnectionState::Unpaired(_) = self.state {
                self.state = AdbConnectionState::Paired;
            }
        }
    }

    /// Takes in how a connect call ended.
    pub fn connect_result(&mut self, connected: bool)
        ensures
            final(self).state == old(self).state.after_connect(connected),
    {
        if connected {
            self.state = AdbConnectionState::Connected;
        }
    }

    /// Connects to `address`: the device is connected if the call succeeds,
    /// and stays as it is if not.
    pub fn on_connect<C: AdbClient>(&mut self, address: &str, client: &C)
        ensures
            exists|connected: bool|
                {
                    &&& final(self).state == #[trigger] old(self).state.after_connect(connected)
                    &&& client.may_connect(address@, connected)
                },
            final(self).state is Connected || final(self).state == old(self).state,
    {
        let connected = client.adb_connect(address).is_ok();
        self.connect_result(connected);
        assert(self.state == old(self).state.after_connect(connected));
    }

    /// Pairs with the unpaired device at `address`; if that succeeds and
    /// `devices` holds an address for `ip`, connects to that address.
    pub fn on_pair<C: AdbClient>(
        &mut self,
        ip: &str,
        address: &str,
        client: &C,
        devices: &AddressCache,
    )
        ensures
            exists|paired: bool, connected: bool|
                {
                    &&& final(self).state == #[trigger] old(self).state.on_pair(
                        devices@.contains_key(ip@),
                        paired,
                        connected,
                    )
                    &&& old(self).state.pair_answers(
                        address@,
                        devices@,
                        ip@,
                        client,
                        paired,
                        connected,
                    )
                },
            !(old(self).state is Unpaired) ==> final(self).state == old(self).state,
            old(self).state.rank() <= final(self).state.rank(),
    {
        let ghost known = devices@.contains_key(ip@);
        if let AdbConnectionState::Unpaired(pair_code) = self.state {
            let paired = client.adb_pair(address, pair_code).is_ok();
            self.pair_result(paired);
            let mut connected = false;
            if paired {
                if let Some(add) = devices.get(ip) {
                    connected = client.adb_connect(add).is_ok();
                    self.connect_result(connected);
                }
            }
            assert(self.state == old(self).state.on_pair(known, paired, connected));
            assert(old(self).state.pair_answers(address@, devices@, ip@, client, paired, connected));
        } else {
            assert(self.state == old(self).state.on_pair(known, false, false));
            assert(old(self).state.pair_answers(address@, devices@, ip@, client, false, false));
        }
    }
}

} // verus!
