//! The authentication engine: it folds discovered services into one
//! authentication state, pairing and connecting through a device client.

use crate::address_cache::AddressCache;
use crate::client::AdbClient;
use crate::text::{contains, decimal, is_substring, push_decimal, same_text};
use vstd::prelude::*;
use vstd::string::StringExecFns;

verus! {

/// One discovered service, as a value.
pub struct ServiceRecord {
    pub name: Seq<char>,
    pub ip: Seq<char>,
    pub port: u16,
    pub domain: Seq<char>,
}

impl ServiceRecord {
    /// The address of the service: its ip, a colon, its port in decimal.
    pub open spec fn address(self) -> Seq<char> {
        self.ip + ":"@ + decimal(self.port as nat)
    }

    /// The service was announced in the local domain.
    pub open spec fn is_local(self) -> bool {
        self.domain == "local"@
    }
}

/// A snapshot of one discovered network service. Two services are equal
/// when they have the same name, ip, port and domain.
#[derive(Debug, Hash, Eq, Clone)]
pub struct AdbService {
    pub name: String,
    pub ip: String,
    pub port: u16,
    pub domain: String,
}

impl View for AdbService {
    type V = ServiceRecord;

    open spec fn view(&self) -> ServiceRecord {
        ServiceRecord { name: self.name@, ip: self.ip@, port: self.port, domain: self.domain@ }
    }
}

impl PartialEq for AdbService {
    fn eq(&self, other: &AdbService) -> (equal: bool) {
        self.name == other.name && self.ip == other.ip && self.port == other.port && self.domain
            == other.domain
    }
}

impl vstd::std_specs::cmp::PartialEqSpecImpl for AdbService {
    open spec fn obeys_eq_spec() -> bool {
        true
    }

    open spec fn eq_spec(&self, other: &AdbService) -> bool {
        self.name@ == other.name@ && self.ip@ == other.ip@ && self.port == other.port
            && self.domain@ == other.domain@
    }
}

impl AdbService {
    /// The address of the service, `ip:port`.
    pub fn address(&self) -> (address: String)
        ensures
            address@ == self@.address(),
    {
        let mut address = self.ip.clone();
        address.append(":");
        push_decimal(&mut address, self.port as u32);
        address
    }

    /// The ip of the service.
    pub fn ip(&self) -> (ip: &String)
        ensures
            ip@ == self@.ip,
    {
        &self.ip
    }
}

/// Two names match when one of them contains the other.
pub open spec fn names_match(announced: Seq<char>, expected: Seq<char>) -> bool {
    is_substring(expected, announced) || is_substring(announced, expected)
}

/// Whether the announced name and the expected name match.
pub fn names_matching(announced: &str, expected: &str) -> (matching: bool)
    ensures
        matching == names_match(announced@, expected@),
{
    contains(announced, expected) || contains(expected, announced)
}

/// The authentication state, as a value.
pub enum AuthState {
    Unpaired { expected_name: Seq<char>, pair_code: u32 },
    Paired,
    Connected,
}

impl AuthState {
    /// How far the authentication has come.
    pub open spec fn rank(self) -> nat {
        match self {
            AuthState::Unpaired { .. } => 0,
            AuthState::Paired => 1,
            AuthState::Connected => 2,
        }
    }
}

/// The engine as a value: its state and its address cache.
#[verifier::ext_equal]
pub struct AuthModel {
    pub state: AuthState,
    pub known_address: Map<Seq<char>, Seq<char>>,
}

impl AuthModel {
    /// The engine before any service was seen.
    pub open spec fn fresh(pair_code: u32, expected_name: Seq<char>) -> AuthModel {
        AuthModel {
            state: AuthState::Unpaired { expected_name, pair_code },
            known_address: Map::empty(),
        }
    }

    /// The pair call that a pairing service asks for: the address and the
    /// pair code, or nothing where the engine is not unpaired, the service
    /// is not local or its name does not match.
    pub open spec fn pair_request(self, record: ServiceRecord) -> Option<(Seq<char>, u32)> {
        match self.state {
            AuthState::Unpaired { expected_name, pair_code } => {
                if record.is_local() && names_match(record.name, expected_name) {
                    Some((record.address(), pair_code))
                } else {
                    None
                }
            },
            _ => None,
        }
    }

    /// The engine after a pair call: paired if the call succeeded while the
    /// engine was unpaired.
    pub open spec fn after_pair(self, paired: bool) -> AuthModel {
        if paired && self.state is Unpaired {
            AuthModel { state: AuthState::Paired, ..self }
        } else {
            self
        }
    }

    /// The address cached for `ip`, if any. It is the address to connect to
    /// once a pair call for a service at `ip` has succeeded.
    pub open spec fn cached_address(self, ip: Seq<char>) -> Option<Seq<char>> {
        if self.known_address.contains_key(ip) {
            Some(self.known_address[ip])
        } else {
            None
        }
    }

    /// The engine after a connect call: connected if the call succeeded.
    pub open spec fn after_connect(self, connected: bool) -> AuthModel {
        if connected {
            AuthModel { state: AuthState::Connected, ..self }
        } else {
            self
        }
    }

    /// The engine after a pairing service was handled, where `paired` and
    /// `connected` say how the pair call and the connect call ended, as far
    /// as they were made.
    pub open spec fn on_pair(self, record: ServiceRecord, paired: bool, connected: bool)
        -> AuthModel {
        if self.pair_request(record) is Some && paired {
            let paired_model = self.after_pair(true);
            if paired_model.cached_address(record.ip) is Some {
                paired_model.after_connect(connected)
            } else {
                paired_model
            }
        } else {
            self
        }
    }

    /// `paired` and `connected` are answers that `client` may give to the
    /// calls that are made for the pairing service `record`: the pair call
    /// that `pair_request` asks for and, if it succeeds, the connect call to
    /// the address cached for the ip of `record`. Of a call that is not made,
    /// nothing is asked.
    pub open spec fn pair_answers<C: AdbClient>(
        self,
        record: ServiceRecord,
        client: &C,
        paired: bool,
        connected: bool,
    ) -> bool {
        match self.pair_request(record) {
            Some((address, code)) => {
                &&& client.may_pair(address, code, paired)
                &&& paired ==> match self.cached_address(record.ip) {
                    Some(cached) => client.may_connect(cached, connected),
                    None => true,
                }
            },
            None => true,
        }
    }

    /// A connect service is seen for the first time: it is local and no
    /// address is cached for its ip.
    pub open spec fn first_sight(self, record: ServiceRecord) -> bool {
        record.is_local() && !self.known_address.contains_key(record.ip)
    }

    /// The engine with the address of `record` cached for its ip.
    pub open spec fn remember(self, record: ServiceRecord) -> AuthModel {
        AuthModel { known_address: self.known_address.insert(record.ip, record.address()), ..self }
    }

    /// The connect call that a paired engine repeats for every local connect
    /// service.
    pub open spec fn retry_request(self, record: ServiceRecord) -> Option<Seq<char>> {
        if record.is_local() && self.state is Paired {
            Some(record.address())
        } else {
            None
        }
    }

    /// The engine after the first sight of a connect service was handled,
    /// where `first` says how the connect call ended, if it was made.
    pub open spec fn after_first_sight(self, record: ServiceRecord, first: bool) -> AuthModel {
        if self.first_sight(record) {
            self.remember(record).after_connect(first)
        } else {
            self
        }
    }

    /// `first` and `retry` are answers that `client` may give to the calls
    /// that are made for the connect service `record`: the connect call at
    /// first sight and the connect call of a paired engine, both to the
    /// address of `record`. Of a call that is not made, nothing is asked.
    pub open spec fn connect_answers<C: AdbClient>(
        self,
        record: ServiceRecord,
        client: &C,
        first: bool,
        retry: bool,
    ) -> bool {
        &&& self.first_sight(record) ==> client.may_connect(record.address(), first)
        &&& self.after_first_sight(record, first).retry_request(record) is Some
            ==> client.may_connect(record.address(), retry)
    }

    /// The engine after a connect service was handled, where `first` and
    /// `retry` say how the connect call at first sight and the connect call
    /// of a paired engine ended, as far as they were made.
    pub open spec fn on_connect(self, record: ServiceRecord, first: bool, retry: bool)
        -> AuthModel {
        let seen = self.after_first_sight(record, first);
        if seen.retry_request(record) is Some {
            seen.after_connect(retry)
        } else {
            seen
        }
    }
}

/// The authentication state.
#[derive(Debug)]
pub enum AdbConnectionState {
    /// Not paired yet, with the expected name and the pair code.
    Unpaired(String, u32),
    /// Paired, without a session yet.
    Paired,
    /// Connected: the final state.
    Connected,
}

impl View for AdbConnectionState {
    type V = AuthState;

    open spec fn view(&self) -> AuthState {
        match *self {
            AdbConnectionState::Unpaired(name, pair_code) => AuthState::Unpaired {
                expected_name: name@,
                pair_code,
            },
            AdbConnectionState::Paired => AuthState::Paired,
            AdbConnectionState::Connected => AuthState::Connected,
        }
    }
}

/// The authentication engine.
#[derive(Debug)]
pub struct AdbDeviceAuthentication {
    pub state: AdbConnectionState,
    pub known_address: AddressCache,
}

impl View for AdbDeviceAuthentication {
    type V = AuthModel;

    open spec fn view(&self) -> AuthModel {
        AuthModel { state: self.state@, known_address: self.known_address@ }
    }
}

impl AdbDeviceAuthentication {
    /// An unpaired engine with an empty cache. The pair code is taken as it
    /// is given.
    pub fn new(pair_code: u32, name: String) -> (auth: AdbDeviceAuthentication)
        ensures
            auth@ == AuthModel::fresh(pair_code, name@),
    {
        AdbDeviceAuthentication {
            state: AdbConnectionState::Unpaired(name, pair_code),
            known_address: AddressCache::new(),
        }
    }

    /// Whether the engine has reached its final state.
    pub fn is_connected(&self) -> (connected: bool)
        ensures
            connected == (self@.state is Connected),
    {
        matches!(self.state, AdbConnectionState::Connected)
    }

    /// The address cached for `ip`, if any.
    pub fn get_address(&self, ip: &str) -> (address: Option<String>)
        ensures
            match address {
                Some(a) => self@.cached_address(ip@) == Some(a@),
                None => self@.cached_address(ip@) is None,
            },
    {
        match self.known_address.get(ip) {
            Some(address) => Some(address.clone()),
            None => None,
        }
    }

    /// Whether `domain` is another domain than the local one.
    pub fn is_not_local(domain: &str) -> (other: bool)
        ensures
            other == (domain@ != "local"@),
    {
        !same_text(domain, "local")
    }

    /// The pair call that `service` asks for, if any: address and pair code.
    pub fn pair_request(&self, service: &AdbService) -> (request: Option<(String, u32)>)
        ensures
            match request {
                Some((address, code)) => self@.pair_request(service@) == Some((address@, code)),
                None => self@.pair_request(service@) is None,
            },
    {
        match &self.state {
            AdbConnectionState::Unpaired(name, pair_code) => {
                if Self::is_not_local(&service.domain) || !names_matching(&service.name, name) {
                    None
                } else {
                    Some((service.address(), *pair_code))
                }
            },
            _ => None,
        }
    }

    /// Takes in how a pair call for a service at `ip` ended, and gives the
    /// address to connect to next, if there is one.
    pub fn pair_result(&mut self, ip: &str, paired: bool) -> (next: Option<String>)
        ensures
            final(self)@ == old(self)@.after_pair(paired),
            match next {
                Some(address) => paired && old(self)@.state is Unpaired && old(self)@.cached_address(
                    ip@,
                ) == Some(address@),
                None => !(paired && old(self)@.state is Unpaired) || old(self)@.cached_address(ip@)
                    is None,
            },
    {
        if paired && matches!(self.state, AdbConnectionState::Unpaired(_, _)) {
            self.state = AdbConnectionState::Paired;
            self.get_address(ip)
        } else {
            None
        }
    }

    /// Takes in how a connect call ended.
    pub fn connect_result(&mut self, connected: bool)
        ensures
            final(self)@ == old(self)@.after_connect(connected),
    {
        if connected {
            self.state = AdbConnectionState::Connected;
        }
    }

    /// Connects to `address` and takes in how the call ended.
    fn connect<C: AdbClient>(&mut self, address: &str, client: &C) -> (connected: bool)
        ensures
            final(self)@ == old(self)@.after_connect(connected),
            client.may_connect(address@, connected),
    {
        let connected = client.adb_connect(address).is_ok();
        self.connect_result(connected);
        connected
    }

    /// Caches the address of a connect service seen for the first time and
    /// gives the address to connect to, if the service is such a one.
    pub fn first_sight(&mut self, service: &AdbService) -> (address: Option<String>)
        ensures
            match address {
                Some(a) => old(self)@.first_sight(service@) && a@ == service@.address()
                    && final(self)@ == old(self)@.remember(service@),
                None => !old(self)@.first_sight(service@) && final(self)@ == old(self)@,
            },
    {
        if Self::is_not_local(&service.domain) || self.known_address.contains_key(service.ip()) {
            None
        } else {
            let address = service.address();
            self.known_address.insert(service.ip().clone(), address.clone());
            Some(address)
        }
    }

    /// The connect call that a paired engine repeats for `service`, if any.
    pub fn retry_request(&self, service: &AdbService) -> (address: Option<String>)
        ensures
            match address {
                Some(a) => self@.retry_request(service@) == Some(a@),
                None => self@.retry_request(service@) is None,
            },
    {
        if !Self::is_not_local(&service.domain) && matches!(self.state, AdbConnectionState::Paired) {
            Some(service.address())
        } else {
            None
        }
    }

    /// Handles one service of the pairing stream: makes the pair call that
    /// `pair_request` asks for, if it asks for one, and, if that call
    /// succeeds, the connect call to the address cached for the ip of the
    /// service, if there is one. No other call is made, and a call that fails
    /// leaves the state as it was.
    pub fn on_pair<C: AdbClient>(&mut self, service: &AdbService, client: &C)
        ensures
            exists|paired: bool, connected: bool|
                {
                    &&& final(self)@ == #[trigger] old(self)@.on_pair(service@, paired, connected)
                    &&& old(self)@.pair_answers(service@, client, paired, connected)
                },
            old(self)@.pair_request(service@) is None ==> final(self)@ == old(self)@,
            !service@.is_local() ==> final(self)@ == old(self)@,
            old(self)@.state.rank() <= final(self)@.state.rank(),
            final(self)@.known_address == old(self)@.known_address,
    {
        if let Some((address, pair_code)) = self.pair_request(service) {
            let paired = client.adb_pair(&address, pair_code).is_ok();
            let mut connected = false;
            if let Some(cached) = self.pair_result(service.ip(), paired) {
                connected = self.connect(&cached, client);
            }
            assert(self@ == old(self)@.on_pair(service@, paired, connected));
            assert(old(self)@.pair_answers(service@, client, paired, connected));
        } else {
            assert(self@ == old(self)@.on_pair(service@, false, false));
            assert(old(self)@.pair_answers(service@, client, false, false));
        }
    }

    /// Handles one service of the connect stream: at first sight of its ip,
    /// caches its address and makes a connect call to it; then, if the engine
    /// is paired, makes a connect call to the address of the service in any
    /// case. No other call is made, and a call that fails leaves the state
    /// as it was.
    pub fn on_connect<C: AdbClient>(&mut self, service: &AdbService, client: &C)
        ensures
            exists|first: bool, retry: bool|
                {
                    &&& final(self)@ == #[trigger] old(self)@.on_connect(service@, first, retry)
                    &&& old(self)@.connect_answers(service@, client, first, retry)
                },
            !service@.is_local() ==> final(self)@ == old(self)@,
            old(self)@.state.rank() <= final(self)@.state.rank(),
            old(self)@.known_address.submap_of(final(self)@.known_address),
            service@.is_local() ==> final(self)@.known_address.contains_key(service@.ip),
    {
        let mut first = false;
        let mut retry = false;
        if let Some(address) = self.first_sight(service) {
            first = self.connect(&address, client);
        }
        if let Some(address) = self.retry_request(service) {
            retry = self.connect(&address, client);
        }
        assert(self@ == old(self)@.on_connect(service@, first, retry));
        assert(old(self)@.connect_answers(service@, client, first, retry));
    }
}

} // verus!
