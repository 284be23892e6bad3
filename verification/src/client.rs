//! The device client: the capability that pairs with a device and connects
//! to it, and the reading of what an ADB server answers.

use crate::text::{contains, is_substring};
use vstd::prelude::*;

verus! {

/// Pairing with a device and connecting to it. Each call may fail; the
/// caller learns only whether it did.
///
/// A client may say which answers it gives: `may_pair` and `may_connect`
/// hold of every answer that its calls give. A client that says nothing of
/// its answers may give any answer.
pub trait AdbClient {
    /// `paired` is an answer that the client may give to a pair call for
    /// `address` with `code`.
    open spec fn may_pair(&self, address: Seq<char>, code: u32, paired: bool) -> bool {
        true
    }

    /// `connected` is an answer that the client may give to a connect call
    /// for `address`.
    open spec fn may_connect(&self, address: Seq<char>, connected: bool) -> bool {
        true
    }

    /// Pairs with the device at `address` using the pair code `code`.
    fn adb_pair(&self, address: &str, code: u32) -> (outcome: Result<(), ()>)
        ensures
            self.may_pair(address@, code, outcome is Ok),
    ;

    /// Connects to the device at `address`.
    fn adb_connect(&self, address: &str) -> (outcome: Result<(), ()>)
        ensures
            self.may_connect(address@, outcome is Ok),
    ;
}

/// `client` never fails to pair.
pub open spec fn always_pairs<C: AdbClient>(client: &C) -> bool {
    forall|address: Seq<char>, code: u32| !client.may_pair(address, code, false)
}

/// `client` never pairs.
pub open spec fn never_pairs<C: AdbClient>(client: &C) -> bool {
    forall|address: Seq<char>, code: u32| !client.may_pair(address, code, true)
}

/// `client` never fails to connect.
pub open spec fn always_connects<C: AdbClient>(client: &C) -> bool {
    forall|address: Seq<char>| !client.may_connect(address, false)
}

/// `client` never connects.
pub open spec fn never_connects<C: AdbClient>(client: &C) -> bool {
    forall|address: Seq<char>| !client.may_connect(address, true)
}

/// A client without a device behind it: it gives the same answer to every
/// pair call and the same answer to every connect call.
#[derive(Debug, Clone, Copy)]
pub struct FixedClient {
    /// Whether pair calls succeed.
    pub pairs: bool,
    /// Whether connect calls succeed.
    pub connects: bool,
}

impl AdbClient for FixedClient {
    open spec fn may_pair(&self, address: Seq<char>, code: u32, paired: bool) -> bool {
        paired == self.pairs
    }

    open spec fn may_connect(&self, address: Seq<char>, connected: bool) -> bool {
        connected == self.connects
    }

    fn adb_pair(&self, address: &str, code: u32) -> (outcome: Result<(), ()>) {
        if self.pairs {
            Ok(())
        } else {
            Err(())
        }
    }

    fn adb_connect(&self, address: &str) -> (outcome: Result<(), ()>) {
        if self.connects {
            Ok(())
        } else {
            Err(())
        }
    }
}

/// What an ADB server answered to one request.
#[derive(Debug)]
pub enum ServerReply {
    /// The request was carried out.
    Done,
    /// The server turned the request down, with its message.
    RequestFailed(String),
    /// The request failed in another way.
    Failed,
}

impl ServerReply {
    /// The answer to a pair request means that the device is paired.
    pub open spec fn paired(self) -> bool {
        self is Done
    }

    /// The answer to a connect request means that the device is connected:
    /// the request was carried out, or it was turned down because the device
    /// is already connected.
    pub open spec fn connected(self) -> bool {
        match self {
            ServerReply::Done => true,
            ServerReply::RequestFailed(message) => is_substring("already connected"@, message@),
            ServerReply::Failed => false,
        }
    }

    /// The outcome of a pair request with this answer.
    pub fn pair_result(&self) -> (outcome: Result<(), ()>)
        ensures
            outcome is Ok <==> self.paired(),
    {
        match self {
            ServerReply::Done => Ok(()),
            _ => Err(()),
        }
    }

    /// The outcome of a connect request with this answer.
    pub fn connect_result(&self) -> (outcome: Result<(), ()>)
        ensures
            outcome is Ok <==> self.connected(),
    {
        match self {
            ServerReply::Done => Ok(()),
            ServerReply::RequestFailed(message) => {
                if contains(message, "already connected") {
                    Ok(())
                } else {
                    Err(())
                }
            },
            ServerReply::Failed => Err(()),
        }
    }
}

} // verus!
