//! The pairing payload that the device scans: the line
//! `WIFI:T:ADB;S:<name>;P:<code>;;`, with the name as it is given and the
//! pair code as six decimal digits.

use crate::text::{decimal, lemma_six_digits, push_decimal};
use vstd::prelude::*;
use vstd::string::StringExecFns;

verus! {

/// The smallest pair code.
pub const MIN_PAIR_CODE: u32 = 100_000;

/// The largest pair code.
pub const MAX_PAIR_CODE: u32 = 999_999;

/// A pair code is a number of six decimal digits.
pub open spec fn is_pair_code(code: u32) -> bool {
    MIN_PAIR_CODE <= code <= MAX_PAIR_CODE
}

/// The payload for `name` and `code`.
pub open spec fn payload(name: Seq<char>, code: u32) -> Seq<char> {
    "WIFI:T:ADB;S:"@ + name + ";P:"@ + decimal(code as nat) + ";;"@
}

/// In the payload of a pair code, the code takes exactly six characters.
pub proof fn lemma_payload_code_width(name: Seq<char>, code: u32)
    requires
        is_pair_code(code),
    ensures
        decimal(code as nat).len() == 6,
        payload(name, code).len() == "WIFI:T:ADB;S:"@.len() + name.len() + ";P:"@.len() + 6
            + ";;"@.len(),
{
    lemma_six_digits(code as nat);
}

/// Whether `code` is a pair code.
pub fn is_valid_pair_code(code: u32) -> (valid: bool)
    ensures
        valid == is_pair_code(code),
{
    MIN_PAIR_CODE <= code && code <= MAX_PAIR_CODE
}

/// The payload for `name` and the pair code `pair_code`.
pub fn wifi_connect_msg(name: &str, pair_code: u32) -> (msg: String)
    requires
        is_pair_code(pair_code),
    ensures
        msg@ == payload(name@, pair_code),
{
    let mut msg = String::from_str("WIFI:T:ADB;S:");
    msg.append(name);
    msg.append(";P:");
    push_decimal(&mut msg, pair_code);
    msg.append(";;");
    msg
}

} // verus!
