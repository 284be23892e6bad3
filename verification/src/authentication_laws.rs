//! What holds of the authentication engine, stated over the engine as a
//! value: what holds whatever the device client answers, and what holds
//! with a client that never fails or never succeeds.

use crate::adb_device_authentication::{names_match, AuthModel, ServiceRecord};
use crate::client::{always_connects, always_pairs, never_connects, never_pairs, AdbClient};
use crate::text::occurs_at;
use vstd::prelude::*;

verus! {

/// Matching of names does not depend on which of the two is the announced
/// one; every name matches itself, and the empty name matches every name.
pub proof fn lemma_names_match(a: Seq<char>, b: Seq<char>)
    ensures
        names_match(a, b) == names_match(b, a),
        names_match(a, a),
        names_match(Seq::empty(), a),
{
    assert(a.subrange(0, a.len() as int) =~= a);
    assert(occurs_at(a, a, 0));
    assert(a.subrange(0, 0) =~= Seq::<char>::empty());
    assert(occurs_at(Seq::empty(), a, 0));
}

/// The state only moves forward, from unpaired to paired to connected, and
/// the cache is only added to: every address cached before a service is
/// handled is cached after it. Pairing services leave the cache as it is.
pub proof fn lemma_forward_only(model: AuthModel, record: ServiceRecord, a: bool, b: bool)
    ensures
        model.state.rank() <= model.on_pair(record, a, b).state.rank(),
        model.state.rank() <= model.on_connect(record, a, b).state.rank(),
        model.on_pair(record, a, b).known_address == model.known_address,
        model.known_address.submap_of(model.on_connect(record, a, b).known_address),
{
}

/// Connected is final: a connected engine stays connected, whatever is
/// handed to it.
pub proof fn lemma_connected_is_final(model: AuthModel, record: ServiceRecord, a: bool, b: bool)
    requires
        model.state is Connected,
    ensures
        model.on_pair(record, a, b).state is Connected,
        model.on_connect(record, a, b).state is Connected,
{
}

/// The expected name and the pair code are kept for as long as the engine is
/// unpaired.
pub proof fn lemma_unpaired_is_kept(model: AuthModel, record: ServiceRecord, a: bool, b: bool)
    ensures
        model.on_pair(record, a, b).state is Unpaired ==> model.on_pair(record, a, b).state
            == model.state,
        model.on_connect(record, a, b).state is Unpaired ==> model.on_connect(record, a, b).state
            == model.state,
{
}

/// A service of another domain than the local one changes nothing, whatever
/// its name, ip and port, and whatever the device client would answer.
pub proof fn lemma_other_domain_is_ignored(
    model: AuthModel,
    record: ServiceRecord,
    a: bool,
    b: bool,
)
    requires
        !record.is_local(),
    ensures
        model.on_pair(record, a, b) == model,
        model.on_connect(record, a, b) == model,
        model.pair_request(record) is None,
        !model.first_sight(record),
        model.retry_request(record) is None,
{
}

/// A connected engine that has cached the ip of a service stays as it is
/// when the service is handled again, and asks for no call.
pub proof fn lemma_replay_is_ignored(model: AuthModel, record: ServiceRecord, a: bool, b: bool)
    requires
        model.state is Connected,
        model.known_address.contains_key(record.ip),
    ensures
        model.on_pair(record, a, b) == model,
        model.on_connect(record, a, b) == model,
        model.pair_request(record) is None,
        !model.first_sight(record),
        model.retry_request(record) is None,
{
}

/// With a client that never fails to connect, a fresh engine is connected
/// by its first local connect service, without any pairing.
pub proof fn lemma_first_sight_connects<C: AdbClient>(
    client: &C,
    pair_code: u32,
    expected_name: Seq<char>,
    record: ServiceRecord,
    first: bool,
    retry: bool,
)
    requires
        always_connects(client),
        record.is_local(),
        AuthModel::fresh(pair_code, expected_name).connect_answers(record, client, first, retry),
    ensures
        AuthModel::fresh(pair_code, expected_name).on_connect(record, first, retry).state
            is Connected,
{
}

/// With a client that never connects, a fresh engine stays unpaired after
/// its first local connect service; the address is cached all the same.
pub proof fn lemma_failed_connect_keeps_state<C: AdbClient>(
    client: &C,
    pair_code: u32,
    expected_name: Seq<char>,
    record: ServiceRecord,
    first: bool,
    retry: bool,
)
    requires
        never_connects(client),
        record.is_local(),
        AuthModel::fresh(pair_code, expected_name).connect_answers(record, client, first, retry),
    ensures
        ({
            let fresh = AuthModel::fresh(pair_code, expected_name);
            let after = fresh.on_connect(record, first, retry);
            &&& after.state == fresh.state
            &&& !(after.state is Connected)
            &&& after.known_address == fresh.known_address.insert(record.ip, record.address())
        }),
{
}

/// With a client that never pairs and never connects, no state changes;
/// only the cache is added to.
pub proof fn lemma_failures_keep_state<C: AdbClient>(
    client: &C,
    model: AuthModel,
    record: ServiceRecord,
    a: bool,
    b: bool,
)
    requires
        never_pairs(client),
        never_connects(client),
    ensures
        model.pair_answers(record, client, a, b) ==> model.on_pair(record, a, b) == model,
        model.connect_answers(record, client, a, b) ==> model.on_connect(record, a, b).state
            == model.state,
{
}

/// Connect stream first, pairing stream second: once a fresh engine has
/// handled a local connect service, whatever its name and however its
/// connect call ended, a matching local pairing service at the same ip
/// leaves it connected, with a client that never fails to pair and to
/// connect: an engine that is not connected yet is paired and connects at
/// once to the address that it has cached.
pub proof fn lemma_connect_then_pair<C: AdbClient>(
    client: &C,
    pair_code: u32,
    expected_name: Seq<char>,
    connect_record: ServiceRecord,
    first: bool,
    retry: bool,
    pair_record: ServiceRecord,
    paired: bool,
    connected: bool,
)
    requires
        always_pairs(client),
        always_connects(client),
        connect_record.is_local(),
        pair_record.is_local(),
        pair_record.ip == connect_record.ip,
        names_match(pair_record.name, expected_name),
        AuthModel::fresh(pair_code, expected_name).on_connect(
            connect_record,
            first,
            retry,
        ).pair_answers(pair_record, client, paired, connected),
    ensures
        ({
            let seen = AuthModel::fresh(pair_code, expected_name).on_connect(
                connect_record,
                first,
                retry,
            );
            &&& seen.cached_address(pair_record.ip) == Some(connect_record.address())
            &&& seen.on_pair(pair_record, paired, connected).state is Connected
        }),
{
}

/// Pairing stream first, connect stream second: with a client that never
/// fails to pair and to connect, a matching local pairing service leaves a
/// fresh engine paired and not connected, as no address is cached yet; any
/// local connect service then connects it.
pub proof fn lemma_pair_then_connect<C: AdbClient>(
    client: &C,
    pair_code: u32,
    expected_name: Seq<char>,
    pair_record: ServiceRecord,
    paired: bool,
    connected: bool,
    connect_record: ServiceRecord,
    first: bool,
    retry: bool,
)
    requires
        always_pairs(client),
        always_connects(client),
        pair_record.is_local(),
        names_match(pair_record.name, expected_name),
        connect_record.is_local(),
        AuthModel::fresh(pair_code, expected_name).pair_answers(
            pair_record,
            client,
            paired,
            connected,
        ),
        AuthModel::fresh(pair_code, expected_name).on_pair(
            pair_record,
            paired,
            connected,
        ).connect_answers(connect_record, client, first, retry),
    ensures
        ({
            let after_pair = AuthModel::fresh(pair_code, expected_name).on_pair(
                pair_record,
                paired,
                connected,
            );
            &&& after_pair.state is Paired
            &&& after_pair.on_connect(connect_record, first, retry).state is Connected
        }),
{
}

/// A paired engine tries to connect to every local connect service, also to
/// one whose ip it has cached, and is connected as soon as one call succeeds.
pub proof fn lemma_paired_retries(model: AuthModel, record: ServiceRecord, first: bool)
    requires
        model.state is Paired,
        record.is_local(),
    ensures
        model.on_connect(record, first, true).state is Connected,
        !model.first_sight(record) ==> model.retry_request(record) == Some(record.address()),
{
}

} // verus!
