//! One round of reconciliation: every service of the pairing stream, then
//! every service of the connect stream, is handed to the engine.

use crate::adb_device_authentication::{AdbDeviceAuthentication, AdbService, AuthModel, ServiceRecord};
use crate::authentication_laws::lemma_forward_only;
use crate::client::{always_connects, AdbClient};
use vstd::prelude::*;

verus! {

/// The services of a list, as values.
pub open spec fn records(services: Seq<AdbService>) -> Seq<ServiceRecord> {
    services.map_values(|service: AdbService| service@)
}

/// The engine after the pairing services `records` were handled in order,
/// where `outcomes` says for each of them how its pair call and its connect
/// call ended.
pub open spec fn pair_all(model: AuthModel, records: Seq<ServiceRecord>, outcomes: Seq<(bool, bool)>)
    -> AuthModel
    decreases records.len(),
{
    if records.len() == 0 {
        model
    } else {
        pair_all(model, records.drop_last(), outcomes.drop_last()).on_pair(
            records.last(),
            outcomes.last().0,
            outcomes.last().1,
        )
    }
}

/// The engine after the connect services `records` were handled in order,
/// where `outcomes` says for each of them how its two connect calls ended.
pub open spec fn connect_all(
    model: AuthModel,
    records: Seq<ServiceRecord>,
    outcomes: Seq<(bool, bool)>,
) -> AuthModel
    decreases records.len(),
{
    if records.len() == 0 {
        model
    } else {
        connect_all(model, records.drop_last(), outcomes.drop_last()).on_connect(
            records.last(),
            outcomes.last().0,
            outcomes.last().1,
        )
    }
}

/// Every outcome in `outcomes` is an answer that `client` may give to the
/// calls that are made for the pairing service of the same place.
pub open spec fn pair_all_answers<C: AdbClient>(
    model: AuthModel,
    records: Seq<ServiceRecord>,
    outcomes: Seq<(bool, bool)>,
    client: &C,
) -> bool
    decreases records.len(),
{
    if records.len() == 0 {
        true
    } else {
        &&& pair_all_answers(model, records.drop_last(), outcomes.drop_last(), client)
        &&& pair_all(model, records.drop_last(), outcomes.drop_last()).pair_answers(
            records.last(),
            client,
            outcomes.last().0,
            outcomes.last().1,
        )
    }
}

/// Every outcome in `outcomes` is an answer that `client` may give to the
/// calls that are made for the connect service of the same place.
pub open spec fn connect_all_answers<C: AdbClient>(
    model: AuthModel,
    records: Seq<ServiceRecord>,
    outcomes: Seq<(bool, bool)>,
    client: &C,
) -> bool
    decreases records.len(),
{
    if records.len() == 0 {
        true
    } else {
        &&& connect_all_answers(model, records.drop_last(), outcomes.drop_last(), client)
        &&& connect_all(model, records.drop_last(), outcomes.drop_last()).connect_answers(
            records.last(),
            client,
            outcomes.last().0,
            outcomes.last().1,
        )
    }
}

/// The outcomes of a round are answers that `client` may give to the calls
/// that are made in it.
pub open spec fn round_answers<C: AdbClient>(
    model: AuthModel,
    pairing: Seq<ServiceRecord>,
    pair_outcomes: Seq<(bool, bool)>,
    connecting: Seq<ServiceRecord>,
    connect_outcomes: Seq<(bool, bool)>,
    client: &C,
) -> bool {
    &&& pair_all_answers(model, pairing, pair_outcomes, client)
    &&& connect_all_answers(
        pair_all(model, pairing, pair_outcomes),
        connecting,
        connect_outcomes,
        client,
    )
}

/// The engine after one round: the pairing services first, the connect
/// services second.
pub open spec fn round(
    model: AuthModel,
    pairing: Seq<ServiceRecord>,
    pair_outcomes: Seq<(bool, bool)>,
    connecting: Seq<ServiceRecord>,
    connect_outcomes: Seq<(bool, bool)>,
) -> AuthModel {
    connect_all(pair_all(model, pairing, pair_outcomes), connecting, connect_outcomes)
}

/// Over a whole round the state only moves forward and the cache is only
/// added to, whatever the services are and however the calls end.
pub proof fn lemma_round_forward_only(
    model: AuthModel,
    pairing: Seq<ServiceRecord>,
    pair_outcomes: Seq<(bool, bool)>,
    connecting: Seq<ServiceRecord>,
    connect_outcomes: Seq<(bool, bool)>,
)
    ensures
        model.state.rank() <= round(
            model,
            pairing,
            pair_outcomes,
            connecting,
            connect_outcomes,
        ).state.rank(),
        model.known_address.submap_of(
            round(model, pairing, pair_outcomes, connecting, connect_outcomes).known_address,
        ),
{
    lemma_pair_all_forward_only(model, pairing, pair_outcomes);
    lemma_connect_all_forward_only(
        pair_all(model, pairing, pair_outcomes),
        connecting,
        connect_outcomes,
    );
}

/// Pairing services move the state forward only and leave the cache as it is.
pub proof fn lemma_pair_all_forward_only(
    model: AuthModel,
    records: Seq<ServiceRecord>,
    outcomes: Seq<(bool, bool)>,
)
    ensures
        model.state.rank() <= pair_all(model, records, outcomes).state.rank(),
        pair_all(model, records, outcomes).known_address == model.known_address,
    decreases records.len(),
{
    if records.len() > 0 {
        lemma_pair_all_forward_only(model, records.drop_last(), outcomes.drop_last());
        lemma_forward_only(
            pair_all(model, records.drop_last(), outcomes.drop_last()),
            records.last(),
            outcomes.last().0,
            outcomes.last().1,
        );
    }
}

/// Connect services move the state forward only and only add to the cache.
pub proof fn lemma_connect_all_forward_only(
    model: AuthModel,
    records: Seq<ServiceRecord>,
    outcomes: Seq<(bool, bool)>,
)
    ensures
        model.state.rank() <= connect_all(model, records, outcomes).state.rank(),
        model.known_address.submap_of(connect_all(model, records, outcomes).known_address),
    decreases records.len(),
{
    if records.len() > 0 {
        lemma_connect_all_forward_only(model, records.drop_last(), outcomes.drop_last());
        lemma_forward_only(
            connect_all(model, records.drop_last(), outcomes.drop_last()),
            records.last(),
            outcomes.last().0,
            outcomes.last().1,
        );
    }
}

/// A connected engine comes out of a round connected.
pub proof fn lemma_round_connected_is_final(
    model: AuthModel,
    pairing: Seq<ServiceRecord>,
    pair_outcomes: Seq<(bool, bool)>,
    connecting: Seq<ServiceRecord>,
    connect_outcomes: Seq<(bool, bool)>,
)
    requires
        model.state is Connected,
    ensures
        round(model, pairing, pair_outcomes, connecting, connect_outcomes).state is Connected,
{
    lemma_round_forward_only(model, pairing, pair_outcomes, connecting, connect_outcomes);
}

/// A connected engine whose cache holds the ip of every connect service
/// comes out of a round as it went in.
pub proof fn lemma_round_replay_is_ignored(
    model: AuthModel,
    pairing: Seq<ServiceRecord>,
    pair_outcomes: Seq<(bool, bool)>,
    connecting: Seq<ServiceRecord>,
    connect_outcomes: Seq<(bool, bool)>,
)
    requires
        model.state is Connected,
        forall|i: int|
            0 <= i < connecting.len() ==> model.known_address.contains_key(
                (#[trigger] connecting[i]).ip,
            ),
    ensures
        round(model, pairing, pair_outcomes, connecting, connect_outcomes) == model,
{
    lemma_pair_all_connected(model, pairing, pair_outcomes);
    lemma_connect_all_replay(model, connecting, connect_outcomes);
}

/// Pairing services change nothing once the engine is connected.
proof fn lemma_pair_all_connected(
    model: AuthModel,
    records: Seq<ServiceRecord>,
    outcomes: Seq<(bool, bool)>,
)
    requires
        model.state is Connected,
    ensures
        pair_all(model, records, outcomes) == model,
    decreases records.len(),
{
    if records.len() > 0 {
        lemma_pair_all_connected(model, records.drop_last(), outcomes.drop_last());
    }
}

/// Connect services whose ips are cached change nothing once the engine is
/// connected.
proof fn lemma_connect_all_replay(
    model: AuthModel,
    records: Seq<ServiceRecord>,
    outcomes: Seq<(bool, bool)>,
)
    requires
        model.state is Connected,
        forall|i: int|
            0 <= i < records.len() ==> model.known_address.contains_key((#[trigger] records[i]).ip),
    ensures
        connect_all(model, records, outcomes) == model,
    decreases records.len(),
{
    if records.len() > 0 {
        let front = records.drop_last();
        assert forall|i: int| 0 <= i < front.len() implies model.known_address.contains_key(
            (#[trigger] front[i]).ip,
        ) by {
            assert(front[i] == records[i]);
        }
        lemma_connect_all_replay(model, front, outcomes.drop_last());
        assert(model.known_address.contains_key(records[records.len() - 1].ip));
    }
}

/// Connect services of other domains than the local one change nothing.
proof fn lemma_connect_all_other_domains(
    model: AuthModel,
    records: Seq<ServiceRecord>,
    outcomes: Seq<(bool, bool)>,
)
    requires
        forall|i: int| 0 <= i < records.len() ==> !(#[trigger] records[i]).is_local(),
    ensures
        connect_all(model, records, outcomes) == model,
    decreases records.len(),
{
    if records.len() > 0 {
        let front = records.drop_last();
        assert forall|i: int| 0 <= i < front.len() implies !(#[trigger] front[i]).is_local() by {
            assert(front[i] == records[i]);
        }
        lemma_connect_all_other_domains(model, front, outcomes.drop_last());
        assert(!records[records.len() - 1].is_local());
    }
}

/// With a client that never fails to connect, an engine that has cached
/// nothing is connected by the connect services as soon as one of them is
/// local.
proof fn lemma_connect_all_connects<C: AdbClient>(
    client: &C,
    model: AuthModel,
    records: Seq<ServiceRecord>,
    outcomes: Seq<(bool, bool)>,
)
    requires
        always_connects(client),
        model.known_address =~= Map::empty(),
        exists|i: int| 0 <= i < records.len() && (#[trigger] records[i]).is_local(),
        connect_all_answers(model, records, outcomes, client),
    ensures
        connect_all(model, records, outcomes).state is Connected,
    decreases records.len(),
{
    let front = records.drop_last();
    let before = connect_all(model, front, outcomes.drop_last());
    if exists|i: int| 0 <= i < front.len() && (#[trigger] front[i]).is_local() {
        lemma_connect_all_connects(client, model, front, outcomes.drop_last());
    } else {
        let i = choose|i: int| 0 <= i < records.len() && (#[trigger] records[i]).is_local();
        if i < front.len() {
            assert(front[i] == records[i]);
        }
        assert(records.last().is_local());
        lemma_connect_all_other_domains(model, front, outcomes.drop_last());
        assert(before.first_sight(records.last()));
    }
}

/// With a client that never fails to connect, one round connects an engine
/// that has cached nothing, as soon as the connect stream holds a local
/// service: a trusted device needs no pairing.
pub proof fn lemma_round_connects<C: AdbClient>(
    client: &C,
    model: AuthModel,
    pairing: Seq<ServiceRecord>,
    pair_outcomes: Seq<(bool, bool)>,
    connecting: Seq<ServiceRecord>,
    connect_outcomes: Seq<(bool, bool)>,
)
    requires
        always_connects(client),
        model.known_address =~= Map::empty(),
        exists|i: int| 0 <= i < connecting.len() && (#[trigger] connecting[i]).is_local(),
        round_answers(model, pairing, pair_outcomes, connecting, connect_outcomes, client),
    ensures
        round(model, pairing, pair_outcomes, connecting, connect_outcomes).state is Connected,
{
    lemma_pair_all_forward_only(model, pairing, pair_outcomes);
    lemma_connect_all_connects(
        client,
        pair_all(model, pairing, pair_outcomes),
        connecting,
        connect_outcomes,
    );
}

/// Hands every service of `pair_set` to `on_pair` and then every service of
/// `connect_set` to `on_connect`, and says whether the engine is connected.
pub fn reconcile<C: AdbClient>(
    auth: &mut AdbDeviceAuthentication,
    pair_set: &Vec<AdbService>,
    connect_set: &Vec<AdbService>,
    client: &C,
) -> (connected: bool)
    ensures
        exists|pair_outcomes: Seq<(bool, bool)>, connect_outcomes: Seq<(bool, bool)>|
            {
                &&& pair_outcomes.len() == pair_set@.len()
                &&& connect_outcomes.len() == connect_set@.len()
                &&& final(auth)@ == #[trigger] round(
                    old(auth)@,
                    records(pair_set@),
                    pair_outcomes,
                    records(connect_set@),
                    connect_outcomes,
                )
                &&& round_answers(
                    old(auth)@,
                    records(pair_set@),
                    pair_outcomes,
                    records(connect_set@),
                    connect_outcomes,
                    client,
                )
            },
        connected == (final(auth)@.state is Connected),
        old(auth)@.state.rank() <= final(auth)@.state.rank(),
        old(auth)@.known_address.submap_of(final(auth)@.known_address),
{
    let ghost pairing = records(pair_set@);
    let ghost connecting = records(connect_set@);
    let ghost mut pair_outcomes: Seq<(bool, bool)> = Seq::empty();
    let mut i: usize = 0;
    while i < pair_set.len()
        invariant
            i <= pair_set@.len(),
            pairing == records(pair_set@),
            pair_outcomes.len() == i,
            auth@ == pair_all(old(auth)@, pairing.take(i as int), pair_outcomes),
            pair_all_answers(old(auth)@, pairing.take(i as int), pair_outcomes, client),
        decreases pair_set@.len() - i,
    {
        let ghost before = auth@;
        auth.on_pair(&pair_set[i], client);
        proof {
            let record = pairing[i as int];
            let (paired, linked) = choose|paired: bool, linked: bool|
                auth@ == #[trigger] before.on_pair(record, paired, linked) && before.pair_answers(
                    record,
                    client,
                    paired,
                    linked,
                );
            let longer = pair_outcomes.push((paired, linked));
            assert(pairing.take(i + 1).drop_last() =~= pairing.take(i as int));
            assert(longer.drop_last() =~= pair_outcomes);
            pair_outcomes = longer;
        }
        i += 1;
    }
    assert(pairing.take(i as int) =~= pairing);
    let ghost paired_model = auth@;
    let ghost mut connect_outcomes: Seq<(bool, bool)> = Seq::empty();
    let mut k: usize = 0;
    while k < connect_set.len()
        invariant
            k <= connect_set@.len(),
            connecting == records(connect_set@),
            connect_outcomes.len() == k,
            auth@ == connect_all(paired_model, connecting.take(k as int), connect_outcomes),
            connect_all_answers(paired_model, connecting.take(k as int), connect_outcomes, client),
        decreases connect_set@.len() - k,
    {
        let ghost before = auth@;
        auth.on_connect(&connect_set[k], client);
        proof {
            let record = connecting[k as int];
            let (first, retry) = choose|first: bool, retry: bool|
                auth@ == #[trigger] before.on_connect(record, first, retry)
                    && before.connect_answers(record, client, first, retry);
            let longer = connect_outcomes.push((first, retry));
            assert(connecting.take(k + 1).drop_last() =~= connecting.take(k as int));
            assert(longer.drop_last() =~= connect_outcomes);
            connect_outcomes = longer;
        }
        k += 1;
    }
    assert(connecting.take(k as int) =~= connecting);
    proof {
        assert(auth@ == round(old(auth)@, pairing, pair_outcomes, connecting, connect_outcomes));
        assert(round_answers(
            old(auth)@,
            pairing,
            pair_outcomes,
            connecting,
            connect_outcomes,
            client,
        ));
        lemma_round_forward_only(old(auth)@, pairing, pair_outcomes, connecting, connect_outcomes);
    }
    auth.is_connected()
}

} // verus!
