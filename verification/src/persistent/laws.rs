use vstd::prelude::*;

use crate::persistent::registry::callbacks_on;
use crate::persistent::establish::Establishment;
use crate::persistent::{
    installed, establishes_for, reports, after_add_listener, after_listen, after_remove_listener, after_set_uri, after_unlisten,
    needs_establish, without_channel, PersistentPostgres, PersistentPostgresView,
};

verus! {

/// A sequence in which no element is `c` is left as it is by removing `c`.
proof fn lemma_without_absent(s: Seq<Seq<char>>, c: Seq<char>)
    requires
        !s.contains(c),
    ensures
        without_channel(s, c) == s,
    decreases s.len(),
{
    reveal(Seq::filter);
    if s.len() > 0 {
        assert(!s.drop_last().contains(c)) by {
            if s.drop_last().contains(c) {
                let i = choose|i: int| 0 <= i < s.drop_last().len() && s.drop_last()[i] == c;
                assert(s[i] == c);
            }
        }
        lemma_without_absent(s.drop_last(), c);
        assert(s.last() != c) by {
            assert(s[s.len() - 1] == s.last());
        }
        assert(s.drop_last().push(s.last()) =~= s);
    }
}

/// The manager never holds a listener without a pool, nor a pool without the
/// address it was established with.
pub proof fn law_no_pool_without_address<P, L, F>(m: PersistentPostgres<P, L, F>)
    requires
        m.wf(),
    ensures
        m@.listener is Some ==> m@.pool is Some,
        m@.pool is Some ==> m@.address is Some,
{
}

/// Once the manager was pointed at `uri` with success, pointing it at `uri`
/// again asks for nothing.
pub proof fn law_set_uri_idempotent<P, L, F>(
    v: PersistentPostgresView<P, L, F>,
    uri: Seq<char>,
    pool: P,
    listener: Option<L>,
)
    ensures
        !needs_establish(after_set_uri(v, uri, pool, listener), uri),
{
}

/// A channel added by `listen` is among the channels that every later
/// establishment of a pool listens on.
pub proof fn law_listened_channel_is_kept<P, L, F>(
    v: PersistentPostgresView<P, L, F>,
    channel: Seq<char>,
)
    ensures
        after_listen(v, channel).channels.contains(channel),
        after_listen(v, channel).channels.drop_last() == v.channels,
{
    let s = after_listen(v, channel).channels;
    assert(s[s.len() - 1] == channel);
    assert(s.drop_last() =~= v.channels);
}

/// When the manager wants a listener and a channel is among its channels
/// (as after `listen`), a successful establishment made for it hands over a
/// listener, and that listener was asked to listen on the channel.
pub proof fn law_established_listener_listens_on_listed_channel<P, L, F>(
    v: PersistentPostgresView<P, L, F>,
    establishment: Establishment,
    channel: Seq<char>,
    pool: P,
    listener: Option<L>,
)
    requires
        establishment.wf(),
        establishes_for(establishment@, v),
        reports(establishment@.result, Ok::<(P, Option<L>), _>((pool, listener))),
        v.with_listener,
        v.channels.contains(channel),
    ensures
        listener is Some,
        establishment@.listened.contains(channel),
{
}

/// After a successful unlisten of a channel, that channel is no longer among
/// the channels to listen on.
pub proof fn law_unlisten_removes_channel<P, L, F>(
    v: PersistentPostgresView<P, L, F>,
    channel: Seq<char>,
)
    ensures
        !after_unlisten(v, channel).channels.contains(channel),
{
    let s = after_unlisten(v, channel).channels;
    if s.contains(channel) {
        let i = choose|i: int| 0 <= i < s.len() && s[i] == channel;
        v.channels.lemma_filter_pred(|c: Seq<char>| c != channel, i);
    }
}

/// Unlistening a channel undoes listening on it, where it was not listened on
/// before.
pub proof fn law_unlisten_undoes_listen<P, L, F>(
    v: PersistentPostgresView<P, L, F>,
    channel: Seq<char>,
)
    requires
        !v.channels.contains(channel),
    ensures
        after_unlisten(after_listen(v, channel), channel) == v,
{
    let s = v.channels.push(channel);
    reveal(Seq::filter);
    assert(s.drop_last() =~= v.channels);
    assert(without_channel(s, channel) == without_channel(v.channels, channel));
    lemma_without_absent(v.channels, channel);
}

/// Pointing the manager at an address asks for a new pool exactly when that
/// address differs from the stored one: always where none is stored yet, and
/// once the manager was pointed at `uri`, for every address but `uri`.
pub proof fn law_set_uri_establishes_unless_same_address<P, L, F>(
    v: PersistentPostgresView<P, L, F>,
    uri: Seq<char>,
    pool: P,
    listener: Option<L>,
    other: Seq<char>,
)
    ensures
        v.address is None ==> needs_establish(v, other),
        v.address is Some ==> (needs_establish(v, other) <==> v.address->0 != other),
        needs_establish(after_set_uri(v, uri, pool, listener), other) <==> other != uri,
{
}

/// Pointing the manager at `uri` with success installs exactly the new pool
/// and listener and the new address, whatever it held before, and keeps its
/// listener setting, channels and callbacks; a reconnection installs the new
/// pool and listener and keeps the stored address.
pub proof fn law_new_pool_replaces_old<P, L, F>(
    v: PersistentPostgresView<P, L, F>,
    uri: Seq<char>,
    pool: P,
    listener: Option<L>,
)
    ensures
        after_set_uri(v, uri, pool, listener).address == Some(uri),
        after_set_uri(v, uri, pool, listener).pool == Some(pool),
        after_set_uri(v, uri, pool, listener).listener == listener,
        after_set_uri(v, uri, pool, listener).with_listener == v.with_listener,
        after_set_uri(v, uri, pool, listener).channels == v.channels,
        after_set_uri(v, uri, pool, listener).listeners == v.listeners,
        installed(v, pool, listener).address == v.address,
        installed(v, pool, listener).pool == Some(pool),
        installed(v, pool, listener).listener == listener,
        installed(v, pool, listener).with_listener == v.with_listener,
        installed(v, pool, listener).channels == v.channels,
        installed(v, pool, listener).listeners == v.listeners,
{
}

/// How often each channel occurs once every occurrence of `channel` is taken
/// out: none for `channel`, as often as before for every other channel.
proof fn lemma_without_channel_counts(s: Seq<Seq<char>>, channel: Seq<char>, other: Seq<char>)
    ensures
        without_channel(s, channel).to_multiset().count(other) == (if other == channel {
            0
        } else {
            s.to_multiset().count(other)
        }),
    decreases s.len(),
{
    broadcast use vstd::seq_lib::group_to_multiset_ensures;

    reveal(Seq::filter);
    if s.len() == 0 {
        assert(without_channel(s, channel) =~= Seq::<Seq<char>>::empty());
        assert(!Seq::<Seq<char>>::empty().contains(other));
    } else {
        let d = s.drop_last();
        let x = s.last();
        lemma_without_channel_counts(d, channel, other);
        assert(d.push(x) =~= s);
        assert(s.to_multiset() =~= d.to_multiset().insert(x));
        if x != channel {
            assert(without_channel(s, channel) == without_channel(d, channel).push(x));
        } else {
            assert(without_channel(s, channel) == without_channel(d, channel));
        }
    }
}

/// A successful unlisten removes every occurrence of the channel and keeps
/// every occurrence of every other channel, and changes nothing else.
pub proof fn law_unlisten_keeps_other_channels<P, L, F>(
    v: PersistentPostgresView<P, L, F>,
    channel: Seq<char>,
    other: Seq<char>,
)
    ensures
        after_unlisten(v, channel).channels.to_multiset().count(other) == (if other == channel {
            0
        } else {
            v.channels.to_multiset().count(other)
        }),
        after_unlisten(v, channel).address == v.address,
        after_unlisten(v, channel).pool == v.pool,
        after_unlisten(v, channel).listener == v.listener,
        after_unlisten(v, channel).with_listener == v.with_listener,
        after_unlisten(v, channel).listeners == v.listeners,
{
    lemma_without_channel_counts(v.channels, channel, other);
}

/// A successful unlisten keeps the other channels in their order: taking a
/// channel out of a list joined from two parts gives the two parts, each
/// without that channel, joined in the same order; and a one-channel list
/// loses its channel exactly when it is the one taken out.
pub proof fn law_unlisten_keeps_order<P, L, F>(
    v: PersistentPostgresView<P, L, F>,
    channel: Seq<char>,
    front: Seq<Seq<char>>,
    back: Seq<Seq<char>>,
    single: Seq<char>,
)
    ensures
        after_unlisten(PersistentPostgresView { channels: front + back, ..v }, channel).channels
            == after_unlisten(PersistentPostgresView { channels: front, ..v }, channel).channels
            + after_unlisten(PersistentPostgresView { channels: back, ..v }, channel).channels,
        after_unlisten(PersistentPostgresView { channels: seq![single], ..v }, channel).channels
            == (if single == channel {
            Seq::<Seq<char>>::empty()
        } else {
            seq![single]
        }),
{
    Seq::filter_distributes_over_add(front, back, |c: Seq<char>| c != channel);
    reveal(Seq::filter);
    let one = seq![single];
    assert(one.drop_last() =~= Seq::<Seq<char>>::empty());
    assert(without_channel(one.drop_last(), channel) =~= Seq::<Seq<char>>::empty());
    assert(one.last() == single);
    assert(Seq::<Seq<char>>::empty().push(single) =~= one);
    assert(without_channel(one, channel) =~= (if single == channel {
        Seq::<Seq<char>>::empty()
    } else {
        seq![single]
    }));
}

/// A callback registered on a channel under a tag is the one found there
/// afterwards.
pub proof fn law_add_listener_then_found<P, L, F>(
    v: PersistentPostgresView<P, L, F>,
    channel: Seq<char>,
    tag: Seq<char>,
    function: F,
)
    ensures
        callbacks_on(after_add_listener(v, channel, tag, function).listeners, channel).dom().contains(
            tag,
        ),
        callbacks_on(after_add_listener(v, channel, tag, function).listeners, channel)[tag]
            == function,
{
}

/// Registering or unregistering a callback on one channel leaves the callbacks
/// of every other channel as they were.
pub proof fn law_listeners_of_other_channels_unchanged<P, L, F>(
    v: PersistentPostgresView<P, L, F>,
    channel: Seq<char>,
    tag: Seq<char>,
    function: F,
    other: Seq<char>,
)
    requires
        other != channel,
    ensures
        callbacks_on(after_add_listener(v, channel, tag, function).listeners, other)
            == callbacks_on(v.listeners, other),
        callbacks_on(after_remove_listener(v, channel, tag).listeners, other) == callbacks_on(
            v.listeners,
            other,
        ),
{
}

/// Unregistering a callback undoes its registration, where the tag was free on
/// that channel before.
pub proof fn law_remove_listener_undoes_add<P, L, F>(
    v: PersistentPostgresView<P, L, F>,
    channel: Seq<char>,
    tag: Seq<char>,
    function: F,
)
    requires
        !callbacks_on(v.listeners, channel).dom().contains(tag),
    ensures
        callbacks_on(
            after_remove_listener(after_add_listener(v, channel, tag, function), channel, tag).listeners,
            channel,
        ) == callbacks_on(v.listeners, channel),
{
    let m = callbacks_on(v.listeners, channel);
    assert(m.insert(tag, function).remove(tag) =~= m);
}

} // verus!
