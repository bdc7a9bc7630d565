pub mod change;
pub mod establish;
pub mod laws;
pub mod registry;
pub mod tasks;

use vstd::prelude::*;

use crate::error::connection::PersistentPostgresConnectionError;
use crate::error::listener::PersistentPostgresListenerError;
use crate::persistent::establish::{started, EstablishAction, EstablishActionView, EstablishPhase, Establishment, EstablishmentView};
use crate::persistent::registry::{callbacks_on, lists_callbacks, ListenerRegistry};

verus! {

/// The state of a manager of one PostgreSQL connection pool that is kept
/// alive across connection losses.
///
/// `P` is the pool, `L` the notification listener and `F` a notification
/// callback. The manager decides; its caller performs the connections, the
/// listening and the waiting that those decisions ask for, and reports back.
pub struct PersistentPostgres<P, L, F> {
    address: Option<String>,
    pool: Option<P>,
    with_listener: bool,
    listener: Option<L>,
    channels: Vec<String>,
    listeners: ListenerRegistry<F>,
}

/// The abstract value of a [`PersistentPostgres`].
pub struct PersistentPostgresView<P, L, F> {
    /// The address the current pool was established with.
    pub address: Option<Seq<char>>,
    pub pool: Option<P>,
    /// Whether a notification listener is established along with each pool.
    pub with_listener: bool,
    pub listener: Option<L>,
    /// The channels to listen on, in the order in which they were added.
    pub channels: Seq<Seq<char>>,
    /// The notification callbacks, by channel and then by tag.
    pub listeners: Map<Seq<char>, Map<Seq<char>, F>>,
}

impl<P, L, F> View for PersistentPostgres<P, L, F> {
    type V = PersistentPostgresView<P, L, F>;

    closed spec fn view(&self) -> PersistentPostgresView<P, L, F> {
        PersistentPostgresView {
            address: match self.address {
                Some(a) => Some(a@),
                None => None,
            },
            pool: self.pool,
            with_listener: self.with_listener,
            listener: self.listener,
            channels: self.channels.deep_view(),
            listeners: self.listeners@,
        }
    }
}

/// The state after a pool (and possibly a listener) was installed.
pub open spec fn installed<P, L, F>(
    v: PersistentPostgresView<P, L, F>,
    pool: P,
    listener: Option<L>,
) -> PersistentPostgresView<P, L, F> {
    PersistentPostgresView { pool: Some(pool), listener, ..v }
}

/// Pointing the manager at `uri` asks for a new pool unless its current pool
/// was established with that very address.
pub open spec fn needs_establish<P, L, F>(v: PersistentPostgresView<P, L, F>, uri: Seq<char>) -> bool {
    v.address != Some(uri)
}

/// The state after the manager was pointed at `uri` with success.
pub open spec fn after_set_uri<P, L, F>(
    v: PersistentPostgresView<P, L, F>,
    uri: Seq<char>,
    pool: P,
    listener: Option<L>,
) -> PersistentPostgresView<P, L, F> {
    PersistentPostgresView { address: Some(uri), ..installed(v, pool, listener) }
}

/// The state after `channel` was added to the channels to listen on.
pub open spec fn after_listen<P, L, F>(v: PersistentPostgresView<P, L, F>, channel: Seq<char>) -> PersistentPostgresView<P, L, F> {
    PersistentPostgresView { channels: v.channels.push(channel), ..v }
}

/// The state after `channel` was removed from the channels to listen on.
pub open spec fn after_unlisten<P, L, F>(v: PersistentPostgresView<P, L, F>, channel: Seq<char>) -> PersistentPostgresView<P, L, F> {
    PersistentPostgresView { channels: without_channel(v.channels, channel), ..v }
}

/// The state after `function` was registered on `channel` under `tag`.
pub open spec fn after_add_listener<P, L, F>(
    v: PersistentPostgresView<P, L, F>,
    channel: Seq<char>,
    tag: Seq<char>,
    function: F,
) -> PersistentPostgresView<P, L, F> {
    PersistentPostgresView {
        listeners: v.listeners.insert(
            channel,
            callbacks_on(v.listeners, channel).insert(tag, function),
        ),
        ..v
    }
}

/// The state after the callback of `channel` under `tag` was unregistered.
pub open spec fn after_remove_listener<P, L, F>(
    v: PersistentPostgresView<P, L, F>,
    channel: Seq<char>,
    tag: Seq<char>,
) -> PersistentPostgresView<P, L, F> {
    PersistentPostgresView {
        listeners: if v.listeners.dom().contains(channel) {
            v.listeners.insert(channel, v.listeners[channel].remove(tag))
        } else {
            v.listeners
        },
        ..v
    }
}

/// `establishment` is over and was made for the manager's current listener
/// setting and channels.
pub open spec fn establishes_for<P, L, F>(
    establishment: EstablishmentView,
    v: PersistentPostgresView<P, L, F>,
) -> bool {
    &&& establishment.phase == EstablishPhase::Done
    &&& establishment.with_listener == v.with_listener
    &&& establishment.channels == v.channels
}

/// `outcome` is what came of an establishment with that `result`: the error
/// it reported, or a pool with a listener exactly where it reported one.
pub open spec fn reports<P, L>(
    result: Option<Result<bool, PersistentPostgresConnectionError>>,
    outcome: Result<(P, Option<L>), PersistentPostgresConnectionError>,
) -> bool {
    match outcome {
        Ok((_, l)) => result == Some(Ok::<bool, PersistentPostgresConnectionError>(l is Some)),
        Err(e) => result == Some(Err::<bool, PersistentPostgresConnectionError>(e)),
    }
}

/// The channel list without any occurrence of `channel`.
pub open spec fn without_channel(channels: Seq<Seq<char>>, channel: Seq<char>) -> Seq<Seq<char>> {
    channels.filter(|c: Seq<char>| c != channel)
}

/// The result of a call to the listener, or `Ok` where no call was needed.
pub open spec fn spec_listener_outcome(call: Option<bool>) -> Result<
    (),
    PersistentPostgresListenerError,
> {
    match call {
        Some(false) => Err(PersistentPostgresListenerError::FailedToAddChannelListener),
        _ => Ok(()),
    }
}

/// Maps the outcome of a call to the listener to the manager's result: `None`
/// where there was no listener to call.
pub fn listener_outcome(call: Option<bool>) -> (r: Result<(), PersistentPostgresListenerError>)
    ensures
        r == spec_listener_outcome(call),
{
    match call {
        Some(false) => Err(PersistentPostgresListenerError::FailedToAddChannelListener),
        _ => Ok(()),
    }
}

fn clone_channels(channels: &Vec<String>) -> (r: Vec<String>)
    ensures
        r.deep_view() == channels.deep_view(),
{
    let r = channels.clone();
    assert(r.deep_view() =~= channels.deep_view());
    r
}

impl<P, L, F> PersistentPostgres<P, L, F> {
    /// The listener registry is well formed, and the manager never holds a
    /// listener without a pool, nor a pool without an address.
    pub closed spec fn wf(self) -> bool {
        &&& self.listeners.wf()
        &&& self.listener is Some ==> self.pool is Some
        &&& self.pool is Some ==> self.address is Some
    }

    /// A manager with no address, pool, listener, channel or callback yet.
    ///
    /// `with_listener` decides whether a notification listener is established
    /// along with each pool.
    pub fn default(with_listener: bool) -> (r: Self)
        ensures
            r.wf(),
            r@.address is None,
            r@.pool is None,
            r@.with_listener == with_listener,
            r@.listener is None,
            r@.channels == Seq::<Seq<char>>::empty(),
            r@.listeners == Map::<Seq<char>, Map<Seq<char>, F>>::empty(),
    {
        let r = PersistentPostgres {
            address: None,
            pool: None,
            with_listener,
            listener: None,
            channels: Vec::new(),
            listeners: ListenerRegistry::new(),
        };
        assert(r@.channels =~= Seq::<Seq<char>>::empty());
        r
    }

    pub fn with_listener(&self) -> (r: bool)
        ensures
            r == self@.with_listener,
    {
        self.with_listener
    }

    /// The address the current pool was established with.
    pub fn address(&self) -> (r: Option<&String>)
        ensures
            r is Some == self@.address is Some,
            r is Some ==> r->0@ == self@.address->0,
    {
        match &self.address {
            Some(a) => Some(a),
            None => None,
        }
    }

    /// The current pool, once one was established.
    pub fn pool(&self) -> (r: Option<&P>)
        ensures
            r is Some == self@.pool is Some,
            r is Some ==> *r->0 == self@.pool->0,
    {
        match &self.pool {
            Some(p) => Some(p),
            None => None,
        }
    }

    /// The current notification listener, if one is established.
    pub fn listener(&self) -> (r: Option<&L>)
        ensures
            r is Some == self@.listener is Some,
            r is Some ==> *r->0 == self@.listener->0,
    {
        match &self.listener {
            Some(l) => Some(l),
            None => None,
        }
    }

    /// The channels to listen on.
    pub fn channels(&self) -> (r: &Vec<String>)
        ensures
            r.deep_view() == self@.channels,
    {
        &self.channels
    }

    /// Begins establishing a pool connected to `uri`, and a listener on it
    /// where `with_listener` holds, that listens on `channels`.
    pub fn establish_pool(uri: &str, with_listener: bool, channels: Vec<String>) -> (r: (
        Establishment,
        EstablishAction,
    ))
        ensures
            r.0.wf(),
            r.0@ == started(uri@, with_listener, channels.deep_view()),
            r.1@ == EstablishActionView::ConnectPool(uri@),
    {
        Establishment::start(uri.to_owned(), with_listener, channels)
    }

    /// Asks to point the manager at `uri`. Nothing is to be done (`None`)
    /// where the current pool was established with that very address;
    /// otherwise a new pool is to be established, with the manager's listener
    /// setting and its current channels.
    pub fn set_uri(&self, uri: &str) -> (r: Option<(Establishment, EstablishAction)>)
        ensures
            r is None <==> !needs_establish(self@, uri@),
            (r matches Some((e, a)) ==> e.wf() && e@ == started(
                uri@,
                self@.with_listener,
                self@.channels,
            ) && a@ == EstablishActionView::ConnectPool(uri@)),
    {
        let uri_string = uri.to_owned();
        match &self.address {
            Some(a) => {
                if *a == uri_string {
                    return None;
                }
            },
            None => {},
        }
        let channels = clone_channels(&self.channels);
        Some(Self::establish_pool(uri, self.with_listener, channels))
    }

    /// Completes [`PersistentPostgres::set_uri`] with the finished
    /// `establishment` it handed out and the pool and listener (or error)
    /// that came of it: on success the new address, pool and listener replace
    /// the old ones; on failure nothing changes and the establishment's error
    /// is handed back. On success a listener is held exactly where one is
    /// wanted, and then it was asked to listen on every channel.
    pub fn complete_set_uri(
        &mut self,
        uri: &str,
        establishment: &Establishment,
        outcome: Result<(P, Option<L>), PersistentPostgresConnectionError>,
    ) -> (r: Result<(), PersistentPostgresConnectionError>)
        requires
            old(self).wf(),
            establishment.wf(),
            establishes_for(establishment@, old(self)@),
            establishment@.address == uri@,
            reports(establishment@.result, outcome),
        ensures
            final(self).wf(),
            (match outcome {
                Ok((p, l)) => {
                    &&& r is Ok
                    &&& final(self)@ == after_set_uri(old(self)@, uri@, p, l)
                },
                Err(e) => r == Err::<(), PersistentPostgresConnectionError>(e) && final(self)@
                    == old(self)@,
            }),
            r is Ok ==> (final(self)@.listener is Some <==> final(self)@.with_listener),
            r is Ok && final(self)@.with_listener ==> establishment@.listened
                == final(self)@.channels,
    {
        match outcome {
            Ok((p, l)) => {
                self.address = Some(uri.to_owned());
                self.pool = Some(p);
                self.listener = l;
                Ok(())
            },
            Err(e) => Err(e),
        }
    }

    /// Installs a pool (and listener) re-established with the stored address,
    /// given the finished `establishment` that the watching task handed out
    /// and what came of it. On success a listener is held exactly where one
    /// is wanted, and then it was asked to listen on every channel.
    pub fn complete_reconnect(
        &mut self,
        establishment: &Establishment,
        outcome: Result<(P, Option<L>), PersistentPostgresConnectionError>,
    ) -> (r: bool)
        requires
            old(self).wf(),
            old(self)@.address is Some,
            establishment.wf(),
            establishes_for(establishment@, old(self)@),
            establishment@.address == old(self)@.address->0,
            reports(establishment@.result, outcome),
        ensures
            final(self).wf(),
            r == outcome is Ok,
            (match outcome {
                Ok((p, l)) => final(self)@ == installed(old(self)@, p, l),
                Err(_) => final(self)@ == old(self)@,
            }),
            r ==> (final(self)@.listener is Some <==> final(self)@.with_listener),
            r && final(self)@.with_listener ==> establishment@.listened == final(self)@.channels,
    {
        match outcome {
            Ok((p, l)) => {
                self.pool = Some(p);
                self.listener = l;
                true
            },
            Err(_) => false,
        }
    }

    /// Adds `channel` to the channels to listen on, whatever comes of it.
    /// `call` is the outcome of making the current listener listen on it, or
    /// `None` where there is no listener yet: then the channel is listened on
    /// once a listener is established.
    pub fn listen(&mut self, channel: &str, call: Option<bool>) -> (r: Result<
        (),
        PersistentPostgresListenerError,
    >)
        requires
            old(self).wf(),
            call is Some <==> old(self)@.listener is Some,
        ensures
            final(self).wf(),
            r == spec_listener_outcome(call),
            final(self)@ == after_listen(old(self)@, channel@),
    {
        let c = channel.to_owned();
        self.channels.push(c);
        assert(self@.channels =~= old(self)@.channels.push(channel@));
        listener_outcome(call)
    }

    /// Removes every occurrence of `channel` from the channels to listen on,
    /// unless the listener failed to stop listening on it (`call` is
    /// `Some(false)`): then nothing changes and the error is handed back.
    /// `call` is `None` where there is no listener.
    pub fn unlisten(&mut self, channel: &str, call: Option<bool>) -> (r: Result<
        (),
        PersistentPostgresListenerError,
    >)
        requires
            old(self).wf(),
            call is Some <==> old(self)@.listener is Some,
        ensures
            final(self).wf(),
            r == spec_listener_outcome(call),
            r is Ok ==> final(self)@ == after_unlisten(old(self)@, channel@),
            r is Err ==> final(self)@ == old(self)@,
    {
        let r = listener_outcome(call);
        if r.is_ok() {
            let c = channel.to_owned();
            let mut kept: Vec<String> = Vec::new();
            let mut i: usize = 0;
            while i < self.channels.len()
                invariant
                    i <= self.channels@.len(),
                    c@ == channel@,
                    self.channels.deep_view().len() == self.channels@.len(),
                    kept.deep_view() == without_channel(
                        self.channels.deep_view().take(i as int),
                        channel@,
                    ),
                decreases self.channels@.len() - i,
            {
                let ghost before = kept.deep_view();
                let keep = self.channels[i] != c;
                if keep {
                    kept.push(self.channels[i].clone());
                }
                proof {
                    let s = self.channels.deep_view();
                    let t = s.take(i + 1);
                    assert(t.drop_last() =~= s.take(i as int));
                    assert(t.last() == self.channels@[i as int]@);
                    reveal(Seq::filter);
                    if keep {
                        assert(kept.deep_view() =~= before.push(t.last()));
                    } else {
                        assert(kept.deep_view() =~= before);
                    }
                    assert(kept.deep_view() == without_channel(t, channel@));
                }
                i = i + 1;
            }
            proof {
                let s = self.channels.deep_view();
                assert(s.take(s.len() as int) =~= s);
            }
            self.channels = kept;
        }
        r
    }

    /// Registers `function` as the callback of `channel` under `tag`,
    /// replacing the callback registered there before, if any.
    pub fn add_listener(&mut self, channel: String, tag: String, function: F)
        requires
            old(self).wf(),
        ensures
            final(self).wf(),
            final(self)@ == after_add_listener(old(self)@, channel@, tag@, function),
    {
        self.listeners.add(channel, tag, function);
    }

    /// Unregisters the callback of `channel` under `tag`, if there is one.
    pub fn remove_listener(&mut self, channel: String, tag: String)
        requires
            old(self).wf(),
        ensures
            final(self).wf(),
            final(self)@ == after_remove_listener(old(self)@, channel@, tag@),
    {
        self.listeners.remove(&channel, &tag);
    }

    /// The callbacks registered on `channel`, each with its tag.
    pub fn callbacks(&self, channel: &String) -> (r: Vec<(String, F)>) where F: Copy
        requires
            self.wf(),
        ensures
            lists_callbacks(callbacks_on(self@.listeners, channel@), r@),
    {
        self.listeners.handlers_for(channel)
    }

    /// Takes the listener out of the manager, to be dropped.
    pub fn take_listener(&mut self) -> (r: Option<L>)
        requires
            old(self).wf(),
        ensures
            final(self).wf(),
            r == old(self)@.listener,
            final(self)@ == (PersistentPostgresView { listener: None, ..old(self)@ }),
    {
        self.listener.take()
    }
}

} // verus!
