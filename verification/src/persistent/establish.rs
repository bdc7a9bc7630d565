use vstd::prelude::*;

use crate::error::connection::PersistentPostgresConnectionError;

verus! {

/// Where an establishment of the connection pool stands: which outcome it
/// waits for next.
#[derive(Debug, Clone, Copy, PartialEq, Eq, Structural)]
pub enum EstablishPhase {
    /// The pool is being connected.
    AwaitingPool,
    /// The listener is being connected on the new pool.
    AwaitingListener,
    /// The listener is being set to listen on the channel at this index.
    AwaitingListen(usize),
    /// The establishment is over; its result was handed out.
    Done,
}

/// What the caller has to do next to establish the pool.
#[derive(Debug)]
pub enum EstablishAction {
    /// Connect a pool to this address.
    ConnectPool(String),
    /// Connect a listener with the pool that was just connected.
    ConnectListener,
    /// Make the listener listen on this channel; a failure here is not fatal.
    Listen(String),
    /// Stop: on success, whether a listener was established.
    Finished(Result<bool, PersistentPostgresConnectionError>),
}

/// The abstract value of an [`EstablishAction`].
pub enum EstablishActionView {
    ConnectPool(Seq<char>),
    ConnectListener,
    Listen(Seq<char>),
    Finished(Result<bool, PersistentPostgresConnectionError>),
}

impl View for EstablishAction {
    type V = EstablishActionView;

    open spec fn view(&self) -> EstablishActionView {
        match self {
            EstablishAction::ConnectPool(a) => EstablishActionView::ConnectPool(a@),
            EstablishAction::ConnectListener => EstablishActionView::ConnectListener,
            EstablishAction::Listen(c) => EstablishActionView::Listen(c@),
            EstablishAction::Finished(r) => EstablishActionView::Finished(*r),
        }
    }
}

/// The abstract value of an [`Establishment`].
pub struct EstablishmentView {
    /// The address the pool is connected to.
    pub address: Seq<char>,
    pub with_listener: bool,
    pub channels: Seq<Seq<char>>,
    pub phase: EstablishPhase,
    /// The channels on which listening failed so far, in order.
    pub failed: Seq<Seq<char>>,
    /// The channels the listener was asked to listen on so far, in order.
    pub listened: Seq<Seq<char>>,
    /// The result handed out, once the establishment is over.
    pub result: Option<Result<bool, PersistentPostgresConnectionError>>,
}

/// The establishment ends with `result`.
pub open spec fn finish(
    v: EstablishmentView,
    result: Result<bool, PersistentPostgresConnectionError>,
) -> (EstablishmentView, EstablishActionView) {
    (
        EstablishmentView { phase: EstablishPhase::Done, result: Some(result), ..v },
        EstablishActionView::Finished(result),
    )
}

/// The next step once listening on the channels is to start at index `i`.
pub open spec fn listen_from(v: EstablishmentView, i: int) -> (
    EstablishmentView,
    EstablishActionView,
) {
    if i < v.channels.len() {
        (
            EstablishmentView {
                phase: EstablishPhase::AwaitingListen(i as usize),
                listened: v.listened.push(v.channels[i]),
                ..v
            },
            EstablishActionView::Listen(v.channels[i]),
        )
    } else {
        finish(v, Ok(true))
    }
}

/// One step of an establishment, given whether the action it asked for last
/// succeeded.
pub open spec fn establish_step(v: EstablishmentView, succeeded: bool) -> (
    EstablishmentView,
    EstablishActionView,
) {
    match v.phase {
        EstablishPhase::AwaitingPool => {
            if !succeeded {
                finish(v, Err(PersistentPostgresConnectionError::FailedToEstablishConnection))
            } else if v.with_listener {
                (
                    EstablishmentView { phase: EstablishPhase::AwaitingListener, ..v },
                    EstablishActionView::ConnectListener,
                )
            } else {
                finish(v, Ok(false))
            }
        },
        EstablishPhase::AwaitingListener => {
            if !succeeded {
                finish(v, Err(PersistentPostgresConnectionError::FailedToEstablishListener))
            } else {
                listen_from(v, 0)
            }
        },
        EstablishPhase::AwaitingListen(i) => {
            let v2 = if succeeded {
                v
            } else {
                EstablishmentView { failed: v.failed.push(v.channels[i as int]), ..v }
            };
            listen_from(v2, i + 1)
        },
        EstablishPhase::Done => (v, EstablishActionView::Finished(Ok(false))),
    }
}

/// The view of an establishment that was just started.
pub open spec fn started(
    address: Seq<char>,
    with_listener: bool,
    channels: Seq<Seq<char>>,
) -> EstablishmentView {
    EstablishmentView {
        address,
        with_listener,
        channels,
        phase: EstablishPhase::AwaitingPool,
        failed: Seq::empty(),
        listened: Seq::empty(),
        result: None,
    }
}

/// Drives an establishment with the given outcomes, one per action, until it
/// is done or the outcomes run out: the final view and the actions handed out.
pub open spec fn run_establish(v: EstablishmentView, outcomes: Seq<bool>) -> (
    EstablishmentView,
    Seq<EstablishActionView>,
)
    decreases outcomes.len(),
{
    if outcomes.len() == 0 || v.phase == EstablishPhase::Done {
        (v, Seq::empty())
    } else {
        let next = establish_step(v, outcomes[0]);
        let rest = run_establish(next.0, outcomes.drop_first());
        (rest.0, seq![next.1] + rest.1)
    }
}

/// The channels whose listen outcome is a failure, in order.
pub open spec fn listen_failures(channels: Seq<Seq<char>>, outcomes: Seq<bool>) -> Seq<Seq<char>>
    decreases channels.len(),
{
    if channels.len() == 0 || outcomes.len() == 0 {
        Seq::empty()
    } else {
        (if outcomes[0] {
            Seq::empty()
        } else {
            seq![channels[0]]
        }) + listen_failures(channels.drop_first(), outcomes.drop_first())
    }
}

/// The actions that ask to listen on each of `channels` from index `from` on.
pub open spec fn listens_from(channels: Seq<Seq<char>>, from: int) -> Seq<EstablishActionView> {
    Seq::new(
        (channels.len() - from) as nat,
        |k: int| EstablishActionView::Listen(channels[from + k]),
    )
}

proof fn lemma_run_listening(v: EstablishmentView, i: int, outcomes: Seq<bool>)
    requires
        v.phase == EstablishPhase::AwaitingListen(i as usize),
        0 <= i < v.channels.len() <= usize::MAX,
        outcomes.len() == v.channels.len(),
    ensures
        run_establish(v, outcomes.skip(i)).1 == listens_from(v.channels, i + 1) + seq![
            EstablishActionView::Finished(Ok(true)),
        ],
        run_establish(v, outcomes.skip(i)).0.phase == EstablishPhase::Done,
        run_establish(v, outcomes.skip(i)).0.channels == v.channels,
        run_establish(v, outcomes.skip(i)).0.failed == v.failed + listen_failures(
            v.channels.skip(i),
            outcomes.skip(i),
        ),
        run_establish(v, outcomes.skip(i)).0.listened == v.listened + v.channels.subrange(
            i + 1,
            v.channels.len() as int,
        ),
        run_establish(v, outcomes.skip(i)).0.result == Some(
            Ok::<bool, PersistentPostgresConnectionError>(true),
        ),
    decreases v.channels.len() - i,
{
    let n = v.channels.len();
    let os = outcomes.skip(i);
    assert(os.drop_first() =~= outcomes.skip(i + 1));
    assert(v.channels.skip(i).drop_first() =~= v.channels.skip(i + 1));
    assert(os[0] == outcomes[i]);
    assert(v.channels.skip(i)[0] == v.channels[i]);
    let next = establish_step(v, os[0]);
    let v2 = if os[0] {
        v
    } else {
        EstablishmentView { failed: v.failed.push(v.channels[i]), ..v }
    };
    assert(next == listen_from(v2, i + 1));
    if i + 1 < n {
        lemma_run_listening(next.0, i + 1, outcomes);
        assert(listens_from(v.channels, i + 1) =~= seq![
            EstablishActionView::Listen(v.channels[i + 1]),
        ] + listens_from(v.channels, i + 2));
        assert(run_establish(v, os).1 =~= seq![next.1] + run_establish(
            next.0,
            outcomes.skip(i + 1),
        ).1);
        assert(run_establish(v, os).0.failed =~= v.failed + listen_failures(
            v.channels.skip(i),
            os,
        ));
        assert(run_establish(v, os).0.listened =~= v.listened + v.channels.subrange(
            i + 1,
            n as int,
        ));
    } else {
        assert(outcomes.skip(i + 1).len() == 0);
        assert(listens_from(v.channels, i + 1) =~= Seq::<EstablishActionView>::empty());
        assert(listen_failures(v.channels.skip(i + 1), outcomes.skip(i + 1)) =~= Seq::<
            Seq<char>,
        >::empty());
        assert(run_establish(v, os).1 =~= seq![EstablishActionView::Finished(Ok(true))]);
        assert(run_establish(v, os).0.failed =~= v.failed + listen_failures(
            v.channels.skip(i),
            os,
        ));
        assert(run_establish(v, os).0.listened =~= v.listened + v.channels.subrange(
            i + 1,
            n as int,
        ));
    }
}

/// Once the pool and the listener are connected, the listener is asked to
/// listen on every channel, in order, each once, whatever comes of it; the
/// establishment then succeeds with a listener, having listened on all the
/// channels, and the channels on which listening failed are exactly those
/// reported as failed.
pub proof fn law_establish_listens_on_every_channel(
    address: Seq<char>,
    channels: Seq<Seq<char>>,
    listens: Seq<bool>,
)
    requires
        listens.len() == channels.len() <= usize::MAX,
    ensures
        run_establish(started(address, true, channels), seq![true, true] + listens).1 == seq![
            EstablishActionView::ConnectListener,
        ] + listens_from(channels, 0) + seq![EstablishActionView::Finished(Ok(true))],
        run_establish(started(address, true, channels), seq![true, true] + listens).0.phase
            == EstablishPhase::Done,
        run_establish(started(address, true, channels), seq![true, true] + listens).0.failed
            == listen_failures(channels, listens),
        run_establish(started(address, true, channels), seq![true, true] + listens).0.listened
            == channels,
        run_establish(started(address, true, channels), seq![true, true] + listens).0.result == Some(
            Ok::<bool, PersistentPostgresConnectionError>(true),
        ),
{
    let s = started(address, true, channels);
    let os = seq![true, true] + listens;
    assert(os.drop_first().drop_first() =~= listens);
    assert(os[0] && os.drop_first()[0]);
    let v1 = establish_step(s, true).0;
    assert(v1.phase == EstablishPhase::AwaitingListener);
    let v2 = establish_step(v1, true);
    assert(v2 == listen_from(v1, 0));
    assert(run_establish(s, os).1 =~= seq![EstablishActionView::ConnectListener] + run_establish(
        v1,
        os.drop_first(),
    ).1);
    assert(run_establish(v1, os.drop_first()).1 =~= seq![v2.1] + run_establish(
        v2.0,
        listens,
    ).1);
    if channels.len() > 0 {
        assert(listens.skip(0) =~= listens);
        assert(channels.skip(0) =~= channels);
        lemma_run_listening(v2.0, 0, listens);
        assert(listens_from(channels, 0) =~= seq![EstablishActionView::Listen(channels[0])]
            + listens_from(channels, 1));
        assert(run_establish(s, os).1 =~= seq![EstablishActionView::ConnectListener]
            + listens_from(channels, 0) + seq![EstablishActionView::Finished(Ok(true))]);
        assert(run_establish(s, os).0.failed =~= listen_failures(channels, listens));
        assert(run_establish(s, os).0.listened =~= channels);
    } else {
        assert(listens.len() == 0);
        assert(listens_from(channels, 0) =~= Seq::<EstablishActionView>::empty());
        assert(run_establish(s, os).1 =~= seq![EstablishActionView::ConnectListener]
            + listens_from(channels, 0) + seq![EstablishActionView::Finished(Ok(true))]);
        assert(run_establish(s, os).0.listened =~= channels);
    }
}

/// The establishment fails with `FailedToEstablishConnection` as soon as the
/// pool cannot be connected; without a listener it succeeds as soon as the
/// pool is connected; and it fails with `FailedToEstablishListener` as soon
/// as the listener cannot be connected.
pub proof fn law_establish_result(address: Seq<char>, with_listener: bool, channels: Seq<Seq<char>>)
    ensures
        run_establish(started(address, with_listener, channels), seq![false]).1 == seq![
            EstablishActionView::Finished(
                Err(PersistentPostgresConnectionError::FailedToEstablishConnection),
            ),
        ],
        !with_listener ==> run_establish(started(address, with_listener, channels), seq![true]).1 == seq![
            EstablishActionView::Finished(Ok(false)),
        ],
        with_listener ==> run_establish(started(address, with_listener, channels), seq![true, false]).1
            == seq![
            EstablishActionView::ConnectListener,
            EstablishActionView::Finished(
                Err(PersistentPostgresConnectionError::FailedToEstablishListener),
            ),
        ],
{
    let s = started(address, with_listener, channels);
    reveal_with_fuel(run_establish, 3);
    assert(seq![false].drop_first() =~= Seq::<bool>::empty());
    assert(seq![true].drop_first() =~= Seq::<bool>::empty());
    assert(seq![true, false].drop_first() =~= seq![false]);
    assert(run_establish(s, seq![false]).1 =~= seq![
        EstablishActionView::Finished(
            Err(PersistentPostgresConnectionError::FailedToEstablishConnection),
        ),
    ]);
    if !with_listener {
        assert(run_establish(s, seq![true]).1 =~= seq![EstablishActionView::Finished(Ok(false))]);
    } else {
        let v1 = establish_step(s, true).0;
        assert(run_establish(v1, seq![false]).1 =~= seq![
            EstablishActionView::Finished(
                Err(PersistentPostgresConnectionError::FailedToEstablishListener),
            ),
        ]);
        assert(run_establish(s, seq![true, false]).1 =~= seq![
            EstablishActionView::ConnectListener,
            EstablishActionView::Finished(
                Err(PersistentPostgresConnectionError::FailedToEstablishListener),
            ),
        ]);
    }
}

/// An establishment that is over succeeded with a listener exactly where one
/// was wanted, and then it asked the listener to listen on every channel.
pub proof fn law_success_with_listener_listened_everywhere(e: Establishment)
    requires
        e.wf(),
        e@.phase == EstablishPhase::Done,
    ensures
        e@.result is Some,
        (e@.result matches Some(Ok(b)) ==> b == e@.with_listener && (b ==> e@.listened
            == e@.channels)),
{
}

/// A failure to listen on a channel never fails the establishment: while
/// channels are being listened on, the next action is to listen on the next
/// channel or to finish with success and a listener.
pub proof fn law_listen_failure_is_not_fatal(v: EstablishmentView, succeeded: bool)
    requires
        v.phase is AwaitingListen,
    ensures
        establish_step(v, succeeded).1 is Listen || establish_step(v, succeeded).1
            == EstablishActionView::Finished(Ok(true)),
{
}

/// The establishment of a connection pool and, where one is wanted, of a
/// listener on it that listens on the given channels.
///
/// The caller performs the actions that [`Establishment::start`] and
/// [`Establishment::step`] hand out and reports back whether each succeeded.
pub struct Establishment {
    address: String,
    with_listener: bool,
    channels: Vec<String>,
    phase: EstablishPhase,
    failed: Vec<String>,
    listened: Ghost<Seq<Seq<char>>>,
    result: Option<Result<bool, PersistentPostgresConnectionError>>,
}

impl View for Establishment {
    type V = EstablishmentView;

    closed spec fn view(&self) -> EstablishmentView {
        EstablishmentView {
            address: self.address@,
            with_listener: self.with_listener,
            channels: self.channels.deep_view(),
            phase: self.phase,
            failed: self.failed.deep_view(),
            listened: self.listened@,
            result: self.result,
        }
    }
}

impl Establishment {
    /// A pending listen is on a channel of the establishment; the listener is
    /// asked to listen on the channels in order, and only where a listener is
    /// wanted; a result is recorded exactly once the establishment is over,
    /// and success reports a listener exactly where one is wanted, in which
    /// case every channel was listened on.
    pub open spec fn wf(self) -> bool {
        let v = self@;
        match v.phase {
            EstablishPhase::AwaitingPool => v.listened.len() == 0 && v.result is None,
            EstablishPhase::AwaitingListener => v.with_listener && v.listened.len() == 0
                && v.result is None,
            EstablishPhase::AwaitingListen(i) => {
                &&& v.with_listener
                &&& i < v.channels.len()
                &&& v.listened == v.channels.take(i + 1)
                &&& v.result is None
            },
            EstablishPhase::Done => match v.result {
                Some(Ok(b)) => b == v.with_listener && (if b {
                    v.listened == v.channels
                } else {
                    v.listened.len() == 0
                }),
                Some(Err(_)) => v.listened.len() == 0,
                None => false,
            },
        }
    }

    /// Begins an establishment; the first action is always to connect the pool
    /// to `address`.
    pub fn start(address: String, with_listener: bool, channels: Vec<String>) -> (r: (
        Establishment,
        EstablishAction,
    ))
        ensures
            r.0.wf(),
            r.0@ == started(address@, with_listener, channels.deep_view()),
            r.1@ == EstablishActionView::ConnectPool(address@),
    {
        let first = EstablishAction::ConnectPool(address.clone());
        let e = Establishment {
            address,
            with_listener,
            channels,
            phase: EstablishPhase::AwaitingPool,
            failed: Vec::new(),
            listened: Ghost(Seq::empty()),
            result: None,
        };
        assert(e@.failed =~= Seq::<Seq<char>>::empty());
        (e, first)
    }

    /// Whether the establishment is over.
    pub fn is_done(&self) -> (r: bool)
        ensures
            r == (self@.phase == EstablishPhase::Done),
    {
        match self.phase {
            EstablishPhase::Done => true,
            _ => false,
        }
    }

    /// The result handed out, once the establishment is over.
    pub fn result(&self) -> (r: Option<Result<bool, PersistentPostgresConnectionError>>)
        ensures
            r == self@.result,
    {
        self.result
    }

    /// The channels on which listening failed so far.
    pub fn failed_channels(&self) -> (r: &Vec<String>)
        ensures
            r.deep_view() == self@.failed,
    {
        &self.failed
    }

    fn finish_with(&mut self, result: Result<bool, PersistentPostgresConnectionError>) -> (r:
        EstablishAction)
        ensures
            (final(self)@, r@) == finish(old(self)@, result),
    {
        self.phase = EstablishPhase::Done;
        self.result = Some(result);
        EstablishAction::Finished(result)
    }

    fn listen_from_index(&mut self, i: usize) -> (r: EstablishAction)
        requires
            i <= old(self)@.channels.len(),
            old(self)@.with_listener,
            old(self)@.listened == old(self)@.channels.take(i as int),
            old(self)@.result is None,
        ensures
            final(self).wf(),
            (final(self)@, r@) == listen_from(old(self)@, i as int),
    {
        let ghost v = self@;
        if i < self.channels.len() {
            self.phase = EstablishPhase::AwaitingListen(i);
            let c = self.channels[i].clone();
            proof {
                self.listened@ = self.listened@.push(c@);
                assert(v.channels.take(i as int).push(v.channels[i as int]) =~= v.channels.take(
                    i + 1,
                ));
            }
            EstablishAction::Listen(c)
        } else {
            assert(v.channels.take(i as int) =~= v.channels);
            self.finish_with(Ok(true))
        }
    }

    /// Takes in whether the last action succeeded and hands out the next one.
    pub fn step(&mut self, succeeded: bool) -> (r: EstablishAction)
        requires
            old(self).wf(),
            old(self)@.phase != EstablishPhase::Done,
        ensures
            final(self).wf(),
            (final(self)@, r@) == establish_step(old(self)@, succeeded),
    {
        match self.phase {
            EstablishPhase::AwaitingPool => {
                if !succeeded {
                    self.finish_with(
                        Err(PersistentPostgresConnectionError::FailedToEstablishConnection),
                    )
                } else if self.with_listener {
                    self.phase = EstablishPhase::AwaitingListener;
                    EstablishAction::ConnectListener
                } else {
                    self.finish_with(Ok(false))
                }
            },
            EstablishPhase::AwaitingListener => {
                if !succeeded {
                    self.finish_with(
                        Err(PersistentPostgresConnectionError::FailedToEstablishListener),
                    )
                } else {
                    assert(self@.listened =~= self@.channels.take(0));
                    self.listen_from_index(0)
                }
            },
            EstablishPhase::AwaitingListen(i) => {
                assert(self.channels.deep_view().len() == self.channels@.len());
                let n = self.channels.len();
                assert(i < n);
                if !succeeded {
                    let c = self.channels[i].clone();
                    self.failed.push(c);
                    assert(self@.failed =~= old(self)@.failed.push(old(self)@.channels[i as int]));
                }
                self.listen_from_index(i + 1)
            },
            EstablishPhase::Done => EstablishAction::Finished(Ok(false)),
        }
    }
}

} // verus!
