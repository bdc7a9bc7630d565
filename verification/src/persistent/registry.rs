use vstd::prelude::*;

verus! {

/// One registered notification callback: the channel it listens on, the tag
/// it was registered under, and the callback itself.
struct Handler<F> {
    channel: String,
    tag: String,
    callback: F,
}

/// The callbacks registered for notifications, by channel and then by tag.
///
/// Its abstract value is a map from channel to a map from tag to callback. A
/// channel stays known once a callback was added for it, even after all of its
/// callbacks were removed.
pub struct ListenerRegistry<F> {
    channels: Vec<String>,
    handlers: Vec<Handler<F>>,
}

/// The callbacks of `channel` in `registry`, empty where the channel is unknown.
pub open spec fn callbacks_on<F>(
    registry: Map<Seq<char>, Map<Seq<char>, F>>,
    channel: Seq<char>,
) -> Map<Seq<char>, F> {
    if registry.dom().contains(channel) {
        registry[channel]
    } else {
        Map::empty()
    }
}

/// `v` lists each callback of `m` exactly once, with its tag.
pub open spec fn lists_callbacks<F>(m: Map<Seq<char>, F>, v: Seq<(String, F)>) -> bool {
    &&& forall|i: int|
        #![trigger v[i]]
        0 <= i < v.len() ==> m.dom().contains(v[i].0@) && m[v[i].0@] == v[i].1
    &&& forall|i: int, j: int| #![trigger v[i], v[j]] 0 <= i < j < v.len() ==> v[i].0@ != v[j].0@
    &&& forall|t: Seq<char>|
        #[trigger] m.dom().contains(t) ==> exists|i: int| 0 <= i < v.len() && #[trigger] v[i].0@ == t
}

impl<F> ListenerRegistry<F> {
    /// `channel` is known to the registry.
    pub closed spec fn has_channel(self, channel: Seq<char>) -> bool {
        exists|j: int| 0 <= j < self.channels@.len() && #[trigger] self.channels@[j]@ == channel
    }

    /// A callback is registered on `channel` under `tag`.
    pub closed spec fn has_handler(self, channel: Seq<char>, tag: Seq<char>) -> bool {
        exists|i: int|
            #![trigger self.handlers@[i]]
            0 <= i < self.handlers@.len() && self.handlers@[i].channel@ == channel
                && self.handlers@[i].tag@ == tag
    }

    spec fn handler_index(self, channel: Seq<char>, tag: Seq<char>) -> int {
        choose|i: int|
            #![trigger self.handlers@[i]]
            0 <= i < self.handlers@.len() && self.handlers@[i].channel@ == channel
                && self.handlers@[i].tag@ == tag
    }

    /// The callbacks registered on `channel`, by tag.
    pub closed spec fn callbacks_of(self, channel: Seq<char>) -> Map<Seq<char>, F> {
        Map::new(
            |tag: Seq<char>| self.has_handler(channel, tag),
            |tag: Seq<char>| self.handlers@[self.handler_index(channel, tag)].callback,
        )
    }

    /// No channel is known twice, no (channel, tag) pair is registered twice,
    /// and every callback's channel is known.
    pub closed spec fn wf(self) -> bool {
        &&& forall|i: int, j: int|
            #![trigger self.channels@[i], self.channels@[j]]
            0 <= i < j < self.channels@.len() ==> self.channels@[i]@ != self.channels@[j]@
        &&& forall|i: int, j: int|
            #![trigger self.handlers@[i], self.handlers@[j]]
            0 <= i < j < self.handlers@.len() ==> !(self.handlers@[i].channel@
                == self.handlers@[j].channel@ && self.handlers@[i].tag@ == self.handlers@[j].tag@)
        &&& forall|i: int|
            0 <= i < self.handlers@.len() ==> self.has_channel(
                #[trigger] self.handlers@[i].channel@,
            )
    }

    proof fn lemma_handler_index(self, i: int)
        requires
            self.wf(),
            0 <= i < self.handlers@.len(),
        ensures
            self.has_handler(self.handlers@[i].channel@, self.handlers@[i].tag@),
            self.handler_index(self.handlers@[i].channel@, self.handlers@[i].tag@) == i,
            self.callbacks_of(self.handlers@[i].channel@)[self.handlers@[i].tag@]
                == self.handlers@[i].callback,
    {
        let c = self.handlers@[i].channel@;
        let t = self.handlers@[i].tag@;
        assert(self.has_handler(c, t));
        let k = self.handler_index(c, t);
        assert(0 <= k < self.handlers@.len() && self.handlers@[k].channel@ == c
            && self.handlers@[k].tag@ == t);
        if k < i {
            assert(self.handlers@[k] == self.handlers@[k]);
        } else if i < k {
            assert(self.handlers@[i] == self.handlers@[i]);
        }
    }

    /// After the handler at `k` was written with `(channel, tag, callback)`,
    /// every other handler kept, the callbacks are the old ones with that
    /// one registered.
    proof fn lemma_callbacks_after_write(
        self,
        mid: Self,
        k: int,
        channel: Seq<char>,
        tag: Seq<char>,
        callback: F,
    )
        requires
            self.wf(),
            mid.wf(),
            0 <= k < self.handlers@.len(),
            self.handlers@[k].channel@ == channel,
            self.handlers@[k].tag@ == tag,
            self.handlers@[k].callback == callback,
            forall|i: int|
                #![trigger self.handlers@[i]]
                0 <= i < self.handlers@.len() && i != k ==> i < mid.handlers@.len()
                    && mid.handlers@[i] == self.handlers@[i],
            forall|c: Seq<char>, t: Seq<char>|
                self.has_handler(c, t) == (mid.has_handler(c, t) || (c == channel && t == tag)),
        ensures
            forall|c: Seq<char>|
                #[trigger] self.callbacks_of(c) == (if c == channel {
                    mid.callbacks_of(c).insert(tag, callback)
                } else {
                    mid.callbacks_of(c)
                }),
    {
        assert forall|c: Seq<char>|
            #[trigger] self.callbacks_of(c) == (if c == channel {
                mid.callbacks_of(c).insert(tag, callback)
            } else {
                mid.callbacks_of(c)
            }) by {
            assert forall|t: Seq<char>| #[trigger]
                self.callbacks_of(c).dom().contains(t) implies self.callbacks_of(c)[t] == (if c
                == channel && t == tag {
                callback
            } else {
                mid.callbacks_of(c)[t]
            }) by {
                let i = choose|i: int|
                    #![trigger self.handlers@[i]]
                    0 <= i < self.handlers@.len() && self.handlers@[i].channel@ == c
                        && self.handlers@[i].tag@ == t;
                self.lemma_handler_index(i);
                if i != k {
                    assert(mid.handlers@[i] == self.handlers@[i]);
                    mid.lemma_handler_index(i);
                }
            }
            if c == channel {
                assert(self.callbacks_of(c) =~= mid.callbacks_of(c).insert(tag, callback));
            } else {
                assert(self.callbacks_of(c) =~= mid.callbacks_of(c));
            }
        }
    }

    proof fn lemma_unknown_channel_empty(self, channel: Seq<char>)
        requires
            self.wf(),
            !self.has_channel(channel),
        ensures
            self.callbacks_of(channel) == Map::<Seq<char>, F>::empty(),
    {
        assert forall|t: Seq<char>| !self.has_handler(channel, t) by {
            if self.has_handler(channel, t) {
                let i = choose|i: int|
                    #![trigger self.handlers@[i]]
                    0 <= i < self.handlers@.len() && self.handlers@[i].channel@ == channel
                        && self.handlers@[i].tag@ == t;
                assert(self.has_channel(self.handlers@[i].channel@));
            }
        }
        assert(self.callbacks_of(channel) =~= Map::<Seq<char>, F>::empty());
    }
}

impl<F> View for ListenerRegistry<F> {
    type V = Map<Seq<char>, Map<Seq<char>, F>>;

    closed spec fn view(&self) -> Map<Seq<char>, Map<Seq<char>, F>> {
        Map::new(|c: Seq<char>| self.has_channel(c), |c: Seq<char>| self.callbacks_of(c))
    }
}

impl<F> ListenerRegistry<F> {
    /// The view's callbacks on a channel, known or not.
    pub proof fn lemma_callbacks_on(self, channel: Seq<char>)
        requires
            self.wf(),
        ensures
            callbacks_on(self@, channel) == self.callbacks_of(channel),
    {
        if !self.has_channel(channel) {
            self.lemma_unknown_channel_empty(channel);
        }
    }

    /// An empty registry.
    pub fn new() -> (r: Self)
        ensures
            r.wf(),
            r@ == Map::<Seq<char>, Map<Seq<char>, F>>::empty(),
    {
        let r = ListenerRegistry { channels: Vec::new(), handlers: Vec::new() };
        assert(r@ =~= Map::<Seq<char>, Map<Seq<char>, F>>::empty());
        r
    }

    fn find_channel(&self, channel: &String) -> (r: Option<usize>)
        ensures
            r is Some <==> self.has_channel(channel@),
            r is Some ==> r->0 < self.channels@.len() && self.channels@[r->0 as int]@
                == channel@,
    {
        let mut j: usize = 0;
        while j < self.channels.len()
            invariant
                j <= self.channels@.len(),
                forall|k: int| 0 <= k < j ==> self.channels@[k]@ != channel@,
            decreases self.channels@.len() - j,
        {
            if self.channels[j] == *channel {
                return Some(j);
            }
            j = j + 1;
        }
        None
    }

    fn find_handler(&self, channel: &String, tag: &String) -> (r: Option<usize>)
        ensures
            r is Some <==> self.has_handler(channel@, tag@),
            r is Some ==> r->0 < self.handlers@.len() && self.handlers@[r->0 as int].channel@
                == channel@ && self.handlers@[r->0 as int].tag@ == tag@,
    {
        let mut i: usize = 0;
        while i < self.handlers.len()
            invariant
                i <= self.handlers@.len(),
                forall|k: int|
                    0 <= k < i ==> !(#[trigger] self.handlers@[k].channel@ == channel@
                        && self.handlers@[k].tag@ == tag@),
            decreases self.handlers@.len() - i,
        {
            if self.handlers[i].channel == *channel && self.handlers[i].tag == *tag {
                return Some(i);
            }
            i = i + 1;
        }
        None
    }

    /// Registers `callback` on `channel` under `tag`, replacing the callback
    /// that was registered there before, if any.
    pub fn add(&mut self, channel: String, tag: String, callback: F)
        requires
            old(self).wf(),
        ensures
            final(self).wf(),
            final(self)@ == old(self)@.insert(
                channel@,
                callbacks_on(old(self)@, channel@).insert(tag@, callback),
            ),
    {
        let ghost old_reg = *self;
        let ghost cv = channel@;
        let ghost tv = tag@;
        proof {
            old_reg.lemma_callbacks_on(cv);
        }
        if self.find_channel(&channel).is_none() {
            let ghost before = *self;
            self.channels.push(channel.clone());
            proof {
                let last = self.channels@.len() - 1;
                assert(self.channels@[last]@ == cv);
                assert forall|c: Seq<char>| #[trigger]
                    self.has_channel(c) <==> (before.has_channel(c) || c == cv) by {
                    if before.has_channel(c) {
                        let j = choose|j: int|
                            0 <= j < before.channels@.len() && #[trigger] before.channels@[j]@
                                == c;
                        assert(self.channels@[j] == before.channels@[j]);
                    }
                    if self.has_channel(c) && c != cv {
                        let j = choose|j: int|
                            0 <= j < self.channels@.len() && #[trigger] self.channels@[j]@ == c;
                        assert(j < last);
                        assert(before.channels@[j] == self.channels@[j]);
                    }
                }
                assert forall|i: int| 0 <= i < self.handlers@.len() implies self.has_channel(
                    #[trigger] self.handlers@[i].channel@,
                ) by {
                    assert(before.has_channel(before.handlers@[i].channel@));
                }
                assert forall|c: Seq<char>, t: Seq<char>|
                    self.has_handler(c, t) == before.has_handler(c, t) by {}
                assert forall|c: Seq<char>| self.callbacks_of(c) =~= before.callbacks_of(c) by {}
            }
        }
        assert(self.has_channel(cv));
        let ghost mid = *self;
        assert(mid.wf());
        assert forall|c: Seq<char>|
            (#[trigger] mid.has_channel(c) == (old_reg.has_channel(c) || c == cv))
                && mid.callbacks_of(c) == old_reg.callbacks_of(c) by {}
        match self.find_handler(&channel, &tag) {
            Some(k) => {
                self.handlers.set(k, Handler { channel, tag, callback });
                proof {
                    let c0 = self.handlers@[k as int].channel@;
                    let t0 = self.handlers@[k as int].tag@;
                    assert forall|i: int, j: int|
                        0 <= i < j < self.handlers@.len() implies !(
                        #[trigger] self.handlers@[i].channel@ == #[trigger] self.handlers@[j].channel@
                            && self.handlers@[i].tag@ == self.handlers@[j].tag@) by {
                        assert(mid.handlers@[i] == mid.handlers@[i]);
                        assert(mid.handlers@[j] == mid.handlers@[j]);
                    }
                    assert forall|i: int| 0 <= i < self.handlers@.len() implies self.has_channel(
                        #[trigger] self.handlers@[i].channel@,
                    ) by {
                        let x = self.handlers@[i].channel@;
                        if i != k {
                            assert(self.handlers@[i] == mid.handlers@[i]);
                        }
                        assert(mid.has_channel(x));
                        let j = choose|j: int|
                            0 <= j < mid.channels@.len() && #[trigger] mid.channels@[j]@ == x;
                        assert(self.channels@[j] == mid.channels@[j]);
                    }
                    assert(self.wf());
                    assert forall|c: Seq<char>, t: Seq<char>|
                        self.has_handler(c, t) == mid.has_handler(c, t) by {
                        if mid.has_handler(c, t) {
                            let i = choose|i: int|
                                #![trigger mid.handlers@[i]]
                                0 <= i < mid.handlers@.len() && mid.handlers@[i].channel@ == c
                                    && mid.handlers@[i].tag@ == t;
                            assert(self.handlers@[k as int].channel@ == cv);
                            assert(self.handlers@[k as int].tag@ == tv);
                            assert(mid.handlers@[k as int].channel@ == cv);
                            assert(mid.handlers@[k as int].tag@ == tv);
                            if i != k {
                                assert(self.handlers@[i] == mid.handlers@[i]);
                            }
                            assert(self.handlers@[i].channel@ == c && self.handlers@[i].tag@ == t);
                        }
                        if self.has_handler(c, t) {
                            let i = choose|i: int|
                                #![trigger self.handlers@[i]]
                                0 <= i < self.handlers@.len() && self.handlers@[i].channel@ == c
                                    && self.handlers@[i].tag@ == t;
                            if i != k {
                                assert(self.handlers@[i] == mid.handlers@[i]);
                            }
                            assert(mid.handlers@[i].channel@ == c && mid.handlers@[i].tag@ == t);
                        }
                    }
                    assert(mid.has_handler(cv, tv)) by {
                        assert(mid.handlers@[k as int] == mid.handlers@[k as int]);
                    }
                    assert forall|c: Seq<char>, t: Seq<char>|
                        self.has_handler(c, t) == (mid.has_handler(c, t) || (c == cv && t
                            == tv)) by {}
                    self.lemma_callbacks_after_write(mid, k as int, cv, tv, callback);
                }
            },
            None => {
                self.handlers.push(Handler { channel, tag, callback });
                proof {
                    let last = self.handlers@.len() - 1;
                    assert forall|i: int, j: int|
                        0 <= i < j < self.handlers@.len() implies !(
                        #[trigger] self.handlers@[i].channel@ == #[trigger] self.handlers@[j].channel@
                            && self.handlers@[i].tag@ == self.handlers@[j].tag@) by {
                        assert(mid.handlers@[i] == self.handlers@[i]);
                        if j < last {
                            assert(mid.handlers@[j] == self.handlers@[j]);
                        }
                    }
                    assert forall|i: int| 0 <= i < self.handlers@.len() implies self.has_channel(
                        #[trigger] self.handlers@[i].channel@,
                    ) by {
                        let x = self.handlers@[i].channel@;
                        if i < last {
                            assert(mid.handlers@[i] == self.handlers@[i]);
                        }
                        assert(mid.has_channel(x));
                        let j = choose|j: int|
                            0 <= j < mid.channels@.len() && #[trigger] mid.channels@[j]@ == x;
                        assert(self.channels@[j] == mid.channels@[j]);
                    }
                    assert(self.wf());
                    assert forall|c: Seq<char>, t: Seq<char>|
                        self.has_handler(c, t) == (mid.has_handler(c, t) || (c == cv && t
                            == tv)) by {
                        if mid.has_handler(c, t) {
                            let i = choose|i: int|
                                #![trigger mid.handlers@[i]]
                                0 <= i < mid.handlers@.len() && mid.handlers@[i].channel@ == c
                                    && mid.handlers@[i].tag@ == t;
                            assert(self.handlers@[i] == mid.handlers@[i]);
                            assert(self.handlers@[i].channel@ == c && self.handlers@[i].tag@ == t);
                        }
                        if c == cv && t == tv {
                            assert(self.handlers@[last].channel@ == c);
                            assert(self.handlers@[last].tag@ == t);
                        }
                        if self.has_handler(c, t) && !(c == cv && t == tv) {
                            let i = choose|i: int|
                                #![trigger self.handlers@[i]]
                                0 <= i < self.handlers@.len() && self.handlers@[i].channel@ == c
                                    && self.handlers@[i].tag@ == t;
                            assert(i < last);
                            assert(mid.handlers@[i] == self.handlers@[i]);
                        }
                    }
                    self.lemma_callbacks_after_write(mid, last, cv, tv, callback);
                }
            },
        }
        proof {
            assert forall|c: Seq<char>| #[trigger] self.has_channel(c) == mid.has_channel(c) by {
                if self.has_channel(c) {
                    let j = choose|j: int|
                        0 <= j < self.channels@.len() && #[trigger] self.channels@[j]@ == c;
                    assert(mid.channels@[j] == self.channels@[j]);
                }
                if mid.has_channel(c) {
                    let j = choose|j: int|
                        0 <= j < mid.channels@.len() && #[trigger] mid.channels@[j]@ == c;
                    assert(mid.channels@[j] == self.channels@[j]);
                }
            }
            assert(self@ =~= old_reg@.insert(
                cv,
                callbacks_on(old_reg@, cv).insert(tv, callback),
            ));
        }
    }

    /// Unregisters the callback on `channel` under `tag`. The channel stays
    /// known; an unknown channel or tag leaves the registry unchanged.
    pub fn remove(&mut self, channel: &String, tag: &String)
        requires
            old(self).wf(),
        ensures
            final(self).wf(),
            final(self)@ == (if old(self)@.dom().contains(channel@) {
                old(self)@.insert(channel@, old(self)@[channel@].remove(tag@))
            } else {
                old(self)@
            }),
    {
        let ghost old_reg = *self;
        let ghost cv = channel@;
        let ghost tv = tag@;
        match self.find_handler(channel, tag) {
            Some(k) => {
                self.handlers.remove(k);
                proof {
                    assert(old_reg.has_channel(old_reg.handlers@[k as int].channel@));
                    assert forall|i: int, j: int|
                        0 <= i < j < self.handlers@.len() implies !(
                        #[trigger] self.handlers@[i].channel@ == #[trigger] self.handlers@[j].channel@
                            && self.handlers@[i].tag@ == self.handlers@[j].tag@) by {
                        let oi = if i < k { i } else { i + 1 };
                        let oj = if j < k { j } else { j + 1 };
                        assert(self.handlers@[i] == old_reg.handlers@[oi]);
                        assert(self.handlers@[j] == old_reg.handlers@[oj]);
                    }
                    assert forall|i: int| 0 <= i < self.handlers@.len() implies self.has_channel(
                        #[trigger] self.handlers@[i].channel@,
                    ) by {
                        let oi = if i < k { i } else { i + 1 };
                        assert(self.handlers@[i] == old_reg.handlers@[oi]);
                        let x = self.handlers@[i].channel@;
                        assert(old_reg.has_channel(x));
                        let j = choose|j: int|
                            0 <= j < old_reg.channels@.len() && #[trigger] old_reg.channels@[j]@
                                == x;
                        assert(self.channels@[j] == old_reg.channels@[j]);
                    }
                    assert(self.wf());
                    assert forall|c: Seq<char>, t: Seq<char>|
                        self.has_handler(c, t) == (old_reg.has_handler(c, t) && !(c == cv && t
                            == tv)) by {
                        if old_reg.has_handler(c, t) && !(c == cv && t == tv) {
                            let oi = choose|i: int|
                                #![trigger old_reg.handlers@[i]]
                                0 <= i < old_reg.handlers@.len() && old_reg.handlers@[i].channel@
                                    == c && old_reg.handlers@[i].tag@ == t;
                            assert(oi != k);
                            let i = if oi < k { oi } else { oi - 1 };
                            assert(self.handlers@[i] == old_reg.handlers@[oi]);
                        }
                        if self.has_handler(c, t) {
                            let i = choose|i: int|
                                #![trigger self.handlers@[i]]
                                0 <= i < self.handlers@.len() && self.handlers@[i].channel@ == c
                                    && self.handlers@[i].tag@ == t;
                            let oi = if i < k { i } else { i + 1 };
                            assert(self.handlers@[i] == old_reg.handlers@[oi]);
                            assert(old_reg.handlers@[oi].channel@ == c);
                            if c == cv && t == tv {
                                assert(old_reg.handlers@[k as int] == old_reg.handlers@[k as int]);
                            }
                        }
                    }
                    assert forall|c: Seq<char>|
                        #[trigger] self.callbacks_of(c) == (if c == cv {
                            old_reg.callbacks_of(c).remove(tv)
                        } else {
                            old_reg.callbacks_of(c)
                        }) by {
                        assert forall|t: Seq<char>| #[trigger]
                            self.callbacks_of(c).dom().contains(t) implies self.callbacks_of(c)[t]
                            == old_reg.callbacks_of(c)[t] by {
                            let i = choose|i: int|
                                #![trigger self.handlers@[i]]
                                0 <= i < self.handlers@.len() && self.handlers@[i].channel@ == c
                                    && self.handlers@[i].tag@ == t;
                            let oi = if i < k { i } else { i + 1 };
                            assert(self.handlers@[i] == old_reg.handlers@[oi]);
                            self.lemma_handler_index(i);
                            old_reg.lemma_handler_index(oi);
                        }
                        if c == cv {
                            assert(self.callbacks_of(c) =~= old_reg.callbacks_of(c).remove(tv));
                        } else {
                            assert(self.callbacks_of(c) =~= old_reg.callbacks_of(c));
                        }
                    }
                    assert forall|c: Seq<char>| #[trigger]
                        self.has_channel(c) == old_reg.has_channel(c) by {
                        if self.has_channel(c) {
                            let j = choose|j: int|
                                0 <= j < self.channels@.len() && #[trigger] self.channels@[j]@
                                    == c;
                            assert(old_reg.channels@[j] == self.channels@[j]);
                        }
                        if old_reg.has_channel(c) {
                            let j = choose|j: int|
                                0 <= j < old_reg.channels@.len() && #[trigger] old_reg.channels@[j]@
                                    == c;
                            assert(old_reg.channels@[j] == self.channels@[j]);
                        }
                    }
                    assert(self@ =~= old_reg@.insert(cv, old_reg@[cv].remove(tv)));
                }
            },
            None => {
                proof {
                    if old_reg@.dom().contains(cv) {
                        assert(old_reg@[cv].remove(tv) =~= old_reg@[cv]);
                        assert(old_reg@.insert(cv, old_reg@[cv]) =~= old_reg@);
                    }
                }
            },
        }
    }

    /// The callbacks registered on `channel`, each with its tag, in the order
    /// in which their tags were first registered.
    pub fn handlers_for(&self, channel: &String) -> (r: Vec<(String, F)>) where F: Copy
        requires
            self.wf(),
        ensures
            lists_callbacks(callbacks_on(self@, channel@), r@),
    {
        let mut r: Vec<(String, F)> = Vec::new();
        let ghost mut src: Seq<int> = Seq::empty();
        let mut i: usize = 0;
        while i < self.handlers.len()
            invariant
                self.wf(),
                i <= self.handlers@.len(),
                src.len() == r@.len(),
                forall|a: int|
                    #![trigger src[a]]
                    0 <= a < src.len() ==> 0 <= src[a] < i && self.handlers@[src[a]].channel@
                        == channel@ && r@[a].0@ == self.handlers@[src[a]].tag@ && r@[a].1
                        == self.handlers@[src[a]].callback,
                forall|a: int, b: int|
                    #![trigger src[a], src[b]]
                    0 <= a < b < src.len() ==> src[a] < src[b],
                forall|idx: int|
                    #![trigger self.handlers@[idx]]
                    0 <= idx < i && self.handlers@[idx].channel@ == channel@ ==> exists|a: int|
                        0 <= a < src.len() && #[trigger] src[a] == idx,
            decreases self.handlers@.len() - i,
        {
            if self.handlers[i].channel == *channel {
                let entry = (self.handlers[i].tag.clone(), self.handlers[i].callback);
                r.push(entry);
                proof {
                    let old_src = src;
                    src = src.push(i as int);
                    assert forall|idx: int|
                        #![trigger self.handlers@[idx]]
                        0 <= idx < i + 1 && self.handlers@[idx].channel@ == channel@ implies exists|
                        a: int,
                    |
                        0 <= a < src.len() && #[trigger] src[a] == idx by {
                        if idx < i {
                            let a = choose|a: int| 0 <= a < old_src.len() && #[trigger] old_src[a] == idx;
                            assert(src[a] == old_src[a]);
                        } else {
                            assert(src[src.len() - 1] == idx);
                        }
                    }
                }
            }
            i = i + 1;
        }
        proof {
            self.lemma_callbacks_on(channel@);
            let m = self.callbacks_of(channel@);
            assert forall|a: int| #![trigger r@[a]] 0 <= a < r@.len() implies m.dom().contains(
                r@[a].0@,
            ) && m[r@[a].0@] == r@[a].1 by {
                assert(0 <= src[a]);
                self.lemma_handler_index(src[a]);
            }
            assert forall|a: int, b: int|
                #![trigger r@[a], r@[b]]
                0 <= a < b < r@.len() implies r@[a].0@ != r@[b].0@ by {
                assert(src[a] < src[b]);
                assert(self.handlers@[src[a]] == self.handlers@[src[a]]);
                assert(self.handlers@[src[b]] == self.handlers@[src[b]]);
            }
            assert forall|t: Seq<char>| #[trigger] m.dom().contains(t) implies exists|a: int|
                0 <= a < r@.len() && #[trigger] r@[a].0@ == t by {
                let idx = choose|idx: int|
                    #![trigger self.handlers@[idx]]
                    0 <= idx < self.handlers@.len() && self.handlers@[idx].channel@ == channel@
                        && self.handlers@[idx].tag@ == t;
                let a = choose|a: int| 0 <= a < src.len() && #[trigger] src[a] == idx;
                assert(r@[a].0@ == t);
            }
        }
        r
    }
}

} // verus!
