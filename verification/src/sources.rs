//! The registry of sources to poll, keyed by values of the caller's choice.

use crate::interest::{Events, Interest};
use crate::source::{lemma_set_then_unset_restores, lemma_source_ext, RawFd, Source};
use vstd::prelude::*;
use vstd::std_specs::cmp::PartialEqSpec;

verus! {

/// An I/O ready event.
#[derive(Debug)]
pub struct Event<K> {
    /// The event key.
    pub key: K,
    /// The source of the event.
    pub source: Source,
}

impl<K> std::ops::Deref for Event<K> {
    type Target = Source;

    fn deref(&self) -> (source: &Source)
        ensures
            *source == self.source,
    {
        &self.source
    }
}

/// `keys[i]` compares equal to `key` (by `keys[i] == key`).
pub open spec fn matches_at<K: PartialEq>(keys: Seq<K>, key: K, i: int) -> bool {
    0 <= i < keys.len() && keys[i].eq_spec(&key)
}

/// `i` is the first position of `keys` that compares equal to `key`.
pub open spec fn is_first_match<K: PartialEq>(keys: Seq<K>, key: K, i: int) -> bool {
    &&& matches_at(keys, key, i)
    &&& forall|j: int| 0 <= j < i ==> !#[trigger] matches_at(keys, key, j)
}

/// The first position of `keys` that compares equal to `key`, if any.
pub open spec fn first_match<K: PartialEq>(keys: Seq<K>, key: K) -> Option<int> {
    if exists|i: int| is_first_match(keys, key, i) {
        Some(choose|i: int| is_first_match(keys, key, i))
    } else {
        None
    }
}

/// The source registered under the first key equal to `key`, if any.
pub open spec fn lookup<K: PartialEq>(keys: Seq<K>, list: Seq<Source>, key: K) -> Option<Source> {
    match first_match(keys, key) {
        Some(i) => Some(list[i]),
        None => None,
    }
}

/// `new` is `old` with its element at `i` replaced by the last one, and the
/// last one dropped (what `Vec::swap_remove` does).
pub open spec fn swap_removed<T>(old: Seq<T>, new: Seq<T>, i: int) -> bool {
    &&& 0 <= i < old.len()
    &&& new == old.update(i, old.last()).drop_last()
}

/// `new` is `old` with the source at `i`, and only it, also polled for `events`.
pub open spec fn interest_added(old: Seq<Source>, new: Seq<Source>, i: int, events: Interest) -> bool {
    &&& 0 <= i < old.len()
    &&& new.len() == old.len()
    &&& forall|j: int| 0 <= j < old.len() && j != i ==> new[j] == old[j]
    &&& new[i].spec_fd() == old[i].spec_fd()
    &&& new[i].spec_revents() == old[i].spec_revents()
    &&& new[i].spec_events() == old[i].spec_events() | events
}

/// `new` is `old` with the source at `i`, and only it, no longer polled for `events`.
pub open spec fn interest_removed(old: Seq<Source>, new: Seq<Source>, i: int, events: Interest) -> bool {
    &&& 0 <= i < old.len()
    &&& new.len() == old.len()
    &&& forall|j: int| 0 <= j < old.len() && j != i ==> new[j] == old[j]
    &&& new[i].spec_fd() == old[i].spec_fd()
    &&& new[i].spec_revents() == old[i].spec_revents()
    &&& new[i].spec_events() == old[i].spec_events() & !events
}

/// There is at most one first match, so `first_match` names it.
pub proof fn lemma_first_match_is<K: PartialEq>(keys: Seq<K>, key: K, i: int)
    requires
        is_first_match(keys, key, i),
    ensures
        first_match(keys, key) == Some(i),
{
    let c = choose|c: int| is_first_match(keys, key, c);
    assert(is_first_match(keys, key, c));
    if c < i {
        assert(!matches_at(keys, key, c));
    } else if i < c {
        assert(!matches_at(keys, key, i));
    }
}

/// With no position that matches, `first_match` is `None`.
pub proof fn lemma_first_match_none<K: PartialEq>(keys: Seq<K>, key: K)
    requires
        forall|j: int| !#[trigger] matches_at(keys, key, j),
    ensures
        first_match(keys, key) is None,
{
    if exists|i: int| is_first_match(keys, key, i) {
        let c = choose|c: int| is_first_match(keys, key, c);
        assert(matches_at(keys, key, c));
    }
}

/// The positions, in increasing order, among the first `n` of `list`, of
/// the sources on which some event fired.
pub open spec fn ready_prefix(list: Seq<Source>, n: nat) -> Seq<int>
    decreases n,
{
    if n == 0 {
        Seq::empty()
    } else {
        let before = ready_prefix(list, (n - 1) as nat);
        if list[n - 1].spec_revents() != 0 {
            before.push(n - 1)
        } else {
            before
        }
    }
}

/// The positions, in increasing order, of the sources of `list` on which
/// some event fired.
pub open spec fn ready_indices(list: Seq<Source>) -> Seq<int> {
    ready_prefix(list, list.len())
}

/// If some position of `keys` matches `key`, a first one does, and it is
/// at or before that position.
pub proof fn lemma_first_match_exists<K: PartialEq>(keys: Seq<K>, key: K, i: int)
    requires
        matches_at(keys, key, i),
    ensures
        first_match(keys, key) matches Some(f) && f <= i && is_first_match(keys, key, f),
    decreases i,
{
    if exists|j: int| 0 <= j < i && #[trigger] matches_at(keys, key, j) {
        let j = choose|j: int| 0 <= j < i && #[trigger] matches_at(keys, key, j);
        lemma_first_match_exists(keys, key, j);
    } else {
        lemma_first_match_is(keys, key, i);
    }
}

/// `first_match` is `None` exactly when no position matches.
pub proof fn lemma_first_match_none_iff<K: PartialEq>(keys: Seq<K>, key: K)
    ensures
        first_match(keys, key) is None <==> forall|j: int| !#[trigger] matches_at(keys, key, j),
{
    if exists|j: int| matches_at(keys, key, j) {
        let j = choose|j: int| matches_at(keys, key, j);
        lemma_first_match_exists(keys, key, j);
    } else {
        lemma_first_match_none(keys, key);
    }
}

/// A source registered under a key that no registered key equals is the
/// one that lookups by that key find afterwards (for a key that equals
/// itself).
pub proof fn lemma_register_then_lookup<K: PartialEq>(keys: Seq<K>, list: Seq<Source>, key: K, source: Source)
    requires
        keys.len() == list.len(),
        key.eq_spec(&key),
        lookup(keys, list, key) is None,
    ensures
        first_match(keys.push(key), key) == Some(keys.len() as int),
        lookup(keys.push(key), list.push(source), key) == Some(source),
{
    lemma_first_match_none_iff(keys, key);
    let k2 = keys.push(key);
    assert forall|j: int| 0 <= j < keys.len() implies !#[trigger] matches_at(k2, key, j) by {
        assert(!matches_at(keys, key, j));
    }
    assert(is_first_match(k2, key, keys.len() as int));
    lemma_first_match_is(k2, key, keys.len() as int);
}

/// Registering a second source under a key already registered does not
/// change what lookups by that key find: the first one shadows it.
pub proof fn lemma_register_keeps_first<K: PartialEq>(keys: Seq<K>, list: Seq<Source>, key: K, new_key: K, source: Source)
    requires
        keys.len() == list.len(),
        first_match(keys, key) is Some,
    ensures
        first_match(keys.push(new_key), key) == first_match(keys, key),
        lookup(keys.push(new_key), list.push(source), key) == lookup(keys, list, key),
{
    let f = first_match(keys, key).unwrap();
    lemma_first_match_none_iff(keys, key);
    let j = choose|j: int| matches_at(keys, key, j);
    lemma_first_match_exists(keys, key, j);
    let k2 = keys.push(new_key);
    assert(is_first_match(k2, key, f)) by {
        assert forall|i: int| 0 <= i < f implies !#[trigger] matches_at(k2, key, i) by {
            assert(!matches_at(keys, key, i));
        }
    }
    lemma_first_match_is(k2, key, f);
}

/// The entry at position `j` of `keys` and `list` is, with the same key
/// and source, somewhere in `new_keys` and `new_list`.
pub open spec fn stays_registered<K>(keys: Seq<K>, list: Seq<Source>, new_keys: Seq<K>, new_list: Seq<Source>, j: int) -> bool {
    exists|n: int| 0 <= n < new_keys.len() && new_keys[n] == keys[j] && new_list[n] == list[j]
}

/// Unregistering a key that only one source is registered under leaves no
/// source registered under it, and every other source stays registered
/// under its key.
pub proof fn lemma_unregister_forgets<K: PartialEq>(keys: Seq<K>, list: Seq<Source>, new_keys: Seq<K>, new_list: Seq<Source>, key: K, i: int)
    requires
        keys.len() == list.len(),
        first_match(keys, key) == Some(i),
        forall|j: int| 0 <= j < keys.len() && j != i ==> !#[trigger] matches_at(keys, key, j),
        swap_removed(keys, new_keys, i),
        swap_removed(list, new_list, i),
    ensures
        first_match(new_keys, key) is None,
        lookup(new_keys, new_list, key) is None,
        new_keys.len() == keys.len() - 1,
        forall|j: int| 0 <= j < keys.len() && j != i
            ==> #[trigger] stays_registered(keys, list, new_keys, new_list, j),
{
    assert forall|j: int| !#[trigger] matches_at(new_keys, key, j) by {
        if 0 <= j < new_keys.len() {
            if j == i {
                assert(new_keys[j] == keys[keys.len() - 1]);
                assert(!matches_at(keys, key, keys.len() - 1));
            } else {
                assert(new_keys[j] == keys[j]);
                assert(!matches_at(keys, key, j));
            }
        }
    }
    lemma_first_match_none(new_keys, key);
    assert forall|j: int| 0 <= j < keys.len() && j != i
        implies #[trigger] stays_registered(keys, list, new_keys, new_list, j) by {
        let n = if j == keys.len() - 1 { i } else { j };
        assert(0 <= n < new_keys.len() && new_keys[n] == keys[j] && new_list[n] == list[j]);
    }
}

/// The ready positions are exactly the positions of the sources on which
/// some event fired, each once, in increasing order.
pub proof fn lemma_ready_prefix(list: Seq<Source>, n: nat)
    requires
        n <= list.len(),
    ensures
        forall|k: int| 0 <= k < ready_prefix(list, n).len() ==> {
            let i = #[trigger] ready_prefix(list, n)[k];
            0 <= i < n && list[i].spec_revents() != 0
        },
        forall|k: int, l: int| 0 <= k < l < ready_prefix(list, n).len()
            ==> #[trigger] ready_prefix(list, n)[k] < #[trigger] ready_prefix(list, n)[l],
        forall|i: int| 0 <= i < n && (#[trigger] list[i]).spec_revents() != 0
            ==> ready_prefix(list, n).contains(i),
    decreases n,
{
    if n > 0 {
        lemma_ready_prefix(list, (n - 1) as nat);
        let before = ready_prefix(list, (n - 1) as nat);
        if list[n - 1].spec_revents() != 0 {
            assert(ready_prefix(list, n) == before.push(n - 1));
            assert forall|i: int| 0 <= i < n && (#[trigger] list[i]).spec_revents() != 0
                implies ready_prefix(list, n).contains(i) by {
                if i == n - 1 {
                    assert(ready_prefix(list, n)[before.len() as int] == i);
                } else {
                    let k = choose|k: int| 0 <= k < before.len() && before[k] == i;
                    assert(ready_prefix(list, n)[k] == i);
                }
            }
        }
    }
}

/// The events of a poll are reported for exactly the sources on which
/// some event fired, each once, in the order of the registry; with no
/// event fired on any source, none is reported.
pub proof fn lemma_ready_indices(list: Seq<Source>)
    ensures
        forall|k: int| 0 <= k < ready_indices(list).len() ==> {
            let i = #[trigger] ready_indices(list)[k];
            0 <= i < list.len() && list[i].spec_revents() != 0
        },
        forall|k: int, l: int| 0 <= k < l < ready_indices(list).len()
            ==> #[trigger] ready_indices(list)[k] < #[trigger] ready_indices(list)[l],
        forall|i: int| 0 <= i < list.len() && (#[trigger] list[i]).spec_revents() != 0
            ==> ready_indices(list).contains(i),
        (forall|i: int| 0 <= i < list.len() ==> (#[trigger] list[i]).spec_revents() == 0)
            ==> ready_indices(list).len() == 0,
{
    lemma_ready_prefix(list, list.len());
    if ready_indices(list).len() > 0 {
        let i = ready_indices(list)[0];
        assert(list[i].spec_revents() != 0);
    }
}

/// After the only source registered under `key` is unregistered, no event
/// of a poll carries that key: every reported event comes from a source
/// whose key does not equal it.
pub proof fn lemma_unregistered_key_not_reported<K: PartialEq>(keys: Seq<K>, list: Seq<Source>, key: K)
    requires
        keys.len() == list.len(),
        first_match(keys, key) is None,
    ensures
        forall|j: int| 0 <= j < ready_indices(list).len() ==> {
            let i = #[trigger] ready_indices(list)[j];
            0 <= i < keys.len() && !keys[i].eq_spec(&key)
        },
{
    lemma_first_match_none_iff(keys, key);
    lemma_ready_indices(list);
    assert forall|j: int| 0 <= j < ready_indices(list).len() implies {
        let i = #[trigger] ready_indices(list)[j];
        0 <= i < keys.len() && !keys[i].eq_spec(&key)
    } by {
        let i = ready_indices(list)[j];
        assert(!matches_at(keys, key, i));
    }
}

/// Adding the same interest to the same position twice gives one result:
/// the one interest added to a list of sources at a position determines the
/// list.
pub proof fn lemma_interest_added_unique(l0: Seq<Source>, la: Seq<Source>, lb: Seq<Source>, i: int, events: Interest)
    requires
        interest_added(l0, la, i, events),
        interest_added(l0, lb, i, events),
    ensures
        la == lb,
{
    lemma_source_ext(la[i], lb[i]);
    assert(la =~= lb);
}

/// Setting the events `e1` and then `e2` on the same source is setting
/// `e1 | e2` on it once; setting the same events twice is setting them once.
pub proof fn lemma_set_twice(l0: Seq<Source>, l1: Seq<Source>, l2: Seq<Source>, i: int, e1: Interest, e2: Interest)
    requires
        interest_added(l0, l1, i, e1),
        interest_added(l1, l2, i, e2),
    ensures
        interest_added(l0, l2, i, e1 | e2),
        forall|l3: Seq<Source>| #[trigger] interest_added(l0, l3, i, e1 | e2) ==> l3 == l2,
        e1 == e2 ==> l2 == l1,
{
    let a = l0[i].spec_events();
    assert((a | e1) | e2 == a | (e1 | e2)) by (bit_vector);
    assert(interest_added(l0, l2, i, e1 | e2));
    assert forall|l3: Seq<Source>| #[trigger] interest_added(l0, l3, i, e1 | e2) implies l3 == l2 by {
        lemma_interest_added_unique(l0, l3, l2, i, e1 | e2);
    }
    if e1 == e2 {
        assert((a | e1) | e1 == a | e1) by (bit_vector);
        lemma_source_ext(l2[i], l1[i]);
        assert(l2 =~= l1);
    }
}

/// Unsetting events on a source right after setting them, where it was
/// polled for none of them, gives back the sources as they were.
pub proof fn lemma_unset_undoes_set_at(l0: Seq<Source>, l1: Seq<Source>, l2: Seq<Source>, i: int, events: Interest)
    requires
        l0[i].spec_events() & events == 0,
        interest_added(l0, l1, i, events),
        interest_removed(l1, l2, i, events),
    ensures
        l2 == l0,
{
    lemma_set_then_unset_restores(l0[i].spec_events(), events);
    lemma_source_ext(l2[i], l0[i]);
    assert(l2 =~= l0);
}

/// Registering a source under a key that equals `key`, where no registered
/// key did, and then unregistering `key` gives back the registry as it was:
/// the same keys and sources in the same order.
pub proof fn lemma_unregister_undoes_register<K: PartialEq>(keys: Seq<K>, list: Seq<Source>, key: K, new_key: K, source: Source)
    requires
        keys.len() == list.len(),
        new_key.eq_spec(&key),
        first_match(keys, key) is None,
    ensures
        first_match(keys.push(new_key), key) == Some(keys.len() as int),
        swap_removed(keys.push(new_key), keys, keys.len() as int),
        swap_removed(list.push(source), list, list.len() as int),
{
    lemma_first_match_none_iff(keys, key);
    let k2 = keys.push(new_key);
    assert forall|j: int| 0 <= j < keys.len() implies !#[trigger] matches_at(k2, key, j) by {
        assert(!matches_at(keys, key, j));
    }
    assert(is_first_match(k2, key, keys.len() as int));
    lemma_first_match_is(k2, key, keys.len() as int);
    assert(k2.update(keys.len() as int, k2.last()).drop_last() =~= keys);
    let l2 = list.push(source);
    assert(l2.update(list.len() as int, l2.last()).drop_last() =~= list);
}

/// Keeps track of sources to poll.
#[derive(Debug, Clone)]
pub struct Sources<K> {
    /// Tracks the keys assigned to each source.
    index: Vec<K>,
    /// List of sources passed to `poll`.
    list: Vec<Source>,
}

impl<K> Sources<K> {
    /// The keys of the registered sources, in registration order (up to
    /// the reordering that `unregister` makes).
    pub closed spec fn keys(&self) -> Seq<K> {
        self.index@
    }

    /// The registered sources, position by position with [`Self::keys`].
    pub closed spec fn list(&self) -> Seq<Source> {
        self.list@
    }

    /// Keys and sources are kept side by side.
    pub closed spec fn wf(&self) -> bool {
        self.index@.len() == self.list@.len()
    }

    /// Creates a new set of sources to poll.
    pub fn new() -> (s: Self)
        ensures
            s.wf(),
            s.keys() == Seq::<K>::empty(),
            s.list() == Seq::<Source>::empty(),
    {
        Self { index: Vec::new(), list: Vec::new() }
    }

    /// Creates a new set of sources to poll, with the given capacity.
    /// Use this if you have a lot of sources to poll.
    pub fn with_capacity(cap: usize) -> (s: Self)
        ensures
            s.wf(),
            s.keys() == Seq::<K>::empty(),
            s.list() == Seq::<Source>::empty(),
    {
        Self { index: Vec::with_capacity(cap), list: Vec::with_capacity(cap) }
    }

    /// Return the number of registered sources.
    pub fn len(&self) -> (n: usize)
        requires
            self.wf(),
        ensures
            n == self.list().len(),
            n == self.keys().len(),
    {
        self.list.len()
    }

    /// Return whether the source registry is empty.
    pub fn is_empty(&self) -> (b: bool)
        requires
            self.wf(),
        ensures
            b <==> self.list().len() == 0,
            b <==> self.keys().len() == 0,
    {
        self.list.is_empty()
    }
}

impl<K: Clone + PartialEq> Sources<K> {
    /// A registry holding `entries` in order, each registered as by
    /// [`Self::register`].
    pub fn from_iter(entries: Vec<(K, RawFd, Interest)>) -> (s: Self)
        ensures
            s.wf(),
            s.keys() == entries@.map_values(|e: (K, RawFd, Interest)| e.0),
            s.list().len() == entries@.len(),
            forall|i: int| 0 <= i < entries@.len() ==> {
                &&& (#[trigger] s.list()[i]).spec_fd() == entries@[i].1
                &&& s.list()[i].spec_events() == entries@[i].2
                &&& s.list()[i].spec_revents() == 0
            },
    {
        let ghost all = entries@;
        let mut sources = Sources::new();
        for entry in it: entries.into_iter()
            invariant
                all == it.seq(),
                sources.wf(),
                sources.keys() == all.take(it.index() as int).map_values(|e: (K, RawFd, Interest)| e.0),
                sources.list().len() == it.index(),
                forall|i: int| 0 <= i < it.index() ==> {
                    &&& (#[trigger] sources.list()[i]).spec_fd() == all[i].1
                    &&& sources.list()[i].spec_events() == all[i].2
                    &&& sources.list()[i].spec_revents() == 0
                },
        {
            let ghost before = sources.list();
            let (key, fd, events) = entry;
            sources.register(key, fd, events);
            assert forall|i: int| 0 <= i < before.len() implies #[trigger] sources.list()[i] == before[i] by {
                assert(sources.list().drop_last()[i] == before[i]);
            }
        }
        sources
    }

    /// The position of the first registered key equal to `key`.
    fn find(&self, key: &K) -> (r: Option<usize>)
        requires
            self.wf(),
        ensures
            r matches Some(i) ==> i < self.list().len(),
            K::obeys_eq_spec() ==> match r {
                Some(i) => first_match(self.keys(), *key) == Some(i as int),
                None => first_match(self.keys(), *key) is None,
            },
    {
        let mut i: usize = 0;
        while i < self.index.len()
            invariant
                self.wf(),
                i <= self.index@.len(),
                K::obeys_eq_spec() ==> forall|j: int| 0 <= j < i ==> !#[trigger] matches_at(self.keys(), *key, j),
            decreases self.index@.len() - i,
        {
            if self.index[i] == *key {
                proof {
                    if K::obeys_eq_spec() {
                        lemma_first_match_is(self.keys(), *key, i as int);
                    }
                }
                return Some(i);
            }
            i = i + 1;
        }
        None
    }

    fn insert(&mut self, key: K, source: Source)
        requires
            old(self).wf(),
        ensures
            final(self).wf(),
            final(self).keys() == old(self).keys().push(key),
            final(self).list() == old(self).list().push(source),
    {
        self.index.push(key);
        self.list.push(source);
    }

    /// Register a new source, with the given key, and wait for the specified events.
    ///
    /// Care must be taken not to register the same source twice, or use the same key
    /// for two different sources.
    pub fn register(&mut self, key: K, fd: RawFd, events: Interest)
        requires
            old(self).wf(),
        ensures
            final(self).wf(),
            final(self).keys() == old(self).keys().push(key),
            final(self).list().len() == old(self).list().len() + 1,
            final(self).list().drop_last() == old(self).list(),
            final(self).list().last().spec_fd() == fd,
            final(self).list().last().spec_events() == events,
            final(self).list().last().spec_revents() == 0,
    {
        let source = Source::new(fd, events);
        self.insert(key, source);
        assert(self.list@.drop_last() =~= old(self).list@);
    }

    /// Unregister a  source, given its key.
    pub fn unregister(&mut self, key: &K)
        requires
            old(self).wf(),
        ensures
            final(self).wf(),
            K::obeys_eq_spec() ==> match first_match(old(self).keys(), *key) {
                Some(i) => swap_removed(old(self).keys(), final(self).keys(), i)
                    && swap_removed(old(self).list(), final(self).list(), i),
                None => final(self).keys() == old(self).keys() && final(self).list() == old(self).list(),
            },
            (final(self).keys() == old(self).keys() && final(self).list() == old(self).list())
                || exists|i: int| swap_removed(old(self).keys(), final(self).keys(), i)
                    && swap_removed(old(self).list(), final(self).list(), i),
    {
        if let Some(ix) = self.find(key) {
            self.index.swap_remove(ix);
            self.list.swap_remove(ix);
            assert(swap_removed(old(self).keys(), self.keys(), ix as int));
            assert(swap_removed(old(self).list(), self.list(), ix as int));
        }
    }

    /// Set the events to poll for on a source identified by its key.
    pub fn set(&mut self, key: &K, events: Interest) -> (found: bool)
        requires
            old(self).wf(),
        ensures
            final(self).wf(),
            final(self).keys() == old(self).keys(),
            K::obeys_eq_spec() ==> match first_match(old(self).keys(), *key) {
                Some(i) => found && interest_added(old(self).list(), final(self).list(), i, events),
                None => !found && final(self).list() == old(self).list(),
            },
            !found ==> final(self).list() == old(self).list(),
            found ==> exists|i: int| interest_added(old(self).list(), final(self).list(), i, events),
    {
        if let Some(ix) = self.find(key) {
            let mut source = self.list[ix];
            source.set(events);
            self.list.set(ix, source);
            assert(interest_added(old(self).list(), self.list(), ix as int, events));
            return true;
        }
        false
    }

    /// Unset event interests on a source.
    pub fn unset(&mut self, key: &K, events: Interest) -> (found: bool)
        requires
            old(self).wf(),
        ensures
            final(self).wf(),
            final(self).keys() == old(self).keys(),
            K::obeys_eq_spec() ==> match first_match(old(self).keys(), *key) {
                Some(i) => found && interest_removed(old(self).list(), final(self).list(), i, events),
                None => !found && final(self).list() == old(self).list(),
            },
            !found ==> final(self).list() == old(self).list(),
            found ==> exists|i: int| interest_removed(old(self).list(), final(self).list(), i, events),
    {
        if let Some(ix) = self.find(key) {
            let mut source = self.list[ix];
            source.unset(events);
            self.list.set(ix, source);
            assert(interest_removed(old(self).list(), self.list(), ix as int, events));
            return true;
        }
        false
    }

    /// Get a source by key.
    pub fn get(&mut self, key: &K) -> (r: Option<&Source>)
        requires
            old(self).wf(),
        ensures
            *final(self) == *old(self),
            K::obeys_eq_spec() ==> match r {
                Some(s) => lookup(old(self).keys(), old(self).list(), *key) == Some(*s),
                None => lookup(old(self).keys(), old(self).list(), *key) is None,
            },
            r matches Some(s) ==> old(self).list().contains(*s),
    {
        match self.find(key) {
            Some(ix) => {
                Some(&self.list[ix])
            },
            None => {
                None
            },
        }
    }
    /// Get a source by key, mutably.
    pub fn get_mut(&mut self, key: &K) -> (r: Option<&mut Source>)
        requires
            old(self).wf(),
        ensures
            final(self).wf(),
            final(self).keys() == old(self).keys(),
            match r {
                Some(s) => exists|i: int| 0 <= i < old(self).list().len()
                    && *s == old(self).list()[i]
                    && final(self).list() == old(self).list().update(i, *final(s))
                    && (K::obeys_eq_spec() ==> first_match(old(self).keys(), *key) == Some(i)),
                None => *final(self) == *old(self)
                    && (K::obeys_eq_spec() ==> first_match(old(self).keys(), *key) is None),
            },
    {
        match self.find(key) {
            Some(ix) => {
                Some(&mut self.list[ix])
            },
            None => {
                None
            },
        }
    }
    /// The descriptors and interests to hand to `poll(2)`, in the order of
    /// the registry.
    pub fn poll_fds(&self) -> (fds: Vec<(RawFd, Interest)>)
        requires
            self.wf(),
        ensures
            fds@.len() == self.list().len(),
            forall|i: int| 0 <= i < fds@.len() ==> #[trigger] fds@[i] == (
                self.list()[i].spec_fd(),
                self.list()[i].spec_events(),
            ),
    {
        let mut fds: Vec<(RawFd, Interest)> = Vec::with_capacity(self.list.len());
        let mut i: usize = 0;
        while i < self.list.len()
            invariant
                i <= self.list@.len(),
                fds@.len() == i,
                forall|j: int| 0 <= j < i ==> #[trigger] fds@[j] == (
                    self.list@[j].spec_fd(),
                    self.list@[j].spec_events(),
                ),
            decreases self.list@.len() - i,
        {
            let source = &self.list[i];
            fds.push((source.as_raw_fd(), source.interest()));
            i = i + 1;
        }
        fds
    }

    /// Records the events that `poll(2)` returned, one per source, in the
    /// order of [`Self::poll_fds`].
    pub fn record_revents(&mut self, revents: &[Events])
        requires
            old(self).wf(),
            revents@.len() == old(self).list().len(),
        ensures
            final(self).wf(),
            final(self).keys() == old(self).keys(),
            final(self).list().len() == old(self).list().len(),
            forall|i: int| 0 <= i < revents@.len() ==> {
                &&& (#[trigger] final(self).list()[i]).spec_fd() == old(self).list()[i].spec_fd()
                &&& final(self).list()[i].spec_events() == old(self).list()[i].spec_events()
                &&& final(self).list()[i].spec_revents() == revents@[i]
            },
    {
        let mut i: usize = 0;
        while i < revents.len()
            invariant
                self.wf(),
                self.keys() == old(self).keys(),
                revents@.len() == old(self).list().len(),
                i <= revents@.len(),
                self.list().len() == old(self).list().len(),
                forall|j: int| 0 <= j < i ==> {
                    &&& (#[trigger] self.list()[j]).spec_fd() == old(self).list()[j].spec_fd()
                    &&& self.list()[j].spec_events() == old(self).list()[j].spec_events()
                    &&& self.list()[j].spec_revents() == revents@[j]
                },
                forall|j: int| i <= j < revents@.len() ==> #[trigger] self.list()[j] == old(self).list()[j],
            decreases revents@.len() - i,
        {
            let source = self.list[i].with_revents(revents[i]);
            self.list.set(i, source);
            i = i + 1;
        }
    }

    /// The events of the last poll: one per source on which some event
    /// fired, in the order of the registry, each with a clone of its key.
    pub fn ready_events(&self) -> (events: Vec<Event<K>>)
        requires
            self.wf(),
        ensures
            events@.len() == ready_indices(self.list()).len(),
            forall|j: int| 0 <= j < events@.len() ==> {
                let i = ready_indices(self.list())[j];
                &&& (#[trigger] events@[j]).source == self.list()[i]
                &&& cloned(self.keys()[i], events@[j].key)
            },
    {
        let mut events: Vec<Event<K>> = Vec::new();
        let mut i: usize = 0;
        while i < self.list.len()
            invariant
                self.wf(),
                i <= self.list@.len(),
                events@.len() == ready_prefix(self.list(), i as nat).len(),
                forall|j: int| 0 <= j < events@.len() ==> {
                    let k = ready_prefix(self.list(), i as nat)[j];
                    &&& (#[trigger] events@[j]).source == self.list()[k]
                    &&& cloned(self.keys()[k], events@[j].key)
                },
            decreases self.list@.len() - i,
        {
            let source = self.list[i];
            if source.raw_events() != 0 {
                let key = self.index[i].clone();
                events.push(Event { key, source });
            }
            i = i + 1;
        }
        events
    }
}

} // verus!
