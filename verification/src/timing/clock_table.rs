//! The name-keyed registry owning every stopwatch and countdown of one
//! persisted session. The two kinds live in two independent mappings: a
//! stopwatch and a countdown may share a name. Insertion refuses a name
//! already present in its kind's mapping; removal reports whether
//! anything was removed; bulk removal and bulk transitions act on one
//! kind and leave the other untouched.
//!
//! The registry is a pair of association vectors with pairwise distinct
//! keys; its mathematical view is the pair of maps [`ClockTable::sw_map`]
//! and [`ClockTable::cd_map`].

use super::count_down::CountDown;
use super::stopwatch::Stopwatch;
use super::{ClockCommand, TimeImpl, UtcDateTime, UtcTimeImpl};
use vstd::prelude::*;

verus! {

/// Pairwise distinct keys, by string contents.
pub open spec fn keys_unique<V>(s: Seq<(String, V)>) -> bool {
    forall|i: int, j: int|
        0 <= i < j < s.len() ==> (#[trigger] s[i]).0@ != (#[trigger] s[j]).0@
}

/// Whether some entry of `s` carries the key `k`.
pub open spec fn key_in<V>(s: Seq<(String, V)>, k: Seq<char>) -> bool {
    exists|i: int| 0 <= i < s.len() && (#[trigger] s[i]).0@ == k
}

/// The mapping that an association vector denotes; a later entry with
/// the same key would win, but the registry keeps keys unique.
pub open spec fn pairs_to_map<V>(s: Seq<(String, V)>) -> Map<Seq<char>, V>
    decreases s.len(),
{
    if s.len() == 0 {
        Map::empty()
    } else {
        pairs_to_map(s.drop_last()).insert(s.last().0@, s.last().1)
    }
}

/// Dropping the last entry keeps the remaining keys pairwise distinct.
proof fn lemma_keys_unique_drop_last<V>(s: Seq<(String, V)>)
    requires
        keys_unique(s),
        s.len() > 0,
    ensures
        keys_unique(s.drop_last()),
{
    assert forall|i: int, j: int| 0 <= i < j < s.drop_last().len() implies (#[trigger] s.drop_last()[i]).0@
        != (#[trigger] s.drop_last()[j]).0@ by {
        assert(s.drop_last()[i] == s[i] && s.drop_last()[j] == s[j]);
    }
}

/// An association vector's map holds a key exactly when some entry
/// carries it.
pub proof fn lemma_pairs_to_map_membership<V>(s: Seq<(String, V)>, k: Seq<char>)
    ensures
        pairs_to_map(s).contains_key(k) <==> key_in(s, k),
    decreases s.len(),
{
    if s.len() == 0 {
    } else {
        lemma_pairs_to_map_membership(s.drop_last(), k);
        if s.last().0@ == k {
            assert((#[trigger] s[s.len() - 1]).0@ == k);
        } else if key_in(s.drop_last(), k) {
            let i = choose|i: int|
                0 <= i < s.drop_last().len() && (#[trigger] s.drop_last()[i]).0@ == k;
            assert((#[trigger] s[i]).0@ == k);
        } else if key_in(s, k) {
            let i = choose|i: int| 0 <= i < s.len() && (#[trigger] s[i]).0@ == k;
            assert(i < s.len() - 1 ==> (#[trigger] s.drop_last()[i]).0@ == k);
        }
    }
}

/// With pairwise distinct keys, the map sends each entry's key to that
/// entry's value.
pub proof fn lemma_pairs_to_map_index<V>(s: Seq<(String, V)>, i: int)
    requires
        keys_unique(s),
        0 <= i < s.len(),
    ensures
        pairs_to_map(s).contains_key(s[i].0@),
        pairs_to_map(s)[s[i].0@] == s[i].1,
    decreases s.len(),
{
    lemma_keys_unique_drop_last(s);
    if i < s.len() - 1 {
        lemma_pairs_to_map_index(s.drop_last(), i);
        assert(s.drop_last()[i] == s[i]);
        assert(s[i].0@ != s.last().0@);
    }
}

/// Appending a fresh key denotes inserting it into the map, and keeps
/// the keys pairwise distinct.
pub proof fn lemma_pairs_to_map_push<V>(s: Seq<(String, V)>, p: (String, V))
    requires
        keys_unique(s),
        !key_in(s, p.0@),
    ensures
        keys_unique(s.push(p)),
        pairs_to_map(s.push(p)) == pairs_to_map(s).insert(p.0@, p.1),
{
    let s2 = s.push(p);
    assert forall|i: int, j: int| 0 <= i < j < s2.len() implies (#[trigger] s2[i]).0@
        != (#[trigger] s2[j]).0@ by {
        if j < s.len() {
            assert(s2[i] == s[i] && s2[j] == s[j]);
        } else {
            assert(s2[j] == p);
            assert(s2[i] == s[i]);
            assert(!((#[trigger] s[i]).0@ == p.0@));
        }
    }
    assert(s2.drop_last() =~= s);
    assert(s2.last() == p);
}

/// Replacing the value at one entry, key kept, denotes inserting the
/// new value at that key; keys stay pairwise distinct.
pub proof fn lemma_pairs_to_map_update<V>(s: Seq<(String, V)>, i: int, v: V)
    requires
        keys_unique(s),
        0 <= i < s.len(),
    ensures
        keys_unique(s.update(i, (s[i].0, v))),
        pairs_to_map(s.update(i, (s[i].0, v))) == pairs_to_map(s).insert(s[i].0@, v),
    decreases s.len(),
{
    let s2 = s.update(i, (s[i].0, v));
    assert forall|x: int, y: int| 0 <= x < y < s2.len() implies (#[trigger] s2[x]).0@
        != (#[trigger] s2[y]).0@ by {
        assert(s2[x].0@ == s[x].0@ && s2[y].0@ == s[y].0@);
    }
    lemma_keys_unique_drop_last(s);
    if i == s.len() - 1 {
        assert(s2.drop_last() =~= s.drop_last());
        assert(s2.last() == (s[i].0, v));
        assert(pairs_to_map(s2) =~= pairs_to_map(s).insert(s[i].0@, v));
    } else {
        lemma_pairs_to_map_update(s.drop_last(), i, v);
        assert(s.drop_last()[i] == s[i]);
        assert(s2.drop_last() =~= s.drop_last().update(i, (s[i].0, v)));
        assert(s2.last() == s.last());
        assert(s[i].0@ != s.last().0@);
        assert(pairs_to_map(s2) =~= pairs_to_map(s).insert(s[i].0@, v));
    }
}

/// Removing one entry denotes removing its key from the map; keys stay
/// pairwise distinct.
pub proof fn lemma_pairs_to_map_remove<V>(s: Seq<(String, V)>, i: int)
    requires
        keys_unique(s),
        0 <= i < s.len(),
    ensures
        keys_unique(s.remove(i)),
        pairs_to_map(s.remove(i)) == pairs_to_map(s).remove(s[i].0@),
    decreases s.len(),
{
    let s2 = s.remove(i);
    assert forall|x: int, y: int| 0 <= x < y < s2.len() implies (#[trigger] s2[x]).0@
        != (#[trigger] s2[y]).0@ by {
        let x0 = if x < i {
            x
        } else {
            x + 1
        };
        let y0 = if y < i {
            y
        } else {
            y + 1
        };
        assert(s2[x] == s[x0] && s2[y] == s[y0]);
    }
    lemma_keys_unique_drop_last(s);
    if i == s.len() - 1 {
        assert(s2 =~= s.drop_last());
        lemma_pairs_to_map_membership(s.drop_last(), s[i].0@);
        assert forall|j: int| 0 <= j < s.drop_last().len() implies (#[trigger] s.drop_last()[j]).0@
            != s[i].0@ by {
            assert(s.drop_last()[j] == s[j]);
        }
        assert(!key_in(s.drop_last(), s[i].0@));
        assert(pairs_to_map(s2) =~= pairs_to_map(s).remove(s[i].0@));
    } else {
        lemma_pairs_to_map_remove(s.drop_last(), i);
        assert(s.drop_last()[i] == s[i]);
        assert(s2.drop_last() =~= s.drop_last().remove(i));
        assert(s2.last() == s.last());
        assert(s[i].0@ != s.last().0@);
        assert(pairs_to_map(s2) =~= pairs_to_map(s).remove(s[i].0@));
    }
}

/// Whether `a` spells the key `key`.
fn eq_key(a: &String, key: &str) -> (r: bool)
    ensures
        r == (a@ == key@),
{
    let k: String = key.to_string();
    *a == k
}

/// A name already taken in the addressed kind's mapping.
#[derive(Debug, PartialEq, Eq)]
pub struct AlreadyAdded(pub String);

/// The registry of all stopwatches and countdowns, each kind keyed by
/// name in its own namespace.
pub struct ClockTable<T = UtcTimeImpl> {
    /// The stopwatch entries, keys pairwise distinct.
    pub stopwatches: Vec<(String, Stopwatch<T>)>,
    /// The countdown entries, keys pairwise distinct.
    pub count_downs: Vec<(String, CountDown<T>)>,
}

impl<T> ClockTable<T> {
    /// Keys unique within each kind, every owned timer well-formed.
    pub open spec fn wf(&self) -> bool {
        &&& keys_unique(self.stopwatches@)
        &&& keys_unique(self.count_downs@)
        &&& forall|i: int|
            0 <= i < self.stopwatches@.len() ==> (#[trigger] self.stopwatches@[i]).1.wf()
        &&& forall|i: int|
            0 <= i < self.count_downs@.len() ==> (#[trigger] self.count_downs@[i]).1.wf()
    }

    /// The stopwatch namespace as a map from name to stopwatch.
    pub open spec fn sw_map(&self) -> Map<Seq<char>, Stopwatch<T>> {
        pairs_to_map(self.stopwatches@)
    }

    /// The countdown namespace as a map from name to countdown.
    pub open spec fn cd_map(&self) -> Map<Seq<char>, CountDown<T>> {
        pairs_to_map(self.count_downs@)
    }

    /// A registry owning the given entries.
    pub fn new(
        stopwatches: Vec<(String, Stopwatch<T>)>,
        count_downs: Vec<(String, CountDown<T>)>,
    ) -> (r: ClockTable<T>)
        requires
            keys_unique(stopwatches@),
            keys_unique(count_downs@),
            forall|i: int| 0 <= i < stopwatches@.len() ==> (#[trigger] stopwatches@[i]).1.wf(),
            forall|i: int| 0 <= i < count_downs@.len() ==> (#[trigger] count_downs@[i]).1.wf(),
        ensures
            r.wf(),
            r.stopwatches@ == stopwatches@,
            r.count_downs@ == count_downs@,
    {
        ClockTable { stopwatches, count_downs }
    }

    /// All stopwatch entries, in insertion order; the order carries no
    /// meaning.
    pub fn all_stopwatches(&self) -> (r: &Vec<(String, Stopwatch<T>)>)
        ensures
            r@ == self.stopwatches@,
    {
        &self.stopwatches
    }

    /// All countdown entries, in insertion order; the order carries no
    /// meaning.
    pub fn all_count_downs(&self) -> (r: &Vec<(String, CountDown<T>)>)
        ensures
            r@ == self.count_downs@,
    {
        &self.count_downs
    }

    /// The position of `key` among the stopwatch entries, if present.
    #[verifier::loop_isolation(false)]
    fn index_of_stopwatch(&self, key: &str) -> (r: Option<usize>)
        ensures
            r matches Some(i) ==> i < self.stopwatches@.len() && self.stopwatches@[i as int].0@
                == key@,
            r is Some <==> key_in(self.stopwatches@, key@),
    {
        let n = self.stopwatches.len();
        let mut i: usize = 0;
        while i < n
            invariant
                i <= n,
                forall|j: int| 0 <= j < i ==> (#[trigger] self.stopwatches@[j]).0@ != key@,
            decreases n - i,
        {
            if eq_key(&self.stopwatches[i].0, key) {
                return Some(i);
            }
            i += 1;
        }
        None
    }

    /// The position of `key` among the countdown entries, if present.
    #[verifier::loop_isolation(false)]
    fn index_of_count_down(&self, key: &str) -> (r: Option<usize>)
        ensures
            r matches Some(i) ==> i < self.count_downs@.len() && self.count_downs@[i as int].0@
                == key@,
            r is Some <==> key_in(self.count_downs@, key@),
    {
        let n = self.count_downs.len();
        let mut i: usize = 0;
        while i < n
            invariant
                i <= n,
                forall|j: int| 0 <= j < i ==> (#[trigger] self.count_downs@[j]).0@ != key@,
            decreases n - i,
        {
            if eq_key(&self.count_downs[i].0, key) {
                return Some(i);
            }
            i += 1;
        }
        None
    }

    /// Whether a stopwatch is registered under `key`.
    pub fn has_stop_watch(&self, key: &str) -> (r: bool)
        ensures
            r == self.sw_map().contains_key(key@),
    {
        proof {
            lemma_pairs_to_map_membership(self.stopwatches@, key@);
        }
        self.index_of_stopwatch(key).is_some()
    }

    /// Whether a countdown is registered under `key`.
    pub fn has_count_down(&self, key: &str) -> (r: bool)
        ensures
            r == self.cd_map().contains_key(key@),
    {
        proof {
            lemma_pairs_to_map_membership(self.count_downs@, key@);
        }
        self.index_of_count_down(key).is_some()
    }

    /// The stopwatch registered under `key`, if any.
    pub fn get_stopwatch(&self, key: &str) -> (r: Option<&Stopwatch<T>>)
        requires
            self.wf(),
        ensures
            r matches Some(sw) ==> self.sw_map().contains_key(key@) && *sw == self.sw_map()[key@]
                && sw.wf(),
            r is Some <==> self.sw_map().contains_key(key@),
    {
        proof {
            lemma_pairs_to_map_membership(self.stopwatches@, key@);
        }
        match self.index_of_stopwatch(key) {
            Some(i) => {
                proof {
                    lemma_pairs_to_map_index(self.stopwatches@, i as int);
                }
                Some(&self.stopwatches[i].1)
            },
            None => None,
        }
    }

    /// The countdown registered under `key`, if any.
    pub fn get_count_down(&self, key: &str) -> (r: Option<&CountDown<T>>)
        requires
            self.wf(),
        ensures
            r matches Some(cd) ==> self.cd_map().contains_key(key@) && *cd == self.cd_map()[key@]
                && cd.wf(),
            r is Some <==> self.cd_map().contains_key(key@),
    {
        proof {
            lemma_pairs_to_map_membership(self.count_downs@, key@);
        }
        match self.index_of_count_down(key) {
            Some(i) => {
                proof {
                    lemma_pairs_to_map_index(self.count_downs@, i as int);
                }
                Some(&self.count_downs[i].1)
            },
            None => None,
        }
    }

    /// Registers `sw` under `key`; refused when the stopwatch namespace
    /// already holds the name. The countdown namespace plays no part.
    pub fn add_stopwatch(&mut self, key: String, sw: Stopwatch<T>) -> (r: Result<(), AlreadyAdded>)
        requires
            old(self).wf(),
            sw.wf(),
        ensures
            final (self).wf(),
            final (self).count_downs@ == old(self).count_downs@,
            old(self).sw_map().contains_key(key@) ==> r == Err::<(), AlreadyAdded>(
                AlreadyAdded(key),
            ) && final (self).stopwatches@ == old(self).stopwatches@,
            !old(self).sw_map().contains_key(key@) ==> r == Ok::<(), AlreadyAdded>(()) && final (
            self).stopwatches@ == old(self).stopwatches@.push((key, sw)) && final (self).sw_map()
                == old(self).sw_map().insert(key@, sw),
    {
        proof {
            lemma_pairs_to_map_membership(self.stopwatches@, key@);
        }
        match self.index_of_stopwatch(key.as_str()) {
            Some(_) => Err(AlreadyAdded(key)),
            None => {
                proof {
                    lemma_pairs_to_map_push(self.stopwatches@, (key, sw));
                }
                self.stopwatches.push((key, sw));
                Ok(())
            },
        }
    }

    /// Registers `cd` under `key`; refused when the countdown namespace
    /// already holds the name. The stopwatch namespace plays no part.
    pub fn add_count_down(&mut self, key: String, cd: CountDown<T>) -> (r: Result<(), AlreadyAdded>)
        requires
            old(self).wf(),
            cd.wf(),
        ensures
            final (self).wf(),
            final (self).stopwatches@ == old(self).stopwatches@,
            old(self).cd_map().contains_key(key@) ==> r == Err::<(), AlreadyAdded>(
                AlreadyAdded(key),
            ) && final (self).count_downs@ == old(self).count_downs@,
            !old(self).cd_map().contains_key(key@) ==> r == Ok::<(), AlreadyAdded>(()) && final (
            self).count_downs@ == old(self).count_downs@.push((key, cd)) && final (self).cd_map()
                == old(self).cd_map().insert(key@, cd),
    {
        proof {
            lemma_pairs_to_map_membership(self.count_downs@, key@);
        }
        match self.index_of_count_down(key.as_str()) {
            Some(_) => Err(AlreadyAdded(key)),
            None => {
                proof {
                    lemma_pairs_to_map_push(self.count_downs@, (key, cd));
                }
                self.count_downs.push((key, cd));
                Ok(())
            },
        }
    }

    /// Unregisters the stopwatch under `key`, reporting whether one was
    /// there; removing an absent name changes nothing.
    pub fn remove_stopwatch(&mut self, key: &str) -> (r: bool)
        requires
            old(self).wf(),
        ensures
            final (self).wf(),
            final (self).count_downs@ == old(self).count_downs@,
            r == old(self).sw_map().contains_key(key@),
            final (self).sw_map() == old(self).sw_map().remove(key@),
            !r ==> final (self).stopwatches@ == old(self).stopwatches@,
    {
        proof {
            lemma_pairs_to_map_membership(self.stopwatches@, key@);
        }
        match self.index_of_stopwatch(key) {
            Some(i) => {
                proof {
                    lemma_pairs_to_map_remove(self.stopwatches@, i as int);
                }
                let _ = self.stopwatches.remove(i);
                true
            },
            None => {
                proof {
                    assert(final (self).sw_map() =~= old(self).sw_map().remove(key@));
                }
                false
            },
        }
    }

    /// Unregisters the countdown under `key`, reporting whether one was
    /// there; removing an absent name changes nothing.
    pub fn remove_count_down(&mut self, key: &str) -> (r: bool)
        requires
            old(self).wf(),
        ensures
            final (self).wf(),
            final (self).stopwatches@ == old(self).stopwatches@,
            r == old(self).cd_map().contains_key(key@),
            final (self).cd_map() == old(self).cd_map().remove(key@),
            !r ==> final (self).count_downs@ == old(self).count_downs@,
    {
        proof {
            lemma_pairs_to_map_membership(self.count_downs@, key@);
        }
        match self.index_of_count_down(key) {
            Some(i) => {
                proof {
                    lemma_pairs_to_map_remove(self.count_downs@, i as int);
                }
                let _ = self.count_downs.remove(i);
                true
            },
            None => {
                proof {
                    assert(final (self).cd_map() =~= old(self).cd_map().remove(key@));
                }
                false
            },
        }
    }

    /// Empties the stopwatch namespace; the countdown namespace is left
    /// untouched.
    pub fn remove_all_stopwatches(&mut self)
        requires
            old(self).wf(),
        ensures
            final (self).wf(),
            final (self).stopwatches@ == Seq::<(String, Stopwatch<T>)>::empty(),
            final (self).count_downs@ == old(self).count_downs@,
    {
        self.stopwatches.clear();
    }

    /// Empties the countdown namespace; the stopwatch namespace is left
    /// untouched. (The name carries the spelling it has always had.)
    pub fn remove_all_count_donws(&mut self)
        requires
            old(self).wf(),
        ensures
            final (self).wf(),
            final (self).count_downs@ == Seq::<(String, CountDown<T>)>::empty(),
            final (self).stopwatches@ == old(self).stopwatches@,
    {
        self.count_downs.clear();
    }
}

impl<T: TimeImpl> ClockTable<T> {
    /// Performs the commanded transition on the stopwatch under `key`,
    /// reporting whether one was there.
    pub fn modify_stopwatch(&mut self, key: &str, cmd: ClockCommand) -> (r: bool)
        requires
            old(self).wf(),
        ensures
            final (self).wf(),
            final (self).count_downs@ == old(self).count_downs@,
            r == old(self).sw_map().contains_key(key@),
            !r ==> final (self).stopwatches@ == old(self).stopwatches@,
            r ==> exists|now: UtcDateTime|
                #[trigger] now.wf() && final (self).sw_map() == old(self).sw_map().insert(
                    key@,
                    old(self).sw_map()[key@].spec_apply(cmd, now),
                ),
    {
        proof {
            lemma_pairs_to_map_membership(self.stopwatches@, key@);
        }
        match self.index_of_stopwatch(key) {
            Some(i) => {
                proof {
                    lemma_pairs_to_map_index(self.stopwatches@, i as int);
                }
                let ghost olds = self.stopwatches@;
                self.stopwatches[i].1.apply(cmd);
                proof {
                    let n = choose|n: UtcDateTime|
                        n.wf() && self.stopwatches@[i as int].1 == olds[i as int].1.spec_apply(
                            cmd,
                            n,
                        );
                    assert(self.stopwatches@ =~= olds.update(
                        i as int,
                        (olds[i as int].0, self.stopwatches@[i as int].1),
                    ));
                    lemma_pairs_to_map_update(olds, i as int, self.stopwatches@[i as int].1);
                    assert(n.wf() && final (self).sw_map() == old(self).sw_map().insert(
                        key@,
                        old(self).sw_map()[key@].spec_apply(cmd, n),
                    ));
                }
                true
            },
            None => false,
        }
    }

    /// Performs the commanded transition on the countdown under `key`,
    /// reporting whether one was there.
    pub fn modify_count_down(&mut self, key: &str, cmd: ClockCommand) -> (r: bool)
        requires
            old(self).wf(),
        ensures
            final (self).wf(),
            final (self).stopwatches@ == old(self).stopwatches@,
            r == old(self).cd_map().contains_key(key@),
            !r ==> final (self).count_downs@ == old(self).count_downs@,
            r ==> exists|now: UtcDateTime|
                #[trigger] now.wf() && final (self).cd_map() == old(self).cd_map().insert(
                    key@,
                    CountDown {
                        stopwatch: old(self).cd_map()[key@].stopwatch.spec_apply(cmd, now),
                        time: old(self).cd_map()[key@].time,
                    },
                ),
    {
        proof {
            lemma_pairs_to_map_membership(self.count_downs@, key@);
        }
        match self.index_of_count_down(key) {
            Some(i) => {
                proof {
                    lemma_pairs_to_map_index(self.count_downs@, i as int);
                }
                let ghost olds = self.count_downs@;
                self.count_downs[i].1.apply(cmd);
                proof {
                    let n = choose|n: UtcDateTime|
                        n.wf() && self.count_downs@[i as int].1.stopwatch == olds[i as int].1.stopwatch.spec_apply(
                            cmd,
                            n,
                        );
                    assert(self.count_downs@ =~= olds.update(
                        i as int,
                        (olds[i as int].0, self.count_downs@[i as int].1),
                    ));
                    lemma_pairs_to_map_update(olds, i as int, self.count_downs@[i as int].1);
                    assert(self.count_downs@[i as int].1 == CountDown {
                        stopwatch: olds[i as int].1.stopwatch.spec_apply(cmd, n),
                        time: olds[i as int].1.time,
                    });
                    assert(n.wf() && final (self).cd_map() == old(self).cd_map().insert(
                        key@,
                        CountDown {
                            stopwatch: old(self).cd_map()[key@].stopwatch.spec_apply(cmd, n),
                            time: old(self).cd_map()[key@].time,
                        },
                    ));
                }
                true
            },
            None => false,
        }
    }

    /// Performs the commanded transition on every stopwatch; each entry
    /// observes its own clock reading. Names and order are kept, the
    /// countdown namespace is untouched.
    #[verifier::loop_isolation(false)]
    pub fn modify_all_stop_watches(&mut self, cmd: ClockCommand)
        requires
            old(self).wf(),
        ensures
            final (self).wf(),
            final (self).count_downs@ == old(self).count_downs@,
            final (self).stopwatches@.len() == old(self).stopwatches@.len(),
            forall|j: int|
                0 <= j < old(self).stopwatches@.len() ==> (#[trigger] final (
                self).stopwatches@[j]).0 == old(self).stopwatches@[j].0 && exists|
                    now: UtcDateTime,
                |
                    #[trigger] now.wf() && final (self).stopwatches@[j].1 == old(
                    self).stopwatches@[j].1.spec_apply(cmd, now),
    {
        let n = self.stopwatches.len();
        let mut i: usize = 0;
        while i < n
            invariant
                i <= n,
                n == self.stopwatches@.len(),
                self.count_downs@ == old(self).count_downs@,
                self.stopwatches@.len() == old(self).stopwatches@.len(),
                forall|j: int|
                    i <= j < n ==> (#[trigger] self.stopwatches@[j]) == old(self).stopwatches@[j],
                forall|j: int|
                    0 <= j < i ==> (#[trigger] self.stopwatches@[j]).0 == old(
                    self).stopwatches@[j].0 && exists|now: UtcDateTime|
                        #[trigger] now.wf() && self.stopwatches@[j].1 == old(
                        self).stopwatches@[j].1.spec_apply(cmd, now),
                forall|j: int| 0 <= j < i ==> (#[trigger] self.stopwatches@[j]).1.wf(),
            decreases n - i,
        {
            let ghost olds = self.stopwatches@;
            self.stopwatches[i].1.apply(cmd);
            proof {
                let n2 = choose|n2: UtcDateTime|
                    n2.wf() && self.stopwatches@[i as int].1 == olds[i as int].1.spec_apply(
                        cmd,
                        n2,
                    );
                assert(n2.wf() && self.stopwatches@[i as int].1 == old(
                self).stopwatches@[i as int].1.spec_apply(cmd, n2));
            }
            i += 1;
        }
        proof {
            assert forall|x: int, y: int| 0 <= x < y < self.stopwatches@.len() implies (#[trigger] self.stopwatches@[x]).0@
                != (#[trigger] self.stopwatches@[y]).0@ by {
                assert(self.stopwatches@[x].0 == old(self).stopwatches@[x].0);
                assert(self.stopwatches@[y].0 == old(self).stopwatches@[y].0);
                assert((#[trigger] old(self).stopwatches@[x]).0@ != (#[trigger] old(
                self).stopwatches@[y]).0@);
            }
        }
    }

    /// Performs the commanded transition on every countdown; each entry
    /// observes its own clock reading. Names, order and budgets are
    /// kept, the stopwatch namespace is untouched.
    #[verifier::loop_isolation(false)]
    pub fn modify_all_count_downs(&mut self, cmd: ClockCommand)
        requires
            old(self).wf(),
        ensures
            final (self).wf(),
            final (self).stopwatches@ == old(self).stopwatches@,
            final (self).count_downs@.len() == old(self).count_downs@.len(),
            forall|j: int|
                0 <= j < old(self).count_downs@.len() ==> (#[trigger] final (
                self).count_downs@[j]).0 == old(self).count_downs@[j].0 && final (
                self).count_downs@[j].1.time == old(self).count_downs@[j].1.time && exists|
                    now: UtcDateTime,
                |
                    #[trigger] now.wf() && final (self).count_downs@[j].1.stopwatch == old(
                    self).count_downs@[j].1.stopwatch.spec_apply(cmd, now),
    {
        let n = self.count_downs.len();
        let mut i: usize = 0;
        while i < n
            invariant
                i <= n,
                n == self.count_downs@.len(),
                self.stopwatches@ == old(self).stopwatches@,
                self.count_downs@.len() == old(self).count_downs@.len(),
                forall|j: int|
                    i <= j < n ==> (#[trigger] self.count_downs@[j]) == old(self).count_downs@[j],
                forall|j: int|
                    0 <= j < i ==> (#[trigger] self.count_downs@[j]).0 == old(
                    self).count_downs@[j].0 && self.count_downs@[j].1.time == old(
                    self).count_downs@[j].1.time && exists|now: UtcDateTime|
                        #[trigger] now.wf() && self.count_downs@[j].1.stopwatch == old(
                        self).count_downs@[j].1.stopwatch.spec_apply(cmd, now),
                forall|j: int| 0 <= j < i ==> (#[trigger] self.count_downs@[j]).1.wf(),
            decreases n - i,
        {
            let ghost olds = self.count_downs@;
            self.count_downs[i].1.apply(cmd);
            proof {
                let n2 = choose|n2: UtcDateTime|
                    n2.wf() && self.count_downs@[i as int].1.stopwatch == olds[i as int].1.stopwatch.spec_apply(
                        cmd,
                        n2,
                    );
                assert(n2.wf() && self.count_downs@[i as int].1.stopwatch == old(
                self).count_downs@[i as int].1.stopwatch.spec_apply(cmd, n2));
            }
            i += 1;
        }
        proof {
            assert forall|x: int, y: int| 0 <= x < y < self.count_downs@.len() implies (#[trigger] self.count_downs@[x]).0@
                != (#[trigger] self.count_downs@[y]).0@ by {
                assert(self.count_downs@[x].0 == old(self).count_downs@[x].0);
                assert(self.count_downs@[y].0 == old(self).count_downs@[y].0);
                assert((#[trigger] old(self).count_downs@[x]).0@ != (#[trigger] old(
                self).count_downs@[y]).0@);
            }
        }
    }
}

impl Default for ClockTable<UtcTimeImpl> {
    /// An empty registry.
    fn default() -> (r: ClockTable<UtcTimeImpl>)
        ensures
            r.wf(),
            r.stopwatches@ == Seq::<(String, Stopwatch<UtcTimeImpl>)>::empty(),
            r.count_downs@ == Seq::<(String, CountDown<UtcTimeImpl>)>::empty(),
    {
        ClockTable { stopwatches: Vec::new(), count_downs: Vec::new() }
    }
}

/// Adding the same name twice into the same kind's mapping fails on the
/// second try, while the other kind's mapping is untouched by the first
/// add and accepts or refuses the name on its own: after a successful
/// stopwatch add of `k`, the stopwatch namespace now holds `k` (so a
/// second add of `k` there must err), and whether a countdown add of
/// `k` succeeds is exactly what it was before.
pub proof fn lemma_add_twice<T>(
    t0: ClockTable<T>,
    t1: ClockTable<T>,
    k: Seq<char>,
    v: Stopwatch<T>,
)
    requires
        !t0.sw_map().contains_key(k),
        t1.sw_map() == t0.sw_map().insert(k, v),
        t1.count_downs@ == t0.count_downs@,
    ensures
        t1.sw_map().contains_key(k),
        t1.cd_map().contains_key(k) <==> t0.cd_map().contains_key(k),
{
}

/// Emptying one kind's namespace leaves the other kind's entries
/// untouched: after removing all stopwatches, the countdown namespace
/// is exactly what it was, and the stopwatch namespace holds nothing.
pub proof fn lemma_remove_all_independent<T>(t0: ClockTable<T>, t1: ClockTable<T>)
    requires
        t1.stopwatches@ == Seq::<(String, Stopwatch<T>)>::empty(),
        t1.count_downs@ == t0.count_downs@,
    ensures
        t1.cd_map() == t0.cd_map(),
        forall|k: Seq<char>| !t1.sw_map().contains_key(k),
{
    assert forall|k: Seq<char>| !t1.sw_map().contains_key(k) by {
        lemma_pairs_to_map_membership(t1.stopwatches@, k);
    }
}

} // verus!
