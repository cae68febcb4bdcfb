//! What the simulator remembers of each vessel between readings: when it
//! last heard from it and the timing error accumulated so far.
use vstd::prelude::*;

use crate::fixed::{
    div_round, fits_i64, lemma_mul_bound, lemma_rdiv_bound, lemma_rdiv_within_half, narrow, rdiv,
};
use crate::text::str_eq;

verus! {

/// Values by vessel id, each id once.
pub struct KeyedValues {
    entries: Vec<(String, i64)>,
}

pub open spec fn has_key(s: Seq<(String, i64)>, k: Seq<char>) -> bool {
    exists|i: int| 0 <= i < s.len() && (#[trigger] s[i]).0@ == k
}

pub open spec fn keys_distinct(s: Seq<(String, i64)>) -> bool {
    forall|i: int, j: int| 0 <= i < j < s.len() ==> (#[trigger] s[i]).0@ != (#[trigger] s[j]).0@
}

/// The map of the entries `s`, each key to its value.
pub open spec fn entries_map(s: Seq<(String, i64)>) -> Map<Seq<char>, i64> {
    Map::new(
        |k: Seq<char>| has_key(s, k),
        |k: Seq<char>| s[choose|i: int| 0 <= i < s.len() && (#[trigger] s[i]).0@ == k].1,
    )
}

proof fn lemma_value_at(s: Seq<(String, i64)>, i: int)
    requires
        keys_distinct(s),
        0 <= i < s.len(),
    ensures
        entries_map(s).contains_key(s[i].0@),
        entries_map(s)[s[i].0@] == s[i].1,
{
    let k = s[i].0@;
    assert(has_key(s, k));
    let j = choose|j: int| 0 <= j < s.len() && (#[trigger] s[j]).0@ == k;
    if j != i {
        if i < j {
            assert(s[i].0@ != s[j].0@);
        } else {
            assert(s[j].0@ != s[i].0@);
        }
    }
}

impl View for KeyedValues {
    type V = Map<Seq<char>, i64>;

    closed spec fn view(&self) -> Map<Seq<char>, i64> {
        entries_map(self.entries@)
    }
}

impl KeyedValues {
    #[verifier::type_invariant]
    spec fn distinct(&self) -> bool {
        keys_distinct(self.entries@)
    }

    /// No values.
    pub fn new() -> (r: Self)
        ensures
            r@ == Map::<Seq<char>, i64>::empty(),
    {
        let r = KeyedValues { entries: Vec::new() };
        assert(r@ =~= Map::<Seq<char>, i64>::empty());
        r
    }

    fn position(&self, key: &str) -> (r: Option<usize>)
        ensures
            r matches Some(i) ==> i < self.entries@.len() && self.entries@[i as int].0@ == key@,
            r is None ==> !has_key(self.entries@, key@),
    {
        let n = self.entries.len();
        let mut i: usize = 0;
        while i < n
            invariant
                n == self.entries@.len(),
                0 <= i <= n,
                forall|k: int| 0 <= k < i ==> (#[trigger] self.entries@[k]).0@ != key@,
            decreases n - i,
        {
            if str_eq(self.entries[i].0.as_str(), key) {
                return Some(i);
            }
            i = i + 1;
        }
        None
    }

    /// The value of `key`, if it has one.
    pub fn get(&self, key: &str) -> (r: Option<i64>)
        ensures
            r == (if self@.contains_key(key@) {
                Some(self@[key@])
            } else {
                None::<i64>
            }),
    {
        proof {
            use_type_invariant(self);
        }
        match self.position(key) {
            Some(i) => {
                proof {
                    lemma_value_at(self.entries@, i as int);
                }
                Some(self.entries[i].1)
            },
            None => None,
        }
    }

    /// Gives `key` the value `value`.
    pub fn set(&mut self, key: &str, value: i64)
        ensures
            final(self)@ == old(self)@.insert(key@, value),
    {
        proof {
            use_type_invariant(&*self);
        }
        let ghost before = self.entries@;
        let mut entries: Vec<(String, i64)> = Vec::new();
        std::mem::swap(&mut entries, &mut self.entries);
        match self.position_in(&entries, key) {
            Some(i) => {
                let name = entries[i].0.clone();
                entries.set(i, (name, value));
                proof {
                    let after = entries@;
                    assert(keys_distinct(after)) by {
                        assert forall|a: int, b: int| 0 <= a < b < after.len() implies (
                        #[trigger] after[a]).0@ != (#[trigger] after[b]).0@ by {
                            assert(before[a].0@ != before[b].0@);
                        }
                    }
                    assert forall|k: Seq<char>| #[trigger]
                        entries_map(after).contains_key(k) == entries_map(before).insert(
                            key@,
                            value,
                        ).contains_key(k) by {
                        if has_key(before, k) {
                            let j = choose|j: int| 0 <= j < before.len() && (#[trigger] before[j]).0@ == k;
                            assert(after[j].0@ == k);
                        }
                        if has_key(after, k) {
                            let j = choose|j: int| 0 <= j < after.len() && (#[trigger] after[j]).0@ == k;
                            assert(before[j].0@ == k);
                        }
                    }
                    assert forall|k: Seq<char>| #[trigger] entries_map(after).contains_key(k) implies entries_map(after)[k]
                        == entries_map(before).insert(key@, value)[k] by {
                        let j = choose|j: int| 0 <= j < after.len() && (#[trigger] after[j]).0@ == k;
                        lemma_value_at(after, j);
                        if k != key@ {
                            assert(j != i);
                            assert(before[j].0@ == k);
                            lemma_value_at(before, j);
                        }
                    }
                    assert(entries_map(after) =~= entries_map(before).insert(key@, value));
                }
            },
            None => {
                entries.push((String::from_str(key), value));
                proof {
                    let after = entries@;
                    let n = before.len() as int;
                    assert(keys_distinct(after)) by {
                        assert forall|a: int, b: int| 0 <= a < b < after.len() implies (
                        #[trigger] after[a]).0@ != (#[trigger] after[b]).0@ by {
                            if b < n {
                                assert(before[a].0@ != before[b].0@);
                            } else {
                                assert(after[a] == before[a]);
                            }
                        }
                    }
                    assert(after[n].0@ == key@);
                    assert forall|k: Seq<char>| #[trigger]
                        entries_map(after).contains_key(k) == entries_map(before).insert(
                            key@,
                            value,
                        ).contains_key(k) by {
                        if has_key(before, k) {
                            let j = choose|j: int| 0 <= j < before.len() && (#[trigger] before[j]).0@ == k;
                            assert(after[j].0@ == k);
                        }
                        if has_key(after, k) && k != key@ {
                            let j = choose|j: int| 0 <= j < after.len() && (#[trigger] after[j]).0@ == k;
                            assert(j < n);
                            assert(before[j].0@ == k);
                        }
                    }
                    assert forall|k: Seq<char>| #[trigger] entries_map(after).contains_key(k) implies entries_map(after)[k]
                        == entries_map(before).insert(key@, value)[k] by {
                        let j = choose|j: int| 0 <= j < after.len() && (#[trigger] after[j]).0@ == k;
                        lemma_value_at(after, j);
                        if k != key@ {
                            assert(j < n);
                            assert(before[j].0@ == k);
                            lemma_value_at(before, j);
                        } else {
                            assert(j == n);
                        }
                    }
                    assert(entries_map(after) =~= entries_map(before).insert(key@, value));
                }
            },
        }
        self.entries = entries;
    }

    fn position_in(&self, entries: &Vec<(String, i64)>, key: &str) -> (r: Option<usize>)
        ensures
            r matches Some(i) ==> i < entries@.len() && entries@[i as int].0@ == key@,
            r is None ==> !has_key(entries@, key@),
    {
        let n = entries.len();
        let mut i: usize = 0;
        while i < n
            invariant
                n == entries@.len(),
                0 <= i <= n,
                forall|k: int| 0 <= k < i ==> (#[trigger] entries@[k]).0@ != key@,
            decreases n - i,
        {
            if str_eq(entries[i].0.as_str(), key) {
                return Some(i);
            }
            i = i + 1;
        }
        None
    }
}

/// The time since the last reading of a vessel (ms), never less than
/// `min_dt`; a first reading counts as just now.
pub open spec fn elapsed_spec(last: Option<i64>, now: int, min_dt: int) -> int {
    let delta = match last {
        Some(t) => now - t,
        None => 0,
    };
    if delta > min_dt {
        delta
    } else {
        min_dt
    }
}

/// The accumulated error after `dt` ms at a flow error of `flow_error`
/// percent (millionths both): `error + flow_error / 100 * dt`.
pub open spec fn accumulated_error(error: int, flow_error: int, dt: int) -> int {
    error + rdiv(flow_error * dt, 100_000)
}

/// When the simulator last heard from each vessel (ms since the epoch) and
/// the timing error each has accumulated (s, millionths).
pub struct SimulatorLedger {
    pub last_update: KeyedValues,
    pub daily_errors: KeyedValues,
}

impl SimulatorLedger {
    /// Nothing heard yet.
    pub fn new() -> (r: Self)
        ensures
            r.last_update@ == Map::<Seq<char>, i64>::empty(),
            r.daily_errors@ == Map::<Seq<char>, i64>::empty(),
    {
        SimulatorLedger { last_update: KeyedValues::new(), daily_errors: KeyedValues::new() }
    }

    /// Notes a reading of vessel `id` at `now_ms` and gives the time since
    /// the one before (at least `min_dt_ms`); `None`, noting nothing, when
    /// that time is not representable.
    pub fn elapsed(&mut self, id: &str, now_ms: i64, min_dt_ms: i64) -> (r: Option<i64>)
        ensures
            r is Some <==> fits_i64(
                elapsed_spec(
                    if old(self).last_update@.contains_key(id@) {
                        Some(old(self).last_update@[id@])
                    } else {
                        None
                    },
                    now_ms as int,
                    min_dt_ms as int,
                ),
            ),
            r matches Some(dt) ==> {
                &&& dt == elapsed_spec(
                    if old(self).last_update@.contains_key(id@) {
                        Some(old(self).last_update@[id@])
                    } else {
                        None
                    },
                    now_ms as int,
                    min_dt_ms as int,
                )
                &&& final(self).last_update@ == old(self).last_update@.insert(id@, now_ms)
            },
            r is None ==> final(self).last_update@ == old(self).last_update@,
            final(self).daily_errors@ == old(self).daily_errors@,
    {
        let delta: i128 = match self.last_update.get(id) {
            Some(t) => now_ms as i128 - t as i128,
            None => 0,
        };
        let dt = if delta > min_dt_ms as i128 {
            delta
        } else {
            min_dt_ms as i128
        };
        match narrow(dt) {
            Some(v) => {
                self.last_update.set(id, now_ms);
                Some(v)
            },
            None => None,
        }
    }

    /// Adds to vessel `id`'s accumulated error what a flow error of
    /// `flow_error` percent (millionths) amounts to over `dt_ms`, and gives
    /// the new total; `None`, changing nothing, when it is not
    /// representable.
    pub fn accumulate(&mut self, id: &str, flow_error: i64, dt_ms: i64) -> (r: Option<i64>)
        ensures
            r is Some <==> fits_i64(
                accumulated_error(
                    if old(self).daily_errors@.contains_key(id@) {
                        old(self).daily_errors@[id@] as int
                    } else {
                        0
                    },
                    flow_error as int,
                    dt_ms as int,
                ),
            ),
            r matches Some(e) ==> {
                &&& e == accumulated_error(
                    if old(self).daily_errors@.contains_key(id@) {
                        old(self).daily_errors@[id@] as int
                    } else {
                        0
                    },
                    flow_error as int,
                    dt_ms as int,
                )
                &&& final(self).daily_errors@ == old(self).daily_errors@.insert(id@, e)
            },
            r is None ==> final(self).daily_errors@ == old(self).daily_errors@,
            final(self).last_update@ == old(self).last_update@,
    {
        let current: i64 = match self.daily_errors.get(id) {
            Some(e) => e,
            None => 0,
        };
        proof {
            lemma_mul_bound(
                flow_error as int,
                dt_ms as int,
                0x8000_0000_0000_0000,
                0x8000_0000_0000_0000,
            );
        }
        let product = flow_error as i128 * dt_ms as i128;
        if product > 0x1000_0000_0000_0000_0000_0000_0000_0000 || product
            < -0x1000_0000_0000_0000_0000_0000_0000_0000 {
            proof {
                lemma_rdiv_within_half(product as int, 100_000);
            }
            return None;
        }
        proof {
            lemma_rdiv_bound(product as int, 100_000);
        }
        let total = current as i128 + div_round(product, 100_000);
        match narrow(total) {
            Some(e) => {
                self.daily_errors.set(id, e);
                Some(e)
            },
            None => None,
        }
    }

    /// The error vessel `id` has accumulated; zero when it was never heard.
    pub fn daily_error(&self, id: &str) -> (r: i64)
        ensures
            r == (if self.daily_errors@.contains_key(id@) {
                self.daily_errors@[id@]
            } else {
                0
            }),
    {
        match self.daily_errors.get(id) {
            Some(e) => e,
            None => 0,
        }
    }
}

/// What one vessel accumulates leaves every other vessel's error as it was.
pub proof fn law_vessels_accumulate_apart(
    errors: Map<Seq<char>, i64>,
    id: Seq<char>,
    other: Seq<char>,
    e: i64,
)
    requires
        id != other,
    ensures
        errors.insert(id, e).contains_key(other) == errors.contains_key(other),
        errors.contains_key(other) ==> errors.insert(id, e)[other] == errors[other],
{
}

} // verus!
