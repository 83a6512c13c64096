//! The market-data cache: the authoritative in-process mapping from market
//! key to the most recently observed market entry, guaranteeing at most one
//! refresh in flight per key even under concurrent readers.
//!
//! The provider call itself is outside work, so a read is split into two
//! transitions. [`MarketDataCache::get_or_refresh`] decides what the caller
//! must do next: serve the still-fresh cached entry, perform the single
//! refresh for the key, or wait for the refresh already in flight.
//! [`MarketDataCache::complete_refresh`] applies the outcome of that single
//! provider call — storing the fetched price, or falling back to the stale
//! entry when the provider failed — and releases the key, so every waiter is
//! resolved with the same stored entry.

use vstd::prelude::*;

use crate::clock::Timestamp;
use crate::entity::{Market, MarketId, Price};
use crate::error::DcaError;
use crate::freshness::Expiring;

verus! {

/// Market entries are well-formed and their keys pairwise distinct.
pub open spec fn markets_wf(markets: Seq<Market>) -> bool {
    &&& forall|i: int, j: int|
        #![trigger markets[i].id, markets[j].id]
        0 <= i < j < markets.len() ==> markets[i].id@ != markets[j].id@
    &&& forall|i: int| 0 <= i < markets.len() ==> #[trigger] markets[i].wf()
}

/// Keys are pairwise distinct.
pub open spec fn keys_unique(keys: Seq<Seq<char>>) -> bool {
    forall|i: int, j: int|
        #![trigger keys[i], keys[j]]
        0 <= i < j < keys.len() ==> keys[i] != keys[j]
}

/// Whether some entry carries the key `id`.
pub open spec fn spec_has_key(markets: Seq<Market>, id: Seq<char>) -> bool {
    exists|i: int| 0 <= i < markets.len() && markets[i].id@ == id
}

/// The index of the entry carrying the key `id`; meaningful under
/// `spec_has_key` and key uniqueness.
pub open spec fn spec_index_of(markets: Seq<Market>, id: Seq<char>) -> int {
    choose|i: int| 0 <= i < markets.len() && markets[i].id@ == id
}

/// The cached entry under the key `id`, if any.
pub open spec fn spec_get(markets: Seq<Market>, id: Seq<char>) -> Option<Market> {
    if spec_has_key(markets, id) {
        Some(markets[spec_index_of(markets, id)])
    } else {
        None
    }
}

/// With pairwise-distinct keys, an entry with key `id` at index `i` is the
/// lookup result for `id`.
pub proof fn lemma_get_at(markets: Seq<Market>, id: Seq<char>, i: int)
    requires
        markets_wf(markets),
        0 <= i < markets.len(),
        markets[i].id@ == id,
    ensures
        spec_has_key(markets, id),
        spec_index_of(markets, id) == i,
        spec_get(markets, id) == Some(markets[i]),
{
    assert(spec_has_key(markets, id));
    let j = spec_index_of(markets, id);
    assert(0 <= j < markets.len() && markets[j].id@ == id);
    if i < j {
        assert(markets[i].id@ != markets[j].id@);
    } else if j < i {
        assert(markets[j].id@ != markets[i].id@);
    }
}

/// A sequence with no entry keyed `id` has no lookup result for `id`.
pub proof fn lemma_get_absent(markets: Seq<Market>, id: Seq<char>)
    requires
        forall|i: int| 0 <= i < markets.len() ==> (#[trigger] markets[i].id)@ != id,
    ensures
        spec_get(markets, id) is None,
{
    assert(!spec_has_key(markets, id));
}

/// What a caller of [`MarketDataCache::get_or_refresh`] must do next.
#[derive(Debug, Clone, Copy, PartialEq, Eq, Structural)]
pub enum RefreshStep {
    /// The cached entry is still fresh: serve it, no provider call.
    Fresh,
    /// The entry is stale or missing and no refresh is under way: this
    /// caller performs the single provider call and reports its outcome
    /// through [`MarketDataCache::complete_refresh`].
    MustFetch,
    /// A refresh for this key is already in flight: wait for its outcome;
    /// do not call the provider.
    Wait,
}

/// One `get_or_refresh` request against the abstract cache state: the
/// entries never change, and the key is put in flight exactly when this
/// request is the one that must perform the refresh.
pub open spec fn spec_request_step(
    markets: Seq<Market>,
    in_flight: Seq<Seq<char>>,
    id: Seq<char>,
    now: Timestamp,
) -> (Seq<Seq<char>>, RefreshStep) {
    let fresh = match spec_get(markets, id) {
        Some(m) => !m.spec_is_outdated(now),
        None => false,
    };
    if fresh {
        (in_flight, RefreshStep::Fresh)
    } else if in_flight.contains(id) {
        (in_flight, RefreshStep::Wait)
    } else {
        (in_flight.push(id), RefreshStep::MustFetch)
    }
}

/// In-process store of market entries, keyed by market id, with the set of
/// keys whose refresh is currently in flight.
pub struct MarketDataCache {
    markets: Vec<Market>,
    in_flight: Vec<MarketId>,
}

impl MarketDataCache {
    /// The cached entries, in insertion order.
    pub closed spec fn markets_seq(&self) -> Seq<Market> {
        self.markets@
    }

    /// The keys whose refresh is in flight.
    pub closed spec fn in_flight_seq(&self) -> Seq<Seq<char>> {
        self.in_flight@.map_values(|s: String| s@)
    }

    /// Cache invariant: keys unique on both sides, entries well-formed.
    pub open spec fn wf(&self) -> bool {
        &&& markets_wf(self.markets_seq())
        &&& keys_unique(self.in_flight_seq())
    }

    /// Whether a refresh for `id` is in flight.
    pub open spec fn spec_in_flight(&self, id: Seq<char>) -> bool {
        self.in_flight_seq().contains(id)
    }

    /// An empty cache with no refresh in flight.
    pub fn new() -> (r: Self)
        ensures
            r.wf(),
            r.markets_seq() == Seq::<Market>::empty(),
            r.in_flight_seq() == Seq::<Seq<char>>::empty(),
    {
        let r = MarketDataCache { markets: Vec::new(), in_flight: Vec::new() };
        proof {
            assert(r.in_flight_seq() =~= Seq::<Seq<char>>::empty());
        }
        r
    }

    /// Index of the entry keyed `id`, if one is cached.
    fn find(&self, id: &MarketId) -> (r: Option<usize>)
        ensures
            match r {
                Some(i) => i < self.markets_seq().len() && self.markets_seq()[i as int].id@
                    == id@,
                None => forall|i: int|
                    0 <= i < self.markets_seq().len() ==> (
                    #[trigger] self.markets_seq()[i].id)@ != id@,
            },
    {
        let mut j: usize = 0;
        while j < self.markets.len()
            invariant
                j <= self.markets@.len(),
                forall|t: int| 0 <= t < j ==> (#[trigger] self.markets@[t].id)@ != id@,
            decreases self.markets@.len() - j,
        {
            if self.markets[j].id == *id {
                return Some(j);
            }
            j += 1;
        }
        None
    }

    /// Whether `id` is in the in-flight set.
    fn key_in_flight(&self, id: &MarketId) -> (r: bool)
        ensures
            r == self.spec_in_flight(id@),
    {
        let mut j: usize = 0;
        while j < self.in_flight.len()
            invariant
                j <= self.in_flight@.len(),
                forall|t: int| 0 <= t < j ==> (#[trigger] self.in_flight@[t])@ != id@,
            decreases self.in_flight@.len() - j,
        {
            if self.in_flight[j] == *id {
                proof {
                    assert(self.in_flight_seq()[j as int] == id@);
                }
                return true;
            }
            j += 1;
        }
        proof {
            assert(forall|t: int|
                0 <= t < self.in_flight_seq().len() ==> #[trigger] self.in_flight_seq()[t]
                    != id@);
        }
        false
    }

    /// Takes `id` out of the in-flight set, if present; the entries are
    /// untouched.
    #[verifier::loop_isolation(false)]
    fn remove_in_flight(&mut self, id: &MarketId)
        requires
            keys_unique(old(self).in_flight_seq()),
        ensures
            final(self).markets_seq() == old(self).markets_seq(),
            keys_unique(final(self).in_flight_seq()),
            !final(self).spec_in_flight(id@),
            forall|k: Seq<char>|
                k != id@ ==> final(self).spec_in_flight(k) == old(self).spec_in_flight(k),
    {
        let ghost old_fl = old(self).in_flight_seq();
        let mut j: usize = 0;
        while j < self.in_flight.len()
            invariant
                self.markets@ == old(self).markets@,
                self.in_flight@ == old(self).in_flight@,
                j <= self.in_flight@.len(),
                forall|t: int| 0 <= t < j ==> (#[trigger] self.in_flight@[t])@ != id@,
            decreases self.in_flight@.len() - j,
        {
            if self.in_flight[j] == *id {
                let ghost old_v = self.in_flight@;
                self.in_flight.remove(j);
                proof {
                    let new_fl = self.in_flight_seq();
                    assert(old_v == old(self).in_flight@);
                    assert(old_fl.len() == old_v.len());
                    old_v.remove_ensures(j as int);
                    old_fl.remove_ensures(j as int);
                    assert(self.in_flight@ == old_v.remove(j as int));
                    assert forall|t: int|
                        0 <= t < new_fl.len() implies new_fl[t] == old_fl.remove(j as int)[t] by {
                        if t < j {
                            assert(self.in_flight@[t] == old_v[t]);
                            assert(old_fl.remove(j as int)[t] == old_fl[t]);
                        } else {
                            assert(self.in_flight@[t] == old_v[t + 1]);
                            assert(old_fl.remove(j as int)[t] == old_fl[t + 1]);
                        }
                    }
                    assert(new_fl =~= old_fl.remove(j as int));
                    assert(old_fl[j as int] == id@);
                    assert forall|k: Seq<char>| k != id@ implies self.spec_in_flight(k)
                        == old_fl.contains(k) by {
                        if old_fl.contains(k) {
                            let t = choose|t: int|
                                0 <= t < old_fl.len() && old_fl[t] == k;
                            if t < j {
                                assert(new_fl[t] == k);
                            } else {
                                assert(t > j);
                                assert(new_fl[t - 1] == k);
                            }
                            assert(new_fl.contains(k));
                        } else {
                            if new_fl.contains(k) {
                                let t = choose|t: int|
                                    0 <= t < new_fl.len() && new_fl[t] == k;
                                if t < j {
                                    assert(old_fl[t] == k);
                                } else {
                                    assert(old_fl[t + 1] == k);
                                }
                                assert(old_fl.contains(k));
                            }
                        }
                    }
                    assert(!self.spec_in_flight(id@)) by {
                        if self.spec_in_flight(id@) {
                            let t = choose|t: int|
                                0 <= t < new_fl.len() && new_fl[t] == id@;
                            if t < j {
                                assert(old_fl[t] == id@);
                                assert(false);
                            } else {
                                assert(old_fl[t + 1] == id@);
                                assert(keys_unique(old_fl));
                                assert(old_fl[j as int] == id@);
                                assert(false);
                            }
                        }
                    }
                    assert(keys_unique(self.in_flight_seq())) by {
                        assert forall|a: int, b: int|
                            0 <= a < b < new_fl.len() implies new_fl[a] != new_fl[b] by {
                            let a0: int = if a < j { a } else { a + 1 };
                            let b0: int = if b < j { b } else { b + 1 };
                            assert(new_fl[a] == old_fl[a0]);
                            assert(new_fl[b] == old_fl[b0]);
                            assert(old_fl[a0] != old_fl[b0]);
                        }
                    }
                }
                return;
            }
            j += 1;
        }
        proof {
            assert(!self.spec_in_flight(id@)) by {
                if self.spec_in_flight(id@) {
                    let t = choose|t: int|
                        0 <= t < self.in_flight_seq().len() && self.in_flight_seq()[t] == id@;
                    assert((self.in_flight@[t])@ == id@);
                    assert(false);
                }
            }
        }
    }

    /// The cached entry for `id`, without triggering any work.
    pub fn get(&self, id: &MarketId) -> (r: Option<&Market>)
        requires
            self.wf(),
        ensures
            match r {
                Some(m) => spec_get(self.markets_seq(), id@) == Some(*m),
                None => spec_get(self.markets_seq(), id@) is None,
            },
    {
        match self.find(id) {
            Some(i) => {
                proof {
                    lemma_get_at(self.markets_seq(), id@, i as int);
                }
                Some(&self.markets[i])
            },
            None => {
                proof {
                    lemma_get_absent(self.markets_seq(), id@);
                }
                None
            },
        }
    }

    /// Unconditional overwrite: afterwards `market` is the entry under its
    /// key, and every other key maps as before. Used when a provider push
    /// delivers a new tick.
    pub fn set(&mut self, market: Market)
        requires
            old(self).wf(),
            market.wf(),
        ensures
            final(self).wf(),
            final(self).in_flight_seq() == old(self).in_flight_seq(),
            spec_get(final(self).markets_seq(), market.id@) == Some(market),
            forall|k: Seq<char>|
                k != market.id@ ==> spec_get(final(self).markets_seq(), k) == spec_get(
                    old(self).markets_seq(),
                    k,
                ),
    {
        let ghost old_m = self.markets_seq();
        match self.find(&market.id) {
            Some(i) => {
                self.markets.remove(i);
                self.markets.insert(i, market);
                proof {
                    let new_m = self.markets_seq();
                    old_m.remove_ensures(i as int);
                    assert(new_m =~= old_m.update(i as int, market));
                    lemma_set_update(old_m, new_m, i as int, market);
                }
            },
            None => {
                self.markets.push(market);
                proof {
                    let new_m = self.markets_seq();
                    lemma_set_push(old_m, new_m, market);
                }
            },
        }
    }

    /// Serves a read for `id`: reports the entry fresh, or decides who
    /// refreshes. The entries themselves never change here; the key is put
    /// in flight exactly when the caller is told to fetch.
    pub fn get_or_refresh(&mut self, id: &MarketId, now: &Timestamp) -> (r: RefreshStep)
        requires
            old(self).wf(),
            now.wf(),
        ensures
            final(self).wf(),
            final(self).markets_seq() == old(self).markets_seq(),
            final(self).in_flight_seq() == spec_request_step(
                old(self).markets_seq(),
                old(self).in_flight_seq(),
                id@,
                *now,
            ).0,
            r == spec_request_step(
                old(self).markets_seq(),
                old(self).in_flight_seq(),
                id@,
                *now,
            ).1,
            r is Fresh ==> (match spec_get(old(self).markets_seq(), id@) {
                Some(m) => !m.spec_is_outdated(*now),
                None => false,
            }),
            r is MustFetch ==> !old(self).spec_in_flight(id@) && final(self).spec_in_flight(
                id@,
            ),
            r is Wait ==> old(self).spec_in_flight(id@),
    {
        let fresh = match self.find(id) {
            Some(i) => {
                proof {
                    lemma_get_at(self.markets_seq(), id@, i as int);
                    assert(self.markets_seq()[i as int].wf());
                }
                !self.markets[i].is_outdated_at(now)
            },
            None => {
                proof {
                    lemma_get_absent(self.markets_seq(), id@);
                }
                false
            },
        };
        if fresh {
            return RefreshStep::Fresh;
        }
        if self.key_in_flight(id) {
            return RefreshStep::Wait;
        }
        let ghost old_fl = self.in_flight_seq();
        self.in_flight.push(id.clone());
        proof {
            assert(self.in_flight_seq() =~= old_fl.push(id@));
            assert(keys_unique(self.in_flight_seq())) by {
                assert forall|a: int, b: int|
                    0 <= a < b < self.in_flight_seq().len() implies self.in_flight_seq()[a]
                    != self.in_flight_seq()[b] by {
                    if b < old_fl.len() {
                        assert(old_fl[a] != old_fl[b]);
                    } else {
                        assert(self.in_flight_seq()[b] == id@);
                        if old_fl[a] == id@ {
                            assert(old_fl.contains(id@));
                        }
                    }
                }
            }
            assert(self.spec_in_flight(id@)) by {
                assert(self.in_flight_seq()[old_fl.len() as int] == id@);
            }
        }
        RefreshStep::MustFetch
    }

    /// Applies the outcome of the single in-flight refresh for `id` and
    /// releases the key, resolving every waiter with the same stored entry.
    ///
    /// A fetched price replaces the entry's price wholesale. A failed fetch
    /// (`None`) never overwrites anything: the stale entry, if one exists,
    /// is kept and served (soft-fail, `Ok`); with no entry or no price to
    /// fall back on, the failure propagates as `RefreshFailed`.
    pub fn complete_refresh(&mut self, id: &MarketId, fetched: Option<Price>) -> (r: Result<
        (),
        DcaError,
    >)
        requires
            old(self).wf(),
            (match fetched {
                Some(p) => p.ts.wf(),
                None => true,
            }),
        ensures
            final(self).wf(),
            !final(self).spec_in_flight(id@),
            forall|k: Seq<char>|
                k != id@ ==> final(self).spec_in_flight(k) == old(self).spec_in_flight(k),
            (match fetched {
                Some(p) => match spec_get(old(self).markets_seq(), id@) {
                    Some(m) => {
                        &&& spec_get(final(self).markets_seq(), id@) == Some(
                            Market { price: Some(p), ..m },
                        )
                        &&& r is Ok
                    },
                    None => {
                        &&& final(self).markets_seq() == old(self).markets_seq()
                        &&& r == Err::<(), DcaError>(DcaError::RefreshFailed)
                    },
                },
                None => {
                    &&& final(self).markets_seq() == old(self).markets_seq()
                    &&& (match spec_get(old(self).markets_seq(), id@) {
                        Some(m) => r == (if m.price is Some {
                            Ok::<(), DcaError>(())
                        } else {
                            Err::<(), DcaError>(DcaError::RefreshFailed)
                        }),
                        None => r == Err::<(), DcaError>(DcaError::RefreshFailed),
                    })
                },
            }),
            forall|k: Seq<char>|
                k != id@ ==> spec_get(final(self).markets_seq(), k) == spec_get(
                    old(self).markets_seq(),
                    k,
                ),
    {
        self.remove_in_flight(id);
        match fetched {
            Some(p) => {
                match self.find(id) {
                    Some(i) => {
                        let ghost old_m = self.markets_seq();
                        proof {
                            lemma_get_at(old_m, id@, i as int);
                        }
                        let mut m = self.markets.remove(i);
                        m.set_price(p);
                        self.markets.insert(i, m);
                        proof {
                            let new_m = self.markets_seq();
                            old_m.remove_ensures(i as int);
                            assert(new_m =~= old_m.update(
                                i as int,
                                Market { price: Some(p), ..old_m[i as int] },
                            ));
                            lemma_set_update(
                                old_m,
                                new_m,
                                i as int,
                                Market { price: Some(p), ..old_m[i as int] },
                            );
                        }
                        Ok(())
                    },
                    None => {
                        proof {
                            lemma_get_absent(self.markets_seq(), id@);
                        }
                        Err(DcaError::RefreshFailed)
                    },
                }
            },
            None => {
                match self.find(id) {
                    Some(i) => {
                        proof {
                            lemma_get_at(self.markets_seq(), id@, i as int);
                        }
                        if self.markets[i].price().is_some() {
                            Ok(())
                        } else {
                            Err(DcaError::RefreshFailed)
                        }
                    },
                    None => {
                        proof {
                            lemma_get_absent(self.markets_seq(), id@);
                        }
                        Err(DcaError::RefreshFailed)
                    },
                }
            },
        }
    }
}

/// A burst of requests for one key, with no completion in between: the fold
/// of [`spec_request_step`] over the observation instants, yielding the
/// final in-flight keys and the step each request was told to take.
pub open spec fn spec_request_burst(
    markets: Seq<Market>,
    in_flight: Seq<Seq<char>>,
    id: Seq<char>,
    nows: Seq<Timestamp>,
) -> (Seq<Seq<char>>, Seq<RefreshStep>)
    decreases nows.len(),
{
    if nows.len() == 0 {
        (in_flight, Seq::empty())
    } else {
        let first = spec_request_step(markets, in_flight, id, nows[0]);
        let rest = spec_request_burst(markets, first.0, id, nows.drop_first());
        (rest.0, seq![first.1] + rest.1)
    }
}

/// Law: requests racing on one stale key collapse to a single refresh.
///
/// Over any burst of requests for a key that is outdated (or missing) at
/// every observation instant, with no completion in between: if a refresh
/// was already in flight, every request waits and nothing changes; otherwise
/// the first request is the one told to fetch, every later request waits,
/// and the key ends in flight. All waiters are then resolved by the single
/// [`MarketDataCache::complete_refresh`], whose one stored entry every
/// lookup returns alike.
pub proof fn lemma_single_refresh_per_burst(
    markets: Seq<Market>,
    in_flight: Seq<Seq<char>>,
    id: Seq<char>,
    nows: Seq<Timestamp>,
)
    requires
        forall|i: int|
            0 <= i < nows.len() ==> (match spec_get(markets, id) {
                Some(m) => m.spec_is_outdated(#[trigger] nows[i]),
                None => true,
            }),
    ensures
        spec_request_burst(markets, in_flight, id, nows).1.len() == nows.len(),
        in_flight.contains(id) ==> {
            &&& forall|i: int|
                0 <= i < nows.len() ==> (#[trigger] spec_request_burst(
                    markets,
                    in_flight,
                    id,
                    nows,
                ).1[i]) is Wait
            &&& spec_request_burst(markets, in_flight, id, nows).0 == in_flight
        },
        !in_flight.contains(id) && nows.len() > 0 ==> {
            &&& spec_request_burst(markets, in_flight, id, nows).1[0] is MustFetch
            &&& forall|i: int|
                1 <= i < nows.len() ==> (#[trigger] spec_request_burst(
                    markets,
                    in_flight,
                    id,
                    nows,
                ).1[i]) is Wait
            &&& spec_request_burst(markets, in_flight, id, nows).0 == in_flight.push(id)
        },
    decreases nows.len(),
{
    if nows.len() > 0 {
        let step = spec_request_step(markets, in_flight, id, nows[0]);
        let tail = nows.drop_first();
        let rest = spec_request_burst(markets, step.0, id, tail);
        let burst = spec_request_burst(markets, in_flight, id, nows);
        assert(burst.0 == rest.0 && burst.1 == seq![step.1] + rest.1);
        assert(match spec_get(markets, id) {
            Some(m) => m.spec_is_outdated(nows[0]),
            None => true,
        });
        assert forall|i: int|
            0 <= i < tail.len() implies (match spec_get(markets, id) {
            Some(m) => m.spec_is_outdated(#[trigger] tail[i]),
            None => true,
        }) by {
            assert(tail[i] == nows[i + 1]);
        }
        lemma_single_refresh_per_burst(markets, step.0, id, tail);
        assert(rest.1.len() == tail.len());
        assert(burst.1.len() == nows.len());
        if in_flight.contains(id) {
            assert(step.1 is Wait && step.0 == in_flight);
            assert forall|i: int| 0 <= i < nows.len() implies (#[trigger] burst.1[i]) is Wait by {
                if i == 0 {
                    assert(burst.1[0] == step.1);
                } else {
                    assert(burst.1[i] == rest.1[i - 1]);
                }
            }
        } else {
            assert(step.1 is MustFetch && step.0 == in_flight.push(id));
            assert(step.0.contains(id)) by {
                assert(step.0[in_flight.len() as int] == id);
            }
            assert(burst.1[0] == step.1);
            assert forall|i: int| 1 <= i < nows.len() implies (#[trigger] burst.1[i]) is Wait by {
                assert(burst.1[i] == rest.1[i - 1]);
            }
        }
    }
}

/// Replacing the entry at `i` by one carrying the same key keeps the
/// invariant, binds the key to the new entry, and leaves every other key's
/// lookup unchanged.
proof fn lemma_set_update(old_m: Seq<Market>, new_m: Seq<Market>, i: int, market: Market)
    requires
        markets_wf(old_m),
        market.wf(),
        0 <= i < old_m.len(),
        old_m[i].id@ == market.id@,
        new_m == old_m.update(i, market),
    ensures
        markets_wf(new_m),
        spec_get(new_m, market.id@) == Some(market),
        forall|k: Seq<char>| k != market.id@ ==> spec_get(new_m, k) == spec_get(old_m, k),
{
    assert(markets_wf(new_m)) by {
        assert forall|a: int, b: int| 0 <= a < b < new_m.len() implies new_m[a].id@
            != new_m[b].id@ by {
            assert(old_m[a].id@ != old_m[b].id@);
            assert(new_m[a].id@ == old_m[a].id@);
            assert(new_m[b].id@ == old_m[b].id@);
        }
        assert forall|a: int| 0 <= a < new_m.len() implies new_m[a].wf() by {
            assert(old_m[a].wf());
        }
    }
    lemma_get_at(new_m, market.id@, i);
    assert forall|k: Seq<char>| k != market.id@ implies spec_get(new_m, k) == spec_get(
        old_m,
        k,
    ) by {
        if spec_has_key(old_m, k) {
            let j = spec_index_of(old_m, k);
            assert(0 <= j < old_m.len() && old_m[j].id@ == k);
            lemma_get_at(old_m, k, j);
            assert(j != i);
            assert(new_m[j].id@ == k);
            lemma_get_at(new_m, k, j);
        } else {
            assert forall|t: int| 0 <= t < new_m.len() implies (#[trigger] new_m[t].id)@
                != k by {
                if t != i {
                    assert(old_m[t].id@ != k);
                }
            }
            lemma_get_absent(new_m, k);
        }
    }
}

/// Appending an entry with a fresh key keeps the invariant, binds the key to
/// the new entry, and leaves every other key's lookup unchanged.
proof fn lemma_set_push(old_m: Seq<Market>, new_m: Seq<Market>, market: Market)
    requires
        markets_wf(old_m),
        market.wf(),
        forall|i: int| 0 <= i < old_m.len() ==> (#[trigger] old_m[i].id)@ != market.id@,
        new_m == old_m.push(market),
    ensures
        markets_wf(new_m),
        spec_get(new_m, market.id@) == Some(market),
        forall|k: Seq<char>| k != market.id@ ==> spec_get(new_m, k) == spec_get(old_m, k),
{
    assert(markets_wf(new_m)) by {
        assert forall|a: int, b: int| 0 <= a < b < new_m.len() implies new_m[a].id@
            != new_m[b].id@ by {
            if b < old_m.len() {
                assert(old_m[a].id@ != old_m[b].id@);
            } else {
                assert(new_m[b] == market);
                assert(old_m[a].id@ != market.id@);
            }
        }
        assert forall|a: int| 0 <= a < new_m.len() implies new_m[a].wf() by {
            if a < old_m.len() {
                assert(old_m[a].wf());
            }
        }
    }
    lemma_get_at(new_m, market.id@, old_m.len() as int);
    assert forall|k: Seq<char>| k != market.id@ implies spec_get(new_m, k) == spec_get(
        old_m,
        k,
    ) by {
        if spec_has_key(old_m, k) {
            let j = spec_index_of(old_m, k);
            assert(0 <= j < old_m.len() && old_m[j].id@ == k);
            lemma_get_at(old_m, k, j);
            assert(new_m[j].id@ == k);
            lemma_get_at(new_m, k, j);
        } else {
            assert forall|t: int| 0 <= t < new_m.len() implies (#[trigger] new_m[t].id)@
                != k by {
                if t < old_m.len() {
                    assert(old_m[t].id@ != k);
                }
            }
            lemma_get_absent(new_m, k);
        }
    }
}

} // verus!

