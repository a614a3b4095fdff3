//! The token cache: valid tokens by account, bounded in number, and the
//! refreshes in flight, so that concurrent callers that miss on one account
//! share a single exchange and all receive its outcome.
//!
//! A caller asks `get_or_refresh`. On `Hit` it has its token. On `Lead` it
//! performs the exchange itself and reports the outcome with `finish`. On
//! `Follow` it waits until the leader has finished and takes the shared
//! outcome with `collect`.

use vstd::prelude::*;
use crate::assoc::{
    assoc_map, key_in, lemma_assoc_absent, lemma_assoc_at, lemma_assoc_len, lemma_assoc_push,
    lemma_assoc_remove, lemma_assoc_update, unique_keys,
};
use crate::text::str_eq;
use crate::token::{AuthError, CachedToken};

verus! {

/// The number of accounts whose tokens a cache made by `new` keeps.
pub const DEFAULT_CAPACITY: usize = 100;

/// The outcome of one exchange, as every caller that waited on it receives it.
pub type Outcome = Result<CachedToken, AuthError>;

pub struct TokenEntry {
    pub key: String,
    pub token: CachedToken,
}

/// A refresh in flight: its generation and how many callers wait on it.
pub struct Flight {
    pub key: String,
    pub generation: u64,
    pub waiters: u64,
}

/// A finished refresh whose outcome some waiters have yet to collect.
pub struct Settled {
    pub generation: u64,
    pub outcome: Outcome,
    pub waiters: u64,
}

/// What a caller of `get_or_refresh` does next.
#[derive(Debug)]
pub enum Step {
    /// A valid token was cached; no exchange is made.
    Hit(CachedToken),
    /// No refresh was running: the caller exchanges, then calls `finish`
    /// with this generation.
    Lead(u64),
    /// A refresh of this generation is running: the caller waits, then
    /// calls `collect` with it.
    Follow(u64),
}

/// The abstract state of a cache.
pub struct CacheModel {
    /// Cached tokens by account.
    pub tokens: Map<Seq<char>, CachedToken>,
    /// Refreshes in flight by account: generation and number of waiters.
    pub flights: Map<Seq<char>, (u64, u64)>,
    /// Finished refreshes by generation: outcome and waiters still to collect it.
    pub settled: Map<u64, (Outcome, u64)>,
    pub next_generation: u64,
    pub capacity: nat,
}

impl CacheModel {
    pub open spec fn wf(self) -> bool {
        &&& self.capacity > 0
        &&& self.tokens.dom().finite()
        &&& self.tokens.len() <= self.capacity
    }

    /// The counters can take one more caller.
    pub open spec fn has_room(self) -> bool {
        &&& self.next_generation < u64::MAX
        &&& forall|k: Seq<char>| #[trigger]
            self.flights.contains_key(k) ==> self.flights[k].1 < u64::MAX
    }

    pub open spec fn has_valid(self, key: Seq<char>, now: u64) -> bool {
        self.tokens.contains_key(key) && self.tokens[key].valid_at(now)
    }

    /// A call of `get_or_refresh`: a valid token is returned as it is;
    /// otherwise the caller joins the refresh in flight for the account, or
    /// opens one under a fresh generation.
    pub open spec fn get_step(self, key: Seq<char>, now: u64) -> (CacheModel, Step) {
        if self.has_valid(key, now) {
            (self, Step::Hit(self.tokens[key]))
        } else if self.flights.contains_key(key) {
            let f = self.flights[key];
            (
                CacheModel { flights: self.flights.insert(key, (f.0, (f.1 + 1) as u64)), ..self },
                Step::Follow(f.0),
            )
        } else {
            (
                CacheModel {
                    flights: self.flights.insert(key, (self.next_generation, 0)),
                    next_generation: (self.next_generation + 1) as u64,
                    ..self
                },
                Step::Lead(self.next_generation),
            )
        }
    }

    /// `victim` holds the token refreshed least recently.
    pub open spec fn least_refreshed(self, victim: Seq<char>) -> bool {
        &&& self.tokens.contains_key(victim)
        &&& forall|k: Seq<char>| #[trigger]
            self.tokens.contains_key(k) ==> self.tokens[victim].obtained_at
                <= self.tokens[k].obtained_at
    }

    /// Storing `t` for `key` gives `after`: it replaces the account's entry,
    /// or is added while there is room, or else takes the place of a token
    /// refreshed least recently.
    pub open spec fn stores(self, key: Seq<char>, t: CachedToken, after: Map<Seq<char>, CachedToken>) -> bool {
        if self.tokens.contains_key(key) || self.tokens.len() < self.capacity {
            after == self.tokens.insert(key, t)
        } else {
            exists|v: Seq<char>| self.least_refreshed(v) && after == self.tokens.remove(v).insert(key, t)
        }
    }

    /// A call of `finish` gives `after`: a token is stored, a failure is
    /// not; the flight of that generation ends, and where callers wait on
    /// it its outcome is kept for each of them.
    pub open spec fn finish_step(
        self,
        key: Seq<char>,
        generation: u64,
        outcome: Outcome,
        after: CacheModel,
    ) -> bool {
        let leads = self.flights.contains_key(key) && self.flights[key].0 == generation;
        let waiters = self.flights[key].1;
        &&& match outcome {
            Ok(t) => self.stores(key, t, after.tokens),
            Err(_) => after.tokens == self.tokens,
        }
        &&& after.flights == if leads {
            self.flights.remove(key)
        } else {
            self.flights
        }
        &&& after.settled == if leads && waiters > 0 {
            self.settled.insert(generation, (outcome, waiters))
        } else {
            self.settled
        }
        &&& after.next_generation == self.next_generation
        &&& after.capacity == self.capacity
    }

    /// A call of `collect`: the outcome of a finished generation, counted
    /// off against its waiters; `None` while it has not finished.
    pub open spec fn collect_step(self, generation: u64) -> (CacheModel, Option<Outcome>) {
        if self.settled.contains_key(generation) {
            let s = self.settled[generation];
            let settled = if s.1 <= 1 {
                self.settled.remove(generation)
            } else {
                self.settled.insert(generation, (s.0, (s.1 - 1) as u64))
            };
            (CacheModel { settled, ..self }, Some(s.0))
        } else {
            (self, None)
        }
    }
}

impl CacheModel {
    /// Some account's refresh in flight has this generation.
    pub open spec fn flight_of(self, generation: u64) -> Option<Seq<char>> {
        if exists|k: Seq<char>| #[trigger]
            self.flights.contains_key(k) && self.flights[k].0 == generation {
            Some(
                choose|k: Seq<char>| #[trigger]
                    self.flights.contains_key(k) && self.flights[k].0 == generation,
            )
        } else {
            None
        }
    }

    /// A waiting caller of `generation` gives up: it is counted off the
    /// finished outcome, or off the refresh still in flight, which runs on
    /// for the others.
    pub open spec fn abandon_step(self, generation: u64) -> CacheModel {
        if self.settled.contains_key(generation) {
            self.collect_step(generation).0
        } else {
            match self.flight_of(generation) {
                Some(k) => if self.flights[k].1 > 0 {
                    CacheModel {
                        flights: self.flights.insert(k, (generation, (self.flights[k].1 - 1) as u64)),
                        ..self
                    }
                } else {
                    self
                },
                None => self,
            }
        }
    }
}

pub open spec fn token_pairs(s: Seq<TokenEntry>) -> Seq<(Seq<char>, CachedToken)> {
    Seq::new(s.len(), |i: int| (s[i].key@, s[i].token))
}

pub open spec fn flight_pairs(s: Seq<Flight>) -> Seq<(Seq<char>, (u64, u64))> {
    Seq::new(s.len(), |i: int| (s[i].key@, (s[i].generation, s[i].waiters)))
}

pub open spec fn settled_pairs(s: Seq<Settled>) -> Seq<(u64, (Outcome, u64))> {
    Seq::new(s.len(), |i: int| (s[i].generation, (s[i].outcome, s[i].waiters)))
}

fn clone_outcome(o: &Outcome) -> (r: Outcome)
    ensures
        r == *o,
{
    match o {
        Ok(t) => Ok(t.clone()),
        Err(e) => Err(e.clone()),
    }
}

/// Tokens by account and the refreshes in flight.
pub struct TokenCache {
    tokens: Vec<TokenEntry>,
    flights: Vec<Flight>,
    settled: Vec<Settled>,
    next_generation: u64,
    capacity: usize,
}

impl View for TokenCache {
    type V = CacheModel;

    closed spec fn view(&self) -> CacheModel {
        CacheModel {
            tokens: assoc_map(token_pairs(self.tokens@)),
            flights: assoc_map(flight_pairs(self.flights@)),
            settled: assoc_map(settled_pairs(self.settled@)),
            next_generation: self.next_generation,
            capacity: self.capacity as nat,
        }
    }
}

impl TokenCache {
    pub closed spec fn wf(&self) -> bool {
        &&& unique_keys(token_pairs(self.tokens@))
        &&& unique_keys(flight_pairs(self.flights@))
        &&& unique_keys(settled_pairs(self.settled@))
        &&& self.capacity > 0
        &&& self.tokens@.len() <= self.capacity
        &&& forall|i: int|
            0 <= i < self.flights@.len() ==> #[trigger] self.flights@[i].generation < self.next_generation
        &&& forall|i: int, j: int|
            0 <= i < self.flights@.len() && 0 <= j < self.flights@.len() && i != j
                ==> #[trigger] self.flights@[i].generation != #[trigger] self.flights@[j].generation
    }

    /// A cache holds no more tokens than its capacity, one per account.
    pub proof fn lemma_bounded(&self)
        requires
            self.wf(),
        ensures
            self@.wf(),
    {
        self.lemma_wf();
    }

    proof fn lemma_wf(&self)
        requires
            self.wf(),
        ensures
            self@.wf(),
            self@.tokens.len() == self.tokens@.len(),
    {
        lemma_assoc_len(token_pairs(self.tokens@));
    }

    /// An empty cache that keeps the tokens of `DEFAULT_CAPACITY` accounts.
    pub fn new() -> (r: TokenCache)
        ensures
            r.wf(),
            r@.tokens.is_empty(),
            r@.flights.is_empty(),
            r@.settled.is_empty(),
            r@.next_generation == 0,
            r@.capacity == DEFAULT_CAPACITY,
    {
        let r = TokenCache {
            tokens: Vec::new(),
            flights: Vec::new(),
            settled: Vec::new(),
            next_generation: 0,
            capacity: DEFAULT_CAPACITY,
        };
        proof {
            assert(r@.tokens =~= Map::empty());
            assert(r@.flights =~= Map::empty());
            assert(r@.settled =~= Map::empty());
        }
        r
    }

    /// An empty cache that keeps the tokens of `capacity` accounts; `None`
    /// for a capacity of zero.
    pub fn with_capacity(capacity: usize) -> (r: Option<TokenCache>)
        ensures
            capacity == 0 ==> r is None,
            capacity > 0 ==> r is Some && r->Some_0.wf() && r->Some_0@.tokens.is_empty()
                && r->Some_0@.flights.is_empty() && r->Some_0@.settled.is_empty()
                && r->Some_0@.next_generation == 0 && r->Some_0@.capacity == capacity,
    {
        if capacity == 0 {
            return None;
        }
        let r = TokenCache {
            tokens: Vec::new(),
            flights: Vec::new(),
            settled: Vec::new(),
            next_generation: 0,
            capacity,
        };
        proof {
            assert(r@.tokens =~= Map::empty());
            assert(r@.flights =~= Map::empty());
            assert(r@.settled =~= Map::empty());
        }
        Some(r)
    }

    fn find_token(&self, key: &str) -> (r: Option<usize>)
        ensures
            match r {
                Some(i) => i < self.tokens@.len() && self.tokens@[i as int].key@ == key@,
                None => forall|i: int|
                    0 <= i < self.tokens@.len() ==> #[trigger] self.tokens@[i].key@ != key@,
            },
    {
        let mut i: usize = 0;
        while i < self.tokens.len()
            invariant
                0 <= i <= self.tokens@.len(),
                forall|j: int| 0 <= j < i ==> #[trigger] self.tokens@[j].key@ != key@,
            decreases self.tokens@.len() - i,
        {
            if str_eq(self.tokens[i].key.as_str(), key) {
                return Some(i);
            }
            i = i + 1;
        }
        None
    }

    fn find_flight(&self, key: &str) -> (r: Option<usize>)
        ensures
            match r {
                Some(i) => i < self.flights@.len() && self.flights@[i as int].key@ == key@,
                None => forall|i: int|
                    0 <= i < self.flights@.len() ==> #[trigger] self.flights@[i].key@ != key@,
            },
    {
        let mut i: usize = 0;
        while i < self.flights.len()
            invariant
                0 <= i <= self.flights@.len(),
                forall|j: int| 0 <= j < i ==> #[trigger] self.flights@[j].key@ != key@,
            decreases self.flights@.len() - i,
        {
            if str_eq(self.flights[i].key.as_str(), key) {
                return Some(i);
            }
            i = i + 1;
        }
        None
    }

    fn find_settled(&self, generation: u64) -> (r: Option<usize>)
        ensures
            match r {
                Some(i) => i < self.settled@.len() && self.settled@[i as int].generation == generation,
                None => forall|i: int|
                    0 <= i < self.settled@.len() ==> #[trigger] self.settled@[i].generation
                        != generation,
            },
    {
        let mut i: usize = 0;
        while i < self.settled.len()
            invariant
                0 <= i <= self.settled@.len(),
                forall|j: int| 0 <= j < i ==> #[trigger] self.settled@[j].generation != generation,
            decreases self.settled@.len() - i,
        {
            if self.settled[i].generation == generation {
                return Some(i);
            }
            i = i + 1;
        }
        None
    }

    /// Whether the counters can take one more caller of `get_or_refresh`.
    pub fn has_room(&self) -> (r: bool)
        requires
            self.wf(),
        ensures
            r == self@.has_room(),
    {
        if self.next_generation == u64::MAX {
            return false;
        }
        let mut i: usize = 0;
        while i < self.flights.len()
            invariant
                self.wf(),
                0 <= i <= self.flights@.len(),
                forall|j: int| 0 <= j < i ==> #[trigger] self.flights@[j].waiters < u64::MAX,
            decreases self.flights@.len() - i,
        {
            if self.flights[i].waiters == u64::MAX {
                proof {
                    let p = flight_pairs(self.flights@);
                    lemma_assoc_at(p, i as int);
                    assert(self@.flights.contains_key(p[i as int].0));
                    assert(self@.flights[p[i as int].0].1 == u64::MAX);
                }
                return false;
            }
            i = i + 1;
        }
        proof {
            assert forall|k: Seq<char>| #[trigger] self@.flights.contains_key(k) implies self@.flights[k].1
                < u64::MAX by {
                let p = flight_pairs(self.flights@);
                let j = choose|j: int| 0 <= j < p.len() && #[trigger] p[j].0 == k;
                lemma_assoc_at(p, j);
            }
        }
        true
    }

    /// Looks up the token of `key` at time `now`; see `CacheModel::get_step`.
    pub fn get_or_refresh(&mut self, key: &str, now: u64) -> (r: Step)
        requires
            old(self).wf(),
            old(self)@.has_room(),
        ensures
            final(self).wf(),
            final(self)@ == old(self)@.get_step(key@, now).0,
            r == old(self)@.get_step(key@, now).1,
            old(self)@.has_valid(key@, now) ==> r == Step::Hit(old(self)@.tokens[key@])
                && final(self)@ == old(self)@,
            !old(self)@.has_valid(key@, now) && old(self)@.flights.contains_key(key@) ==> r
                == Step::Follow(old(self)@.flights[key@].0),
            !old(self)@.has_valid(key@, now) && !old(self)@.flights.contains_key(key@) ==> r
                == Step::Lead(old(self)@.next_generation) && final(self)@.flights.contains_key(key@)
                && final(self)@.flights[key@].0 == old(self)@.next_generation,
    {
        let ghost tp = token_pairs(self.tokens@);
        let ghost fp = flight_pairs(self.flights@);
        match self.find_token(key) {
            Some(i) => {
                proof {
                    lemma_assoc_at(tp, i as int);
                }
                if self.tokens[i].token.is_valid(now) {
                    return Step::Hit(self.tokens[i].token.clone());
                }
            },
            None => {
                proof {
                    lemma_assoc_absent(tp, key@);
                }
            },
        }
        match self.find_flight(key) {
            Some(i) => {
                proof {
                    lemma_assoc_at(fp, i as int);
                    lemma_assoc_update(fp, i as int, (fp[i as int].1.0, (fp[i as int].1.1 + 1) as u64));
                }
                let generation = self.flights[i].generation;
                let waiters = self.flights[i].waiters;
                let k = self.flights[i].key.clone();
                self.flights.set(i, Flight { key: k, generation, waiters: waiters + 1 });
                proof {
                    assert(flight_pairs(self.flights@) =~= fp.update(
                        i as int,
                        (fp[i as int].0, (generation, (waiters + 1) as u64)),
                    ));
                }
                Step::Follow(generation)
            },
            None => {
                proof {
                    lemma_assoc_absent(fp, key@);
                    assert(!key_in(fp, key@));
                    lemma_assoc_push(fp, key@, (self.next_generation, 0u64));
                }
                let generation = self.next_generation;
                self.flights.push(Flight { key: String::from_str(key), generation, waiters: 0 });
                self.next_generation = generation + 1;
                proof {
                    assert(flight_pairs(self.flights@) =~= fp.push((key@, (generation, 0u64))));
                }
                Step::Lead(generation)
            },
        }
    }

    /// The index of a token refreshed least recently.
    fn least_refreshed_index(&self) -> (r: usize)
        requires
            self.tokens@.len() > 0,
        ensures
            r < self.tokens@.len(),
            forall|j: int|
                0 <= j < self.tokens@.len() ==> self.tokens@[r as int].token.obtained_at
                    <= #[trigger] self.tokens@[j].token.obtained_at,
    {
        let mut best: usize = 0;
        let mut i: usize = 1;
        while i < self.tokens.len()
            invariant
                self.tokens@.len() > 0,
                1 <= i <= self.tokens@.len(),
                best < i,
                forall|j: int|
                    0 <= j < i ==> self.tokens@[best as int].token.obtained_at
                        <= #[trigger] self.tokens@[j].token.obtained_at,
            decreases self.tokens@.len() - i,
        {
            if self.tokens[i].token.obtained_at < self.tokens[best].token.obtained_at {
                best = i;
            }
            i = i + 1;
        }
        best
    }

    /// Stores `t` as the token of `key`; see `CacheModel::stores`.
    fn store(&mut self, key: &str, t: CachedToken)
        requires
            old(self).wf(),
        ensures
            final(self).wf(),
            old(self)@.stores(key@, t, final(self)@.tokens),
            final(self)@.flights == old(self)@.flights,
            final(self)@.settled == old(self)@.settled,
            final(self)@.next_generation == old(self)@.next_generation,
            final(self)@.capacity == old(self)@.capacity,
    {
        let ghost tp = token_pairs(self.tokens@);
        proof {
            self.lemma_wf();
        }
        match self.find_token(key) {
            Some(i) => {
                proof {
                    lemma_assoc_at(tp, i as int);
                    lemma_assoc_update(tp, i as int, t);
                }
                let k = self.tokens[i].key.clone();
                self.tokens.set(i, TokenEntry { key: k, token: t });
                proof {
                    assert(token_pairs(self.tokens@) =~= tp.update(i as int, (tp[i as int].0, t)));
                }
            },
            None => {
                proof {
                    lemma_assoc_absent(tp, key@);
                }
                if self.tokens.len() < self.capacity {
                    proof {
                        lemma_assoc_push(tp, key@, t);
                    }
                    self.tokens.push(TokenEntry { key: String::from_str(key), token: t });
                    proof {
                        assert(token_pairs(self.tokens@) =~= tp.push((key@, t)));
                    }
                } else {
                    let v = self.least_refreshed_index();
                    let ghost victim = tp[v as int].0;
                    proof {
                        lemma_assoc_at(tp, v as int);
                        assert forall|k: Seq<char>| #[trigger] old(self)@.tokens.contains_key(k) implies old(
                            self,
                        )@.tokens[victim].obtained_at <= old(self)@.tokens[k].obtained_at by {
                            let j = choose|j: int| 0 <= j < tp.len() && #[trigger] tp[j].0 == k;
                            lemma_assoc_at(tp, j);
                            assert(self.tokens@[j].token.obtained_at >= self.tokens@[v as int].token.obtained_at);
                        }
                        assert(old(self)@.least_refreshed(victim));
                        lemma_assoc_remove(tp, v as int);
                    }
                    self.tokens.remove(v);
                    let ghost rp = token_pairs(self.tokens@);
                    proof {
                        assert(rp =~= tp.remove(v as int));
                        assert forall|j: int| 0 <= j < rp.len() implies #[trigger] rp[j].0 != key@ by {
                            if j < v {
                                assert(rp[j] == tp[j]);
                            } else {
                                assert(rp[j] == tp[j + 1]);
                            }
                        }
                        assert(!key_in(rp, key@));
                        lemma_assoc_push(rp, key@, t);
                    }
                    self.tokens.push(TokenEntry { key: String::from_str(key), token: t });
                    proof {
                        assert(token_pairs(self.tokens@) =~= rp.push((key@, t)));
                    }
                }
            },
        }
    }

    /// Keeps `outcome` for the `waiters` callers of `generation`.
    fn settle(&mut self, generation: u64, outcome: Outcome, waiters: u64)
        requires
            old(self).wf(),
        ensures
            final(self).wf(),
            final(self)@ == (CacheModel {
                settled: old(self)@.settled.insert(generation, (outcome, waiters)),
                ..old(self)@
            }),
    {
        let ghost sp = settled_pairs(self.settled@);
        match self.find_settled(generation) {
            Some(j) => {
                proof {
                    lemma_assoc_update(sp, j as int, (outcome, waiters));
                }
                self.settled.set(j, Settled { generation, outcome, waiters });
                proof {
                    assert(settled_pairs(self.settled@) =~= sp.update(j as int, (generation, (outcome, waiters))));
                }
            },
            None => {
                proof {
                    assert(!key_in(sp, generation));
                    lemma_assoc_push(sp, generation, (outcome, waiters));
                }
                self.settled.push(Settled { generation, outcome, waiters });
                proof {
                    assert(settled_pairs(self.settled@) =~= sp.push((generation, (outcome, waiters))));
                }
            },
        }
    }

    /// Reports the outcome of the exchange that the leader of `generation`
    /// made for `key`, and returns it; see `CacheModel::finish_step`.
    pub fn finish(&mut self, key: &str, generation: u64, outcome: Outcome) -> (r: Outcome)
        requires
            old(self).wf(),
        ensures
            final(self).wf(),
            r == outcome,
            old(self)@.finish_step(key@, generation, outcome, final(self)@),
            outcome is Ok ==> final(self)@.tokens.contains_key(key@) && final(self)@.tokens[key@]
                == outcome->Ok_0,
            outcome is Err ==> final(self)@.tokens == old(self)@.tokens,
    {
        match &outcome {
            Ok(t) => self.store(key, t.clone()),
            Err(_) => {},
        }
        let ghost mid = self@;
        let ghost fp = flight_pairs(self.flights@);
        match self.find_flight(key) {
            Some(i) => {
                proof {
                    lemma_assoc_at(fp, i as int);
                }
                if self.flights[i].generation == generation {
                    let waiters = self.flights[i].waiters;
                    proof {
                        lemma_assoc_remove(fp, i as int);
                    }
                    self.flights.remove(i);
                    proof {
                        assert(flight_pairs(self.flights@) =~= fp.remove(i as int));
                    }
                    if waiters > 0 {
                        self.settle(generation, clone_outcome(&outcome), waiters);
                    }
                }
            },
            None => {
                proof {
                    lemma_assoc_absent(fp, key@);
                }
            },
        }
        outcome
    }

    /// Takes the outcome of `generation` for one waiting caller; see
    /// `CacheModel::collect_step`.
    pub fn collect(&mut self, generation: u64) -> (r: Option<Outcome>)
        requires
            old(self).wf(),
        ensures
            final(self).wf(),
            final(self)@ == old(self)@.collect_step(generation).0,
            r == old(self)@.collect_step(generation).1,
            old(self)@.settled.contains_key(generation) ==> r == Some(
                old(self)@.settled[generation].0,
            ),
    {
        let ghost sp = settled_pairs(self.settled@);
        match self.find_settled(generation) {
            Some(j) => {
                proof {
                    lemma_assoc_at(sp, j as int);
                }
                let out = clone_outcome(&self.settled[j].outcome);
                let waiters = self.settled[j].waiters;
                if waiters <= 1 {
                    proof {
                        lemma_assoc_remove(sp, j as int);
                    }
                    self.settled.remove(j);
                    proof {
                        assert(settled_pairs(self.settled@) =~= sp.remove(j as int));
                    }
                } else {
                    proof {
                        lemma_assoc_update(sp, j as int, (out, (waiters - 1) as u64));
                    }
                    self.settled.set(j, Settled { generation, outcome: clone_outcome(&out), waiters: waiters - 1 });
                    proof {
                        assert(settled_pairs(self.settled@) =~= sp.update(j as int, (generation, (out, (waiters - 1) as u64))));
                    }
                }
                Some(out)
            },
            None => {
                proof {
                    lemma_assoc_absent(sp, generation);
                }
                None
            },
        }
    }
}

impl TokenCache {
    fn find_generation(&self, generation: u64) -> (r: Option<usize>)
        ensures
            match r {
                Some(i) => i < self.flights@.len() && self.flights@[i as int].generation == generation,
                None => forall|i: int|
                    0 <= i < self.flights@.len() ==> #[trigger] self.flights@[i].generation
                        != generation,
            },
    {
        let mut i: usize = 0;
        while i < self.flights.len()
            invariant
                0 <= i <= self.flights@.len(),
                forall|j: int| 0 <= j < i ==> #[trigger] self.flights@[j].generation != generation,
            decreases self.flights@.len() - i,
        {
            if self.flights[i].generation == generation {
                return Some(i);
            }
            i = i + 1;
        }
        None
    }

    /// A caller that waits on `generation` gives up; see
    /// `CacheModel::abandon_step`. The refresh itself is not cancelled.
    pub fn abandon(&mut self, generation: u64)
        requires
            old(self).wf(),
        ensures
            final(self).wf(),
            final(self)@ == old(self)@.abandon_step(generation),
    {
        let ghost sp = settled_pairs(self.settled@);
        let ghost fp = flight_pairs(self.flights@);
        match self.find_settled(generation) {
            Some(j) => {
                proof {
                    lemma_assoc_at(sp, j as int);
                }
                let _ = self.collect(generation);
                return ;
            },
            None => {
                proof {
                    lemma_assoc_absent(sp, generation);
                }
            },
        }
        match self.find_generation(generation) {
            Some(i) => {
                let ghost key = fp[i as int].0;
                proof {
                    lemma_assoc_at(fp, i as int);
                    let m = self@;
                    assert(m.flights.contains_key(key) && m.flights[key].0 == generation);
                    let k = choose|k: Seq<char>| #[trigger]
                        m.flights.contains_key(k) && m.flights[k].0 == generation;
                    let j = choose|j: int| 0 <= j < fp.len() && #[trigger] fp[j].0 == k;
                    lemma_assoc_at(fp, j);
                    assert(j == i);
                    assert(m.flight_of(generation) == Some(key));
                }
                let waiters = self.flights[i].waiters;
                if waiters > 0 {
                    proof {
                        lemma_assoc_update(fp, i as int, (generation, (waiters - 1) as u64));
                    }
                    let k = self.flights[i].key.clone();
                    self.flights.set(i, Flight { key: k, generation, waiters: waiters - 1 });
                    proof {
                        assert(flight_pairs(self.flights@) =~= fp.update(
                            i as int,
                            (key, (generation, (waiters - 1) as u64)),
                        ));
                    }
                }
            },
            None => {
                proof {
                    let m = self@;
                    assert forall|k: Seq<char>| #[trigger] m.flights.contains_key(k) implies m.flights[k].0
                        != generation by {
                        let j = choose|j: int| 0 <= j < fp.len() && #[trigger] fp[j].0 == k;
                        lemma_assoc_at(fp, j);
                    }
                    assert(m.flight_of(generation) is None);
                }
            },
        }
    }
}

/// The state after `n` calls of `get_or_refresh` for `key` at `now`.
pub open spec fn gets(m: CacheModel, key: Seq<char>, now: u64, n: nat) -> CacheModel
    decreases n,
{
    if n == 0 {
        m
    } else {
        gets(m, key, now, (n - 1) as nat).get_step(key, now).0
    }
}

/// The state after `n` calls of `collect` for `generation`.
pub open spec fn collects(m: CacheModel, generation: u64, n: nat) -> CacheModel
    decreases n,
{
    if n == 0 {
        m
    } else {
        collects(m, generation, (n - 1) as nat).collect_step(generation).0
    }
}

/// A token that is still valid is handed out as cached: the state does not
/// change and nothing is exchanged.
pub proof fn lemma_valid_token_is_served(m: CacheModel, key: Seq<char>, now: u64)
    requires
        m.tokens.contains_key(key),
        m.tokens[key].valid_at(now),
    ensures
        m.get_step(key, now) == (m, Step::Hit(m.tokens[key])),
{
}

/// A token is handed out only within its validity window, and only as the
/// account's cached token.
pub proof fn lemma_hit_is_valid(m: CacheModel, key: Seq<char>, now: u64)
    requires
        m.get_step(key, now).1 is Hit,
    ensures
        m.tokens.contains_key(key),
        m.get_step(key, now).1->Hit_0 == m.tokens[key],
        m.tokens[key].valid_at(now),
{
}

/// A token past its validity is not handed out: the caller leads one
/// exchange, and the token that it brings back becomes the account's token.
pub proof fn lemma_expired_token_is_refreshed(
    m: CacheModel,
    key: Seq<char>,
    now: u64,
    t: CachedToken,
    after: CacheModel,
)
    requires
        m.tokens.contains_key(key),
        !m.tokens[key].valid_at(now),
        !m.flights.contains_key(key),
        m.get_step(key, now).0.finish_step(key, m.next_generation, Ok(t), after),
    ensures
        m.get_step(key, now).1 == Step::Lead(m.next_generation),
        after.tokens == m.tokens.insert(key, t),
        !after.flights.contains_key(key),
{
}

proof fn lemma_gets(m: CacheModel, key: Seq<char>, now: u64, i: nat)
    requires
        !m.has_valid(key, now),
        !m.flights.contains_key(key),
        m.next_generation < u64::MAX,
        1 <= i < u64::MAX,
    ensures
        gets(m, key, now, i).tokens == m.tokens,
        gets(m, key, now, i).settled == m.settled,
        gets(m, key, now, i).next_generation == m.next_generation + 1,
        gets(m, key, now, i).capacity == m.capacity,
        gets(m, key, now, i).flights == m.flights.insert(key, (m.next_generation, (i - 1) as u64)),
    decreases i,
{
    assert(gets(m, key, now, 0) == m);
    if i > 1 {
        lemma_gets(m, key, now, (i - 1) as nat);
        let p = gets(m, key, now, (i - 1) as nat);
        assert(p.flights.insert(key, (p.flights[key].0, (p.flights[key].1 + 1) as u64)) =~= m.flights.insert(
            key,
            (m.next_generation, (i - 1) as u64),
        ));
    }
}

proof fn lemma_collects(m: CacheModel, generation: u64, outcome: Outcome, w: nat, i: nat)
    requires
        m.settled.contains_key(generation),
        m.settled[generation] == (outcome, w as u64),
        i < w < u64::MAX,
    ensures
        collects(m, generation, i).settled.contains_key(generation),
        collects(m, generation, i).settled[generation] == (outcome, (w - i) as u64),
    decreases i,
{
    assert(collects(m, generation, 0) == m);
    if i > 0 {
        lemma_collects(m, generation, outcome, w, (i - 1) as nat);
    }
}

/// Concurrent callers that miss on one account share a single exchange: of
/// `n` calls the first leads and every later one follows the same
/// generation; once the leader has finished, each of the `n - 1` followers
/// collects the leader's outcome.
pub proof fn lemma_single_flight(
    m: CacheModel,
    key: Seq<char>,
    now: u64,
    n: nat,
    outcome: Outcome,
    after: CacheModel,
)
    requires
        !m.has_valid(key, now),
        !m.flights.contains_key(key),
        m.next_generation < u64::MAX,
        1 <= n < u64::MAX,
        gets(m, key, now, n).finish_step(key, m.next_generation, outcome, after),
    ensures
        m.get_step(key, now).1 == Step::Lead(m.next_generation),
        forall|i: nat|
            1 <= i < n ==> (#[trigger] gets(m, key, now, i)).get_step(key, now).1 == Step::Follow(
                m.next_generation,
            ),
        forall|i: nat|
            i < n - 1 ==> (#[trigger] collects(after, m.next_generation, i)).collect_step(
                m.next_generation,
            ).1 == Some(outcome),
{
    assert forall|i: nat| 1 <= i < n implies (#[trigger] gets(m, key, now, i)).get_step(key, now).1
        == Step::Follow(m.next_generation) by {
        lemma_gets(m, key, now, i);
    }
    lemma_gets(m, key, now, n);
    if n > 1 {
        assert(after.settled == m.settled.insert(m.next_generation, (outcome, (n - 1) as u64)));
        assert forall|i: nat| i < n - 1 implies (#[trigger] collects(after, m.next_generation, i)).collect_step(
            m.next_generation,
        ).1 == Some(outcome) by {
            lemma_collects(after, m.next_generation, outcome, (n - 1) as nat, i);
        }
    }
}

/// A failed exchange caches nothing: the account's tokens stay as they were,
/// its flight ends, and the next caller leads a new exchange.
pub proof fn lemma_failure_not_cached(
    m: CacheModel,
    key: Seq<char>,
    now: u64,
    later: u64,
    e: AuthError,
    after: CacheModel,
)
    requires
        !m.has_valid(key, now),
        !m.flights.contains_key(key),
        now <= later,
        m.next_generation < u64::MAX,
        m.get_step(key, now).0.finish_step(key, m.next_generation, Err(e), after),
    ensures
        m.get_step(key, now).1 == Step::Lead(m.next_generation),
        after.tokens == m.tokens,
        !after.flights.contains_key(key),
        after.get_step(key, later).1 == Step::Lead(after.next_generation),
        after.next_generation == m.next_generation + 1,
{
    assert(m.get_step(key, now).0.flights.remove(key) =~= m.flights.remove(key));
}

} // verus!
