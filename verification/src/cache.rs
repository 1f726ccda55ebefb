//! The rate cache: the one place that holds the snapshot, filled at most
//! once and never changed afterwards.
//!
//! A caller needs exclusive access (`&mut`) to fill the cache, so callers
//! that share one cache take turns. A turn is [`RateCache::get_snapshot`]:
//! it fetches only if the cache is empty and keeps only a fetch that
//! succeeded. A host that cannot fetch from inside a call does the same in
//! two steps, [`RateCache::snapshot`] and, after a fetch of its own,
//! [`RateCache::store`].
//!
//! The spec functions [`turn`], [`cache_after`], [`turn_at`] and
//! [`fetch_count`] describe runs of such turns; the `law_` proofs state what
//! holds of every run.

use crate::feed::{
    outcome_view, receive, received, FetchOutcome, FetchOutcomeView, RemoteFetchError, Transfer,
};
use crate::scan::{first_index, lemma_first_index, lemma_first_index_is};
use crate::snapshot::{Snapshot, SnapshotView};
use vstd::prelude::*;

verus! {

/// Mathematical value of a [`RateCache`]: the snapshot it holds, if any.
pub type CacheView = Option<SnapshotView>;

/// The cache after an outcome has been handed to it: a filled cache keeps
/// what it holds, an empty one takes a snapshot and stays empty on an error.
pub open spec fn after_store(cache: CacheView, outcome: FetchOutcomeView) -> CacheView {
    match cache {
        Some(snapshot) => Some(snapshot),
        None => match outcome {
            Ok(snapshot) => Some(snapshot),
            Err(_) => None,
        },
    }
}

/// What one caller's turn on the cache comes to.
pub struct Turn {
    /// The cache when the caller lets go of it.
    pub cache: CacheView,
    /// What the caller is given.
    pub reply: FetchOutcomeView,
    /// Whether the caller fetched.
    pub fetched: bool,
}

/// One caller's turn. A filled cache answers by itself. On an empty cache
/// the caller fetches, is answered `outcome` by the feed, and leaves the
/// cache as [`after_store`] says.
pub open spec fn turn(cache: CacheView, outcome: FetchOutcomeView) -> Turn {
    match cache {
        Some(snapshot) => Turn { cache, reply: Ok(snapshot), fetched: false },
        None => Turn { cache: after_store(cache, outcome), reply: outcome, fetched: true },
    }
}

/// The mathematical value of what a caller is given.
pub open spec fn reply_view(reply: Result<&Snapshot, RemoteFetchError>) -> FetchOutcomeView {
    match reply {
        Ok(snapshot) => Ok(snapshot@),
        Err(error) => Err(error),
    }
}

/// Holds the snapshot once a fetch has brought one.
#[derive(Debug)]
pub struct RateCache {
    slot: Option<Snapshot>,
}

impl View for RateCache {
    type V = CacheView;

    closed spec fn view(&self) -> CacheView {
        match self.slot {
            Some(snapshot) => Some(snapshot@),
            None => None,
        }
    }
}

impl RateCache {
    /// An empty cache.
    pub fn new() -> (cache: RateCache)
        ensures
            cache@ is None,
    {
        RateCache { slot: None }
    }

    /// The snapshot of a filled cache.
    fn held(&self) -> (snapshot: &Snapshot)
        requires
            self@ is Some,
        ensures
            self@ == Some(snapshot@),
    {
        match &self.slot {
            Some(held) => held,
            None => unreached(),
        }
    }

    /// The snapshot, if the cache holds one. An answer of `None` means that
    /// a fetch is due.
    pub fn snapshot(&self) -> (snapshot: Option<&Snapshot>)
        ensures
            match snapshot {
                Some(held) => self@ == Some(held@),
                None => self@ is None,
            },
    {
        match &self.slot {
            Some(held) => Some(held),
            None => None,
        }
    }

    /// Takes the outcome of a fetch and answers as a turn with that outcome
    /// does: an empty cache is filled by a snapshot and stays empty on an
    /// error, which is handed back; a filled cache keeps its snapshot,
    /// whatever the outcome, and hands it out.
    pub fn store(&mut self, outcome: FetchOutcome) -> (reply: Result<&Snapshot, RemoteFetchError>)
        ensures
            final(self)@ == after_store(old(self)@, outcome_view(outcome)),
            reply_view(reply) == turn(old(self)@, outcome_view(outcome)).reply,
    {
        if self.slot.is_none() {
            match outcome {
                Ok(snapshot) => {
                    self.slot = Some(snapshot);
                },
                Err(error) => {
                    return Err(error);
                },
            }
        }
        Ok(self.held())
    }

    /// One turn on the cache. A filled cache hands out its snapshot and
    /// `fetch` is not called: it need not even be callable. On an empty
    /// cache `fetch` is called once; what it brings is judged by
    /// [`receive`], a snapshot is kept and handed out, and an error is
    /// handed back while the cache stays empty for a later turn.
    pub fn get_snapshot<F: FnOnce() -> Transfer>(&mut self, fetch: F) -> (reply: Result<
        &Snapshot,
        RemoteFetchError,
    >)
        requires
            old(self)@ is None ==> fetch.requires(()),
        ensures
            match old(self)@ {
                Some(snapshot) => {
                    &&& final(self)@ == Some(snapshot)
                    &&& reply_view(reply) == Ok::<SnapshotView, RemoteFetchError>(snapshot)
                },
                None => exists|transfer: Transfer|
                    {
                        &&& fetch.ensures((), transfer)
                        &&& final(self)@ == turn(None, received(transfer@)).cache
                        &&& reply_view(reply) == turn(None, received(transfer@)).reply
                    },
            },
    {
        if self.slot.is_none() {
            let transfer = fetch();
            self.store(receive(transfer))
        } else {
            Ok(self.held())
        }
    }
}

/// The cache after callers have taken their turns one after the other, the
/// `i`-th of them being answered `outcomes[i]` by the feed should it fetch.
pub open spec fn cache_after(cache: CacheView, outcomes: Seq<FetchOutcomeView>) -> CacheView
    decreases outcomes.len(),
{
    if outcomes.len() == 0 {
        cache
    } else {
        turn(cache_after(cache, outcomes.drop_last()), outcomes.last()).cache
    }
}

/// The turn of caller `i` in such a run.
pub open spec fn turn_at(cache: CacheView, outcomes: Seq<FetchOutcomeView>, i: int) -> Turn {
    turn(cache_after(cache, outcomes.take(i)), outcomes[i])
}

/// Number of callers in such a run that fetched.
pub open spec fn fetch_count(cache: CacheView, outcomes: Seq<FetchOutcomeView>) -> nat
    decreases outcomes.len(),
{
    if outcomes.len() == 0 {
        0
    } else {
        let earlier = fetch_count(cache, outcomes.drop_last());
        if turn(cache_after(cache, outcomes.drop_last()), outcomes.last()).fetched {
            earlier + 1
        } else {
            earlier
        }
    }
}

/// Position of the first successful answer among `outcomes`.
pub open spec fn first_success(outcomes: Seq<FetchOutcomeView>) -> Option<int> {
    first_index(outcomes, |outcome: FetchOutcomeView| outcome is Ok)
}

/// A filled cache is permanent: whatever the feed would answer, every later
/// caller is given the snapshot that the cache holds, no caller fetches, and
/// the cache still holds that snapshot after any number of turns.
pub proof fn law_filled_cache_is_permanent(
    snapshot: SnapshotView,
    outcomes: Seq<FetchOutcomeView>,
)
    ensures
        cache_after(Some(snapshot), outcomes) == Some(snapshot),
        fetch_count(Some(snapshot), outcomes) == 0,
        forall|i: int|
            0 <= i < outcomes.len() ==> #[trigger] turn_at(Some(snapshot), outcomes, i) == (Turn {
                cache: Some(snapshot),
                reply: Ok(snapshot),
                fetched: false,
            }),
    decreases outcomes.len(),
{
    if outcomes.len() > 0 {
        law_filled_cache_is_permanent(snapshot, outcomes.drop_last());
    }
    assert forall|i: int| 0 <= i < outcomes.len() implies #[trigger] turn_at(
        Some(snapshot),
        outcomes,
        i,
    ) == (Turn { cache: Some(snapshot), reply: Ok(snapshot), fetched: false }) by {
        law_filled_cache_is_permanent(snapshot, outcomes.take(i));
    }
}

/// On an empty cache the fetches end with the first one that succeeds: up
/// to and including it every caller fetches, after it nobody does, and the
/// cache holds what that fetch brought. While no fetch has succeeded the
/// cache stays empty and every caller fetches.
pub proof fn law_fetches_end_with_first_success(outcomes: Seq<FetchOutcomeView>)
    ensures
        match first_success(outcomes) {
            Some(k) => {
                &&& 0 <= k < outcomes.len()
                &&& outcomes[k] is Ok
                &&& cache_after(None, outcomes) == Some(outcomes[k]->Ok_0)
                &&& fetch_count(None, outcomes) == k + 1
            },
            None => {
                &&& cache_after(None, outcomes) is None
                &&& fetch_count(None, outcomes) == outcomes.len()
            },
        },
    decreases outcomes.len(),
{
    lemma_first_index(outcomes, |outcome: FetchOutcomeView| outcome is Ok);
    if outcomes.len() > 0 {
        let front = outcomes.drop_last();
        law_fetches_end_with_first_success(front);
        match first_success(front) {
            Some(k) => {
                assert(front[k] == outcomes[k]);
            },
            None => {},
        }
    }
}

/// What each caller is given in a run on an empty cache: the callers before
/// the first successful fetch are handed the errors of their own fetches,
/// and that fetch's snapshot goes to the caller that made it and to every
/// caller after it.
pub proof fn law_replies_follow_first_success(outcomes: Seq<FetchOutcomeView>, i: int)
    requires
        0 <= i < outcomes.len(),
    ensures
        match first_success(outcomes) {
            Some(k) => if i < k {
                turn_at(None, outcomes, i) == (Turn {
                    cache: None,
                    reply: outcomes[i],
                    fetched: true,
                }) && outcomes[i] is Err
            } else {
                turn_at(None, outcomes, i) == (Turn {
                    cache: Some(outcomes[k]->Ok_0),
                    reply: outcomes[k],
                    fetched: i == k,
                })
            },
            None => turn_at(None, outcomes, i) == (Turn {
                cache: None,
                reply: outcomes[i],
                fetched: true,
            }) && outcomes[i] is Err,
        },
{
    let succeeded = |outcome: FetchOutcomeView| outcome is Ok;
    let before = outcomes.take(i);
    lemma_first_index(outcomes, succeeded);
    law_fetches_end_with_first_success(before);
    lemma_first_index(before, succeeded);
    assert(forall|j: int| 0 <= j < i ==> before[j] == outcomes[j]);
    match first_success(outcomes) {
        Some(k) => {
            if k < i {
                lemma_first_index_is(before, succeeded, k);
            } else {
                assert(first_success(before) is None) by {
                    if let Some(j) = first_success(before) {
                        assert(succeeded(outcomes[j]));
                    }
                }
            }
        },
        None => {
            assert(first_success(before) is None) by {
                if let Some(j) = first_success(before) {
                    assert(succeeded(outcomes[j]));
                }
            }
        },
    }
}

/// Callers that find the cache empty and take turns on it share one fetch:
/// if the first caller's fetch succeeds, it is the only fetch of the whole
/// run and every caller is given the snapshot that it brought.
pub proof fn law_first_callers_share_one_fetch(
    outcomes: Seq<FetchOutcomeView>,
    snapshot: SnapshotView,
)
    requires
        outcomes.len() > 0,
        outcomes[0] == Ok::<SnapshotView, RemoteFetchError>(snapshot),
    ensures
        fetch_count(None, outcomes) == 1,
        cache_after(None, outcomes) == Some(snapshot),
        forall|i: int|
            0 <= i < outcomes.len() ==> (#[trigger] turn_at(None, outcomes, i)).reply == Ok::<
                SnapshotView,
                RemoteFetchError,
            >(snapshot),
{
    let succeeded = |outcome: FetchOutcomeView| outcome is Ok;
    lemma_first_index_is(outcomes, succeeded, 0);
    law_fetches_end_with_first_success(outcomes);
    assert forall|i: int| 0 <= i < outcomes.len() implies (#[trigger] turn_at(
        None,
        outcomes,
        i,
    )).reply == Ok::<SnapshotView, RemoteFetchError>(snapshot) by {
        law_replies_follow_first_success(outcomes, i);
    }
}

/// A failed fetch is never kept: the caller is handed the error, the cache
/// stays empty, and the next caller fetches again and is given whatever
/// that new fetch ends in.
pub proof fn law_retry_after_failure(error: RemoteFetchError, next: FetchOutcomeView)
    ensures
        turn(None, Err(error)) == (Turn { cache: None, reply: Err(error), fetched: true }),
        turn(turn(None, Err(error)).cache, next) == (Turn {
            cache: after_store(None, next),
            reply: next,
            fetched: true,
        }),
        cache_after(None, seq![Err(error), next]) == after_store(None, next),
        fetch_count(None, seq![Err(error), next]) == 2,
{
    let run = seq![Err::<SnapshotView, RemoteFetchError>(error), next];
    let first = seq![Err::<SnapshotView, RemoteFetchError>(error)];
    assert(run.drop_last() =~= first);
    let nobody = Seq::<FetchOutcomeView>::empty();
    assert(first.drop_last() =~= nobody);
    assert(cache_after(None, nobody) is None);
    assert(fetch_count(None, nobody) == 0);
    assert(cache_after(None, first) is None);
    assert(fetch_count(None, first) == 1);
}

} // verus!
