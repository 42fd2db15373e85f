//! The view counter state and the application state.
//!
//! The counter owns the authoritative in-process view count, incremented
//! once per counted request, and a reconciliation mark: the last count
//! handed to the persistent store. A reconciliation tick compares the two,
//! skips the store write when nothing changed, and otherwise advances the
//! mark to the current count before the write is issued, so only the latest
//! snapshot is ever sent.

use vstd::prelude::*;

use crate::badge::ShieldsIoFetcher;
use crate::datastore::DataAccessError;
use crate::datastore::Datastore;
use crate::datastore::DatastoreOperations;

verus! {

/// The mathematical value of the counter state: the live count and the
/// reconciliation mark.
pub ghost struct CounterModel {
    pub count: int,
    pub mark: int,
}

/// One thing that can happen to the counter: a counted request, or a
/// reconciliation tick.
pub enum CounterEvent {
    Increment,
    Tick,
}

/// How one event changes the counter state.
pub open spec fn counter_step(m: CounterModel, e: CounterEvent) -> CounterModel {
    match e {
        CounterEvent::Increment => CounterModel { count: m.count + 1, mark: m.mark },
        CounterEvent::Tick => CounterModel { count: m.count, mark: m.count },
    }
}

/// The counter state after a sequence of events, applied left to right.
pub open spec fn counter_run(m: CounterModel, evs: Seq<CounterEvent>) -> CounterModel
    decreases evs.len(),
{
    if evs.len() == 0 {
        m
    } else {
        counter_step(counter_run(m, evs.drop_last()), evs.last())
    }
}

/// How many of the events are increments.
pub open spec fn increments_in(evs: Seq<CounterEvent>) -> int
    decreases evs.len(),
{
    if evs.len() == 0 {
        0
    } else {
        increments_in(evs.drop_last()) + (if evs.last() is Increment {
            1int
        } else {
            0int
        })
    }
}

/// The snapshots the ticks in a run hand to the store, in order: a tick
/// writes the current count exactly when it differs from the mark.
pub open spec fn writes_in(m: CounterModel, evs: Seq<CounterEvent>) -> Seq<int>
    decreases evs.len(),
{
    if evs.len() == 0 {
        Seq::empty()
    } else {
        writes_in(m, evs.drop_last()) + (match evs.last() {
            CounterEvent::Tick => {
                let pre = counter_run(m, evs.drop_last());
                if pre.count != pre.mark {
                    seq![pre.count]
                } else {
                    Seq::<int>::empty()
                }
            },
            CounterEvent::Increment => Seq::<int>::empty(),
        })
    }
}

/// A run of `n` increments.
pub open spec fn inc_events(n: nat) -> Seq<CounterEvent> {
    Seq::new(n, |i: int| CounterEvent::Increment)
}

/// No lost updates: however counted requests and reconciliation ticks
/// interleave, the final count is the initial count plus the number of
/// increments.
pub proof fn lemma_no_lost_updates(m: CounterModel, evs: Seq<CounterEvent>)
    ensures
        counter_run(m, evs).count == m.count + increments_in(evs),
    decreases evs.len(),
{
    if evs.len() > 0 {
        lemma_no_lost_updates(m, evs.drop_last());
    }
}

/// The reconciliation mark never passes the count.
pub proof fn lemma_mark_le_count(m: CounterModel, evs: Seq<CounterEvent>)
    requires
        m.mark <= m.count,
    ensures
        counter_run(m, evs).mark <= counter_run(m, evs).count,
    decreases evs.len(),
{
    if evs.len() > 0 {
        lemma_mark_le_count(m, evs.drop_last());
    }
}

/// A run of increments adds them up and writes nothing.
pub proof fn lemma_run_increments(m: CounterModel, n: nat)
    ensures
        counter_run(m, inc_events(n)) == (CounterModel { count: m.count + n, mark: m.mark }),
        writes_in(m, inc_events(n)) == Seq::<int>::empty(),
    decreases n,
{
    if n == 0 {
        assert(inc_events(0).len() == 0);
    } else {
        assert(inc_events(n).drop_last() =~= inc_events((n - 1) as nat));
        assert(inc_events(n).last() is Increment);
        lemma_run_increments(m, (n - 1) as nat);
        assert(writes_in(m, inc_events(n)) =~= Seq::<int>::empty());
    }
}

/// The tick after any number of counted requests writes exactly the latest
/// snapshot when anything changed since the mark — never an intermediate
/// value — and writes nothing when the count did not change.
pub proof fn lemma_tick_writes_latest(m: CounterModel, n: nat)
    requires
        m.mark <= m.count,
    ensures
        n > 0 || m.count != m.mark ==> writes_in(m, inc_events(n).push(CounterEvent::Tick))
            == seq![m.count + n],
        n == 0 && m.count == m.mark ==> writes_in(m, inc_events(n).push(CounterEvent::Tick))
            == Seq::<int>::empty(),
{
    let evs = inc_events(n).push(CounterEvent::Tick);
    assert(evs.drop_last() =~= inc_events(n));
    assert(evs.last() is Tick);
    lemma_run_increments(m, n);
    if n > 0 || m.count != m.mark {
        assert(writes_in(m, evs) =~= seq![m.count + n]);
    } else {
        assert(writes_in(m, evs) =~= Seq::<int>::empty());
    }
}

/// The view counter state: the authoritative in-process count and the last
/// count known to have been handed to the store.
#[derive(Debug)]
pub struct ViewCounter {
    count: u64,
    mark: u64,
}

impl View for ViewCounter {
    type V = CounterModel;

    closed spec fn view(&self) -> CounterModel {
        CounterModel { count: self.count as int, mark: self.mark as int }
    }
}

impl ViewCounter {
    /// The mark never passes the count, and the count stays writable as a
    /// signed store value.
    pub open spec fn wf(&self) -> bool {
        self@.mark <= self@.count <= i64::MAX as int
    }

    /// The counter a startup read of the store yields: the persisted count
    /// with the mark equal to it, or the read's failure. A negative
    /// persisted count is refused — serving a wrong baseline is worse than
    /// refusing to start.
    pub fn from_initial_read(r: Result<i64, DataAccessError>) -> (c: Result<
        ViewCounter,
        DataAccessError,
    >)
        ensures
            (match r {
                Ok(v) => {
                    &&& v >= 0 ==> (match c {
                        Ok(s) => s.wf() && s@ == (CounterModel { count: v as int, mark: v as int }),
                        Err(_) => false,
                    })
                    &&& v < 0 ==> (match c {
                        Err(e) => e@ == "initial view count is negative"@,
                        Ok(_) => false,
                    })
                },
                Err(e) => (match c {
                    Err(e2) => e2 == e,
                    Ok(_) => false,
                }),
            }),
    {
        match r {
            Ok(v) => {
                if v >= 0 {
                    Ok(ViewCounter { count: v as u64, mark: v as u64 })
                } else {
                    Err(DataAccessError::new("initial view count is negative".to_owned()))
                }
            },
            Err(e) => Err(e),
        }
    }

    /// Read the current count from the store and start the counter from it.
    /// Fails when the read fails: there is no safe default baseline, so the
    /// process must not start serving.
    pub fn initialize<D: Datastore>(store: &D) -> (c: Result<ViewCounter, DataAccessError>)
        ensures
            (match c {
                Ok(s) => s.wf() && s@.mark == s@.count,
                Err(_) => true,
            }),
    {
        Self::from_initial_read(store.get_views())
    }

    /// Count one request: the count grows by one, the mark stays, and the
    /// new count is returned.
    pub fn increment(&mut self) -> (c: u64)
        requires
            old(self).wf(),
            old(self)@.count < i64::MAX as int,
        ensures
            final(self).wf(),
            final(self)@ == counter_step(old(self)@, CounterEvent::Increment),
            c as int == final(self)@.count,
    {
        self.count = self.count + 1;
        self.count
    }

    /// One reconciliation decision: when the count equals the mark nothing
    /// is to be written; otherwise the mark advances to the current count
    /// and that snapshot — the latest, never an intermediate value — is
    /// returned for the store write.
    pub fn reconcile_tick(&mut self) -> (w: Option<u64>)
        requires
            old(self).wf(),
        ensures
            final(self).wf(),
            final(self)@ == counter_step(old(self)@, CounterEvent::Tick),
            old(self)@.count == old(self)@.mark ==> w is None,
            old(self)@.count != old(self)@.mark ==> (match w {
                Some(v) => v as int == old(self)@.count,
                None => false,
            }),
    {
        if self.count == self.mark {
            None
        } else {
            self.mark = self.count;
            Some(self.count)
        }
    }

    /// One reconciliation tick against the store: decide as
    /// `reconcile_tick` does and, when a write is due, hand the snapshot to
    /// the store. A write failure is not surfaced: the next tick retries
    /// with the then-latest snapshot.
    pub fn reconcile<D: Datastore>(&mut self, store: &D) -> (w: Option<u64>)
        requires
            old(self).wf(),
        ensures
            final(self).wf(),
            final(self)@ == counter_step(old(self)@, CounterEvent::Tick),
            old(self)@.count == old(self)@.mark ==> w is None,
            old(self)@.count != old(self)@.mark ==> (match w {
                Some(v) => v as int == old(self)@.count,
                None => false,
            }),
    {
        let w = self.reconcile_tick();
        match &w {
            Some(v) => {
                let _unused = store.update_views(*v as i64);
            },
            None => {},
        }
        w
    }

    /// The current count.
    pub fn count(&self) -> (c: u64)
        ensures
            c as int == self@.count,
    {
        self.count
    }

    /// The last count handed to the store.
    pub fn reconciliation_mark(&self) -> (v: u64)
        ensures
            v as int == self@.mark,
    {
        self.mark
    }

    /// Stop the counter: release the store connection. No final flush is
    /// forced; the loss window is bounded by the reconciliation interval.
    pub fn shutdown<D: Datastore>(self, store: &D) {
        store.close_connection();
    }
}

/// The application state the request handler is wired with: the per-key
/// counter store and the badge component.
pub struct AppState<T: DatastoreOperations, F: ShieldsIoFetcher> {
    pub db: T,
    pub badge: F,
}

impl<T: DatastoreOperations, F: ShieldsIoFetcher> AppState<T, F> {
    /// Application state from its two collaborators.
    pub fn new(db: T, badge: F) -> (s: AppState<T, F>)
        ensures
            s.db == db,
            s.badge == badge,
    {
        AppState { db, badge }
    }
}

} // verus!
