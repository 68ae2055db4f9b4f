//! The cache that holds the last snapshot of one kind of telemetry.
//!
//! The cache is the part that decides: whether a snapshot is too old for a
//! caller, and what becomes of the snapshot when a collection ends. Time is
//! a count of ticks of a clock that does not run backwards; whoever owns the
//! cache reads the clock.
//!
//! `TelemetryCache` is for an owner that shares it with no one: a call
//! decides, collects and stores in one go. `SharedCache` is for many
//! callers: each step of it is short and is to be made under a lock, and
//! the collection itself is made outside the lock by the one caller that is
//! told to collect, while the others wait for its reading.

use vstd::prelude::*;

verus! {

/// A reading of type `T` and the tick at which it was taken. A snapshot is
/// never changed; a newer one takes its place.
pub struct Snapshot<T> {
    pub value: T,
    pub captured_at: u64,
}

/// The last snapshot of one kind of telemetry, if one was taken yet.
pub struct TelemetryCache<T> {
    snapshot: Option<Snapshot<T>>,
}

/// One call of a cache: the tick at which it is made, and the greatest age
/// of a snapshot that the caller puts up with.
pub struct Call {
    pub now: u64,
    pub max_age: u64,
}

/// How old a snapshot taken at `captured_at` is at `now`. A snapshot from
/// the future is new.
pub open spec fn age(captured_at: u64, now: u64) -> nat {
    if now >= captured_at {
        (now - captured_at) as nat
    } else {
        0
    }
}

/// Whether a caller at `now` who puts up with `max_age` must have a new
/// snapshot: there is none, or it is older than `max_age`.
pub open spec fn stale<T>(snapshot: Option<Snapshot<T>>, now: u64, max_age: u64) -> bool {
    match snapshot {
        Some(s) => age(s.captured_at, now) > max_age,
        None => true,
    }
}

/// What a cache holds after a call for which the collector, if it is asked,
/// gives `collected` (`None` where it fails). The collector is asked exactly
/// when the snapshot is stale; its reading takes the snapshot's place, and
/// its failure leaves the snapshot as it was.
pub open spec fn after_call<T>(
    snapshot: Option<Snapshot<T>>,
    call: Call,
    collected: Option<T>,
) -> Option<Snapshot<T>> {
    if stale(snapshot, call.now, call.max_age) {
        match collected {
            Some(value) => Some(Snapshot { value, captured_at: call.now }),
            None => snapshot,
        }
    } else {
        snapshot
    }
}

/// How often the collector is asked in a run of calls, made one after the
/// other, where `collected[i]` is what it would give to call `i`.
pub open spec fn collections<T>(
    snapshot: Option<Snapshot<T>>,
    calls: Seq<Call>,
    collected: Seq<Option<T>>,
) -> nat
    decreases calls.len(),
{
    if calls.len() == 0 || collected.len() != calls.len() {
        0
    } else {
        let asked: nat = if stale(snapshot, calls[0].now, calls[0].max_age) {
            1
        } else {
            0
        };
        asked + collections(
            after_call(snapshot, calls[0], collected[0]),
            calls.drop_first(),
            collected.drop_first(),
        )
    }
}

impl<T> View for TelemetryCache<T> {
    type V = Option<Snapshot<T>>;

    closed spec fn view(&self) -> Option<Snapshot<T>> {
        self.snapshot
    }
}

impl<T> TelemetryCache<T> {
    /// A cache without a snapshot.
    pub fn new() -> (r: TelemetryCache<T>)
        ensures
            r@ is None,
    {
        TelemetryCache { snapshot: None }
    }

    /// Whether a caller at `now` who puts up with `max_age` must have a new
    /// snapshot.
    pub fn is_stale(&self, now: u64, max_age: u64) -> (r: bool)
        ensures
            r == stale(self@, now, max_age),
    {
        match &self.snapshot {
            Some(s) => now > s.captured_at && now - s.captured_at > max_age,
            None => true,
        }
    }

    /// The last good reading, however old.
    pub fn last_good(&self) -> (r: Option<&T>)
        ensures
            match self@ {
                Some(s) => r == Some(&s.value),
                None => r is None,
            },
    {
        match &self.snapshot {
            Some(s) => Some(&s.value),
            None => None,
        }
    }

    /// The tick at which the last good reading was taken.
    pub fn captured_at(&self) -> (r: Option<u64>)
        ensures
            match self@ {
                Some(s) => r == Some(s.captured_at),
                None => r is None,
            },
    {
        match &self.snapshot {
            Some(s) => Some(s.captured_at),
            None => None,
        }
    }

    /// Puts the reading `value`, taken at `now`, in the place of the
    /// snapshot.
    pub fn store(&mut self, value: T, now: u64)
        ensures
            final(self)@ == Some((Snapshot { value, captured_at: now })),
    {
        self.snapshot = Some(Snapshot { value, captured_at: now });
    }

    /// The reading for a caller at `now` who puts up with `max_age`.
    ///
    /// A snapshot that is not stale is handed out as it is, and the
    /// collector is not asked. Else the collector is asked, once: its
    /// reading becomes the snapshot and is handed out; its failure is
    /// handed on, and the snapshot stays for callers that put up with more.
    pub fn get_or_refresh<E, F: FnOnce() -> Result<T, E>>(
        &mut self,
        now: u64,
        max_age: u64,
        collect: F,
    ) -> (r: Result<&T, E>)
        requires
            collect.requires(()),
        ensures
            !stale(old(self)@, now, max_age) ==> final(self)@ == old(self)@ && r == Ok::<&T, E>(
                &old(self)@->0.value,
            ),
            stale(old(self)@, now, max_age) ==> match r {
                Ok(value) => collect.ensures((), Ok(*value)) && final(self)@ == Some(
                    (Snapshot { value: *value, captured_at: now }),
                ),
                Err(e) => collect.ensures((), Err(e)) && final(self)@ == old(self)@,
            },
    {
        if self.is_stale(now, max_age) {
            match collect() {
                Ok(value) => {
                    self.store(value, now);
                },
                Err(e) => {
                    return Err(e);
                },
            }
        }
        Ok(&self.snapshot.as_ref().unwrap().value)
    }

    /// The reading for a caller at `now` who would rather have an old
    /// reading than none.
    ///
    /// As `get_or_refresh`, but where the collector fails and there is a
    /// last good reading, that reading is handed out. The failure is handed
    /// on only where no reading was ever taken.
    pub fn get_or_stale<E, F: FnOnce() -> Result<T, E>>(
        &mut self,
        now: u64,
        max_age: u64,
        collect: F,
    ) -> (r: Result<&T, E>)
        requires
            collect.requires(()),
        ensures
            !stale(old(self)@, now, max_age) ==> final(self)@ == old(self)@ && r == Ok::<&T, E>(
                &old(self)@->0.value,
            ),
            stale(old(self)@, now, max_age) ==> match r {
                Ok(value) => (collect.ensures((), Ok(*value)) && final(self)@ == Some(
                    (Snapshot { value: *value, captured_at: now }),
                )) || (old(self)@ is Some && old(self)@->0.value == *value && final(self)@ == old(
                    self,
                )@ && exists|e: E| collect.ensures((), Err(e))),
                Err(e) => collect.ensures((), Err(e)) && old(self)@ is None && final(self)@ is None,
            },
    {
        if self.is_stale(now, max_age) {
            match collect() {
                Ok(value) => {
                    self.store(value, now);
                },
                Err(e) => {
                    if self.snapshot.is_none() {
                        return Err(e);
                    }
                },
            }
        }
        Ok(&self.snapshot.as_ref().unwrap().value)
    }
}

/// Calls that all put up with the snapshot that is there ask no collector.
pub proof fn lemma_no_collection_while_fresh<T>(
    snapshot: Option<Snapshot<T>>,
    calls: Seq<Call>,
    collected: Seq<Option<T>>,
)
    requires
        forall|i: int|
            0 <= i < calls.len() ==> !stale(snapshot, (#[trigger] calls[i]).now, calls[i].max_age),
    ensures
        collections(snapshot, calls, collected) == 0,
    decreases calls.len(),
{
    if calls.len() > 0 && collected.len() == calls.len() {
        let rest = calls.drop_first();
        lemma_no_collection_while_fresh(snapshot, rest, collected.drop_first());
    }
}

/// One refresh serves every caller whose window reaches back to it: where
/// the first of a run of calls has the collector asked with success, and
/// each later call puts up with the age that the new snapshot has by then,
/// the collector is asked once in the whole run.
pub proof fn lemma_one_collection_per_cycle<T>(
    snapshot: Option<Snapshot<T>>,
    calls: Seq<Call>,
    collected: Seq<Option<T>>,
)
    requires
        calls.len() > 0,
        collected.len() == calls.len(),
        stale(snapshot, calls[0].now, calls[0].max_age),
        collected[0] is Some,
        forall|i: int|
            0 < i < calls.len() ==> age(calls[0].now, (#[trigger] calls[i]).now)
                <= calls[i].max_age,
    ensures
        collections(snapshot, calls, collected) == 1,
{
    let refreshed = after_call(snapshot, calls[0], collected[0]);
    let rest = calls.drop_first();
    lemma_no_collection_while_fresh(refreshed, rest, collected.drop_first());
}

// ---------------------------------------------------------------------------
// A cache with many callers
// ---------------------------------------------------------------------------

/// What a caller of a shared cache is to do.
#[derive(Clone, Copy, Debug, PartialEq, Eq, Structural)]
pub enum Decision {
    /// Take the snapshot: it is new enough.
    Serve,
    /// Wait: another caller is collecting, and its reading will serve.
    Wait,
    /// Collect, and hand in what came of it.
    Collect,
}

/// A cache and the note whether one of its callers is collecting.
pub struct SharedCache<T> {
    cache: TelemetryCache<T>,
    refreshing: bool,
}

/// A shared cache as a value of mathematics.
pub struct SharedView<T> {
    pub snapshot: Option<Snapshot<T>>,
    pub refreshing: bool,
}

/// A step of a shared cache.
pub enum SharedStep<T> {
    /// A caller asks what to do.
    Begin(Call),
    /// The caller that collected hands in what came of it at the tick `now`:
    /// the reading, or nothing where the collector failed.
    End(u64, Option<T>),
}

/// A call of a shared cache from its beginning to its end: the caller asks
/// as `call` says; if it is told to collect, the collection ends at the
/// tick `ended_at` with the reading `collected`, or with nothing where the
/// collector failed.
pub struct WholeCall<T> {
    pub call: Call,
    pub ended_at: u64,
    pub collected: Option<T>,
}

/// The snapshot that the steps leave in a cache that held `before`: the
/// last reading that was handed in, whole and with its tick, and `before`
/// where none was handed in.
pub open spec fn last_reading<T>(
    before: Option<Snapshot<T>>,
    steps: Seq<SharedStep<T>>,
) -> Option<Snapshot<T>>
    decreases steps.len(),
{
    if steps.len() == 0 {
        before
    } else {
        match steps.last() {
            SharedStep::End(now, Some(value)) => Some(Snapshot { value, captured_at: now }),
            _ => last_reading(before, steps.drop_last()),
        }
    }
}

impl<T> SharedView<T> {
    /// What a caller is told: to take the snapshot if it puts up with its
    /// age; else to wait if another caller is collecting; else to collect.
    pub open spec fn decide(self, call: Call) -> Decision {
        if !stale(self.snapshot, call.now, call.max_age) {
            Decision::Serve
        } else if self.refreshing {
            Decision::Wait
        } else {
            Decision::Collect
        }
    }

    /// The cache after a caller asked: the caller that is told to collect
    /// is noted.
    pub open spec fn begin(self, call: Call) -> SharedView<T> {
        if self.decide(call) == Decision::Collect {
            SharedView { refreshing: true, ..self }
        } else {
            self
        }
    }

    /// The cache after the collecting caller handed in what came of it: a
    /// reading takes the snapshot's place, a failure leaves the snapshot,
    /// and no caller is collecting any more.
    pub open spec fn end(self, now: u64, collected: Option<T>) -> SharedView<T> {
        SharedView {
            snapshot: match collected {
                Some(value) => Some(Snapshot { value, captured_at: now }),
                None => self.snapshot,
            },
            refreshing: false,
        }
    }

    /// The cache after one step.
    pub open spec fn step(self, step: SharedStep<T>) -> SharedView<T> {
        match step {
            SharedStep::Begin(call) => self.begin(call),
            SharedStep::End(now, collected) => self.end(now, collected),
        }
    }

    /// The cache after the steps, taken in order.
    pub open spec fn run(self, steps: Seq<SharedStep<T>>) -> SharedView<T>
        decreases steps.len(),
    {
        if steps.len() == 0 {
            self
        } else {
            self.step(steps[0]).run(steps.drop_first())
        }
    }

    /// The cache after one whole call: the caller asks, and hands in what
    /// came of the collection if it was told to collect.
    pub open spec fn serve(self, whole: WholeCall<T>) -> SharedView<T> {
        if self.decide(whole.call) == Decision::Collect {
            self.begin(whole.call).end(whole.ended_at, whole.collected)
        } else {
            self.begin(whole.call)
        }
    }

    /// The cache after the whole calls, one after the other.
    pub open spec fn serve_all(self, calls: Seq<WholeCall<T>>) -> SharedView<T>
        decreases calls.len(),
    {
        if calls.len() == 0 {
            self
        } else {
            self.serve(calls[0]).serve_all(calls.drop_first())
        }
    }

    /// How many collections are under way after the steps, where
    /// `under_way` were before: each caller that is told to collect begins
    /// one, and each handing-in ends one.
    pub open spec fn under_way(self, under_way: int, steps: Seq<SharedStep<T>>) -> int
        decreases steps.len(),
    {
        if steps.len() == 0 {
            under_way
        } else {
            let change: int = match steps[0] {
                SharedStep::Begin(call) => if self.decide(call) == Decision::Collect {
                    1
                } else {
                    0
                },
                SharedStep::End(_, _) => if self.refreshing {
                    -1
                } else {
                    0
                },
            };
            self.step(steps[0]).under_way(under_way + change, steps.drop_first())
        }
    }
}

impl<T> View for SharedCache<T> {
    type V = SharedView<T>;

    closed spec fn view(&self) -> SharedView<T> {
        SharedView { snapshot: self.cache@, refreshing: self.refreshing }
    }
}

impl<T> SharedCache<T> {
    /// A cache without a snapshot, with no caller collecting.
    pub fn new() -> (r: SharedCache<T>)
        ensures
            r@ == (SharedView::<T> { snapshot: None, refreshing: false }),
    {
        SharedCache { cache: TelemetryCache::new(), refreshing: false }
    }

    /// Says what a caller at `now` who puts up with `max_age` is to do, and
    /// notes the caller that is told to collect. While that caller collects
    /// no other is told to.
    pub fn begin(&mut self, now: u64, max_age: u64) -> (r: Decision)
        ensures
            r == old(self)@.decide(Call { now, max_age }),
            final(self)@ == old(self)@.begin(Call { now, max_age }),
    {
        if !self.cache.is_stale(now, max_age) {
            Decision::Serve
        } else if self.refreshing {
            Decision::Wait
        } else {
            self.refreshing = true;
            Decision::Collect
        }
    }

    /// Takes what came of the collection that ended at `now`. A reading
    /// becomes the snapshot and is handed out; a failure is handed on, and
    /// the snapshot stays. Either way the next caller with a stale snapshot
    /// is told to collect again.
    pub fn end<E>(&mut self, now: u64, outcome: Result<T, E>) -> (r: Result<&T, E>)
        ensures
            match outcome {
                Ok(value) => r == Ok::<&T, E>(&value) && final(self)@ == old(self)@.end(
                    now,
                    Some(value),
                ),
                Err(e) => r == Err::<&T, E>(e) && final(self)@ == old(self)@.end(now, None),
            },
    {
        self.refreshing = false;
        match outcome {
            Ok(value) => {
                self.cache.store(value, now);
                Ok(self.cache.last_good().unwrap())
            },
            Err(e) => Err(e),
        }
    }

    /// Takes what came of the collection that ended at `now`, for a caller
    /// who would rather have an old reading than none: as `end`, but where
    /// the collector failed and there is a last good reading, that reading
    /// is handed out. The failure is handed on only where no reading was
    /// ever taken.
    pub fn end_or_stale<E>(&mut self, now: u64, outcome: Result<T, E>) -> (r: Result<&T, E>)
        ensures
            match outcome {
                Ok(value) => r == Ok::<&T, E>(&value) && final(self)@ == old(self)@.end(
                    now,
                    Some(value),
                ),
                Err(e) => final(self)@ == old(self)@.end(now, None) && match old(self)@.snapshot {
                    Some(s) => r == Ok::<&T, E>(&s.value),
                    None => r == Err::<&T, E>(e),
                },
            },
    {
        self.refreshing = false;
        match outcome {
            Ok(value) => {
                self.cache.store(value, now);
                Ok(self.cache.last_good().unwrap())
            },
            Err(e) => match self.cache.last_good() {
                Some(value) => Ok(value),
                None => Err(e),
            },
        }
    }

    /// The last good reading, however old.
    pub fn last_good(&self) -> (r: Option<&T>)
        ensures
            match self@.snapshot {
                Some(s) => r == Some(&s.value),
                None => r is None,
            },
    {
        self.cache.last_good()
    }

    /// Whether a caller is collecting.
    pub fn is_refreshing(&self) -> (r: bool)
        ensures
            r == self@.refreshing,
    {
        self.refreshing
    }
}

/// At most one collection is under way at a time. Whatever callers come, in
/// whatever order they ask and hand in: from a cache whose note of the
/// collecting caller is right, the note stays right, and so the collections
/// under way are one while a caller is noted and none while none is.
pub proof fn lemma_one_refresh_at_a_time<T>(
    cache: SharedView<T>,
    under_way: int,
    steps: Seq<SharedStep<T>>,
)
    requires
        under_way == if cache.refreshing {
            1int
        } else {
            0int
        },
    ensures
        cache.under_way(under_way, steps) == if cache.run(steps).refreshing {
            1int
        } else {
            0int
        },
        0 <= cache.under_way(under_way, steps) <= 1,
    decreases steps.len(),
{
    if steps.len() > 0 {
        let next = cache.step(steps[0]);
        let count: int = if next.refreshing {
            1
        } else {
            0
        };
        lemma_one_refresh_at_a_time(next, count, steps.drop_first());
    }
}

/// While a caller collects, every other caller with a stale snapshot is
/// told to wait, and is told to take the snapshot once the reading is in
/// and new enough for it.
pub proof fn lemma_waiters_are_served<T>(cache: SharedView<T>, call: Call, now: u64, value: T)
    requires
        cache.refreshing,
        age(now, call.now) <= call.max_age,
    ensures
        cache.decide(call) != Decision::Collect,
        cache.end(now, Some(value)).decide(call) == Decision::Serve,
{
}

/// The steps and then one more leave what the one more makes of what the
/// steps leave.
pub proof fn lemma_run_push<T>(cache: SharedView<T>, steps: Seq<SharedStep<T>>, last: SharedStep<T>)
    ensures
        cache.run(steps.push(last)) == cache.run(steps).step(last),
    decreases steps.len(),
{
    let all = steps.push(last);
    if steps.len() == 0 {
        assert(all.drop_first() =~= steps);
        assert(cache.step(last).run(all.drop_first()) == cache.step(last));
    } else {
        assert(all.drop_first() =~= steps.drop_first().push(last));
        lemma_run_push(cache.step(steps[0]), steps.drop_first(), last);
    }
}

/// A snapshot is never a part of a reading, nor a mixture of two. Whatever
/// callers come, in whatever order they ask and hand in, and whether the
/// collections go well or fail: the snapshot is the last reading that was
/// handed in, with the tick at which it was handed in, or the snapshot from
/// before where none was. So a cache that holds a last good reading holds
/// one ever after.
pub proof fn lemma_snapshot_is_last_reading<T>(cache: SharedView<T>, steps: Seq<SharedStep<T>>)
    ensures
        cache.run(steps).snapshot == last_reading(cache.snapshot, steps),
        cache.snapshot is Some ==> cache.run(steps).snapshot is Some,
    decreases steps.len(),
{
    if steps.len() > 0 {
        let before = steps.drop_last();
        assert(steps =~= before.push(steps.last()));
        lemma_run_push(cache, before, steps.last());
        lemma_snapshot_is_last_reading(cache, before);
    }
}

/// No collection is left under way by calls that ran from their beginning
/// to their end, however each of them ended. After any number of them, on
/// a cache for which no caller was collecting: no caller is collecting, so
/// the next caller is not made to wait; and if the cache held a last good
/// reading it holds one, so the next caller who would rather have an old
/// reading than none is given a reading.
pub proof fn lemma_whole_calls_leave_the_cache_free<T>(
    cache: SharedView<T>,
    calls: Seq<WholeCall<T>>,
    next: Call,
)
    requires
        !cache.refreshing,
    ensures
        !cache.serve_all(calls).refreshing,
        cache.serve_all(calls).decide(next) != Decision::Wait,
        cache.snapshot is Some ==> cache.serve_all(calls).snapshot is Some,
    decreases calls.len(),
{
    if calls.len() > 0 {
        lemma_whole_calls_leave_the_cache_free(cache.serve(calls[0]), calls.drop_first(), next);
    }
}

} // verus!
