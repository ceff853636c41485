//! The decisions of one walk from `Initial` to `Finish`, as a function from state and event to
//! next state and action. Whoever drives the walk performs each action (a cache read, a lock
//! request, a sleep, an upstream call, a cache write) and hands its outcome back as an event.
use vstd::prelude::*;

use crate::error::CacheError;
use crate::settings::InitialCacheSettings;
use crate::value::{CacheState, CachedValue};

verus! {

/// Milliseconds a dogpile lock is held unless configured otherwise.
pub const DEFAULT_LOCK_TTL_MS: u64 = 10000;

/// Answer of the store to a lock request.
#[derive(Debug, Clone, Copy, PartialEq, Eq, Structural)]
pub enum LockStatus {
    Acquired,
    AlreadyHeld,
}

/// The settings a walk runs under.
#[derive(Debug, Clone, Copy, PartialEq, Eq, Structural)]
pub struct Policy {
    pub settings: InitialCacheSettings,
    /// How long a waiter waits for another walk's value before polling the upstream itself.
    pub lock_ttl_ms: u64,
}

/// The settings of the separate walk that refreshes a stale value: it reads the cache and
/// never serves stale data, and it keeps the dogpile lock if the first walk used one.
pub open spec fn refresh_spec(policy: Policy) -> Policy {
    Policy {
        settings: if uses_lock(policy.settings) {
            InitialCacheSettings::Lock
        } else {
            InitialCacheSettings::Enabled
        },
        lock_ttl_ms: policy.lock_ttl_ms,
    }
}

impl Policy {
    /// The settings of the walk that refreshes a value this walk served stale.
    pub fn refresh(&self) -> (r: Policy)
        ensures
            r == refresh_spec(*self),
            !serves_stale(r.settings),
            !(r.settings is Disabled),
    {
        let settings = if self.settings.uses_lock() {
            InitialCacheSettings::Lock
        } else {
            InitialCacheSettings::Enabled
        };
        Policy { settings, lock_ttl_ms: self.lock_ttl_ms }
    }
}

/// Where a walk stands.
#[derive(Debug)]
pub enum Walk<T> {
    /// Not started.
    Initial { policy: Policy },
    /// Waiting for the first cache read.
    ReadingCache { policy: Policy },
    /// Waiting for the answer to a lock request.
    Locking { policy: Policy },
    /// Another walk holds the lock; sleeping before the next read.
    Sleeping { policy: Policy, attempt: u32, waited_ms: u64 },
    /// Reading the cache again after a sleep.
    Rechecking { policy: Policy, attempt: u32, waited_ms: u64 },
    /// Waiting for the upstream; `writes` tells whether a result may be stored.
    PollingUpstream { writes: bool },
    /// Waiting for the write of an upstream value.
    Updating { value: CachedValue<T> },
    /// Done; every further event is ignored.
    Finished,
}

/// The outcome of the last action, handed back to the walk.
#[derive(Debug)]
pub enum Event<T> {
    Start,
    CacheRead(Result<CacheState<T>, CacheError>),
    LockTaken(Result<LockStatus, CacheError>),
    Slept,
    /// The upstream answered at second `now`; `cacheable` tells whether the answer may be
    /// stored.
    Upstream { result: Result<T, CacheError>, cacheable: bool, now: u64 },
    Written(Result<(), CacheError>),
}

/// What the driver does next.
#[derive(Debug)]
pub enum Action<T> {
    PollCache,
    AcquireLock,
    /// Sleep this many milliseconds, then report `Slept`.
    Sleep(u64),
    PollUpstream,
    /// Write the value the walk holds (`Walk::pending`).
    UpdateCache,
    /// Give the caller this result; the walk is over.
    Return(Result<T, CacheError>),
    /// Give the caller stale data and start a separate refreshing walk.
    ReturnStale(T),
    /// The event does not belong to this state; nothing changes.
    Ignore,
}

/// The pause before the `attempt`-th re-read: 50 ms, doubling, capped at one second.
pub open spec fn backoff_of(attempt: u32) -> u64 {
    if attempt == 0 {
        50
    } else if attempt == 1 {
        100
    } else if attempt == 2 {
        200
    } else if attempt == 3 {
        400
    } else if attempt == 4 {
        800
    } else {
        1000
    }
}

/// The pause before the `attempt`-th re-read, in milliseconds.
pub fn backoff_ms(attempt: u32) -> (r: u64)
    ensures
        r == backoff_of(attempt),
        50 <= r <= 1000,
{
    if attempt == 0 {
        50
    } else if attempt == 1 {
        100
    } else if attempt == 2 {
        200
    } else if attempt == 3 {
        400
    } else if attempt == 4 {
        800
    } else {
        1000
    }
}

pub open spec fn serves_stale(s: InitialCacheSettings) -> bool {
    s is Stale || s is StaleLock
}

pub open spec fn uses_lock(s: InitialCacheSettings) -> bool {
    s is Lock || s is StaleLock
}

/// After a read that found no usable value while another walk holds the lock: poll the
/// upstream once `waited_ms` has reached the lock's time to live, else sleep the
/// `attempt`-th pause, cut short so that the total wait never passes that time.
pub open spec fn wait_spec<T>(policy: Policy, attempt: u32, waited_ms: u64) -> (Walk<T>, Action<T>) {
    if waited_ms >= policy.lock_ttl_ms {
        (Walk::PollingUpstream { writes: true }, Action::PollUpstream)
    } else {
        let pause = if backoff_of(attempt) <= policy.lock_ttl_ms - waited_ms {
            backoff_of(attempt)
        } else {
            (policy.lock_ttl_ms - waited_ms) as u64
        };
        (
            Walk::Sleeping { policy, attempt, waited_ms: (waited_ms + pause) as u64 },
            Action::Sleep(pause),
        )
    }
}

/// Deciding on a cache read; `first` tells the first read from a re-read while waiting.
/// A request without a key ends the walk with that error; other read errors count as a miss.
pub open spec fn after_read_spec<T>(
    policy: Policy,
    first: bool,
    attempt: u32,
    waited_ms: u64,
    read: Result<CacheState<T>, CacheError>,
) -> (Walk<T>, Action<T>) {
    match read {
        Ok(CacheState::Actual(v)) => (Walk::Finished, Action::Return(Ok(v.data))),
        Ok(CacheState::Stale(v)) if serves_stale(policy.settings) => (
            Walk::Finished,
            Action::ReturnStale(v.data),
        ),
        Err(CacheError::KeyGenerationError(m)) => (
            Walk::Finished,
            Action::Return(Err(CacheError::KeyGenerationError(m))),
        ),
        _ => if first {
            if uses_lock(policy.settings) && read is Ok {
                (Walk::Locking { policy }, Action::AcquireLock)
            } else {
                (Walk::PollingUpstream { writes: true }, Action::PollUpstream)
            }
        } else {
            wait_spec(policy, if attempt < u32::MAX {
                (attempt + 1) as u32
            } else {
                attempt
            }, waited_ms)
        },
    }
}

/// One transition of a walk.
pub open spec fn step_spec<T>(w: Walk<T>, e: Event<T>) -> (Walk<T>, Action<T>) {
    match (w, e) {
        (Walk::Initial { policy }, Event::Start) => if policy.settings is Disabled {
            (Walk::PollingUpstream { writes: false }, Action::PollUpstream)
        } else {
            (Walk::ReadingCache { policy }, Action::PollCache)
        },
        (Walk::ReadingCache { policy }, Event::CacheRead(read)) => after_read_spec(
            policy,
            true,
            0,
            0,
            read,
        ),
        (Walk::Rechecking { policy, attempt, waited_ms }, Event::CacheRead(read)) => after_read_spec(
            policy,
            false,
            attempt,
            waited_ms,
            read,
        ),
        (Walk::Locking { policy }, Event::LockTaken(lock)) => match lock {
            Ok(LockStatus::AlreadyHeld) => wait_spec(policy, 0, 0),
            _ => (Walk::PollingUpstream { writes: true }, Action::PollUpstream),
        },
        (Walk::Sleeping { policy, attempt, waited_ms }, Event::Slept) => (
            Walk::Rechecking { policy, attempt, waited_ms },
            Action::PollCache,
        ),
        (Walk::PollingUpstream { writes }, Event::Upstream { result, cacheable, now }) => match result {
            Ok(v) => if writes && cacheable {
                (Walk::Updating { value: CachedValue { data: v, expired: now } }, Action::UpdateCache)
            } else {
                (Walk::Finished, Action::Return(Ok(v)))
            },
            Err(err) => (Walk::Finished, Action::Return(Err(err))),
        },
        (Walk::Updating { value }, Event::Written(_)) => (Walk::Finished, Action::Return(Ok(value.data))),
        (w, _) => (w, Action::Ignore),
    }
}

fn wait<T>(policy: Policy, attempt: u32, waited_ms: u64) -> (r: (Walk<T>, Action<T>))
    ensures
        r == wait_spec::<T>(policy, attempt, waited_ms),
{
    if waited_ms >= policy.lock_ttl_ms {
        (Walk::PollingUpstream { writes: true }, Action::PollUpstream)
    } else {
        let b = backoff_ms(attempt);
        let left = policy.lock_ttl_ms - waited_ms;
        let pause = if b <= left {
            b
        } else {
            left
        };
        (Walk::Sleeping { policy, attempt, waited_ms: waited_ms + pause }, Action::Sleep(pause))
    }
}

fn after_read<T>(
    policy: Policy,
    first: bool,
    attempt: u32,
    waited_ms: u64,
    read: Result<CacheState<T>, CacheError>,
) -> (r: (Walk<T>, Action<T>))
    ensures
        r == after_read_spec(policy, first, attempt, waited_ms, read),
{
    let stale_ok = policy.settings.serves_stale();
    match read {
        Ok(CacheState::Actual(v)) => (Walk::Finished, Action::Return(Ok(v.data))),
        Ok(CacheState::Stale(v)) if stale_ok => (Walk::Finished, Action::ReturnStale(v.data)),
        Err(CacheError::KeyGenerationError(m)) => (
            Walk::Finished,
            Action::Return(Err(CacheError::KeyGenerationError(m))),
        ),
        _ => {
            if first {
                if policy.settings.uses_lock() && read.is_ok() {
                    (Walk::Locking { policy }, Action::AcquireLock)
                } else {
                    (Walk::PollingUpstream { writes: true }, Action::PollUpstream)
                }
            } else {
                let next = if attempt < u32::MAX {
                    attempt + 1
                } else {
                    attempt
                };
                wait(policy, next, waited_ms)
            }
        },
    }
}

impl<T> Walk<T> {
    /// A walk that has not started.
    pub fn start(settings: InitialCacheSettings, lock_ttl_ms: u64) -> (r: Walk<T>)
        ensures
            r == (Walk::<T>::Initial { policy: Policy { settings, lock_ttl_ms } }),
    {
        Walk::Initial { policy: Policy { settings, lock_ttl_ms } }
    }

    /// Takes the outcome of the last action and decides the next one.
    pub fn step(self, event: Event<T>) -> (r: (Walk<T>, Action<T>))
        ensures
            r == step_spec(self, event),
    {
        match (self, event) {
            (Walk::Initial { policy }, Event::Start) => {
                if policy.settings.reads_cache() {
                    (Walk::ReadingCache { policy }, Action::PollCache)
                } else {
                    (Walk::PollingUpstream { writes: false }, Action::PollUpstream)
                }
            },
            (Walk::ReadingCache { policy }, Event::CacheRead(read)) => after_read(
                policy,
                true,
                0,
                0,
                read,
            ),
            (Walk::Rechecking { policy, attempt, waited_ms }, Event::CacheRead(read)) => {
                after_read(policy, false, attempt, waited_ms, read)
            },
            (Walk::Locking { policy }, Event::LockTaken(lock)) => match lock {
                Ok(LockStatus::AlreadyHeld) => wait(policy, 0, 0),
                _ => (Walk::PollingUpstream { writes: true }, Action::PollUpstream),
            },
            (Walk::Sleeping { policy, attempt, waited_ms }, Event::Slept) => (
                Walk::Rechecking { policy, attempt, waited_ms },
                Action::PollCache,
            ),
            (Walk::PollingUpstream { writes }, Event::Upstream { result, cacheable, now }) => {
                match result {
                    Ok(v) => {
                        if writes && cacheable {
                            (
                                Walk::Updating { value: CachedValue::new(v, now) },
                                Action::UpdateCache,
                            )
                        } else {
                            (Walk::Finished, Action::Return(Ok(v)))
                        }
                    },
                    Err(err) => (Walk::Finished, Action::Return(Err(err))),
                }
            },
            (Walk::Updating { value }, Event::Written(_)) => (
                Walk::Finished,
                Action::Return(Ok(value.data)),
            ),
            (w, _) => (w, Action::Ignore),
        }
    }

    /// The value to write when the last action was `UpdateCache`.
    pub fn pending(&self) -> (r: Option<&CachedValue<T>>)
        ensures
            match self {
                Walk::Updating { value } => r == Some(value),
                _ => r is None,
            },
    {
        match self {
            Walk::Updating { value } => Some(value),
            _ => None,
        }
    }

    pub fn is_finished(&self) -> (r: bool)
        ensures
            r == (*self is Finished),
    {
        matches!(self, Walk::Finished)
    }
}

/// The actions a walk takes, in order, when fed `events` from state `w`.
pub open spec fn run<T>(w: Walk<T>, events: Seq<Event<T>>) -> Seq<Action<T>>
    decreases events.len(),
{
    if events.len() == 0 {
        Seq::empty()
    } else {
        let (next, a) = step_spec(w, events[0]);
        seq![a] + run(next, events.drop_first())
    }
}

/// How many of `actions` poll the upstream.
pub open spec fn upstream_polls<T>(actions: Seq<Action<T>>) -> nat
    decreases actions.len(),
{
    if actions.len() == 0 {
        0
    } else {
        (if actions[0] is PollUpstream {
            1nat
        } else {
            0nat
        }) + upstream_polls(actions.drop_first())
    }
}

/// How many of `actions` write the cache.
pub open spec fn cache_writes<T>(actions: Seq<Action<T>>) -> nat
    decreases actions.len(),
{
    if actions.len() == 0 {
        0
    } else {
        (if actions[0] is UpdateCache {
            1nat
        } else {
            0nat
        }) + cache_writes(actions.drop_first())
    }
}

/// States reached once the upstream has been asked.
pub open spec fn upstream_asked<T>(w: Walk<T>) -> bool {
    w is PollingUpstream || w is Updating || w is Finished
}

proof fn lemma_run_unfold<T>(w: Walk<T>, events: Seq<Event<T>>)
    requires
        events.len() > 0,
    ensures
        run(w, events)[0] == step_spec(w, events[0]).1,
        run(w, events).drop_first() == run(step_spec(w, events[0]).0, events.drop_first()),
        run(w, events).len() > 0,
{
    let (next, a) = step_spec(w, events[0]);
    assert((seq![a] + run(next, events.drop_first())).drop_first() =~= run(next, events.drop_first()));
}

proof fn lemma_no_poll_after_asked<T>(w: Walk<T>, events: Seq<Event<T>>)
    requires
        upstream_asked(w),
    ensures
        upstream_polls(run(w, events)) == 0,
    decreases events.len(),
{
    if events.len() > 0 {
        lemma_run_unfold(w, events);
        lemma_no_poll_after_asked(step_spec(w, events[0]).0, events.drop_first());
    }
}

proof fn lemma_finished_is_silent<T>(events: Seq<Event<T>>)
    ensures
        upstream_polls(run(Walk::<T>::Finished, events)) == 0,
        cache_writes(run(Walk::<T>::Finished, events)) == 0,
    decreases events.len(),
{
    if events.len() > 0 {
        lemma_run_unfold(Walk::<T>::Finished, events);
        lemma_finished_is_silent::<T>(events.drop_first());
    }
}

/// Whatever events arrive, from whatever state, a walk polls the upstream at most once.
pub proof fn lemma_upstream_at_most_once<T>(w: Walk<T>, events: Seq<Event<T>>)
    ensures
        upstream_polls(run(w, events)) <= 1,
    decreases events.len(),
{
    if events.len() > 0 {
        lemma_run_unfold(w, events);
        let (next, a) = step_spec(w, events[0]);
        if a is PollUpstream {
            lemma_no_poll_after_asked(next, events.drop_first());
        } else {
            lemma_upstream_at_most_once(next, events.drop_first());
        }
    }
}

/// When the upstream answers with an error, the caller receives that error and the walk
/// never writes the cache, whatever events follow.
pub proof fn lemma_no_cache_on_error<T>(
    writes: bool,
    error: CacheError,
    cacheable: bool,
    now: u64,
    events: Seq<Event<T>>,
)
    ensures
        ({
            let all = seq![Event::Upstream { result: Err(error), cacheable, now }] + events;
            let actions = run(Walk::<T>::PollingUpstream { writes }, all);
            &&& actions[0] == Action::<T>::Return(Err(error))
            &&& cache_writes(actions) == 0
        }),
{
    let all = seq![Event::Upstream { result: Err(error), cacheable, now }] + events;
    assert(all.drop_first() =~= events);
    lemma_run_unfold(Walk::<T>::PollingUpstream { writes }, all);
    lemma_finished_is_silent::<T>(events);
}

/// A fresh cache hit, on the first read or a re-read, is returned as it is and the upstream
/// is never polled afterwards.
pub proof fn lemma_actual_bypasses_upstream<T>(
    w: Walk<T>,
    value: CachedValue<T>,
    events: Seq<Event<T>>,
)
    requires
        w is ReadingCache || w is Rechecking,
    ensures
        ({
            let all = seq![Event::CacheRead(Ok(CacheState::Actual(value)))] + events;
            let actions = run(w, all);
            &&& actions[0] == Action::<T>::Return(Ok(value.data))
            &&& upstream_polls(actions) == 0
        }),
{
    let all = seq![Event::CacheRead(Ok(CacheState::Actual(value)))] + events;
    assert(all.drop_first() =~= events);
    lemma_run_unfold(w, all);
    lemma_finished_is_silent::<T>(events);
}

/// The outcome of a cache write does not change what the caller receives.
pub proof fn lemma_best_effort_write<T>(
    value: CachedValue<T>,
    first: Result<(), CacheError>,
    second: Result<(), CacheError>,
)
    ensures
        step_spec(Walk::Updating { value }, Event::Written(first)) == step_spec(
            Walk::Updating { value },
            Event::Written(second),
        ),
        step_spec(Walk::Updating { value }, Event::Written(first)).1 == Action::<T>::Return(
            Ok(value.data),
        ),
{
}


proof fn lemma_no_write_after_written<T>(w: Walk<T>, events: Seq<Event<T>>)
    requires
        w is Updating || w is Finished,
    ensures
        cache_writes(run(w, events)) == 0,
    decreases events.len(),
{
    if events.len() > 0 {
        lemma_run_unfold(w, events);
        lemma_no_write_after_written(step_spec(w, events[0]).0, events.drop_first());
    }
}

/// Whatever events arrive, from whatever state, a walk writes the cache at most once, and
/// each write stores one whole value.
pub proof fn lemma_write_at_most_once<T>(w: Walk<T>, events: Seq<Event<T>>)
    ensures
        cache_writes(run(w, events)) <= 1,
    decreases events.len(),
{
    if events.len() > 0 {
        lemma_run_unfold(w, events);
        let (next, a) = step_spec(w, events[0]);
        if a is UpdateCache {
            lemma_no_write_after_written(next, events.drop_first());
        } else {
            lemma_write_at_most_once(next, events.drop_first());
        }
    }
}

/// Milliseconds of sleep among `actions`.
pub open spec fn slept_ms<T>(actions: Seq<Action<T>>) -> nat
    decreases actions.len(),
{
    if actions.len() == 0 {
        0
    } else {
        (match actions[0] {
            Action::Sleep(ms) => ms as nat,
            _ => 0nat,
        }) + slept_ms(actions.drop_first())
    }
}

/// Milliseconds a walk may still spend waiting for another walk's value.
pub open spec fn wait_budget<T>(w: Walk<T>) -> int {
    match w {
        Walk::Initial { policy } => policy.lock_ttl_ms as int,
        Walk::ReadingCache { policy } => policy.lock_ttl_ms as int,
        Walk::Locking { policy } => policy.lock_ttl_ms as int,
        Walk::Sleeping { policy, waited_ms, .. } => policy.lock_ttl_ms - waited_ms,
        Walk::Rechecking { policy, waited_ms, .. } => policy.lock_ttl_ms - waited_ms,
        _ => 0,
    }
}

proof fn lemma_step_within_budget<T>(w: Walk<T>, e: Event<T>)
    requires
        wait_budget(w) >= 0,
    ensures
        wait_budget(step_spec(w, e).0) >= 0,
        (match step_spec(w, e).1 {
            Action::Sleep(ms) => ms as int,
            _ => 0int,
        }) + wait_budget(step_spec(w, e).0) <= wait_budget(w),
{
}

proof fn lemma_slept_within_budget<T>(w: Walk<T>, events: Seq<Event<T>>)
    requires
        wait_budget(w) >= 0,
    ensures
        slept_ms(run(w, events)) <= wait_budget(w),
    decreases events.len(),
{
    if events.len() > 0 {
        lemma_run_unfold(w, events);
        lemma_step_within_budget(w, events[0]);
        lemma_slept_within_budget(step_spec(w, events[0]).0, events.drop_first());
    }
}

/// Whatever events arrive, a walk's sleeps add up to no more than its lock's time to live.
pub proof fn lemma_wait_bounded<T>(policy: Policy, events: Seq<Event<T>>)
    ensures
        slept_ms(run(Walk::<T>::Initial { policy }, events)) <= policy.lock_ttl_ms,
{
    lemma_slept_within_budget(Walk::<T>::Initial { policy }, events);
}


/// How many of `actions` reach the store: reads, lock requests and writes.
pub open spec fn store_calls<T>(actions: Seq<Action<T>>) -> nat
    decreases actions.len(),
{
    if actions.len() == 0 {
        0
    } else {
        (if actions[0] is PollCache || actions[0] is AcquireLock || actions[0] is UpdateCache {
            1nat
        } else {
            0nat
        }) + store_calls(actions.drop_first())
    }
}

/// States of a walk whose cache is switched off.
pub open spec fn cache_off<T>(w: Walk<T>) -> bool {
    match w {
        Walk::Initial { policy } => policy.settings is Disabled,
        Walk::PollingUpstream { writes } => !writes,
        Walk::Finished => true,
        _ => false,
    }
}

proof fn lemma_cache_off_silent<T>(w: Walk<T>, events: Seq<Event<T>>)
    requires
        cache_off(w),
    ensures
        store_calls(run(w, events)) == 0,
    decreases events.len(),
{
    if events.len() > 0 {
        lemma_run_unfold(w, events);
        lemma_cache_off_silent(step_spec(w, events[0]).0, events.drop_first());
    }
}

/// With the cache switched off, starting a walk polls the upstream, and whatever events
/// follow, the walk never reads, locks or writes the store.
pub proof fn lemma_disabled_skips_store<T>(lock_ttl_ms: u64, events: Seq<Event<T>>)
    ensures
        ({
            let w = Walk::<T>::Initial {
                policy: Policy { settings: InitialCacheSettings::Disabled, lock_ttl_ms },
            };
            &&& store_calls(run(w, events)) == 0
            &&& events.len() > 0 && events[0] is Start ==> run(w, events)[0] is PollUpstream
        }),
{
    let w = Walk::<T>::Initial {
        policy: Policy { settings: InitialCacheSettings::Disabled, lock_ttl_ms },
    };
    lemma_cache_off_silent(w, events);
    if events.len() > 0 {
        lemma_run_unfold(w, events);
    }
}

} // verus!
