use vstd::prelude::*;

verus! {

/// What the native layer must do after a `start_watch` decision: first stop
/// the watcher named by `stop_first`, if any, then spawn a watcher under the
/// fresh identifier `spawn`.
pub struct WatchPlan {
    pub stop_first: Option<u64>,
    pub spawn: u64,
}

/// Watch lifecycle of the service: `Idle` when `active` is `None`, `Watching`
/// otherwise. At most one watcher is active at any time, by construction:
/// `active` names it. `next_id` is the identifier the next spawn will get;
/// identifiers are never reused.
pub struct WatchLifecycle {
    pub active: Option<u64>,
    pub next_id: u64,
}

/// How many watchers are active: one exactly when the lifecycle is watching.
pub open spec fn active_watchers(w: WatchLifecycle) -> nat {
    if w.active is Some {
        1nat
    } else {
        0nat
    }
}

/// The lifecycle and plan after a `start_watch`: the running watcher, if any,
/// is torn down first, then exactly one fresh watcher is spawned.
pub open spec fn start_watch_spec(w: WatchLifecycle) -> (WatchLifecycle, WatchPlan) {
    (
        WatchLifecycle { active: Some(w.next_id), next_id: (w.next_id + 1) as u64 },
        WatchPlan { stop_first: w.active, spawn: w.next_id },
    )
}

/// The lifecycle after a `stop_watch`, and the watcher it stops: the active
/// one, or none when the lifecycle was already idle.
pub open spec fn stop_watch_spec(w: WatchLifecycle) -> (WatchLifecycle, Option<u64>) {
    (WatchLifecycle { active: None, next_id: w.next_id }, w.active)
}

impl WatchLifecycle {
    /// The initial lifecycle: idle, no watcher ever spawned.
    pub fn new() -> (r: WatchLifecycle)
        ensures
            r == (WatchLifecycle { active: None, next_id: 0u64 }),
    {
        WatchLifecycle { active: None, next_id: 0 }
    }

    /// Decide a watch start. The plan orders the native layer to stop the
    /// previously active watcher, if any, before it spawns the new one, so a
    /// single watcher is active afterwards, and it is the fresh one.
    pub fn start(&mut self) -> (plan: WatchPlan)
        requires
            old(self).next_id < u64::MAX,
        ensures
            (*final(self), plan) == start_watch_spec(*old(self)),
            final(self).active == Some(plan.spawn),
            active_watchers(*final(self)) == 1,
    {
        let plan = WatchPlan { stop_first: self.active, spawn: self.next_id };
        self.active = Some(self.next_id);
        self.next_id = self.next_id + 1;
        plan
    }

    /// Decide a watch stop. Returns the watcher the native layer must tear
    /// down; with no active watcher this is a no-op and the lifecycle is
    /// unchanged.
    pub fn stop(&mut self) -> (stopped: Option<u64>)
        ensures
            (*final(self), stopped) == stop_watch_spec(*old(self)),
            final(self).active is None,
            old(self).active is None ==> *final(self) == *old(self),
    {
        let stopped = self.active;
        self.active = None;
        stopped
    }

    /// Whether a watcher is currently active.
    pub fn is_watching(&self) -> (r: bool)
        ensures
            r == (self.active is Some),
    {
        self.active.is_some()
    }
}

/// Starting to watch twice in a row leaves exactly one active watcher: the
/// second start stops precisely the watcher the first start spawned, and
/// afterwards the single active watcher is the one the second start spawned.
pub proof fn lemma_start_twice_single_watcher(w: WatchLifecycle)
    requires
        w.next_id + 1 < u64::MAX,
    ensures
        ({
            let (w1, plan1) = start_watch_spec(w);
            let (w2, plan2) = start_watch_spec(w1);
            &&& plan2.stop_first == Some(plan1.spawn)
            &&& w2.active == Some(plan2.spawn)
            &&& plan2.spawn != plan1.spawn
            &&& active_watchers(w2) == 1
        }),
{
}

/// Stopping with no active watcher is a no-op: nothing is torn down and the
/// lifecycle is left as it was.
pub proof fn lemma_stop_idle_noop(w: WatchLifecycle)
    requires
        w.active is None,
    ensures
        stop_watch_spec(w) == (w, None::<u64>),
{
}

} // verus!
