//! The polled background task: a worker produces items onto a channel, the
//! control thread drains whatever is available once per loop iteration, and
//! a dirty flag asks for the work to be re-run when the underlying data may
//! be stale.  The thread and the channel live with the caller; this is the
//! state machine they drive, the same shape the session reader uses.
use vstd::prelude::*;

verus! {

/// The control-thread side of one background task.
pub struct BackgroundTask<R> {
    /// What the worker has produced so far in the current run.
    pub results: Vec<R>,
    /// A worker is running and may still produce items.
    pub running: bool,
    /// The data the worker read may be stale: a new run is wanted.
    pub dirty: bool,
}

impl<R> BackgroundTask<R> {
    /// A fresh task: nothing produced, no worker, and dirty, so that the
    /// first poll starts a run.
    pub fn new() -> (r: BackgroundTask<R>)
        ensures
            r.results@.len() == 0,
            !r.running,
            r.dirty,
    {
        BackgroundTask { results: Vec::new(), running: false, dirty: true }
    }

    /// Notes that the data underneath may have changed.
    pub fn mark_dirty(&mut self)
        ensures
            final(self).dirty,
            final(self).results == old(self).results,
            final(self).running == old(self).running,
    {
        self.dirty = true;
    }

    /// Whether the caller should start a worker now: the data is stale and
    /// no worker is already running.
    pub fn should_start(&self) -> (r: bool)
        ensures
            r == (self.dirty && !self.running),
    {
        self.dirty && !self.running
    }

    /// Begins a run: the caller has just spawned the worker.  The stale
    /// results are discarded.
    pub fn start(&mut self)
        requires
            old(self).dirty,
            !old(self).running,
        ensures
            final(self).running,
            !final(self).dirty,
            final(self).results@.len() == 0,
    {
        self.results = Vec::new();
        self.running = true;
        self.dirty = false;
    }

    /// Takes in whatever the worker produced since the last poll, without
    /// blocking; `finished` reports that the worker is done and will produce
    /// nothing more.
    pub fn drain(&mut self, mut items: Vec<R>, finished: bool)
        requires
            old(self).running,
        ensures
            final(self).results@ == old(self).results@ + items@,
            final(self).running == !finished,
            final(self).dirty == old(self).dirty,
    {
        self.results.append(&mut items);
        if finished {
            self.running = false;
        }
    }
}

} // verus!

