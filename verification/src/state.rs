//! The state store: the single current mode, an optionally pending next
//! mode, and change detection for observers outside the transition protocol.

use vstd::prelude::*;

verus! {

/// The closed set of top-level application modes.
#[derive(Clone, Copy, PartialEq, Eq, Structural, Debug, Hash)]
pub enum GameState {
    MainMenu,
    InGame,
}

/// Holds the current mode, at most one pending mode request, and a flag that
/// records whether the mode value was modified since it was last observed.
///
/// There is exactly one current mode at all times; the pending slot holds a
/// requested-but-not-yet-applied transition, and the latest request wins.
pub struct StateStore {
    /// The mode the application is in right now.
    pub current: GameState,
    /// A requested transition that the scheduler has not applied yet.
    pub pending: Option<GameState>,
    /// True when `current` was written since the last observation.
    pub dirty: bool,
}

/// What `request` leaves behind: the pending slot overwritten, all else kept.
pub open spec fn spec_request(s: StateStore, m: GameState) -> StateStore {
    StateStore { current: s.current, pending: Some(m), dirty: s.dirty }
}

/// The store after a whole sequence of requests, in order.
pub open spec fn after_requests(s: StateStore, ms: Seq<GameState>) -> StateStore
    decreases ms.len(),
{
    if ms.len() == 0 {
        s
    } else {
        spec_request(after_requests(s, ms.drop_last()), ms.last())
    }
}

impl StateStore {
    /// A fresh store. The dirty flag starts raised so that an observer sees
    /// the initial mode as a change, mirroring change detection that fires
    /// when the mode value first appears.
    pub fn new(initial: GameState) -> (s: Self)
        ensures
            s.current == initial,
            s.pending is None,
            s.dirty,
    {
        StateStore { current: initial, pending: None, dirty: true }
    }

    /// The current mode; no side effect.
    pub fn read_current(&self) -> (m: GameState)
        ensures
            m == self.current,
    {
        self.current
    }

    /// Requests a transition. Overwrites any pending request: the latest
    /// request of a tick is the one the scheduler applies.
    pub fn request(&mut self, m: GameState)
        ensures
            *final(self) == spec_request(*old(self), m),
            final(self).pending == Some(m),
            final(self).current == old(self).current,
            final(self).dirty == old(self).dirty,
    {
        self.pending = Some(m);
    }

    /// Returns and clears the pending slot in one step.
    pub fn take_pending(&mut self) -> (p: Option<GameState>)
        ensures
            p == old(self).pending,
            final(self).pending is None,
            final(self).current == old(self).current,
            final(self).dirty == old(self).dirty,
    {
        let p = self.pending;
        self.pending = None;
        p
    }

    /// Commits a new current mode and raises the change flag. Used by the
    /// scheduler between the old mode's exit hooks and the new mode's enter
    /// hooks; it does not touch the pending slot.
    pub fn commit(&mut self, m: GameState)
        ensures
            final(self).current == m,
            final(self).dirty,
            final(self).pending == old(self).pending,
    {
        self.current = m;
        self.dirty = true;
    }

    /// True when the mode was modified since the last call; observing clears
    /// the flag. For loggers and other observers that do not take part in
    /// the transition protocol.
    pub fn changed_since_last_observed(&mut self) -> (c: bool)
        ensures
            c == old(self).dirty,
            !final(self).dirty,
            final(self).current == old(self).current,
            final(self).pending == old(self).pending,
    {
        let c = self.dirty;
        self.dirty = false;
        c
    }
}

/// Law: for any sequence of requests within one pass, only the last one is
/// applied — the pending slot holds exactly the final requested mode, and
/// the current mode and change flag are untouched by requesting.
pub proof fn lemma_latest_request_wins(s: StateStore, ms: Seq<GameState>)
    requires
        ms.len() > 0,
    ensures
        after_requests(s, ms).pending == Some(ms.last()),
        after_requests(s, ms).current == s.current,
        after_requests(s, ms).dirty == s.dirty,
    decreases ms.len(),
{
    if ms.len() == 1 {
        assert(ms.drop_last().len() == 0);
        assert(after_requests(s, ms.drop_last()) == s);
    } else {
        lemma_latest_request_wins(s, ms.drop_last());
    }
}

} // verus!
