use vstd::prelude::*;

verus! {

/// The version after one more signal, wrapping at the top of the range.
pub open spec fn spec_next_version(v: u64) -> u64 {
    if v == u64::MAX {
        0
    } else {
        (v + 1) as u64
    }
}

/// A shared wake signal, not a queue: it buffers no individual events, only
/// "at least one new block since last observation".  Modeled as a version
/// counter; a consumer holds a `NotificationWaiter` and compares versions.
/// Any number of signals between two observations collapse into one wake.
///
/// The blocking primitive that parks a consumer until the version moves
/// lives outside this crate; shutdown wakes all waiters there by signalling
/// once more.
pub struct NotificationHub {
    version: u64,
}

impl NotificationHub {
    /// The current version: the number of signals so far, wrapped.
    pub closed spec fn spec_version(self) -> u64 {
        self.version
    }

    /// Reads the current version.
    pub fn current_version(&self) -> (v: u64)
        ensures
            v == self.spec_version(),
    {
        self.version
    }

    /// Creates the hub with nothing pending.
    pub fn new() -> (h: NotificationHub)
        ensures
            h.spec_version() == 0,
    {
        NotificationHub { version: 0 }
    }

    /// Records that at least one new block was committed since the last
    /// observation.  Wakes every current waiter exactly once, however many
    /// times it is called before they next observe.
    pub fn signal(&mut self)
        ensures
            final(self).spec_version() == spec_next_version(old(self).spec_version()),
    {
        if self.version == u64::MAX {
            self.version = 0;
        } else {
            self.version = self.version + 1;
        }
    }
}

/// One consumer's view of the hub: the version it last observed.  The
/// consumer re-reads the cursor after waking to learn how far the chain
/// advanced; the hub itself carries no payload.
pub struct NotificationWaiter {
    last_seen: u64,
}

impl NotificationWaiter {
    /// The version this waiter last observed.
    pub closed spec fn spec_last_seen(self) -> u64 {
        self.last_seen
    }

    /// Whether a wake is pending: the hub has been signalled since this
    /// waiter last observed it.
    pub open spec fn spec_pending(self, hub: NotificationHub) -> bool {
        self.spec_last_seen() != hub.spec_version()
    }

    /// Registers a waiter, synced with the hub: nothing pending.
    pub fn new(hub: &NotificationHub) -> (w: NotificationWaiter)
        ensures
            w.spec_last_seen() == hub.spec_version(),
            !w.spec_pending(*hub),
    {
        NotificationWaiter { last_seen: hub.current_version() }
    }

    /// Whether a wake is pending.
    pub fn pending(&self, hub: &NotificationHub) -> (b: bool)
        ensures
            b == self.spec_pending(*hub),
    {
        self.last_seen != hub.current_version()
    }

    /// Consumes the pending wake, if any: the waiter catches up with the
    /// hub's current version — the final one, not an intermediate.  Returns
    /// whether a wake was pending.
    pub fn observe(&mut self, hub: &NotificationHub) -> (had: bool)
        ensures
            final(self).spec_last_seen() == hub.spec_version(),
            !final(self).spec_pending(*hub),
            had == old(self).spec_pending(*hub),
    {
        let had = self.last_seen != hub.current_version();
        self.last_seen = hub.current_version();
        had
    }
}

/// Notification coalescing: for a waiter in sync with the hub, one, two,
/// or three signals before its next observation (`h1`, `h2`, `h3` being the
/// hub after each successive signal) each leave exactly one pending wake —
/// not one per signal — and `observe` then clears it in a single step.
pub proof fn lemma_notification_coalescing(
    w: NotificationWaiter,
    h0: NotificationHub,
    h1: NotificationHub,
    h2: NotificationHub,
    h3: NotificationHub,
)
    requires
        !w.spec_pending(h0),
        h1.spec_version() == spec_next_version(h0.spec_version()),
        h2.spec_version() == spec_next_version(h1.spec_version()),
        h3.spec_version() == spec_next_version(h2.spec_version()),
    ensures
        w.spec_pending(h1),
        w.spec_pending(h2),
        w.spec_pending(h3),
{
}

} // verus!
