//! The synchronization state machine: when to re-synchronize, when to
//! publish, and how the outbound link is reconnected.  The loop that blocks
//! on the bus and talks to the IPC endpoint lives outside the library; it
//! feeds every wake-up, discovery result and publish outcome through the
//! decision functions here and performs exactly the actions they return.

use vstd::prelude::*;

verus! {

/// Staleness interval: a re-synchronization is forced once this long has
/// passed since the last successful publish, even without a bus signal.
pub const STALENESS_MICROS: u64 = 30_000_000;

/// Throttle interval: two successive publishes lie at least this far apart.
pub const THROTTLE_MICROS: u64 = 5_000_000;

/// Delay before reading player state after a bus signal, so that a seek's
/// new position is committed on the bus before it is read.
pub const RESYNC_DELAY_MICROS: u64 = 1_000_000;

/// Delay between attempts to establish the outbound link at startup.
pub const CONNECT_RETRY_MICROS: u64 = 1_000_000;

/// State of the outbound IPC link.  It transitions only through the
/// connect and reconnect decisions below, never implicitly.
#[derive(Clone, Copy, Debug, PartialEq, Eq, Structural)]
pub enum LinkState {
    Disconnected,
    Connected,
}

/// The state the synchronization loop owns: the link, the reconnect
/// suppression flag, and the monotonic instant of the last successful
/// publish, in microseconds.
#[derive(Clone, Copy, Debug, PartialEq, Eq, Structural)]
pub struct SyncState {
    pub link: LinkState,
    pub has_closed: bool,
    pub last_publish_micros: u64,
}

/// What a wake-up of the loop calls for.
#[derive(Clone, Copy, Debug, PartialEq, Eq, Structural)]
pub enum WakeAction {
    /// Re-synchronize: discovery, extraction, build, publish.  `deferred`
    /// asks for the short delay before reading player state.
    Resync { deferred: bool },
    /// Nothing is due; check whether the idle reconnect applies.
    CheckIdle,
}

/// The state after a publish attempt: a success moves the last-publish
/// instant to `now`; a failure leaves the state untouched.
pub open spec fn spec_publish_step(st: SyncState, now: u64, ok: bool) -> SyncState {
    if ok {
        SyncState { last_publish_micros: now, ..st }
    } else {
        st
    }
}

/// Whether the throttle allows a publish at instant `now`.
pub open spec fn spec_should_publish(st: SyncState, now: u64) -> bool {
    now - st.last_publish_micros >= THROTTLE_MICROS
}

/// How many reconnects a run of publish outcomes provokes: one per failure.
pub open spec fn spec_reconnects(outcomes: Seq<bool>) -> int
    decreases outcomes.len(),
{
    if outcomes.len() == 0 {
        0
    } else {
        (if outcomes[0] {
            0int
        } else {
            1int
        }) + spec_reconnects(outcomes.drop_first())
    }
}

impl SyncState {
    /// The state before the outbound link is up.
    pub fn startup() -> (s: SyncState)
        ensures
            s.link is Disconnected,
            !s.has_closed,
            s.last_publish_micros == 0,
    {
        SyncState { link: LinkState::Disconnected, has_closed: false, last_publish_micros: 0 }
    }

    /// Digest one startup connect attempt.  Success brings the link up and
    /// starts the publish clock at `now`; failure changes nothing, and the
    /// attempt is to be repeated after the retry delay — the link's absence
    /// is waited for, never fatal.
    pub fn on_connect_attempt(&mut self, ok: bool, now: u64) -> (retry: bool)
        ensures
            retry == !ok,
            ok ==> *final(self) == (SyncState {
                link: LinkState::Connected,
                has_closed: old(self).has_closed,
                last_publish_micros: now,
            }),
            !ok ==> *final(self) == *old(self),
    {
        if ok {
            self.link = LinkState::Connected;
            self.last_publish_micros = now;
        }
        !ok
    }

    /// Decide what a wake-up calls for.  A delivered signal always means a
    /// deferred re-synchronization; a timeout re-synchronizes only once the
    /// staleness interval has passed since the last publish; otherwise the
    /// idle check runs.
    pub fn decide_wake(&self, signaled: bool, now: u64) -> (a: WakeAction)
        requires
            now >= self.last_publish_micros,
        ensures
            signaled ==> a == (WakeAction::Resync { deferred: true }),
            !signaled && now - self.last_publish_micros >= STALENESS_MICROS ==> a == (
            WakeAction::Resync { deferred: false }),
            !signaled && now - self.last_publish_micros < STALENESS_MICROS ==> a
                == WakeAction::CheckIdle,
    {
        if signaled {
            WakeAction::Resync { deferred: true }
        } else if now - self.last_publish_micros >= STALENESS_MICROS {
            WakeAction::Resync { deferred: false }
        } else {
            WakeAction::CheckIdle
        }
    }

    /// Whether the idle branch attempts a reconnect: only when no session is
    /// active and no idle reconnect has happened since one last was.
    pub fn decide_idle_reconnect(&self, player_absent: bool) -> (attempt: bool)
        ensures
            attempt == (player_absent && !self.has_closed),
    {
        player_absent && !self.has_closed
    }

    /// An idle reconnect went through: suppress further ones until a session
    /// is active again.
    pub fn on_idle_reconnected(&mut self)
        ensures
            *final(self) == (SyncState { has_closed: true, ..*old(self) }),
    {
        self.has_closed = true;
    }

    /// A re-synchronization completed: a session was seen to be active, so
    /// the idle-reconnect suppression is lifted.
    pub fn on_resync_complete(&mut self)
        ensures
            *final(self) == (SyncState { has_closed: false, ..*old(self) }),
    {
        self.has_closed = false;
    }

    /// Whether the throttle allows a publish at instant `now`.
    pub fn should_publish(&self, now: u64) -> (b: bool)
        requires
            now >= self.last_publish_micros,
        ensures
            b == spec_should_publish(*self, now),
    {
        now - self.last_publish_micros >= THROTTLE_MICROS
    }

    /// Digest the outcome of one publish attempt.  A success moves the
    /// last-publish instant to `now` and asks for no reconnect; a failure
    /// leaves the state exactly as it was and asks for exactly one
    /// reconnect — never an exit.
    pub fn on_publish_result(&mut self, now: u64, ok: bool) -> (reconnect: bool)
        ensures
            reconnect == !ok,
            *final(self) == spec_publish_step(*old(self), now, ok),
    {
        if ok {
            self.last_publish_micros = now;
        }
        !ok
    }
}

/// Reconnect convergence: a run of consecutive publish failures provokes
/// exactly one reconnect per failure, the state never changes, and the next
/// state is defined after every prefix — the loop never exits.
pub proof fn lemma_reconnect_convergence(st: SyncState, outcomes: Seq<bool>, now: u64)
    requires
        forall|i: int| 0 <= i < outcomes.len() ==> !outcomes[i],
    ensures
        spec_reconnects(outcomes) == outcomes.len(),
        forall|i: int|
            0 <= i < outcomes.len() ==> spec_publish_step(st, now, outcomes[i]) == st,
    decreases outcomes.len(),
{
    if outcomes.len() > 0 {
        lemma_reconnect_convergence(st, outcomes.drop_first(), now);
    }
}

/// Publishing the same payload twice in a row: the first success moves the
/// publish clock to its instant, and a second attempt inside the throttle
/// window is refused by the throttle check with the state left exactly as
/// the first publish left it.
pub proof fn lemma_publish_idempotent(st: SyncState, now1: u64, now2: u64)
    requires
        now1 <= now2,
        now2 - now1 < THROTTLE_MICROS,
    ensures
        spec_publish_step(st, now1, true).last_publish_micros == now1,
        !spec_should_publish(spec_publish_step(st, now1, true), now2),
{
}

} // verus!
