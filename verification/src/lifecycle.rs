//! The per-session lifecycle the host guarantees: one successful open
//! first, any number of operations on the open session, one release last.
//!
//! The dispatch shims in [`crate::session`] state their preconditions and
//! transitions through [`event_allowed`] and [`event_step`], so the
//! lemmas here are theorems about every sequence of shim calls the host
//! can legally make: the owned value is installed at most once and
//! reclaimed at most once, every operation runs between the two, and a
//! released session is terminal.

use vstd::prelude::*;

verus! {

/// Where a session stands between creation and teardown.
#[derive(Copy, Clone, PartialEq, Eq, Structural, Debug)]
pub enum SessionPhase {
    /// The file exists but no author value has been installed; the opaque
    /// slot still designates the registration itself.
    Unopened,
    /// Open succeeded and the slot holds the author's owned value.
    Open,
    /// Release reclaimed the value; terminal.
    Released,
}

/// One host call on a session that changed or used the opaque slot.
/// `Open` stands for a *successful* open: a failed open installs nothing
/// and leaves the session as it was.
#[derive(Copy, Clone, PartialEq, Eq, Structural, Debug)]
pub enum SessionEvent {
    Open,
    Ioctl,
    CompatIoctl,
    ShowFdinfo,
    Release,
}

/// Which events the host may deliver in each phase.  This is the ordering
/// contract the host upholds and the shims require.
pub open spec fn event_allowed(p: SessionPhase, e: SessionEvent) -> bool {
    match e {
        SessionEvent::Open => p is Unopened,
        SessionEvent::Ioctl => p is Open,
        SessionEvent::CompatIoctl => p is Open,
        SessionEvent::ShowFdinfo => p is Open,
        SessionEvent::Release => p is Open,
    }
}

/// The phase a session reaches after an allowed event.
pub open spec fn event_step(p: SessionPhase, e: SessionEvent) -> SessionPhase {
    match e {
        SessionEvent::Open => SessionPhase::Open,
        SessionEvent::Ioctl => p,
        SessionEvent::CompatIoctl => p,
        SessionEvent::ShowFdinfo => p,
        SessionEvent::Release => SessionPhase::Released,
    }
}

/// Borrowing operations never move a session between phases: however
/// many control or fdinfo calls run against an open session — including
/// simultaneously, since each takes only a view of the installed value —
/// none of them reclaims the token or reaches a released state.  Only
/// open installs and only release reclaims.
pub proof fn lemma_borrows_preserve_phase(p: SessionPhase)
    ensures
        event_step(p, SessionEvent::Ioctl) == p,
        event_step(p, SessionEvent::CompatIoctl) == p,
        event_step(p, SessionEvent::ShowFdinfo) == p,
        event_step(p, SessionEvent::Release) is Released,
        event_step(p, SessionEvent::Open) is Open,
{
}

/// The phase reached by running a trace of events from `p`, or `None` if
/// some event arrives in a phase that does not allow it.
pub open spec fn run_trace(p: SessionPhase, t: Seq<SessionEvent>) -> Option<SessionPhase>
    decreases t.len(),
{
    if t.len() == 0 {
        Some(p)
    } else {
        match run_trace(p, t.drop_last()) {
            Some(q) => {
                if event_allowed(q, t.last()) {
                    Some(event_step(q, t.last()))
                } else {
                    None::<SessionPhase>
                }
            },
            None => None::<SessionPhase>,
        }
    }
}

/// A trace the host can legally deliver to a fresh session.
pub open spec fn valid_trace(t: Seq<SessionEvent>) -> bool {
    run_trace(SessionPhase::Unopened, t) is Some
}

/// How many times `e` occurs in `t`.
pub open spec fn event_count(t: Seq<SessionEvent>, e: SessionEvent) -> nat
    decreases t.len(),
{
    if t.len() == 0 {
        0
    } else {
        event_count(t.drop_last(), e) + if t.last() == e { 1nat } else { 0nat }
    }
}

/// In a valid trace, the phase reached determines how many opens and
/// releases have happened: none yet while unopened, exactly one open
/// while open, and exactly one of each once released.
pub proof fn lemma_trace_counts(t: Seq<SessionEvent>)
    requires
        valid_trace(t),
    ensures
        run_trace(SessionPhase::Unopened, t) == Some(SessionPhase::Unopened) ==> event_count(
            t,
            SessionEvent::Open,
        ) == 0 && event_count(t, SessionEvent::Release) == 0,
        run_trace(SessionPhase::Unopened, t) == Some(SessionPhase::Open) ==> event_count(
            t,
            SessionEvent::Open,
        ) == 1 && event_count(t, SessionEvent::Release) == 0,
        run_trace(SessionPhase::Unopened, t) == Some(SessionPhase::Released) ==> event_count(
            t,
            SessionEvent::Open,
        ) == 1 && event_count(t, SessionEvent::Release) == 1,
    decreases t.len(),
{
    if t.len() > 0 {
        lemma_trace_counts(t.drop_last());
    }
}

/// Exactly one open occurs before any other event, and exactly one
/// release occurs after all of them: in a valid trace the owned value is
/// installed at most once, reclaimed at most once, never reclaimed before
/// it was installed, and nothing follows the release.
pub proof fn lemma_single_install_single_reclaim(t: Seq<SessionEvent>)
    requires
        valid_trace(t),
    ensures
        event_count(t, SessionEvent::Open) <= 1,
        event_count(t, SessionEvent::Release) <= 1,
        event_count(t, SessionEvent::Release) <= event_count(t, SessionEvent::Open),
        forall|i: int|
            0 <= i < t.len() && t[i] != SessionEvent::Open ==> exists|j: int|
                0 <= j < i && t[j] == SessionEvent::Open,
        forall|i: int| 0 <= i < t.len() && t[i] == SessionEvent::Release ==> i == t.len() - 1,
    decreases t.len(),
{
    lemma_trace_counts(t);
    if t.len() > 0 {
        assert(run_trace(SessionPhase::Unopened, t.drop_last()) is Some);
        lemma_single_install_single_reclaim(t.drop_last());
        lemma_trace_counts(t.drop_last());
        let prev = run_trace(SessionPhase::Unopened, t.drop_last())->Some_0;
        if t.last() != SessionEvent::Open {
            // The last event needs an open session, so an open stands
            // somewhere before it.
            assert(prev is Open);
            assert(event_count(t.drop_last(), SessionEvent::Open) == 1);
            lemma_count_positive_gives_witness(t.drop_last(), SessionEvent::Open);
        }
        assert forall|i: int|
            0 <= i < t.len() && t[i] != SessionEvent::Open implies exists|j: int|
            0 <= j < i && t[j] == SessionEvent::Open by {
            if i < t.len() - 1 {
                assert(t.drop_last()[i] == t[i]);
                let j = choose|j: int| 0 <= j < i && t.drop_last()[j] == SessionEvent::Open;
                if i > 0 && t[i] != SessionEvent::Open {
                    assert(t[j] == SessionEvent::Open);
                }
            }
        }
        assert forall|i: int|
            0 <= i < t.len() && t[i] == SessionEvent::Release implies i == t.len() - 1 by {
            if i < t.len() - 1 {
                // A release inside the prefix would leave it released,
                // and no event is allowed after that.
                assert(t.drop_last()[i] == t[i]);
                assert(event_count(t.drop_last(), SessionEvent::Release) >= 1) by {
                    lemma_witness_gives_count_positive(t.drop_last(), SessionEvent::Release, i);
                }
                assert(prev is Released);
                assert(!event_allowed(prev, t.last()));
            }
        }
    }
}

/// A positive count yields a position where the event stands.
proof fn lemma_count_positive_gives_witness(t: Seq<SessionEvent>, e: SessionEvent)
    requires
        event_count(t, e) > 0,
    ensures
        exists|j: int| 0 <= j < t.len() && t[j] == e,
    decreases t.len(),
{
    if t.last() == e {
        assert(t[t.len() - 1] == e);
    } else {
        lemma_count_positive_gives_witness(t.drop_last(), e);
        let j = choose|j: int| 0 <= j < t.drop_last().len() && t.drop_last()[j] == e;
        assert(t[j] == e);
    }
}

/// A position where the event stands yields a positive count.
proof fn lemma_witness_gives_count_positive(t: Seq<SessionEvent>, e: SessionEvent, i: int)
    requires
        0 <= i < t.len(),
        t[i] == e,
    ensures
        event_count(t, e) > 0,
    decreases t.len(),
{
    if i == t.len() - 1 {
    } else {
        assert(t.drop_last()[i] == e);
        lemma_witness_gives_count_positive(t.drop_last(), e, i);
    }
}

} // verus!
