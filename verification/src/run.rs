//! What holds of every run of a session, from a fresh connection on.
//!
//! A run is the sequence of states that one connection goes through. Whatever
//! the driver reports and whatever the peer sends, the runs keep the order of
//! the protocol: one key exchange, then the confirmation, then heartbeats, and
//! nothing after the end.

use crate::cipher::KeyPair;
use crate::session::{is_terminal, phase_of, Action, Outcome, Phase, Session, Stage};
use vstd::prelude::*;

verus! {

/// Whether `next` may follow `session` in one step, for some report of the
/// driver.
pub open spec fn follows(local: KeyPair, session: Session, next: Session) -> bool {
    exists|outcome: Outcome, action: Action| session.step_allows(local, outcome, next, action)
}

/// Whether `trace` is a run: it begins with a fresh session, and each state
/// follows the one before it.
pub open spec fn is_run(local: KeyPair, trace: Seq<Session>) -> bool {
    &&& trace.len() > 0
    &&& trace[0].stage == Stage::Start
    &&& trace[0].peer is None
    &&& trace[0].failure is None
    &&& forall|i: int|
        0 <= i < trace.len() - 1 ==> follows(local, #[trigger] trace[i], trace[i + 1])
}

/// Before the key exchange is over, a run holds no peer's key.
pub proof fn lemma_run_connecting_has_no_peer(local: KeyPair, trace: Seq<Session>, n: int)
    requires
        is_run(local, trace),
        0 <= n < trace.len(),
        phase_of(trace[n].stage) == Phase::Connecting,
    ensures
        trace[n].peer_view() is None,
    decreases n,
{
    if n > 0 {
        assert(follows(local, trace[n - 1], trace[n - 1 + 1]));
        let pre = trace[n - 1];
        let post = trace[n];
        let (outcome, action) = choose|outcome: Outcome, action: Action|
            pre.step_allows(local, outcome, post, action);
        assert(pre.step_allows(local, outcome, post, action));
        assert(phase_of(trace[n - 1].stage) == Phase::Connecting);
        lemma_run_connecting_has_no_peer(local, trace, n - 1);
    }
}

/// Synchronization comes before any heartbeat: a run that is in a heartbeat
/// stage has been in the synchronized stage before.
pub proof fn lemma_run_synchronizes_before_heartbeat(local: KeyPair, trace: Seq<Session>, n: int)
    requires
        is_run(local, trace),
        0 <= n < trace.len(),
        phase_of(trace[n].stage) == Phase::Heartbeating,
    ensures
        exists|i: int| 0 <= i < n && (#[trigger] trace[i]).stage == Stage::Synchronized,
    decreases n,
{
    assert(n > 0);
    assert(follows(local, trace[n - 1], trace[n - 1 + 1]));
    let pre = trace[n - 1];
    let post = trace[n];
    let (outcome, action) = choose|outcome: Outcome, action: Action|
        pre.step_allows(local, outcome, post, action);
    assert(pre.step_allows(local, outcome, post, action));
    if trace[n - 1].stage == Stage::Synchronized {
        assert(0 <= n - 1 < n && trace[n - 1].stage == Stage::Synchronized);
    } else {
        assert(phase_of(trace[n - 1].stage) == Phase::Heartbeating);
        lemma_run_synchronizes_before_heartbeat(local, trace, n - 1);
        let i = choose|i: int| 0 <= i < n - 1 && (#[trigger] trace[i]).stage == Stage::Synchronized;
        assert(0 <= i < n && trace[i].stage == Stage::Synchronized);
    }
}

/// A run that is synchronized has read the peer's confirmation in the state
/// before, and the keys were exchanged before that: it holds the peer's key.
pub proof fn lemma_run_synchronized_has_peer(local: KeyPair, trace: Seq<Session>, n: int)
    requires
        is_run(local, trace),
        0 <= n < trace.len(),
        phase_of(trace[n].stage) == Phase::KeyExchanged || phase_of(trace[n].stage)
            == Phase::Synchronized || phase_of(trace[n].stage) == Phase::Heartbeating,
    ensures
        trace[n].peer_view() is Some,
    decreases n,
{
    assert(n > 0);
    assert(follows(local, trace[n - 1], trace[n - 1 + 1]));
    let pre = trace[n - 1];
    let post = trace[n];
    let (outcome, action) = choose|outcome: Outcome, action: Action|
        pre.step_allows(local, outcome, post, action);
    assert(pre.step_allows(local, outcome, post, action));
    if trace[n - 1].stage != Stage::AwaitingKey {
        lemma_run_synchronized_has_peer(local, trace, n - 1);
    }
}

/// The keys are exchanged once: from the state in which a run holds a peer's
/// key, every later state holds the same key.
pub proof fn lemma_run_keeps_peer_key(local: KeyPair, trace: Seq<Session>, i: int, j: int)
    requires
        is_run(local, trace),
        0 <= i <= j < trace.len(),
        trace[i].peer_view() is Some,
    ensures
        trace[j].peer_view() == trace[i].peer_view(),
    decreases j - i,
{
    if i < j {
        lemma_run_keeps_peer_key(local, trace, i, j - 1);
        assert(follows(local, trace[j - 1], trace[j - 1 + 1]));
        let pre = trace[j - 1];
        let post = trace[j];
        let (outcome, action) = choose|outcome: Outcome, action: Action|
            pre.step_allows(local, outcome, post, action);
        assert(pre.step_allows(local, outcome, post, action));
        if trace[j - 1].stage == Stage::AwaitingKey {
            lemma_run_connecting_has_no_peer(local, trace, j - 1);
        }
    }
}

/// Nothing follows the end: once a run is closed or has failed, every later
/// state is in that stage, with the same error.
pub proof fn lemma_run_stays_ended(local: KeyPair, trace: Seq<Session>, i: int, j: int)
    requires
        is_run(local, trace),
        0 <= i <= j < trace.len(),
        is_terminal(trace[i].stage),
    ensures
        trace[j].stage == trace[i].stage,
        trace[j].failure == trace[i].failure,
    decreases j - i,
{
    if i < j {
        lemma_run_stays_ended(local, trace, i, j - 1);
        assert(follows(local, trace[j - 1], trace[j - 1 + 1]));
        let pre = trace[j - 1];
        let post = trace[j];
        let (outcome, action) = choose|outcome: Outcome, action: Action|
            pre.step_allows(local, outcome, post, action);
        assert(pre.step_allows(local, outcome, post, action));
    }
}

/// A run fails at most once: a state holds an error exactly when the run has
/// failed.
pub proof fn lemma_run_error_means_failed(local: KeyPair, trace: Seq<Session>, n: int)
    requires
        is_run(local, trace),
        0 <= n < trace.len(),
    ensures
        trace[n].failure is Some <==> trace[n].stage == Stage::Failed,
    decreases n,
{
    if n > 0 {
        lemma_run_error_means_failed(local, trace, n - 1);
        assert(follows(local, trace[n - 1], trace[n - 1 + 1]));
        let pre = trace[n - 1];
        let post = trace[n];
        let (outcome, action) = choose|outcome: Outcome, action: Action|
            pre.step_allows(local, outcome, post, action);
        assert(pre.step_allows(local, outcome, post, action));
    }
}

} // verus!
