//! The guarantees the supervisor's state machine gives across calls, stated
//! over the transition predicates of `supervisor` and proved once and for
//! all. The embedding program serializes table mutations behind one
//! mutual-exclusion boundary, so consecutive transitions are exactly what
//! concurrent callers observe.
use vstd::prelude::*;
use crate::errors::{SpawnError, TerminateError};
use crate::supervisor::{
    begin_spawn_post, begin_terminate_post, finish_terminate_post, has_handle, none_ready,
    SidecarHandle, SidecarState, SidecarSupervisor, TerminateAction, TerminateOutcome,
};

verus! {

/// Law: allocated ports are pairwise distinct among concurrently live
/// handles — in particular among `Ready` ones — in every well-formed
/// supervisor state, whatever sequence of spawns and terminations led to it.
pub proof fn lemma_live_ports_distinct(s: SidecarSupervisor, i: int, j: int)
    requires
        s.wf(),
        0 <= i < s.handles().len(),
        0 <= j < s.handles().len(),
        i != j,
    ensures
        s.handles()[i].port != s.handles()[j].port,
{
}

/// Law: of two spawn attempts for the same window in direct succession,
/// if the first succeeded the second is rejected with `AlreadyRunning` and
/// changes nothing — so of concurrent spawns, serialized by the table's
/// mutual-exclusion boundary, exactly one wins.
pub proof fn lemma_spawn_exclusive(
    pre: Seq<SidecarHandle>,
    mid: Seq<SidecarHandle>,
    post: Seq<SidecarHandle>,
    w: Seq<char>,
    p: u16,
    r2: Result<u16, SpawnError>,
)
    requires
        begin_spawn_post(pre, mid, w, Ok(p)),
        begin_spawn_post(mid, post, w, r2),
    ensures
        r2 == Result::<u16, SpawnError>::Err(SpawnError::AlreadyRunning),
        post == mid,
{
    assert(mid[mid.len() - 1].window_id@ == w);
    assert(has_handle(mid, w));
    match r2 {
        Ok(_) => {
            assert(false);
        },
        Err(SpawnError::AlreadyRunning) => {
        },
        Err(_) => {
            assert(false);
        },
    }
}

/// Law: terminate is idempotent. Once a termination of `w` has completed,
/// a second begin/finish round for `w` asks for no work, reports success,
/// and leaves the table exactly as it was — no handle is removed twice, so
/// no port is freed twice.
pub proof fn lemma_terminate_idempotent(
    s0: Seq<SidecarHandle>,
    s1: Seq<SidecarHandle>,
    s2: Seq<SidecarHandle>,
    s3: Seq<SidecarHandle>,
    w: Seq<char>,
    out1: TerminateOutcome,
    r1: Result<(), TerminateError>,
    act2: TerminateAction,
    out2: TerminateOutcome,
    r2: Result<(), TerminateError>,
)
    requires
        finish_terminate_post(s0, s1, w, out1, r1),
        begin_terminate_post(s1, s2, w, act2),
        finish_terminate_post(s2, s3, w, out2, r2),
        out2 != TerminateOutcome::KillFailed,
    ensures
        act2 == TerminateAction::NoWorker,
        s2 == s1,
        s3 == s2,
        r2 == Result::<(), TerminateError>::Ok(()),
{
    match act2 {
        TerminateAction::NoWorker => {
        },
        TerminateAction::SignalAndWait { port } => {
            let i = choose|i: int|
                0 <= i < s1.len() && s1[i].window_id@ == w && s1[i].state
                    != SidecarState::Terminating && s1[i].port == port && s2.len() == s1.len() && (
                forall|j: int| 0 <= j < s1.len() && j != i ==> s2[j] == s1[j]) && s2[i].window_id@
                    == w && s2[i].port == port && s2[i].state == SidecarState::Terminating;
            assert(has_handle(s1, w));
            assert(false);
        },
    }
}

/// Law: a window is not routable while its spawn is still `Starting`: right
/// after a successful `begin_spawn` of `w`, no handle of `w` is `Ready`, so
/// `endpoint_of` answers `None` until readiness is reported.
pub proof fn lemma_not_ready_while_starting(
    pre: Seq<SidecarHandle>,
    post: Seq<SidecarHandle>,
    w: Seq<char>,
    p: u16,
)
    requires
        begin_spawn_post(pre, post, w, Ok(p)),
    ensures
        none_ready(post, w),
{
    assert forall|i: int|
        0 <= i < post.len() && post[i].window_id@ == w implies post[i].state
        != SidecarState::Ready by {
        if i < post.len() - 1 {
            assert(post[i] == post.drop_last()[i]);
            assert(post.drop_last() == pre);
            assert(pre[i].window_id@ == w);
            assert(has_handle(pre, w));
            assert(false);
        }
    }
}

/// Law: a window is not routable after its termination completes: no handle
/// of `w` remains, so `endpoint_of` answers `None`.
pub proof fn lemma_not_ready_after_terminate(
    pre: Seq<SidecarHandle>,
    post: Seq<SidecarHandle>,
    w: Seq<char>,
    out: TerminateOutcome,
    r: Result<(), TerminateError>,
)
    requires
        finish_terminate_post(pre, post, w, out, r),
    ensures
        none_ready(post, w),
{
    assert forall|i: int|
        0 <= i < post.len() && post[i].window_id@ == w implies post[i].state
        != SidecarState::Ready by {
        assert(has_handle(post, w));
        assert(false);
    }
}

} // verus!
