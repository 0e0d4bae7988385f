//! Sidecar supervisor: owns the lifecycle records of the per-window worker
//! processes. Port allocation and table mutation are brief `&mut self` steps;
//! the slow work (process launch, readiness wait, shutdown wait) happens in
//! the embedding program between `begin_*` and `complete_*`/`finish_*`, so
//! one window's spawn never blocks another window's registry operations.
//!
//! A handle lives in the table while it is `Starting`, `Ready` or
//! `Terminating`; the `Dead` state of the lifecycle is absence from the
//! table, entered exactly once, which is when the port is released.
use vstd::prelude::*;
use crate::errors::{SpawnError, TerminateError};

verus! {

/// Lifecycle state of a worker recorded in the table.
#[derive(Debug, Clone, Copy, PartialEq, Eq, Structural)]
pub enum SidecarState {
    /// Inserted before the process is launched; not yet routable.
    Starting,
    /// The worker signalled readiness; `endpoint_of` routes to it.
    Ready,
    /// A graceful shutdown is in flight; not routable, port still held.
    Terminating,
}

/// The supervisor's record of one worker process. The OS process handle is
/// held by the embedding program under the same window identifier.
pub struct SidecarHandle {
    pub window_id: String,
    pub port: u16,
    pub state: SidecarState,
}

/// First port of the supervisor's managed range.
pub const PORT_BASE: u16 = 27100;

/// Number of ports in the managed range.
pub const PORT_COUNT: u16 = 64;

/// True when some handle in `h` belongs to window `w`.
pub open spec fn has_handle(h: Seq<SidecarHandle>, w: Seq<char>) -> bool {
    exists|i: int| 0 <= i < h.len() && h[i].window_id@ == w
}

/// True when some handle in `h` belongs to window `w` and is in state `st`.
pub open spec fn handle_in_state(h: Seq<SidecarHandle>, w: Seq<char>, st: SidecarState) -> bool {
    exists|i: int| 0 <= i < h.len() && h[i].window_id@ == w && h[i].state == st
}

/// True when window `w` has a `Ready` handle listening on port `p`.
pub open spec fn ready_on(h: Seq<SidecarHandle>, w: Seq<char>, p: u16) -> bool {
    exists|i: int|
        0 <= i < h.len() && h[i].window_id@ == w && h[i].state == SidecarState::Ready && h[i].port
            == p
}

/// True when no handle of window `w` is in `Ready` state.
pub open spec fn none_ready(h: Seq<SidecarHandle>, w: Seq<char>) -> bool {
    forall|i: int|
        0 <= i < h.len() && h[i].window_id@ == w ==> h[i].state != SidecarState::Ready
}

/// True when some live handle holds port `p`.
pub open spec fn port_used(h: Seq<SidecarHandle>, p: u16) -> bool {
    exists|i: int| 0 <= i < h.len() && h[i].port == p
}

/// No two handles share a window identifier.
pub open spec fn handle_ids_distinct(h: Seq<SidecarHandle>) -> bool {
    forall|i: int, j: int| 0 <= i < j < h.len() ==> h[i].window_id@ != h[j].window_id@
}

/// No two live handles share a port.
pub open spec fn handle_ports_distinct(h: Seq<SidecarHandle>) -> bool {
    forall|i: int, j: int| 0 <= i < j < h.len() ==> h[i].port != h[j].port
}

/// Every held port lies in the managed range.
pub open spec fn ports_in_range(h: Seq<SidecarHandle>) -> bool {
    forall|i: int| 0 <= i < h.len() ==> PORT_BASE <= #[trigger] h[i].port < PORT_BASE + PORT_COUNT
}

/// What `begin_spawn` does to the table: on success a fresh `Starting`
/// handle with an unused in-range port is appended; a duplicate window is
/// rejected unchanged; a full port range is reported unchanged.
pub open spec fn begin_spawn_post(
    pre: Seq<SidecarHandle>,
    post: Seq<SidecarHandle>,
    w: Seq<char>,
    r: Result<u16, SpawnError>,
) -> bool {
    match r {
        Ok(p) => {
            &&& !has_handle(pre, w)
            &&& !port_used(pre, p)
            &&& PORT_BASE <= p < PORT_BASE + PORT_COUNT
            &&& post.len() == pre.len() + 1
            &&& post.drop_last() == pre
            &&& post.last().window_id@ == w
            &&& post.last().port == p
            &&& post.last().state == SidecarState::Starting
        },
        Err(SpawnError::AlreadyRunning) => has_handle(pre, w) && post == pre,
        Err(SpawnError::PortsExhausted) => {
            &&& !has_handle(pre, w)
            &&& forall|p: u16| PORT_BASE <= p < PORT_BASE + PORT_COUNT ==> port_used(pre, p)
            &&& post == pre
        },
        Err(_) => false,
    }
}

/// What `complete_spawn` does to the table: readiness moves the `Starting`
/// handle of `w` to `Ready` and returns its port; a failed launch removes
/// the handle (it becomes `Dead`, its port released) and reports why.
pub open spec fn complete_spawn_post(
    pre: Seq<SidecarHandle>,
    post: Seq<SidecarHandle>,
    w: Seq<char>,
    outcome: SpawnOutcome,
    r: Result<u16, SpawnError>,
) -> bool {
    match outcome {
        SpawnOutcome::Ready => exists|i: int|
            {
                &&& 0 <= i < pre.len()
                &&& pre[i].window_id@ == w
                &&& pre[i].state == SidecarState::Starting
                &&& post.len() == pre.len()
                &&& (forall|j: int| 0 <= j < pre.len() && j != i ==> post[j] == pre[j])
                &&& post[i].window_id@ == w
                &&& post[i].port == pre[i].port
                &&& post[i].state == SidecarState::Ready
                &&& r == Result::<u16, SpawnError>::Ok(pre[i].port)
            },
        SpawnOutcome::TimedOut => r == Result::<u16, SpawnError>::Err(SpawnError::Timeout)
            && removed_handle(pre, post, w),
        SpawnOutcome::Exited { code } => r == Result::<u16, SpawnError>::Err(
            SpawnError::ProcessExited { code },
        ) && removed_handle(pre, post, w),
    }
}

/// The handle of `w`, if any, left the table; everything else is unchanged.
pub open spec fn removed_handle(
    pre: Seq<SidecarHandle>,
    post: Seq<SidecarHandle>,
    w: Seq<char>,
) -> bool {
    &&& !has_handle(post, w)
    &&& (!has_handle(pre, w) ==> post == pre)
    &&& (has_handle(pre, w) ==> exists|i: int|
        0 <= i < pre.len() && pre[i].window_id@ == w && post == pre.remove(i))
    &&& (forall|v: Seq<char>, p: u16|
        v != w ==> (ready_on(post, v, p) <==> ready_on(pre, v, p)))
}

/// What `begin_terminate` does to the table: a live `Starting`/`Ready`
/// handle moves to `Terminating` and the caller is told to signal the
/// process; an absent or already-`Terminating` handle asks for no work.
pub open spec fn begin_terminate_post(
    pre: Seq<SidecarHandle>,
    post: Seq<SidecarHandle>,
    w: Seq<char>,
    action: TerminateAction,
) -> bool {
    match action {
        TerminateAction::NoWorker => post == pre && (forall|i: int|
            0 <= i < pre.len() && pre[i].window_id@ == w ==> pre[i].state
                == SidecarState::Terminating),
        TerminateAction::SignalAndWait { port } => exists|i: int|
            {
                &&& 0 <= i < pre.len()
                &&& pre[i].window_id@ == w
                &&& pre[i].state != SidecarState::Terminating
                &&& pre[i].port == port
                &&& post.len() == pre.len()
                &&& (forall|j: int| 0 <= j < pre.len() && j != i ==> post[j] == pre[j])
                &&& post[i].window_id@ == w
                &&& post[i].port == port
                &&& post[i].state == SidecarState::Terminating
            },
    }
}

/// What `finish_terminate` does to the table: the handle of `w`, whatever
/// its state, becomes `Dead` (leaves the table, releasing its port), and a
/// kill failure is reported without blocking that cleanup. Idempotent: with
/// no handle present it succeeds and changes nothing.
pub open spec fn finish_terminate_post(
    pre: Seq<SidecarHandle>,
    post: Seq<SidecarHandle>,
    w: Seq<char>,
    outcome: TerminateOutcome,
    r: Result<(), TerminateError>,
) -> bool {
    &&& removed_handle(pre, post, w)
    &&& match outcome {
        TerminateOutcome::KillFailed => r == Result::<(), TerminateError>::Err(
            TerminateError::KillFailed,
        ),
        _ => r == Result::<(), TerminateError>::Ok(()),
    }
}

/// How a spawn attempt ended, reported by the embedding program.
#[derive(Debug, Clone, Copy, PartialEq, Eq, Structural)]
pub enum SpawnOutcome {
    /// The worker signalled readiness within the bounded wait.
    Ready,
    /// The bounded readiness wait elapsed; the process was killed.
    TimedOut,
    /// The process exited before signalling readiness.
    Exited { code: i32 },
}

/// What the embedding program must do after `begin_terminate`.
#[derive(Debug, Clone, Copy, PartialEq, Eq, Structural)]
pub enum TerminateAction {
    /// No live worker: nothing to signal, termination already succeeded.
    NoWorker,
    /// Signal the worker on this port, wait the grace period, force-kill if
    /// still alive, then report the outcome to `finish_terminate`.
    SignalAndWait { port: u16 },
}

/// How a termination ended, reported by the embedding program.
#[derive(Debug, Clone, Copy, PartialEq, Eq, Structural)]
pub enum TerminateOutcome {
    /// The worker exited within the grace period.
    ExitedGracefully,
    /// The worker had to be force-killed.
    ForceKilled,
    /// Even the force kill failed; reported, but cleanup proceeds.
    KillFailed,
}

/// The table of live worker handles.
pub struct SidecarSupervisor {
    handles: Vec<SidecarHandle>,
}

impl SidecarSupervisor {
    /// The live handles, insertion order kept.
    pub closed spec fn handles(self) -> Seq<SidecarHandle> {
        self.handles@
    }

    /// Well-formedness: one handle per window, pairwise distinct ports, all
    /// ports inside the managed range.
    pub open spec fn wf(self) -> bool {
        &&& handle_ids_distinct(self.handles())
        &&& handle_ports_distinct(self.handles())
        &&& ports_in_range(self.handles())
    }

    /// An empty supervisor.
    pub fn new() -> (r: SidecarSupervisor)
        ensures
            r.wf(),
            r.handles().len() == 0,
    {
        SidecarSupervisor { handles: Vec::new() }
    }

    /// True when some live handle holds port `p`.
    fn port_is_used(&self, p: u16) -> (r: bool)
        ensures
            r == port_used(self.handles(), p),
    {
        let mut i: usize = 0;
        while i < self.handles.len()
            invariant
                0 <= i <= self.handles.len(),
                forall|k: int| 0 <= k < i ==> self.handles@[k].port != p,
            decreases self.handles.len() - i,
        {
            if self.handles[i].port == p {
                return true;
            }
            i = i + 1;
        }
        false
    }

    /// Step one of a spawn: reject a duplicate window, else allocate an
    /// unused port from the managed range and insert a `Starting` handle,
    /// before any process is launched, so a concurrent duplicate spawn is
    /// rejected rather than double-spawned.
    pub fn begin_spawn(&mut self, window_id: String) -> (r: Result<u16, SpawnError>)
        requires
            old(self).wf(),
        ensures
            final(self).wf(),
            begin_spawn_post(old(self).handles(), final(self).handles(), window_id@, r),
    {
        let mut i: usize = 0;
        while i < self.handles.len()
            invariant
                0 <= i <= self.handles.len(),
                self.handles@ == old(self).handles@,
                old(self).wf(),
                forall|k: int| 0 <= k < i ==> self.handles@[k].window_id@ != window_id@,
            decreases self.handles.len() - i,
        {
            if self.handles[i].window_id == window_id {
                return Err(SpawnError::AlreadyRunning);
            }
            i = i + 1;
        }
        let mut o: u16 = 0;
        while o < PORT_COUNT
            invariant
                0 <= o <= PORT_COUNT,
                self.handles@ == old(self).handles@,
                old(self).wf(),
                forall|k: int| 0 <= k < self.handles@.len() ==> self.handles@[k].window_id@ != window_id@,
                forall|q: u16|
                    PORT_BASE <= q < PORT_BASE + o ==> port_used(self.handles@, q),
            decreases PORT_COUNT - o,
        {
            let p: u16 = PORT_BASE + o;
            if !self.port_is_used(p) {
                let ghost pre = self.handles@;
                self.handles.push(
                    SidecarHandle { window_id, port: p, state: SidecarState::Starting },
                );
                proof {
                    assert(self.handles@.drop_last() =~= pre);
                }
                return Ok(p);
            }
            o = o + 1;
        }
        Err(SpawnError::PortsExhausted)
    }

    /// Step two of a spawn, after the embedding program launched the worker
    /// and waited (with a bound) for its readiness signal.
    pub fn complete_spawn(&mut self, window_id: &String, outcome: SpawnOutcome) -> (r: Result<
        u16,
        SpawnError,
    >)
        requires
            old(self).wf(),
            handle_in_state(old(self).handles(), window_id@, SidecarState::Starting),
        ensures
            final(self).wf(),
            complete_spawn_post(old(self).handles(), final(self).handles(), window_id@, outcome, r),
    {
        match outcome {
            SpawnOutcome::Ready => {
                let j = self.find_handle(window_id);
                proof {
                    let i = choose|i: int|
                        0 <= i < old(self).handles@.len() && old(self).handles@[i].window_id@
                            == window_id@ && old(self).handles@[i].state == SidecarState::Starting;
                    assert(i == j as int);
                }
                let port = self.handles[j].port;
                let id = self.handles[j].window_id.clone();
                let _old_handle = self.handles.remove(j);
                self.handles.insert(
                    j,
                    SidecarHandle { window_id: id, port, state: SidecarState::Ready },
                );
                proof {
                    assert(self.handles@ =~= old(self).handles@.update(
                        j as int,
                        self.handles@[j as int],
                    ));
                }
                Ok(port)
            },
            SpawnOutcome::TimedOut => {
                self.remove_handle(window_id);
                Err(SpawnError::Timeout)
            },
            SpawnOutcome::Exited { code } => {
                self.remove_handle(window_id);
                Err(SpawnError::ProcessExited { code })
            },
        }
    }

    /// The port of the `Ready` handle of `window_id`, and `None` for a
    /// window that is absent, still `Starting`, or already `Terminating`:
    /// the caller treats all three as "cannot route yet".
    pub fn endpoint_of(&self, window_id: &String) -> (r: Option<u16>)
        ensures
            match r {
                Some(p) => ready_on(self.handles(), window_id@, p),
                None => none_ready(self.handles(), window_id@),
            },
    {
        let mut i: usize = 0;
        while i < self.handles.len()
            invariant
                0 <= i <= self.handles.len(),
                forall|k: int|
                    0 <= k < i ==> !(self.handles@[k].window_id@ == window_id@
                        && self.handles@[k].state == SidecarState::Ready),
            decreases self.handles.len() - i,
        {
            let is_ready = match self.handles[i].state {
                SidecarState::Ready => true,
                _ => false,
            };
            if is_ready && self.handles[i].window_id == *window_id {
                return Some(self.handles[i].port);
            }
            i = i + 1;
        }
        None
    }

    /// Step one of a termination: move a live handle to `Terminating` and
    /// tell the caller to signal the process; report `NoWorker` for an
    /// absent or already-`Terminating` handle, so a second terminate never
    /// signals (or frees) anything twice.
    pub fn begin_terminate(&mut self, window_id: &String) -> (action: TerminateAction)
        requires
            old(self).wf(),
        ensures
            final(self).wf(),
            begin_terminate_post(old(self).handles(), final(self).handles(), window_id@, action),
    {
        let mut i: usize = 0;
        while i < self.handles.len()
            invariant
                0 <= i <= self.handles.len(),
                self.handles@ == old(self).handles@,
                old(self).wf(),
                forall|k: int|
                    0 <= k < i ==> !(self.handles@[k].window_id@ == window_id@
                        && self.handles@[k].state != SidecarState::Terminating),
            decreases self.handles.len() - i,
        {
            let is_terminating = match self.handles[i].state {
                SidecarState::Terminating => true,
                _ => false,
            };
            if !is_terminating && self.handles[i].window_id == *window_id {
                let port = self.handles[i].port;
                let id = self.handles[i].window_id.clone();
                let _old_handle = self.handles.remove(i);
                self.handles.insert(
                    i,
                    SidecarHandle { window_id: id, port, state: SidecarState::Terminating },
                );
                proof {
                    assert(self.handles@ =~= old(self).handles@.update(
                        i as int,
                        self.handles@[i as int],
                    ));
                }
                return TerminateAction::SignalAndWait { port };
            }
            i = i + 1;
        }
        TerminateAction::NoWorker
    }

    /// Step two of a termination: the handle becomes `Dead` (leaves the
    /// table, releasing its port) whatever the reported outcome; a kill
    /// failure is reported but never blocks the cleanup.
    pub fn finish_terminate(&mut self, window_id: &String, outcome: TerminateOutcome) -> (r: Result<
        (),
        TerminateError,
    >)
        requires
            old(self).wf(),
        ensures
            final(self).wf(),
            finish_terminate_post(
                old(self).handles(),
                final(self).handles(),
                window_id@,
                outcome,
                r,
            ),
    {
        self.remove_handle(window_id);
        match outcome {
            TerminateOutcome::KillFailed => Err(TerminateError::KillFailed),
            _ => Ok(()),
        }
    }

    /// Background reaper entry point: the embedding program observed the
    /// worker of `window_id` exit on its own (crash or clean exit). The
    /// handle becomes `Dead` and its port is released for later spawns.
    pub fn on_process_exit(&mut self, window_id: &String)
        requires
            old(self).wf(),
        ensures
            final(self).wf(),
            removed_handle(old(self).handles(), final(self).handles(), window_id@),
    {
        self.remove_handle(window_id);
    }

    /// True when the handle of `window_id` is present and still `Starting`:
    /// the state in which `complete_spawn` may be reported to.
    pub fn is_starting(&self, window_id: &String) -> (r: bool)
        ensures
            r == handle_in_state(self.handles(), window_id@, SidecarState::Starting),
    {
        let mut i: usize = 0;
        while i < self.handles.len()
            invariant
                0 <= i <= self.handles.len(),
                forall|k: int|
                    0 <= k < i ==> !(self.handles@[k].window_id@ == window_id@
                        && self.handles@[k].state == SidecarState::Starting),
            decreases self.handles.len() - i,
        {
            let starting = match self.handles[i].state {
                SidecarState::Starting => true,
                _ => false,
            };
            if starting && self.handles[i].window_id == *window_id {
                return true;
            }
            i = i + 1;
        }
        false
    }

    /// The number of live handles.
    pub fn handle_count(&self) -> (r: usize)
        ensures
            r == self.handles().len(),
    {
        self.handles.len()
    }

    /// Index of the (unique) handle of `window_id`.
    fn find_handle(&self, window_id: &String) -> (j: usize)
        requires
            self.wf(),
            has_handle(self.handles(), window_id@),
        ensures
            j < self.handles().len(),
            self.handles()[j as int].window_id@ == window_id@,
            forall|k: int|
                0 <= k < self.handles().len() && self.handles()[k].window_id@ == window_id@ ==> k
                    == j as int,
    {
        let mut i: usize = 0;
        while i < self.handles.len()
            invariant
                0 <= i <= self.handles.len(),
                self.wf(),
                has_handle(self.handles@, window_id@),
                forall|k: int| 0 <= k < i ==> self.handles@[k].window_id@ != window_id@,
            decreases self.handles.len() - i,
        {
            if self.handles[i].window_id == *window_id {
                return i;
            }
            i = i + 1;
        }
        proof {
            assert(false);
        }
        0
    }

    /// Removes the handle of `window_id`, if any; everything else is kept.
    fn remove_handle(&mut self, window_id: &String)
        requires
            old(self).wf(),
        ensures
            final(self).wf(),
            removed_handle(old(self).handles(), final(self).handles(), window_id@),
    {
        let ghost pre = old(self).handles@;
        let mut i: usize = 0;
        while i < self.handles.len()
            invariant
                0 <= i <= self.handles.len(),
                self.handles@ == pre,
                pre == old(self).handles@,
                old(self).wf(),
                forall|k: int| 0 <= k < i ==> pre[k].window_id@ != window_id@,
            decreases self.handles.len() - i,
        {
            if self.handles[i].window_id == *window_id {
                let _removed = self.handles.remove(i);
                proof {
                    assert(self.handles@ == pre.remove(i as int));
                    pre.remove_ensures(i as int);
                    assert forall|j: int|
                        0 <= j < self.handles@.len() implies self.handles@[j].window_id@
                        != window_id@ by {
                        if j < i {
                            assert(self.handles@[j] == pre[j]);
                        } else {
                            assert(self.handles@[j] == pre[j + 1]);
                        }
                    }
                    assert forall|a: int, b: int|
                        0 <= a < b < self.handles@.len() implies self.handles@[a].window_id@
                        != self.handles@[b].window_id@ && self.handles@[a].port
                        != self.handles@[b].port by {
                        let pa: int = if a < i { a } else { a + 1 };
                        let pb: int = if b < i { b } else { b + 1 };
                        assert(self.handles@[a] == pre[pa]);
                        assert(self.handles@[b] == pre[pb]);
                    }
                    assert forall|j: int|
                        0 <= j < self.handles@.len() implies PORT_BASE <= #[trigger] self.handles@[j].port
                        < PORT_BASE + PORT_COUNT by {
                        if j < i {
                            assert(self.handles@[j] == pre[j]);
                        } else {
                            assert(self.handles@[j] == pre[j + 1]);
                        }
                    }
                    assert forall|v: Seq<char>, p: u16| v != window_id@ implies (ready_on(
                        self.handles@,
                        v,
                        p,
                    ) <==> ready_on(pre, v, p)) by {
                        if ready_on(self.handles@, v, p) {
                            let j = choose|j: int|
                                0 <= j < self.handles@.len() && self.handles@[j].window_id@ == v
                                    && self.handles@[j].state == SidecarState::Ready
                                    && self.handles@[j].port == p;
                            if j < i {
                                assert(pre[j].window_id@ == v && pre[j].state
                                    == SidecarState::Ready && pre[j].port == p);
                            } else {
                                assert(pre[j + 1].window_id@ == v && pre[j + 1].state
                                    == SidecarState::Ready && pre[j + 1].port == p);
                            }
                        }
                        if ready_on(pre, v, p) {
                            let j = choose|j: int|
                                0 <= j < pre.len() && pre[j].window_id@ == v && pre[j].state
                                    == SidecarState::Ready && pre[j].port == p;
                            if j < i {
                                assert(self.handles@[j].window_id@ == v && self.handles@[j].state
                                    == SidecarState::Ready && self.handles@[j].port == p);
                            } else {
                                assert(j != i);
                                assert(self.handles@[j - 1].window_id@ == v && self.handles@[j
                                    - 1].state == SidecarState::Ready && self.handles@[j - 1].port
                                    == p);
                            }
                        }
                    }
                }
                return ;
            }
            i = i + 1;
        }
    }
}

} // verus!
