//! Dependency preflight bookkeeping. The inspection of a vault directory and
//! the installer run are the embedding program's I/O; what is decided here,
//! and proved: a satisfied vault is a fast no-op, a failed probe or install
//! maps to the exact error the caller must stop on, and two concurrent
//! preflights for the same vault path are serialized — the second must wait
//! until the first releases the path.
use vstd::prelude::*;
use crate::errors::{PreflightError, PreflightErrorKind};

verus! {

/// What the embedding program observed when probing a vault's runtime.
#[derive(Debug, Clone, Copy, PartialEq, Eq, Structural)]
pub enum ProbeResult {
    /// The required runtime is present and matches.
    Satisfied,
    /// The runtime is absent or mismatched; an install is needed.
    NeedsInstall,
    /// The vault directory could not be inspected or written.
    AccessDenied,
}

/// What the preflight decided must happen next for a vault path.
#[derive(Debug, Clone, Copy, PartialEq, Eq, Structural)]
pub enum PreflightStep {
    /// Nothing to do; the caller may proceed to spawn.
    AlreadyReady,
    /// The embedding program must run the installer, then report back.
    Install,
}

/// True when some path in `s` reads `p`.
pub open spec fn contains_path(s: Seq<String>, p: Seq<char>) -> bool {
    exists|i: int| 0 <= i < s.len() && s[i]@ == p
}

/// No two recorded paths read the same.
pub open spec fn paths_distinct(s: Seq<String>) -> bool {
    forall|i: int, j: int| 0 <= i < j < s.len() ==> s[i]@ != s[j]@
}

/// Decides on a probe: a present runtime is a no-op, an absent one asks
/// for an install, an unreadable vault fails with `PermissionDenied` — and
/// the caller must not spawn a worker on that failure.
pub fn evaluate_probe(probe: ProbeResult) -> (r: Result<PreflightStep, PreflightError>)
    ensures
        match r {
            Ok(PreflightStep::AlreadyReady) => probe == ProbeResult::Satisfied,
            Ok(PreflightStep::Install) => probe == ProbeResult::NeedsInstall,
            Err(e) => probe == ProbeResult::AccessDenied && e.kind
                == PreflightErrorKind::PermissionDenied,
        },
{
    match probe {
        ProbeResult::Satisfied => Ok(PreflightStep::AlreadyReady),
        ProbeResult::NeedsInstall => Ok(PreflightStep::Install),
        ProbeResult::AccessDenied => Err(
            PreflightError { kind: PreflightErrorKind::PermissionDenied },
        ),
    }
}

/// Decides on an installer run: success satisfies the preflight, failure
/// maps to `InstallFailed` and the caller must not spawn a worker.
pub fn evaluate_install(install_ok: bool) -> (r: Result<(), PreflightError>)
    ensures
        match r {
            Ok(_) => install_ok,
            Err(e) => !install_ok && e.kind == PreflightErrorKind::InstallFailed,
        },
{
    if install_ok {
        Ok(())
    } else {
        Err(PreflightError { kind: PreflightErrorKind::InstallFailed })
    }
}

/// Per-vault-path bookkeeping: which paths have a preflight in flight
/// (serialization) and which are known satisfied (idempotence).
pub struct PreflightTracker {
    in_flight: Vec<String>,
    satisfied: Vec<String>,
}

impl PreflightTracker {
    /// The paths whose preflight is currently running.
    pub closed spec fn in_flight(self) -> Seq<String> {
        self.in_flight@
    }

    /// The paths already known satisfied.
    pub closed spec fn satisfied(self) -> Seq<String> {
        self.satisfied@
    }

    /// Well-formedness: no path is recorded twice on either list.
    pub open spec fn wf(self) -> bool {
        &&& paths_distinct(self.in_flight())
        &&& paths_distinct(self.satisfied())
    }

    /// A fresh tracker.
    pub fn new() -> (r: PreflightTracker)
        ensures
            r.wf(),
            r.in_flight().len() == 0,
            r.satisfied().len() == 0,
    {
        PreflightTracker { in_flight: Vec::new(), satisfied: Vec::new() }
    }

    /// Claims `path` for one preflight run. Refused while another run holds
    /// the same path: the caller must wait and retry, which serializes
    /// concurrent preflights per vault path.
    pub fn try_acquire(&mut self, path: &String) -> (r: bool)
        requires
            old(self).wf(),
        ensures
            final(self).wf(),
            final(self).satisfied() == old(self).satisfied(),
            r ==> !contains_path(old(self).in_flight(), path@) && contains_path(
                final(self).in_flight(),
                path@,
            ) && final(self).in_flight().drop_last() == old(self).in_flight(),
            !r ==> contains_path(old(self).in_flight(), path@) && final(self).in_flight() == old(
                self,
            ).in_flight(),
    {
        if self.holds(path) {
            return false;
        }
        self.in_flight.push(path.clone());
        proof {
            assert(self.in_flight@.drop_last() =~= old(self).in_flight@);
            assert(self.in_flight@[self.in_flight@.len() - 1]@ == path@);
        }
        true
    }

    /// True while a preflight run holds `path`.
    pub fn holds(&self, path: &String) -> (r: bool)
        ensures
            r == contains_path(self.in_flight(), path@),
    {
        let mut i: usize = 0;
        while i < self.in_flight.len()
            invariant
                0 <= i <= self.in_flight.len(),
                forall|k: int| 0 <= k < i ==> self.in_flight@[k]@ != path@,
            decreases self.in_flight.len() - i,
        {
            if self.in_flight[i] == *path {
                return true;
            }
            i = i + 1;
        }
        false
    }

    /// Releases `path` after its preflight run ended, whatever the outcome.
    /// A no-op when the path is not held.
    pub fn release(&mut self, path: &String)
        requires
            old(self).wf(),
        ensures
            final(self).wf(),
            final(self).satisfied() == old(self).satisfied(),
            !contains_path(final(self).in_flight(), path@),
            forall|q: Seq<char>|
                q != path@ ==> (contains_path(final(self).in_flight(), q) <==> contains_path(
                    old(self).in_flight(),
                    q,
                )),
    {
        let ghost pre = old(self).in_flight@;
        let mut i: usize = 0;
        while i < self.in_flight.len()
            invariant
                0 <= i <= self.in_flight.len(),
                self.in_flight@ == pre,
                pre == old(self).in_flight@,
                self.satisfied@ == old(self).satisfied@,
                old(self).wf(),
                forall|k: int| 0 <= k < i ==> pre[k]@ != path@,
            decreases self.in_flight.len() - i,
        {
            if self.in_flight[i] == *path {
                let _removed = self.in_flight.remove(i);
                proof {
                    assert(self.in_flight@ == pre.remove(i as int));
                    pre.remove_ensures(i as int);
                    assert forall|j: int| 0 <= j < self.in_flight@.len() implies self.in_flight@[j]@
                        != path@ by {
                        if j < i {
                            assert(self.in_flight@[j] == pre[j]);
                        } else {
                            assert(self.in_flight@[j] == pre[j + 1]);
                        }
                    }
                    assert forall|a: int, b: int|
                        0 <= a < b < self.in_flight@.len() implies self.in_flight@[a]@
                        != self.in_flight@[b]@ by {
                        let pa: int = if a < i { a } else { a + 1 };
                        let pb: int = if b < i { b } else { b + 1 };
                        assert(self.in_flight@[a] == pre[pa]);
                        assert(self.in_flight@[b] == pre[pb]);
                    }
                    assert forall|q: Seq<char>| q != path@ implies (contains_path(
                        self.in_flight@,
                        q,
                    ) <==> contains_path(pre, q)) by {
                        if contains_path(self.in_flight@, q) {
                            let j = choose|j: int|
                                0 <= j < self.in_flight@.len() && self.in_flight@[j]@ == q;
                            if j < i {
                                assert(pre[j]@ == q);
                            } else {
                                assert(pre[j + 1]@ == q);
                            }
                        }
                        if contains_path(pre, q) {
                            let j = choose|j: int| 0 <= j < pre.len() && pre[j]@ == q;
                            if j < i {
                                assert(self.in_flight@[j]@ == q);
                            } else {
                                assert(j != i);
                                assert(self.in_flight@[j - 1]@ == q);
                            }
                        }
                    }
                }
                return ;
            }
            i = i + 1;
        }
    }

    /// True when `path` is already known satisfied: `ensure_ready` on such
    /// a vault is a fast no-op.
    pub fn is_satisfied(&self, path: &String) -> (r: bool)
        ensures
            r == contains_path(self.satisfied(), path@),
    {
        let mut i: usize = 0;
        while i < self.satisfied.len()
            invariant
                0 <= i <= self.satisfied.len(),
                forall|k: int| 0 <= k < i ==> self.satisfied@[k]@ != path@,
            decreases self.satisfied.len() - i,
        {
            if self.satisfied[i] == *path {
                return true;
            }
            i = i + 1;
        }
        false
    }

    /// Records `path` as satisfied after a successful probe or install.
    pub fn mark_satisfied(&mut self, path: &String)
        requires
            old(self).wf(),
        ensures
            final(self).wf(),
            final(self).in_flight() == old(self).in_flight(),
            contains_path(final(self).satisfied(), path@),
            forall|q: Seq<char>|
                q != path@ ==> (contains_path(final(self).satisfied(), q) <==> contains_path(
                    old(self).satisfied(),
                    q,
                )),
    {
        if self.is_satisfied(path) {
            return ;
        }
        let ghost pre = old(self).satisfied@;
        self.satisfied.push(path.clone());
        proof {
            assert(self.satisfied@.drop_last() =~= pre);
            assert(self.satisfied@[self.satisfied@.len() - 1]@ == path@);
            assert forall|q: Seq<char>| q != path@ implies (contains_path(self.satisfied@, q)
                <==> contains_path(pre, q)) by {
                if contains_path(self.satisfied@, q) {
                    let j = choose|j: int| 0 <= j < self.satisfied@.len() && self.satisfied@[j]@ == q;
                    assert(j < self.satisfied@.len() - 1);
                    assert(pre[j]@ == q);
                }
                if contains_path(pre, q) {
                    let j = choose|j: int| 0 <= j < pre.len() && pre[j]@ == q;
                    assert(self.satisfied@[j]@ == q);
                }
            }
        }
    }
}

} // verus!
