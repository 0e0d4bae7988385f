//! Vault session registry: the authoritative mapping from a window identifier
//! to the vault path it displays. All mutations go through `&mut self`; the
//! embedding program puts one mutual-exclusion boundary around the value.
use vstd::prelude::*;
use crate::errors::WindowError;
use crate::ids::{win_id, lemma_win_id_inj, make_window_id};

verus! {

/// One open vault window.
pub struct Session {
    pub window_id: String,
    pub vault_path: String,
}

/// True when some session in `s` carries window identifier `w`.
pub open spec fn has_session(s: Seq<Session>, w: Seq<char>) -> bool {
    exists|i: int| 0 <= i < s.len() && s[i].window_id@ == w
}

/// True when some session in `s` maps window identifier `w` to path `p`.
pub open spec fn session_maps(s: Seq<Session>, w: Seq<char>, p: Seq<char>) -> bool {
    exists|i: int| 0 <= i < s.len() && s[i].window_id@ == w && s[i].vault_path@ == p
}

/// No two sessions share a window identifier.
pub open spec fn session_ids_distinct(s: Seq<Session>) -> bool {
    forall|i: int, j: int|
        0 <= i < j < s.len() ==> s[i].window_id@ != s[j].window_id@
}

/// Every recorded identifier was minted from a counter below `next`.
pub open spec fn session_ids_numbered(s: Seq<Session>, next: nat) -> bool {
    forall|i: int| #![trigger s[i]]
        0 <= i < s.len() ==> exists|k: nat| k < next && s[i].window_id@ == #[trigger] win_id(k)
}

/// The registry of open window sessions.
pub struct VaultRegistry {
    sessions: Vec<Session>,
    next_id: u64,
}

impl VaultRegistry {
    /// The recorded sessions, insertion order kept.
    pub closed spec fn sessions(self) -> Seq<Session> {
        self.sessions@
    }

    /// The counter the next window identifier will be minted from.
    pub closed spec fn counter(self) -> u64 {
        self.next_id
    }

    /// Well-formedness: identifiers are pairwise distinct and all minted
    /// below the counter, so the next minted identifier is fresh.
    pub open spec fn wf(self) -> bool {
        &&& session_ids_distinct(self.sessions())
        &&& session_ids_numbered(self.sessions(), self.counter() as nat)
        &&& self.counter() >= 1
    }

    /// An empty registry; identifiers start at `w1`.
    pub fn new() -> (r: VaultRegistry)
        ensures
            r.wf(),
            r.sessions().len() == 0,
            r.counter() == 1,
    {
        VaultRegistry { sessions: Vec::new(), next_id: 1 }
    }

    /// Allocates a fresh window identifier and records the session, provided
    /// the host UI layer materialized a window (`host_ok`). On refusal the
    /// registry is unchanged and `CreationFailed` is returned.
    pub fn create_window(&mut self, vault_path: String, host_ok: bool) -> (r: Result<
        String,
        WindowError,
    >)
        requires
            old(self).wf(),
            old(self).counter() < u64::MAX,
        ensures
            final(self).wf(),
            match r {
                Ok(id) => {
                    &&& host_ok
                    &&& id@ == win_id(old(self).counter() as nat)
                    &&& !has_session(old(self).sessions(), id@)
                    &&& final(self).counter() == old(self).counter() + 1
                    &&& final(self).sessions().len() == old(self).sessions().len() + 1
                    &&& final(self).sessions().drop_last() == old(self).sessions()
                    &&& final(self).sessions().last().window_id@ == id@
                    &&& final(self).sessions().last().vault_path@ == vault_path@
                    &&& session_maps(final(self).sessions(), id@, vault_path@)
                    &&& forall|w: Seq<char>, p: Seq<char>|
                        w != id@ ==> (session_maps(final(self).sessions(), w, p) <==> session_maps(
                            old(self).sessions(),
                            w,
                            p,
                        ))
                },
                Err(WindowError::CreationFailed) => {
                    &&& !host_ok
                    &&& final(self).sessions() == old(self).sessions()
                    &&& final(self).counter() == old(self).counter()
                },
            },
    {
        if !host_ok {
            return Err(WindowError::CreationFailed);
        }
        let n = self.next_id;
        let id = make_window_id(n);
        proof {
            if has_session(self.sessions(), win_id(n as nat)) {
                let i = choose|i: int|
                    0 <= i < self.sessions().len() && self.sessions()[i].window_id@ == win_id(
                        n as nat,
                    );
                let k = choose|k: nat|
                    k < self.next_id && self.sessions()[i].window_id@ == win_id(k);
                lemma_win_id_inj(k, n as nat);
                assert(false);
            }
        }
        let id_copy = id.clone();
        self.sessions.push(Session { window_id: id, vault_path });
        self.next_id = n + 1;
        proof {
            assert(self.sessions().drop_last() =~= old(self).sessions());
            assert forall|i: int| #![trigger self.sessions()[i]]
                0 <= i < self.sessions().len() implies exists|k: nat|
                k < self.next_id && self.sessions()[i].window_id@ == #[trigger] win_id(k) by {
                if i < self.sessions().len() - 1 {
                    let k = choose|k: nat|
                        k < old(self).next_id && old(self).sessions()[i].window_id@ == win_id(k);
                    assert(k < self.next_id && self.sessions()[i].window_id@ == win_id(k));
                } else {
                    assert((n as nat) < self.next_id && self.sessions()[i].window_id@ == win_id(
                        n as nat,
                    ));
                }
            }
            let post = self.sessions@;
            let pre = old(self).sessions@;
            assert(post[post.len() - 1].window_id@ == win_id(n as nat) && post[post.len()
                - 1].vault_path@ == vault_path@);
            assert forall|w: Seq<char>, p: Seq<char>| w != win_id(n as nat) implies (session_maps(
                post,
                w,
                p,
            ) <==> session_maps(pre, w, p)) by {
                if session_maps(post, w, p) {
                    let j = choose|j: int|
                        0 <= j < post.len() && post[j].window_id@ == w && post[j].vault_path@ == p;
                    assert(j < post.len() - 1);
                    assert(pre[j].window_id@ == w && pre[j].vault_path@ == p);
                }
                if session_maps(pre, w, p) {
                    let j = choose|j: int|
                        0 <= j < pre.len() && pre[j].window_id@ == w && pre[j].vault_path@ == p;
                    assert(post[j].window_id@ == w && post[j].vault_path@ == p);
                }
            }
        }
        Ok(id_copy)
    }

    /// Deletes the session for `window_id`. A no-op, not an error, when no
    /// such session exists: teardown paths may race with window-close events.
    pub fn remove_window(&mut self, window_id: &String)
        requires
            old(self).wf(),
        ensures
            final(self).wf(),
            !has_session(final(self).sessions(), window_id@),
            forall|w: Seq<char>, p: Seq<char>|
                w != window_id@ ==> (session_maps(final(self).sessions(), w, p) <==> session_maps(
                    old(self).sessions(),
                    w,
                    p,
                )),
            final(self).counter() == old(self).counter(),
            !has_session(old(self).sessions(), window_id@) ==> final(self).sessions() == old(
                self,
            ).sessions(),
    {
        let ghost pre = old(self).sessions@;
        let mut i: usize = 0;
        while i < self.sessions.len()
            invariant
                0 <= i <= self.sessions.len(),
                self.sessions@ == pre,
                pre == old(self).sessions@,
                self.next_id == old(self).next_id,
                old(self).wf(),
                forall|k: int| 0 <= k < i ==> pre[k].window_id@ != window_id@,
            decreases self.sessions.len() - i,
        {
            if self.sessions[i].window_id == *window_id {
                let _removed = self.sessions.remove(i);
                proof {
                    assert(self.sessions@ == pre.remove(i as int));
                    pre.remove_ensures(i as int);
                    assert forall|a: int, b: int|
                        0 <= a < b < self.sessions@.len() implies self.sessions@[a].window_id@
                        != self.sessions@[b].window_id@ by {
                        let pa: int = if a < i { a } else { a + 1 };
                        let pb: int = if b < i { b } else { b + 1 };
                        assert(self.sessions@[a] == pre[pa]);
                        assert(self.sessions@[b] == pre[pb]);
                    }
                    assert forall|j: int| #![trigger self.sessions@[j]]
                        0 <= j < self.sessions@.len() implies exists|k: nat|
                        k < self.next_id && self.sessions@[j].window_id@ == #[trigger] win_id(
                        k,
                    ) by {
                        let pj: int = if j < i { j } else { j + 1 };
                        assert(self.sessions@[j] == pre[pj]);
                        let k = choose|k: nat| k < self.next_id && pre[pj].window_id@ == win_id(k);
                        assert(k < self.next_id && self.sessions@[j].window_id@ == win_id(k));
                    }
                    assert forall|j: int|
                        0 <= j < self.sessions@.len() implies self.sessions@[j].window_id@
                        != window_id@ by {
                        if j < i {
                            assert(self.sessions@[j] == pre[j]);
                        } else {
                            assert(self.sessions@[j] == pre[j + 1]);
                            assert(pre[i as int].window_id@ == window_id@);
                        }
                    }
                    assert forall|w: Seq<char>, p: Seq<char>| w != window_id@ implies (
                    session_maps(self.sessions@, w, p) <==> session_maps(pre, w, p)) by {
                        if session_maps(self.sessions@, w, p) {
                            let j = choose|j: int|
                                0 <= j < self.sessions@.len() && self.sessions@[j].window_id@ == w
                                    && self.sessions@[j].vault_path@ == p;
                            if j < i {
                                assert(pre[j].window_id@ == w && pre[j].vault_path@ == p);
                            } else {
                                assert(pre[j + 1].window_id@ == w && pre[j + 1].vault_path@ == p);
                            }
                        }
                        if session_maps(pre, w, p) {
                            let j = choose|j: int|
                                0 <= j < pre.len() && pre[j].window_id@ == w && pre[j].vault_path@
                                    == p;
                            if j < i {
                                assert(self.sessions@[j].window_id@ == w
                                    && self.sessions@[j].vault_path@ == p);
                            } else {
                                assert(j != i);
                                assert(self.sessions@[j - 1].window_id@ == w && self.sessions@[j
                                    - 1].vault_path@ == p);
                            }
                        }
                    }
                }
                return ;
            }
            i = i + 1;
        }
    }

    /// Read-only lookup of the vault path displayed by `window_id`.
    pub fn vault_path_of(&self, window_id: &String) -> (r: Option<String>)
        ensures
            match r {
                Some(p) => session_maps(self.sessions(), window_id@, p@),
                None => !has_session(self.sessions(), window_id@),
            },
    {
        let mut i: usize = 0;
        while i < self.sessions.len()
            invariant
                0 <= i <= self.sessions.len(),
                forall|k: int| 0 <= k < i ==> self.sessions@[k].window_id@ != window_id@,
            decreases self.sessions.len() - i,
        {
            if self.sessions[i].window_id == *window_id {
                return Some(self.sessions[i].vault_path.clone());
            }
            i = i + 1;
        }
        None
    }

    /// True while a fresh window identifier can still be minted; the
    /// counter never wraps.
    pub fn can_allocate_id(&self) -> (r: bool)
        ensures
            r == (self.counter() < u64::MAX),
    {
        self.next_id < u64::MAX
    }

    /// The number of recorded sessions.
    pub fn session_count(&self) -> (r: usize)
        ensures
            r == self.sessions().len(),
    {
        self.sessions.len()
    }
}

} // verus!
