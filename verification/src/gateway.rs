//! IPC gateway bookkeeping: pairs each outgoing request with a fresh
//! correlation id and matches the asynchronous response back to its caller by
//! that id, never by position — responses may arrive out of request order.
//! The socket itself is owned by the embedding program; one connection per
//! sidecar, multiplexed by these ids.
use vstd::prelude::*;
use crate::errors::GatewayError;

verus! {

/// One in-flight request: its correlation id and the port whose connection
/// carries it.
#[derive(Debug, Clone, Copy, PartialEq, Eq, Structural)]
pub struct PendingEntry {
    pub corr_id: u64,
    pub port: u16,
}

/// True when a request with correlation id `c` is pending.
pub open spec fn has_pending(s: Seq<PendingEntry>, c: u64) -> bool {
    exists|i: int| 0 <= i < s.len() && s[i].corr_id == c
}

/// True when a request with correlation id `c` is pending on port `p`.
pub open spec fn pending_on(s: Seq<PendingEntry>, c: u64, p: u16) -> bool {
    exists|i: int| 0 <= i < s.len() && s[i].corr_id == c && s[i].port == p
}

/// No two pending requests share a correlation id.
pub open spec fn pending_ids_distinct(s: Seq<PendingEntry>) -> bool {
    forall|i: int, j: int| 0 <= i < j < s.len() ==> s[i].corr_id != s[j].corr_id
}

/// Every pending correlation id was minted below `next`.
pub open spec fn pending_below(s: Seq<PendingEntry>, next: u64) -> bool {
    forall|i: int| 0 <= i < s.len() ==> #[trigger] s[i].corr_id < next
}

/// How a pending call ended, reported by the embedding program.
#[derive(Debug, Clone, PartialEq, Eq)]
pub enum CallOutcome {
    /// A response envelope with this id arrived carrying a result.
    Response { body: String },
    /// A response envelope with this id arrived carrying an error.
    RemoteError { code: i64, message: String },
    /// The caller's bounded wait elapsed with no matching response.
    TimedOut,
    /// The connection carrying the request was lost.
    ConnectionLost,
}

/// What `complete_request` does to the table and returns: the entry of `c`
/// is removed — no entry outlives its call, whatever happened — and the
/// outcome maps to the caller's result. An id that is no longer pending was
/// failed underneath by a connection loss, and reports `Disconnected`.
pub open spec fn complete_request_post(
    pre: Seq<PendingEntry>,
    post: Seq<PendingEntry>,
    c: u64,
    outcome: CallOutcome,
    r: Result<String, GatewayError>,
) -> bool {
    &&& !has_pending(post, c)
    &&& (!has_pending(pre, c) ==> post == pre && r == Result::<String, GatewayError>::Err(
        GatewayError::Disconnected,
    ))
    &&& (has_pending(pre, c) ==> {
        &&& (exists|i: int| 0 <= i < pre.len() && pre[i].corr_id == c && post == pre.remove(i))
        &&& (forall|d: u64, q: u16|
            d != c ==> (pending_on(post, d, q) <==> pending_on(pre, d, q)))
        &&& match outcome {
            CallOutcome::Response { body } => r == Result::<String, GatewayError>::Ok(body),
            CallOutcome::RemoteError { code, message } => r == Result::<String, GatewayError>::Err(
                GatewayError::Remote { code, message },
            ),
            CallOutcome::TimedOut => r == Result::<String, GatewayError>::Err(GatewayError::Timeout),
            CallOutcome::ConnectionLost => r == Result::<String, GatewayError>::Err(
                GatewayError::Disconnected,
            ),
        }
    })
}

/// The correlation table of the gateway.
pub struct IpcGateway {
    pending: Vec<PendingEntry>,
    next_corr: u64,
}

impl IpcGateway {
    /// The pending requests, registration order kept.
    pub closed spec fn pending(self) -> Seq<PendingEntry> {
        self.pending@
    }

    /// The counter the next correlation id will be minted from.
    pub closed spec fn next_corr(self) -> u64 {
        self.next_corr
    }

    /// Well-formedness: pending ids are pairwise distinct and all minted
    /// below the counter, so the next minted id is fresh.
    pub open spec fn wf(self) -> bool {
        &&& pending_ids_distinct(self.pending())
        &&& pending_below(self.pending(), self.next_corr())
    }

    /// An empty gateway.
    pub fn new() -> (r: IpcGateway)
        ensures
            r.wf(),
            r.pending().len() == 0,
            r.next_corr() == 1,
    {
        IpcGateway { pending: Vec::new(), next_corr: 1 }
    }

    /// Mints a fresh correlation id and registers the request as pending on
    /// `port`, before the envelope is sent, so the response cannot race the
    /// registration.
    pub fn register_request(&mut self, port: u16) -> (c: u64)
        requires
            old(self).wf(),
            old(self).next_corr() < u64::MAX,
        ensures
            final(self).wf(),
            c == old(self).next_corr(),
            !has_pending(old(self).pending(), c),
            final(self).pending().len() == old(self).pending().len() + 1,
            final(self).pending().drop_last() == old(self).pending(),
            final(self).pending().last().corr_id == c,
            final(self).pending().last().port == port,
            final(self).next_corr() == old(self).next_corr() + 1,
    {
        let c = self.next_corr;
        self.pending.push(PendingEntry { corr_id: c, port });
        self.next_corr = c + 1;
        proof {
            assert(self.pending@.drop_last() =~= old(self).pending@);
        }
        c
    }

    /// Resolves the pending request `corr_id` with what the embedding
    /// program observed, removes its entry, and returns the caller's result:
    /// the worker's own response body unchanged, its error surfaced as
    /// `Remote`, `Timeout` after the bounded wait, `Disconnected` on
    /// connection loss — including the case where the entry was already
    /// failed and removed by `fail_connection`.
    pub fn complete_request(&mut self, corr_id: u64, outcome: CallOutcome) -> (r: Result<
        String,
        GatewayError,
    >)
        requires
            old(self).wf(),
        ensures
            final(self).wf(),
            final(self).next_corr() == old(self).next_corr(),
            complete_request_post(
                old(self).pending(),
                final(self).pending(),
                corr_id,
                outcome,
                r,
            ),
    {
        let ghost pre = old(self).pending@;
        let mut i: usize = 0;
        while i < self.pending.len()
            invariant
                0 <= i <= self.pending.len(),
                self.pending@ == pre,
                pre == old(self).pending@,
                self.next_corr == old(self).next_corr,
                old(self).wf(),
                forall|k: int| 0 <= k < i ==> pre[k].corr_id != corr_id,
            decreases self.pending.len() - i,
        {
            if self.pending[i].corr_id == corr_id {
                return self.resolve_found(i, outcome);
            }
            i = i + 1;
        }
        Err(GatewayError::Disconnected)
    }

    /// Removes the pending entry at `i` and maps `outcome` to the caller's
    /// result; the tail of `complete_request` once the entry is found.
    fn resolve_found(&mut self, i: usize, outcome: CallOutcome) -> (r: Result<
        String,
        GatewayError,
    >)
        requires
            old(self).wf(),
            i < old(self).pending().len(),
        ensures
            final(self).wf(),
            final(self).next_corr() == old(self).next_corr(),
            complete_request_post(
                old(self).pending(),
                final(self).pending(),
                old(self).pending()[i as int].corr_id,
                outcome,
                r,
            ),
    {
        let ghost pre = old(self).pending@;
        let ghost corr_id = pre[i as int].corr_id;
        let _removed = self.pending.remove(i);
        proof {
            assert(self.pending@ == pre.remove(i as int));
            pre.remove_ensures(i as int);
            assert forall|j: int| 0 <= j < self.pending@.len() implies self.pending@[j].corr_id
                != corr_id by {
                if j < i {
                    assert(self.pending@[j] == pre[j]);
                } else {
                    assert(self.pending@[j] == pre[j + 1]);
                }
            }
            assert forall|a: int, b: int|
                0 <= a < b < self.pending@.len() implies self.pending@[a].corr_id
                != self.pending@[b].corr_id by {
                let pa: int = if a < i { a } else { a + 1 };
                let pb: int = if b < i { b } else { b + 1 };
                assert(self.pending@[a] == pre[pa]);
                assert(self.pending@[b] == pre[pb]);
            }
            assert forall|j: int| 0 <= j < self.pending@.len() implies #[trigger] self.pending@[j].corr_id
                < self.next_corr by {
                if j < i {
                    assert(self.pending@[j] == pre[j]);
                } else {
                    assert(self.pending@[j] == pre[j + 1]);
                }
            }
            assert forall|d: u64, q: u16| d != corr_id implies (pending_on(self.pending@, d, q)
                <==> pending_on(pre, d, q)) by {
                if pending_on(self.pending@, d, q) {
                    let j = choose|j: int|
                        0 <= j < self.pending@.len() && self.pending@[j].corr_id == d
                            && self.pending@[j].port == q;
                    if j < i {
                        assert(pre[j].corr_id == d && pre[j].port == q);
                    } else {
                        assert(pre[j + 1].corr_id == d && pre[j + 1].port == q);
                    }
                }
                if pending_on(pre, d, q) {
                    let j = choose|j: int|
                        0 <= j < pre.len() && pre[j].corr_id == d && pre[j].port == q;
                    if j < i {
                        assert(self.pending@[j].corr_id == d && self.pending@[j].port == q);
                    } else {
                        assert(j != i);
                        assert(self.pending@[j - 1].corr_id == d && self.pending@[j - 1].port
                            == q);
                    }
                }
            }
        }
        match outcome {
            CallOutcome::Response { body } => Ok(body),
            CallOutcome::RemoteError { code, message } => Err(
                GatewayError::Remote { code, message },
            ),
            CallOutcome::TimedOut => Err(GatewayError::Timeout),
            CallOutcome::ConnectionLost => Err(GatewayError::Disconnected),
        }
    }

    /// The connection to the sidecar on `port` was lost: every request
    /// pending on it is failed at once (their callers get `Disconnected`
    /// from `complete_request`); requests on other connections are kept.
    #[verifier::rlimit(50)]
    pub fn fail_connection(&mut self, port: u16)
        requires
            old(self).wf(),
        ensures
            final(self).wf(),
            forall|c: u64| !pending_on(final(self).pending(), c, port),
            forall|c: u64, q: u16|
                q != port ==> (pending_on(final(self).pending(), c, q) <==> pending_on(
                    old(self).pending(),
                    c,
                    q,
                )),
            final(self).next_corr() == old(self).next_corr(),
    {
        let ghost pre = old(self).pending@;
        let mut kept: Vec<PendingEntry> = Vec::new();
        let mut i: usize = 0;
        while i < self.pending.len()
            invariant
                0 <= i <= self.pending.len(),
                self.pending@ == pre,
                pre == old(self).pending@,
                self.next_corr == old(self).next_corr,
                old(self).wf(),
                forall|j: int| 0 <= j < kept@.len() ==> #[trigger] kept@[j].port != port,
                forall|j: int|
                    0 <= j < kept@.len() ==> exists|k: int| 0 <= k < i && pre[k] == #[trigger] kept@[j],
                forall|k: int|
                    0 <= k < i && #[trigger] pre[k].port != port ==> exists|j: int|
                        0 <= j < kept@.len() && kept@[j] == pre[k],
                pending_ids_distinct(kept@),
                pending_below(kept@, self.next_corr),
            decreases self.pending.len() - i,
        {
            let e = self.pending[i];
            if e.port != port {
                let ghost kept_pre = kept@;
                proof {
                    assert forall|j: int| 0 <= j < kept_pre.len() implies kept_pre[j].corr_id
                        != pre[i as int].corr_id by {
                        let k = choose|k: int| 0 <= k < i && pre[k] == kept_pre[j];
                    }
                }
                kept.push(e);
                proof {
                    assert(e == pre[i as int]);
                    assert(kept@ == kept_pre.push(e));
                    assert forall|k: int|
                        0 <= k < i + 1 && #[trigger] pre[k].port != port implies exists|j: int|
                        0 <= j < kept@.len() && kept@[j] == pre[k] by {
                        if k < i {
                            let j = choose|j: int| 0 <= j < kept_pre.len() && kept_pre[j] == pre[k];
                            assert(kept@[j] == pre[k]);
                        } else {
                            assert(kept@[kept@.len() - 1] == pre[k]);
                        }
                    }
                    assert forall|j: int| 0 <= j < kept@.len() implies exists|k: int|
                        0 <= k < i + 1 && pre[k] == #[trigger] kept@[j] by {
                        if j < kept@.len() - 1 {
                            assert(kept@[j] == kept_pre[j]);
                            let k = choose|k: int| 0 <= k < i && pre[k] == kept_pre[j];
                            assert(pre[k] == kept@[j]);
                        } else {
                            assert(pre[i as int] == kept@[j]);
                        }
                    }
                    assert forall|a: int, b: int|
                        0 <= a < b < kept@.len() implies kept@[a].corr_id != kept@[b].corr_id by {
                        if b < kept@.len() - 1 {
                            assert(kept@[a] == kept_pre[a] && kept@[b] == kept_pre[b]);
                        } else {
                            assert(kept@[a] == kept_pre[a] && kept@[b] == e);
                        }
                    }
                    assert forall|j: int| 0 <= j < kept@.len() implies #[trigger] kept@[j].corr_id
                        < self.next_corr by {
                        if j < kept@.len() - 1 {
                            assert(kept@[j] == kept_pre[j]);
                        } else {
                            assert(kept@[j] == pre[i as int]);
                        }
                    }
                }
            }
            i = i + 1;
        }
        self.pending = kept;
        proof {
            assert forall|c: u64, q: u16| q != port implies (pending_on(self.pending@, c, q)
                <==> pending_on(pre, c, q)) by {
                if pending_on(self.pending@, c, q) {
                    let j = choose|j: int|
                        0 <= j < self.pending@.len() && self.pending@[j].corr_id == c
                            && self.pending@[j].port == q;
                    let k = choose|k: int| 0 <= k < pre.len() && pre[k] == self.pending@[j];
                    assert(pre[k].corr_id == c && pre[k].port == q);
                }
                if pending_on(pre, c, q) {
                    let k = choose|k: int| 0 <= k < pre.len() && pre[k].corr_id == c && pre[k].port == q;
                    let j = choose|j: int|
                        0 <= j < self.pending@.len() && self.pending@[j] == pre[k];
                    assert(self.pending@[j].corr_id == c && self.pending@[j].port == q);
                }
            }
        }
    }

    /// True while a fresh correlation id can still be minted; the counter
    /// never wraps.
    pub fn can_allocate_corr(&self) -> (r: bool)
        ensures
            r == (self.next_corr() < u64::MAX),
    {
        self.next_corr < u64::MAX
    }

    /// The number of pending requests.
    pub fn pending_count(&self) -> (r: usize)
        ensures
            r == self.pending().len(),
    {
        self.pending.len()
    }
}

} // verus!
