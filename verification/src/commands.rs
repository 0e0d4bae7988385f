//! The front-end-facing command surface, composed of the three components.
//! Each slow external step (install, window materialization, process launch,
//! socket I/O) happens in the embedding program between a `begin` and a
//! `finish` call, so the table mutations here are brief and serialized while
//! the waits are not.
//!
//! A spawn failure after the window was created is compensated: the window
//! entry is torn down again, so `open_vault` never leaves an orphaned window
//! without a worker.
use vstd::prelude::*;
use crate::envelope::{build_request, request_bytes};
use crate::errors::{
    GatewayError, OpenVaultError, PreflightError, SpawnError, TerminateError, VaultInfoError,
    WindowError,
};
use crate::gateway::{
    complete_request_post, has_pending, CallOutcome, IpcGateway,
};
use crate::ids::win_id;
use crate::registry::{has_session, session_maps, VaultRegistry};
use crate::supervisor::{
    begin_spawn_post, begin_terminate_post, complete_spawn_post, finish_terminate_post,
    handle_in_state, none_ready, ready_on, SidecarState, SidecarSupervisor, SpawnOutcome,
    TerminateAction, TerminateOutcome,
};
use crate::VaultInfo;
use vstd::string::StringSliceAdditionalSpecFns;

verus! {

/// Everything the embedding program needs to send one gateway call: the
/// fresh correlation id, the `Ready` worker's port, and the framed request
/// envelope.
pub struct CallTicket {
    pub corr_id: u64,
    pub port: u16,
    pub envelope: Vec<u8>,
}

/// The window-session registry is as it was.
pub open spec fn registry_unchanged(pre: VaultCore, post: VaultCore) -> bool {
    &&& post.registry.sessions() == pre.registry.sessions()
    &&& post.registry.counter() == pre.registry.counter()
}

/// The sidecar table is as it was.
pub open spec fn supervisor_unchanged(pre: VaultCore, post: VaultCore) -> bool {
    post.supervisor.handles() == pre.supervisor.handles()
}

/// The correlation table is as it was.
pub open spec fn gateway_unchanged(pre: VaultCore, post: VaultCore) -> bool {
    &&& post.gateway.pending() == pre.gateway.pending()
    &&& post.gateway.next_corr() == pre.gateway.next_corr()
}

/// The coordination core: one value, mutated under one mutual-exclusion
/// boundary by the embedding program.
pub struct VaultCore {
    pub registry: VaultRegistry,
    pub supervisor: SidecarSupervisor,
    pub gateway: IpcGateway,
}

impl VaultCore {
    /// All three components well-formed.
    pub open spec fn wf(self) -> bool {
        &&& self.registry.wf()
        &&& self.supervisor.wf()
        &&& self.gateway.wf()
    }

    /// A fresh core with no sessions, no workers and no pending calls.
    pub fn new() -> (r: VaultCore)
        ensures
            r.wf(),
            r.registry.sessions().len() == 0,
            r.registry.counter() == 1,
            r.supervisor.handles().len() == 0,
            r.gateway.pending().len() == 0,
    {
        VaultCore {
            registry: VaultRegistry::new(),
            supervisor: SidecarSupervisor::new(),
            gateway: IpcGateway::new(),
        }
    }

    /// Step one of `open_vault`: gate on the preflight result — on failure
    /// nothing is created — then record the window session under a fresh
    /// identifier and insert the `Starting` handle with a fresh port. If
    /// the spawn step is refused, the just-created window entry is torn
    /// down again before the error is reported.
    pub fn open_vault_begin(
        &mut self,
        vault_path: String,
        preflight: Result<(), PreflightError>,
        host_ok: bool,
    ) -> (r: Result<(String, u16), OpenVaultError>)
        requires
            old(self).wf(),
            old(self).registry.counter() < u64::MAX,
        ensures
            final(self).wf(),
            gateway_unchanged(*old(self), *final(self)),
            match r {
                Ok((id, port)) => {
                    &&& preflight is Ok
                    &&& host_ok
                    &&& id@ == win_id(old(self).registry.counter() as nat)
                    &&& final(self).registry.counter() == old(self).registry.counter() + 1
                    &&& session_maps(final(self).registry.sessions(), id@, vault_path@)
                    &&& forall|w: Seq<char>, p: Seq<char>|
                        w != id@ ==> (session_maps(final(self).registry.sessions(), w, p)
                            <==> session_maps(old(self).registry.sessions(), w, p))
                    &&& begin_spawn_post(
                        old(self).supervisor.handles(),
                        final(self).supervisor.handles(),
                        id@,
                        Ok(port),
                    )
                },
                Err(OpenVaultError::Preflight(e)) => {
                    &&& preflight == Result::<(), PreflightError>::Err(e)
                    &&& registry_unchanged(*old(self), *final(self))
                    &&& supervisor_unchanged(*old(self), *final(self))
                },
                Err(OpenVaultError::Window(we)) => {
                    &&& preflight is Ok
                    &&& !host_ok
                    &&& we == WindowError::CreationFailed
                    &&& registry_unchanged(*old(self), *final(self))
                    &&& supervisor_unchanged(*old(self), *final(self))
                },
                Err(OpenVaultError::Spawn(se)) => {
                    &&& preflight is Ok
                    &&& host_ok
                    &&& begin_spawn_post(
                        old(self).supervisor.handles(),
                        final(self).supervisor.handles(),
                        win_id(old(self).registry.counter() as nat),
                        Err(se),
                    )
                    &&& !has_session(
                        final(self).registry.sessions(),
                        win_id(old(self).registry.counter() as nat),
                    )
                    &&& forall|w: Seq<char>, p: Seq<char>|
                        w != win_id(old(self).registry.counter() as nat) ==> (session_maps(
                            final(self).registry.sessions(),
                            w,
                            p,
                        ) <==> session_maps(old(self).registry.sessions(), w, p))
                    &&& final(self).registry.counter() == old(self).registry.counter() + 1
                    &&& supervisor_unchanged(*old(self), *final(self))
                },
            },
    {
        if let Err(e) = preflight {
            return Err(OpenVaultError::Preflight(e));
        }
        let id = match self.registry.create_window(vault_path, host_ok) {
            Err(we) => {
                return Err(OpenVaultError::Window(we));
            },
            Ok(id) => id,
        };
        let id_for_spawn = id.clone();
        match self.supervisor.begin_spawn(id_for_spawn) {
            Ok(port) => Ok((id, port)),
            Err(se) => {
                self.registry.remove_window(&id);
                Err(OpenVaultError::Spawn(se))
            },
        }
    }

    /// Step two of `open_vault`, after the embedding program launched the
    /// worker and waited for its readiness signal. On readiness the handle
    /// becomes `Ready` and the front end gets the full vault information;
    /// on a failed launch both the handle and the window entry are gone —
    /// compensation, so no orphaned window survives a spawn failure.
    pub fn open_vault_finish(&mut self, window_id: &String, outcome: SpawnOutcome) -> (r: Result<
        VaultInfo,
        OpenVaultError,
    >)
        requires
            old(self).wf(),
            handle_in_state(old(self).supervisor.handles(), window_id@, SidecarState::Starting),
            has_session(old(self).registry.sessions(), window_id@),
        ensures
            final(self).wf(),
            gateway_unchanged(*old(self), *final(self)),
            match r {
                Ok(info) => {
                    &&& outcome == SpawnOutcome::Ready
                    &&& info.window_label@ == window_id@
                    &&& complete_spawn_post(
                        old(self).supervisor.handles(),
                        final(self).supervisor.handles(),
                        window_id@,
                        outcome,
                        Ok(info.ws_port),
                    )
                    &&& session_maps(old(self).registry.sessions(), window_id@, info.vault_path@)
                    &&& registry_unchanged(*old(self), *final(self))
                },
                Err(OpenVaultError::Spawn(se)) => {
                    &&& outcome != SpawnOutcome::Ready
                    &&& complete_spawn_post(
                        old(self).supervisor.handles(),
                        final(self).supervisor.handles(),
                        window_id@,
                        outcome,
                        Err(se),
                    )
                    &&& !has_session(final(self).registry.sessions(), window_id@)
                    &&& forall|w: Seq<char>, p: Seq<char>|
                        w != window_id@ ==> (session_maps(final(self).registry.sessions(), w, p)
                            <==> session_maps(old(self).registry.sessions(), w, p))
                    &&& final(self).registry.counter() == old(self).registry.counter()
                },
                Err(_) => false,
            },
    {
        match outcome {
            SpawnOutcome::Ready => {
                let path = match self.registry.vault_path_of(window_id) {
                    Some(p) => p,
                    None => {
                        // unreachable: the open protocol recorded this session
                        proof {
                            assert(false);
                        }
                        return Err(OpenVaultError::Spawn(SpawnError::Timeout));
                    },
                };
                match self.supervisor.complete_spawn(window_id, SpawnOutcome::Ready) {
                    Ok(port) => Ok(
                        VaultInfo {
                            window_label: window_id.clone(),
                            vault_path: path,
                            ws_port: port,
                        },
                    ),
                    Err(se) => {
                        // unreachable: readiness never maps to an error
                        proof {
                            assert(false);
                        }
                        Err(OpenVaultError::Spawn(se))
                    },
                }
            },
            _ => {
                let r = self.supervisor.complete_spawn(window_id, outcome);
                self.registry.remove_window(window_id);
                match r {
                    Err(se) => Err(OpenVaultError::Spawn(se)),
                    Ok(_) => {
                        // unreachable: a failed launch never maps to success
                        proof {
                            assert(false);
                        }
                        Err(OpenVaultError::Spawn(SpawnError::Timeout))
                    },
                }
            },
        }
    }

    /// Step one of `send_command`: resolve the window to its `Ready`
    /// worker's port — failing fast with `NoSidecar` when there is none —
    /// then register a pending entry under a fresh correlation id and frame
    /// the request envelope for the embedding program to send.
    pub fn send_command_begin(&mut self, window_id: &String, method: &str, params: &str) -> (r:
        Result<CallTicket, GatewayError>)
        requires
            old(self).wf(),
            old(self).gateway.next_corr() < u64::MAX,
        ensures
            final(self).wf(),
            registry_unchanged(*old(self), *final(self)),
            supervisor_unchanged(*old(self), *final(self)),
            match r {
                Ok(t) => {
                    &&& ready_on(old(self).supervisor.handles(), window_id@, t.port)
                    &&& t.corr_id == old(self).gateway.next_corr()
                    &&& !has_pending(old(self).gateway.pending(), t.corr_id)
                    &&& final(self).gateway.next_corr() == old(self).gateway.next_corr() + 1
                    &&& final(self).gateway.pending().len() == old(self).gateway.pending().len()
                        + 1
                    &&& final(self).gateway.pending().drop_last() == old(self).gateway.pending()
                    &&& final(self).gateway.pending().last().corr_id == t.corr_id
                    &&& final(self).gateway.pending().last().port == t.port
                    &&& t.envelope@ == request_bytes(
                        t.corr_id as nat,
                        method.spec_bytes(),
                        params.spec_bytes(),
                    )
                },
                Err(GatewayError::NoSidecar) => {
                    &&& none_ready(old(self).supervisor.handles(), window_id@)
                    &&& gateway_unchanged(*old(self), *final(self))
                },
                Err(_) => false,
            },
    {
        let port = match self.supervisor.endpoint_of(window_id) {
            None => {
                return Err(GatewayError::NoSidecar);
            },
            Some(p) => p,
        };
        let corr_id = self.gateway.register_request(port);
        let envelope = build_request(corr_id, method, params);
        Ok(CallTicket { corr_id, port, envelope })
    }

    /// Step two of `send_command`: resolve the pending call with what came
    /// back over the socket. The worker's own response body is returned
    /// unchanged; its error envelope is surfaced as `Remote`; a bounded
    /// wait that elapsed gives `Timeout`; a lost connection gives
    /// `Disconnected`. The correlation entry never outlives the call.
    pub fn send_command_finish(&mut self, corr_id: u64, outcome: CallOutcome) -> (r: Result<
        String,
        GatewayError,
    >)
        requires
            old(self).wf(),
        ensures
            final(self).wf(),
            registry_unchanged(*old(self), *final(self)),
            supervisor_unchanged(*old(self), *final(self)),
            final(self).gateway.next_corr() == old(self).gateway.next_corr(),
            complete_request_post(
                old(self).gateway.pending(),
                final(self).gateway.pending(),
                corr_id,
                outcome,
                r,
            ),
    {
        self.gateway.complete_request(corr_id, outcome)
    }

    /// Step one of `close_vault`: move the worker's handle to `Terminating`
    /// and tell the embedding program whether there is a process to signal.
    pub fn close_vault_begin(&mut self, window_id: &String) -> (action: TerminateAction)
        requires
            old(self).wf(),
        ensures
            final(self).wf(),
            registry_unchanged(*old(self), *final(self)),
            gateway_unchanged(*old(self), *final(self)),
            begin_terminate_post(
                old(self).supervisor.handles(),
                final(self).supervisor.handles(),
                window_id@,
                action,
            ),
    {
        self.supervisor.begin_terminate(window_id)
    }

    /// Step two of `close_vault`: the handle leaves the table (its port is
    /// released) and the window entry is removed — even when the kill
    /// failed, which is reported but never blocks the cleanup. The
    /// embedding program also fails the worker's connection, so in-flight
    /// calls resolve with `Disconnected` rather than hang.
    pub fn close_vault_finish(&mut self, window_id: &String, outcome: TerminateOutcome) -> (r:
        Result<(), TerminateError>)
        requires
            old(self).wf(),
        ensures
            final(self).wf(),
            gateway_unchanged(*old(self), *final(self)),
            finish_terminate_post(
                old(self).supervisor.handles(),
                final(self).supervisor.handles(),
                window_id@,
                outcome,
                r,
            ),
            !has_session(final(self).registry.sessions(), window_id@),
            forall|w: Seq<char>, p: Seq<char>|
                w != window_id@ ==> (session_maps(final(self).registry.sessions(), w, p)
                    <==> session_maps(old(self).registry.sessions(), w, p)),
            final(self).registry.counter() == old(self).registry.counter(),
    {
        let r = self.supervisor.finish_terminate(window_id, outcome);
        self.registry.remove_window(window_id);
        r
    }

    /// The current window's vault information: its vault path and the port
    /// of its `Ready` worker. Distinguishes a missing window session from a
    /// window whose worker is not routable.
    pub fn current_vault_info(&self, window_id: &String) -> (r: Result<VaultInfo, VaultInfoError>)
        ensures
            match r {
                Ok(info) => {
                    &&& info.window_label@ == window_id@
                    &&& session_maps(self.registry.sessions(), window_id@, info.vault_path@)
                    &&& ready_on(self.supervisor.handles(), window_id@, info.ws_port)
                },
                Err(VaultInfoError::VaultNotFound) => !has_session(
                    self.registry.sessions(),
                    window_id@,
                ),
                Err(VaultInfoError::SidecarNotFound) => {
                    &&& has_session(self.registry.sessions(), window_id@)
                    &&& none_ready(self.supervisor.handles(), window_id@)
                },
            },
    {
        let vault_path = match self.registry.vault_path_of(window_id) {
            None => {
                return Err(VaultInfoError::VaultNotFound);
            },
            Some(p) => p,
        };
        let ws_port = match self.supervisor.endpoint_of(window_id) {
            None => {
                return Err(VaultInfoError::SidecarNotFound);
            },
            Some(p) => p,
        };
        Ok(VaultInfo { window_label: window_id.clone(), vault_path, ws_port })
    }
}

} // verus!
