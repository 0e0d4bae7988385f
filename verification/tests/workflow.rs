//! Scenario tests for the front-end-facing command surface.
use vault_core::commands::VaultCore;
use vault_core::errors::{
    GatewayError, OpenVaultError, PreflightError, PreflightErrorKind, SpawnError, VaultInfoError,
    WindowError,
};
use vault_core::gateway::CallOutcome;
use vault_core::supervisor::{
    SpawnOutcome, TerminateAction, TerminateOutcome, PORT_BASE, PORT_COUNT,
};

#[test]
fn open_vault_scenario_returns_window_and_port() {
    let mut core = VaultCore::new();
    let (id, port) = core
        .open_vault_begin("/vaults/a".to_string(), Ok(()), true)
        .unwrap();
    assert_eq!(id, "w1");
    assert!(port >= PORT_BASE && port < PORT_BASE + PORT_COUNT);
    let info = core.open_vault_finish(&id, SpawnOutcome::Ready).unwrap();
    assert_eq!(info.window_label, "w1");
    assert_eq!(info.vault_path, "/vaults/a");
    assert_eq!(info.ws_port, port);
}

#[test]
fn send_before_ready_is_no_sidecar_and_after_ready_echoes() {
    let mut core = VaultCore::new();
    let (id, _port) = core
        .open_vault_begin("/vaults/a".to_string(), Ok(()), true)
        .unwrap();
    let early = core.send_command_begin(&id, "ping", "{}");
    assert!(matches!(early, Err(GatewayError::NoSidecar)));
    core.open_vault_finish(&id, SpawnOutcome::Ready).unwrap();
    let ticket = core.send_command_begin(&id, "ping", "{}").unwrap();
    let body = core
        .send_command_finish(
            ticket.corr_id,
            CallOutcome::Response { body: "{\"pong\":true}".to_string() },
        )
        .unwrap();
    assert_eq!(body, "{\"pong\":true}");
}

#[test]
fn close_then_info_fails_vault_not_found() {
    let mut core = VaultCore::new();
    let (id, _port) = core
        .open_vault_begin("/vaults/a".to_string(), Ok(()), true)
        .unwrap();
    core.open_vault_finish(&id, SpawnOutcome::Ready).unwrap();
    let action = core.close_vault_begin(&id);
    assert!(matches!(action, TerminateAction::SignalAndWait { .. }));
    core.close_vault_finish(&id, TerminateOutcome::ExitedGracefully)
        .unwrap();
    let e = core.current_vault_info(&id).unwrap_err();
    assert_eq!(e, VaultInfoError::VaultNotFound);
    assert_eq!(e.message(), "Vault not found for this window");
    assert_eq!(core.registry.session_count(), 0);
    assert_eq!(core.supervisor.handle_count(), 0);
}

#[test]
fn preflight_failure_creates_nothing() {
    let mut core = VaultCore::new();
    let preflight = Err(PreflightError { kind: PreflightErrorKind::InstallFailed });
    let e = core
        .open_vault_begin("/vaults/broken".to_string(), preflight, true)
        .unwrap_err();
    assert_eq!(
        e,
        OpenVaultError::Preflight(PreflightError { kind: PreflightErrorKind::InstallFailed })
    );
    assert_eq!(core.registry.session_count(), 0);
    assert_eq!(core.supervisor.handle_count(), 0);
}

#[test]
fn host_refusal_reports_creation_failed() {
    let mut core = VaultCore::new();
    let e = core
        .open_vault_begin("/vaults/a".to_string(), Ok(()), false)
        .unwrap_err();
    assert_eq!(e, OpenVaultError::Window(WindowError::CreationFailed));
    assert_eq!(core.registry.session_count(), 0);
    assert_eq!(core.supervisor.handle_count(), 0);
}

#[test]
fn spawn_timeout_tears_window_down() {
    let mut core = VaultCore::new();
    let (id, _port) = core
        .open_vault_begin("/vaults/a".to_string(), Ok(()), true)
        .unwrap();
    let e = core
        .open_vault_finish(&id, SpawnOutcome::TimedOut)
        .unwrap_err();
    assert_eq!(e, OpenVaultError::Spawn(SpawnError::Timeout));
    assert_eq!(core.registry.session_count(), 0);
    assert_eq!(core.supervisor.handle_count(), 0);
}

#[test]
fn spawn_exit_reports_code_and_compensates() {
    let mut core = VaultCore::new();
    let (id, _port) = core
        .open_vault_begin("/vaults/a".to_string(), Ok(()), true)
        .unwrap();
    let e = core
        .open_vault_finish(&id, SpawnOutcome::Exited { code: 3 })
        .unwrap_err();
    assert_eq!(e, OpenVaultError::Spawn(SpawnError::ProcessExited { code: 3 }));
    assert_eq!(core.registry.session_count(), 0);
    assert_eq!(core.supervisor.handle_count(), 0);
}

#[test]
fn distinct_windows_get_distinct_ports() {
    let mut core = VaultCore::new();
    let (id_a, port_a) = core
        .open_vault_begin("/vaults/a".to_string(), Ok(()), true)
        .unwrap();
    core.open_vault_finish(&id_a, SpawnOutcome::Ready).unwrap();
    let (id_b, port_b) = core
        .open_vault_begin("/vaults/b".to_string(), Ok(()), true)
        .unwrap();
    core.open_vault_finish(&id_b, SpawnOutcome::Ready).unwrap();
    assert_eq!(id_a, "w1");
    assert_eq!(id_b, "w2");
    assert_ne!(port_a, port_b);
    let info_a = core.current_vault_info(&id_a).unwrap();
    let info_b = core.current_vault_info(&id_b).unwrap();
    assert_eq!(info_a.vault_path, "/vaults/a");
    assert_eq!(info_b.vault_path, "/vaults/b");
}

#[test]
fn close_vault_twice_is_idempotent() {
    let mut core = VaultCore::new();
    let (id, _port) = core
        .open_vault_begin("/vaults/a".to_string(), Ok(()), true)
        .unwrap();
    core.open_vault_finish(&id, SpawnOutcome::Ready).unwrap();
    let first = core.close_vault_begin(&id);
    assert!(matches!(first, TerminateAction::SignalAndWait { .. }));
    core.close_vault_finish(&id, TerminateOutcome::ForceKilled)
        .unwrap();
    let second = core.close_vault_begin(&id);
    assert_eq!(second, TerminateAction::NoWorker);
    let r = core.close_vault_finish(&id, TerminateOutcome::ExitedGracefully);
    assert!(r.is_ok());
    assert_eq!(core.supervisor.handle_count(), 0);
}

#[test]
fn info_before_ready_reports_sidecar_not_found() {
    let mut core = VaultCore::new();
    let (id, _port) = core
        .open_vault_begin("/vaults/a".to_string(), Ok(()), true)
        .unwrap();
    let e = core.current_vault_info(&id).unwrap_err();
    assert_eq!(e, VaultInfoError::SidecarNotFound);
    assert_eq!(e.message(), "Sidecar not found for this window");
}

#[test]
fn call_timeout_leaves_no_pending_entry() {
    let mut core = VaultCore::new();
    let (id, _port) = core
        .open_vault_begin("/vaults/a".to_string(), Ok(()), true)
        .unwrap();
    core.open_vault_finish(&id, SpawnOutcome::Ready).unwrap();
    let ticket = core.send_command_begin(&id, "slow", "{}").unwrap();
    assert_eq!(core.gateway.pending_count(), 1);
    let r = core.send_command_finish(ticket.corr_id, CallOutcome::TimedOut);
    assert!(matches!(r, Err(GatewayError::Timeout)));
    assert_eq!(core.gateway.pending_count(), 0);
    let late = core.send_command_finish(
        ticket.corr_id,
        CallOutcome::Response { body: "late".to_string() },
    );
    assert!(matches!(late, Err(GatewayError::Disconnected)));
}

#[test]
fn connection_loss_fails_pending_calls() {
    let mut core = VaultCore::new();
    let (id, _port) = core
        .open_vault_begin("/vaults/a".to_string(), Ok(()), true)
        .unwrap();
    core.open_vault_finish(&id, SpawnOutcome::Ready).unwrap();
    let t1 = core.send_command_begin(&id, "one", "{}").unwrap();
    let t2 = core.send_command_begin(&id, "two", "{}").unwrap();
    assert_ne!(t1.corr_id, t2.corr_id);
    assert_eq!(core.gateway.pending_count(), 2);
    core.gateway.fail_connection(t1.port);
    assert_eq!(core.gateway.pending_count(), 0);
    let r1 = core.send_command_finish(t1.corr_id, CallOutcome::ConnectionLost);
    let r2 = core.send_command_finish(t2.corr_id, CallOutcome::ConnectionLost);
    assert!(matches!(r1, Err(GatewayError::Disconnected)));
    assert!(matches!(r2, Err(GatewayError::Disconnected)));
}

#[test]
fn connection_loss_spares_other_windows() {
    let mut core = VaultCore::new();
    let (id_a, _) = core
        .open_vault_begin("/vaults/a".to_string(), Ok(()), true)
        .unwrap();
    core.open_vault_finish(&id_a, SpawnOutcome::Ready).unwrap();
    let (id_b, _) = core
        .open_vault_begin("/vaults/b".to_string(), Ok(()), true)
        .unwrap();
    core.open_vault_finish(&id_b, SpawnOutcome::Ready).unwrap();
    let t_a = core.send_command_begin(&id_a, "one", "{}").unwrap();
    let t_b = core.send_command_begin(&id_b, "two", "{}").unwrap();
    core.gateway.fail_connection(t_a.port);
    assert_eq!(core.gateway.pending_count(), 1);
    let r_a = core.send_command_finish(t_a.corr_id, CallOutcome::ConnectionLost);
    assert!(matches!(r_a, Err(GatewayError::Disconnected)));
    let r_b = core.send_command_finish(
        t_b.corr_id,
        CallOutcome::Response { body: "\"ok\"".to_string() },
    );
    assert_eq!(r_b.unwrap(), "\"ok\"");
}

#[test]
fn remote_error_is_surfaced_unchanged() {
    let mut core = VaultCore::new();
    let (id, _port) = core
        .open_vault_begin("/vaults/a".to_string(), Ok(()), true)
        .unwrap();
    core.open_vault_finish(&id, SpawnOutcome::Ready).unwrap();
    let ticket = core.send_command_begin(&id, "nosuch", "{}").unwrap();
    let r = core.send_command_finish(
        ticket.corr_id,
        CallOutcome::RemoteError { code: -32601, message: "method not found".to_string() },
    );
    assert_eq!(
        r.unwrap_err(),
        GatewayError::Remote { code: -32601, message: "method not found".to_string() }
    );
}

#[test]
fn reaper_frees_worker_but_keeps_window() {
    let mut core = VaultCore::new();
    let (id, _port) = core
        .open_vault_begin("/vaults/a".to_string(), Ok(()), true)
        .unwrap();
    core.open_vault_finish(&id, SpawnOutcome::Ready).unwrap();
    core.supervisor.on_process_exit(&id);
    assert_eq!(core.supervisor.handle_count(), 0);
    assert_eq!(core.registry.session_count(), 1);
    let e = core.current_vault_info(&id).unwrap_err();
    assert_eq!(e, VaultInfoError::SidecarNotFound);
    let r = core.send_command_begin(&id, "ping", "{}");
    assert!(matches!(r, Err(GatewayError::NoSidecar)));
}
