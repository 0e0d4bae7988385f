//! Component-level tests: supervisor, identifier minting, envelope framing
//! and preflight bookkeeping.
use vault_core::envelope::build_request;
use vault_core::errors::{PreflightErrorKind, SpawnError};
use vault_core::ids::make_window_id;
use vault_core::preflight::{
    evaluate_install, evaluate_probe, PreflightStep, PreflightTracker, ProbeResult,
};
use vault_core::supervisor::{SidecarSupervisor, PORT_BASE, PORT_COUNT};
use vault_core::{VaultInfo, VaultListItem};

#[test]
fn duplicate_spawn_is_rejected() {
    let mut sup = SidecarSupervisor::new();
    let port = sup.begin_spawn("w9".to_string()).unwrap();
    assert!(port >= PORT_BASE && port < PORT_BASE + PORT_COUNT);
    let e = sup.begin_spawn("w9".to_string()).unwrap_err();
    assert_eq!(e, SpawnError::AlreadyRunning);
    assert_eq!(sup.handle_count(), 1);
}

#[test]
fn port_range_exhaustion_is_reported() {
    let mut sup = SidecarSupervisor::new();
    for i in 0..PORT_COUNT {
        let id = format!("x{}", i);
        sup.begin_spawn(id).unwrap();
    }
    let e = sup.begin_spawn("one_more".to_string()).unwrap_err();
    assert_eq!(e, SpawnError::PortsExhausted);
}

#[test]
fn endpoint_is_none_until_ready() {
    let mut sup = SidecarSupervisor::new();
    let id = "w5".to_string();
    assert_eq!(sup.endpoint_of(&id), None);
    let port = sup.begin_spawn(id.clone()).unwrap();
    assert_eq!(sup.endpoint_of(&id), None);
    let got = sup
        .complete_spawn(&id, vault_core::supervisor::SpawnOutcome::Ready)
        .unwrap();
    assert_eq!(got, port);
    assert_eq!(sup.endpoint_of(&id), Some(port));
    sup.on_process_exit(&id);
    assert_eq!(sup.endpoint_of(&id), None);
}

#[test]
fn port_is_released_on_exit() {
    let mut sup = SidecarSupervisor::new();
    let p1 = sup.begin_spawn("a".to_string()).unwrap();
    sup.on_process_exit(&"a".to_string());
    let p2 = sup.begin_spawn("b".to_string()).unwrap();
    assert_eq!(p1, p2);
}

#[test]
fn window_ids_count_up_in_decimal() {
    assert_eq!(make_window_id(0), "w0");
    assert_eq!(make_window_id(1), "w1");
    assert_eq!(make_window_id(10), "w10");
    assert_eq!(make_window_id(907), "w907");
    assert_eq!(make_window_id(u64::MAX), "w18446744073709551615");
}

#[test]
fn request_envelope_exact_bytes() {
    let out = build_request(7, "ping", "{\"a\":1}");
    assert_eq!(out, b"{\"id\":7,\"method\":\"ping\",\"params\":{\"a\":1}}".to_vec());
}

#[test]
fn request_envelope_escapes_method() {
    let out = build_request(12, "a\"b\\c", "null");
    assert_eq!(
        out,
        b"{\"id\":12,\"method\":\"a\\\"b\\\\c\",\"params\":null}".to_vec()
    );
}

#[test]
fn request_envelope_escapes_control_bytes() {
    let out = build_request(3, "a\nb\u{1f}", "null");
    assert_eq!(
        out,
        b"{\"id\":3,\"method\":\"a\\u000ab\\u001f\",\"params\":null}".to_vec()
    );
}

#[test]
fn preflight_probe_decisions() {
    assert_eq!(
        evaluate_probe(ProbeResult::Satisfied).unwrap(),
        PreflightStep::AlreadyReady
    );
    assert_eq!(
        evaluate_probe(ProbeResult::NeedsInstall).unwrap(),
        PreflightStep::Install
    );
    let e = evaluate_probe(ProbeResult::AccessDenied).unwrap_err();
    assert_eq!(e.kind, PreflightErrorKind::PermissionDenied);
    assert!(evaluate_install(true).is_ok());
    assert_eq!(
        evaluate_install(false).unwrap_err().kind,
        PreflightErrorKind::InstallFailed
    );
}

#[test]
fn preflight_tracker_serializes_and_caches() {
    let mut tracker = PreflightTracker::new();
    let path = "/vaults/a".to_string();
    assert!(!tracker.is_satisfied(&path));
    assert!(tracker.try_acquire(&path));
    assert!(!tracker.try_acquire(&path));
    tracker.mark_satisfied(&path);
    tracker.release(&path);
    assert!(!tracker.holds(&path));
    assert!(tracker.is_satisfied(&path));
    assert!(tracker.try_acquire(&path));
    tracker.release(&path);
    let other = "/vaults/b".to_string();
    assert!(!tracker.is_satisfied(&other));
}

#[test]
fn data_model_constructors_keep_fields() {
    let info = VaultInfo::new("w1".to_string(), "/vaults/a".to_string(), 27100);
    assert_eq!(info.window_label, "w1");
    assert_eq!(info.vault_path, "/vaults/a");
    assert_eq!(info.ws_port, 27100);
    let item = VaultListItem::new(
        "a".to_string(),
        "/vaults/a".to_string(),
        Some("2024-01-01".to_string()),
    );
    assert_eq!(item.name, "a");
    assert_eq!(item.path, "/vaults/a");
    assert_eq!(item.created, Some("2024-01-01".to_string()));
}
