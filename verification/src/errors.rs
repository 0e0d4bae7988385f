//! Error taxonomy of the coordination core. Each component reports failures
//! with enough structure for the caller to tell "not found" from "transient"
//! from "fatal".
use vstd::prelude::*;

verus! {

/// Why a vault's runtime prerequisites could not be made ready.
#[derive(Debug, Clone, Copy, PartialEq, Eq, Structural)]
pub enum PreflightErrorKind {
    /// The required runtime is absent and no install was attempted.
    Missing,
    /// An install was attempted and failed.
    InstallFailed,
    /// The vault directory could not be inspected or written.
    PermissionDenied,
}

/// Failure of the dependency preflight for one vault path.
#[derive(Debug, Clone, Copy, PartialEq, Eq, Structural)]
pub struct PreflightError {
    pub kind: PreflightErrorKind,
}

/// Failure of the vault session registry.
#[derive(Debug, Clone, Copy, PartialEq, Eq, Structural)]
pub enum WindowError {
    /// The host UI layer refused to materialize a window.
    CreationFailed,
}

/// Failure of a sidecar spawn.
#[derive(Debug, Clone, Copy, PartialEq, Eq, Structural)]
pub enum SpawnError {
    /// A live handle already exists for this window.
    AlreadyRunning,
    /// Every port of the supervisor's managed range is taken.
    PortsExhausted,
    /// The worker did not signal readiness within the bounded wait.
    Timeout,
    /// The worker exited before signalling readiness.
    ProcessExited { code: i32 },
}

/// Failure of a sidecar termination. The handle and the window entry are
/// cleaned up even when this is reported.
#[derive(Debug, Clone, Copy, PartialEq, Eq, Structural)]
pub enum TerminateError {
    /// The worker outlived the grace period and the force kill failed too.
    KillFailed,
}

/// Failure of a gateway call.
#[derive(Debug, Clone, PartialEq, Eq)]
pub enum GatewayError {
    /// No sidecar is in `Ready` state for this window.
    NoSidecar,
    /// The worker did not answer within the caller's bound.
    Timeout,
    /// The connection to the worker was lost while the call was pending.
    Disconnected,
    /// The worker answered with an error envelope; surfaced unchanged.
    Remote { code: i64, message: String },
}

/// Failure of a `current_vault_info` lookup.
#[derive(Debug, Clone, Copy, PartialEq, Eq, Structural)]
pub enum VaultInfoError {
    /// No window session is recorded for this window identifier.
    VaultNotFound,
    /// A session exists but no sidecar is in `Ready` state for it.
    SidecarNotFound,
}

impl VaultInfoError {
    /// The message shown to the front end.
    pub fn message(&self) -> (r: String)
        ensures
            *self == VaultInfoError::VaultNotFound ==> r@ == "Vault not found for this window"@,
            *self == VaultInfoError::SidecarNotFound ==> r@ == "Sidecar not found for this window"@,
    {
        match self {
            VaultInfoError::VaultNotFound => "Vault not found for this window".to_owned(),
            VaultInfoError::SidecarNotFound => "Sidecar not found for this window".to_owned(),
        }
    }
}

/// Failure of the `open_vault` workflow, tagged with the step that failed.
#[derive(Debug, Clone, Copy, PartialEq, Eq, Structural)]
pub enum OpenVaultError {
    Preflight(PreflightError),
    Window(WindowError),
    Spawn(SpawnError),
}

} // verus!
