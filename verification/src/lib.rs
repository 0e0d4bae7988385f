//! Coordination core for a desktop front end that runs one worker process
//! ("sidecar") per open user workspace ("vault"): a window-session registry,
//! a sidecar supervisor with a port pool and a lifecycle state machine, and
//! an IPC gateway that correlates requests with responses.
use vstd::prelude::*;

pub mod commands;
pub mod envelope;
pub mod errors;
pub mod gateway;
pub mod ids;
pub mod laws;
pub mod preflight;
pub mod registry;
pub mod supervisor;

verus! {

/// Information returned to the front end about one open vault window.
#[derive(Debug)]
pub struct VaultInfo {
    pub window_label: String,
    pub vault_path: String,
    pub ws_port: u16,
}

impl VaultInfo {
    pub fn new(window_label: String, vault_path: String, ws_port: u16) -> (r: VaultInfo)
        ensures
            r.window_label@ == window_label@,
            r.vault_path@ == vault_path@,
            r.ws_port == ws_port,
    {
        VaultInfo { window_label, vault_path, ws_port }
    }
}

/// One entry of a vault directory listing, as shown to the front end.
#[derive(Debug)]
pub struct VaultListItem {
    pub name: String,
    pub path: String,
    pub created: Option<String>,
}

impl VaultListItem {
    pub fn new(name: String, path: String, created: Option<String>) -> (r: VaultListItem)
        ensures
            r.name@ == name@,
            r.path@ == path@,
            r.created == created,
    {
        VaultListItem { name, path, created }
    }
}

} // verus!
