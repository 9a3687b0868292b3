//! The decisions behind the commands that the web client invokes: versions,
//! settings, autostart and update checks.
use vstd::prelude::*;
use crate::config::AppConfig;
use crate::presence::{presence_change, spec_presence_change, PresenceChange};

verus! {

/// The versions reported to the web client.
#[derive(Clone, Debug, PartialEq, Eq)]
pub struct Versions {
    /// Major version of the desktop framework.
    pub tauri: String,
    /// Version of the desktop client.
    pub desktop: String,
}

/// The versions of the framework ("2") and of the client ("1.4.0").
pub fn get_versions() -> (v: Versions)
    ensures
        v.tauri@ == "2"@,
        v.desktop@ == "1.4.0"@,
{
    Versions { tauri: String::from_str("2"), desktop: String::from_str("1.4.0") }
}

/// What storing a new configuration amounts to.
#[derive(Clone, Copy, Debug, PartialEq, Eq, Structural)]
pub struct ConfigUpdate {
    /// The configuration to save to disk.
    pub snapshot: AppConfig,
    /// What becomes of the presence worker once the save succeeded.
    pub presence: PresenceChange,
}

/// Stores `new_config` in place of the current configuration. The presence
/// worker follows a change of its setting; `after_config_save` decides whether
/// the change is carried out, once the snapshot was written.
pub fn apply_new_config(current: &mut AppConfig, new_config: AppConfig) -> (u: ConfigUpdate)
    ensures
        *final(current) == new_config,
        u.snapshot == new_config,
        u.presence == spec_presence_change(old(current).discord_rpc, new_config.discord_rpc),
{
    let was_enabled = current.discord_rpc;
    let snapshot = current.replace(new_config);
    ConfigUpdate { snapshot, presence: presence_change(was_enabled, new_config.discord_rpc) }
}

/// The reply to the web client once the snapshot of a new configuration was
/// written (or not), and what then becomes of the presence worker: a failed
/// write is reported with its error and leaves the worker alone; a successful
/// one carries out the change that `apply_new_config` reported. The stored
/// configuration stays replaced either way.
pub fn after_config_save(saved: Result<(), String>, presence: PresenceChange) -> (r: (
    Result<(), String>,
    PresenceChange,
))
    ensures
        match saved {
            Ok(_) => r.0 == Ok::<(), String>(()) && r.1 == presence,
            Err(e) => r.0 == Err::<(), String>(e) && r.1 == PresenceChange::Unchanged,
        },
{
    match saved {
        Ok(_) => (Ok(()), presence),
        Err(e) => (Err(e), PresenceChange::Unchanged),
    }
}

/// The name under which the client registers itself to start with the session.
pub fn autostart_app_name() -> (n: String)
    ensures
        n@ == "rsStoat"@,
{
    String::from_str("rsStoat")
}

/// Whether to add or remove the autostart entry.
#[derive(Clone, Copy, Debug, PartialEq, Eq, Structural)]
pub enum AutostartChange {
    Enable,
    Disable,
}

/// The change that makes autostart `enabled`.
pub fn autostart_change(enabled: bool) -> (c: AutostartChange)
    ensures
        c == if enabled {
            AutostartChange::Enable
        } else {
            AutostartChange::Disable
        },
{
    if enabled {
        AutostartChange::Enable
    } else {
        AutostartChange::Disable
    }
}

/// What an update check found.
#[derive(Clone, Debug, PartialEq, Eq)]
pub enum UpdateCheck {
    /// The updater could not be set up, for this reason.
    UpdaterUnavailable { reason: String },
    /// A newer version is available.
    Available { current_version: String, version: String },
    /// The installed version is the newest.
    UpToDate,
    /// The check failed, for this reason.
    Failed { reason: String },
}

/// The answer to an update check: a message on success, an error message
/// when the updater is missing or the check failed.
pub open spec fn spec_update_reply(check: UpdateCheck) -> Result<Seq<char>, Seq<char>> {
    match check {
        UpdateCheck::UpdaterUnavailable { reason } => Err("Updater not available: "@ + reason@),
        UpdateCheck::Available { current_version, version } => Ok(
            "Update available: "@ + current_version@ + " -> "@ + version@,
        ),
        UpdateCheck::UpToDate => Ok("No update available"@),
        UpdateCheck::Failed { reason } => Err("Update check failed: "@ + reason@),
    }
}

/// The answer sent back to the web client for an update check.
pub fn update_reply(check: UpdateCheck) -> (r: Result<String, String>)
    ensures
        match (r, spec_update_reply(check)) {
            (Ok(m), Ok(s)) => m@ == s,
            (Err(m), Err(s)) => m@ == s,
            _ => false,
        },
{
    match check {
        UpdateCheck::UpdaterUnavailable { reason } => {
            let mut m = String::from_str("Updater not available: ");
            m.append(reason.as_str());
            Err(m)
        },
        UpdateCheck::Available { current_version, version } => {
            let mut m = String::from_str("Update available: ");
            m.append(current_version.as_str());
            m.append(" -> ");
            m.append(version.as_str());
            Ok(m)
        },
        UpdateCheck::UpToDate => Ok(String::from_str("No update available")),
        UpdateCheck::Failed { reason } => {
            let mut m = String::from_str("Update check failed: ");
            m.append(reason.as_str());
            Err(m)
        },
    }
}

} // verus!
