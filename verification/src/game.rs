//! Plain data types of the surrounding application shell.
//!
//! These carry user identity, per-subsystem settings and session state
//! between the shell's collaborators; the shell itself (windowing, audio,
//! rendering) lives outside this crate and only stores and forwards these
//! values.

use vstd::prelude::*;
use vstd::string::StringExecFns;

verus! {

/// Per-subsystem settings that can be persisted and restored.
pub trait SettingsTrait: Default {

}

/// A user of the application.
pub struct User {
    pub id: String,
    pub name: String,
}

/// Relies on `whoami::username`: the login name of the calling user, where
/// the platform reports one. The result depends on the environment, so
/// nothing is promised of it.
#[verifier::external_body]
fn username() -> (r: Option<String>) {
    whoami::username().ok()
}

impl Default for User {
    /// The default user: the reserved identifier, named after the login
    /// name where the platform reports one.
    fn default() -> (r: Self)
        ensures
            r.id@ == "default"@,
    {
        let name = match username() {
            Some(n) => n,
            None => "user".to_owned(),
        };
        User { id: "default".to_owned(), name }
    }
}

/// Signals that the shell's event loop understands.
pub enum Signals {
    Exit,
}

/// Settings of the renderer subsystem.
pub struct InitSettings {
}

impl Default for InitSettings {
    fn default() -> (r: Self)
        ensures
            r == (InitSettings {  }),
    {
        InitSettings {  }
    }
}

impl SettingsTrait for InitSettings {

}

/// Settings of the main interface.
pub struct MainUISettings {
    /// Whether the dark theme is forced; the platform decides where unset.
    pub dark_mode: Option<bool>,
}

impl Default for MainUISettings {
    fn default() -> (r: Self)
        ensures
            r.dark_mode is None,
    {
        MainUISettings { dark_mode: None }
    }
}

impl SettingsTrait for MainUISettings {

}

/// One participant of a session.
pub struct Player {
}

/// The state of a running session.
pub struct GameState {
}

} // verus!
