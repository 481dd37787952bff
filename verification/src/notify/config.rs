//! Settings of the notification server.

use crate::server::config::{path_view, pick_settings_file, settings_file};
use vstd::prelude::*;

verus! {

/// The settings of the notification server.
#[derive(Debug, Clone)]
pub struct NotifyConfig {
    pub server: ServerConfig,
    pub auth: AuthConfig,
}

/// Where the server listens and where the database is.
#[derive(Debug, Clone)]
pub struct ServerConfig {
    pub host: String,
    pub port: u16,
    pub db_url: String,
}

/// The public key that tokens are checked with, in PEM.
#[derive(Debug, Clone)]
pub struct AuthConfig {
    pub pk: String,
}

impl NotifyConfig {
    /// Picks the file that holds the settings of the notification server: the
    /// one that `NOTIFY_CONFIG` names, else `notify.yml`, else `notify.yaml`.
    pub fn locate(named: Option<String>, yml_there: bool, yaml_there: bool) -> (out: Option<
        String,
    >)
        ensures
            path_view(out) == settings_file(
                path_view(named),
                "notify.yml"@,
                yml_there,
                "notify.yaml"@,
                yaml_there,
            ),
    {
        pick_settings_file(named, "notify.yml", yml_there, "notify.yaml", yaml_there)
    }
}

} // verus!
