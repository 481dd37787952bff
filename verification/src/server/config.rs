//! Settings of the chat server.

use vstd::prelude::*;

verus! {

/// The settings of the chat server.
#[derive(Debug, Clone)]
pub struct AppConfig {
    pub server: ServerConfig,
    pub auth: AuthConfig,
}

/// Where the server listens, where the database is, and where uploaded files
/// are kept.
#[derive(Debug, Clone)]
pub struct ServerConfig {
    pub host: String,
    pub port: u16,
    pub db_url: String,
    pub base_dir: String,
}

/// The key pair for tokens, each key in PEM.
#[derive(Debug, Clone)]
pub struct AuthConfig {
    pub pk: String,
    pub sk: String,
}

/// Which file holds the settings, or `None` if there is none.
///
/// A path named by the environment comes first; then `first`, if that file
/// is there; then `second`, if that one is.
pub open spec fn settings_file(
    named: Option<Seq<char>>,
    first: Seq<char>,
    first_there: bool,
    second: Seq<char>,
    second_there: bool,
) -> Option<Seq<char>> {
    match named {
        Some(path) => Some(path),
        None => if first_there {
            Some(first)
        } else if second_there {
            Some(second)
        } else {
            None
        },
    }
}

/// The view of an optional owned string.
pub open spec fn path_view(path: Option<String>) -> Option<Seq<char>> {
    match path {
        Some(path) => Some(path@),
        None => None,
    }
}

/// Picks the file that holds the settings.
pub fn pick_settings_file(
    named: Option<String>,
    first: &str,
    first_there: bool,
    second: &str,
    second_there: bool,
) -> (out: Option<String>)
    ensures
        path_view(out) == settings_file(
            path_view(named),
            first@,
            first_there,
            second@,
            second_there,
        ),
{
    match named {
        Some(path) => Some(path),
        None => if first_there {
            Some(first.to_owned())
        } else if second_there {
            Some(second.to_owned())
        } else {
            None
        },
    }
}

impl AppConfig {
    /// Picks the file that holds the settings of the chat server: the one that
    /// `CHAT_CONFIG` names, else `app.yml`, else `app.yaml`.
    pub fn locate(named: Option<String>, yml_there: bool, yaml_there: bool) -> (out: Option<
        String,
    >)
        ensures
            path_view(out) == settings_file(
                path_view(named),
                "app.yml"@,
                yml_there,
                "app.yaml"@,
                yaml_there,
            ),
    {
        pick_settings_file(named, "app.yml", yml_there, "app.yaml", yaml_there)
    }
}

} // verus!
