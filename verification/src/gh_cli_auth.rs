//! Credentials for the authenticated push that deletes an upstream branch.
//!
//! A companion command-line tool maintains a host-authentication file keyed
//! by host name; the driver locates and reads it and hands over the entry
//! for the targeted host. This module decides where that file lives and
//! what a push authenticates with — in particular that a failed credential
//! lookup falls back to anonymous credentials instead of aborting the push
//! attempt.

use vstd::prelude::*;

verus! {

/// The per-host entry of the host-authentication file: the username and
/// bearer token recorded for the targeted code-hosting remote.
#[derive(Debug)]
pub struct NestedGhCliConfig {
    pub user: String,
    pub oauth_token: String,
}

/// Why no credentials could be produced from the host-authentication file.
#[derive(Clone, Copy, Debug, PartialEq, Eq, Structural)]
pub enum CredentialError {
    /// The file could not be opened.
    OpenFailed,
    /// The file could not be read.
    ReadFailed,
    /// The file could not be parsed, or holds no entry for the host.
    ParseFailed,
}

/// What a push authenticates with: the stored username and token, or the
/// default anonymous credentials when none could be resolved.
pub enum PushCredentials {
    UserPass { user: String, token: String },
    Anonymous,
}

/// Decides what an attempted push authenticates with: resolved credentials
/// are used as they stand, and a credential-lookup failure falls back to
/// the default anonymous credentials — it never aborts the push attempt.
pub fn choose_push_credentials(lookup: Result<NestedGhCliConfig, CredentialError>) -> (c:
    PushCredentials)
    ensures
        lookup matches Ok(cfg) ==> (c matches PushCredentials::UserPass { user, token } && user@
            == cfg.user@ && token@ == cfg.oauth_token@),
        lookup is Err ==> c is Anonymous,
{
    match lookup {
        Ok(cfg) => PushCredentials::UserPass { user: cfg.user, token: cfg.oauth_token },
        Err(_) => PushCredentials::Anonymous,
    }
}

/// The path of the host-authentication file under the given configuration
/// root: `<base>/gh/hosts.yml`.
pub fn gh_config_path_from_base(base: &str) -> (r: String)
    ensures
        r@ == base@ + "/gh/hosts.yml"@,
{
    let mut r = base.to_owned();
    r.append("/gh/hosts.yml");
    r
}

/// Where the host-authentication file lives: under the environment-provided
/// application-data directory on windows, and under the conventional
/// dotfile directory below the user's home directory elsewhere.
pub fn gh_cli_config_path(on_windows: bool, appdata_dir: &str, home_dir: &str) -> (r: String)
    ensures
        on_windows ==> r@ == appdata_dir@ + "/gh/hosts.yml"@,
        !on_windows ==> r@ == home_dir@ + "/.config"@ + "/gh/hosts.yml"@,
{
    if on_windows {
        gh_config_path_from_base(appdata_dir)
    } else {
        let mut base = home_dir.to_owned();
        base.append("/.config");
        gh_config_path_from_base(base.as_str())
    }
}

} // verus!
