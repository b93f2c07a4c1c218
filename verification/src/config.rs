//! The persisted configuration record the supervisor reads. The file itself
//! is owned by an external collaborator; this is the plain in-memory form,
//! with unknown extension entries carried through as raw text.

use vstd::prelude::*;
use vstd::string::*;

verus! {

/// The recognized keys of the persisted configuration. Absence of the file is
/// treated as all-defaults, so every field is optional.
pub struct Config {
    pub anthropic_key: Option<String>,
    pub project_root: Option<String>,
    pub tunnel_url: Option<String>,
    pub auth_token: Option<String>,
    pub mode: Option<String>,
    pub deployed: Option<bool>,
    pub deployed_url: Option<String>,
    pub cloudflare_account_id: Option<String>,
    /// Unknown entries, preserved as raw text so they are never dropped.
    pub extensions: Vec<String>,
}

impl Default for Config {
    /// The all-defaults configuration: every key absent.
    fn default() -> (c: Config)
        ensures
            c.anthropic_key is None,
            c.project_root is None,
            c.tunnel_url is None,
            c.auth_token is None,
            c.mode is None,
            c.deployed is None,
            c.deployed_url is None,
            c.cloudflare_account_id is None,
            c.extensions@.len() == 0,
    {
        Config {
            anthropic_key: None,
            project_root: None,
            tunnel_url: None,
            auth_token: None,
            mode: None,
            deployed: None,
            deployed_url: None,
            cloudflare_account_id: None,
            extensions: Vec::new(),
        }
    }
}

/// The path of the persisted configuration file under the given home
/// directory.
pub fn config_path(home: &str) -> (r: String)
    ensures
        r@ == home@ + "/Library/Application Support/system/config.json"@,
{
    let mut out = home.to_owned();
    out.append("/Library/Application Support/system/config.json");
    out
}

} // verus!
