//! The three supervised process roles and the fixed command line each one is
//! started with.

use vstd::prelude::*;
use vstd::string::*;

verus! {

/// A supervised process slot: the local development server, the HTTP bridge,
/// or the public tunnel.
#[derive(Clone, Copy, PartialEq, Eq, Structural, Debug)]
pub enum Role {
    LocalServer,
    Bridge,
    Tunnel,
}

impl Role {
    /// The short name of the role, as used in error messages.
    pub fn name(&self) -> (r: String)
        ensures
            r@ == self.spec_name(),
    {
        match self {
            Role::LocalServer => "local-server".to_owned(),
            Role::Bridge => "bridge".to_owned(),
            Role::Tunnel => "tunnel".to_owned(),
        }
    }

    pub open spec fn spec_name(self) -> Seq<char> {
        match self {
            Role::LocalServer => "local-server"@,
            Role::Bridge => "bridge"@,
            Role::Tunnel => "tunnel"@,
        }
    }

    /// The exact program-and-arguments vector the role's process is spawned
    /// with: program first, then its arguments in order.
    pub open spec fn spec_command(self) -> Seq<Seq<char>> {
        match self {
            Role::LocalServer => seq!["npx"@, "wrangler"@, "dev"@, "--port"@, "8787"@],
            Role::Bridge => seq!["node"@, "dist/bridge/http-server.js"@],
            Role::Tunnel => seq!["cloudflared"@, "tunnel"@, "--url"@, "http://localhost:8787"@],
        }
    }

    /// Builds the command line for the role.
    pub fn command(&self) -> (r: Vec<String>)
        ensures
            r@.map_values(|s: String| s@) == self.spec_command(),
    {
        let mut v: Vec<String> = Vec::new();
        match self {
            Role::LocalServer => {
                v.push("npx".to_owned());
                v.push("wrangler".to_owned());
                v.push("dev".to_owned());
                v.push("--port".to_owned());
                v.push("8787".to_owned());
            },
            Role::Bridge => {
                v.push("node".to_owned());
                v.push("dist/bridge/http-server.js".to_owned());
            },
            Role::Tunnel => {
                v.push("cloudflared".to_owned());
                v.push("tunnel".to_owned());
                v.push("--url".to_owned());
                v.push("http://localhost:8787".to_owned());
            },
        }
        proof {
            assert(v@.map_values(|s: String| s@) =~= self.spec_command());
        }
        v
    }
}

} // verus!
