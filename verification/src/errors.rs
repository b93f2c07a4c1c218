//! The error taxonomy of the supervision core, and the descriptive message
//! each error is surfaced with.

use vstd::prelude::*;
use vstd::string::*;
use crate::role::Role;

verus! {

/// Joins a list of strings, placing the separator between elements.
pub open spec fn spec_joined(items: Seq<Seq<char>>, sep: Seq<char>) -> Seq<char>
    decreases items.len(),
{
    if items.len() == 0 {
        Seq::empty()
    } else if items.len() == 1 {
        items[0]
    } else {
        spec_joined(items.drop_last(), sep) + sep + items.last()
    }
}

/// Joins the strings of `items` with `sep` between them.
pub fn join_strings(items: &Vec<String>, sep: &str) -> (r: String)
    ensures
        r@ == spec_joined(items@.map_values(|s: String| s@), sep@),
{
    let mut out = String::new();
    let mut i: usize = 0;
    while i < items.len()
        invariant
            0 <= i <= items@.len(),
            out@ == spec_joined(items@.map_values(|s: String| s@).take(i as int), sep@),
        decreases items@.len() - i,
    {
        if i > 0 {
            out.append(sep);
        }
        out.append(items[i].as_str());
        proof {
            let vs = items@.map_values(|s: String| s@);
            if i == 0 {
                assert(out@ =~= spec_joined(vs.take(i + 1), sep@));
            } else {
                assert(vs.take(i + 1).drop_last() =~= vs.take(i as int));
                assert(out@ =~= spec_joined(vs.take(i + 1), sep@));
            }
        }
        i += 1;
    }
    proof {
        let vs = items@.map_values(|s: String| s@);
        assert(vs.take(items@.len() as int) =~= vs);
    }
    out
}

/// Everything that can go wrong in the supervision and deployment core.
#[derive(Debug)]
pub enum SupError {
    /// No candidate directory held the expected marker subdirectory; carries
    /// every location that was attempted.
    ProjectNotFound { attempted: Vec<String> },
    /// A discovery session was requested while the tunnel process is live.
    AlreadyRunning,
    /// The OS could not create the process; carries the role, the attempted
    /// command line, and the OS error text.
    SpawnFailed { role: Role, command: String, detail: String },
    /// No URL was observed on the tunnel's diagnostic stream within the
    /// fixed window.
    DiscoveryTimeout,
    /// The install or deploy tool exited non-zero; carries the step name and
    /// the combined captured output.
    ToolFailure { step: String, output: String },
    /// The deploy tool succeeded but its output named no recognizable
    /// endpoint URL.
    EndpointNotFound,
}

/// The descriptive message each error is surfaced with.
pub open spec fn spec_message(e: SupError) -> Seq<char> {
    match e {
        SupError::ProjectNotFound { attempted } => "Could not find the project root; attempted: "@
            + spec_joined(attempted@.map_values(|s: String| s@), ", "@),
        SupError::AlreadyRunning => "Tunnel already running"@,
        SupError::SpawnFailed { role, command, detail } => "Failed to start "@ + role.spec_name()
            + " ("@ + command@ + "): "@ + detail@,
        SupError::DiscoveryTimeout => "Timeout waiting for tunnel URL"@,
        SupError::ToolFailure { step, output } => step@ + " failed: "@ + output@,
        SupError::EndpointNotFound => "Deploy succeeded but no endpoint URL was found in the output"@,
    }
}

impl SupError {
    /// The message this error is surfaced with.
    pub fn message(&self) -> (r: String)
        ensures
            r@ == spec_message(*self),
    {
        match self {
            SupError::ProjectNotFound { attempted } => {
                let mut out = "Could not find the project root; attempted: ".to_owned();
                let joined = join_strings(attempted, ", ");
                out.append(joined.as_str());
                out
            },
            SupError::AlreadyRunning => "Tunnel already running".to_owned(),
            SupError::SpawnFailed { role, command, detail } => {
                let mut out = "Failed to start ".to_owned();
                let name = role.name();
                out.append(name.as_str());
                out.append(" (");
                out.append(command.as_str());
                out.append("): ");
                out.append(detail.as_str());
                out
            },
            SupError::DiscoveryTimeout => "Timeout waiting for tunnel URL".to_owned(),
            SupError::ToolFailure { step, output } => {
                let mut out = step.clone();
                out.append(" failed: ");
                out.append(output.as_str());
                out
            },
            SupError::EndpointNotFound => "Deploy succeeded but no endpoint URL was found in the output".to_owned(),
        }
    }
}

} // verus!
