//! Building the launch plan for the backend process.
//!
//! Given the path of the backend's entry script, the supervisor derives
//! the script's directory, the resource root above it, and the module
//! directory inside the root, and assembles the complete command line,
//! environment overrides and working directory with which the process
//! is to be spawned. Spawning itself is left to the caller.

use vstd::prelude::*;
use crate::errors::SupervisorError;
use crate::paths::{last_sep, parent_of, parent_dir, join};

verus! {

/// The loopback host the backend is told to bind to.
pub const DEFAULT_HOST: &'static str = "127.0.0.1";

/// The port the backend is told to listen on.
pub const DEFAULT_PORT: u16 = 3000;

/// The decimal digit character for `d` (`0 <= d <= 9`).
pub open spec fn dec_digit(d: int) -> char {
    if d == 0 {
        '0'
    } else if d == 1 {
        '1'
    } else if d == 2 {
        '2'
    } else if d == 3 {
        '3'
    } else if d == 4 {
        '4'
    } else if d == 5 {
        '5'
    } else if d == 6 {
        '6'
    } else if d == 7 {
        '7'
    } else if d == 8 {
        '8'
    } else {
        '9'
    }
}

/// The decimal rendering of a nonnegative `n`, without leading zeros.
pub open spec fn dec_chars(n: int) -> Seq<char>
    decreases n,
{
    if n < 10 {
        seq![dec_digit(n)]
    } else {
        dec_chars(n / 10).push(dec_digit(n % 10))
    }
}

/// The one-character string for the digit `d`.
fn dec_digit_str(d: u16) -> (r: &'static str)
    requires
        d < 10,
    ensures
        r@ == seq![dec_digit(d as int)],
{
    proof {
        reveal_strlit("0");
        reveal_strlit("1");
        reveal_strlit("2");
        reveal_strlit("3");
        reveal_strlit("4");
        reveal_strlit("5");
        reveal_strlit("6");
        reveal_strlit("7");
        reveal_strlit("8");
        reveal_strlit("9");
    }
    if d == 0 {
        "0"
    } else if d == 1 {
        "1"
    } else if d == 2 {
        "2"
    } else if d == 3 {
        "3"
    } else if d == 4 {
        "4"
    } else if d == 5 {
        "5"
    } else if d == 6 {
        "6"
    } else if d == 7 {
        "7"
    } else if d == 8 {
        "8"
    } else {
        "9"
    }
}

/// Renders `n` in decimal.
pub fn u16_to_dec(n: u16) -> (r: String)
    ensures
        r@ == dec_chars(n as int),
    decreases n,
{
    if n < 10 {
        String::from_str(dec_digit_str(n))
    } else {
        let mut r = u16_to_dec(n / 10);
        r.append(dec_digit_str(n % 10));
        proof {
            assert(r@ =~= dec_chars(n as int));
        }
        r
    }
}

/// The socket address `host:port` that the readiness probe connects to.
pub fn endpoint(host: &str, port: u16) -> (r: String)
    ensures
        r@ == host@ + seq![':'] + dec_chars(port as int),
{
    let mut r = String::from_str(host);
    r.append(":");
    let port_str = u16_to_dec(port);
    r.append(port_str.as_str());
    proof {
        reveal_strlit(":");
        assert((":")@ =~= seq![':']);
        assert(r@ =~= host@ + seq![':'] + dec_chars(port as int));
    }
    r
}

/// Everything needed to spawn the backend: program, arguments,
/// environment overrides and working directory.
pub struct LaunchPlan {
    pub program: String,
    pub args: Vec<String>,
    pub env_overrides: Vec<(String, String)>,
    pub working_dir: String,
}

/// The plan that launches the backend entry script `entry` so that it
/// listens on `host:port`: the interpreter is `node`, the module search
/// path points into the resource root above the script's directory, and
/// the process runs from that root.
pub open spec fn plan_for(plan: LaunchPlan, entry: Seq<char>, host: Seq<char>, port: int) -> bool {
    let root = parent_of(parent_of(entry));
    &&& plan.program@ == "node"@
    &&& plan.args@.len() == 5
    &&& plan.args@[0]@ == entry
    &&& plan.args@[1]@ == "--hostname"@
    &&& plan.args@[2]@ == host
    &&& plan.args@[3]@ == "--port"@
    &&& plan.args@[4]@ == dec_chars(port)
    &&& plan.env_overrides@.len() == 1
    &&& plan.env_overrides@[0].0@ == "NODE_PATH"@
    &&& plan.env_overrides@[0].1@ == root + seq!['/'] + "node_modules"@
    &&& plan.working_dir@ == root
}

/// Builds the launch plan for the backend whose entry script lies at
/// `entry`, to listen on `host:port`.
///
/// The script's directory and the resource root above it are derived
/// from `entry`; when either is missing the corresponding resolution
/// error is returned and nothing is planned.
pub fn build_launch_plan(entry: &str, host: &str, port: u16) -> (r: Result<
    LaunchPlan,
    SupervisorError,
>)
    ensures
        last_sep(entry@) < 0 <==> (r matches Err(e) && e matches SupervisorError::Resolution(m)
            && m@ == "dist directory not found"@),
        (last_sep(entry@) >= 0 && last_sep(parent_of(entry@)) < 0) <==> (r matches Err(e)
            && e matches SupervisorError::Resolution(m) && m@ == "resource root not found"@),
        (last_sep(entry@) >= 0 && last_sep(parent_of(entry@)) >= 0) <==> (r matches Ok(plan)
            && plan_for(plan, entry@, host@, port as int)),
{
    proof {
        reveal_strlit("dist directory not found");
        reveal_strlit("resource root not found");
        assert(("dist directory not found")@.len() == 24);
        assert(("resource root not found")@.len() == 23);
    }
    let entry_dir = match parent_dir(entry) {
        Some(d) => d,
        None => {
            return Err(
                SupervisorError::Resolution(String::from_str("dist directory not found")),
            );
        },
    };
    let root = match parent_dir(entry_dir.as_str()) {
        Some(d) => d,
        None => {
            return Err(
                SupervisorError::Resolution(String::from_str("resource root not found")),
            );
        },
    };
    let node_modules = join(root.as_str(), "node_modules");
    let mut args: Vec<String> = Vec::new();
    args.push(String::from_str(entry));
    args.push(String::from_str("--hostname"));
    args.push(String::from_str(host));
    args.push(String::from_str("--port"));
    args.push(u16_to_dec(port));
    let mut env_overrides: Vec<(String, String)> = Vec::new();
    env_overrides.push((String::from_str("NODE_PATH"), node_modules));
    Ok(
        LaunchPlan {
            program: String::from_str("node"),
            args,
            env_overrides,
            working_dir: root,
        },
    )
}

} // verus!
