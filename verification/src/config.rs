//! The fixed launch configuration of the supervised backend.
//!
//! The executable, its arguments, the working directory, the readiness
//! delay and the event name are deploy-time constants, not per-call
//! parameters; they are pinned here so that every caller launches the same
//! backend the same way.

use vstd::prelude::*;
use vstd::string::StringExecFns;

verus! {

/// Milliseconds between application initialization and the `ready` event.
pub const READY_DELAY_MS: u64 = 2000;

/// The executable that runs the backend.
pub fn backend_program() -> (r: String)
    ensures
        r@ == "python"@,
{
    String::from_str("python")
}

/// The fixed argument list: the backend's entry script, its serve command,
/// and the local bind address.
pub fn backend_arguments() -> (r: Vec<String>)
    ensures
        r@.len() == 3,
        r@[0]@ == "manage.py"@,
        r@[1]@ == "runserver"@,
        r@[2]@ == "127.0.0.1:8000"@,
{
    let mut args: Vec<String> = Vec::new();
    args.push(String::from_str("manage.py"));
    args.push(String::from_str("runserver"));
    args.push(String::from_str("127.0.0.1:8000"));
    args
}

/// The working directory the backend is launched in: the backend project
/// root, relative to the application.
pub fn backend_working_dir() -> (r: String)
    ensures
        r@ == "../profit"@,
{
    String::from_str("../profit")
}

/// The name of the application-wide readiness event.
pub fn ready_event_name() -> (r: String)
    ensures
        r@ == "ready"@,
{
    String::from_str("ready")
}

} // verus!
