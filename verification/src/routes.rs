//! The compute parts of the request-handling surface: the greeting endpoint
//! and the decision of the stateless shell endpoint. The routing itself —
//! paths, verbs, wire formats — lives at the serving boundary outside this
//! crate.

use vstd::prelude::*;
use vstd::string::StringExecFns;

use crate::subprocess_control::is_init;

verus! {

/// The greeting endpoint's reply.
pub fn hello(name: String) -> (r: String)
    ensures
        r@ == "Hello, "@ + name@ + "!"@,
{
    let mut reply: String = "Hello, ".to_owned();
    reply.append(name.as_str());
    reply.append("!");
    reply
}

/// The decision of the stateless shell endpoint: the reserved control
/// command is acknowledged with a fixed reply and forwarded nowhere; any
/// other command is the caller's to run, so `None` is returned and the
/// boundary executes it.
pub fn bash(command: &String) -> (r: Option<String>)
    ensures
        command@ == "init"@ ==> (r matches Some(s) && s@ == "ready"@),
        command@ != "init"@ ==> r is None,
{
    if is_init(command) {
        Some("ready".to_owned())
    } else {
        None
    }
}

} // verus!
