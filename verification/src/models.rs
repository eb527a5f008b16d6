//! The payload shapes of the serving layer: what a request body carries in
//! and what a reply carries out. The boundary turns these into and out of
//! their wire form; the controller only ever sees the plain strings inside.

use vstd::prelude::*;

verus! {

/// One inbound request payload: a single command string.
pub struct Command {
    pub command: String,
}

/// One outbound success payload: the framed subprocess output.
pub struct SubProcOutput {
    pub msg: String,
}

} // verus!
