//! The HTTP server handle. Binding and serving are I/O and live in the
//! unverified shell; the handle itself carries no state.
use vstd::prelude::*;

verus! {

/// Handle under which the shell runs the HTTP listener.
#[derive(Debug)]
pub struct Server {}

impl Server {
    pub fn new() -> Server {
        Server {  }
    }
}

} // verus!
