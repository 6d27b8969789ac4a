//! Startup configuration records.
//!
//! The configuration source itself (a directory of files, an environment
//! lookup) is an external collaborator: the host program reads it and hands
//! each record to the registry builder as a plain `ConfigRecord`.

use vstd::prelude::*;

verus! {

/// One startup record: a TCP port to listen on and the command line to
/// launch for each connection accepted on that port.
#[derive(Debug, Clone)]
pub struct ConfigRecord {
    pub port: u16,
    pub command: String,
}

impl ConfigRecord {
    /// A record is valid when the port lies in 1..=65535 and the command
    /// line is non-empty.
    pub open spec fn valid(self) -> bool {
        &&& 1 <= self.port
        &&& self.command@.len() > 0
    }

    /// Decides validity of this record.
    pub fn is_valid(&self) -> (r: bool)
        ensures
            r == self.valid(),
    {
        self.port >= 1 && !self.command.as_str().is_empty()
    }
}

} // verus!
