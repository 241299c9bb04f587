pub mod codec;
pub mod commands;
pub mod launcher;
pub mod opts;
pub mod scan;
pub mod server_core;
pub mod text;
pub mod ticker;

use vstd::prelude::*;

verus! {

/// A plain error value carrying a human-readable message.
#[derive(Debug)]
pub struct Error {
    pub message: String,
}

impl Error {
    pub fn new(message: &str) -> (r: Error)
        ensures
            r.message@ == message@,
    {
        Error { message: message.to_owned() }
    }
}

} // verus!
