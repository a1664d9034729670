//! Configuration data: named input/output stream pairs over file or UDP
//! endpoints. Reading and decoding the configuration document is I/O and
//! lives outside the library; the types and the retention rule live here.

use vstd::prelude::*;

verus! {

/// An endpoint descriptor.
#[derive(Debug, Clone)]
pub enum Type {
    /// A local file named by its path.
    File { path: String },
    /// A UDP endpoint named by address and port.
    Udp { address: String, port: u16 },
}

/// One named input-to-output stream pair.
#[derive(Debug, Clone)]
pub struct Stream {
    pub name: String,
    pub input: Type,
    pub output: Type,
}

/// The whole configuration: a list of stream pairs.
#[derive(Debug, Clone)]
pub struct Config {
    pub stream: Vec<Stream>,
}

/// A successful reload replaces the configuration wholesale; a failed one
/// keeps the previous configuration.
pub fn next_config(current: Config, reloaded: Option<Config>) -> (r: Config)
    ensures
        match reloaded {
            Some(c) => r == c,
            None => r == current,
        },
{
    match reloaded {
        Some(c) => c,
        None => current,
    }
}

} // verus!
