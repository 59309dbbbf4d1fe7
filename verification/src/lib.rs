//! Provisioning, configuring, readying and tearing down ephemeral containers
//! for integration tests.
//!
//! The crate centres on three verified pieces: the configuration / request
//! data model (ports, mounts, hosts, healthchecks, wait strategies), the
//! readiness wait-strategy engine, and the container lifecycle state machine.
//! Talking to an actual container runtime is I/O and stays outside: the
//! library decides, a driver performs, and the outcome of every runtime call
//! is handed back to the library as a plain value.

use vstd::prelude::*;

pub mod buildable_image;
pub mod cgroupns;
pub mod copy_source;
pub mod digits;
pub mod engine;
pub mod errors;
pub mod exec;
pub mod healthcheck;
pub mod host;
pub mod image;
pub mod ip4;
pub mod ip6;
pub mod ipaddr;
pub mod iptext;
pub mod kv;
pub mod lifecycle;
pub mod mount;
pub mod path;
pub mod port;
pub mod request;
pub mod url_host;
pub mod wait;

verus! {

/// Version of this library.
pub fn version() -> (r: String)
    ensures
        r@ == "0.1.0"@,
{
    String::from_str("0.1.0")
}

} // verus!
