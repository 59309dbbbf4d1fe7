//! Cgroup namespace policy: share the host's namespace or use a private one.

use vstd::prelude::*;

verus! {

/// Whether the container shares the host's cgroup namespace.
#[derive(Clone, Copy, Debug, PartialEq, Eq, Structural)]
pub enum RsCgroupnsMode {
    Private,
    Host,
}

pub fn rs_cgroupns_mode_private() -> (r: RsCgroupnsMode)
    ensures
        r == RsCgroupnsMode::Private,
{
    RsCgroupnsMode::Private
}

pub fn rs_cgroupns_mode_host() -> (r: RsCgroupnsMode)
    ensures
        r == RsCgroupnsMode::Host,
{
    RsCgroupnsMode::Host
}

pub fn rs_cgroupns_mode_destroy(mode: RsCgroupnsMode) {
    let _ = mode;
}

} // verus!
