//! The error taxonomy of the library.
//!
//! Every fallible operation returns one of these typed errors to its
//! immediate caller; nothing is flattened into text.

use vstd::prelude::*;

verus! {

/// Runtime-reported health of a container, as observed at one poll.
#[derive(Clone, Copy, Debug, PartialEq, Eq, Structural)]
pub enum HealthStatus {
    /// The container has no healthcheck configured.
    NotConfigured,
    /// The healthcheck is still within its start period or has not settled.
    Starting,
    Healthy,
    Unhealthy,
}

/// Why a single wait strategy gave up (as opposed to merely not being ready).
#[derive(Clone, Copy, Debug, PartialEq, Eq, Structural)]
pub enum WaitFailure {
    /// An exit wait strategy observed a code other than the expected one.
    UnexpectedExitCode { code: i64 },
    /// A healthcheck wait strategy observed status `Unhealthy`.
    Unhealthy,
}

/// The last state a wait strategy observed before the engine aborted:
/// how often the message had appeared, the health status, the exit code.
#[derive(Clone, Copy, Debug, PartialEq, Eq, Structural)]
pub struct ObservedWaitState {
    pub log_count: usize,
    pub health: HealthStatus,
    pub exit_code: Option<i64>,
}

/// What went wrong with a configuration value at construction time.
#[derive(Clone, Copy, Debug, PartialEq, Eq, Structural)]
pub enum ConfigIssue {
    /// A host address string did not parse as an IP address.
    MalformedHostAddress,
}

/// The error taxonomy of the library.
#[derive(Clone, Copy, Debug, PartialEq, Eq, Structural)]
pub enum Error {
    /// Malformed configuration input, rejected at construction.
    ConfigurationError { issue: ConfigIssue },
    /// An image build failed; no image or container was created.
    ImageBuildFailed,
    /// An image pull failed; the request is unchanged and reusable.
    ImagePullFailed,
    /// The runtime refused to create the container.
    ContainerCreateFailed,
    /// The runtime refused to launch the created container.
    ContainerStartFailed,
    /// The shared startup deadline elapsed while the strategy at
    /// `strategy_index` (in declaration order) was still undecided.
    WaitTimeout { strategy_index: usize, last: ObservedWaitState },
    /// The strategy at `strategy_index` reported a definite failure.
    WaitStrategyFailed { strategy_index: usize, failure: WaitFailure },
    /// The queried container port was never declared or never bound.
    PortNotPublished,
    /// A conversion between address or host families was applied to the
    /// wrong variant.
    TypeMismatch,
    /// A command could not be run inside the container.
    ExecFailed,
    /// The container runtime could not be reached at all.
    RuntimeUnavailable,
    /// A stop or remove was applied to a handle already in a terminal state.
    AlreadyTerminated,
}

} // verus!
