//! The container lifecycle: from a request through create, launch and the
//! wait-strategy engine to a running handle, and later stop and removal.
//!
//! Every runtime call is performed by a driver outside the library; its
//! outcome comes back here as a plain value, and this module decides what
//! it means: which state follows, which typed error surfaces, and what
//! cleanup the driver owes. On any failure during start the leftover
//! container id, if one was created, is named explicitly so that the
//! caller never has to guess what to clean up.

use vstd::prelude::*;
use crate::engine::WaitEngine;
use crate::engine::spec_run_outcome;
use crate::errors::Error;
use crate::exec::RsExecCommand;
use crate::exec::RsSyncExecResult;
use crate::image::RsGenericImage;
use crate::ipaddr::RsIpAddr;
use crate::port::RsContainerPort;
use crate::request::RsContainerRequest;
use crate::request::rs_container_request_from_image;
use crate::request::spec_fresh_model;
use crate::url_host::RsUrlHost;
use crate::wait::RsWaitFor;
use crate::wait::WaitObservation;
use crate::wait::resolve_ready_conditions;
use crate::wait::spec_resolve_one;

verus! {

/// How a runtime call went, as the driver reports it.
#[derive(Clone, Copy, Debug, PartialEq, Eq, Structural)]
pub enum RuntimeCallError {
    /// The runtime answered and said no.
    Refused,
    /// The runtime could not be reached at all.
    Unreachable,
}

/// Which address family a host-side binding serves.
#[derive(Clone, Copy, Debug, PartialEq, Eq, Structural)]
pub enum IpFamily {
    V4,
    V6,
}

/// One runtime-assigned host-side binding for a declared container port.
#[derive(Clone, Copy, Debug, PartialEq, Eq, Structural)]
pub struct PortBinding {
    pub port: RsContainerPort,
    pub family: IpFamily,
    pub host_port: u16,
}

/// Where a container stands in its lifecycle.
#[derive(Clone, Copy, Debug, PartialEq, Eq, Structural)]
pub enum LifecycleState {
    Created,
    Running,
    Stopped,
    Removed,
    Failed,
}

/// A live container: the runtime identity and what was recorded about it
/// when it became ready. Port and address queries are answered from the
/// recorded facts and are therefore stable for the handle's lifetime.
#[derive(Debug)]
pub struct RsContainer {
    pub id: String,
    pub image: RsGenericImage,
    pub state: LifecycleState,
    pub bindings: Vec<PortBinding>,
    /// The container's bridge-network address, when it has one.
    pub bridge_ip: Option<RsIpAddr>,
    /// The address under which the host reaches the container.
    pub host: Option<RsUrlHost>,
}

/// Everything the driver observed while starting one container.
#[derive(Debug)]
pub struct StartReport {
    /// The clock when the container was launched.
    pub start_ns: u64,
    /// The id the runtime assigned, or how the create call failed.
    pub create: Result<String, RuntimeCallError>,
    pub launch: Result<(), RuntimeCallError>,
    pub bindings: Vec<PortBinding>,
    pub bridge_ip: Option<RsIpAddr>,
    pub host: Option<RsUrlHost>,
    /// One snapshot per poll of the wait engine, in order.
    pub observations: Vec<WaitObservation>,
    /// The test-process environment, for environment-variable delays.
    pub env: Vec<(String, String)>,
}

/// A failed start: the typed error, and the id of the container the
/// driver must still remove, when one was created.
#[derive(Debug)]
pub struct StartFailure {
    pub error: Error,
    pub leftover: Option<String>,
}

/// The shared deadline a run starting at `start_ns` works against.
pub open spec fn spec_deadline(start_ns: u64, timeout_ns: u64) -> u64 {
    if start_ns + timeout_ns <= u64::MAX {
        (start_ns + timeout_ns) as u64
    } else {
        u64::MAX
    }
}

/// Every reported binding names a real (non-zero) host port.
pub open spec fn spec_bindings_ok(bindings: Seq<PortBinding>) -> bool {
    forall|i: int| 0 <= i < bindings.len() ==> (#[trigger] bindings[i]).host_port != 0
}

/// The recorded bindings answer every port the request declared: each
/// exposed port resolves to some IPv4 host port, and each fixed mapping
/// resolves to exactly the host port it asked for.
pub open spec fn spec_bindings_cover(
    bindings: Seq<PortBinding>,
    exposed: Seq<RsContainerPort>,
    mapped: Seq<(u16, RsContainerPort)>,
) -> bool {
    &&& forall|i: int|
        0 <= i < exposed.len() ==> spec_host_port(bindings, #[trigger] exposed[i], IpFamily::V4)
            is Some
    &&& forall|i: int|
        0 <= i < mapped.len() ==> spec_host_port(bindings, (#[trigger] mapped[i]).1, IpFamily::V4)
            == Some(mapped[i].0)
}

/// What starting a container with the given ready conditions, fixed port
/// mappings and timeout must yield for the given report.
pub open spec fn spec_start_post(
    image: RsGenericImage,
    conditions: Seq<RsWaitFor>,
    timeout_ns: u64,
    mapped: Seq<(u16, RsContainerPort)>,
    report: StartReport,
    r: Result<RsContainer, StartFailure>,
) -> bool {
    let resolved = conditions.map(|i: int, w: RsWaitFor| spec_resolve_one(w, report.env@));
    let deadline = spec_deadline(report.start_ns, timeout_ns);
    match report.create {
        Err(RuntimeCallError::Unreachable) => r matches Err(f) && f.error
            == Error::RuntimeUnavailable && f.leftover is None,
        Err(RuntimeCallError::Refused) => r matches Err(f) && f.error
            == Error::ContainerCreateFailed && f.leftover is None,
        Ok(id) => match report.launch {
            Err(RuntimeCallError::Unreachable) => r matches Err(f) && f.error
                == Error::RuntimeUnavailable && f.leftover == Some(id),
            Err(RuntimeCallError::Refused) => r matches Err(f) && f.error
                == Error::ContainerStartFailed && f.leftover == Some(id),
            Ok(()) => if !spec_bindings_ok(report.bindings@) || !spec_bindings_cover(
                report.bindings@,
                image.exposed_ports@,
                mapped,
            ) {
                r matches Err(f) && f.error == Error::ContainerCreateFailed && f.leftover == Some(
                    id,
                )
            } else {
                match spec_run_outcome(
                    resolved,
                    0,
                    report.start_ns,
                    deadline,
                    report.observations@,
                ) {
                    Ok(()) => r matches Ok(c) && c.id == id && c.image == image && c.state
                        == LifecycleState::Running && c.bindings == report.bindings && c.bridge_ip
                        == report.bridge_ip && c.host == report.host && c.wf()
                        && spec_bindings_cover(c.bindings@, image.exposed_ports@, mapped),
                    Err(e) => r matches Err(f) && f.error == e && f.leftover == Some(id),
                }
            },
        },
    }
}

/// A handle is only ever handed out running: whatever the report held,
/// when a start yields a container at all, every gate passed — created,
/// launched, usable bindings, every ready condition — and the handle is
/// in the running state with only real host ports recorded.
pub proof fn lemma_start_yields_running(
    image: RsGenericImage,
    conditions: Seq<RsWaitFor>,
    timeout_ns: u64,
    mapped: Seq<(u16, RsContainerPort)>,
    report: StartReport,
    r: Result<RsContainer, StartFailure>,
)
    requires
        spec_start_post(image, conditions, timeout_ns, mapped, report, r),
    ensures
        r matches Ok(c) ==> c.state == LifecycleState::Running && c.wf() && report.create
            == Ok::<String, RuntimeCallError>(c.id),
{
}

/// A successful start answers every declared port: each exposed port of
/// the image resolves to a non-zero IPv4 host port, and each fixed
/// mapping resolves to exactly the host port it asked for, from the
/// handle's recorded bindings — so repeated queries agree for the
/// handle's whole lifetime.
pub proof fn lemma_start_covers_declared_ports(
    image: RsGenericImage,
    conditions: Seq<RsWaitFor>,
    timeout_ns: u64,
    mapped: Seq<(u16, RsContainerPort)>,
    report: StartReport,
    r: Result<RsContainer, StartFailure>,
)
    requires
        spec_start_post(image, conditions, timeout_ns, mapped, report, r),
    ensures
        r matches Ok(c) ==> forall|i: int|
            0 <= i < image.exposed_ports@.len() ==> spec_host_port(
                c.bindings@,
                #[trigger] image.exposed_ports@[i],
                IpFamily::V4,
            ) is Some && spec_host_port(
                c.bindings@,
                image.exposed_ports@[i],
                IpFamily::V4,
            ).unwrap() != 0,
        r matches Ok(c) ==> forall|i: int|
            0 <= i < mapped.len() ==> spec_host_port(
                c.bindings@,
                (#[trigger] mapped[i]).1,
                IpFamily::V4,
            ) == Some(mapped[i].0),
{
    match r {
        Ok(c) => {
            assert forall|i: int| 0 <= i < image.exposed_ports@.len() implies spec_host_port(
                c.bindings@,
                #[trigger] image.exposed_ports@[i],
                IpFamily::V4,
            ) is Some && spec_host_port(
                c.bindings@,
                image.exposed_ports@[i],
                IpFamily::V4,
            ).unwrap() != 0 by {
                lemma_published_port_nonzero(c.bindings@, image.exposed_ports@[i], IpFamily::V4);
            }
        },
        Err(_) => {},
    }
}

fn bindings_all_nonzero(bindings: &Vec<PortBinding>) -> (r: bool)
    ensures
        r == spec_bindings_ok(bindings@),
{
    let n = bindings.len();
    let mut i: usize = 0;
    while i < n
        invariant
            i <= n,
            n == bindings@.len(),
            forall|j: int| 0 <= j < i ==> (#[trigger] bindings@[j]).host_port != 0,
        decreases n - i,
    {
        if bindings[i].host_port == 0 {
            return false;
        }
        i += 1;
    }
    true
}

/// The host port recorded for the given container port and family, if any.
fn host_port_in(bindings: &Vec<PortBinding>, port: RsContainerPort, family: IpFamily) -> (r:
    Option<u16>)
    ensures
        r == spec_host_port(bindings@, port, family),
{
    let n = bindings.len();
    let mut i: usize = 0;
    proof {
        assert(bindings@.skip(0) =~= bindings@);
    }
    while i < n
        invariant
            i <= n,
            n == bindings@.len(),
            spec_host_port(bindings@, port, family) == spec_host_port(
                bindings@.skip(i as int),
                port,
                family,
            ),
        decreases n - i,
    {
        proof {
            assert(bindings@.skip(i as int)[0] == bindings@[i as int]);
            assert(bindings@.skip(i as int).drop_first() =~= bindings@.skip(i + 1));
        }
        let b = bindings[i];
        if b.port == port && b.family == family {
            return Some(b.host_port);
        }
        i += 1;
    }
    proof {
        assert(bindings@.skip(n as int) =~= Seq::<PortBinding>::empty());
    }
    None
}

fn bindings_cover(
    bindings: &Vec<PortBinding>,
    exposed: &Vec<RsContainerPort>,
    mapped: &Vec<(u16, RsContainerPort)>,
) -> (r: bool)
    ensures
        r == spec_bindings_cover(bindings@, exposed@, mapped@),
{
    let n = exposed.len();
    let mut i: usize = 0;
    while i < n
        invariant
            i <= n,
            n == exposed@.len(),
            forall|j: int|
                0 <= j < i ==> spec_host_port(bindings@, #[trigger] exposed@[j], IpFamily::V4)
                    is Some,
        decreases n - i,
    {
        if host_port_in(bindings, exposed[i], IpFamily::V4).is_none() {
            return false;
        }
        i += 1;
    }
    let m = mapped.len();
    let mut k: usize = 0;
    while k < m
        invariant
            k <= m,
            m == mapped@.len(),
            forall|j: int|
                0 <= j < exposed@.len() ==> spec_host_port(
                    bindings@,
                    #[trigger] exposed@[j],
                    IpFamily::V4,
                ) is Some,
            forall|j: int|
                0 <= j < k ==> spec_host_port(bindings@, (#[trigger] mapped@[j]).1, IpFamily::V4)
                    == Some(mapped@[j].0),
        decreases m - k,
    {
        let wanted = mapped[k].0;
        let found = host_port_in(bindings, mapped[k].1, IpFamily::V4);
        let ok = match found {
            Some(p) => p == wanted,
            None => false,
        };
        if !ok {
            return false;
        }
        k += 1;
    }
    true
}

/// Drives a request through create, launch and the wait-strategy engine.
///
/// The container is running exactly when the runtime created and launched
/// it, reported usable bindings covering every declared port, and every
/// ready condition passed within the shared deadline. On any failure
/// after creation the returned failure names the leftover container id
/// for best-effort cleanup.
pub fn rs_container_request_start(
    container_request: RsContainerRequest,
    report: StartReport,
) -> (r: Result<RsContainer, StartFailure>)
    ensures
        spec_start_post(
            container_request.image,
            container_request.spec_ready_conditions(),
            container_request.spec_effective_timeout_ns(),
            container_request.mapped_ports@,
            report,
            r,
        ),
{
    let ghost conditions = container_request.spec_ready_conditions();
    let ghost env = report.env@;
    let timeout_ns = container_request.effective_timeout_ns();
    let id = match report.create {
        Ok(id) => id,
        Err(RuntimeCallError::Unreachable) => {
            return Err(StartFailure { error: Error::RuntimeUnavailable, leftover: None });
        },
        Err(RuntimeCallError::Refused) => {
            return Err(StartFailure { error: Error::ContainerCreateFailed, leftover: None });
        },
    };
    match report.launch {
        Ok(()) => {},
        Err(RuntimeCallError::Unreachable) => {
            return Err(StartFailure { error: Error::RuntimeUnavailable, leftover: Some(id) });
        },
        Err(RuntimeCallError::Refused) => {
            return Err(StartFailure { error: Error::ContainerStartFailed, leftover: Some(id) });
        },
    }
    if !bindings_all_nonzero(&report.bindings) || !bindings_cover(
        &report.bindings,
        &container_request.image.exposed_ports,
        &container_request.mapped_ports,
    ) {
        return Err(StartFailure { error: Error::ContainerCreateFailed, leftover: Some(id) });
    }
    let base_conditions = container_request.effective_ready_conditions();
    let resolved = resolve_ready_conditions(base_conditions, &report.env);
    proof {
        assert(resolved@ =~= conditions.map(|i: int, w: RsWaitFor| spec_resolve_one(w, env)));
    }
    let mut engine = WaitEngine::new(resolved, report.start_ns, timeout_ns);
    proof {
        assert(engine.deadline_ns == spec_deadline(report.start_ns, timeout_ns));
    }
    match engine.drive(&report.observations) {
        Ok(()) => Ok(
            RsContainer {
                id,
                image: container_request.image,
                state: LifecycleState::Running,
                bindings: report.bindings,
                bridge_ip: report.bridge_ip,
                host: report.host,
            },
        ),
        Err(e) => Err(StartFailure { error: e, leftover: Some(id) }),
    }
}

/// Starting straight from an image runs with the image's own ready
/// conditions and the default startup timeout.
pub fn rs_generic_image_start(image: RsGenericImage, report: StartReport) -> (r: Result<
    RsContainer,
    StartFailure,
>)
    ensures
        spec_start_post(
            image,
            image.ready_conditions@,
            crate::request::DEFAULT_STARTUP_TIMEOUT_NS,
            Seq::<(u16, RsContainerPort)>::empty(),
            report,
            r,
        ),
{
    let request = rs_container_request_from_image(image);
    proof {
        assert(request.spec_ready_conditions() =~= request.image.ready_conditions@);
        assert(request.mapped_ports@ =~= Seq::<(u16, RsContainerPort)>::empty());
    }
    rs_container_request_start(request, report)
}

/// Concludes an image pull: on success the request is unchanged and
/// reusable; on failure it is consumed and a typed error surfaces.
pub fn rs_container_request_pull(
    container_request: RsContainerRequest,
    outcome: Result<(), RuntimeCallError>,
) -> (r: Result<RsContainerRequest, Error>)
    ensures
        match outcome {
            Ok(()) => r matches Ok(q) && q == container_request,
            Err(RuntimeCallError::Refused) => r matches Err(e) && e == Error::ImagePullFailed,
            Err(RuntimeCallError::Unreachable) => r matches Err(e) && e
                == Error::RuntimeUnavailable,
        },
{
    match outcome {
        Ok(()) => Ok(container_request),
        Err(RuntimeCallError::Refused) => Err(Error::ImagePullFailed),
        Err(RuntimeCallError::Unreachable) => Err(Error::RuntimeUnavailable),
    }
}

/// Concludes an image pull requested straight from an image.
pub fn rs_generic_image_pull(
    image: RsGenericImage,
    outcome: Result<(), RuntimeCallError>,
) -> (r: Result<RsContainerRequest, Error>)
    ensures
        match outcome {
            Ok(()) => r matches Ok(q) && q@ == spec_fresh_model(image),
            Err(RuntimeCallError::Refused) => r matches Err(e) && e == Error::ImagePullFailed,
            Err(RuntimeCallError::Unreachable) => r matches Err(e) && e
                == Error::RuntimeUnavailable,
        },
{
    rs_container_request_pull(rs_container_request_from_image(image), outcome)
}

// ---------------------------------------------------------------------------
// The live handle.
// ---------------------------------------------------------------------------

/// The host port bound for the given container port and family, scanning
/// the recorded bindings in order.
pub open spec fn spec_host_port(
    bindings: Seq<PortBinding>,
    port: RsContainerPort,
    family: IpFamily,
) -> Option<u16>
    decreases bindings.len(),
{
    if bindings.len() == 0 {
        None
    } else if bindings[0].port == port && bindings[0].family == family {
        Some(bindings[0].host_port)
    } else {
        spec_host_port(bindings.drop_first(), port, family)
    }
}

/// A recorded binding is never the impossible port zero, so a published
/// port always resolves to a non-zero host port.
pub proof fn lemma_published_port_nonzero(
    bindings: Seq<PortBinding>,
    port: RsContainerPort,
    family: IpFamily,
)
    requires
        spec_bindings_ok(bindings),
    ensures
        spec_host_port(bindings, port, family) matches Some(p) ==> p != 0,
    decreases bindings.len(),
{
    if bindings.len() > 0 {
        lemma_published_port_nonzero(bindings.drop_first(), port, family);
    }
}

impl RsContainer {
    /// Recorded bindings only ever name real host ports.
    pub open spec fn wf(&self) -> bool {
        spec_bindings_ok(self.bindings@)
    }

    pub fn rs_container_id(&self) -> (r: &String)
        ensures
            r == &self.id,
    {
        &self.id
    }

    pub fn rs_container_image(&self) -> (r: &RsGenericImage)
        ensures
            r == &self.image,
    {
        &self.image
    }

    pub fn rs_container_is_running(&self) -> (r: bool)
        ensures
            r == (self.state == LifecycleState::Running),
    {
        matches!(self.state, LifecycleState::Running)
    }

    fn lookup_host_port(&self, port: RsContainerPort, family: IpFamily) -> (r: Result<u16, Error>)
        ensures
            match spec_host_port(self.bindings@, port, family) {
                Some(p) => r == Ok::<u16, Error>(p),
                None => r == Err::<u16, Error>(Error::PortNotPublished),
            },
    {
        match host_port_in(&self.bindings, port, family) {
            Some(p) => Ok(p),
            None => Err(Error::PortNotPublished),
        }
    }

    /// The IPv4 host port bound for a declared container port; fails with
    /// `PortNotPublished` exactly when no such binding was recorded, and
    /// answers identically on every repeated query.
    pub fn rs_container_get_host_port_ipv4(&self, port: RsContainerPort) -> (r: Result<u16, Error>)
        ensures
            match spec_host_port(self.bindings@, port, IpFamily::V4) {
                Some(p) => r == Ok::<u16, Error>(p),
                None => r == Err::<u16, Error>(Error::PortNotPublished),
            },
            self.wf() ==> (r matches Ok(p) ==> p != 0),
    {
        proof {
            if self.wf() {
                lemma_published_port_nonzero(self.bindings@, port, IpFamily::V4);
            }
        }
        self.lookup_host_port(port, IpFamily::V4)
    }

    /// The IPv6 host port bound for a declared container port; fails with
    /// `PortNotPublished` exactly when no such binding was recorded, and
    /// answers identically on every repeated query.
    pub fn rs_container_get_host_port_ipv6(&self, port: RsContainerPort) -> (r: Result<u16, Error>)
        ensures
            match spec_host_port(self.bindings@, port, IpFamily::V6) {
                Some(p) => r == Ok::<u16, Error>(p),
                None => r == Err::<u16, Error>(Error::PortNotPublished),
            },
            self.wf() ==> (r matches Ok(p) ==> p != 0),
    {
        proof {
            if self.wf() {
                lemma_published_port_nonzero(self.bindings@, port, IpFamily::V6);
            }
        }
        self.lookup_host_port(port, IpFamily::V6)
    }

    /// The bridge-network address; fails when the container has no bridge
    /// attachment (for instance under host networking). The taxonomy has
    /// no variant of its own for a missing attachment, so the nearest one
    /// is used: the runtime offers no bridge address for this container.
    pub fn rs_container_get_bridge_ip_address(&self) -> (r: Result<RsIpAddr, Error>)
        ensures
            match self.bridge_ip {
                Some(ip) => r == Ok::<RsIpAddr, Error>(ip),
                None => r == Err::<RsIpAddr, Error>(Error::RuntimeUnavailable),
            },
    {
        match self.bridge_ip {
            Some(ip) => Ok(ip),
            None => Err(Error::RuntimeUnavailable),
        }
    }

    /// The address under which the host reaches the container.
    pub fn rs_container_get_host(&self) -> (r: Result<RsUrlHost, Error>)
        ensures
            match self.host {
                Some(h) => r == Ok::<RsUrlHost, Error>(h),
                None => r == Err::<RsUrlHost, Error>(Error::RuntimeUnavailable),
            },
    {
        match &self.host {
            Some(h) => Ok(h.rs_url_host_clone()),
            None => Err(Error::RuntimeUnavailable),
        }
    }

    /// Applies the outcome of a stop request. Stopping a handle already in
    /// a terminal state is reported as `AlreadyTerminated`, never silently
    /// accepted, so double teardown stays visible.
    pub fn rs_container_stop(&mut self, outcome: Result<(), RuntimeCallError>) -> (r: Result<
        (),
        Error,
    >)
        ensures
            match old(self).state {
                LifecycleState::Created | LifecycleState::Running => match outcome {
                    Ok(()) => r == Ok::<(), Error>(()) && *final(self) == (RsContainer {
                        state: LifecycleState::Stopped,
                        ..*old(self)
                    }),
                    Err(_) => r == Err::<(), Error>(Error::RuntimeUnavailable) && *final(self)
                        == *old(self),
                },
                _ => r == Err::<(), Error>(Error::AlreadyTerminated) && *final(self) == *old(self),
            },
    {
        match self.state {
            LifecycleState::Created | LifecycleState::Running => match outcome {
                Ok(()) => {
                    self.state = LifecycleState::Stopped;
                    Ok(())
                },
                Err(_) => Err(Error::RuntimeUnavailable),
            },
            _ => Err(Error::AlreadyTerminated),
        }
    }

    /// Applies the outcome of launching the container again after a stop.
    pub fn rs_container_start(&mut self, outcome: Result<(), RuntimeCallError>) -> (r: Result<
        (),
        Error,
    >)
        ensures
            match old(self).state {
                LifecycleState::Created | LifecycleState::Running | LifecycleState::Stopped => match outcome {
                    Ok(()) => r == Ok::<(), Error>(()) && *final(self) == (RsContainer {
                        state: LifecycleState::Running,
                        ..*old(self)
                    }),
                    Err(_) => r == Err::<(), Error>(Error::RuntimeUnavailable) && *final(self)
                        == *old(self),
                },
                _ => r == Err::<(), Error>(Error::AlreadyTerminated) && *final(self) == *old(self),
            },
    {
        match self.state {
            LifecycleState::Created | LifecycleState::Running | LifecycleState::Stopped => match outcome {
                Ok(()) => {
                    self.state = LifecycleState::Running;
                    Ok(())
                },
                Err(_) => Err(Error::RuntimeUnavailable),
            },
            _ => Err(Error::AlreadyTerminated),
        }
    }

    /// Runs a command inside the container: the command's nested ready
    /// conditions are evaluated against its own output and exit before the
    /// captured result is final. Fails with `ExecFailed` when the
    /// container is not running.
    pub fn rs_container_exec(&self, cmd: RsExecCommand, report: ExecReport) -> (r: Result<
        RsSyncExecResult,
        Error,
    >)
        ensures
            self.state != LifecycleState::Running ==> r == Err::<RsSyncExecResult, Error>(
                Error::ExecFailed,
            ),
            self.state == LifecycleState::Running ==> match report.outcome {
                Err(RuntimeCallError::Refused) => r == Err::<RsSyncExecResult, Error>(
                    Error::ExecFailed,
                ),
                Err(RuntimeCallError::Unreachable) => r == Err::<RsSyncExecResult, Error>(
                    Error::RuntimeUnavailable,
                ),
                Ok(res) => match spec_run_outcome(
                    cmd.ready_conditions@.map(
                        |i: int, w: RsWaitFor| spec_resolve_one(w, report.env@),
                    ),
                    0,
                    report.start_ns,
                    u64::MAX,
                    report.observations@,
                ) {
                    Ok(()) => r matches Ok(out) && out == res,
                    Err(e) => r matches Err(err) && err == e,
                },
            },
    {
        if !matches!(self.state, LifecycleState::Running) {
            return Err(Error::ExecFailed);
        }
        let res = match report.outcome {
            Ok(res) => res,
            Err(RuntimeCallError::Refused) => {
                return Err(Error::ExecFailed);
            },
            Err(RuntimeCallError::Unreachable) => {
                return Err(Error::RuntimeUnavailable);
            },
        };
        let ghost env = report.env@;
        let resolved = resolve_ready_conditions(cmd.ready_conditions, &report.env);
        proof {
            assert(resolved@ =~= cmd.ready_conditions@.map(
                |i: int, w: RsWaitFor| spec_resolve_one(w, env),
            ));
        }
        let mut engine = WaitEngine::new(resolved, report.start_ns, u64::MAX);
        proof {
            assert(engine.deadline_ns == u64::MAX);
        }
        match engine.drive(&report.observations) {
            Ok(()) => Ok(res),
            Err(e) => Err(e),
        }
    }
}

/// Everything the driver observed while running one command inside the
/// container.
#[derive(Debug)]
pub struct ExecReport {
    /// The clock when the command was started.
    pub start_ns: u64,
    /// The captured result, or how the call failed.
    pub outcome: Result<RsSyncExecResult, RuntimeCallError>,
    /// One snapshot per poll of the nested ready conditions, in order.
    pub observations: Vec<WaitObservation>,
    /// The test-process environment, for environment-variable delays.
    pub env: Vec<(String, String)>,
}

/// Applies the outcome of removing the container, consuming the handle:
/// it is not reusable afterwards. Removing a handle already in a terminal
/// state is reported as `AlreadyTerminated`.
pub fn rs_container_rm(container: RsContainer, outcome: Result<(), RuntimeCallError>) -> (r: Result<
    (),
    Error,
>)
    ensures
        match container.state {
            LifecycleState::Created | LifecycleState::Running | LifecycleState::Stopped => match outcome {
                Ok(()) => r == Ok::<(), Error>(()),
                Err(_) => r == Err::<(), Error>(Error::RuntimeUnavailable),
            },
            _ => r == Err::<(), Error>(Error::AlreadyTerminated),
        },
{
    match container.state {
        LifecycleState::Created | LifecycleState::Running | LifecycleState::Stopped => match outcome {
            Ok(()) => Ok(()),
            Err(_) => Err(Error::RuntimeUnavailable),
        },
        _ => Err(Error::AlreadyTerminated),
    }
}

pub fn rs_container_destroy(container: RsContainer) {
    let _ = container;
}

} // verus!
