//! A generic container image: name, tag, optional entrypoint, declared
//! ports and default ready conditions. Any configuration beyond these
//! turns the image into a container request.

use vstd::prelude::*;
use crate::cgroupns::RsCgroupnsMode;
use crate::copy_source::RsCopyDataSource;
use crate::healthcheck::RsHealthcheck;
use crate::host::RsHost;
use crate::kv;
use crate::mount::RsMount;
use crate::port::RsContainerPort;
use crate::request::RequestModel;
use crate::request::RsContainerRequest;
use crate::request::rs_container_request_from_image;
use crate::request::rs_container_request_with_cap_add;
use crate::request::rs_container_request_with_cap_drop;
use crate::request::rs_container_request_with_cgroupns_mode;
use crate::request::rs_container_request_with_cmd;
use crate::request::rs_container_request_with_container_name;
use crate::request::rs_container_request_with_copy_to;
use crate::request::rs_container_request_with_env_var;
use crate::request::rs_container_request_with_health_check;
use crate::request::rs_container_request_with_host;
use crate::request::rs_container_request_with_hostname;
use crate::request::rs_container_request_with_label;
use crate::request::rs_container_request_with_labels;
use crate::request::rs_container_request_with_mapped_port;
use crate::request::rs_container_request_with_mount;
use crate::request::rs_container_request_with_name;
use crate::request::rs_container_request_with_network;
use crate::request::rs_container_request_with_platform;
use crate::request::rs_container_request_with_privileged;
use crate::request::rs_container_request_with_readonly_rootfs;
use crate::request::rs_container_request_with_ready_conditions;
use crate::request::rs_container_request_with_security_opt;
use crate::request::rs_container_request_with_shm_size;
use crate::request::rs_container_request_with_startup_timeout;
use crate::request::rs_container_request_with_tag;
use crate::request::rs_container_request_with_ulimit;
use crate::request::rs_container_request_with_user;
use crate::request::rs_container_request_with_userns_mode;
use crate::request::rs_container_request_with_working_dir;
use crate::request::spec_fresh_model;
use crate::request::spec_upsert_all;
use crate::request::zip_min;
use crate::wait::RsWaitFor;

verus! {

/// A generic container image.
#[derive(Debug)]
pub struct RsGenericImage {
    pub name: String,
    pub tag: String,
    pub entrypoint: Option<String>,
    /// Ports the image declares as exposed.
    pub exposed_ports: Vec<RsContainerPort>,
    /// Ready conditions the image brings along; they run before any the
    /// request adds.
    pub ready_conditions: Vec<RsWaitFor>,
}

pub fn rs_generic_image_new(name: String, tag: String) -> (r: RsGenericImage)
    ensures
        r.name == name,
        r.tag == tag,
        r.entrypoint is None,
        r.exposed_ports@ == Seq::<RsContainerPort>::empty(),
        r.ready_conditions@ == Seq::<RsWaitFor>::empty(),
{
    let r = RsGenericImage {
        name,
        tag,
        entrypoint: None,
        exposed_ports: Vec::new(),
        ready_conditions: Vec::new(),
    };
    proof {
        assert(r.exposed_ports@ =~= Seq::<RsContainerPort>::empty());
        assert(r.ready_conditions@ =~= Seq::<RsWaitFor>::empty());
    }
    r
}

pub fn rs_generic_image_destroy(image: RsGenericImage) {
    let _ = image;
}

/// Declares one more exposed port.
pub fn rs_generic_image_with_exposed_port(
    image: RsGenericImage,
    port: RsContainerPort,
) -> (r: RsGenericImage)
    ensures
        r.exposed_ports@ == image.exposed_ports@.push(port),
        r.name == image.name,
        r.tag == image.tag,
        r.entrypoint == image.entrypoint,
        r.ready_conditions == image.ready_conditions,
{
    let mut r = image;
    r.exposed_ports.push(port);
    r
}

/// Overwrites the entrypoint.
pub fn rs_generic_image_with_entrypoint(image: RsGenericImage, entrypoint: String) -> (r:
    RsGenericImage)
    ensures
        r == (RsGenericImage { entrypoint: Some(entrypoint), ..image }),
{
    RsGenericImage { entrypoint: Some(entrypoint), ..image }
}

/// Appends one ready condition to those the image brings along.
pub fn rs_generic_image_with_wait_for(image: RsGenericImage, wait_for: RsWaitFor) -> (r:
    RsGenericImage)
    ensures
        r.ready_conditions@ == image.ready_conditions@.push(wait_for),
        r.name == image.name,
        r.tag == image.tag,
        r.entrypoint == image.entrypoint,
        r.exposed_ports == image.exposed_ports,
{
    let mut r = image;
    r.ready_conditions.push(wait_for);
    r
}

impl RsGenericImage {
    pub fn rs_generic_image_name(&self) -> (r: &String)
        ensures
            r == &self.name,
    {
        &self.name
    }

    pub fn rs_generic_image_tag(&self) -> (r: &String)
        ensures
            r == &self.tag,
    {
        &self.tag
    }

    pub fn rs_generic_image_entrypoint_opt(&self) -> (r: Option<String>)
        ensures
            r == self.entrypoint,
    {
        match &self.entrypoint {
            Some(e) => Some(e.clone()),
            None => None,
        }
    }

    pub fn rs_generic_image_expose_ports(&self) -> (r: Vec<RsContainerPort>)
        ensures
            r@ == self.exposed_ports@,
    {
        vstd::slice::slice_to_vec(self.exposed_ports.as_slice())
    }

    pub fn rs_generic_image_ready_conditions(&self) -> (r: Vec<RsWaitFor>)
        ensures
            r@ == self.ready_conditions@,
    {
        let n = self.ready_conditions.len();
        let mut out: Vec<RsWaitFor> = Vec::new();
        let mut i: usize = 0;
        while i < n
            invariant
                i <= n,
                n == self.ready_conditions@.len(),
                out@ =~= self.ready_conditions@.take(i as int),
            decreases n - i,
        {
            out.push(self.ready_conditions[i].rs_wait_for_clone());
            proof {
                assert(out@ =~= self.ready_conditions@.take(i + 1));
            }
            i += 1;
        }
        proof {
            assert(self.ready_conditions@.take(n as int) =~= self.ready_conditions@);
        }
        out
    }
}

// ---------------------------------------------------------------------------
// Configuration calls that turn the image into a container request.
// ---------------------------------------------------------------------------

pub fn rs_generic_image_with_cmd(image: RsGenericImage, cmd: Vec<String>) -> (r:
    RsContainerRequest)
    ensures
        r@ == (RequestModel { cmd: Some(cmd@), ..spec_fresh_model(image) }),
{
    rs_container_request_with_cmd(rs_container_request_from_image(image), cmd)
}

pub fn rs_generic_image_with_name(image: RsGenericImage, name: String) -> (r: RsContainerRequest)
    ensures
        r@ == (RequestModel { name_override: Some(name), ..spec_fresh_model(image) }),
{
    rs_container_request_with_name(rs_container_request_from_image(image), name)
}

pub fn rs_generic_image_with_tag(image: RsGenericImage, tag: String) -> (r: RsContainerRequest)
    ensures
        r@ == (RequestModel { tag_override: Some(tag), ..spec_fresh_model(image) }),
{
    rs_container_request_with_tag(rs_container_request_from_image(image), tag)
}

pub fn rs_generic_image_with_container_name(image: RsGenericImage, name: String) -> (r:
    RsContainerRequest)
    ensures
        r@ == (RequestModel { container_name: Some(name), ..spec_fresh_model(image) }),
{
    rs_container_request_with_container_name(rs_container_request_from_image(image), name)
}

pub fn rs_generic_image_with_platform(image: RsGenericImage, platform: String) -> (r:
    RsContainerRequest)
    ensures
        r@ == (RequestModel { platform: Some(platform), ..spec_fresh_model(image) }),
{
    rs_container_request_with_platform(rs_container_request_from_image(image), platform)
}

pub fn rs_generic_image_with_network(image: RsGenericImage, network: String) -> (r:
    RsContainerRequest)
    ensures
        r@ == (RequestModel { network: Some(network), ..spec_fresh_model(image) }),
{
    rs_container_request_with_network(rs_container_request_from_image(image), network)
}

pub fn rs_generic_image_with_label(image: RsGenericImage, key: String, value: String) -> (r:
    RsContainerRequest)
    ensures
        r@ == (RequestModel { labels: seq![(key, value)], ..spec_fresh_model(image) }),
{
    rs_container_request_with_label(rs_container_request_from_image(image), key, value)
}

pub fn rs_generic_image_with_labels(
    image: RsGenericImage,
    keys: Vec<String>,
    values: Vec<String>,
) -> (r: RsContainerRequest)
    ensures
        r@ == (RequestModel {
            labels: spec_upsert_all(Seq::empty(), zip_min(keys@, values@)),
            ..spec_fresh_model(image)
        }),
{
    rs_container_request_with_labels(rs_container_request_from_image(image), keys, values)
}

pub fn rs_generic_image_with_host(image: RsGenericImage, key: String, value: RsHost) -> (r:
    RsContainerRequest)
    ensures
        r@ == (RequestModel { hosts: seq![(key, value)], ..spec_fresh_model(image) }),
{
    rs_container_request_with_host(rs_container_request_from_image(image), key, value)
}

pub fn rs_generic_image_with_mount(image: RsGenericImage, mount: RsMount) -> (r:
    RsContainerRequest)
    ensures
        r@ == (RequestModel {
            mounts: Seq::<RsMount>::empty().push(mount),
            ..spec_fresh_model(image)
        }),
{
    rs_container_request_with_mount(rs_container_request_from_image(image), mount)
}

pub fn rs_generic_image_with_env_var(image: RsGenericImage, name: String, value: String) -> (r:
    RsContainerRequest)
    ensures
        r@ == (RequestModel { env_vars: seq![(name, value)], ..spec_fresh_model(image) }),
{
    rs_container_request_with_env_var(rs_container_request_from_image(image), name, value)
}

pub fn rs_generic_image_with_hostname(image: RsGenericImage, hostname: String) -> (r:
    RsContainerRequest)
    ensures
        r@ == (RequestModel { hostname: Some(hostname), ..spec_fresh_model(image) }),
{
    rs_container_request_with_hostname(rs_container_request_from_image(image), hostname)
}

pub fn rs_generic_image_with_mapped_port(
    image: RsGenericImage,
    host_port: u16,
    container_port: RsContainerPort,
) -> (r: RsContainerRequest)
    ensures
        r@ == (RequestModel {
            mapped_ports: Seq::<(u16, RsContainerPort)>::empty().push((host_port, container_port)),
            ..spec_fresh_model(image)
        }),
{
    rs_container_request_with_mapped_port(
        rs_container_request_from_image(image),
        host_port,
        container_port,
    )
}

pub fn rs_generic_image_with_privileged(image: RsGenericImage, privileged: bool) -> (r:
    RsContainerRequest)
    ensures
        r@ == (RequestModel { privileged, ..spec_fresh_model(image) }),
{
    rs_container_request_with_privileged(rs_container_request_from_image(image), privileged)
}

pub fn rs_generic_image_with_cap_add(image: RsGenericImage, capability: String) -> (r:
    RsContainerRequest)
    ensures
        r@ == (RequestModel {
            cap_add: Seq::<String>::empty().push(capability),
            ..spec_fresh_model(image)
        }),
{
    rs_container_request_with_cap_add(rs_container_request_from_image(image), capability)
}

pub fn rs_generic_image_with_cap_drop(image: RsGenericImage, capability: String) -> (r:
    RsContainerRequest)
    ensures
        r@ == (RequestModel {
            cap_drop: Seq::<String>::empty().push(capability),
            ..spec_fresh_model(image)
        }),
{
    rs_container_request_with_cap_drop(rs_container_request_from_image(image), capability)
}

pub fn rs_generic_image_with_cgroupns_mode(image: RsGenericImage, mode: RsCgroupnsMode) -> (r:
    RsContainerRequest)
    ensures
        r@ == (RequestModel { cgroupns_mode: Some(mode), ..spec_fresh_model(image) }),
{
    rs_container_request_with_cgroupns_mode(rs_container_request_from_image(image), mode)
}

pub fn rs_generic_image_with_userns_mode(image: RsGenericImage, userns_mode: String) -> (r:
    RsContainerRequest)
    ensures
        r@ == (RequestModel { userns_mode: Some(userns_mode), ..spec_fresh_model(image) }),
{
    rs_container_request_with_userns_mode(rs_container_request_from_image(image), userns_mode)
}

pub fn rs_generic_image_with_shm_size(image: RsGenericImage, bytes: u64) -> (r:
    RsContainerRequest)
    ensures
        r@ == (RequestModel { shm_size: Some(bytes), ..spec_fresh_model(image) }),
{
    rs_container_request_with_shm_size(rs_container_request_from_image(image), bytes)
}

pub fn rs_generic_image_with_startup_timeout(image: RsGenericImage, timeout_ns: u64) -> (r:
    RsContainerRequest)
    ensures
        r@ == (RequestModel { startup_timeout_ns: Some(timeout_ns), ..spec_fresh_model(image) }),
{
    rs_container_request_with_startup_timeout(rs_container_request_from_image(image), timeout_ns)
}

pub fn rs_generic_image_with_working_dir(image: RsGenericImage, working_dir: String) -> (r:
    RsContainerRequest)
    ensures
        r@ == (RequestModel { working_dir: Some(working_dir), ..spec_fresh_model(image) }),
{
    rs_container_request_with_working_dir(rs_container_request_from_image(image), working_dir)
}

pub fn rs_generic_image_with_user(image: RsGenericImage, user: String) -> (r: RsContainerRequest)
    ensures
        r@ == (RequestModel { user: Some(user), ..spec_fresh_model(image) }),
{
    rs_container_request_with_user(rs_container_request_from_image(image), user)
}

pub fn rs_generic_image_with_readonly_rootfs(image: RsGenericImage, readonly_rootfs: bool) -> (r:
    RsContainerRequest)
    ensures
        r@ == (RequestModel { readonly_rootfs, ..spec_fresh_model(image) }),
{
    rs_container_request_with_readonly_rootfs(
        rs_container_request_from_image(image),
        readonly_rootfs,
    )
}

pub fn rs_generic_image_with_security_opt(image: RsGenericImage, security_opt: String) -> (r:
    RsContainerRequest)
    ensures
        r@ == (RequestModel {
            security_opts: Seq::<String>::empty().push(security_opt),
            ..spec_fresh_model(image)
        }),
{
    rs_container_request_with_security_opt(rs_container_request_from_image(image), security_opt)
}

pub fn rs_generic_image_with_ready_conditions(
    image: RsGenericImage,
    ready_conditions: Vec<RsWaitFor>,
) -> (r: RsContainerRequest)
    ensures
        r@ == (RequestModel {
            ready_conditions: Seq::<RsWaitFor>::empty() + ready_conditions@,
            ..spec_fresh_model(image)
        }),
{
    rs_container_request_with_ready_conditions(
        rs_container_request_from_image(image),
        ready_conditions,
    )
}

pub fn rs_generic_image_with_copy_to(
    image: RsGenericImage,
    target: String,
    source: RsCopyDataSource,
) -> (r: RsContainerRequest)
    ensures
        r@ == (RequestModel {
            copy_to_sources: Seq::<(String, RsCopyDataSource)>::empty().push((target, source)),
            ..spec_fresh_model(image)
        }),
{
    rs_container_request_with_copy_to(rs_container_request_from_image(image), target, source)
}

pub fn rs_generic_image_with_ulimit(
    image: RsGenericImage,
    name: String,
    soft: i64,
    hard: Option<i64>,
) -> (r: RsContainerRequest)
    ensures
        r@ == (RequestModel { ulimits: seq![(name, (soft, hard))], ..spec_fresh_model(image) }),
{
    rs_container_request_with_ulimit(rs_container_request_from_image(image), name, soft, hard)
}

pub fn rs_generic_image_with_health_check(image: RsGenericImage, health_check: RsHealthcheck) -> (r:
    RsContainerRequest)
    ensures
        r@ == (RequestModel { health_check: Some(health_check), ..spec_fresh_model(image) }),
{
    rs_container_request_with_health_check(rs_container_request_from_image(image), health_check)
}

} // verus!
