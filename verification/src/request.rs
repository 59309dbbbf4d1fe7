//! The container request: the accumulated desired state of one container.
//!
//! A request grows out of an image by configuration calls. Accumulating
//! fields (labels, environment, hosts, mounts, ports, capabilities,
//! ulimits, ready conditions, security options, copied material) append or
//! merge; single-slot fields (name, tag, platform, working directory, user
//! and the like) overwrite, last write wins. Every call consumes the
//! request and returns the new one; nothing is shared or aliased.

use vstd::prelude::*;
use crate::cgroupns::RsCgroupnsMode;
use crate::copy_source::RsCopyDataSource;
use crate::healthcheck::RsHealthcheck;
use crate::host::RsHost;
use crate::image::RsGenericImage;
use crate::kv;
use crate::mount::RsMount;
use crate::port::RsContainerPort;
use crate::wait::RsWaitFor;

verus! {

/// Startup timeout used when a request does not set one.
pub const DEFAULT_STARTUP_TIMEOUT_NS: u64 = 60_000_000_000;

/// The accumulated desired state of one container.
#[derive(Debug)]
pub struct RsContainerRequest {
    pub image: RsGenericImage,
    /// Overrides the image name when set.
    pub name_override: Option<String>,
    /// Overrides the image tag when set.
    pub tag_override: Option<String>,
    pub container_name: Option<String>,
    pub platform: Option<String>,
    pub network: Option<String>,
    /// Overrides the image command when set.
    pub cmd: Option<Vec<String>>,
    pub labels: Vec<(String, String)>,
    pub env_vars: Vec<(String, String)>,
    pub hosts: Vec<(String, RsHost)>,
    pub mounts: Vec<RsMount>,
    pub hostname: Option<String>,
    /// Fixed host-port bindings, each for one declared container port.
    pub mapped_ports: Vec<(u16, RsContainerPort)>,
    pub privileged: bool,
    pub cap_add: Vec<String>,
    pub cap_drop: Vec<String>,
    pub cgroupns_mode: Option<RsCgroupnsMode>,
    pub userns_mode: Option<String>,
    pub shm_size: Option<u64>,
    pub startup_timeout_ns: Option<u64>,
    pub working_dir: Option<String>,
    pub user: Option<String>,
    pub readonly_rootfs: bool,
    pub security_opts: Vec<String>,
    /// Ready conditions added on top of those the image declares.
    pub ready_conditions: Vec<RsWaitFor>,
    pub copy_to_sources: Vec<(String, RsCopyDataSource)>,
    pub ulimits: Vec<(String, (i64, Option<i64>))>,
    pub health_check: Option<RsHealthcheck>,
}

/// The abstract state of a request: every accumulated list as a sequence,
/// every single-slot field as it is.
#[verifier::ext_equal]
pub ghost struct RequestModel {
    pub image: RsGenericImage,
    pub name_override: Option<String>,
    pub tag_override: Option<String>,
    pub container_name: Option<String>,
    pub platform: Option<String>,
    pub network: Option<String>,
    pub cmd: Option<Seq<String>>,
    pub labels: Seq<(String, String)>,
    pub env_vars: Seq<(String, String)>,
    pub hosts: Seq<(String, RsHost)>,
    pub mounts: Seq<RsMount>,
    pub hostname: Option<String>,
    pub mapped_ports: Seq<(u16, RsContainerPort)>,
    pub privileged: bool,
    pub cap_add: Seq<String>,
    pub cap_drop: Seq<String>,
    pub cgroupns_mode: Option<RsCgroupnsMode>,
    pub userns_mode: Option<String>,
    pub shm_size: Option<u64>,
    pub startup_timeout_ns: Option<u64>,
    pub working_dir: Option<String>,
    pub user: Option<String>,
    pub readonly_rootfs: bool,
    pub security_opts: Seq<String>,
    pub ready_conditions: Seq<RsWaitFor>,
    pub copy_to_sources: Seq<(String, RsCopyDataSource)>,
    pub ulimits: Seq<(String, (i64, Option<i64>))>,
    pub health_check: Option<RsHealthcheck>,
}

impl View for RsContainerRequest {
    type V = RequestModel;

    open spec fn view(&self) -> RequestModel {
        RequestModel {
            image: self.image,
            name_override: self.name_override,
            tag_override: self.tag_override,
            container_name: self.container_name,
            platform: self.platform,
            network: self.network,
            cmd: match self.cmd {
                Some(c) => Some(c@),
                None => None,
            },
            labels: self.labels@,
            env_vars: self.env_vars@,
            hosts: self.hosts@,
            mounts: self.mounts@,
            hostname: self.hostname,
            mapped_ports: self.mapped_ports@,
            privileged: self.privileged,
            cap_add: self.cap_add@,
            cap_drop: self.cap_drop@,
            cgroupns_mode: self.cgroupns_mode,
            userns_mode: self.userns_mode,
            shm_size: self.shm_size,
            startup_timeout_ns: self.startup_timeout_ns,
            working_dir: self.working_dir,
            user: self.user,
            readonly_rootfs: self.readonly_rootfs,
            security_opts: self.security_opts@,
            ready_conditions: self.ready_conditions@,
            copy_to_sources: self.copy_to_sources@,
            ulimits: self.ulimits@,
            health_check: self.health_check,
        }
    }
}

/// The state a request has right after it is made from an image: the image
/// itself, and every other field at its default.
pub open spec fn spec_fresh_model(image: RsGenericImage) -> RequestModel {
    RequestModel {
        image,
        name_override: None,
        tag_override: None,
        container_name: None,
        platform: None,
        network: None,
        cmd: None,
        labels: Seq::empty(),
        env_vars: Seq::empty(),
        hosts: Seq::empty(),
        mounts: Seq::empty(),
        hostname: None,
        mapped_ports: Seq::empty(),
        privileged: false,
        cap_add: Seq::empty(),
        cap_drop: Seq::empty(),
        cgroupns_mode: None,
        userns_mode: None,
        shm_size: None,
        startup_timeout_ns: None,
        working_dir: None,
        user: None,
        readonly_rootfs: false,
        security_opts: Seq::empty(),
        ready_conditions: Seq::empty(),
        copy_to_sources: Seq::empty(),
        ulimits: Seq::empty(),
        health_check: None,
    }
}

impl RsContainerRequest {
    /// The image name the request will run under.
    pub open spec fn spec_effective_name(&self) -> Seq<char> {
        match self.name_override {
            Some(n) => n@,
            None => self.image.name@,
        }
    }

    /// The image tag the request will run under.
    pub open spec fn spec_effective_tag(&self) -> Seq<char> {
        match self.tag_override {
            Some(t) => t@,
            None => self.image.tag@,
        }
    }

    /// The startup timeout the engine will run under.
    pub open spec fn spec_effective_timeout_ns(&self) -> u64 {
        match self.startup_timeout_ns {
            Some(t) => t,
            None => DEFAULT_STARTUP_TIMEOUT_NS,
        }
    }

    /// The ready conditions the engine will evaluate, in declaration
    /// order: first those of the image, then those of the request.
    pub open spec fn spec_ready_conditions(&self) -> Seq<RsWaitFor> {
        self.image.ready_conditions@ + self.ready_conditions@
    }

    /// The startup timeout the engine will run under.
    pub fn effective_timeout_ns(&self) -> (r: u64)
        ensures
            r == self.spec_effective_timeout_ns(),
    {
        match self.startup_timeout_ns {
            Some(t) => t,
            None => DEFAULT_STARTUP_TIMEOUT_NS,
        }
    }

    /// The ready conditions the engine will evaluate, in declaration
    /// order: first those of the image, then those of the request.
    pub fn effective_ready_conditions(&self) -> (r: Vec<RsWaitFor>)
        ensures
            r@ == self.spec_ready_conditions(),
    {
        let mut out: Vec<RsWaitFor> = Vec::new();
        let mut i: usize = 0;
        let n = self.image.ready_conditions.len();
        while i < n
            invariant
                i <= n,
                n == self.image.ready_conditions@.len(),
                out@ =~= self.image.ready_conditions@.take(i as int),
            decreases n - i,
        {
            out.push(self.image.ready_conditions[i].rs_wait_for_clone());
            proof {
                assert(out@ =~= self.image.ready_conditions@.take(i + 1));
            }
            i += 1;
        }
        let m = self.ready_conditions.len();
        let mut j: usize = 0;
        proof {
            assert(self.image.ready_conditions@.take(n as int) =~= self.image.ready_conditions@);
        }
        while j < m
            invariant
                j <= m,
                m == self.ready_conditions@.len(),
                out@ =~= self.image.ready_conditions@ + self.ready_conditions@.take(j as int),
            decreases m - j,
        {
            out.push(self.ready_conditions[j].rs_wait_for_clone());
            proof {
                assert(out@ =~= self.image.ready_conditions@ + self.ready_conditions@.take(j + 1));
            }
            j += 1;
        }
        proof {
            assert(self.ready_conditions@.take(m as int) =~= self.ready_conditions@);
        }
        out
    }
}

/// The request an image turns into before any configuration call.
pub fn rs_container_request_from_image(image: RsGenericImage) -> (r: RsContainerRequest)
    ensures
        r@ == spec_fresh_model(image),
{
    let r = RsContainerRequest {
        image,
        name_override: None,
        tag_override: None,
        container_name: None,
        platform: None,
        network: None,
        cmd: None,
        labels: Vec::new(),
        env_vars: Vec::new(),
        hosts: Vec::new(),
        mounts: Vec::new(),
        hostname: None,
        mapped_ports: Vec::new(),
        privileged: false,
        cap_add: Vec::new(),
        cap_drop: Vec::new(),
        cgroupns_mode: None,
        userns_mode: None,
        shm_size: None,
        startup_timeout_ns: None,
        working_dir: None,
        user: None,
        readonly_rootfs: false,
        security_opts: Vec::new(),
        ready_conditions: Vec::new(),
        copy_to_sources: Vec::new(),
        ulimits: Vec::new(),
        health_check: None,
    };
    proof {
        assert(r@ =~= spec_fresh_model(r.image));
    }
    r
}

pub fn rs_container_request_destroy(container_request: RsContainerRequest) {
    let _ = container_request;
}

pub fn rs_container_request_with_cmd(
    container_request: RsContainerRequest,
    cmd: Vec<String>,
) -> (r: RsContainerRequest)
    ensures
        r@ == (RequestModel { cmd: Some(cmd@), ..container_request@ }),
{
    let r = RsContainerRequest { cmd: Some(cmd), ..container_request };
    proof {
        assert(r@ =~= (RequestModel { cmd: r@.cmd, ..container_request@ }));
    }
    r
}

pub fn rs_container_request_with_name(
    container_request: RsContainerRequest,
    name: String,
) -> (r: RsContainerRequest)
    ensures
        r@ == (RequestModel { name_override: Some(name), ..container_request@ }),
{
    let r = RsContainerRequest { name_override: Some(name), ..container_request };
    proof {
        assert(r@ =~= (RequestModel { name_override: r.name_override, ..container_request@ }));
    }
    r
}

pub fn rs_container_request_with_tag(
    container_request: RsContainerRequest,
    tag: String,
) -> (r: RsContainerRequest)
    ensures
        r@ == (RequestModel { tag_override: Some(tag), ..container_request@ }),
{
    let r = RsContainerRequest { tag_override: Some(tag), ..container_request };
    proof {
        assert(r@ =~= (RequestModel { tag_override: r.tag_override, ..container_request@ }));
    }
    r
}

pub fn rs_container_request_with_container_name(
    container_request: RsContainerRequest,
    name: String,
) -> (r: RsContainerRequest)
    ensures
        r@ == (RequestModel { container_name: Some(name), ..container_request@ }),
{
    let r = RsContainerRequest { container_name: Some(name), ..container_request };
    proof {
        assert(r@ =~= (RequestModel { container_name: r.container_name, ..container_request@ }));
    }
    r
}

pub fn rs_container_request_with_platform(
    container_request: RsContainerRequest,
    platform: String,
) -> (r: RsContainerRequest)
    ensures
        r@ == (RequestModel { platform: Some(platform), ..container_request@ }),
{
    let r = RsContainerRequest { platform: Some(platform), ..container_request };
    proof {
        assert(r@ =~= (RequestModel { platform: r.platform, ..container_request@ }));
    }
    r
}

pub fn rs_container_request_with_network(
    container_request: RsContainerRequest,
    network: String,
) -> (r: RsContainerRequest)
    ensures
        r@ == (RequestModel { network: Some(network), ..container_request@ }),
{
    let r = RsContainerRequest { network: Some(network), ..container_request };
    proof {
        assert(r@ =~= (RequestModel { network: r.network, ..container_request@ }));
    }
    r
}

/// Binds one label; a repeated key overwrites its value, a fresh key is
/// added beside the existing ones.
pub fn rs_container_request_with_label(
    container_request: RsContainerRequest,
    key: String,
    value: String,
) -> (r: RsContainerRequest)
    ensures
        r@ == (RequestModel {
            labels: kv::spec_upsert(container_request.labels@, key, value),
            ..container_request@
        }),
{
    let ghost before = container_request@;
    let mut r = container_request;
    kv::upsert(&mut r.labels, key, value);
    proof {
        assert(r@ =~= (RequestModel { labels: r.labels@, ..before }));
    }
    r
}

/// Binds labels pairwise from two columns; keys beyond the shorter column
/// are ignored, and each pair behaves as one `with_label` call.
pub fn rs_container_request_with_labels(
    container_request: RsContainerRequest,
    keys: Vec<String>,
    values: Vec<String>,
) -> (r: RsContainerRequest)
    ensures
        r@ == (RequestModel {
            labels: spec_upsert_all(container_request.labels@, zip_min(keys@, values@)),
            ..container_request@
        }),
{
    let ghost before = container_request@;
    let mut r = container_request;
    upsert_all(&mut r.labels, keys, values);
    proof {
        assert(r@ =~= (RequestModel { labels: r.labels@, ..before }));
    }
    r
}

pub fn rs_container_request_with_host(
    container_request: RsContainerRequest,
    key: String,
    value: RsHost,
) -> (r: RsContainerRequest)
    ensures
        r@ == (RequestModel {
            hosts: kv::spec_upsert(container_request.hosts@, key, value),
            ..container_request@
        }),
{
    let ghost before = container_request@;
    let mut r = container_request;
    kv::upsert(&mut r.hosts, key, value);
    proof {
        assert(r@ =~= (RequestModel { hosts: r.hosts@, ..before }));
    }
    r
}

pub fn rs_container_request_with_mount(
    container_request: RsContainerRequest,
    mount: RsMount,
) -> (r: RsContainerRequest)
    ensures
        r@ == (RequestModel {
            mounts: container_request.mounts@.push(mount),
            ..container_request@
        }),
{
    let ghost before = container_request@;
    let mut r = container_request;
    r.mounts.push(mount);
    proof {
        assert(r@ =~= (RequestModel { mounts: r.mounts@, ..before }));
    }
    r
}

pub fn rs_container_request_with_env_var(
    container_request: RsContainerRequest,
    name: String,
    value: String,
) -> (r: RsContainerRequest)
    ensures
        r@ == (RequestModel {
            env_vars: kv::spec_upsert(container_request.env_vars@, name, value),
            ..container_request@
        }),
{
    let ghost before = container_request@;
    let mut r = container_request;
    kv::upsert(&mut r.env_vars, name, value);
    proof {
        assert(r@ =~= (RequestModel { env_vars: r.env_vars@, ..before }));
    }
    r
}

pub fn rs_container_request_with_hostname(
    container_request: RsContainerRequest,
    hostname: String,
) -> (r: RsContainerRequest)
    ensures
        r@ == (RequestModel { hostname: Some(hostname), ..container_request@ }),
{
    let r = RsContainerRequest { hostname: Some(hostname), ..container_request };
    proof {
        assert(r@ =~= (RequestModel { hostname: r.hostname, ..container_request@ }));
    }
    r
}

pub fn rs_container_request_with_mapped_port(
    container_request: RsContainerRequest,
    host_port: u16,
    container_port: RsContainerPort,
) -> (r: RsContainerRequest)
    ensures
        r@ == (RequestModel {
            mapped_ports: container_request.mapped_ports@.push((host_port, container_port)),
            ..container_request@
        }),
{
    let ghost before = container_request@;
    let mut r = container_request;
    r.mapped_ports.push((host_port, container_port));
    proof {
        assert(r@ =~= (RequestModel { mapped_ports: r.mapped_ports@, ..before }));
    }
    r
}

pub fn rs_container_request_with_privileged(
    container_request: RsContainerRequest,
    privileged: bool,
) -> (r: RsContainerRequest)
    ensures
        r@ == (RequestModel { privileged, ..container_request@ }),
{
    let r = RsContainerRequest { privileged, ..container_request };
    proof {
        assert(r@ =~= (RequestModel { privileged: r.privileged, ..container_request@ }));
    }
    r
}

pub fn rs_container_request_with_cap_add(
    container_request: RsContainerRequest,
    capability: String,
) -> (r: RsContainerRequest)
    ensures
        r@ == (RequestModel {
            cap_add: container_request.cap_add@.push(capability),
            ..container_request@
        }),
{
    let ghost before = container_request@;
    let mut r = container_request;
    r.cap_add.push(capability);
    proof {
        assert(r@ =~= (RequestModel { cap_add: r.cap_add@, ..before }));
    }
    r
}

pub fn rs_container_request_with_cap_drop(
    container_request: RsContainerRequest,
    capability: String,
) -> (r: RsContainerRequest)
    ensures
        r@ == (RequestModel {
            cap_drop: container_request.cap_drop@.push(capability),
            ..container_request@
        }),
{
    let ghost before = container_request@;
    let mut r = container_request;
    r.cap_drop.push(capability);
    proof {
        assert(r@ =~= (RequestModel { cap_drop: r.cap_drop@, ..before }));
    }
    r
}

pub fn rs_container_request_with_cgroupns_mode(
    container_request: RsContainerRequest,
    mode: RsCgroupnsMode,
) -> (r: RsContainerRequest)
    ensures
        r@ == (RequestModel { cgroupns_mode: Some(mode), ..container_request@ }),
{
    let r = RsContainerRequest { cgroupns_mode: Some(mode), ..container_request };
    proof {
        assert(r@ =~= (RequestModel { cgroupns_mode: r.cgroupns_mode, ..container_request@ }));
    }
    r
}

pub fn rs_container_request_with_userns_mode(
    container_request: RsContainerRequest,
    userns_mode: String,
) -> (r: RsContainerRequest)
    ensures
        r@ == (RequestModel { userns_mode: Some(userns_mode), ..container_request@ }),
{
    let r = RsContainerRequest { userns_mode: Some(userns_mode), ..container_request };
    proof {
        assert(r@ =~= (RequestModel { userns_mode: r.userns_mode, ..container_request@ }));
    }
    r
}

pub fn rs_container_request_with_shm_size(
    container_request: RsContainerRequest,
    bytes: u64,
) -> (r: RsContainerRequest)
    ensures
        r@ == (RequestModel { shm_size: Some(bytes), ..container_request@ }),
{
    let r = RsContainerRequest { shm_size: Some(bytes), ..container_request };
    proof {
        assert(r@ =~= (RequestModel { shm_size: r.shm_size, ..container_request@ }));
    }
    r
}

pub fn rs_container_request_with_startup_timeout(
    container_request: RsContainerRequest,
    timeout_ns: u64,
) -> (r: RsContainerRequest)
    ensures
        r@ == (RequestModel { startup_timeout_ns: Some(timeout_ns), ..container_request@ }),
{
    let r = RsContainerRequest { startup_timeout_ns: Some(timeout_ns), ..container_request };
    proof {
        assert(r@ =~= (RequestModel {
            startup_timeout_ns: r.startup_timeout_ns,
            ..container_request@
        }));
    }
    r
}

pub fn rs_container_request_with_working_dir(
    container_request: RsContainerRequest,
    working_dir: String,
) -> (r: RsContainerRequest)
    ensures
        r@ == (RequestModel { working_dir: Some(working_dir), ..container_request@ }),
{
    let r = RsContainerRequest { working_dir: Some(working_dir), ..container_request };
    proof {
        assert(r@ =~= (RequestModel { working_dir: r.working_dir, ..container_request@ }));
    }
    r
}

pub fn rs_container_request_with_user(
    container_request: RsContainerRequest,
    user: String,
) -> (r: RsContainerRequest)
    ensures
        r@ == (RequestModel { user: Some(user), ..container_request@ }),
{
    let r = RsContainerRequest { user: Some(user), ..container_request };
    proof {
        assert(r@ =~= (RequestModel { user: r.user, ..container_request@ }));
    }
    r
}

pub fn rs_container_request_with_readonly_rootfs(
    container_request: RsContainerRequest,
    readonly_rootfs: bool,
) -> (r: RsContainerRequest)
    ensures
        r@ == (RequestModel { readonly_rootfs, ..container_request@ }),
{
    let r = RsContainerRequest { readonly_rootfs, ..container_request };
    proof {
        assert(r@ =~= (RequestModel { readonly_rootfs: r.readonly_rootfs, ..container_request@ }));
    }
    r
}

pub fn rs_container_request_with_security_opt(
    container_request: RsContainerRequest,
    security_opt: String,
) -> (r: RsContainerRequest)
    ensures
        r@ == (RequestModel {
            security_opts: container_request.security_opts@.push(security_opt),
            ..container_request@
        }),
{
    let ghost before = container_request@;
    let mut r = container_request;
    r.security_opts.push(security_opt);
    proof {
        assert(r@ =~= (RequestModel { security_opts: r.security_opts@, ..before }));
    }
    r
}

/// Appends ready conditions after those already accumulated; the image's
/// own conditions still run first.
pub fn rs_container_request_with_ready_conditions(
    container_request: RsContainerRequest,
    ready_conditions: Vec<RsWaitFor>,
) -> (r: RsContainerRequest)
    ensures
        r@ == (RequestModel {
            ready_conditions: container_request.ready_conditions@ + ready_conditions@,
            ..container_request@
        }),
{
    let ghost before = container_request@;
    let mut r = container_request;
    let mut given = ready_conditions;
    r.ready_conditions.append(&mut given);
    proof {
        assert(r@ =~= (RequestModel { ready_conditions: r.ready_conditions@, ..before }));
    }
    r
}

pub fn rs_container_request_with_copy_to(
    container_request: RsContainerRequest,
    target: String,
    source: RsCopyDataSource,
) -> (r: RsContainerRequest)
    ensures
        r@ == (RequestModel {
            copy_to_sources: container_request.copy_to_sources@.push((target, source)),
            ..container_request@
        }),
{
    let ghost before = container_request@;
    let mut r = container_request;
    r.copy_to_sources.push((target, source));
    proof {
        assert(r@ =~= (RequestModel { copy_to_sources: r.copy_to_sources@, ..before }));
    }
    r
}

/// Binds one resource limit by name; the hard limit may be absent and is
/// kept absent, never invented.
pub fn rs_container_request_with_ulimit(
    container_request: RsContainerRequest,
    name: String,
    soft: i64,
    hard: Option<i64>,
) -> (r: RsContainerRequest)
    ensures
        r@ == (RequestModel {
            ulimits: kv::spec_upsert(container_request.ulimits@, name, (soft, hard)),
            ..container_request@
        }),
{
    let ghost before = container_request@;
    let mut r = container_request;
    kv::upsert(&mut r.ulimits, name, (soft, hard));
    proof {
        assert(r@ =~= (RequestModel { ulimits: r.ulimits@, ..before }));
    }
    r
}

pub fn rs_container_request_with_health_check(
    container_request: RsContainerRequest,
    health_check: RsHealthcheck,
) -> (r: RsContainerRequest)
    ensures
        r@ == (RequestModel { health_check: Some(health_check), ..container_request@ }),
{
    let r = RsContainerRequest { health_check: Some(health_check), ..container_request };
    proof {
        assert(r@ =~= (RequestModel { health_check: r.health_check, ..container_request@ }));
    }
    r
}

/// Additive label semantics: after binding a label, that key maps to the
/// new value, and every other key maps to whatever it mapped to before —
/// so rebinding a key overwrites it, and distinct keys accumulate.
pub proof fn lemma_label_semantics(labels: Seq<(String, String)>, key: String, value: String)
    ensures
        kv::spec_lookup(kv::spec_upsert(labels, key, value), key@) == Some(value),
        forall|other: Seq<char>|
            other != key@ ==> #[trigger] kv::spec_lookup(
                kv::spec_upsert(labels, key, value),
                other,
            ) == kv::spec_lookup(labels, other),
{
    kv::lemma_upsert_lookup_same(labels, key, value);
    assert forall|other: Seq<char>| other != key@ implies #[trigger] kv::spec_lookup(
        kv::spec_upsert(labels, key, value),
        other,
    ) == kv::spec_lookup(labels, other) by {
        kv::lemma_upsert_lookup_other(labels, key, value, other);
    }
}

// ---------------------------------------------------------------------------
// Pairwise label binding.
// ---------------------------------------------------------------------------

/// The two columns paired up to the length of the shorter one.
pub open spec fn zip_min<A, B>(a: Seq<A>, b: Seq<B>) -> Seq<(A, B)> {
    Seq::new(
        if a.len() <= b.len() {
            a.len()
        } else {
            b.len()
        },
        |i: int| (a[i], b[i]),
    )
}

/// The list after binding each pair in order, each as one upsert.
pub open spec fn spec_upsert_all<V>(s: Seq<(String, V)>, pairs: Seq<(String, V)>) -> Seq<
    (String, V),
>
    decreases pairs.len(),
{
    if pairs.len() == 0 {
        s
    } else {
        spec_upsert_all(kv::spec_upsert(s, pairs[0].0, pairs[0].1), pairs.drop_first())
    }
}

fn upsert_all(vec: &mut Vec<(String, String)>, keys: Vec<String>, values: Vec<String>)
    ensures
        final(vec)@ == spec_upsert_all(old(vec)@, zip_min(keys@, values@)),
{
    let n = if keys.len() <= values.len() {
        keys.len()
    } else {
        values.len()
    };
    let ghost pairs = zip_min(keys@, values@);
    let mut i: usize = 0;
    proof {
        assert(pairs.skip(0) =~= pairs);
    }
    while i < n
        invariant
            n == pairs.len(),
            i <= n,
            keys@.len() >= n,
            values@.len() >= n,
            forall|j: int| 0 <= j < n ==> pairs[j] == (keys@[j], values@[j]),
            spec_upsert_all(old(vec)@, pairs) == spec_upsert_all(vec@, pairs.skip(i as int)),
        decreases n - i,
    {
        let key = keys[i].clone();
        let value = values[i].clone();
        proof {
            assert(pairs.skip(i as int)[0] == pairs[i as int]);
            assert(pairs.skip(i as int).drop_first() =~= pairs.skip(i + 1));
        }
        kv::upsert(vec, key, value);
        i += 1;
    }
    proof {
        assert(pairs.skip(n as int) =~= Seq::<(String, String)>::empty());
    }
}

} // verus!
