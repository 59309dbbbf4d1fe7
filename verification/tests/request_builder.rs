use testainer::cgroupns::RsCgroupnsMode;
use testainer::image::{
    rs_generic_image_new, rs_generic_image_with_entrypoint, rs_generic_image_with_exposed_port,
    rs_generic_image_with_label, rs_generic_image_with_ulimit, rs_generic_image_with_wait_for,
};
use testainer::mount::rs_mount_bind_mount;
use testainer::port::rs_container_port_tcp;
use testainer::request::{
    rs_container_request_from_image, rs_container_request_with_cap_add,
    rs_container_request_with_cap_drop, rs_container_request_with_cgroupns_mode,
    rs_container_request_with_cmd, rs_container_request_with_env_var,
    rs_container_request_with_label, rs_container_request_with_labels,
    rs_container_request_with_mapped_port, rs_container_request_with_mount,
    rs_container_request_with_name, rs_container_request_with_privileged,
    rs_container_request_with_ready_conditions, rs_container_request_with_startup_timeout,
    rs_container_request_with_tag, rs_container_request_with_ulimit, DEFAULT_STARTUP_TIMEOUT_NS,
};
use testainer::wait::{rs_wait_for_duration, rs_wait_for_nothing, RsWaitFor};

#[test]
fn label_with_same_key_overwrites() {
    let image = rs_generic_image_new("svc".to_string(), "latest".to_string());
    let req = rs_container_request_from_image(image);
    let req = rs_container_request_with_label(req, "k".to_string(), "v1".to_string());
    let req = rs_container_request_with_label(req, "k".to_string(), "v2".to_string());
    assert_eq!(req.labels, vec![("k".to_string(), "v2".to_string())]);
}

#[test]
fn labels_with_distinct_keys_accumulate() {
    let image = rs_generic_image_new("svc".to_string(), "latest".to_string());
    let req = rs_container_request_from_image(image);
    let req = rs_container_request_with_label(req, "a".to_string(), "1".to_string());
    let req = rs_container_request_with_label(req, "b".to_string(), "2".to_string());
    assert_eq!(
        req.labels,
        vec![("a".to_string(), "1".to_string()), ("b".to_string(), "2".to_string())]
    );
}

#[test]
fn labels_bind_pairwise_up_to_the_shorter_column() {
    let image = rs_generic_image_new("svc".to_string(), "latest".to_string());
    let req = rs_container_request_from_image(image);
    let req = rs_container_request_with_labels(
        req,
        vec!["a".to_string(), "b".to_string(), "c".to_string()],
        vec!["1".to_string(), "2".to_string()],
    );
    assert_eq!(
        req.labels,
        vec![("a".to_string(), "1".to_string()), ("b".to_string(), "2".to_string())]
    );
}

#[test]
fn ulimit_without_hard_limit_is_kept_as_given() {
    let image = rs_generic_image_new("svc".to_string(), "latest".to_string());
    let req = rs_container_request_from_image(image);
    let req = rs_container_request_with_ulimit(req, "nofile".to_string(), 1024, None);
    assert_eq!(req.ulimits, vec![("nofile".to_string(), (1024, None))]);
}

#[test]
fn ulimit_with_same_name_overwrites() {
    let image = rs_generic_image_new("svc".to_string(), "latest".to_string());
    let req = rs_container_request_from_image(image);
    let req = rs_container_request_with_ulimit(req, "nofile".to_string(), 1024, None);
    let req = rs_container_request_with_ulimit(req, "nofile".to_string(), 2048, Some(4096));
    let req = rs_container_request_with_ulimit(req, "nproc".to_string(), 64, None);
    assert_eq!(
        req.ulimits,
        vec![
            ("nofile".to_string(), (2048, Some(4096))),
            ("nproc".to_string(), (64, None)),
        ]
    );
}

#[test]
fn image_with_ulimit_retains_absent_hard_limit() {
    let image = rs_generic_image_new("svc".to_string(), "latest".to_string());
    let req = rs_generic_image_with_ulimit(image, "nofile".to_string(), 1024, None);
    assert_eq!(req.ulimits, vec![("nofile".to_string(), (1024, None))]);
}

#[test]
fn single_slot_fields_take_the_last_write() {
    let image = rs_generic_image_new("svc".to_string(), "latest".to_string());
    let req = rs_container_request_from_image(image);
    let req = rs_container_request_with_name(req, "one".to_string());
    let req = rs_container_request_with_name(req, "two".to_string());
    let req = rs_container_request_with_tag(req, "1.2".to_string());
    assert_eq!(req.name_override, Some("two".to_string()));
    assert_eq!(req.tag_override, Some("1.2".to_string()));
}

#[test]
fn accumulating_fields_append() {
    let image = rs_generic_image_new("svc".to_string(), "latest".to_string());
    let req = rs_container_request_from_image(image);
    let req = rs_container_request_with_cap_add(req, "NET_ADMIN".to_string());
    let req = rs_container_request_with_cap_add(req, "SYS_TIME".to_string());
    let req = rs_container_request_with_cap_drop(req, "CHOWN".to_string());
    let req = rs_container_request_with_mount(
        req,
        rs_mount_bind_mount("/h".to_string(), "/c".to_string()),
    );
    let req = rs_container_request_with_mapped_port(req, 8080, rs_container_port_tcp(80));
    assert_eq!(req.cap_add, vec!["NET_ADMIN".to_string(), "SYS_TIME".to_string()]);
    assert_eq!(req.cap_drop, vec!["CHOWN".to_string()]);
    assert_eq!(req.mounts.len(), 1);
    assert_eq!(req.mapped_ports.len(), 1);
    assert_eq!(req.mapped_ports[0].0, 8080);
}

#[test]
fn ready_conditions_append_after_the_images_own() {
    let image = rs_generic_image_new("svc".to_string(), "latest".to_string());
    let image = rs_generic_image_with_wait_for(image, rs_wait_for_duration(5));
    let req = rs_container_request_from_image(image);
    let req = rs_container_request_with_ready_conditions(
        req,
        vec![rs_wait_for_nothing(), rs_wait_for_duration(9)],
    );
    let req = rs_container_request_with_ready_conditions(req, vec![rs_wait_for_duration(11)]);
    let all = req.effective_ready_conditions();
    assert_eq!(
        all,
        vec![
            RsWaitFor::Duration { length_ns: 5 },
            RsWaitFor::Nothing,
            RsWaitFor::Duration { length_ns: 9 },
            RsWaitFor::Duration { length_ns: 11 },
        ]
    );
}

#[test]
fn startup_timeout_defaults_and_overrides() {
    let image = rs_generic_image_new("svc".to_string(), "latest".to_string());
    let req = rs_container_request_from_image(image);
    assert_eq!(req.effective_timeout_ns(), DEFAULT_STARTUP_TIMEOUT_NS);
    let req = rs_container_request_with_startup_timeout(req, 5_000_000_000);
    assert_eq!(req.effective_timeout_ns(), 5_000_000_000);
}

#[test]
fn env_vars_and_flags_accumulate_on_the_request() {
    let image = rs_generic_image_new("svc".to_string(), "latest".to_string());
    let req = rs_container_request_from_image(image);
    let req = rs_container_request_with_env_var(req, "MODE".to_string(), "a".to_string());
    let req = rs_container_request_with_env_var(req, "MODE".to_string(), "b".to_string());
    let req = rs_container_request_with_privileged(req, true);
    let req = rs_container_request_with_cgroupns_mode(req, RsCgroupnsMode::Private);
    let req = rs_container_request_with_cmd(req, vec!["serve".to_string()]);
    assert_eq!(req.env_vars, vec![("MODE".to_string(), "b".to_string())]);
    assert!(req.privileged);
    assert_eq!(req.cgroupns_mode, Some(RsCgroupnsMode::Private));
    assert_eq!(req.cmd, Some(vec!["serve".to_string()]));
}

#[test]
fn image_getters_reflect_accumulation() {
    let image = rs_generic_image_new("svc".to_string(), "latest".to_string());
    let image = rs_generic_image_with_exposed_port(image, rs_container_port_tcp(8080));
    let image = rs_generic_image_with_entrypoint(image, "/entry".to_string());
    let image = rs_generic_image_with_wait_for(image, rs_wait_for_nothing());
    assert_eq!(image.rs_generic_image_name(), "svc");
    assert_eq!(image.rs_generic_image_tag(), "latest");
    assert_eq!(image.rs_generic_image_entrypoint_opt(), Some("/entry".to_string()));
    assert_eq!(image.rs_generic_image_expose_ports().len(), 1);
    assert_eq!(image.rs_generic_image_ready_conditions(), vec![RsWaitFor::Nothing]);
}

#[test]
fn image_level_label_starts_a_request() {
    let image = rs_generic_image_new("svc".to_string(), "latest".to_string());
    let req = rs_generic_image_with_label(image, "team".to_string(), "core".to_string());
    assert_eq!(req.labels, vec![("team".to_string(), "core".to_string())]);
    assert_eq!(req.name_override, None);
    assert!(req.mounts.is_empty());
}
