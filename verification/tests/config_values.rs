use testainer::cgroupns::{rs_cgroupns_mode_host, rs_cgroupns_mode_private, RsCgroupnsMode};
use testainer::copy_source::{rs_copy_data_source_data, rs_copy_data_source_file, RsCopyDataSource};
use testainer::healthcheck::{
    rs_healthcheck_cmd, rs_healthcheck_cmd_shell, rs_healthcheck_empty, rs_healthcheck_none,
    rs_healthcheck_with_interval, rs_healthcheck_with_retries, HealthcheckTest,
};
use testainer::mount::{
    rs_mount_bind_mount, rs_mount_tmpfs_mount, rs_mount_volume_mount, rs_mount_with_mode,
    rs_mount_with_read_only, rs_mount_with_read_write, rs_mount_with_size_bytes, AccessMode,
    MountKind,
};
use testainer::path::{rs_path_from_bytes, rs_path_from_utf16, RsPath};
use testainer::port::{
    rs_container_port_sctp, rs_container_port_tcp, rs_container_port_udp, rs_container_port_vec_pop,
    RsContainerPort,
};
use testainer::version;

#[test]
fn version_names_the_release() {
    assert_eq!(version(), "0.1.0");
}

#[test]
fn ports_carry_protocol_and_number() {
    let tcp = rs_container_port_tcp(8080);
    let udp = rs_container_port_udp(53);
    let sctp = rs_container_port_sctp(9);
    assert!(tcp.rs_container_port_is_tcp());
    assert!(!tcp.rs_container_port_is_udp());
    assert!(udp.rs_container_port_is_udp());
    assert!(sctp.rs_container_port_is_sctp());
    assert_eq!(tcp.rs_container_port_as_u16(), 8080);
    assert_eq!(udp.rs_container_port_as_u16(), 53);
    assert_eq!(sctp.rs_container_port_as_u16(), 9);
}

#[test]
fn port_vec_pop_takes_from_the_back() {
    let mut ports = vec![rs_container_port_tcp(1), rs_container_port_tcp(2)];
    let popped = rs_container_port_vec_pop(&mut ports).unwrap();
    assert_eq!(popped.rs_container_port_as_u16(), 2);
    assert_eq!(ports.len(), 1);
    let popped = rs_container_port_vec_pop(&mut ports).unwrap();
    assert_eq!(popped.rs_container_port_as_u16(), 1);
    assert!(rs_container_port_vec_pop(&mut ports).is_none());
}

#[test]
fn bind_mount_defaults_to_read_write() {
    let m = rs_mount_bind_mount("/host".to_string(), "/data".to_string());
    assert_eq!(m.access_mode, AccessMode::ReadWrite);
    assert_eq!(
        m.kind,
        MountKind::Bind { host_path: "/host".to_string() }
    );
    assert_eq!(m.container_path, "/data");
    assert_eq!(m.size_bytes, None);
    assert_eq!(m.mode, None);
    let m = rs_mount_with_read_only(m);
    assert_eq!(m.access_mode, AccessMode::ReadOnly);
    let m = rs_mount_with_read_write(m);
    assert_eq!(m.access_mode, AccessMode::ReadWrite);
}

#[test]
fn volume_and_tmpfs_mounts_take_size_and_mode() {
    let v = rs_mount_volume_mount("vol".to_string(), "/var/lib".to_string());
    assert_eq!(v.kind, MountKind::Volume { name: "vol".to_string() });
    let t = rs_mount_tmpfs_mount("/tmp/scratch".to_string());
    assert_eq!(t.kind, MountKind::Tmpfs);
    let t = rs_mount_with_size_bytes(t, 1 << 20);
    let t = rs_mount_with_mode(t, 0o1777);
    assert_eq!(t.size_bytes, Some(1 << 20));
    assert_eq!(t.mode, Some(0o1777));
}

#[test]
fn healthcheck_variants_and_schedule() {
    let none = rs_healthcheck_none();
    assert_eq!(none.test, HealthcheckTest::Disable);
    assert_eq!(none.interval_ns, None);
    assert_eq!(none.retries, None);

    let sh = rs_healthcheck_cmd_shell("curl -f localhost".to_string());
    assert_eq!(
        sh.test,
        HealthcheckTest::Shell { command: "curl -f localhost".to_string() }
    );

    let argv = rs_healthcheck_cmd(vec!["curl".to_string(), "-f".to_string()]);
    assert_eq!(
        argv.test,
        HealthcheckTest::Command { argv: vec!["curl".to_string(), "-f".to_string()] }
    );

    let inherit = rs_healthcheck_empty();
    assert_eq!(inherit.test, HealthcheckTest::Inherit);

    let hc = rs_healthcheck_with_interval(none, Some(2_000_000_000));
    let hc = rs_healthcheck_with_retries(hc, Some(5));
    assert_eq!(hc.interval_ns, Some(2_000_000_000));
    assert_eq!(hc.retries, Some(5));
    assert_eq!(hc.test, HealthcheckTest::Disable);
}

#[test]
fn cgroupns_modes() {
    assert_eq!(rs_cgroupns_mode_private(), RsCgroupnsMode::Private);
    assert_eq!(rs_cgroupns_mode_host(), RsCgroupnsMode::Host);
}

#[test]
fn copy_sources_hold_exactly_one_kind() {
    let p = rs_path_from_bytes(b"/etc/config");
    let file = rs_copy_data_source_file(p);
    assert!(matches!(file, RsCopyDataSource::File { .. }));
    let data = rs_copy_data_source_data(vec![1, 2, 3]);
    assert_eq!(data, RsCopyDataSource::Data { bytes: vec![1, 2, 3] });
}

#[test]
fn path_text_conversion_requires_utf8() {
    let p = RsPath::new(b"/var/log".to_vec());
    assert_eq!(p.rs_path_to_string_opt(), Some("/var/log".to_string()));
    let bad = RsPath::new(vec![0x2f, 0xff, 0xfe]);
    assert_eq!(bad.rs_path_to_string_opt(), None);
}

#[test]
fn path_from_bytes_keeps_bytes() {
    let p = rs_path_from_bytes(&[0x2f, 0xff, 0x41]);
    assert_eq!(p.bytes, vec![0x2f, 0xff, 0x41]);
}

#[test]
fn path_from_utf16_decodes() {
    let p = rs_path_from_utf16(&[0x68, 0x69]);
    assert_eq!(p.bytes, b"hi".to_vec());
    // One code unit outside ASCII becomes its two UTF-8 bytes.
    let p = rs_path_from_utf16(&[0x00e9]);
    assert_eq!(p.bytes, vec![0xc3, 0xa9]);
    // An unpaired surrogate becomes the replacement character.
    let p = rs_path_from_utf16(&[0xd800]);
    assert_eq!(p.bytes, vec![0xef, 0xbf, 0xbd]);
}
