//! Filesystem attachments: bind mounts, named volumes and tmpfs mounts.
//!
//! The access mode defaults to read-write; size and mode bits are only
//! meaningful for tmpfs and volume mounts and stay unset until given.

use vstd::prelude::*;

verus! {

/// What backs the mount on the host side.
#[derive(Clone, Debug, PartialEq, Eq)]
pub enum MountKind {
    Bind { host_path: String },
    Volume { name: String },
    Tmpfs,
}

#[derive(Clone, Copy, Debug, PartialEq, Eq, Structural)]
pub enum AccessMode {
    ReadOnly,
    ReadWrite,
}

/// A filesystem attachment for a container.
#[derive(Clone, Debug, PartialEq, Eq)]
pub struct RsMount {
    pub kind: MountKind,
    pub container_path: String,
    pub access_mode: AccessMode,
    pub size_bytes: Option<i64>,
    pub mode: Option<i64>,
}

pub fn rs_mount_bind_mount(host_path: String, container_path: String) -> (r: RsMount)
    ensures
        r.kind == (MountKind::Bind { host_path }),
        r.container_path == container_path,
        r.access_mode == AccessMode::ReadWrite,
        r.size_bytes is None,
        r.mode is None,
{
    RsMount {
        kind: MountKind::Bind { host_path },
        container_path,
        access_mode: AccessMode::ReadWrite,
        size_bytes: None,
        mode: None,
    }
}

pub fn rs_mount_volume_mount(name: String, container_path: String) -> (r: RsMount)
    ensures
        r.kind == (MountKind::Volume { name }),
        r.container_path == container_path,
        r.access_mode == AccessMode::ReadWrite,
        r.size_bytes is None,
        r.mode is None,
{
    RsMount {
        kind: MountKind::Volume { name },
        container_path,
        access_mode: AccessMode::ReadWrite,
        size_bytes: None,
        mode: None,
    }
}

pub fn rs_mount_tmpfs_mount(container_path: String) -> (r: RsMount)
    ensures
        r.kind == MountKind::Tmpfs,
        r.container_path == container_path,
        r.access_mode == AccessMode::ReadWrite,
        r.size_bytes is None,
        r.mode is None,
{
    RsMount {
        kind: MountKind::Tmpfs,
        container_path,
        access_mode: AccessMode::ReadWrite,
        size_bytes: None,
        mode: None,
    }
}

pub fn rs_mount_with_read_only(mount: RsMount) -> (r: RsMount)
    ensures
        r == (RsMount { access_mode: AccessMode::ReadOnly, ..mount }),
{
    RsMount { access_mode: AccessMode::ReadOnly, ..mount }
}

pub fn rs_mount_with_read_write(mount: RsMount) -> (r: RsMount)
    ensures
        r == (RsMount { access_mode: AccessMode::ReadWrite, ..mount }),
{
    RsMount { access_mode: AccessMode::ReadWrite, ..mount }
}

pub fn rs_mount_with_size_bytes(mount: RsMount, size: i64) -> (r: RsMount)
    ensures
        r == (RsMount { size_bytes: Some(size), ..mount }),
{
    RsMount { size_bytes: Some(size), ..mount }
}

pub fn rs_mount_with_mode(mount: RsMount, mode: i64) -> (r: RsMount)
    ensures
        r == (RsMount { mode: Some(mode), ..mount }),
{
    RsMount { mode: Some(mode), ..mount }
}

pub fn rs_mount_destroy(mount: RsMount) {
    let _ = mount;
}

} // verus!
