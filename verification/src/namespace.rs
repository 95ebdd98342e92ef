//! What a freshly cloned child has to ask of the kernel before it can start
//! its program: the ordered sequence of mounts, device nodes and the pivot of
//! the root.
//!
//! The order matters at every step. The current root is made private first,
//! or the unmount at the end would reach the host. The new root is bound
//! onto itself next, because the pivot only accepts a mount point. `/dev` is
//! mounted before any node is created in it. The old root is detached last.

use vstd::prelude::*;
use vstd::string::*;

use crate::configuration::{ConfigurationView, ContainerConfiguration};
use crate::kernel::{plan, KernelOp, KernelOpView};
use crate::mount::{device_views, DeviceNode, DeviceNodeView, Mount, MountFlags, MountView};
use crate::path::{join, joined};

verus! {

/// Marks the whole tree below the current root as private, so that nothing
/// done to it from here on is seen outside the mount namespace.
pub open spec fn private_root() -> KernelOpView {
    KernelOpView::Mount {
        source: None,
        target: "/"@,
        fstype: None,
        flags: MountFlags::private_tree(),
        data: None,
    }
}

/// Binds the directory `source` onto itself, privately: this makes it a
/// mount point of its own.
pub open spec fn self_bind(source: Seq<char>) -> KernelOpView {
    KernelOpView::Mount {
        source: Some(source),
        target: source,
        fstype: None,
        flags: MountFlags::private_bind(),
        data: None,
    }
}

/// Makes `source` the root, with the old root stacked on top of it at the
/// same place.
pub open spec fn pivot(source: Seq<char>) -> KernelOpView {
    KernelOpView::PivotRoot { new_root: source, put_old: source }
}

/// Marks the whole tree below the root as a slave, so that an unmount cannot
/// leave the namespace under any circumstance.
pub open spec fn slave_root() -> KernelOpView {
    KernelOpView::Mount {
        source: None,
        target: "/"@,
        fstype: None,
        flags: MountFlags::slave_tree(),
        data: None,
    }
}

/// Detaches what is mounted on top at `/`.
pub open spec fn detach_root() -> KernelOpView {
    KernelOpView::Unmount { target: "/"@, detach: true }
}

/// The two requests that come before any mount below the new root.
pub open spec fn rootfs_prepared(source: Seq<char>) -> Seq<KernelOpView> {
    seq![private_root(), self_bind(source)]
}

/// One mount request per mount, in the order of the list, each below `root`.
pub open spec fn mounts_realised(root: Seq<char>, mounts: Seq<MountView>) -> Seq<KernelOpView> {
    Seq::new(mounts.len(), |i: int| mounts[i].realised(root))
}

/// One node per device, in the order of the list, each in `dev_path`.
pub open spec fn nodes_realised(dev_path: Seq<char>, devices: Seq<DeviceNodeView>) -> Seq<
    KernelOpView,
> {
    Seq::new(devices.len(), |i: int| devices[i].realised(dev_path))
}

/// The links in `dev_path` to the descriptors of the running process. What
/// they point to is resolved once the root has been pivoted, against the
/// `/proc` of the container.
pub open spec fn descriptor_links(dev_path: Seq<char>) -> Seq<KernelOpView> {
    seq![
        KernelOpView::Symlink { target: "/proc/self/fd"@, link: joined(dev_path, "fd"@) },
        KernelOpView::Symlink { target: "/proc/self/fd/0"@, link: joined(dev_path, "stdin"@) },
        KernelOpView::Symlink { target: "/proc/self/fd/1"@, link: joined(dev_path, "stdout"@) },
        KernelOpView::Symlink { target: "/proc/self/fd/2"@, link: joined(dev_path, "stderr"@) },
    ]
}

/// The device nodes, then the descriptor links.
pub open spec fn device_nodes_created(dev_path: Seq<char>, devices: Seq<DeviceNodeView>) -> Seq<
    KernelOpView,
> {
    nodes_realised(dev_path, devices) + descriptor_links(dev_path)
}

/// The pivot, the slave remount and the detach of the old root.
pub open spec fn rootfs_mounted(source: Seq<char>) -> Seq<KernelOpView> {
    seq![pivot(source), slave_root(), detach_root()]
}

/// Everything asked of the kernel to set up the mount namespace of a
/// container whose root filesystem is the directory `source` of the host.
pub open spec fn mount_namespace_set_up(
    source: Seq<char>,
    mounts: Seq<MountView>,
    devices: Seq<DeviceNodeView>,
) -> Seq<KernelOpView> {
    rootfs_prepared(source) + mounts_realised(source, mounts) + device_nodes_created(
        joined(source, "dev"@),
        devices,
    ) + rootfs_mounted(source)
}

/// Everything asked of the kernel to set up the namespaces of a container:
/// nothing where it has no root filesystem.
pub open spec fn namespaces_set_up(config: ConfigurationView) -> Seq<KernelOpView> {
    if config.rootfs is Some {
        mount_namespace_set_up(config.rootfs_source(), config.mounts, config.devices)
    } else {
        Seq::empty()
    }
}

/// The whole sequence of setting up the namespaces of a new process, from
/// the first remount to the detach of the old root.
pub fn setup_namespaces(config: &ContainerConfiguration) -> (ops: Vec<KernelOp>)
    ensures
        plan(ops@) == namespaces_set_up(config@),
{
    match config.rootfs() {
        Some(_) => setup_mount_namespace(config),
        None => {
            let ops: Vec<KernelOp> = Vec::new();
            assert(plan(ops@) =~= Seq::empty());
            ops
        },
    }
}

/// The sequence for a container with a root filesystem: prepare the root,
/// put the mounts in place in the order of their declaration, create the
/// device nodes, pivot.
pub fn setup_mount_namespace(config: &ContainerConfiguration) -> (ops: Vec<KernelOp>)
    requires
        config@.rootfs is Some,
    ensures
        plan(ops@) == mount_namespace_set_up(
            config@.rootfs_source(),
            config@.mounts,
            config@.devices,
        ),
{
    let rootfs = config.rootfs().unwrap();
    let rootfs_source = rootfs.source().as_ref().unwrap().as_str();
    let ghost source = rootfs_source@;

    let mut ops = prepare_rootfs(rootfs);

    let mounts = config.mounts();
    let mut i: usize = 0;
    while i < mounts.len()
        invariant
            i <= mounts.len(),
            rootfs_source@ == source,
            plan(ops@) == rootfs_prepared(source) + mounts_realised(
                source,
                config@.mounts.take(i as int),
            ),
            crate::mount::mount_views(mounts@) == config@.mounts,
        decreases mounts.len() - i,
    {
        let op = mounts[i].mount(rootfs_source);
        let ghost before_op = ops@;
        ops.push(op);
        proof {
            let before = config@.mounts.take(i as int);
            let after = config@.mounts.take(i + 1);
            assert(config@.mounts[i as int] == mounts[i as int]@);
            assert(after =~= before.push(config@.mounts[i as int]));
            assert(mounts_realised(source, after) =~= mounts_realised(source, before).push(op@));
            assert(plan(ops@) =~= plan(before_op).push(op@));
        }
        i += 1;
    }
    assert(config@.mounts.take(i as int) =~= config@.mounts);

    let dev_path = join(rootfs_source, "dev");
    let mut nodes = create_device_nodes(dev_path.as_str(), config.devices());
    let ghost before_nodes = ops@;
    let ghost node_ops = nodes@;
    ops.append(&mut nodes);
    assert(plan(ops@) =~= plan(before_nodes) + plan(node_ops));

    let mut last = mount_rootfs(rootfs);
    let ghost before_last = ops@;
    let ghost last_ops = last@;
    ops.append(&mut last);
    assert(plan(ops@) =~= plan(before_last) + plan(last_ops));
    ops
}

/// What has to be done to the current root and to the directory that holds
/// the new one before anything is mounted below it.
///
/// Without the first request, later mounts would show on the host; without
/// the second, the pivot would be refused.
pub fn prepare_rootfs(rootfs: &Mount) -> (ops: Vec<KernelOp>)
    requires
        rootfs@.source is Some,
    ensures
        plan(ops@) == rootfs_prepared(rootfs@.source.unwrap()),
{
    let source = rootfs.source().as_ref().unwrap();
    let mut ops: Vec<KernelOp> = Vec::new();
    // The root of this mount namespace becomes private, so that no change
    // to it (an unmount, say) tries to reach the real root.
    ops.push(
        KernelOp::Mount {
            source: None,
            target: String::from_str("/"),
            fstype: None,
            flags: MountFlags { bind: false, recursive: true, private: true, slave: false },
            data: None,
        },
    );
    // The new root becomes a mount point.
    ops.push(
        KernelOp::Mount {
            source: Some(source.clone()),
            target: source.clone(),
            fstype: None,
            flags: MountFlags { bind: true, recursive: false, private: true, slave: false },
            data: None,
        },
    );
    assert(plan(ops@) =~= rootfs_prepared(source@));
    ops
}

/// The device nodes in the directory `dev_path`, followed by the links to
/// the descriptors of the running process.
pub fn create_device_nodes(dev_path: &str, devices: &Vec<DeviceNode>) -> (ops: Vec<KernelOp>)
    ensures
        plan(ops@) == device_nodes_created(dev_path@, device_views(devices@)),
{
    let mut ops: Vec<KernelOp> = Vec::new();
    let mut i: usize = 0;
    while i < devices.len()
        invariant
            i <= devices.len(),
            ops.len() == i,
            forall|k: int| 0 <= k < i ==> ops[k]@ == devices[k]@.realised(dev_path@),
        decreases devices.len() - i,
    {
        ops.push(devices[i].make_node(dev_path));
        i += 1;
    }
    assert(plan(ops@) =~= nodes_realised(dev_path@, device_views(devices@)));
    let ghost nodes = ops@;

    ops.push(
        KernelOp::Symlink {
            target: String::from_str("/proc/self/fd"),
            link: join(dev_path, "fd"),
        },
    );
    ops.push(
        KernelOp::Symlink {
            target: String::from_str("/proc/self/fd/0"),
            link: join(dev_path, "stdin"),
        },
    );
    ops.push(
        KernelOp::Symlink {
            target: String::from_str("/proc/self/fd/1"),
            link: join(dev_path, "stdout"),
        },
    );
    ops.push(
        KernelOp::Symlink {
            target: String::from_str("/proc/self/fd/2"),
            link: join(dev_path, "stderr"),
        },
    );
    assert(plan(ops@) =~= plan(nodes) + descriptor_links(dev_path@));
    ops
}

/// Replaces the root of the container by the new root filesystem.
///
/// The old root is not moved to a directory of its own: it is stacked on the
/// new root at `/`, and detaching that top layer leaves the new root in its
/// place, with nothing to create or to clean up.
pub fn mount_rootfs(rootfs: &Mount) -> (ops: Vec<KernelOp>)
    requires
        rootfs@.source is Some,
    ensures
        plan(ops@) == rootfs_mounted(rootfs@.source.unwrap()),
{
    let source = rootfs.source().as_ref().unwrap();
    let mut ops: Vec<KernelOp> = Vec::new();
    ops.push(KernelOp::PivotRoot { new_root: source.clone(), put_old: source.clone() });
    ops.push(
        KernelOp::Mount {
            source: None,
            target: String::from_str("/"),
            fstype: None,
            flags: MountFlags { bind: false, recursive: true, private: false, slave: true },
            data: None,
        },
    );
    ops.push(KernelOp::Unmount { target: String::from_str("/"), detach: true });
    assert(plan(ops@) =~= rootfs_mounted(source@));
    ops
}

} // verus!
