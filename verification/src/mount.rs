//! Declarative descriptions of what a container's filesystem is made of:
//! mounts, and character devices under `/dev`.

use vstd::prelude::*;
use vstd::string::*;

use crate::consts::DEVICE_NODE_MODE;
use crate::host::{device_number, make_device_number};
use crate::kernel::{KernelOp, KernelOpView};
use crate::path::{join, joined};
use crate::text::{copy_optional, optional};

verus! {

/// The flags of a mount request that the launcher uses.
#[derive(Debug, Clone, Copy, PartialEq, Eq, Structural)]
pub struct MountFlags {
    /// Make a subtree visible at a second place (`MS_BIND`).
    pub bind: bool,
    /// Apply to the whole tree below the target (`MS_REC`).
    pub recursive: bool,
    /// Mount events neither leave nor arrive (`MS_PRIVATE`).
    pub private: bool,
    /// Mount events arrive from the master but none leave (`MS_SLAVE`).
    pub slave: bool,
}

impl MountFlags {
    /// No flag at all.
    pub open spec fn none() -> MountFlags {
        MountFlags { bind: false, recursive: false, private: false, slave: false }
    }

    /// `MS_BIND | MS_PRIVATE`.
    pub open spec fn private_bind() -> MountFlags {
        MountFlags { bind: true, recursive: false, private: true, slave: false }
    }

    /// `MS_REC | MS_PRIVATE`.
    pub open spec fn private_tree() -> MountFlags {
        MountFlags { bind: false, recursive: true, private: true, slave: false }
    }

    /// `MS_SLAVE | MS_REC`.
    pub open spec fn slave_tree() -> MountFlags {
        MountFlags { bind: false, recursive: true, private: false, slave: true }
    }

    /// Whether every flag set in `other` is set in `self` too.
    pub open spec fn includes(self, other: MountFlags) -> bool {
        &&& other.bind ==> self.bind
        &&& other.recursive ==> self.recursive
        &&& other.private ==> self.private
        &&& other.slave ==> self.slave
    }

    /// No flag at all.
    pub fn empty() -> (flags: MountFlags)
        ensures
            flags == MountFlags::none(),
    {
        MountFlags { bind: false, recursive: false, private: false, slave: false }
    }

    /// Whether every flag set in `other` is set in `self` too.
    pub fn contains(&self, other: &MountFlags) -> (all: bool)
        ensures
            all == self.includes(*other),
    {
        (!other.bind || self.bind) && (!other.recursive || self.recursive) && (!other.private
            || self.private) && (!other.slave || self.slave)
    }
}

/// One mount of the container: where it comes from, where below the root
/// filesystem it goes, and how.
///
/// A bind mount, and the root filesystem itself, has a source and no
/// filesystem type; a virtual filesystem has a type and no source.
#[derive(Debug, PartialEq, Eq)]
pub struct Mount {
    source: Option<String>,
    relative_target: String,
    fstype: Option<String>,
    flags: MountFlags,
    data: Option<String>,
}

/// A [`Mount`] with its texts as sequences of characters.
pub struct MountView {
    /// Absolute path on the host; absent for a virtual filesystem.
    pub source: Option<Seq<char>>,
    /// Path below the container's root; empty for the root itself. It is
    /// taken as relative to the root even where it starts with a separator.
    pub relative_target: Seq<char>,
    /// Filesystem type; absent for a bind mount.
    pub fstype: Option<Seq<char>>,
    pub flags: MountFlags,
    /// Options for the filesystem.
    pub data: Option<Seq<char>>,
}

impl MountView {
    /// The container's root filesystem, taken from `source` on the host.
    pub open spec fn rootfs(source: Seq<char>) -> MountView {
        MountView {
            source: Some(source),
            relative_target: Seq::empty(),
            fstype: None,
            flags: MountFlags::private_bind(),
            data: None,
        }
    }

    /// A directory of the host shared with the container. Without flags of
    /// its own it is bound privately.
    pub open spec fn bind(
        source: Seq<char>,
        relative_target: Seq<char>,
        flags: Option<MountFlags>,
        data: Option<Seq<char>>,
    ) -> MountView {
        MountView {
            source: Some(source),
            relative_target,
            fstype: None,
            flags: match flags {
                Some(given) => given,
                None => MountFlags::private_bind(),
            },
            data,
        }
    }

    /// A `proc` filesystem.
    pub open spec fn procfs(relative_target: Seq<char>) -> MountView {
        MountView {
            source: None,
            relative_target,
            fstype: Some("proc"@),
            flags: MountFlags::none(),
            data: None,
        }
    }

    /// A `tmpfs` filesystem.
    pub open spec fn tmpfs(relative_target: Seq<char>) -> MountView {
        MountView {
            source: None,
            relative_target,
            fstype: Some("tmpfs"@),
            flags: MountFlags::none(),
            data: None,
        }
    }

    /// A mount has a source exactly if it has no filesystem type.
    pub open spec fn well_formed(self) -> bool {
        self.source is Some <==> self.fstype is None
    }

    /// The request that puts this mount in place below `root`. Its target
    /// never leaves the root.
    pub open spec fn realised(self, root: Seq<char>) -> KernelOpView {
        KernelOpView::Mount {
            source: self.source,
            target: joined(root, self.relative_target),
            fstype: self.fstype,
            flags: self.flags,
            data: self.data,
        }
    }
}

impl View for Mount {
    type V = MountView;

    closed spec fn view(&self) -> MountView {
        MountView {
            source: optional(self.source),
            relative_target: self.relative_target@,
            fstype: optional(self.fstype),
            flags: self.flags,
            data: optional(self.data),
        }
    }
}

impl Mount {
    #[verifier::type_invariant]
    pub open spec fn inv(&self) -> bool {
        self@.well_formed()
    }

    /// A directory of the host shared with the container. Without flags of
    /// its own it is bound privately.
    pub fn bind(
        source: String,
        relative_target: String,
        flags: Option<MountFlags>,
        data: Option<String>,
    ) -> (mount: Mount)
        ensures
            mount@ == MountView::bind(source@, relative_target@, flags, optional(data)),
    {
        let flags = match flags {
            Some(given) => given,
            None => MountFlags { bind: true, recursive: false, private: true, slave: false },
        };
        Mount { source: Some(source), relative_target, fstype: None, flags, data }
    }

    /// A `proc` filesystem. A container in a PID namespace of its own needs
    /// one that shows the processes of that namespace only.
    pub fn procfs(relative_target: String) -> (mount: Mount)
        ensures
            mount@ == MountView::procfs(relative_target@),
    {
        Mount {
            source: None,
            relative_target,
            fstype: Some(String::from_str("proc")),
            flags: MountFlags::empty(),
            data: None,
        }
    }

    /// The container's root filesystem, taken from `source` on the host.
    pub fn rootfs(source: String) -> (mount: Mount)
        ensures
            mount@ == MountView::rootfs(source@),
    {
        Mount {
            source: Some(source),
            relative_target: String::new(),
            fstype: None,
            flags: MountFlags { bind: true, recursive: false, private: true, slave: false },
            data: None,
        }
    }

    /// A `tmpfs` filesystem.
    pub fn tmpfs(relative_target: String) -> (mount: Mount)
        ensures
            mount@ == MountView::tmpfs(relative_target@),
    {
        Mount {
            source: None,
            relative_target,
            fstype: Some(String::from_str("tmpfs")),
            flags: MountFlags::empty(),
            data: None,
        }
    }

    /// Absolute path on the host; absent for a virtual filesystem.
    pub fn source(&self) -> (source: &Option<String>)
        ensures
            optional(*source) == self@.source,
    {
        &self.source
    }

    /// Path below the container's root; empty for the root itself.
    pub fn relative_target(&self) -> (target: &String)
        ensures
            target@ == self@.relative_target,
    {
        &self.relative_target
    }

    /// Filesystem type; absent for a bind mount.
    pub fn fstype(&self) -> (fstype: &Option<String>)
        ensures
            optional(*fstype) == self@.fstype,
    {
        &self.fstype
    }

    pub fn flags(&self) -> (flags: MountFlags)
        ensures
            flags == self@.flags,
    {
        self.flags
    }

    /// Options for the filesystem.
    pub fn data(&self) -> (data: &Option<String>)
        ensures
            optional(*data) == self@.data,
    {
        &self.data
    }

    /// The request that puts this mount in place below `rootfs_path`. Its
    /// target is the absolute path at which the mount will be found.
    pub fn mount(&self, rootfs_path: &str) -> (op: KernelOp)
        ensures
            op@ == self@.realised(rootfs_path@),
    {
        KernelOp::Mount {
            source: copy_optional(&self.source),
            target: join(rootfs_path, self.relative_target.as_str()),
            fstype: copy_optional(&self.fstype),
            flags: self.flags,
            data: copy_optional(&self.data),
        }
    }
}

impl Clone for Mount {
    fn clone(&self) -> (copy: Mount)
        ensures
            copy@ == self@,
    {
        proof {
            use_type_invariant(self);
        }
        Mount {
            source: copy_optional(&self.source),
            relative_target: self.relative_target.clone(),
            fstype: copy_optional(&self.fstype),
            flags: self.flags,
            data: copy_optional(&self.data),
        }
    }
}

/// One character device to be created under `/dev`.
#[derive(Debug, PartialEq, Eq)]
pub struct DeviceNode {
    /// Path of the node below `/dev`, without that prefix. It is taken as
    /// relative to `/dev` even where it starts with a separator.
    pub path: String,
    /// Major device number (1 for `/dev/null`).
    pub major: u64,
    /// Minor device number (3 for `/dev/null`).
    pub minor: u64,
}

/// A [`DeviceNode`] with its path as a sequence of characters.
pub struct DeviceNodeView {
    pub path: Seq<char>,
    pub major: u64,
    pub minor: u64,
}

impl DeviceNodeView {
    /// The request that creates this node in the directory `dev_path`.
    pub open spec fn realised(self, dev_path: Seq<char>) -> KernelOpView {
        KernelOpView::MakeCharDevice {
            path: joined(dev_path, self.path),
            mode: DEVICE_NODE_MODE,
            device: device_number(self.major, self.minor),
        }
    }
}

impl View for DeviceNode {
    type V = DeviceNodeView;

    open spec fn view(&self) -> DeviceNodeView {
        DeviceNodeView { path: self.path@, major: self.major, minor: self.minor }
    }
}

impl Clone for DeviceNode {
    fn clone(&self) -> (copy: DeviceNode)
        ensures
            copy@ == self@,
    {
        DeviceNode { path: self.path.clone(), major: self.major, minor: self.minor }
    }
}

impl DeviceNode {
    /// The request that creates this node in the directory `dev_path`.
    pub fn make_node(&self, dev_path: &str) -> (op: KernelOp)
        ensures
            op@ == self@.realised(dev_path@),
    {
        KernelOp::MakeCharDevice {
            path: join(dev_path, self.path.as_str()),
            mode: DEVICE_NODE_MODE,
            device: make_device_number(self.major, self.minor),
        }
    }
}

/// A list of mounts as the sequence of their views.
pub open spec fn mount_views(mounts: Seq<Mount>) -> Seq<MountView> {
    Seq::new(mounts.len(), |i: int| mounts[i]@)
}

/// A list of device nodes as the sequence of their views.
pub open spec fn device_views(devices: Seq<DeviceNode>) -> Seq<DeviceNodeView> {
    Seq::new(devices.len(), |i: int| devices[i]@)
}

} // verus!
