//! The vocabulary in which the launcher speaks to the kernel.
//!
//! A [`KernelOp`] is one request, with every argument spelled out. The
//! launcher only ever produces lists of them; performing one is left to the
//! caller, who reports the errno if the kernel refuses.

use vstd::prelude::*;

use crate::mount::MountFlags;
use crate::text::{copy_each, copy_optional, each, optional};

verus! {

/// One request to the kernel.
#[derive(Debug, PartialEq, Eq)]
pub enum KernelOp {
    /// `mount(2)`: attach a filesystem at `target`, or change how the mount
    /// at `target` propagates. Absent values are passed as null.
    Mount {
        source: Option<String>,
        target: String,
        fstype: Option<String>,
        flags: MountFlags,
        data: Option<String>,
    },
    /// `mknod(2)` of a character device with the given permission bits and
    /// device number.
    MakeCharDevice { path: String, mode: u32, device: u64 },
    /// `symlinkat(2)` relative to the working directory: `link` becomes a
    /// symbolic link to `target`.
    Symlink { target: String, link: String },
    /// `pivot_root(2)`.
    PivotRoot { new_root: String, put_old: String },
    /// `umount2(2)`, lazily when `detach` is set.
    Unmount { target: String, detach: bool },
    /// `chdir(2)`.
    ChangeDir { path: String },
    /// `execv(3)`: replace the process image. A process that is still there
    /// after this request has failed to start its program.
    Exec { command: String, argv: Vec<String> },
}

/// A [`KernelOp`] with its texts as sequences of characters.
pub enum KernelOpView {
    Mount {
        source: Option<Seq<char>>,
        target: Seq<char>,
        fstype: Option<Seq<char>>,
        flags: MountFlags,
        data: Option<Seq<char>>,
    },
    MakeCharDevice { path: Seq<char>, mode: u32, device: u64 },
    Symlink { target: Seq<char>, link: Seq<char> },
    PivotRoot { new_root: Seq<char>, put_old: Seq<char> },
    Unmount { target: Seq<char>, detach: bool },
    ChangeDir { path: Seq<char> },
    Exec { command: Seq<char>, argv: Seq<Seq<char>> },
}

impl KernelOpView {
    /// The path that the request acts on: where it mounts, creates, links,
    /// pivots to, unmounts, changes to, or what it starts.
    pub open spec fn place(self) -> Seq<char> {
        match self {
            KernelOpView::Mount { target, .. } => target,
            KernelOpView::MakeCharDevice { path, .. } => path,
            KernelOpView::Symlink { link, .. } => link,
            KernelOpView::PivotRoot { new_root, .. } => new_root,
            KernelOpView::Unmount { target, .. } => target,
            KernelOpView::ChangeDir { path } => path,
            KernelOpView::Exec { command, .. } => command,
        }
    }
}

impl View for KernelOp {
    type V = KernelOpView;

    open spec fn view(&self) -> KernelOpView {
        match self {
            KernelOp::Mount { source, target, fstype, flags, data } => KernelOpView::Mount {
                source: optional(*source),
                target: target@,
                fstype: optional(*fstype),
                flags: *flags,
                data: optional(*data),
            },
            KernelOp::MakeCharDevice { path, mode, device } => KernelOpView::MakeCharDevice {
                path: path@,
                mode: *mode,
                device: *device,
            },
            KernelOp::Symlink { target, link } => KernelOpView::Symlink {
                target: target@,
                link: link@,
            },
            KernelOp::PivotRoot { new_root, put_old } => KernelOpView::PivotRoot {
                new_root: new_root@,
                put_old: put_old@,
            },
            KernelOp::Unmount { target, detach } => KernelOpView::Unmount {
                target: target@,
                detach: *detach,
            },
            KernelOp::ChangeDir { path } => KernelOpView::ChangeDir { path: path@ },
            KernelOp::Exec { command, argv } => KernelOpView::Exec {
                command: command@,
                argv: each(argv@),
            },
        }
    }
}

impl Clone for KernelOp {
    fn clone(&self) -> (copy: KernelOp)
        ensures
            copy@ == self@,
    {
        match self {
            KernelOp::Mount { source, target, fstype, flags, data } => KernelOp::Mount {
                source: copy_optional(source),
                target: target.clone(),
                fstype: copy_optional(fstype),
                flags: *flags,
                data: copy_optional(data),
            },
            KernelOp::MakeCharDevice { path, mode, device } => KernelOp::MakeCharDevice {
                path: path.clone(),
                mode: *mode,
                device: *device,
            },
            KernelOp::Symlink { target, link } => KernelOp::Symlink {
                target: target.clone(),
                link: link.clone(),
            },
            KernelOp::PivotRoot { new_root, put_old } => KernelOp::PivotRoot {
                new_root: new_root.clone(),
                put_old: put_old.clone(),
            },
            KernelOp::Unmount { target, detach } => KernelOp::Unmount {
                target: target.clone(),
                detach: *detach,
            },
            KernelOp::ChangeDir { path } => KernelOp::ChangeDir { path: path.clone() },
            KernelOp::Exec { command, argv } => KernelOp::Exec {
                command: command.clone(),
                argv: copy_each(argv),
            },
        }
    }
}

/// A list of requests, in the order in which they are to be made.
pub open spec fn plan(ops: Seq<KernelOp>) -> Seq<KernelOpView> {
    Seq::new(ops.len(), |i: int| ops[i]@)
}

/// A copy of a list of requests.
pub(crate) fn copy_plan(ops: &Vec<KernelOp>) -> (copy: Vec<KernelOp>)
    ensures
        plan(copy@) == plan(ops@),
{
    let mut copy: Vec<KernelOp> = Vec::new();
    let mut i: usize = 0;
    while i < ops.len()
        invariant
            i <= ops.len(),
            copy.len() == i,
            forall|k: int| 0 <= k < i ==> copy[k]@ == ops[k]@,
        decreases ops.len() - i,
    {
        copy.push(ops[i].clone());
        i += 1;
    }
    assert(plan(copy@) =~= plan(ops@));
    copy
}

} // verus!
