//! What holds of the launcher as a whole, stated over the views of its
//! types and proved from the definitions that the contracts use.

use vstd::prelude::*;

use crate::configuration::ConfigurationView;
use crate::consts::{DEFAULT_CONTAINER_STACK_SIZE, UNLIMITED_STACK};
use crate::container::{
    child_program, child_run, command_executed, root_entered, status_after, step_after,
    step_first, ChildStep, ContainerState, ContainerView,
};
use crate::container_builder::{
    allocatable, chosen_stack_size, default_devices, default_mounts, BuilderView,
};
use crate::error::ErrorView;
use crate::host::device_number;
use crate::kernel::KernelOpView;
use crate::mount::{DeviceNodeView, MountFlags, MountView};
use crate::namespace::{
    descriptor_links, detach_root, mount_namespace_set_up, mounts_realised, namespaces_set_up,
    nodes_realised, pivot, private_root, self_bind, slave_root,
};
use crate::path::{is_absolute, joined, made_relative, SEPARATOR};

verus! {

/// A configuration is rejected exactly if its root filesystem is absent, the
/// source of its root filesystem is no directory, or its command is absent.
pub proof fn lemma_validation(config: ConfigurationView, rootfs_is_directory: bool)
    ensures
        config.validated(rootfs_is_directory) is Err <==> config.rootfs is None
            || !rootfs_is_directory || config.command is None,
        config.rootfs is None ==> config.validated(rootfs_is_directory) == Err::<(), ErrorView>(
            ErrorView::MissingRequiredConfiguration("rootfs"@),
        ),
{
}

/// A running container refuses to run, whatever its configuration.
pub proof fn lemma_running_refuses(container: ContainerView, rootfs_is_directory: bool)
    requires
        container.state is Running,
    ensures
        container.run(rootfs_is_directory) is Err,
        container.run(rootfs_is_directory)->Err_0 == ErrorView::AlreadyRunning,
{
}

/// A container that has been launched, and not waited for, refuses to be
/// launched again.
pub proof fn lemma_run_twice(container: ContainerView, pid: i32, rootfs_is_directory: bool)
    requires
        !(container.state is Running),
    ensures
        container.spawned(Ok(pid)).state is Running,
        container.spawned(Ok(pid)).pid == Some(pid),
        container.spawned(Ok(pid)).run(rootfs_is_directory) is Err,
        container.spawned(Ok(pid)).run(rootfs_is_directory)->Err_0 == ErrorView::AlreadyRunning,
{
}

/// A failed clone leaves the container where it was.
pub proof fn lemma_failed_clone(container: ContainerView, errno: i32)
    ensures
        container.spawned(Err(errno)) == container,
        !(container.state is Running) ==> container.spawn_checked(Err(errno)) is Err,
{
}

/// Waiting for the child leaves the container exited, without a process id,
/// and ready to be launched again on the same terms as before it ran.
pub proof fn lemma_wait_exits(container: ContainerView, rootfs_is_directory: bool)
    ensures
        container.exited().state is Exited,
        container.exited().pid is None,
        container.exited().config == container.config,
        container.exited().stack == container.stack,
        !(container.state is Running) ==> container.exited().run(rootfs_is_directory)
            == container.run(rootfs_is_directory),
{
}

/// No step in the life of a container breaks the rule that it holds a
/// process id exactly while it runs.
pub proof fn lemma_steps_keep_well_formed(container: ContainerView, cloned: Result<i32, i32>)
    requires
        container.well_formed(),
    ensures
        container.spawned(cloned).well_formed(),
        container.exited().well_formed(),
{
}

/// The size of the child's stack: what the caller asked for, if anything;
/// else the soft stack limit, if it is known and finite; else the default.
pub proof fn lemma_stack_sizing(requested: u64, limit: u64, any: Option<u64>)
    ensures
        chosen_stack_size(Some(requested), any) == requested,
        limit != UNLIMITED_STACK ==> chosen_stack_size(None, Some(limit)) == limit,
        chosen_stack_size(None, Some(UNLIMITED_STACK)) == DEFAULT_CONTAINER_STACK_SIZE,
        chosen_stack_size(None, None) == DEFAULT_CONTAINER_STACK_SIZE,
{
}

/// A container that was built has not been created, holds what the builder
/// had collected, and has a stack of exactly the chosen size.
pub proof fn lemma_built_container(builder: BuilderView, soft_limit: Option<u64>)
    requires
        allocatable(chosen_stack_size(builder.stack_size, soft_limit)),
    ensures
        builder.built(soft_limit) is Ok,
        builder.built(soft_limit)->Ok_0.state is NotCreated,
        builder.built(soft_limit)->Ok_0.pid is None,
        builder.built(soft_limit)->Ok_0.config == builder.config,
        builder.built(soft_limit)->Ok_0.stack.len() == chosen_stack_size(
            builder.stack_size,
            soft_limit,
        ),
{
}

/// The default mounts are, in this order, a `proc` filesystem at `proc`, a
/// `tmpfs` at `tmp` and a `tmpfs` at `dev`; added to no mounts, they are the
/// whole list.
pub proof fn lemma_default_mounts()
    ensures
        default_mounts().len() == 3,
        default_mounts()[0] == MountView::procfs("proc"@),
        default_mounts()[1] == MountView::tmpfs("tmp"@),
        default_mounts()[2] == MountView::tmpfs("dev"@),
        Seq::<MountView>::empty() + default_mounts() == default_mounts(),
{
    assert(Seq::<MountView>::empty() + default_mounts() =~= default_mounts());
}

/// The default devices are, in this order, `null` 1:3, `zero` 1:5, `full`
/// 1:7, `tty` 5:0, `urandom` 1:9 and `random` 1:8; added to no devices, they
/// are the whole list.
pub proof fn lemma_default_devices()
    ensures
        default_devices().len() == 6,
        default_devices()[0] == (DeviceNodeView { path: "null"@, major: 1, minor: 3 }),
        default_devices()[1] == (DeviceNodeView { path: "zero"@, major: 1, minor: 5 }),
        default_devices()[2] == (DeviceNodeView { path: "full"@, major: 1, minor: 7 }),
        default_devices()[3] == (DeviceNodeView { path: "tty"@, major: 5, minor: 0 }),
        default_devices()[4] == (DeviceNodeView { path: "urandom"@, major: 1, minor: 9 }),
        default_devices()[5] == (DeviceNodeView { path: "random"@, major: 1, minor: 8 }),
        Seq::<DeviceNodeView>::empty() + default_devices() == default_devices(),
{
    assert(Seq::<DeviceNodeView>::empty() + default_devices() =~= default_devices());
}

/// A bind mount without flags of its own, put in place below `root`, is a
/// mount request from its source to the target placed below the root, with
/// flags that include bind and private; the target starts with the root,
/// whatever the relative target is written like.
pub proof fn lemma_bind_realised(source: Seq<char>, relative_target: Seq<char>, root: Seq<char>)
    ensures
        MountView::bind(source, relative_target, None, None).realised(root) == (
        KernelOpView::Mount {
            source: Some(source),
            target: joined(root, relative_target),
            fstype: None,
            flags: MountFlags::private_bind(),
            data: None,
        }),
        MountFlags::private_bind().includes(
            MountFlags { bind: true, recursive: false, private: true, slave: false },
        ),
        MountView::bind(source, relative_target, None, None).well_formed(),
        root.is_prefix_of(joined(root, relative_target)),
{
    lemma_join_stays_below(root, relative_target);
}

/// Each kind of mount keeps the rule of sources: the root filesystem and a
/// bind mount have a source and no filesystem type, a virtual filesystem has
/// a type and no source.
pub proof fn lemma_mount_kinds(
    source: Seq<char>,
    relative_target: Seq<char>,
    flags: Option<MountFlags>,
    data: Option<Seq<char>>,
)
    ensures
        MountView::rootfs(source).well_formed(),
        MountView::rootfs(source).source is Some,
        MountView::bind(source, relative_target, flags, data).well_formed(),
        MountView::bind(source, relative_target, flags, data).source is Some,
        MountView::procfs(relative_target).well_formed(),
        MountView::procfs(relative_target).source is None,
        MountView::tmpfs(relative_target).well_formed(),
        MountView::tmpfs(relative_target).source is None,
{
}

/// A fragment that is written without a leading separator is appended as
/// it is: the result ends with it, and has at most one separator between
/// the base and the fragment.
pub proof fn lemma_join_relative(base: Seq<char>, fragment: Seq<char>)
    requires
        !is_absolute(fragment),
    ensures
        made_relative(fragment) == fragment,
        joined(base, fragment) == if base.len() == 0 || base.last() == SEPARATOR {
            base + fragment
        } else {
            base.push(SEPARATOR) + fragment
        },
        fragment.is_suffix_of(joined(base, fragment)),
{
    let whole = joined(base, fragment);
    assert(whole.subrange(whole.len() - fragment.len(), whole.len() as int) =~= fragment);
}

/// A fragment without its leading separators does not start with one,
/// is the end of the fragment, and is the whole fragment where that did not
/// start with a separator.
pub proof fn lemma_made_relative(fragment: Seq<char>)
    ensures
        !is_absolute(made_relative(fragment)),
        made_relative(fragment).is_suffix_of(fragment),
        made_relative(made_relative(fragment)) == made_relative(fragment),
    decreases fragment.len(),
{
    if is_absolute(fragment) {
        let rest = fragment.drop_first();
        lemma_made_relative(rest);
        let kept = made_relative(rest);
        assert(rest.subrange(rest.len() - kept.len(), rest.len() as int) == kept);
        assert(fragment.subrange(fragment.len() - kept.len(), fragment.len() as int)
            =~= rest.subrange(rest.len() - kept.len(), rest.len() as int));
    } else {
        assert(fragment.subrange(0, fragment.len() as int) =~= fragment);
    }
}

/// Leading separators make no difference to where a fragment lands.
pub proof fn lemma_join_ignores_leading_separator(base: Seq<char>, fragment: Seq<char>)
    ensures
        joined(base, seq![SEPARATOR] + fragment) == joined(base, fragment),
        joined(base, made_relative(fragment)) == joined(base, fragment),
{
    let longer = seq![SEPARATOR] + fragment;
    assert(longer.drop_first() =~= fragment);
    lemma_made_relative(fragment);
}

/// Whatever the fragment, it lands below the base: the result starts with
/// the base, and what follows the base is at most a separator and the
/// fragment.
pub proof fn lemma_join_stays_below(base: Seq<char>, fragment: Seq<char>)
    ensures
        base.is_prefix_of(joined(base, fragment)),
        base.len() <= joined(base, fragment).len() <= base.len() + 1 + fragment.len(),
{
    lemma_made_relative(fragment);
    let whole = joined(base, fragment);
    assert(whole.subrange(0, base.len() as int) =~= base);
}

/// A fragment placed below the empty base is the fragment without its
/// leading separators.
pub proof fn lemma_join_from_empty(fragment: Seq<char>)
    ensures
        joined(Seq::empty(), fragment) == made_relative(fragment),
{
    assert(Seq::<char>::empty() + made_relative(fragment) =~= made_relative(fragment));
}

/// Every mount lands below the root it is put in place against, whatever
/// its target is written like: the target of the request starts with the
/// path of the root.
pub proof fn lemma_mount_below_root(mount: MountView, root: Seq<char>)
    ensures
        mount.realised(root) matches KernelOpView::Mount { target, .. } && root.is_prefix_of(
            target,
        ),
{
    lemma_join_stays_below(root, mount.relative_target);
}

/// Every device node lands in the directory it is created in, whatever its
/// name is written like.
pub proof fn lemma_node_below_dev(device: DeviceNodeView, dev_path: Seq<char>)
    ensures
        device.realised(dev_path) matches KernelOpView::MakeCharDevice { path, .. }
            && dev_path.is_prefix_of(path),
{
    lemma_join_stays_below(dev_path, device.path);
}

/// Nothing that the setup mounts, creates or links lies outside the root
/// filesystem: the target of every mount of the configuration, the path of
/// every device node and the place of every descriptor link start with the
/// path of the root.
pub proof fn lemma_setup_stays_below_root(
    source: Seq<char>,
    mounts: Seq<MountView>,
    devices: Seq<DeviceNodeView>,
)
    ensures
        forall|i: int|
            0 <= i < mounts.len() ==> (#[trigger] mounts_realised(source, mounts)[i]
                matches KernelOpView::Mount { target, .. } && source.is_prefix_of(target)),
        forall|j: int|
            0 <= j < devices.len() ==> (#[trigger] nodes_realised(
                joined(source, "dev"@),
                devices,
            )[j] matches KernelOpView::MakeCharDevice { path, .. } && source.is_prefix_of(path)),
        forall|k: int|
            0 <= k < 4 ==> (#[trigger] descriptor_links(joined(source, "dev"@))[k]
                matches KernelOpView::Symlink { link, .. } && source.is_prefix_of(link)),
{
    let dev = joined(source, "dev"@);
    lemma_join_stays_below(source, "dev"@);
    assert forall|i: int| 0 <= i < mounts.len() implies (#[trigger] mounts_realised(
        source,
        mounts,
    )[i] matches KernelOpView::Mount { target, .. } && source.is_prefix_of(target)) by {
        lemma_mount_below_root(mounts[i], source);
    }
    assert forall|j: int| 0 <= j < devices.len() implies (#[trigger] nodes_realised(dev, devices)[j]
        matches KernelOpView::MakeCharDevice { path, .. } && source.is_prefix_of(path)) by {
        lemma_node_below_dev(devices[j], dev);
        lemma_prefix_of_prefix(source, dev, joined(dev, devices[j].path));
    }
    lemma_join_stays_below(dev, "fd"@);
    lemma_join_stays_below(dev, "stdin"@);
    lemma_join_stays_below(dev, "stdout"@);
    lemma_join_stays_below(dev, "stderr"@);
    lemma_prefix_of_prefix(source, dev, joined(dev, "fd"@));
    lemma_prefix_of_prefix(source, dev, joined(dev, "stdin"@));
    lemma_prefix_of_prefix(source, dev, joined(dev, "stdout"@));
    lemma_prefix_of_prefix(source, dev, joined(dev, "stderr"@));
}

/// From the bind of the new root onto itself up to the pivot, every request
/// of the setup acts on the root filesystem or on a path below it. Only the
/// remounts of `/` and the detach of the old root act elsewhere.
pub proof fn lemma_setup_acts_below_root(
    source: Seq<char>,
    mounts: Seq<MountView>,
    devices: Seq<DeviceNodeView>,
    at: int,
)
    requires
        1 <= at <= mounts.len() + devices.len() + 6,
    ensures
        source.is_prefix_of(mount_namespace_set_up(source, mounts, devices)[at].place()),
{
    let ops = mount_namespace_set_up(source, mounts, devices);
    let m = mounts.len() as int;
    let d = devices.len() as int;
    let dev = joined(source, "dev"@);
    lemma_setup_order(source, mounts, devices);
    lemma_setup_stays_below_root(source, mounts, devices);
    if at == 1 || at == m + d + 6 {
        assert(source.subrange(0, source.len() as int) =~= source);
    } else if at < 2 + m {
        let i = at - 2;
        assert(ops[2 + i] == mounts[i].realised(source));
        assert(mounts_realised(source, mounts)[i] == mounts[i].realised(source));
    } else if at < 2 + m + d {
        let j = at - 2 - m;
        assert(ops[2 + m + j] == devices[j].realised(dev));
        assert(nodes_realised(dev, devices)[j] == devices[j].realised(dev));
    } else {
        let k = at - 2 - m - d;
        assert(ops[2 + m + d + k] == descriptor_links(dev)[k]);
    }
}

/// What starts a path that starts another path starts that one too.
proof fn lemma_prefix_of_prefix(a: Seq<char>, b: Seq<char>, c: Seq<char>)
    requires
        a.is_prefix_of(b),
        b.is_prefix_of(c),
    ensures
        a.is_prefix_of(c),
{
    assert(c.subrange(0, a.len() as int) =~= b.subrange(0, a.len() as int));
}

/// The default mounts are written without a leading separator, so each
/// lands at the root's path, a separator where one is needed, and its name.
pub proof fn lemma_default_mounts_below_root(root: Seq<char>, i: int)
    requires
        0 <= i < 3,
    ensures
        mounts_realised(root, default_mounts())[i] matches KernelOpView::Mount { target, .. }
            && root.is_prefix_of(target) && default_mounts()[i].relative_target.is_suffix_of(
            target,
        ),
{
    reveal_strlit("proc");
    reveal_strlit("tmp");
    reveal_strlit("dev");
    lemma_join_relative(root, "proc"@);
    lemma_join_relative(root, "tmp"@);
    lemma_join_relative(root, "dev"@);
    lemma_mount_below_root(default_mounts()[i], root);
}

/// Where both numbers are small, twelve bits of major number sit above
/// eight bits of minor number.
pub proof fn lemma_small_device_number(major: u64, minor: u64)
    requires
        major < 4096,
        minor < 256,
    ensures
        device_number(major, minor) == major * 256 + minor,
{
    assert(((major & 0xffff_f000) << 32) | ((major & 0x0000_0fff) << 8) | ((minor & 0xffff_ff00)
        << 12) | (minor & 0x0000_00ff) == major * 256 + minor) by (bit_vector)
        requires
            major < 4096,
            minor < 256,
    ;
}

/// The setup of the mount namespace, request by request: the private
/// remount of the root, the bind of the new root onto itself, the mounts in
/// the order of their declaration, the device nodes in the order of theirs,
/// the four descriptor links, the pivot, the slave remount and the detach of
/// the old root.
pub proof fn lemma_setup_order(
    source: Seq<char>,
    mounts: Seq<MountView>,
    devices: Seq<DeviceNodeView>,
)
    ensures
        ({
            let ops = mount_namespace_set_up(source, mounts, devices);
            let dev = joined(source, "dev"@);
            let m = mounts.len() as int;
            let d = devices.len() as int;
            &&& ops.len() == m + d + 9
            &&& ops[0] == private_root()
            &&& ops[1] == self_bind(source)
            &&& forall|i: int| 0 <= i < m ==> #[trigger] ops[2 + i] == mounts[i].realised(source)
            &&& forall|j: int|
                0 <= j < d ==> #[trigger] ops[2 + m + j] == devices[j].realised(dev)
            &&& forall|k: int|
                0 <= k < 4 ==> #[trigger] ops[2 + m + d + k] == descriptor_links(dev)[k]
            &&& ops[m + d + 6] == pivot(source)
            &&& ops[m + d + 7] == slave_root()
            &&& ops[m + d + 8] == detach_root()
        }),
{
}

/// The root is made private before anything else is asked of the kernel,
/// and nothing is mounted, created or pivoted after the old root has been
/// detached.
pub proof fn lemma_private_first_detach_last(
    source: Seq<char>,
    mounts: Seq<MountView>,
    devices: Seq<DeviceNodeView>,
)
    ensures
        mount_namespace_set_up(source, mounts, devices).first() == private_root(),
        mount_namespace_set_up(source, mounts, devices).last() == detach_root(),
{
    lemma_setup_order(source, mounts, devices);
}

/// What the kernel wants to see before it pivots is there: the current root
/// has been made private and the new root has been bound onto itself,
/// privately, before the pivot is asked for; and the pivot puts the old root
/// at the place of the new one.
pub proof fn lemma_pivot_is_prepared(
    source: Seq<char>,
    mounts: Seq<MountView>,
    devices: Seq<DeviceNodeView>,
)
    ensures
        ({
            let ops = mount_namespace_set_up(source, mounts, devices);
            let at_pivot = mounts.len() as int + devices.len() as int + 6;
            &&& 1 < at_pivot < ops.len()
            &&& ops[0] == private_root()
            &&& ops[1] == self_bind(source)
            &&& ops[at_pivot] == (KernelOpView::PivotRoot { new_root: source, put_old: source })
            &&& ops[1] matches KernelOpView::Mount { target, flags, .. } && target == source
                && flags.bind && flags.private
            &&& ops[0] matches KernelOpView::Mount { flags, .. } && flags.recursive
                && flags.private
        }),
{
    lemma_setup_order(source, mounts, devices);
}

/// Every mount of the configuration is in place before the first device
/// node is created, so the nodes land in the `/dev` that was mounted for
/// them; and every node exists before the root is pivoted.
pub proof fn lemma_mounts_before_nodes_before_pivot(
    source: Seq<char>,
    mounts: Seq<MountView>,
    devices: Seq<DeviceNodeView>,
    i: int,
    j: int,
)
    requires
        0 <= i < mounts.len(),
        0 <= j < devices.len(),
    ensures
        ({
            let ops = mount_namespace_set_up(source, mounts, devices);
            let m = mounts.len() as int;
            let d = devices.len() as int;
            let at_mount = 2 + i;
            let at_node = 2 + m + j;
            let at_pivot = m + d + 6;
            &&& ops[at_mount] == mounts[i].realised(source)
            &&& ops[at_node] == devices[j].realised(joined(source, "dev"@))
            &&& ops[at_pivot] == pivot(source)
            &&& 0 < at_mount < at_node < at_pivot < ops.len()
        }),
{
    lemma_setup_order(source, mounts, devices);
}

/// A container without a root filesystem sets up nothing; one with a root
/// filesystem goes through the whole sequence.
pub proof fn lemma_setup_needs_rootfs(config: ConfigurationView)
    ensures
        config.rootfs is None ==> namespaces_set_up(config).len() == 0,
        config.rootfs is Some ==> namespaces_set_up(config).len() == config.mounts.len()
            + config.devices.len() + 9,
{
    if config.rootfs is Some {
        lemma_setup_order(config.rootfs_source(), config.mounts, config.devices);
    }
}

/// The child sets up its namespaces first, enters the new root next, and
/// starts its program last, with the command itself as the first argument.
pub proof fn lemma_child_program(config: ConfigurationView)
    requires
        config.command is Some,
    ensures
        ({
            let program = child_program(config);
            let n = namespaces_set_up(config).len() as int;
            &&& program.len() == n + 2
            &&& program.subrange(0, n) == namespaces_set_up(config)
            &&& program[n] == root_entered()
            &&& program[n + 1] == command_executed(config.command.unwrap(), config.arguments)
            &&& program[n + 1] matches KernelOpView::Exec { command, argv }
            &&& argv.len() == config.arguments.len() + 1
            &&& argv[0] == command
            &&& argv.subrange(1, argv.len() as int) == config.arguments
        }),
{
    let program = child_program(config);
    let n = namespaces_set_up(config).len() as int;
    assert(program.subrange(0, n) =~= namespaces_set_up(config));
    let argv = seq![config.command.unwrap()] + config.arguments;
    assert(argv.subrange(1, argv.len() as int) =~= config.arguments);
}

/// A child goes through its program in order: it starts with the first
/// request, and after a request that was not refused the next one follows.
pub proof fn lemma_child_goes_in_order(program: Seq<KernelOpView>, index: int)
    requires
        0 <= index < program.len() <= usize::MAX,
    ensures
        step_first(program) == ChildStep::Request(0),
        index + 1 < program.len() ==> step_after(program, index, false) == ChildStep::Request(
            (index + 1) as usize,
        ),
        index + 1 == program.len() ==> step_after(program, index, false) == ChildStep::Exit(0),
{
}

/// A refused request ends the child at once, with a status other than zero:
/// 126 for the request that starts the program, the status of a failed setup
/// for any other.
pub proof fn lemma_refusal_ends_child(program: Seq<KernelOpView>, index: int)
    requires
        0 <= index < program.len(),
    ensures
        step_after(program, index, true) == ChildStep::Exit(status_after(program[index])),
        status_after(program[index]) != 0,
        program[index] is Exec ==> status_after(program[index]) == 126,
{
}

/// Where the kernel refuses the request at `refused_at`, the child has made
/// the requests up to that one and no other: nothing is asked after a
/// refusal, so a refused node is followed by no further node and no link, and
/// a refused mount by nothing at all.
pub proof fn lemma_child_stops_at_refusal(
    program: Seq<KernelOpView>,
    index: int,
    refused_at: int,
)
    requires
        0 <= index <= refused_at < program.len(),
    ensures
        child_run(program, index, Some(refused_at)) == (
            refused_at + 1,
            status_after(program[refused_at]),
        ),
    decreases refused_at - index,
{
    if index < refused_at {
        lemma_child_stops_at_refusal(program, index + 1, refused_at);
    }
}

/// Where the kernel refuses nothing, the child makes every request of its
/// program.
pub proof fn lemma_child_runs_to_the_end(program: Seq<KernelOpView>, index: int)
    requires
        0 <= index < program.len(),
    ensures
        child_run(program, index, None) == (program.len() as int, 0isize),
    decreases program.len() - index,
{
    if index + 1 < program.len() {
        lemma_child_runs_to_the_end(program, index + 1);
    }
}

} // verus!
