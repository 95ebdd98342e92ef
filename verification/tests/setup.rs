use libcarton::container::execute_command;
use libcarton::namespace::{
    create_device_nodes, mount_rootfs, prepare_rootfs, setup_mount_namespace, setup_namespaces,
};
use libcarton::{ContainerBuilder, ContainerConfiguration, DeviceNode, KernelOp, Mount, MountFlags};

const NONE: MountFlags = MountFlags { bind: false, recursive: false, private: false, slave: false };
const PRIVATE_BIND: MountFlags =
    MountFlags { bind: true, recursive: false, private: true, slave: false };
const PRIVATE_TREE: MountFlags =
    MountFlags { bind: false, recursive: true, private: true, slave: false };
const SLAVE_TREE: MountFlags =
    MountFlags { bind: false, recursive: true, private: false, slave: true };

fn mount(
    source: Option<&str>,
    target: &str,
    fstype: Option<&str>,
    flags: MountFlags,
) -> KernelOp {
    KernelOp::Mount {
        source: source.map(str::to_string),
        target: target.to_string(),
        fstype: fstype.map(str::to_string),
        flags,
        data: None,
    }
}

fn node(path: &str, device: u64) -> KernelOp {
    KernelOp::MakeCharDevice { path: path.to_string(), mode: 0o666, device }
}

fn link(target: &str, link: &str) -> KernelOp {
    KernelOp::Symlink { target: target.to_string(), link: link.to_string() }
}

fn full_setup() -> Vec<KernelOp> {
    vec![
        mount(None, "/", None, PRIVATE_TREE),
        mount(Some("/srv/root"), "/srv/root", None, PRIVATE_BIND),
        mount(None, "/srv/root/proc", Some("proc"), NONE),
        mount(None, "/srv/root/tmp", Some("tmpfs"), NONE),
        mount(None, "/srv/root/dev", Some("tmpfs"), NONE),
        mount(Some("/home/me"), "/srv/root/mnt/me", None, PRIVATE_BIND),
        node("/srv/root/dev/null", 0x103),
        node("/srv/root/dev/zero", 0x105),
        node("/srv/root/dev/full", 0x107),
        node("/srv/root/dev/tty", 0x500),
        node("/srv/root/dev/urandom", 0x109),
        node("/srv/root/dev/random", 0x108),
        link("/proc/self/fd", "/srv/root/dev/fd"),
        link("/proc/self/fd/0", "/srv/root/dev/stdin"),
        link("/proc/self/fd/1", "/srv/root/dev/stdout"),
        link("/proc/self/fd/2", "/srv/root/dev/stderr"),
        KernelOp::PivotRoot { new_root: "/srv/root".to_string(), put_old: "/srv/root".to_string() },
        mount(None, "/", None, SLAVE_TREE),
        KernelOp::Unmount { target: "/".to_string(), detach: true },
    ]
}

fn full_builder() -> ContainerBuilder {
    ContainerBuilder::new()
        .stack_size(4096)
        .rootfs("/srv/root".to_string())
        .command("/bin/sh".to_string(), Some(vec!["-c".to_string(), "true".to_string()]))
        .add_default_mounts()
        .add_mount("/home/me".to_string(), "mnt/me".to_string())
        .add_default_devices()
}

#[test]
fn setup_is_the_whole_sequence_in_order() {
    let builder = full_builder();
    assert_eq!(setup_namespaces(builder.config()), full_setup());
    assert_eq!(setup_mount_namespace(builder.config()), full_setup());
}

#[test]
fn setup_without_rootfs_asks_nothing() {
    let config = ContainerConfiguration::new()
        .with_command("/bin/true".to_string(), Vec::new())
        .with_mount(Mount::procfs("proc".to_string()))
        .with_device(DeviceNode { path: "null".to_string(), major: 1, minor: 3 });
    assert_eq!(setup_namespaces(&config), Vec::new());
}

#[test]
fn setup_of_a_bare_rootfs_has_no_mounts_and_no_nodes() {
    let config = ContainerConfiguration::new().with_rootfs("/r".to_string());
    assert_eq!(
        setup_namespaces(&config),
        vec![
            mount(None, "/", None, PRIVATE_TREE),
            mount(Some("/r"), "/r", None, PRIVATE_BIND),
            link("/proc/self/fd", "/r/dev/fd"),
            link("/proc/self/fd/0", "/r/dev/stdin"),
            link("/proc/self/fd/1", "/r/dev/stdout"),
            link("/proc/self/fd/2", "/r/dev/stderr"),
            KernelOp::PivotRoot { new_root: "/r".to_string(), put_old: "/r".to_string() },
            mount(None, "/", None, SLAVE_TREE),
            KernelOp::Unmount { target: "/".to_string(), detach: true },
        ]
    );
}

#[test]
fn root_is_made_private_first_and_detached_last() {
    let ops = setup_namespaces(full_builder().config());
    assert_eq!(ops.first(), Some(&mount(None, "/", None, PRIVATE_TREE)));
    assert_eq!(ops.last(), Some(&KernelOp::Unmount { target: "/".to_string(), detach: true }));
}

#[test]
fn dev_is_mounted_before_any_node_is_created_and_nodes_before_the_pivot() {
    let ops = setup_namespaces(full_builder().config());
    let dev = ops
        .iter()
        .position(|op| *op == mount(None, "/srv/root/dev", Some("tmpfs"), NONE))
        .expect("dev is mounted");
    let first_node = ops
        .iter()
        .position(|op| matches!(op, KernelOp::MakeCharDevice { .. }))
        .expect("nodes are created");
    let last_node = ops
        .iter()
        .rposition(|op| matches!(op, KernelOp::MakeCharDevice { .. }))
        .expect("nodes are created");
    let pivot = ops
        .iter()
        .position(|op| matches!(op, KernelOp::PivotRoot { .. }))
        .expect("root is pivoted");
    assert!(dev < first_node);
    assert!(last_node < pivot);
}

#[test]
fn mounts_are_applied_in_the_order_of_their_declaration() {
    let config = ContainerConfiguration::new()
        .with_rootfs("/r".to_string())
        .with_mount(Mount::bind("/b".to_string(), "second".to_string(), None, None))
        .with_mount(Mount::tmpfs("first".to_string()))
        .with_mount(Mount::bind("/a".to_string(), "third".to_string(), None, None));
    let ops = setup_namespaces(&config);
    assert_eq!(
        &ops[2..5],
        &[
            mount(Some("/b"), "/r/second", None, PRIVATE_BIND),
            mount(None, "/r/first", Some("tmpfs"), NONE),
            mount(Some("/a"), "/r/third", None, PRIVATE_BIND),
        ]
    );
}

#[test]
fn prepare_rootfs_remounts_the_root_and_binds_the_new_one() {
    assert_eq!(
        prepare_rootfs(&Mount::rootfs("/srv/root".to_string())),
        vec![
            mount(None, "/", None, PRIVATE_TREE),
            mount(Some("/srv/root"), "/srv/root", None, PRIVATE_BIND),
        ]
    );
}

#[test]
fn mount_rootfs_pivots_onto_the_same_path_then_detaches() {
    assert_eq!(
        mount_rootfs(&Mount::rootfs("/srv/root".to_string())),
        vec![
            KernelOp::PivotRoot {
                new_root: "/srv/root".to_string(),
                put_old: "/srv/root".to_string()
            },
            mount(None, "/", None, SLAVE_TREE),
            KernelOp::Unmount { target: "/".to_string(), detach: true },
        ]
    );
}

#[test]
fn device_nodes_are_followed_by_the_descriptor_links() {
    let devices = vec![
        DeviceNode { path: "null".to_string(), major: 1, minor: 3 },
        DeviceNode { path: "tty".to_string(), major: 5, minor: 0 },
    ];
    assert_eq!(
        create_device_nodes("/r/dev", &devices),
        vec![
            node("/r/dev/null", 259),
            node("/r/dev/tty", 1280),
            link("/proc/self/fd", "/r/dev/fd"),
            link("/proc/self/fd/0", "/r/dev/stdin"),
            link("/proc/self/fd/1", "/r/dev/stdout"),
            link("/proc/self/fd/2", "/r/dev/stderr"),
        ]
    );
}

#[test]
fn no_devices_still_get_the_descriptor_links() {
    assert_eq!(
        create_device_nodes("/r/dev", &Vec::new()),
        vec![
            link("/proc/self/fd", "/r/dev/fd"),
            link("/proc/self/fd/0", "/r/dev/stdin"),
            link("/proc/self/fd/1", "/r/dev/stdout"),
            link("/proc/self/fd/2", "/r/dev/stderr"),
        ]
    );
}

#[test]
fn device_numbers_are_those_of_the_kernel() {
    let cases: [(u64, u64, u64); 8] = [
        (1, 3, 259),
        (1, 5, 261),
        (1, 7, 263),
        (5, 0, 1280),
        (1, 9, 265),
        (1, 8, 264),
        (0, 0, 0),
        (0xfff, 0xff, 0xfffff),
    ];
    for (major, minor, expected) in cases {
        let op = DeviceNode { path: "x".to_string(), major, minor }.make_node("/dev");
        assert_eq!(op, node("/dev/x", expected));
    }
}

#[test]
fn large_device_numbers_are_spread_over_the_high_bits() {
    let cases: [(u64, u64, u64); 4] = [
        (0x1000, 0, 0x1000 << 32),
        (0, 0x100, 0x100 << 12),
        (0xffff_ffff, 0xffff_ffff, u64::MAX),
        (0x1_0000_0001, 0x1_0000_0002, 0x102),
    ];
    for (major, minor, expected) in cases {
        let op = DeviceNode { path: "x".to_string(), major, minor }.make_node("/dev");
        assert_eq!(op, node("/dev/x", expected));
        assert_eq!(expected, nix::sys::stat::makedev(major, minor));
    }
}

#[test]
fn mount_is_realised_below_the_root() {
    let bind = Mount::bind("/home/me".to_string(), "mnt/me".to_string(), None, None);
    let op = bind.mount("/srv/root");
    assert_eq!(op, mount(Some("/home/me"), "/srv/root/mnt/me", None, PRIVATE_BIND));
    match op {
        KernelOp::Mount { flags, .. } => {
            assert!(flags.bind && flags.private);
        }
        other => panic!("unexpected request {:?}", other),
    }
}

#[test]
fn mount_hands_on_type_flags_and_data() {
    let flags = MountFlags { bind: true, recursive: true, private: false, slave: false };
    let bind = Mount::bind(
        "/srv/data".to_string(),
        "data".to_string(),
        Some(flags),
        Some("mode=0755".to_string()),
    );
    assert_eq!(
        bind.mount("/r/"),
        KernelOp::Mount {
            source: Some("/srv/data".to_string()),
            target: "/r/data".to_string(),
            fstype: None,
            flags,
            data: Some("mode=0755".to_string()),
        }
    );
    assert_eq!(
        Mount::procfs("proc".to_string()).mount("/r"),
        mount(None, "/r/proc", Some("proc"), NONE)
    );
}

#[test]
fn mount_with_a_leading_separator_lands_below_the_root() {
    let bind = Mount::bind("/srv/data".to_string(), "/etc".to_string(), None, None);
    assert_eq!(bind.mount("/srv/root"), mount(Some("/srv/data"), "/srv/root/etc", None, PRIVATE_BIND));
    assert_eq!(
        Mount::tmpfs("//run".to_string()).mount("/srv/root/"),
        mount(None, "/srv/root/run", Some("tmpfs"), NONE)
    );
}

#[test]
fn device_with_a_leading_separator_lands_in_dev() {
    let device = DeviceNode { path: "/etc/passwd".to_string(), major: 1, minor: 3 };
    assert_eq!(device.make_node("/srv/root/dev"), node("/srv/root/dev/etc/passwd", 259));
}

#[test]
fn setup_with_targets_written_as_absolute_stays_below_the_root() {
    let config = ContainerConfiguration::new()
        .with_rootfs("/srv/root".to_string())
        .with_mount(Mount::bind("/srv/data".to_string(), "/etc".to_string(), None, None))
        .with_mount(Mount::procfs("/proc".to_string()))
        .with_device(DeviceNode { path: "/null".to_string(), major: 1, minor: 3 });
    let ops = setup_namespaces(&config);
    assert_eq!(
        &ops[2..5],
        &[
            mount(Some("/srv/data"), "/srv/root/etc", None, PRIVATE_BIND),
            mount(None, "/srv/root/proc", Some("proc"), NONE),
            node("/srv/root/dev/null", 259),
        ]
    );
    for op in &ops[1..ops.len() - 2] {
        let place = match op {
            KernelOp::Mount { target, .. } => target,
            KernelOp::MakeCharDevice { path, .. } => path,
            KernelOp::Symlink { link, .. } => link,
            KernelOp::PivotRoot { new_root, .. } => new_root,
            other => panic!("unexpected request {:?}", other),
        };
        assert!(place.starts_with("/srv/root"), "{:?}", op);
    }
}

#[test]
fn rootfs_itself_is_realised_at_the_root_path() {
    assert_eq!(
        Mount::rootfs("/srv/root".to_string()).mount("/srv/root"),
        mount(Some("/srv/root"), "/srv/root/", None, PRIVATE_BIND)
    );
}

#[test]
fn command_is_its_own_first_argument() {
    assert_eq!(
        execute_command("/bin/sh", &vec!["-c".to_string(), "exit 3".to_string()]),
        KernelOp::Exec {
            command: "/bin/sh".to_string(),
            argv: vec!["/bin/sh".to_string(), "-c".to_string(), "exit 3".to_string()],
        }
    );
    assert_eq!(
        execute_command("/bin/true", &Vec::new()),
        KernelOp::Exec { command: "/bin/true".to_string(), argv: vec!["/bin/true".to_string()] }
    );
}

#[test]
fn child_sets_up_enters_the_root_and_starts_the_program() {
    let container = ContainerBuilder::new()
        .stack_size(4096)
        .rootfs("/srv/root".to_string())
        .command("/bin/sh".to_string(), Some(vec!["-c".to_string(), "true".to_string()]))
        .add_default_mounts()
        .add_mount("/home/me".to_string(), "mnt/me".to_string())
        .add_default_devices()
        .build()
        .expect("builds");
    let launch = container.run_with(true).expect("may run");
    let mut expected = full_setup();
    expected.push(KernelOp::ChangeDir { path: "/".to_string() });
    expected.push(KernelOp::Exec {
        command: "/bin/sh".to_string(),
        argv: vec!["/bin/sh".to_string(), "-c".to_string(), "true".to_string()],
    });
    assert_eq!(launch.program, expected);
}

#[test]
fn cloned_requests_equal_the_requests() {
    let mut ops = full_setup();
    ops.push(KernelOp::ChangeDir { path: "/".to_string() });
    ops.push(execute_command("/bin/sh", &vec!["-c".to_string(), "true".to_string()]));
    for op in &ops {
        assert_eq!(&op.clone(), op);
    }
    let with_data = KernelOp::Mount {
        source: Some("/a".to_string()),
        target: "/b".to_string(),
        fstype: Some("tmpfs".to_string()),
        flags: SLAVE_TREE,
        data: Some("size=1m".to_string()),
    };
    assert_eq!(with_data.clone(), with_data);
}

#[test]
fn cloned_launch_equals_the_launch() {
    let container = full_builder().build().expect("builds");
    let launch = container.run_with(true).expect("may run");
    assert_eq!(launch.clone(), launch);
}
