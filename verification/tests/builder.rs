use libcarton::consts::DEFAULT_CONTAINER_STACK_SIZE;
use libcarton::container_builder::resolve_stack_size;
use libcarton::{CartonError, ContainerBuilder, ContainerState, DeviceNode, Mount, MountFlags};

fn device(path: &str, major: u64, minor: u64) -> DeviceNode {
    DeviceNode { path: path.to_string(), major, minor }
}

#[test]
fn new_builder_is_empty() {
    let builder = ContainerBuilder::new();
    assert_eq!(builder.requested_stack_size(), None);
    assert!(builder.config().rootfs().is_none());
    assert_eq!(builder.config().command(), &None);
    assert!(builder.config().arguments().is_empty());
    assert!(builder.config().mounts().is_empty());
    assert!(builder.config().devices().is_empty());
}

#[test]
fn default_builder_is_new_builder() {
    let builder = ContainerBuilder::default();
    assert_eq!(builder.requested_stack_size(), None);
    assert!(builder.config().rootfs().is_none());
    assert!(builder.config().mounts().is_empty());
}

#[test]
fn rootfs_is_a_private_bind_of_the_source_onto_the_root() {
    let builder = ContainerBuilder::new().rootfs("/srv/busybox".to_string());
    let rootfs = builder.config().rootfs().expect("rootfs was set");
    assert_eq!(rootfs.source(), &Some("/srv/busybox".to_string()));
    assert_eq!(rootfs.relative_target(), "");
    assert_eq!(rootfs.fstype(), &None);
    assert_eq!(
        rootfs.flags(),
        MountFlags { bind: true, recursive: false, private: true, slave: false }
    );
    assert_eq!(rootfs.data(), &None);
    assert_eq!(rootfs, &Mount::rootfs("/srv/busybox".to_string()));
}

#[test]
fn rootfs_set_twice_keeps_the_last() {
    let builder =
        ContainerBuilder::new().rootfs("/first".to_string()).rootfs("/second".to_string());
    assert_eq!(builder.config().rootfs(), Some(&Mount::rootfs("/second".to_string())));
}

#[test]
fn command_without_arguments_has_an_empty_argument_vector() {
    let builder = ContainerBuilder::new().command("/bin/true".to_string(), None);
    assert_eq!(builder.config().command(), &Some("/bin/true".to_string()));
    assert!(builder.config().arguments().is_empty());
}

#[test]
fn command_with_arguments_keeps_them_in_order() {
    let args = vec!["-c".to_string(), "echo hello".to_string()];
    let builder = ContainerBuilder::new().command("/bin/sh".to_string(), Some(args.clone()));
    assert_eq!(builder.config().command(), &Some("/bin/sh".to_string()));
    assert_eq!(builder.config().arguments(), &args);
}

#[test]
fn command_set_again_replaces_the_arguments() {
    let builder = ContainerBuilder::new()
        .command("/bin/sh".to_string(), Some(vec!["-c".to_string()]))
        .command("/bin/true".to_string(), None);
    assert_eq!(builder.config().command(), &Some("/bin/true".to_string()));
    assert!(builder.config().arguments().is_empty());
}

#[test]
fn default_mounts_are_proc_tmp_dev_in_that_order() {
    let builder = ContainerBuilder::new().add_default_mounts();
    let expected = vec![
        Mount::procfs("proc".to_string()),
        Mount::tmpfs("tmp".to_string()),
        Mount::tmpfs("dev".to_string()),
    ];
    assert_eq!(builder.config().mounts(), &expected);

    let mounts = builder.config().mounts();
    assert_eq!(mounts[0].fstype(), &Some("proc".to_string()));
    assert_eq!(mounts[0].relative_target(), "proc");
    assert_eq!(mounts[1].fstype(), &Some("tmpfs".to_string()));
    assert_eq!(mounts[1].relative_target(), "tmp");
    assert_eq!(mounts[2].fstype(), &Some("tmpfs".to_string()));
    assert_eq!(mounts[2].relative_target(), "dev");
    for mount in mounts {
        assert_eq!(mount.source(), &None);
        assert_eq!(mount.flags(), MountFlags::empty());
        assert_eq!(mount.data(), &None);
    }
}

#[test]
fn default_mounts_follow_the_mounts_already_there() {
    let builder = ContainerBuilder::new()
        .add_mount("/srv/data".to_string(), "data".to_string())
        .add_default_mounts();
    let expected = vec![
        Mount::bind("/srv/data".to_string(), "data".to_string(), None, None),
        Mount::procfs("proc".to_string()),
        Mount::tmpfs("tmp".to_string()),
        Mount::tmpfs("dev".to_string()),
    ];
    assert_eq!(builder.config().mounts(), &expected);
}

#[test]
fn added_mount_is_a_private_bind_after_the_others() {
    let builder = ContainerBuilder::new()
        .add_default_mounts()
        .add_mount("/home/me/src".to_string(), "mnt/src".to_string());
    let mounts = builder.config().mounts();
    assert_eq!(mounts.len(), 4);
    let last = &mounts[3];
    assert_eq!(last.source(), &Some("/home/me/src".to_string()));
    assert_eq!(last.relative_target(), "mnt/src");
    assert_eq!(last.fstype(), &None);
    assert_eq!(
        last.flags(),
        MountFlags { bind: true, recursive: false, private: true, slave: false }
    );
    assert_eq!(last.data(), &None);
}

#[test]
fn bind_mount_takes_the_flags_and_data_it_is_given() {
    let flags = MountFlags { bind: true, recursive: true, private: false, slave: true };
    let mount = Mount::bind(
        "/srv".to_string(),
        "srv".to_string(),
        Some(flags),
        Some("ro".to_string()),
    );
    assert_eq!(mount.flags(), flags);
    assert_eq!(mount.data(), &Some("ro".to_string()));
    assert_eq!(mount.source(), &Some("/srv".to_string()));
    assert_eq!(mount.fstype(), &None);
}

#[test]
fn cloned_mount_equals_the_mount() {
    let mount = Mount::bind("/srv".to_string(), "srv".to_string(), None, Some("x".to_string()));
    assert_eq!(mount.clone(), mount);
    let proc = Mount::procfs("proc".to_string());
    assert_eq!(proc.clone(), proc);
}

#[test]
fn cloned_device_equals_the_device() {
    let node = device("urandom", 1, 9);
    assert_eq!(node.clone(), node);
}

#[test]
fn default_devices_are_the_canonical_six() {
    let builder = ContainerBuilder::new().add_default_devices();
    let expected = vec![
        device("null", 1, 3),
        device("zero", 1, 5),
        device("full", 1, 7),
        device("tty", 5, 0),
        device("urandom", 1, 9),
        device("random", 1, 8),
    ];
    assert_eq!(builder.config().devices(), &expected);
}

#[test]
fn added_device_follows_the_devices_already_there() {
    let builder = ContainerBuilder::new().add_default_devices().add_device("kmsg", 1, 11);
    let devices = builder.config().devices();
    assert_eq!(devices.len(), 7);
    assert_eq!(devices[6], device("kmsg", 1, 11));
    assert_eq!(devices[0], device("null", 1, 3));
}

#[test]
fn builder_steps_do_not_disturb_each_other() {
    let builder = ContainerBuilder::new()
        .stack_size(4096)
        .rootfs("/srv/root".to_string())
        .add_default_mounts()
        .command("/bin/sh".to_string(), None)
        .add_default_devices();
    assert_eq!(builder.requested_stack_size(), Some(4096));
    assert_eq!(builder.config().rootfs(), Some(&Mount::rootfs("/srv/root".to_string())));
    assert_eq!(builder.config().mounts().len(), 3);
    assert_eq!(builder.config().devices().len(), 6);
    assert_eq!(builder.config().command(), &Some("/bin/sh".to_string()));
}

#[test]
fn flags_contain_their_parts() {
    let private_bind = MountFlags { bind: true, recursive: false, private: true, slave: false };
    let bind = MountFlags { bind: true, recursive: false, private: false, slave: false };
    let slave = MountFlags { bind: false, recursive: false, private: false, slave: true };
    assert!(private_bind.contains(&bind));
    assert!(private_bind.contains(&private_bind));
    assert!(private_bind.contains(&MountFlags::empty()));
    assert!(!private_bind.contains(&slave));
    assert!(!bind.contains(&private_bind));
    assert!(!MountFlags::empty().contains(&bind));
}

#[test]
fn explicit_stack_size_is_the_size_of_the_buffer() {
    let container = ContainerBuilder::new().stack_size(12345).build().expect("builds");
    assert_eq!(container.stack_size(), 12345);

    for limit in [None, Some(1u64), Some(8 * 1024 * 1024), Some(u64::MAX)] {
        let container =
            ContainerBuilder::new().stack_size(12345).build_with_limit(limit).expect("builds");
        assert_eq!(container.stack_size(), 12345);
    }
}

#[test]
fn explicit_stack_size_of_zero_gives_an_empty_buffer() {
    let container = ContainerBuilder::new().stack_size(0).build().expect("builds");
    assert_eq!(container.stack_size(), 0);
}

#[test]
fn finite_stack_limit_is_the_size_of_the_buffer() {
    let container = ContainerBuilder::new().build_with_limit(Some(65536)).expect("builds");
    assert_eq!(container.stack_size(), 65536);
}

#[test]
fn unlimited_stack_limit_gives_the_default_size() {
    let container = ContainerBuilder::new().build_with_limit(Some(u64::MAX)).expect("builds");
    assert_eq!(container.stack_size(), DEFAULT_CONTAINER_STACK_SIZE);
}

#[test]
fn unknown_stack_limit_gives_the_default_size() {
    let container = ContainerBuilder::new().build_with_limit(None).expect("builds");
    assert_eq!(container.stack_size(), DEFAULT_CONTAINER_STACK_SIZE);
}

#[test]
fn unlimited_is_what_the_kernel_reports_for_no_limit() {
    assert_eq!(libcarton::consts::UNLIMITED_STACK, nix::sys::resource::RLIM_INFINITY);
    assert_eq!(libcarton::consts::UNLIMITED_STACK, u64::MAX);
}

#[test]
fn default_stack_size_is_one_mebibyte() {
    assert_eq!(DEFAULT_CONTAINER_STACK_SIZE, 1024 * 1024);
}

#[test]
fn resolve_stack_size_follows_the_table() {
    let default = DEFAULT_CONTAINER_STACK_SIZE as u64;
    assert_eq!(resolve_stack_size(Some(7), None), 7);
    assert_eq!(resolve_stack_size(Some(7), Some(9)), 7);
    assert_eq!(resolve_stack_size(Some(7), Some(u64::MAX)), 7);
    assert_eq!(resolve_stack_size(Some(u64::MAX), Some(9)), u64::MAX);
    assert_eq!(resolve_stack_size(None, Some(9)), 9);
    assert_eq!(resolve_stack_size(None, Some(0)), 0);
    assert_eq!(resolve_stack_size(None, Some(u64::MAX - 1)), u64::MAX - 1);
    assert_eq!(resolve_stack_size(None, Some(u64::MAX)), default);
    assert_eq!(resolve_stack_size(None, None), default);
}

#[test]
fn stack_that_cannot_be_allocated_is_refused() {
    let too_large = isize::MAX as u64 + 1;
    let refused = ContainerBuilder::new().stack_size(too_large).build();
    match refused {
        Err(CartonError::InvalidConfiguration(reason)) => {
            assert_eq!(reason, "stack size exceeds what can be allocated")
        }
        other => panic!("unexpected answer {:?}", other.map(|c| c.stack_size())),
    }
    assert!(ContainerBuilder::new().stack_size(u64::MAX).build().is_err());
    assert!(ContainerBuilder::new().build_with_limit(Some(too_large)).is_err());
}

#[test]
fn build_without_a_stack_size_follows_the_limit_of_this_process() {
    let soft = nix::sys::resource::getrlimit(nix::sys::resource::Resource::RLIMIT_STACK)
        .ok()
        .map(|(soft, _)| soft);
    let expected = match soft {
        Some(limit) if limit != u64::MAX => limit,
        _ => DEFAULT_CONTAINER_STACK_SIZE as u64,
    };
    let builder = ContainerBuilder::new();
    assert_eq!(builder.determine_stack_size(), expected);
    if expected <= 1 << 30 {
        let container = builder.build().expect("builds");
        assert_eq!(container.stack_size() as u64, expected);
    }
}

#[test]
fn determine_stack_size_prefers_what_was_asked_for() {
    assert_eq!(ContainerBuilder::new().stack_size(4242).determine_stack_size(), 4242);
}

#[test]
fn built_container_is_not_created_and_holds_the_configuration() {
    let container = ContainerBuilder::new()
        .stack_size(1024)
        .rootfs("/srv/root".to_string())
        .command("/bin/true".to_string(), Some(vec!["x".to_string()]))
        .add_default_mounts()
        .add_default_devices()
        .build()
        .expect("builds");
    assert_eq!(container.state(), ContainerState::NotCreated);
    assert_eq!(container.pid(), None);
    assert_eq!(container.stack_size(), 1024);
    assert_eq!(container.config().rootfs(), Some(&Mount::rootfs("/srv/root".to_string())));
    assert_eq!(container.config().command(), &Some("/bin/true".to_string()));
    assert_eq!(container.config().arguments(), &vec!["x".to_string()]);
    assert_eq!(container.config().mounts().len(), 3);
    assert_eq!(container.config().devices().len(), 6);
}

#[test]
fn built_stack_is_made_of_zero_bytes() {
    let mut container = ContainerBuilder::new().stack_size(64).build().expect("builds");
    let stack = container.stack_mut().expect("not running");
    assert_eq!(stack.len(), 64);
    assert!(stack.iter().all(|byte| *byte == 0));
}

#[test]
fn default_state_is_not_created() {
    assert_eq!(ContainerState::default(), ContainerState::NotCreated);
}
