use libcarton::CartonError;
use nix::errno::Errno;

#[test]
fn messages_name_the_fault() {
    assert_eq!(
        CartonError::MissingRequiredConfiguration("rootfs".to_string()).message(),
        "missing a required configuration value: `rootfs`"
    );
    assert_eq!(
        CartonError::InvalidConfiguration("no such directory".to_string()).message(),
        "invalid configuration: no such directory"
    );
    assert_eq!(CartonError::AlreadyRunning.message(), "container already running");
    assert_eq!(
        CartonError::SysCallFailed("EPERM".to_string()).message(),
        "syscall failed: EPERM"
    );
    assert_eq!(
        CartonError::NamespaceError("no namespace".to_string()).message(),
        "namespace error: no namespace"
    );
    assert_eq!(CartonError::IOError("disk".to_string()).message(), "I/O error: disk");
}

#[test]
fn messages_with_empty_payloads_keep_their_frame() {
    assert_eq!(
        CartonError::MissingRequiredConfiguration(String::new()).message(),
        "missing a required configuration value: ``"
    );
    assert_eq!(CartonError::InvalidConfiguration(String::new()).message(), "invalid configuration: ");
    assert_eq!(CartonError::IOError(String::new()).message(), "I/O error: ");
}

#[test]
fn errno_becomes_a_failed_system_call() {
    assert_eq!(
        CartonError::from_errno(Errno::EPERM as i32),
        CartonError::SysCallFailed(
            "Operation not permitted (EPERM: Operation not permitted)".to_string()
        )
    );
    assert_eq!(
        CartonError::from_errno(Errno::ENOENT as i32),
        CartonError::SysCallFailed(
            "No such file or directory (ENOENT: No such file or directory)".to_string()
        )
    );
    assert_eq!(
        CartonError::from_errno(Errno::EINVAL as i32).message(),
        "syscall failed: Invalid argument (EINVAL: Invalid argument)"
    );
}

#[test]
fn errno_text_is_what_nix_prints() {
    for errno in [Errno::EPERM, Errno::ENOENT, Errno::EBUSY, Errno::EINVAL, Errno::ENOMEM, Errno::ECHILD] {
        let expected = format!("{} ({})", errno.desc(), errno);
        assert_eq!(CartonError::from_errno(errno as i32), CartonError::SysCallFailed(expected));
    }
}

#[test]
fn unknown_errno_is_reported_as_unknown() {
    for errno in [0, -1, 100_000] {
        assert_eq!(
            CartonError::from_errno(errno),
            CartonError::SysCallFailed("Unknown errno (UnknownErrno: Unknown errno)".to_string())
        );
    }
}

#[test]
fn cloned_error_equals_the_error() {
    let errors = [
        CartonError::MissingRequiredConfiguration("rootfs".to_string()),
        CartonError::InvalidConfiguration("bad".to_string()),
        CartonError::AlreadyRunning,
        CartonError::SysCallFailed("EPERM".to_string()),
        CartonError::NamespaceError("ns".to_string()),
        CartonError::IOError("io".to_string()),
    ];
    for error in &errors {
        assert_eq!(&error.clone(), error);
        assert_eq!(error.clone().message(), error.message());
    }
}

#[test]
fn io_error_becomes_an_io_error_with_its_text() {
    let error = std::io::Error::new(std::io::ErrorKind::Other, "disk on fire");
    assert_eq!(CartonError::from(error), CartonError::IOError("disk on fire".to_string()));

    let error = std::io::Error::from_raw_os_error(Errno::ENOENT as i32);
    let text = error.to_string();
    assert_eq!(CartonError::from(error), CartonError::IOError(text.clone()));
    assert_eq!(CartonError::IOError(text.clone()).message(), format!("I/O error: {}", text));
}
