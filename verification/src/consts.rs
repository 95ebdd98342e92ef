use vstd::prelude::*;

verus! {

/// Size in bytes of the child stack when neither the caller nor the soft
/// stack limit of the launching process gives a usable size.
pub const DEFAULT_CONTAINER_STACK_SIZE: usize = 1048576;

/// Permission bits of every device node created under `/dev`.
pub const DEVICE_NODE_MODE: u32 = 0o666;

/// Exit status of a child whose program could not be started.
pub const EXEC_FAILURE_STATUS: isize = 126;

/// Exit status of a child that failed while setting up its namespaces.
pub const SETUP_FAILURE_STATUS: isize = 1;

/// Value by which the soft stack limit reports that there is no limit.
pub const UNLIMITED_STACK: u64 = 0xffff_ffff_ffff_ffff;

} // verus!
