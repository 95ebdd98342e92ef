//! Core of a minimal Linux container launcher.
//!
//! The crate decides *what* has to be asked of the kernel to bring a program
//! up inside fresh UTS, mount and PID namespaces, and in which order. Every
//! decision is a function from plain values to plain values, so that the whole
//! choreography can be stated and proved; the caller performs the requests
//! and reports back what the kernel answered.
//!
//! A launch goes like this:
//!
//! 1. A [`ContainerBuilder`] collects the root filesystem, the command, the
//!    mounts and the device nodes, and builds a [`Container`] with a stack
//!    for its child.
//! 2. [`Container::run`] checks the configuration and answers with a
//!    [`Launch`]: the namespaces to clone into, and the program of the child
//!    as a list of [`KernelOp`]s.
//! 3. The caller clones with the stack from [`Container::stack_mut`]; the
//!    child makes the requests of its program as [`Launch::first_step`] and
//!    [`Launch::next_step`] tell it to, and ends at the first one that is
//!    refused.
//! 4. The caller reports the clone with [`Container::spawned`], waits for
//!    the child, and reports that with [`Container::wait_for_exit`].

pub mod configuration;
pub mod consts;
pub mod container;
pub mod container_builder;
pub mod error;
pub mod host;
pub mod kernel;
pub mod laws;
pub mod mount;
pub mod namespace;
pub mod path;
pub mod text;

pub use configuration::ContainerConfiguration;
pub use container::{Container, ContainerBuffer, ContainerState, Launch, WaitStatus};
pub use container_builder::ContainerBuilder;
pub use error::CartonError;
pub use kernel::KernelOp;
pub use mount::{DeviceNode, Mount, MountFlags};
