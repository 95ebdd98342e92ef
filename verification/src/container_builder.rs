//! Assembling a container step by step.

use vstd::prelude::*;
use vstd::string::*;

use crate::configuration::{ConfigurationView, ContainerConfiguration};
use crate::consts::{DEFAULT_CONTAINER_STACK_SIZE, UNLIMITED_STACK};
use crate::container::{Container, ContainerBuffer, ContainerView};
use crate::error::{CartonError, ErrorView};
use crate::host::soft_stack_limit;
use crate::mount::{DeviceNode, DeviceNodeView, Mount, MountView};
use crate::text::each;

verus! {

/// Collects what a container is made of and builds it.
#[derive(Debug)]
pub struct ContainerBuilder {
    stack_size: Option<u64>,
    config: ContainerConfiguration,
}

/// A [`ContainerBuilder`] with its configuration as a view.
pub struct BuilderView {
    /// The stack size that the caller asked for.
    pub stack_size: Option<u64>,
    pub config: ConfigurationView,
}

/// The mounts that every container needs, in the order in which they have
/// to be put in place: `/dev` is a `tmpfs` before any node is created in it.
pub open spec fn default_mounts() -> Seq<MountView> {
    seq![MountView::procfs("proc"@), MountView::tmpfs("tmp"@), MountView::tmpfs("dev"@)]
}

/// The device nodes that every container needs.
pub open spec fn default_devices() -> Seq<DeviceNodeView> {
    seq![
        DeviceNodeView { path: "null"@, major: 1, minor: 3 },
        DeviceNodeView { path: "zero"@, major: 1, minor: 5 },
        DeviceNodeView { path: "full"@, major: 1, minor: 7 },
        DeviceNodeView { path: "tty"@, major: 5, minor: 0 },
        DeviceNodeView { path: "urandom"@, major: 1, minor: 9 },
        DeviceNodeView { path: "random"@, major: 1, minor: 8 },
    ]
}

/// The size of the child's stack: what the caller asked for; failing that,
/// the soft stack limit, unless it is unknown or says that there is no
/// limit; failing that, the default.
pub open spec fn chosen_stack_size(requested: Option<u64>, soft_limit: Option<u64>) -> u64 {
    match requested {
        Some(size) => size,
        None => match soft_limit {
            Some(limit) if limit != UNLIMITED_STACK => limit,
            _ => DEFAULT_CONTAINER_STACK_SIZE as u64,
        },
    }
}

/// Whether a stack of this size can be asked of the allocator at all.
pub open spec fn allocatable(size: u64) -> bool {
    size <= isize::MAX
}

/// What a stack that cannot be allocated is reported as.
pub open spec fn stack_too_large() -> ErrorView {
    ErrorView::InvalidConfiguration("stack size exceeds what can be allocated"@)
}

impl BuilderView {
    /// What building gives, given the soft stack limit: a container that has
    /// not been launched, with the collected configuration and a stack of
    /// zero bytes of the chosen size.
    pub open spec fn built(self, soft_limit: Option<u64>) -> Result<ContainerView, ErrorView> {
        let size = chosen_stack_size(self.stack_size, soft_limit);
        if allocatable(size) {
            Ok(ContainerView::fresh(self.config, Seq::new(size as nat, |i: int| 0u8)))
        } else {
            Err(stack_too_large())
        }
    }
}

/// The answer of a build, with its parts as their views.
pub open spec fn build_outcome(result: Result<Container, CartonError>) -> Result<
    ContainerView,
    ErrorView,
> {
    match result {
        Ok(container) => Ok(container@),
        Err(error) => Err(error@),
    }
}

impl View for ContainerBuilder {
    type V = BuilderView;

    closed spec fn view(&self) -> BuilderView {
        BuilderView { stack_size: self.stack_size, config: self.config@ }
    }
}

impl Default for ContainerBuilder {
    fn default() -> (builder: ContainerBuilder)
        ensures
            builder@ == (BuilderView { stack_size: None, config: ConfigurationView::empty() }),
    {
        ContainerBuilder { stack_size: None, config: ContainerConfiguration::new() }
    }
}

/// The size of the child's stack, from what the caller asked for and the
/// soft stack limit, either of which may be absent.
pub fn resolve_stack_size(requested: Option<u64>, soft_limit: Option<u64>) -> (size: u64)
    ensures
        size == chosen_stack_size(requested, soft_limit),
{
    match requested {
        Some(size) => size,
        None => match soft_limit {
            Some(limit) => if limit == UNLIMITED_STACK {
                // There is no limit, or it was set to this on purpose. A
                // buffer as large as that cannot be had, so a standard one
                // is made.
                DEFAULT_CONTAINER_STACK_SIZE as u64
            } else {
                limit
            },
            None => DEFAULT_CONTAINER_STACK_SIZE as u64,
        },
    }
}

impl ContainerBuilder {
    /// A builder that has been told nothing yet.
    pub fn new() -> (builder: ContainerBuilder)
        ensures
            builder@ == (BuilderView { stack_size: None, config: ConfigurationView::empty() }),
    {
        ContainerBuilder { stack_size: None, config: ContainerConfiguration::new() }
    }

    /// Takes the directory `path` of the host as the root filesystem.
    pub fn rootfs(self, path: String) -> (builder: ContainerBuilder)
        ensures
            builder@ == (BuilderView {
                config: ConfigurationView {
                    rootfs: Some(MountView::rootfs(path@)),
                    ..self@.config
                },
                ..self@
            }),
    {
        ContainerBuilder { stack_size: self.stack_size, config: self.config.with_rootfs(path) }
    }

    /// Sets the program to run inside the container and its arguments;
    /// absent arguments are none.
    pub fn command(self, command: String, args: Option<Vec<String>>) -> (builder:
        ContainerBuilder)
        ensures
            builder@ == (BuilderView {
                config: ConfigurationView {
                    command: Some(command@),
                    arguments: match args {
                        Some(given) => each(given@),
                        None => Seq::empty(),
                    },
                    ..self@.config
                },
                ..self@
            }),
    {
        let arguments = match args {
            Some(given) => given,
            None => {
                let none: Vec<String> = Vec::new();
                assert(each(none@) =~= Seq::empty());
                none
            },
        };
        ContainerBuilder {
            stack_size: self.stack_size,
            config: self.config.with_command(command, arguments),
        }
    }

    /// Asks for a child stack of `size` bytes, whatever the stack limit.
    pub fn stack_size(self, size: u64) -> (builder: ContainerBuilder)
        ensures
            builder@ == (BuilderView { stack_size: Some(size), ..self@ }),
    {
        ContainerBuilder { stack_size: Some(size), config: self.config }
    }

    /// Adds the mounts that every container needs, in the right order.
    pub fn add_default_mounts(self) -> (builder: ContainerBuilder)
        ensures
            builder@ == (BuilderView {
                config: ConfigurationView {
                    mounts: self@.config.mounts + default_mounts(),
                    ..self@.config
                },
                ..self@
            }),
    {
        let config = self.config.with_mount(Mount::procfs(String::from_str("proc"))).with_mount(
            Mount::tmpfs(String::from_str("tmp")),
        ).with_mount(Mount::tmpfs(String::from_str("dev")));
        assert(config@.mounts =~= self@.config.mounts + default_mounts());
        ContainerBuilder { stack_size: self.stack_size, config }
    }

    /// Adds a private bind mount of the directory `source` of the host at
    /// `relative_target` below the root of the container.
    pub fn add_mount(self, source: String, relative_target: String) -> (builder:
        ContainerBuilder)
        ensures
            builder@ == (BuilderView {
                config: ConfigurationView {
                    mounts: self@.config.mounts.push(
                        MountView::bind(source@, relative_target@, None, None),
                    ),
                    ..self@.config
                },
                ..self@
            }),
    {
        ContainerBuilder {
            stack_size: self.stack_size,
            config: self.config.with_mount(Mount::bind(source, relative_target, None, None)),
        }
    }

    /// Adds the device nodes that every container needs.
    pub fn add_default_devices(self) -> (builder: ContainerBuilder)
        ensures
            builder@ == (BuilderView {
                config: ConfigurationView {
                    devices: self@.config.devices + default_devices(),
                    ..self@.config
                },
                ..self@
            }),
    {
        let config = self.config.with_device(
            DeviceNode { path: String::from_str("null"), major: 1, minor: 3 },
        ).with_device(
            DeviceNode { path: String::from_str("zero"), major: 1, minor: 5 },
        ).with_device(
            DeviceNode { path: String::from_str("full"), major: 1, minor: 7 },
        ).with_device(
            DeviceNode { path: String::from_str("tty"), major: 5, minor: 0 },
        ).with_device(
            DeviceNode { path: String::from_str("urandom"), major: 1, minor: 9 },
        ).with_device(DeviceNode { path: String::from_str("random"), major: 1, minor: 8 });
        assert(config@.devices =~= self@.config.devices + default_devices());
        ContainerBuilder { stack_size: self.stack_size, config }
    }

    /// Adds the character device `major:minor` at `path` below `/dev`.
    pub fn add_device(self, path: &str, major: u64, minor: u64) -> (builder: ContainerBuilder)
        ensures
            builder@ == (BuilderView {
                config: ConfigurationView {
                    devices: self@.config.devices.push(
                        DeviceNodeView { path: path@, major, minor },
                    ),
                    ..self@.config
                },
                ..self@
            }),
    {
        ContainerBuilder {
            stack_size: self.stack_size,
            config: self.config.with_device(
                DeviceNode { path: String::from_str(path), major, minor },
            ),
        }
    }

    /// What has been collected so far.
    pub fn config(&self) -> (config: &ContainerConfiguration)
        ensures
            config@ == self@.config,
    {
        &self.config
    }

    /// The stack size that the caller asked for.
    pub fn requested_stack_size(&self) -> (size: Option<u64>)
        ensures
            size == self@.stack_size,
    {
        self.stack_size
    }

    /// Builds the container, given the soft stack limit of the launching
    /// process, which is absent where it could not be read.
    ///
    /// The container has not been launched. Its stack is made of zero bytes
    /// and has the chosen size. A size that no allocation can have is
    /// refused.
    pub fn build_with_limit(self, soft_limit: Option<u64>) -> (result: Result<
        Container,
        CartonError,
    >)
        ensures
            build_outcome(result) == self@.built(soft_limit),
            result is Ok <==> allocatable(chosen_stack_size(self@.stack_size, soft_limit)),
    {
        let size = resolve_stack_size(self.stack_size, soft_limit);
        if size > isize::MAX as u64 {
            return Err(
                CartonError::InvalidConfiguration(
                    String::from_str("stack size exceeds what can be allocated"),
                ),
            );
        }
        Ok(Container::new(self.config, ContainerBuffer::new(size as usize)))
    }

    /// Builds the container. The soft stack limit is asked of the host, so
    /// the answer is one that [`Self::build_with_limit`] can give; where the
    /// caller asked for a stack size, the limit plays no part in it.
    pub fn build(self) -> (result: Result<Container, CartonError>)
        ensures
            exists|soft_limit: Option<u64>|
                build_outcome(result) == #[trigger] self@.built(soft_limit),
            self@.stack_size is Some ==> build_outcome(result) == self@.built(None),
    {
        let soft_limit = match self.stack_size {
            Some(_) => None,
            None => soft_stack_limit(),
        };
        let ghost before = self@;
        let result = self.build_with_limit(soft_limit);
        assert(build_outcome(result) == before.built(soft_limit));
        result
    }

    /// The size of the stack that [`Self::build`] would allocate right now.
    pub fn determine_stack_size(&self) -> (size: u64)
        ensures
            exists|soft_limit: Option<u64>|
                size == #[trigger] chosen_stack_size(self@.stack_size, soft_limit),
            self@.stack_size matches Some(requested) ==> size == requested,
    {
        let soft_limit = match self.stack_size {
            Some(_) => None,
            None => soft_stack_limit(),
        };
        let size = resolve_stack_size(self.stack_size, soft_limit);
        assert(size == chosen_stack_size(self@.stack_size, soft_limit));
        size
    }
}

} // verus!
