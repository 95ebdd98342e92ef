//! What a container is made of, and the check that it can be launched.

use vstd::prelude::*;
use vstd::string::*;

use crate::error::{outcome, CartonError, ErrorView};
use crate::host::{debug_optional_path, is_directory, optional_path_debug};
use crate::mount::{device_views, mount_views, DeviceNode, DeviceNodeView, Mount, MountView};
use crate::text::{each, optional};

verus! {

/// Everything the launcher has to know about one container.
#[derive(Debug)]
pub struct ContainerConfiguration {
    /// The root filesystem of the container.
    rootfs: Option<Mount>,
    /// Path, inside the container, of the program to run.
    command: Option<String>,
    /// Arguments to the program.
    arguments: Vec<String>,
    /// Vital paths (`/proc`, `/tmp`, `/dev`) and directories of the host to
    /// be found inside the container, in the order in which they are mounted.
    mounts: Vec<Mount>,
    /// Device nodes to create in `/dev`.
    devices: Vec<DeviceNode>,
}

/// A [`ContainerConfiguration`] with its parts as their views.
pub struct ConfigurationView {
    pub rootfs: Option<MountView>,
    pub command: Option<Seq<char>>,
    pub arguments: Seq<Seq<char>>,
    pub mounts: Seq<MountView>,
    pub devices: Seq<DeviceNodeView>,
}

/// What the check answers for a root filesystem that is no directory.
pub open spec fn not_a_directory(source: Seq<char>) -> Seq<char> {
    "rootfs does not exist or is not a directory: "@ + optional_path_debug(source)
}

impl ConfigurationView {
    /// A configuration without anything in it.
    pub open spec fn empty() -> ConfigurationView {
        ConfigurationView {
            rootfs: None,
            command: None,
            arguments: Seq::empty(),
            mounts: Seq::empty(),
            devices: Seq::empty(),
        }
    }

    /// The root filesystem, where there is one, is a private bind mount of a
    /// directory of the host onto the root itself.
    pub open spec fn well_formed(self) -> bool {
        self.rootfs matches Some(root) ==> root.source is Some && root == MountView::rootfs(
            root.source.unwrap(),
        )
    }

    /// Path on the host of the root filesystem.
    pub open spec fn rootfs_source(self) -> Seq<char>
        recommends
            self.rootfs is Some,
            self.well_formed(),
    {
        self.rootfs.unwrap().source.unwrap()
    }

    /// The answer of the check, given whether the source of the root
    /// filesystem is a directory on the host. The root filesystem is looked
    /// at first, the command last.
    pub open spec fn validated(self, rootfs_is_directory: bool) -> Result<(), ErrorView> {
        if self.rootfs is None {
            Err(ErrorView::MissingRequiredConfiguration("rootfs"@))
        } else if !rootfs_is_directory {
            Err(ErrorView::InvalidConfiguration(not_a_directory(self.rootfs_source())))
        } else if self.command is None {
            Err(ErrorView::MissingRequiredConfiguration("command"@))
        } else {
            Ok(())
        }
    }
}

impl View for ContainerConfiguration {
    type V = ConfigurationView;

    closed spec fn view(&self) -> ConfigurationView {
        ConfigurationView {
            rootfs: match self.rootfs {
                Some(root) => Some(root@),
                None => None,
            },
            command: optional(self.command),
            arguments: each(self.arguments@),
            mounts: mount_views(self.mounts@),
            devices: device_views(self.devices@),
        }
    }
}

impl Default for ContainerConfiguration {
    fn default() -> (config: ContainerConfiguration)
        ensures
            config@ == ConfigurationView::empty(),
    {
        ContainerConfiguration::new()
    }
}

impl ContainerConfiguration {
    #[verifier::type_invariant]
    pub open spec fn inv(&self) -> bool {
        self@.well_formed()
    }

    /// A configuration without anything in it.
    pub fn new() -> (config: ContainerConfiguration)
        ensures
            config@ == ConfigurationView::empty(),
    {
        let config = ContainerConfiguration {
            rootfs: None,
            command: None,
            arguments: Vec::new(),
            mounts: Vec::new(),
            devices: Vec::new(),
        };
        assert(config@.arguments =~= Seq::empty());
        assert(config@.mounts =~= Seq::empty());
        assert(config@.devices =~= Seq::empty());
        config
    }

    /// The same configuration with the directory `source` of the host as its
    /// root filesystem.
    pub fn with_rootfs(self, source: String) -> (config: ContainerConfiguration)
        ensures
            config@ == (ConfigurationView { rootfs: Some(MountView::rootfs(source@)), ..self@ }),
    {
        let ContainerConfiguration { rootfs: _, command, arguments, mounts, devices } = self;
        ContainerConfiguration {
            rootfs: Some(Mount::rootfs(source)),
            command,
            arguments,
            mounts,
            devices,
        }
    }

    /// The same configuration with the given program and arguments.
    pub fn with_command(self, command: String, arguments: Vec<String>) -> (config:
        ContainerConfiguration)
        ensures
            config@ == (ConfigurationView {
                command: Some(command@),
                arguments: each(arguments@),
                ..self@
            }),
    {
        proof {
            use_type_invariant(&self);
        }
        let ContainerConfiguration { rootfs, command: _, arguments: _, mounts, devices } = self;
        ContainerConfiguration { rootfs, command: Some(command), arguments, mounts, devices }
    }

    /// The same configuration with one more mount after those already there.
    pub fn with_mount(self, mount: Mount) -> (config: ContainerConfiguration)
        ensures
            config@ == (ConfigurationView { mounts: self@.mounts.push(mount@), ..self@ }),
    {
        proof {
            use_type_invariant(&self);
        }
        let ContainerConfiguration { rootfs, command, arguments, mut mounts, devices } = self;
        mounts.push(mount);
        assert(mount_views(mounts@) =~= mount_views(self.mounts@).push(mount@));
        ContainerConfiguration { rootfs, command, arguments, mounts, devices }
    }

    /// The same configuration with one more device node after those already
    /// there.
    pub fn with_device(self, device: DeviceNode) -> (config: ContainerConfiguration)
        ensures
            config@ == (ConfigurationView { devices: self@.devices.push(device@), ..self@ }),
    {
        proof {
            use_type_invariant(&self);
        }
        let ContainerConfiguration { rootfs, command, arguments, mounts, mut devices } = self;
        devices.push(device);
        assert(device_views(devices@) =~= device_views(self.devices@).push(device@));
        ContainerConfiguration { rootfs, command, arguments, mounts, devices }
    }

    /// The root filesystem of the container.
    pub fn rootfs(&self) -> (rootfs: Option<&Mount>)
        ensures
            match rootfs {
                Some(root) => self@.rootfs == Some(root@),
                None => self@.rootfs is None,
            },
            self@.well_formed(),
    {
        proof {
            use_type_invariant(self);
        }
        self.rootfs.as_ref()
    }

    /// Path, inside the container, of the program to run.
    pub fn command(&self) -> (command: &Option<String>)
        ensures
            optional(*command) == self@.command,
    {
        &self.command
    }

    /// Arguments to the program.
    pub fn arguments(&self) -> (arguments: &Vec<String>)
        ensures
            each(arguments@) == self@.arguments,
    {
        &self.arguments
    }

    /// The mounts, in the order in which they are put in place.
    pub fn mounts(&self) -> (mounts: &Vec<Mount>)
        ensures
            mount_views(mounts@) == self@.mounts,
    {
        &self.mounts
    }

    /// Device nodes to create in `/dev`.
    pub fn devices(&self) -> (devices: &Vec<DeviceNode>)
        ensures
            device_views(devices@) == self@.devices,
    {
        &self.devices
    }

    /// Checks that the container can be launched, given whether the source
    /// of its root filesystem is a directory on the host.
    ///
    /// The answer is an error exactly if the root filesystem is absent or no
    /// directory, or if the command is absent. Mounts and devices are not
    /// looked at: what is wrong with them shows when they are put in place.
    pub fn validate_with(&self, rootfs_is_directory: bool) -> (result: Result<(), CartonError>)
        ensures
            outcome(result) == self@.validated(rootfs_is_directory),
            result is Err <==> self@.rootfs is None || !rootfs_is_directory || self@.command
                is None,
    {
        proof {
            use_type_invariant(self);
        }
        match &self.rootfs {
            None => {
                return Err(
                    CartonError::MissingRequiredConfiguration(String::from_str("rootfs")),
                );
            },
            Some(root) => {
                if !rootfs_is_directory {
                    let source = root.source().as_ref().unwrap();
                    let reason = String::from_str(
                        "rootfs does not exist or is not a directory: ",
                    ).concat(debug_optional_path(source.as_str()).as_str());
                    return Err(CartonError::InvalidConfiguration(reason));
                }
            },
        }
        if self.command.is_none() {
            return Err(CartonError::MissingRequiredConfiguration(String::from_str("command")));
        }
        Ok(())
    }

    /// Checks that the container can be launched. Whether the source of the
    /// root filesystem is a directory is asked of the host, so the answer is
    /// one of the two that [`Self::validate_with`] can give.
    pub fn validate(&self) -> (result: Result<(), CartonError>)
        ensures
            outcome(result) == self@.validated(true) || outcome(result) == self@.validated(false),
    {
        proof {
            use_type_invariant(self);
        }
        let rootfs_is_directory = match &self.rootfs {
            Some(root) => is_directory(root.source().as_ref().unwrap().as_str()),
            None => false,
        };
        self.validate_with(rootfs_is_directory)
    }
}

} // verus!
