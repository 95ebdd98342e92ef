//! The container as the supervisor sees it: what to ask of the clone
//! primitive, what the child does once it runs, and how the container moves
//! from not created, to running, to exited.
//!
//! Cloning, executing and waiting are done by the caller. The container
//! decides what is to be done and takes note of how it went.

use vstd::prelude::*;
use vstd::string::*;

use crate::configuration::{ConfigurationView, ContainerConfiguration};
use crate::consts::{EXEC_FAILURE_STATUS, SETUP_FAILURE_STATUS};
use crate::error::{syscall_failure_text, CartonError, ErrorView};
use crate::host::is_directory;
use crate::kernel::{copy_plan, plan, KernelOp, KernelOpView};
use crate::namespace::{namespaces_set_up, setup_namespaces};
use crate::text::{copy_each, each};

verus! {

/// Where a container is in its life.
#[derive(Debug, Clone, Copy, PartialEq, Eq, Structural)]
pub enum ContainerState {
    /// No child has been launched yet.
    NotCreated,
    /// The child has been launched and has not been waited for.
    Running,
    /// The child has been waited for.
    Exited,
}

impl Default for ContainerState {
    fn default() -> (state: ContainerState)
        ensures
            state == ContainerState::NotCreated,
    {
        ContainerState::NotCreated
    }
}

/// The memory on which the child starts to run.
#[derive(Debug)]
pub struct ContainerBuffer {
    /// The stack of the container's process. On one that is too small the
    /// child overflows its stack.
    pub(crate) stack: Vec<u8>,
}

impl View for ContainerBuffer {
    type V = Seq<u8>;

    closed spec fn view(&self) -> Seq<u8> {
        self.stack@
    }
}

impl ContainerBuffer {
    /// A buffer of `size` zero bytes. No allocation can be larger than
    /// `isize::MAX` bytes.
    pub fn new(size: usize) -> (buffer: ContainerBuffer)
        requires
            size <= isize::MAX,
        ensures
            buffer@ == Seq::new(size as nat, |i: int| 0u8),
    {
        let stack = vec![0u8; size];
        assert(stack@ =~= Seq::new(size as nat, |i: int| 0u8));
        ContainerBuffer { stack }
    }

    /// The number of bytes in the buffer.
    pub fn len(&self) -> (len: usize)
        ensures
            len == self@.len(),
    {
        self.stack.len()
    }
}

impl Default for ContainerBuffer {
    fn default() -> (buffer: ContainerBuffer)
        ensures
            buffer@ == Seq::<u8>::empty(),
    {
        ContainerBuffer { stack: Vec::new() }
    }
}

/// The namespaces that the child gets for itself.
#[derive(Debug, Clone, Copy, PartialEq, Eq, Structural)]
pub struct Namespaces {
    /// Host and domain name (`CLONE_NEWUTS`).
    pub uts: bool,
    /// Mount table (`CLONE_NEWNS`).
    pub mount: bool,
    /// Process ids (`CLONE_NEWPID`).
    pub pid: bool,
}

/// The signal sent to the parent when the child ends.
#[derive(Debug, Clone, Copy, PartialEq, Eq, Structural)]
pub enum ExitSignal {
    /// `SIGCHLD`.
    Child,
}

/// What the supervisor asks of the clone primitive, and what the child does
/// once it exists.
#[derive(Debug, PartialEq, Eq)]
pub struct Launch {
    pub namespaces: Namespaces,
    pub exit_signal: ExitSignal,
    /// The requests that the child makes, in this order, on the stack that
    /// the container holds for it. The last one starts the program.
    pub program: Vec<KernelOp>,
}

/// A [`Launch`] with the child's program as a sequence of views.
pub struct LaunchView {
    pub namespaces: Namespaces,
    pub exit_signal: ExitSignal,
    pub program: Seq<KernelOpView>,
}

impl View for Launch {
    type V = LaunchView;

    open spec fn view(&self) -> LaunchView {
        LaunchView {
            namespaces: self.namespaces,
            exit_signal: self.exit_signal,
            program: plan(self.program@),
        }
    }
}

impl Clone for Launch {
    fn clone(&self) -> (copy: Launch)
        ensures
            copy@ == self@,
    {
        Launch {
            namespaces: self.namespaces,
            exit_signal: self.exit_signal,
            program: copy_plan(&self.program),
        }
    }
}

/// The request that starts `command`: its argument vector is the command
/// itself, followed by the arguments.
pub open spec fn command_executed(command: Seq<char>, arguments: Seq<Seq<char>>) -> KernelOpView {
    KernelOpView::Exec { command, argv: seq![command] + arguments }
}

/// The change of the working directory to the new root.
pub open spec fn root_entered() -> KernelOpView {
    KernelOpView::ChangeDir { path: "/"@ }
}

/// Everything the child does: set up its namespaces, enter the new root,
/// start the program.
pub open spec fn child_program(config: ConfigurationView) -> Seq<KernelOpView>
    recommends
        config.command is Some,
{
    namespaces_set_up(config).push(root_entered()).push(
        command_executed(config.command.unwrap(), config.arguments),
    )
}

/// The launch of a container with the given configuration: a child in new
/// UTS, mount and PID namespaces, whose end is signalled by `SIGCHLD`.
pub open spec fn launch_of(config: ConfigurationView) -> LaunchView
    recommends
        config.command is Some,
{
    LaunchView {
        namespaces: Namespaces { uts: true, mount: true, pid: true },
        exit_signal: ExitSignal::Child,
        program: child_program(config),
    }
}

/// The request that starts `command` with `arguments`.
pub fn execute_command(command: &str, arguments: &Vec<String>) -> (op: KernelOp)
    ensures
        op@ == command_executed(command@, each(arguments@)),
{
    let mut argv: Vec<String> = Vec::new();
    argv.push(String::from_str(command));
    let mut rest = copy_each(arguments);
    let ghost rest_view = rest@;
    argv.append(&mut rest);
    assert(each(argv@) =~= seq![command@] + each(rest_view));
    KernelOp::Exec { command: String::from_str(command), argv }
}

/// The status with which the child ends when the request `failed` was
/// refused: that of a program that could not be started for the request that
/// starts it, that of a failed setup for any other.
pub open spec fn status_after(failed: KernelOpView) -> isize {
    if failed is Exec {
        EXEC_FAILURE_STATUS
    } else {
        SETUP_FAILURE_STATUS
    }
}

/// The status with which the child ends when the request `failed` was
/// refused.
pub fn exit_status_after(failed: &KernelOp) -> (status: isize)
    ensures
        status == status_after(failed@),
        status != 0,
{
    match failed {
        KernelOp::Exec { .. } => EXEC_FAILURE_STATUS,
        _ => SETUP_FAILURE_STATUS,
    }
}

/// What the child does next.
#[derive(Debug, Clone, Copy, PartialEq, Eq, Structural)]
pub enum ChildStep {
    /// Make the request at this place of the program.
    Request(usize),
    /// End with this status.
    Exit(isize),
}

/// How the child starts: with the first request of its program, if there is
/// one.
pub open spec fn step_first(program: Seq<KernelOpView>) -> ChildStep {
    if program.len() > 0 {
        ChildStep::Request(0)
    } else {
        ChildStep::Exit(0)
    }
}

/// How the child goes on after the request at `index`: a refused request
/// ends it at once, with the status for that request; after any other one
/// the next request follows, and after the last one the child is done.
pub open spec fn step_after(program: Seq<KernelOpView>, index: int, refused: bool) -> ChildStep {
    if refused {
        ChildStep::Exit(status_after(program[index]))
    } else if index + 1 < program.len() {
        ChildStep::Request((index + 1) as usize)
    } else {
        ChildStep::Exit(0)
    }
}

/// The whole run of a child from the request at `index` on, where the
/// request at `refused_at`, if any, is the one that the kernel refuses: the
/// number of requests made by the end, and the exit status.
pub open spec fn child_run(program: Seq<KernelOpView>, index: int, refused_at: Option<int>) -> (
    int,
    isize,
)
    decreases program.len() - index,
{
    match step_after(program, index, refused_at == Some(index)) {
        ChildStep::Exit(status) => (index + 1, status),
        ChildStep::Request(_) => child_run(program, index + 1, refused_at),
    }
}

impl Launch {
    /// How the child starts.
    pub fn first_step(&self) -> (step: ChildStep)
        ensures
            step == step_first(self@.program),
            step matches ChildStep::Request(index) ==> index < self.program.len(),
    {
        if self.program.len() > 0 {
            ChildStep::Request(0)
        } else {
            ChildStep::Exit(0)
        }
    }

    /// How the child goes on after it has made the request at `index`, given
    /// whether the kernel refused that request. Nothing is asked of the
    /// kernel after a refused request.
    pub fn next_step(&self, index: usize, refused: bool) -> (step: ChildStep)
        requires
            index < self.program.len(),
        ensures
            step == step_after(self@.program, index as int, refused),
            step matches ChildStep::Request(next) ==> (next == index + 1 && next
                < self.program.len()),
            refused ==> (step matches ChildStep::Exit(status) && status != 0),
    {
        if refused {
            ChildStep::Exit(exit_status_after(&self.program[index]))
        } else if index + 1 < self.program.len() {
            ChildStep::Request(index + 1)
        } else {
            ChildStep::Exit(0)
        }
    }
}

/// What waiting for the child gave.
#[derive(Debug, Clone, Copy, PartialEq, Eq, Structural)]
pub enum WaitStatus {
    /// The child has ended with this exit code.
    Exited(i32),
    /// The child was reported to be signalled, stopped or continued.
    Unexpected,
    /// Waiting failed with this errno: the child may have been waited for
    /// already.
    Failed(i32),
}

/// The state of the child, and its process id while it runs.
#[derive(Debug)]
struct Supervision {
    state: ContainerState,
    pid: Option<i32>,
}

impl Supervision {
    #[verifier::type_invariant]
    spec fn inv(&self) -> bool {
        self.state is Running <==> self.pid is Some
    }
}

/// A container: its configuration, the stack of its child, and the state
/// of its child.
#[derive(Debug)]
pub struct Container {
    supervision: Supervision,
    config: ContainerConfiguration,
    buffer: ContainerBuffer,
}

/// A [`Container`] with its parts as their views.
pub struct ContainerView {
    pub state: ContainerState,
    /// The process id of the child.
    pub pid: Option<i32>,
    pub config: ConfigurationView,
    pub stack: Seq<u8>,
}

impl ContainerView {
    /// A container holds the process id of its child exactly while the child
    /// runs.
    pub open spec fn well_formed(self) -> bool {
        &&& self.state is Running <==> self.pid is Some
        &&& self.config.well_formed()
    }

    /// A container that has not been launched.
    pub open spec fn fresh(config: ConfigurationView, stack: Seq<u8>) -> ContainerView {
        ContainerView { state: ContainerState::NotCreated, pid: None, config, stack }
    }

    /// What a request to run is answered with, given whether the source of
    /// the root filesystem is a directory on the host. A running container
    /// refuses; any other one checks its configuration and, if that is in
    /// order, describes the launch.
    pub open spec fn run(self, rootfs_is_directory: bool) -> Result<LaunchView, ErrorView> {
        if self.state is Running {
            Err(ErrorView::AlreadyRunning)
        } else {
            match self.config.validated(rootfs_is_directory) {
                Err(error) => Err(error),
                Ok(_) => Ok(launch_of(self.config)),
            }
        }
    }

    /// What the report of a clone is answered with: a running container
    /// refuses it, a failed clone is an error.
    pub open spec fn spawn_checked(self, cloned: Result<i32, i32>) -> Result<(), ErrorView> {
        if self.state is Running {
            Err(ErrorView::AlreadyRunning)
        } else {
            match cloned {
                Ok(_) => Ok(()),
                Err(errno) => Err(ErrorView::SysCallFailed(syscall_failure_text(errno))),
            }
        }
    }

    /// The container after the report of a clone: running with the child's
    /// process id where the report is accepted and the clone succeeded, as
    /// before otherwise.
    pub open spec fn spawned(self, cloned: Result<i32, i32>) -> ContainerView {
        match cloned {
            Ok(pid) if !(self.state is Running) => ContainerView {
                state: ContainerState::Running,
                pid: Some(pid),
                ..self
            },
            _ => self,
        }
    }

    /// The container after its child has been waited for.
    pub open spec fn exited(self) -> ContainerView {
        ContainerView { state: ContainerState::Exited, pid: None, ..self }
    }
}

/// The answer to a request to run, with its parts as their views.
pub open spec fn launch_outcome(result: Result<Launch, CartonError>) -> Result<
    LaunchView,
    ErrorView,
> {
    match result {
        Ok(launch) => Ok(launch@),
        Err(error) => Err(error@),
    }
}

impl View for Container {
    type V = ContainerView;

    closed spec fn view(&self) -> ContainerView {
        ContainerView {
            state: self.supervision.state,
            pid: self.supervision.pid,
            config: self.config@,
            stack: self.buffer@,
        }
    }
}

impl Default for Container {
    fn default() -> (container: Container)
        ensures
            container@ == ContainerView::fresh(ConfigurationView::empty(), Seq::empty()),
    {
        Container::new(ContainerConfiguration::new(), ContainerBuffer::default())
    }
}

impl Container {
    /// A container that has not been launched.
    pub fn new(config: ContainerConfiguration, buffer: ContainerBuffer) -> (container: Container)
        ensures
            container@ == ContainerView::fresh(config@, buffer@),
            container@.well_formed(),
    {
        proof {
            use_type_invariant(&config);
        }
        Container {
            supervision: Supervision { state: ContainerState::NotCreated, pid: None },
            config,
            buffer,
        }
    }

    /// Where the container is in its life.
    pub fn state(&self) -> (state: ContainerState)
        ensures
            state == self@.state,
            self@.well_formed(),
    {
        proof {
            use_type_invariant(&self.supervision);
            use_type_invariant(&self.config);
        }
        self.supervision.state
    }

    /// The process id of the child: present exactly while the container is
    /// running.
    pub fn pid(&self) -> (pid: Option<i32>)
        ensures
            pid == self@.pid,
            self@.well_formed(),
    {
        proof {
            use_type_invariant(&self.supervision);
            use_type_invariant(&self.config);
        }
        self.supervision.pid
    }

    /// What the container is made of.
    pub fn config(&self) -> (config: &ContainerConfiguration)
        ensures
            config@ == self@.config,
    {
        &self.config
    }

    /// The number of bytes of the child's stack.
    pub fn stack_size(&self) -> (size: usize)
        ensures
            size == self@.stack.len(),
    {
        self.buffer.stack.len()
    }

    /// The stack for the child that is about to be cloned. A running
    /// container does not hand it out: its child may still be on it.
    pub fn stack_mut(&mut self) -> (stack: Option<&mut [u8]>)
        ensures
            match stack {
                Some(bytes) => {
                    &&& !(old(self)@.state is Running)
                    &&& bytes@ == old(self)@.stack
                    &&& final(self)@ == (ContainerView { stack: final(bytes)@, ..old(self)@ })
                },
                None => old(self)@.state is Running && final(self)@ == old(self)@,
            },
    {
        match self.supervision.state {
            ContainerState::Running => None,
            _ => Some(self.buffer.stack.as_mut_slice()),
        }
    }

    /// Decides whether the container can be launched, given whether the
    /// source of its root filesystem is a directory on the host, and if so,
    /// how.
    ///
    /// The container itself is left as it is: it runs once a successful
    /// clone has been reported with [`Self::spawned`].
    pub fn run_with(&self, rootfs_is_directory: bool) -> (result: Result<Launch, CartonError>)
        ensures
            launch_outcome(result) == self@.run(rootfs_is_directory),
    {
        proof {
            use_type_invariant(&self.supervision);
        }
        match self.supervision.state {
            ContainerState::Running => {
                return Err(CartonError::AlreadyRunning);
            },
            _ => {},
        }
        match self.config.validate_with(rootfs_is_directory) {
            Err(error) => {
                return Err(error);
            },
            Ok(()) => {},
        }
        let command = self.config.command().as_ref().unwrap();
        let mut program = setup_namespaces(&self.config);
        let ghost setup = program@;
        program.push(KernelOp::ChangeDir { path: String::from_str("/") });
        program.push(execute_command(command.as_str(), self.config.arguments()));
        assert(plan(program@) =~= child_program(self@.config)) by {
            assert(plan(setup) == namespaces_set_up(self@.config));
        }
        Ok(
            Launch {
                namespaces: Namespaces { uts: true, mount: true, pid: true },
                exit_signal: ExitSignal::Child,
                program,
            },
        )
    }

    /// Decides whether the container can be launched, and if so, how.
    /// Whether the source of the root filesystem is a directory is asked of
    /// the host, so the answer is one of the two that [`Self::run_with`] can
    /// give.
    pub fn run(&self) -> (result: Result<Launch, CartonError>)
        ensures
            launch_outcome(result) == self@.run(true) || launch_outcome(result) == self@.run(
                false,
            ),
            self@.state is Running ==> launch_outcome(result) == Err::<LaunchView, ErrorView>(
                ErrorView::AlreadyRunning,
            ),
    {
        // A running container is not looked at any further, and a container
        // without a root filesystem has nothing to ask the host about.
        let rootfs_is_directory = match (self.state(), self.config.rootfs()) {
            (ContainerState::Running, _) => false,
            (_, None) => false,
            (_, Some(root)) => is_directory(root.source().as_ref().unwrap().as_str()),
        };
        self.run_with(rootfs_is_directory)
    }

    /// Takes note of how the clone went: `Ok` with the process id of the
    /// child, or `Err` with the errno.
    ///
    /// After a successful clone the container is running and holds the
    /// process id. A failed clone is reported as a failed system call and
    /// leaves the container as it was, and so does a report that arrives
    /// while the container is running.
    pub fn spawned(&mut self, cloned: Result<i32, i32>) -> (result: Result<(), CartonError>)
        ensures
            crate::error::outcome(result) == old(self)@.spawn_checked(cloned),
            final(self)@ == old(self)@.spawned(cloned),
            final(self)@.well_formed(),
    {
        proof {
            use_type_invariant(&self.supervision);
            use_type_invariant(&self.config);
        }
        match self.supervision.state {
            ContainerState::Running => {
                return Err(CartonError::AlreadyRunning);
            },
            _ => {},
        }
        match cloned {
            Ok(pid) => {
                self.supervision = Supervision { state: ContainerState::Running, pid: Some(pid) };
                Ok(())
            },
            Err(errno) => Err(CartonError::from_errno(errno)),
        }
    }

    /// Takes note of what waiting for the child gave, and returns the exit
    /// code if the child has ended with one.
    ///
    /// Whatever the status, the container has exited afterwards and holds no
    /// process id: a child that was signalled, and a wait that failed, are
    /// no errors.
    pub fn wait_for_exit(&mut self, status: WaitStatus) -> (exit_code: Option<i32>)
        ensures
            final(self)@ == old(self)@.exited(),
            final(self)@.well_formed(),
            exit_code == match status {
                WaitStatus::Exited(code) => Some(code),
                _ => None::<i32>,
            },
    {
        proof {
            use_type_invariant(&self.config);
        }
        self.supervision = Supervision { state: ContainerState::Exited, pid: None };
        match status {
            WaitStatus::Exited(code) => Some(code),
            _ => None,
        }
    }
}

} // verus!
