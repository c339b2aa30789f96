//! The supervisor: the lifecycle of the one sidecar a host runs.
//!
//! The supervisor decides; the host acts. Each outcome the host observes is
//! handed to [`Supervisor::step`] as a [`SupervisorEvent`], and the answer is
//! the list of [`Command`]s the host has to carry out, in order. The
//! supervisor owns the process slot, so a host that guards the supervisor
//! with a lock holds that lock for the step only, never while a process is
//! being terminated.

use crate::launch::{LaunchSpec, LaunchSpecView};
use crate::log::{supervisor_prefix, LogLine, LogLineView, Sink};
use crate::probe::{probe_initial, probe_report, ProbePhase, ProbeView, ReadinessProbe};
use crate::slot::ProcessSlot;
use crate::text::{decimal, decimal_string};
use vstd::prelude::*;

verus! {

/// The number of seconds a host waits for readiness unless told otherwise.
pub const DEFAULT_MAX_WAIT_SECONDS: u32 = 30;

/// The lifecycle of the supervised process.
#[derive(Clone, Copy, Debug, PartialEq, Eq, Structural)]
pub enum Phase {
    /// Nothing has been started.
    Uninitialized,
    /// Startup is under way: the data directory and the spawn.
    Spawning,
    /// The child runs and its handle is in the slot.
    Running,
    /// The handle has left the slot and termination is under way.
    ShuttingDown,
    /// No child runs and none will: terminated, or never started because
    /// startup failed.
    Terminated,
}

/// Why startup was aborted.
#[derive(Clone, Copy, Debug, PartialEq, Eq, Structural)]
pub enum LaunchError {
    /// The data directory could not be created.
    PathResolutionError,
    /// The child could not be spawned.
    SpawnError,
}

/// What is known about the backend's readiness.
#[derive(Clone, Copy, Debug, PartialEq, Eq, Structural)]
pub enum Readiness {
    /// No probe is configured; nothing is known.
    NotProbed,
    /// The probe has been asked for and has not reported yet.
    Pending,
    /// The probe connected.
    Ready,
    /// The probe gave up. This is a warning, not a failure.
    TimedOut,
}

/// What a successful startup hands to the host.
#[derive(Clone, Copy, Debug, PartialEq, Eq, Structural)]
pub struct SupervisionContext {
    /// The port the backend serves.
    pub port: u16,
    /// What the readiness probe found.
    pub readiness: Readiness,
}

/// An outcome the host reports to the supervisor.
#[derive(Debug, PartialEq, Eq)]
pub enum SupervisorEvent<H> {
    /// The host asks for the sidecar to be started.
    Start(LaunchSpec),
    /// The data directory could not be created.
    DataDirFailed,
    /// The spawn failed.
    SpawnFailed,
    /// The spawn succeeded; this is the child's handle.
    Spawned(H),
    /// The readiness probe is over; this is its final state.
    ProbeFinished(ReadinessProbe),
    /// The host is exiting.
    ExitRequested,
    /// The terminate call has returned; `ok` tells whether it succeeded.
    TerminateReturned { ok: bool },
}

/// An operation the host has to carry out.
#[derive(Debug, PartialEq, Eq)]
pub enum Command<H> {
    /// Write the line to the logging sink.
    Log(LogLine),
    /// Create the directory, parents included, unless it exists. On failure
    /// report `DataDirFailed` and drop the commands that follow.
    EnsureDataDir(String),
    /// Spawn the sidecar. Report `Spawned` with its handle, or `SpawnFailed`.
    Spawn(LaunchSpec),
    /// Start relaying the child's event stream in the background.
    StartRelay,
    /// Run the probe to its end, then report `ProbeFinished` with it.
    Probe(ReadinessProbe),
    /// Startup is complete.
    Ready(SupervisionContext),
    /// Terminate the process behind the handle, then report
    /// `TerminateReturned`.
    Terminate(H),
    /// Startup failed for good: abort with a diagnostic.
    Abort(LaunchError),
}

/// The mathematical content of a [`SupervisorEvent`].
pub enum EventView<H> {
    Start(LaunchSpecView),
    DataDirFailed,
    SpawnFailed,
    Spawned(H),
    ProbeFinished(ProbeView),
    ExitRequested,
    TerminateReturned { ok: bool },
}

/// The mathematical content of a [`Command`].
pub enum CommandView<H> {
    Log(LogLineView),
    EnsureDataDir(Seq<char>),
    Spawn(LaunchSpecView),
    StartRelay,
    Probe(ProbeView),
    Ready(SupervisionContext),
    Terminate(H),
    Abort(LaunchError),
}

impl<H> View for SupervisorEvent<H> {
    type V = EventView<H>;

    open spec fn view(&self) -> EventView<H> {
        match *self {
            SupervisorEvent::Start(spec) => EventView::Start(spec@),
            SupervisorEvent::DataDirFailed => EventView::DataDirFailed,
            SupervisorEvent::SpawnFailed => EventView::SpawnFailed,
            SupervisorEvent::Spawned(handle) => EventView::Spawned(handle),
            SupervisorEvent::ProbeFinished(probe) => EventView::ProbeFinished(probe@),
            SupervisorEvent::ExitRequested => EventView::ExitRequested,
            SupervisorEvent::TerminateReturned { ok } => EventView::TerminateReturned { ok },
        }
    }
}

impl<H> View for Command<H> {
    type V = CommandView<H>;

    open spec fn view(&self) -> CommandView<H> {
        match *self {
            Command::Log(line) => CommandView::Log(line@),
            Command::EnsureDataDir(dir) => CommandView::EnsureDataDir(dir@),
            Command::Spawn(spec) => CommandView::Spawn(spec@),
            Command::StartRelay => CommandView::StartRelay,
            Command::Probe(probe) => CommandView::Probe(probe@),
            Command::Ready(context) => CommandView::Ready(context),
            Command::Terminate(handle) => CommandView::Terminate(handle),
            Command::Abort(error) => CommandView::Abort(error),
        }
    }
}

/// The contents of a list of commands, in order.
pub open spec fn command_views<H>(commands: Seq<Command<H>>) -> Seq<CommandView<H>> {
    commands.map_values(|command: Command<H>| command@)
}

/// The supervisor of one sidecar, with process handles of type `H`.
#[derive(Debug)]
pub struct Supervisor<H> {
    phase: Phase,
    slot: ProcessSlot<H>,
    port: u16,
    max_wait_seconds: Option<u32>,
    readiness: Readiness,
    failure: Option<LaunchError>,
}

/// The mathematical content of a [`Supervisor`].
pub struct SupervisorView<H> {
    pub phase: Phase,
    /// What the process slot holds.
    pub slot: Option<H>,
    /// The port of the sidecar that was started; zero before.
    pub port: u16,
    /// The attempts allowed to the readiness probe; `None` for no probe.
    pub max_wait_seconds: Option<u32>,
    pub readiness: Readiness,
    /// Why startup was aborted, if it was.
    pub failure: Option<LaunchError>,
}

impl<H> SupervisorView<H> {
    /// The slot holds a handle exactly while the child is running.
    pub open spec fn wf(self) -> bool {
        self.slot is Some <==> self.phase == Phase::Running
    }

    /// What startup hands to the host: the port and the readiness found.
    pub open spec fn context(self) -> SupervisionContext {
        SupervisionContext { port: self.port, readiness: self.readiness }
    }
}

/// The supervisor before anything has happened.
pub open spec fn supervisor_initial<H>(max_wait_seconds: Option<u32>) -> SupervisorView<H> {
    SupervisorView {
        phase: Phase::Uninitialized,
        slot: None,
        port: 0,
        max_wait_seconds,
        readiness: Readiness::NotProbed,
        failure: None,
    }
}

/// The line that names the data file.
pub open spec fn data_path_notice(data_path: Seq<char>) -> LogLineView {
    LogLineView { sink: Sink::Stdout, text: supervisor_prefix() + "DB path: "@ + data_path }
}

/// The line that announces the spawn.
pub open spec fn starting_notice(port: u16) -> LogLineView {
    LogLineView {
        sink: Sink::Stdout,
        text: supervisor_prefix() + "Starting sidecar on port "@ + decimal(port as nat),
    }
}

/// The line that announces termination.
pub open spec fn shutdown_notice() -> LogLineView {
    LogLineView { sink: Sink::Stdout, text: supervisor_prefix() + "Shutting down sidecar..."@ }
}

/// The line that reports a failed terminate call.
pub open spec fn terminate_warning() -> LogLineView {
    LogLineView {
        sink: Sink::Stderr,
        text: supervisor_prefix() + "WARNING: failed to terminate sidecar"@,
    }
}

/// The commands that carry out a start.
pub open spec fn start_commands<H>(spec: LaunchSpecView) -> Seq<CommandView<H>> {
    seq![
        CommandView::EnsureDataDir(spec.working_dir),
        CommandView::Log(data_path_notice(spec.data_path)),
        CommandView::Log(starting_notice(spec.port)),
        CommandView::Spawn(spec),
    ]
}

/// What a finished probe says about readiness.
pub open spec fn readiness_found(probe: ProbeView) -> Readiness {
    if probe.phase == ProbePhase::Ready {
        Readiness::Ready
    } else {
        Readiness::TimedOut
    }
}

/// The supervisor's reaction to an event: the next state and the commands
/// for the host, in order.
///
/// - `Start` is answered once, before anything else has happened.
/// - A failure of the data directory or of the spawn ends startup for good.
/// - `Spawned` during startup puts the handle into the slot, starts the
///   relay and then either the probe or, without one, declares startup
///   complete. At any other time the handle is handed straight back for
///   termination, so that no process is left without an owner.
/// - `ProbeFinished` with a probe that is over declares startup complete,
///   after the probe's own report; a timeout is a warning only.
/// - `ExitRequested` empties the slot and asks for the handle it held to be
///   terminated; on an empty slot it does nothing.
/// - `TerminateReturned` ends the shutdown, whatever the call returned.
/// - Any other event changes nothing and asks for nothing.
pub open spec fn supervisor_next<H>(s: SupervisorView<H>, event: EventView<H>) -> (
    SupervisorView<H>,
    Seq<CommandView<H>>,
) {
    match event {
        EventView::Start(spec) => if s.phase == Phase::Uninitialized {
            (SupervisorView { phase: Phase::Spawning, port: spec.port, ..s }, start_commands(spec))
        } else {
            (s, Seq::empty())
        },
        EventView::DataDirFailed => if s.phase == Phase::Spawning {
            (
                SupervisorView {
                    phase: Phase::Terminated,
                    failure: Some(LaunchError::PathResolutionError),
                    ..s
                },
                seq![CommandView::Abort(LaunchError::PathResolutionError)],
            )
        } else {
            (s, Seq::empty())
        },
        EventView::SpawnFailed => if s.phase == Phase::Spawning {
            (
                SupervisorView {
                    phase: Phase::Terminated,
                    failure: Some(LaunchError::SpawnError),
                    ..s
                },
                seq![CommandView::Abort(LaunchError::SpawnError)],
            )
        } else {
            (s, Seq::empty())
        },
        EventView::Spawned(handle) => if s.phase == Phase::Spawning {
            match s.max_wait_seconds {
                Some(seconds) => (
                    SupervisorView {
                        phase: Phase::Running,
                        slot: Some(handle),
                        readiness: Readiness::Pending,
                        ..s
                    },
                    seq![
                        CommandView::StartRelay,
                        CommandView::Probe(probe_initial(s.port, seconds as nat)),
                    ],
                ),
                None => (
                    SupervisorView {
                        phase: Phase::Running,
                        slot: Some(handle),
                        readiness: Readiness::NotProbed,
                        ..s
                    },
                    seq![
                        CommandView::StartRelay,
                        CommandView::Ready(
                            SupervisionContext { port: s.port, readiness: Readiness::NotProbed },
                        ),
                    ],
                ),
            }
        } else {
            (s, seq![CommandView::Terminate(handle)])
        },
        EventView::ProbeFinished(probe) => if s.phase == Phase::Running && s.readiness
            == Readiness::Pending && probe.finished() {
            (
                SupervisorView { readiness: readiness_found(probe), ..s },
                seq![
                    CommandView::Log(probe_report(probe)->Some_0),
                    CommandView::Ready(
                        SupervisionContext { port: s.port, readiness: readiness_found(probe) },
                    ),
                ],
            )
        } else {
            (s, Seq::empty())
        },
        EventView::ExitRequested => match s.slot {
            Some(handle) => (
                SupervisorView { phase: Phase::ShuttingDown, slot: None, ..s },
                seq![CommandView::Log(shutdown_notice()), CommandView::Terminate(handle)],
            ),
            None => (s, Seq::empty()),
        },
        EventView::TerminateReturned { ok } => if s.phase == Phase::ShuttingDown {
            (
                SupervisorView { phase: Phase::Terminated, ..s },
                if ok {
                    Seq::empty()
                } else {
                    seq![CommandView::Log(terminate_warning())]
                },
            )
        } else {
            (s, Seq::empty())
        },
    }
}

impl<H> View for Supervisor<H> {
    type V = SupervisorView<H>;

    closed spec fn view(&self) -> SupervisorView<H> {
        SupervisorView {
            phase: self.phase,
            slot: self.slot@,
            port: self.port,
            max_wait_seconds: self.max_wait_seconds,
            readiness: self.readiness,
            failure: self.failure,
        }
    }
}

fn data_path_line(data_path: &String) -> (line: LogLine)
    ensures
        line@ == data_path_notice(data_path@),
{
    let text = String::from_str("[Supervisor] ").concat("DB path: ").concat(data_path.as_str());
    LogLine::new(Sink::Stdout, text)
}

fn starting_line(port: u16) -> (line: LogLine)
    ensures
        line@ == starting_notice(port),
{
    let port_text = decimal_string(port as u64);
    let text = String::from_str("[Supervisor] ").concat("Starting sidecar on port ").concat(
        port_text.as_str(),
    );
    LogLine::new(Sink::Stdout, text)
}

fn shutdown_line() -> (line: LogLine)
    ensures
        line@ == shutdown_notice(),
{
    let text = String::from_str("[Supervisor] ").concat("Shutting down sidecar...");
    LogLine::new(Sink::Stdout, text)
}

fn terminate_warning_line() -> (line: LogLine)
    ensures
        line@ == terminate_warning(),
{
    let text = String::from_str("[Supervisor] ").concat("WARNING: failed to terminate sidecar");
    LogLine::new(Sink::Stderr, text)
}

impl<H> Supervisor<H> {
    /// A supervisor that has started nothing yet. With `Some(n)` the
    /// readiness probe is allowed `n` attempts; with `None` startup does not
    /// probe.
    pub fn new(max_wait_seconds: Option<u32>) -> (supervisor: Supervisor<H>)
        ensures
            supervisor@ == supervisor_initial::<H>(max_wait_seconds),
            supervisor@.wf(),
    {
        Supervisor {
            phase: Phase::Uninitialized,
            slot: ProcessSlot::new(),
            port: 0,
            max_wait_seconds,
            readiness: Readiness::NotProbed,
            failure: None,
        }
    }

    /// Takes in an event and says what the host has to do, in order.
    pub fn step(&mut self, event: SupervisorEvent<H>) -> (commands: Vec<Command<H>>)
        ensures
            final(self)@ == supervisor_next(old(self)@, event@).0,
            command_views(commands@) == supervisor_next(old(self)@, event@).1,
            old(self)@.wf() ==> final(self)@.wf(),
    {
        let mut commands: Vec<Command<H>> = Vec::new();
        match event {
            SupervisorEvent::Start(spec) => {
                if self.phase == Phase::Uninitialized {
                    self.phase = Phase::Spawning;
                    self.port = spec.port();
                    commands.push(Command::EnsureDataDir(spec.working_dir().clone()));
                    commands.push(Command::Log(data_path_line(spec.data_path())));
                    commands.push(Command::Log(starting_line(spec.port())));
                    commands.push(Command::Spawn(spec));
                }
            },
            SupervisorEvent::DataDirFailed => {
                if self.phase == Phase::Spawning {
                    self.phase = Phase::Terminated;
                    self.failure = Some(LaunchError::PathResolutionError);
                    commands.push(Command::Abort(LaunchError::PathResolutionError));
                }
            },
            SupervisorEvent::SpawnFailed => {
                if self.phase == Phase::Spawning {
                    self.phase = Phase::Terminated;
                    self.failure = Some(LaunchError::SpawnError);
                    commands.push(Command::Abort(LaunchError::SpawnError));
                }
            },
            SupervisorEvent::Spawned(handle) => {
                if self.phase == Phase::Spawning {
                    self.phase = Phase::Running;
                    let _ = self.slot.store(handle);
                    commands.push(Command::StartRelay);
                    match self.max_wait_seconds {
                        Some(seconds) => {
                            self.readiness = Readiness::Pending;
                            commands.push(Command::Probe(ReadinessProbe::new(self.port, seconds)));
                        },
                        None => {
                            self.readiness = Readiness::NotProbed;
                            commands.push(
                                Command::Ready(
                                    SupervisionContext {
                                        port: self.port,
                                        readiness: Readiness::NotProbed,
                                    },
                                ),
                            );
                        },
                    }
                } else {
                    commands.push(Command::Terminate(handle));
                }
            },
            SupervisorEvent::ProbeFinished(probe) => {
                if self.phase == Phase::Running && self.readiness == Readiness::Pending {
                    match probe.report() {
                        Some(line) => {
                            self.readiness = match probe.phase() {
                                ProbePhase::Ready => Readiness::Ready,
                                _ => Readiness::TimedOut,
                            };
                            commands.push(Command::Log(line));
                            commands.push(
                                Command::Ready(
                                    SupervisionContext {
                                        port: self.port,
                                        readiness: self.readiness,
                                    },
                                ),
                            );
                        },
                        None => {},
                    }
                }
            },
            SupervisorEvent::ExitRequested => {
                match self.slot.take() {
                    Some(handle) => {
                        self.phase = Phase::ShuttingDown;
                        commands.push(Command::Log(shutdown_line()));
                        commands.push(Command::Terminate(handle));
                    },
                    None => {},
                }
            },
            SupervisorEvent::TerminateReturned { ok } => {
                if self.phase == Phase::ShuttingDown {
                    self.phase = Phase::Terminated;
                    if !ok {
                        commands.push(Command::Log(terminate_warning_line()));
                    }
                }
            },
        }
        assert(command_views(commands@) =~= supervisor_next(old(self)@, event@).1);
        commands
    }
}

impl<H> Supervisor<H> {
    /// Begins startup with the given launch parameters: `step` on `Start`.
    pub fn start(&mut self, spec: LaunchSpec) -> (commands: Vec<Command<H>>)
        ensures
            final(self)@ == supervisor_next(old(self)@, EventView::Start(spec@)).0,
            command_views(commands@) == supervisor_next(old(self)@, EventView::Start(spec@)).1,
            old(self)@.wf() ==> final(self)@.wf(),
    {
        self.step(SupervisorEvent::Start(spec))
    }

    /// Reacts to the host's exit notification: `step` on `ExitRequested`.
    /// The slot is empty afterwards; the handle it held, if any, comes back
    /// in a `Terminate` command.
    pub fn shutdown(&mut self) -> (commands: Vec<Command<H>>)
        ensures
            final(self)@ == supervisor_next(old(self)@, EventView::ExitRequested).0,
            command_views(commands@) == supervisor_next(old(self)@, EventView::ExitRequested).1,
            final(self)@.slot is None,
            old(self)@.wf() ==> final(self)@.wf(),
    {
        self.step(SupervisorEvent::ExitRequested)
    }

    /// Where the lifecycle stands.
    pub fn phase(&self) -> (phase: Phase)
        ensures
            phase == self@.phase,
    {
        self.phase
    }

    /// Whether the slot holds the child's handle.
    pub fn has_child(&self) -> (held: bool)
        ensures
            held == (self@.slot is Some),
    {
        !self.slot.is_empty()
    }

    /// The port and the readiness found so far.
    pub fn context(&self) -> (context: SupervisionContext)
        ensures
            context == self@.context(),
    {
        SupervisionContext { port: self.port, readiness: self.readiness }
    }

    /// Why startup was aborted, if it was.
    pub fn failure(&self) -> (failure: Option<LaunchError>)
        ensures
            failure == self@.failure,
    {
        self.failure
    }
}

/// The diagnostic that goes with an aborted startup.
pub open spec fn launch_error_message(error: LaunchError) -> Seq<char> {
    match error {
        LaunchError::PathResolutionError => "failed to create app data dir"@,
        LaunchError::SpawnError => "failed to spawn sidecar"@,
    }
}

impl LaunchError {
    /// The diagnostic to abort with.
    pub fn message(&self) -> (text: String)
        ensures
            text@ == launch_error_message(*self),
    {
        match self {
            LaunchError::PathResolutionError => String::from_str("failed to create app data dir"),
            LaunchError::SpawnError => String::from_str("failed to spawn sidecar"),
        }
    }
}

} // verus!
