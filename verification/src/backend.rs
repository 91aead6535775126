//! Keeping the local backend alive: whether it has to be started, how, and
//! what is done after each step of starting it.
//!
//! The library decides and the caller acts. The caller begins with
//! [`BackendSupervisor::begin`], carries out the action it is given, reports
//! what came of it with [`BackendSupervisor::step`], and goes on until the
//! action is [`BackendAction::Stop`].

use vstd::prelude::*;

verus! {

/// The address at which the backend listens.
pub fn backend_host() -> (r: &'static str)
    ensures
        r@ == "127.0.0.1"@,
{
    "127.0.0.1"
}

/// The port at which the backend listens.
pub const BACKEND_PORT: u16 = 8000;

/// How long a backend that was started is given before it is looked for
/// again, in milliseconds.
pub const SETTLE_MS: u64 = 2000;

/// How to start the backend.
#[derive(Debug, PartialEq, Eq)]
pub struct BackendLaunch {
    pub program: &'static str,
    pub args: Vec<&'static str>,
    /// The directory to start it in, a sibling of the working directory.
    pub directory: &'static str,
}

/// The program that starts the backend: the command interpreter on Windows,
/// the Python interpreter elsewhere.
pub open spec fn launch_program_text(windows: bool) -> Seq<char> {
    if windows {
        "cmd"@
    } else {
        "python3"@
    }
}

/// The arguments of a launch: the module that serves `main:app`, and where
/// it is to listen. On Windows the interpreter is passed through `cmd /C`.
pub open spec fn launch_args_text(windows: bool) -> Seq<Seq<char>> {
    let serve = seq![
        "-m"@,
        "uvicorn"@,
        "main:app"@,
        "--host"@,
        "127.0.0.1"@,
        "--port"@,
        "8000"@,
    ];
    if windows {
        seq!["/C"@, "python"@] + serve
    } else {
        serve
    }
}

/// The texts of a list of arguments.
pub open spec fn texts(args: Seq<&'static str>) -> Seq<Seq<char>> {
    Seq::new(args.len(), |i: int| args[i]@)
}

/// The launch of the backend on this platform.
pub fn backend_launch(windows: bool) -> (r: BackendLaunch)
    ensures
        r.program@ == launch_program_text(windows),
        texts(r.args@) == launch_args_text(windows),
        r.directory@ == "backend"@,
{
    let mut args: Vec<&'static str> = Vec::new();
    if windows {
        args.push("/C");
        args.push("python");
    }
    args.push("-m");
    args.push("uvicorn");
    args.push("main:app");
    args.push("--host");
    args.push(backend_host());
    args.push("--port");
    args.push("8000");
    BackendLaunch {
        program: if windows {
            "cmd"
        } else {
            "python3"
        },
        args,
        directory: "backend",
    }
}

/// How the supervision ended.
#[derive(Clone, Copy, Debug, PartialEq, Eq, Structural)]
pub enum BackendStatus {
    /// The backend answered at once.
    AlreadyRunning,
    /// The backend was started and answers.
    Started,
    /// The backend was started and does not answer.
    Unresponsive,
    /// The backend could not be started.
    LaunchFailed,
}

/// Where the supervision stands.
#[derive(Clone, Copy, Debug, PartialEq, Eq, Structural)]
pub enum BackendPhase {
    /// Waiting to hear whether the backend answers.
    Probing,
    /// Waiting to hear whether the backend was started.
    Launching,
    /// Waiting for the started backend to come up.
    Settling,
    /// Waiting to hear whether the started backend answers.
    Confirming,
    /// Over.
    Done(BackendStatus),
}

/// What the caller reports.
#[derive(Clone, Copy, Debug, PartialEq, Eq, Structural)]
pub enum BackendEvent {
    /// A connection to the backend was tried.
    Probed { reachable: bool },
    /// A launch was tried.
    Launched { started: bool },
    /// The wait is over.
    Waited,
}

/// What the caller is to do next.
#[derive(Clone, Copy, Debug, PartialEq, Eq, Structural)]
pub enum BackendAction {
    /// Try to connect to the backend.
    Probe,
    /// Start the backend as [`backend_launch`] says.
    Launch,
    /// Wait this many milliseconds.
    Wait { ms: u64 },
    /// Nothing more.
    Stop(BackendStatus),
}

/// The action that a phase waits for the outcome of.
pub open spec fn awaited(phase: BackendPhase) -> BackendAction {
    match phase {
        BackendPhase::Probing => BackendAction::Probe,
        BackendPhase::Launching => BackendAction::Launch,
        BackendPhase::Settling => BackendAction::Wait { ms: SETTLE_MS },
        BackendPhase::Confirming => BackendAction::Probe,
        BackendPhase::Done(status) => BackendAction::Stop(status),
    }
}

/// Whether `event` reports the outcome of `action`.
pub open spec fn answers(event: BackendEvent, action: BackendAction) -> bool {
    match action {
        BackendAction::Probe => event is Probed,
        BackendAction::Launch => event is Launched,
        BackendAction::Wait { .. } => event is Waited,
        BackendAction::Stop(_) => false,
    }
}

/// The phase that follows `phase` on `event`. A backend that answers is left
/// alone. One that does not is started, given time, and looked for once
/// more. An event that does not answer what the phase waits for changes
/// nothing.
pub open spec fn next_phase(phase: BackendPhase, event: BackendEvent) -> BackendPhase {
    match (phase, event) {
        (BackendPhase::Probing, BackendEvent::Probed { reachable }) => if reachable {
            BackendPhase::Done(BackendStatus::AlreadyRunning)
        } else {
            BackendPhase::Launching
        },
        (BackendPhase::Launching, BackendEvent::Launched { started }) => if started {
            BackendPhase::Settling
        } else {
            BackendPhase::Done(BackendStatus::LaunchFailed)
        },
        (BackendPhase::Settling, BackendEvent::Waited) => BackendPhase::Confirming,
        (BackendPhase::Confirming, BackendEvent::Probed { reachable }) => if reachable {
            BackendPhase::Done(BackendStatus::Started)
        } else {
            BackendPhase::Done(BackendStatus::Unresponsive)
        },
        _ => phase,
    }
}

/// Decides, step by step, what is done to have the backend running.
pub struct BackendSupervisor {
    phase: BackendPhase,
}

impl BackendSupervisor {
    /// Where the supervision stands.
    pub closed spec fn phase(&self) -> BackendPhase {
        self.phase
    }

    /// A supervision at its beginning, and its first action: to look whether
    /// the backend answers.
    pub fn begin() -> (r: (BackendSupervisor, BackendAction))
        ensures
            r.0.phase() == BackendPhase::Probing,
            r.1 == BackendAction::Probe,
    {
        (BackendSupervisor { phase: BackendPhase::Probing }, BackendAction::Probe)
    }

    /// Where the supervision stands.
    pub fn current_phase(&self) -> (r: BackendPhase)
        ensures
            r == self.phase(),
    {
        self.phase
    }

    /// The status, once the supervision is over.
    pub fn status(&self) -> (r: Option<BackendStatus>)
        ensures
            r == (match self.phase() {
                BackendPhase::Done(status) => Some(status),
                _ => None,
            }),
    {
        match self.phase {
            BackendPhase::Done(status) => Some(status),
            _ => None,
        }
    }

    /// Takes the outcome of the last action and says what to do next.
    pub fn step(&mut self, event: BackendEvent) -> (r: BackendAction)
        ensures
            final(self).phase() == next_phase(old(self).phase(), event),
            r == awaited(final(self).phase()),
    {
        let next = match self.phase {
            BackendPhase::Probing => match event {
                BackendEvent::Probed { reachable: true } => BackendPhase::Done(
                    BackendStatus::AlreadyRunning,
                ),
                BackendEvent::Probed { reachable: false } => BackendPhase::Launching,
                _ => BackendPhase::Probing,
            },
            BackendPhase::Launching => match event {
                BackendEvent::Launched { started: true } => BackendPhase::Settling,
                BackendEvent::Launched { started: false } => BackendPhase::Done(
                    BackendStatus::LaunchFailed,
                ),
                _ => BackendPhase::Launching,
            },
            BackendPhase::Settling => match event {
                BackendEvent::Waited => BackendPhase::Confirming,
                _ => BackendPhase::Settling,
            },
            BackendPhase::Confirming => match event {
                BackendEvent::Probed { reachable: true } => BackendPhase::Done(
                    BackendStatus::Started,
                ),
                BackendEvent::Probed { reachable: false } => BackendPhase::Done(
                    BackendStatus::Unresponsive,
                ),
                _ => BackendPhase::Confirming,
            },
            BackendPhase::Done(status) => BackendPhase::Done(status),
        };
        self.phase = next;
        match next {
            BackendPhase::Probing | BackendPhase::Confirming => BackendAction::Probe,
            BackendPhase::Launching => BackendAction::Launch,
            BackendPhase::Settling => BackendAction::Wait { ms: SETTLE_MS },
            BackendPhase::Done(status) => BackendAction::Stop(status),
        }
    }
}

/// The backend is started only after it was looked for and did not answer.
pub proof fn law_launch_only_when_unreachable(phase: BackendPhase, event: BackendEvent)
    requires
        !(phase is Launching),
        awaited(next_phase(phase, event)) is Launch,
    ensures
        phase is Probing,
        event == (BackendEvent::Probed { reachable: false }),
{
}

/// A supervision that is over stays over, with the same status.
pub proof fn law_done_is_final(status: BackendStatus, event: BackendEvent)
    ensures
        next_phase(BackendPhase::Done(status), event) == BackendPhase::Done(status),
{
}

/// A caller that answers each action with its outcome is told to stop after
/// four reports at the latest, and the backend is started at most once.
pub proof fn law_supervision_ends(
    first: BackendEvent,
    second: BackendEvent,
    third: BackendEvent,
    fourth: BackendEvent,
)
    requires
        answers(first, awaited(BackendPhase::Probing)),
        ({
            let one = next_phase(BackendPhase::Probing, first);
            let two = next_phase(one, second);
            let three = next_phase(two, third);
            &&& one is Done || answers(second, awaited(one))
            &&& two is Done || answers(third, awaited(two))
            &&& three is Done || answers(fourth, awaited(three))
        }),
    ensures
        ({
            let one = next_phase(BackendPhase::Probing, first);
            let two = next_phase(one, second);
            let three = next_phase(two, third);
            let four = next_phase(three, fourth);
            &&& four is Done
            &&& !(two is Launching)
            &&& !(three is Launching)
            &&& !(four is Launching)
        }),
{
}

} // verus!
