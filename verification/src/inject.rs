//! The external injector as a state machine: which call into the
//! operating system comes next, what is remembered of each answer, and how
//! every resource taken in the host is given back before the injector
//! reports, whether it succeeded or not. The calls themselves are made by
//! the embedding program.

use vstd::prelude::*;

verus! {

/// The longest path, in UTF-16 units with the terminator, that the buffer
/// in the host can hold.
pub const MAX_PATH: usize = 260;

/// The size in bytes of the buffer allocated in the host.
pub const ALLOCATION_BYTES: usize = 520;

/// The UTF-16 units of one character.
pub open spec fn utf16_of(c: char) -> Seq<u16> {
    if (c as u32) < 0x1_0000 {
        seq![c as u32 as u16]
    } else {
        let v = (c as u32 - 0x1_0000) as int;
        seq![(0xD800 + v / 0x400) as u16, (0xDC00 + v % 0x400) as u16]
    }
}

/// The UTF-16 units of a text.
pub open spec fn utf16_text(text: Seq<char>) -> Seq<u16>
    decreases text.len(),
{
    if text.len() == 0 {
        Seq::empty()
    } else {
        utf16_text(text.drop_last()) + utf16_of(text.last())
    }
}

/// The first index of a zero unit, or the length where there is none.
pub open spec fn first_nul(units: Seq<u16>, from: int) -> int
    decreases units.len() - from,
{
    if from < 0 || from >= units.len() {
        units.len() as int
    } else if units[from] == 0 {
        from
    } else {
        first_nul(units, from + 1)
    }
}

/// The nul-terminated wide string of a text: its UTF-16 units followed
/// by one zero unit, unless they already end in the only one; `None` where
/// a zero unit stands anywhere else.
pub open spec fn wide_c_string_of(text: Seq<char>) -> Option<Seq<u16>> {
    let units = utf16_text(text);
    let at = first_nul(units, 0);
    if at == units.len() {
        Some(units.push(0u16))
    } else if at == units.len() - 1 {
        Some(units)
    } else {
        None
    }
}

/// `U16CString::from_str` of the wide-string library, then
/// `into_vec_with_nul`: the text in UTF-16 with exactly one zero unit, at
/// the end; refused where the text holds a zero unit before its end.
#[verifier::external_body]
fn wide_c_string(text: &str) -> (units: Option<Vec<u16>>)
    ensures
        match (units, wide_c_string_of(text@)) {
            (Some(got), Some(expected)) => got@ == expected,
            (None, None) => true,
            _ => false,
        },
{
    widestring::U16CString::from_str(text).ok().map(|s| s.into_vec_with_nul())
}

/// Why a path cannot be handed to the host's loader.
#[derive(Clone, Copy, Debug, PartialEq, Eq, Structural)]
pub enum PathError {
    /// The path holds a zero character before its end.
    ContainsNul,
    /// The path does not fit the buffer.
    TooLong,
}

/// The payload for a path: its nul-terminated wide string, which must fit
/// the buffer in the host.
pub open spec fn payload_of(path: Seq<char>) -> Result<Seq<u16>, PathError> {
    match wide_c_string_of(path) {
        None => Err(PathError::ContainsNul),
        Some(units) => if units.len() > MAX_PATH {
            Err(PathError::TooLong)
        } else {
            Ok(units)
        },
    }
}

/// Encodes the library's path for the buffer in the host.
pub fn path_payload(path: &str) -> (r: Result<Vec<u16>, PathError>)
    ensures
        match (r, payload_of(path@)) {
            (Ok(got), Ok(expected)) => got@ == expected,
            (Err(e), Err(f)) => e == f,
            _ => false,
        },
{
    match wide_c_string(path) {
        None => Err(PathError::ContainsNul),
        Some(units) => if units.len() > MAX_PATH {
            Err(PathError::TooLong)
        } else {
            Ok(units)
        },
    }
}

/// The calls of an injection that can fail.
#[derive(Clone, Copy, Debug, PartialEq, Eq, Structural)]
pub enum Step {
    FindWindow,
    GetProcessId,
    OpenProcess,
    Allocate,
    WritePath,
    FindLoader,
    StartThread,
    Wait,
    ReadExitCode,
}

/// A failed call and the operating system's last-error code for it.
#[derive(Clone, Copy, Debug, PartialEq, Eq, Structural)]
pub struct InjectError {
    pub step: Step,
    pub os_error: u32,
}

/// What the embedding program is asked to do next.
#[derive(Clone, Copy, Debug, PartialEq, Eq)]
#[allow(inconsistent_fields)]
pub enum InjectAction {
    /// Find the host's window by its exact title.
    FindWindow,
    /// Resolve the id of the process that owns the window.
    GetProcessId { window: u64 },
    /// Open the process with full access.
    OpenProcess { pid: u32 },
    /// Allocate the path buffer in the host.
    Allocate { process: u64, bytes: usize },
    /// Write the path payload into the buffer.
    WritePath { process: u64, remote: u64 },
    /// Look the loader's entry point up in our own kernel module.
    FindLoader,
    /// Start a thread in the host at the loader, with the buffer as argument.
    StartThread { process: u64, loader: u64, remote: u64 },
    /// Wait for the thread to end.
    Wait { thread: u64 },
    /// Read the thread's exit code.
    ReadExitCode { thread: u64 },
    /// Free the buffer.
    Free { process: u64, remote: u64 },
    /// Close the thread handle.
    CloseThread { thread: u64 },
    /// Close the process handle.
    CloseProcess { process: u64 },
    /// Report: the loader's exit code, or the call that failed.
    Finish { outcome: Result<u32, InjectError> },
}

/// Which answer the injector is waiting for.
#[derive(Clone, Copy, Debug, PartialEq, Eq, Structural)]
pub enum Phase {
    Idle,
    Window,
    ProcessId,
    Process,
    Allocation,
    Written,
    Loader,
    Thread,
    Waited,
    ExitCode,
    Freed,
    ThreadClosed,
    ProcessClosed,
    Finished,
}

/// The injector between two calls.
#[derive(Clone, Copy, Debug, PartialEq, Eq)]
pub struct Injector {
    pub phase: Phase,
    pub window: u64,
    pub pid: u32,
    pub loader: u64,
    pub process: Option<u64>,
    pub remote: Option<u64>,
    pub thread: Option<u64>,
    pub outcome: Option<Result<u32, InjectError>>,
}

/// The step that an answer awaited in `phase` belongs to.
pub open spec fn step_of(phase: Phase) -> Option<Step> {
    match phase {
        Phase::Window => Some(Step::FindWindow),
        Phase::ProcessId => Some(Step::GetProcessId),
        Phase::Process => Some(Step::OpenProcess),
        Phase::Allocation => Some(Step::Allocate),
        Phase::Written => Some(Step::WritePath),
        Phase::Loader => Some(Step::FindLoader),
        Phase::Thread => Some(Step::StartThread),
        Phase::Waited => Some(Step::Wait),
        Phase::ExitCode => Some(Step::ReadExitCode),
        _ => None,
    }
}

/// The release that comes next while winding down: the buffer first, then
/// the thread handle, then the process handle, then the report.
pub open spec fn wind_down(s: Injector) -> (Injector, InjectAction) {
    if s.remote is Some && s.process is Some {
        (
            Injector { phase: Phase::Freed, ..s },
            InjectAction::Free { process: s.process->Some_0, remote: s.remote->Some_0 },
        )
    } else if s.thread is Some {
        (
            Injector { phase: Phase::ThreadClosed, ..s },
            InjectAction::CloseThread { thread: s.thread->Some_0 },
        )
    } else if s.process is Some {
        (
            Injector { phase: Phase::ProcessClosed, ..s },
            InjectAction::CloseProcess { process: s.process->Some_0 },
        )
    } else {
        (
            Injector { phase: Phase::Finished, remote: None, ..s },
            InjectAction::Finish {
                outcome: match s.outcome {
                    Some(o) => o,
                    None => Err(InjectError { step: Step::FindWindow, os_error: 0 }),
                },
            },
        )
    }
}

/// The injector after the answer `event` to the call it was waiting for,
/// and the call that comes next. A failed call is recorded with its code and
/// starts the winding down; so does the exit code of the loader's thread.
pub open spec fn advance(s: Injector, event: Result<u64, u32>) -> (Injector, InjectAction) {
    match s.phase {
        Phase::Idle => (Injector { phase: Phase::Window, ..s }, InjectAction::FindWindow),
        Phase::Finished => wind_down(s),
        Phase::Freed => wind_down(Injector { remote: None, ..s }),
        Phase::ThreadClosed => wind_down(Injector { thread: None, ..s }),
        Phase::ProcessClosed => wind_down(Injector { process: None, ..s }),
        _ => match event {
            Err(code) => wind_down(
                Injector {
                    outcome: Some(Err(InjectError { step: step_of(s.phase)->Some_0, os_error: code })),
                    ..s
                },
            ),
            Ok(value) => match s.phase {
                Phase::Window => (
                    Injector { phase: Phase::ProcessId, window: value, ..s },
                    InjectAction::GetProcessId { window: value },
                ),
                Phase::ProcessId => (
                    Injector { phase: Phase::Process, pid: value as u32, ..s },
                    InjectAction::OpenProcess { pid: value as u32 },
                ),
                Phase::Process => (
                    Injector { phase: Phase::Allocation, process: Some(value), ..s },
                    InjectAction::Allocate { process: value, bytes: ALLOCATION_BYTES },
                ),
                Phase::Allocation => if s.process is Some {
                    (
                        Injector { phase: Phase::Written, remote: Some(value), ..s },
                        InjectAction::WritePath { process: s.process->Some_0, remote: value },
                    )
                } else {
                    wind_down(s)
                },
                Phase::Written => (Injector { phase: Phase::Loader, ..s }, InjectAction::FindLoader),
                Phase::Loader => if s.process is Some && s.remote is Some {
                    (
                        Injector { phase: Phase::Thread, loader: value, ..s },
                        InjectAction::StartThread {
                            process: s.process->Some_0,
                            loader: value,
                            remote: s.remote->Some_0,
                        },
                    )
                } else {
                    wind_down(s)
                },
                Phase::Thread => (
                    Injector { phase: Phase::Waited, thread: Some(value), ..s },
                    InjectAction::Wait { thread: value },
                ),
                Phase::Waited => if s.thread is Some {
                    (
                        Injector { phase: Phase::ExitCode, ..s },
                        InjectAction::ReadExitCode { thread: s.thread->Some_0 },
                    )
                } else {
                    wind_down(s)
                },
                _ => wind_down(Injector { outcome: Some(Ok(value as u32)), ..s }),
            },
        },
    }
}

/// The injector before its first call: idle, nothing remembered of the
/// host, nothing held in it, no outcome yet.
pub open spec fn idle_injector() -> Injector {
    Injector {
        phase: Phase::Idle,
        window: 0,
        pid: 0,
        loader: 0,
        process: None,
        remote: None,
        thread: None,
        outcome: None,
    }
}

impl Injector {
    /// An injector that has not made any call.
    pub fn new() -> (s: Injector)
        ensures
            s == idle_injector(),
    {
        Injector {
            phase: Phase::Idle,
            window: 0,
            pid: 0,
            loader: 0,
            process: None,
            remote: None,
            thread: None,
            outcome: None,
        }
    }

    fn release(&mut self) -> (action: InjectAction)
        ensures
            (*final(self), action) == wind_down(*old(self)),
    {
        match (self.remote, self.process, self.thread) {
            (Some(remote), Some(process), _) => {
                self.phase = Phase::Freed;
                InjectAction::Free { process, remote }
            },
            (_, _, Some(thread)) => {
                self.phase = Phase::ThreadClosed;
                InjectAction::CloseThread { thread }
            },
            (_, Some(process), None) => {
                self.phase = Phase::ProcessClosed;
                InjectAction::CloseProcess { process }
            },
            (_, None, None) => {
                self.phase = Phase::Finished;
                self.remote = None;
                let outcome = match self.outcome {
                    Some(o) => o,
                    None => Err(InjectError { step: Step::FindWindow, os_error: 0 }),
                };
                InjectAction::Finish { outcome }
            },
        }
    }

    fn fail(&mut self, step: Step, code: u32) -> (action: InjectAction)
        ensures
            (*final(self), action) == wind_down(
                Injector { outcome: Some(Err(InjectError { step, os_error: code })), ..*old(self) },
            ),
    {
        self.outcome = Some(Err(InjectError { step, os_error: code }));
        self.release()
    }

    /// Takes the answer to the call that was asked for last and says which
    /// call comes next. The first call of all takes any value as its answer.
    pub fn step(&mut self, event: Result<u64, u32>) -> (action: InjectAction)
        ensures
            (*final(self), action) == advance(*old(self), event),
    {
        match self.phase {
            Phase::Idle => {
                self.phase = Phase::Window;
                InjectAction::FindWindow
            },
            Phase::Finished => self.release(),
            Phase::Freed => {
                self.remote = None;
                self.release()
            },
            Phase::ThreadClosed => {
                self.thread = None;
                self.release()
            },
            Phase::ProcessClosed => {
                self.process = None;
                self.release()
            },
            Phase::Window => match event {
                Err(code) => self.fail(Step::FindWindow, code),
                Ok(value) => {
                    self.phase = Phase::ProcessId;
                    self.window = value;
                    InjectAction::GetProcessId { window: value }
                },
            },
            Phase::ProcessId => match event {
                Err(code) => self.fail(Step::GetProcessId, code),
                Ok(value) => {
                    self.phase = Phase::Process;
                    self.pid = value as u32;
                    InjectAction::OpenProcess { pid: value as u32 }
                },
            },
            Phase::Process => match event {
                Err(code) => self.fail(Step::OpenProcess, code),
                Ok(value) => {
                    self.phase = Phase::Allocation;
                    self.process = Some(value);
                    InjectAction::Allocate { process: value, bytes: ALLOCATION_BYTES }
                },
            },
            Phase::Allocation => match event {
                Err(code) => self.fail(Step::Allocate, code),
                Ok(value) => match self.process {
                    Some(process) => {
                        self.phase = Phase::Written;
                        self.remote = Some(value);
                        InjectAction::WritePath { process, remote: value }
                    },
                    None => self.release(),
                },
            },
            Phase::Written => match event {
                Err(code) => self.fail(Step::WritePath, code),
                Ok(_) => {
                    self.phase = Phase::Loader;
                    InjectAction::FindLoader
                },
            },
            Phase::Loader => match event {
                Err(code) => self.fail(Step::FindLoader, code),
                Ok(value) => match (self.process, self.remote) {
                    (Some(process), Some(remote)) => {
                        self.phase = Phase::Thread;
                        self.loader = value;
                        InjectAction::StartThread { process, loader: value, remote }
                    },
                    _ => self.release(),
                },
            },
            Phase::Thread => match event {
                Err(code) => self.fail(Step::StartThread, code),
                Ok(value) => {
                    self.phase = Phase::Waited;
                    self.thread = Some(value);
                    InjectAction::Wait { thread: value }
                },
            },
            Phase::Waited => match event {
                Err(code) => self.fail(Step::Wait, code),
                Ok(_) => match self.thread {
                    Some(thread) => {
                        self.phase = Phase::ExitCode;
                        InjectAction::ReadExitCode { thread }
                    },
                    None => self.release(),
                },
            },
            Phase::ExitCode => match event {
                Err(code) => self.fail(Step::ReadExitCode, code),
                Ok(value) => {
                    self.outcome = Some(Ok(value as u32));
                    self.release()
                },
            },
        }
    }
}

/// Whether the injector holds nothing in the host.
pub open spec fn holds_nothing(s: Injector) -> bool {
    s.process is None && s.remote is None && s.thread is None
}

/// The injector reports only once it has given back everything it took: at
/// a `Finish`, no buffer is allocated in the host and no handle is open.
pub proof fn lemma_finish_leaves_nothing(s: Injector, event: Result<u64, u32>)
    ensures
        advance(s, event).1 is Finish ==> holds_nothing(advance(s, event).0) && advance(s, event).0.phase
            == Phase::Finished,
{
}

/// A call that fails is reported as it failed: the step and the code are
/// recorded at once, and winding down does not touch them.
pub proof fn lemma_failure_is_recorded(s: Injector, code: u32)
    requires
        step_of(s.phase) is Some,
    ensures
        advance(s, Err(code)).0.outcome == Some(
            Err::<u32, InjectError>(InjectError { step: step_of(s.phase)->Some_0, os_error: code }),
        ),
{
}

/// Winding down keeps the outcome, and ends in a report of it after at
/// most three releases.
pub proof fn lemma_wind_down_reports(s: Injector, e1: Result<u64, u32>, e2: Result<u64, u32>, e3: Result<u64, u32>)
    requires
        s.outcome is Some,
        s.phase == Phase::Freed || s.phase == Phase::ThreadClosed || s.phase
            == Phase::ProcessClosed,
    ensures
        ({
            let a = advance(s, e1);
            let b = advance(a.0, e2);
            let c = advance(b.0, e3);
            let report = InjectAction::Finish { outcome: s.outcome->Some_0 };
            a.1 == report || b.1 == report || c.1 == report
        }),
{
}

} // verus!
