//! Process control: signals, scheduling priority and launching commands.
//!
//! Signals are delivered from here. What needs a raw system call (reading
//! and writing a priority, the thread snapshot of a Windows host, spawning a
//! command) is left to the caller: the functions here decide what is to be
//! asked of the operating system and what its answer means.

use vstd::prelude::*;
use crate::decimal::{append_signed_decimal, signed_decimal};
use crate::text::{blank, is_blank};

verus! {

/// Why an operation on the operating system failed.
#[derive(Debug, Clone, Copy, PartialEq, Eq, Structural)]
pub enum MonitorError {
    /// The caller may not act on the process.
    PermissionDenied,
    /// No process has the identifier.
    NoSuchProcess,
    /// The host has no such operation.
    UnsupportedOnPlatform,
    /// The operating system refused for another reason; its own code is kept.
    OsCallFailed(i32),
    /// The processes or threads of the host could not be listed.
    EnumerationFailed,
}

/// What the operator is told of a failure.
pub open spec fn description(error: MonitorError) -> Seq<char> {
    match error {
        MonitorError::PermissionDenied => "permission denied"@,
        MonitorError::NoSuchProcess => "no such process"@,
        MonitorError::UnsupportedOnPlatform => "not supported on this platform"@,
        MonitorError::OsCallFailed(code) => "system error "@ + signed_decimal(code as int),
        MonitorError::EnumerationFailed => "the processes could not be listed"@,
    }
}

impl MonitorError {
    /// The failure in words, for the operator.
    pub fn describe(&self) -> (text: String)
        ensures
            text@ == description(*self),
    {
        match *self {
            MonitorError::PermissionDenied => String::from_str("permission denied"),
            MonitorError::NoSuchProcess => String::from_str("no such process"),
            MonitorError::UnsupportedOnPlatform => String::from_str(
                "not supported on this platform",
            ),
            MonitorError::OsCallFailed(code) => {
                let mut text = String::from_str("system error ");
                append_signed_decimal(&mut text, code);
                text
            },
            MonitorError::EnumerationFailed => String::from_str(
                "the processes could not be listed",
            ),
        }
    }
}

/// `errno` of an operation that is not permitted.
pub const EPERM: i32 = 1;

/// `errno` where no process has the identifier.
pub const ESRCH: i32 = 3;

/// `errno` where permission is denied.
pub const EACCES: i32 = 13;

/// Windows error code where access is denied.
pub const ERROR_ACCESS_DENIED: i32 = 5;

/// Windows error code of a parameter that names nothing, such as the
/// identifier of a process that does not exist.
pub const ERROR_INVALID_PARAMETER: i32 = 87;

/// Windows error code of a request that the host does not support.
pub const ERROR_NOT_SUPPORTED: i32 = 50;

/// Windows error code of a function that the host does not implement.
pub const ERROR_CALL_NOT_IMPLEMENTED: i32 = 120;

/// Highest scheduling priority of a POSIX host: the most negative niceness.
pub const NICE_MIN: i32 = -20;

/// Lowest scheduling priority of a POSIX host: the most positive niceness.
pub const NICE_MAX: i32 = 19;

/// The kind of host whose conventions an operation follows.
#[derive(Debug, Clone, Copy, PartialEq, Eq, Structural)]
pub enum Host {
    Posix,
    Windows,
}

/// What a signal asks of a process.
#[derive(Debug, Clone, Copy, PartialEq, Eq, Structural)]
pub enum ControlSignal {
    /// End at once; cannot be caught.
    Kill,
    /// Stop running until continued; cannot be caught.
    Stop,
    /// Continue after a stop.
    Continue,
}

/// The failure that a POSIX `errno` stands for.
pub open spec fn error_of_errno(code: i32) -> MonitorError {
    if code == EPERM || code == EACCES {
        MonitorError::PermissionDenied
    } else if code == ESRCH {
        MonitorError::NoSuchProcess
    } else {
        MonitorError::OsCallFailed(code)
    }
}

/// The failure that a Windows error code stands for.
pub open spec fn error_of_win32(code: i32) -> MonitorError {
    if code == ERROR_ACCESS_DENIED {
        MonitorError::PermissionDenied
    } else if code == ERROR_INVALID_PARAMETER {
        MonitorError::NoSuchProcess
    } else if code == ERROR_NOT_SUPPORTED || code == ERROR_CALL_NOT_IMPLEMENTED {
        MonitorError::UnsupportedOnPlatform
    } else {
        MonitorError::OsCallFailed(code)
    }
}

/// The failure that an error code of the given host stands for.
pub open spec fn error_of_code(host: Host, code: i32) -> MonitorError {
    match host {
        Host::Posix => error_of_errno(code),
        Host::Windows => error_of_win32(code),
    }
}

/// Tells what an error code of the host's operating system means.
pub fn error_from_code(host: Host, code: i32) -> (error: MonitorError)
    ensures
        error == error_of_code(host, code),
{
    match host {
        Host::Posix => {
            if code == EPERM || code == EACCES {
                MonitorError::PermissionDenied
            } else if code == ESRCH {
                MonitorError::NoSuchProcess
            } else {
                MonitorError::OsCallFailed(code)
            }
        },
        Host::Windows => {
            if code == ERROR_ACCESS_DENIED {
                MonitorError::PermissionDenied
            } else if code == ERROR_INVALID_PARAMETER {
                MonitorError::NoSuchProcess
            } else if code == ERROR_NOT_SUPPORTED || code == ERROR_CALL_NOT_IMPLEMENTED {
                MonitorError::UnsupportedOnPlatform
            } else {
                MonitorError::OsCallFailed(code)
            }
        },
    }
}

/// What the answer of a system call comes to: success, or the failure that
/// its error code stands for on the host.
pub open spec fn outcome_of(host: Host, raw: Result<(), i32>) -> Result<(), MonitorError> {
    match raw {
        Ok(_) => Ok(()),
        Err(code) => Err(error_of_code(host, code)),
    }
}

/// Turns the answer of a system call into the result of the operation.
pub fn control_outcome(host: Host, raw: Result<(), i32>) -> (outcome: Result<(), MonitorError>)
    ensures
        outcome == outcome_of(host, raw),
{
    match raw {
        Ok(_) => Ok(()),
        Err(code) => Err(error_from_code(host, code)),
    }
}

/// Sends `signal` to the one process `pid` through `nix::sys::signal::kill`,
/// and gives back the `errno` it failed with, if it did.
///
/// Only a positive `pid` is let through: zero and negative ones stand for
/// groups of processes. Nothing is claimed of the result, which lies with
/// the operating system.
#[verifier::external_body]
fn send_signal(pid: i32, signal: ControlSignal) -> (raw: Result<(), i32>)
    requires
        pid > 0,
{
    let signal = match signal {
        ControlSignal::Kill => nix::sys::signal::Signal::SIGKILL,
        ControlSignal::Stop => nix::sys::signal::Signal::SIGSTOP,
        ControlSignal::Continue => nix::sys::signal::Signal::SIGCONT,
    };
    match nix::sys::signal::kill(nix::unistd::Pid::from_raw(pid), signal) {
        Ok(_) => Ok(()),
        Err(errno) => Err(errno as i32),
    }
}

/// Tells whether `pid` can name a single process: it is positive. Zero and
/// negative numbers stand for groups of processes where they mean anything.
pub fn names_a_process(pid: i32) -> (yes: bool)
    ensures
        yes == (pid > 0),
{
    pid > 0
}

/// Whether `outcome` can come out of delivering a signal to `pid`: for an
/// identifier that is not positive only `NoSuchProcess`; else success or the
/// failure that some `errno` stands for.
pub open spec fn signal_result(pid: i32, outcome: Result<(), MonitorError>) -> bool {
    if pid <= 0 {
        outcome == Err::<(), MonitorError>(MonitorError::NoSuchProcess)
    } else {
        outcome is Ok || exists|code: i32| outcome == Err::<(), MonitorError>(error_of_errno(code))
    }
}

/// Delivers `signal` to the process `pid` of a POSIX host.
///
/// An identifier that is not positive names no process, and nothing is sent
/// for it. For a positive one the operating system decides; `control_outcome`
/// says what each of its answers comes to.
pub fn deliver(pid: i32, signal: ControlSignal) -> (outcome: Result<(), MonitorError>)
    ensures
        signal_result(pid, outcome),
{
    if !names_a_process(pid) {
        Err(MonitorError::NoSuchProcess)
    } else {
        control_outcome(Host::Posix, send_signal(pid, signal))
    }
}

/// What the operator can ask of a running process.
#[derive(Debug, Clone, Copy, PartialEq, Eq, Structural)]
pub enum ControlOp {
    /// End it at once.
    Terminate,
    /// Stop it until it is resumed.
    Suspend,
    /// Let it run again after a stop.
    Resume,
}

/// One signal for one process: what is handed to the operating system.
#[derive(Debug, Clone, Copy, PartialEq, Eq, Structural)]
pub struct SignalRequest {
    pub target: i32,
    pub signal: ControlSignal,
}

/// The signal that carries out an operation on a POSIX host.
pub open spec fn signal_of(op: ControlOp) -> ControlSignal {
    match op {
        ControlOp::Terminate => ControlSignal::Kill,
        ControlOp::Suspend => ControlSignal::Stop,
        ControlOp::Resume => ControlSignal::Continue,
    }
}

/// What an operation on `pid` asks of the operating system: one signal, that
/// of the operation, for the process `pid` and no other. An identifier that
/// is not positive names no process, and nothing is asked for it.
pub open spec fn request_of(op: ControlOp, pid: i32) -> Result<SignalRequest, MonitorError> {
    if pid <= 0 {
        Err(MonitorError::NoSuchProcess)
    } else {
        Ok(SignalRequest { target: pid, signal: signal_of(op) })
    }
}

/// Decides what an operation on `pid` asks of the operating system.
pub fn signal_request(op: ControlOp, pid: i32) -> (request: Result<SignalRequest, MonitorError>)
    ensures
        request == request_of(op, pid),
{
    if !names_a_process(pid) {
        Err(MonitorError::NoSuchProcess)
    } else {
        let signal = match op {
            ControlOp::Terminate => ControlSignal::Kill,
            ControlOp::Suspend => ControlSignal::Stop,
            ControlOp::Resume => ControlSignal::Continue,
        };
        Ok(SignalRequest { target: pid, signal })
    }
}

/// Carries out an operation on the process `pid` of a POSIX host: the
/// request that `signal_request` makes of it is handed to the operating
/// system as it stands, and `control_outcome` says what the answer comes to.
/// Where there is nothing to ask, the failure is returned and nothing is sent.
pub fn control(op: ControlOp, pid: i32) -> (outcome: Result<(), MonitorError>)
    ensures
        signal_result(pid, outcome),
        request_of(op, pid) matches Err(failure) ==> outcome == Err::<(), MonitorError>(failure),
{
    match signal_request(op, pid) {
        Ok(request) => control_outcome(Host::Posix, send_signal(request.target, request.signal)),
        Err(failure) => Err(failure),
    }
}

/// Ends the process `pid` at once: `control` with `ControlOp::Terminate`.
pub fn kill(pid: i32) -> (outcome: Result<(), MonitorError>)
    ensures
        signal_result(pid, outcome),
        request_of(ControlOp::Terminate, pid) matches Err(failure) ==> outcome == Err::<
            (),
            MonitorError,
        >(failure),
{
    control(ControlOp::Terminate, pid)
}

/// Stops the process `pid` until it is resumed: `control` with `ControlOp::Suspend`.
pub fn suspend(pid: i32) -> (outcome: Result<(), MonitorError>)
    ensures
        signal_result(pid, outcome),
        request_of(ControlOp::Suspend, pid) matches Err(failure) ==> outcome == Err::<
            (),
            MonitorError,
        >(failure),
{
    control(ControlOp::Suspend, pid)
}

/// Lets the stopped process `pid` run again: `control` with `ControlOp::Resume`.
pub fn resume(pid: i32) -> (outcome: Result<(), MonitorError>)
    ensures
        signal_result(pid, outcome),
        request_of(ControlOp::Resume, pid) matches Err(failure) ==> outcome == Err::<
            (),
            MonitorError,
        >(failure),
{
    control(ControlOp::Resume, pid)
}

/// A failure of the operating system never comes out as success, on any
/// host and whatever its code. The code by which a host says that no process
/// has the identifier comes out as `NoSuchProcess`, and so does every
/// operation on an identifier that is not positive, for which nothing is
/// asked of the operating system at all.
pub proof fn lemma_missing_process_never_succeeds(host: Host, code: i32, op: ControlOp, pid: i32)
    ensures
        outcome_of(host, Err(code)) is Err,
        outcome_of(Host::Posix, Err(ESRCH)) == Err::<(), MonitorError>(
            MonitorError::NoSuchProcess,
        ),
        outcome_of(Host::Windows, Err(ERROR_INVALID_PARAMETER)) == Err::<(), MonitorError>(
            MonitorError::NoSuchProcess,
        ),
        pid <= 0 ==> request_of(op, pid) == Err::<SignalRequest, MonitorError>(
            MonitorError::NoSuchProcess,
        ),
{
}

/// What a pass over the threads of a process comes to on a host that stops
/// and resumes a process thread by thread. A process without any thread in
/// the snapshot does not exist. Where threads were found and not one of them
/// could be acted on, the pass failed, with the last error of the operating
/// system. Where at least one was acted on, the pass succeeded; a thread made
/// after the snapshot is not covered.
pub open spec fn thread_pass_result(found: nat, acted: nat, code: i32) -> Result<(), MonitorError> {
    if found == 0 {
        Err(MonitorError::NoSuchProcess)
    } else if acted == 0 {
        Err(error_of_win32(code))
    } else {
        Ok(())
    }
}

/// Tells what a pass over the threads of a process came to: `found` threads
/// of it stood in the snapshot, `acted` of them were suspended or resumed,
/// and `code` is the last error of the operating system.
pub fn thread_pass_outcome(found: usize, acted: usize, code: i32) -> (outcome: Result<
    (),
    MonitorError,
>)
    ensures
        outcome == thread_pass_result(found as nat, acted as nat, code),
{
    if found == 0 {
        Err(MonitorError::NoSuchProcess)
    } else if acted == 0 {
        Err(error_from_code(Host::Windows, code))
    } else {
        Ok(())
    }
}

/// `n` brought into the range of niceness values.
pub open spec fn clamp_nice(n: int) -> int {
    if n < NICE_MIN {
        NICE_MIN as int
    } else if n > NICE_MAX {
        NICE_MAX as int
    } else {
        n
    }
}

/// The niceness to write for a process that is to run with higher priority:
/// one step below `current`, within the legal range.
pub fn boosted_nice(current: i32) -> (nice: i32)
    ensures
        nice == clamp_nice(current - 1),
{
    if current <= NICE_MIN {
        NICE_MIN
    } else if current > NICE_MAX {
        NICE_MAX
    } else {
        current - 1
    }
}

/// The niceness to write for a process that is to run with lower priority:
/// one step above `current`, within the legal range.
pub fn lowered_nice(current: i32) -> (nice: i32)
    ensures
        nice == clamp_nice(current + 1),
{
    if current >= NICE_MAX {
        NICE_MAX
    } else if current < NICE_MIN {
        NICE_MIN
    } else {
        current + 1
    }
}

/// One thread of a snapshot of all threads of a Windows host.
#[derive(Debug, Clone, Copy, PartialEq, Eq, Structural)]
pub struct ThreadEntry {
    pub owner_pid: u32,
    pub thread_id: u32,
}

/// The identifiers of the threads of `entries` that belong to process `pid`, in order.
pub open spec fn threads_owned(entries: Seq<ThreadEntry>, pid: i32) -> Seq<u32>
    decreases entries.len(),
{
    if entries.len() == 0 {
        Seq::empty()
    } else {
        let before = threads_owned(entries.drop_last(), pid);
        if entries.last().owner_pid == pid {
            before.push(entries.last().thread_id)
        } else {
            before
        }
    }
}

/// Picks from a snapshot of all threads those of process `pid`: the threads
/// to suspend or resume one by one where the host cannot stop a process as a
/// whole. A thread made after the snapshot was taken is not among them.
pub fn threads_in_process(entries: &[ThreadEntry], pid: i32) -> (threads: Vec<u32>)
    ensures
        threads@ == threads_owned(entries@, pid),
{
    let mut threads: Vec<u32> = Vec::new();
    let mut i: usize = 0;
    while i < entries.len()
        invariant
            i <= entries.len(),
            threads@ == threads_owned(entries@.take(i as int), pid),
        decreases entries.len() - i,
    {
        assert(entries@.take(i + 1).drop_last() =~= entries@.take(i as int));
        if entries[i].owner_pid as i64 == pid as i64 {
            threads.push(entries[i].thread_id);
        }
        i = i + 1;
    }
    assert(entries@.take(i as int) =~= entries@);
    threads
}

/// A command to spawn: the program and its arguments.
#[derive(Debug, Clone)]
pub struct Launch {
    pub program: String,
    pub args: Vec<String>,
}

/// A command to spawn, with its strings as character sequences.
pub struct LaunchView {
    pub program: Seq<char>,
    pub args: Seq<Seq<char>>,
}

impl View for Launch {
    type V = LaunchView;

    open spec fn view(&self) -> LaunchView {
        LaunchView { program: self.program@, args: self.args.deep_view() }
    }
}

impl DeepView for Launch {
    type V = LaunchView;

    open spec fn deep_view(&self) -> LaunchView {
        self@
    }
}

/// What is spawned for a command line: nothing where it is blank, else the
/// host's command interpreter with the line as the command to run.
pub open spec fn launch_for(host: Host, cmd: Seq<char>) -> Option<LaunchView> {
    if is_blank(cmd) {
        None
    } else {
        Some(
            match host {
                Host::Posix => LaunchView { program: "sh"@, args: seq!["-c"@, cmd] },
                Host::Windows => LaunchView { program: "cmd"@, args: seq!["/C"@, cmd] },
            },
        )
    }
}

/// Decides what to spawn for the command line `cmd`. A blank line launches
/// nothing, which counts as success. The caller spawns the command without
/// waiting for it or capturing its output.
pub fn launch_plan(host: Host, cmd: &str) -> (plan: Option<Launch>)
    ensures
        plan.deep_view() == launch_for(host, cmd@),
{
    if blank(cmd) {
        None
    } else {
        let (program, flag) = match host {
            Host::Posix => (String::from_str("sh"), String::from_str("-c")),
            Host::Windows => (String::from_str("cmd"), String::from_str("/C")),
        };
        let mut args: Vec<String> = Vec::new();
        args.push(flag);
        args.push(String::from_str(cmd));
        let launch = Launch { program, args };
        assert(launch.args.deep_view() =~= seq![flag@, cmd@]);
        Some(launch)
    }
}

} // verus!
