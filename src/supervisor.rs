//! Supervision of the backend process: port choice, command line, readiness
//! detection, captured diagnostics and the start outcome.
//!
//! The caller spawns the child, binds its lifetime to the launcher, feeds each
//! standard-output line to a `ReadinessLatch` and each error-stream line to a
//! `DiagnosticBuffer`, waits for the signal with a timeout, and reports what
//! `start_outcome` returns.
use vstd::prelude::*;
use crate::error::LauncherError;
use crate::numeric::{decimal_of, digits_value, parse_port, parses_as_port, port_digits, push_decimal};
use crate::text::{chars_of, contains_chars, contains_seq, eq_ignore_case, eq_ignore_case_str, join_lines, push_char};

verus! {

/// Substring of a standard-output line that announces the backend is ready.
pub const READY_MARKER: &'static str = "Now listening on";

/// Value of the port setting that asks for an automatically chosen port.
pub const AUTO_PORT: &'static str = "auto";

/// Seconds to wait for the readiness signal.
pub const START_TIMEOUT_SECS: u64 = 15;

/// Address the backend listens on, before the port number.
pub const LOCAL_URL_PREFIX: &'static str = "http://127.0.0.1:";

/// How the backend's port is chosen.
#[derive(Clone, Copy, Debug, PartialEq, Eq, Structural)]
pub enum PortPolicy {
    /// Any free port the system offers.
    Auto,
    /// Exactly this port, which must be free.
    Fixed(u16),
}

/// The port policy that a configured value asks for.
pub fn port_policy_from_config(value: &str) -> (r: Result<PortPolicy, LauncherError>)
    ensures
        eq_ignore_case(value@, AUTO_PORT@) ==> r == Ok::<PortPolicy, LauncherError>(PortPolicy::Auto),
        !eq_ignore_case(value@, AUTO_PORT@) && parses_as_port(value@) ==> r == Ok::<
            PortPolicy,
            LauncherError,
        >(PortPolicy::Fixed(digits_value(port_digits(value@)) as u16)),
        !eq_ignore_case(value@, AUTO_PORT@) && !parses_as_port(value@) ==> (r matches Err(
            LauncherError::InvalidPort { value: v },
        ) && v@ == value@),
{
    if eq_ignore_case_str(value, AUTO_PORT) {
        return Ok(PortPolicy::Auto);
    }
    match parse_port(value) {
        Some(p) => Ok(PortPolicy::Fixed(p)),
        None => Err(LauncherError::InvalidPort { value: String::from_str(value) }),
    }
}

/// Relies on `portpicker::is_free`: whether the port can be bound right now,
/// which depends on the machine; nothing is promised of the answer.
#[verifier::external_body]
fn port_is_free(port: u16) -> (r: bool) {
    portpicker::is_free(port)
}

/// Relies on `portpicker::pick_unused_port`: a port found free, or `None`
/// when every attempt failed; which port depends on chance and the machine.
#[verifier::external_body]
fn pick_unused_port() -> (r: Option<u16>) {
    portpicker::pick_unused_port()
}

/// The port to use, given whether the fixed port was found free and what an
/// automatic pick returned.  A fixed port that is taken is an error; there is
/// no fallback to another port.
pub fn choose_port(policy: PortPolicy, fixed_is_free: bool, picked: Option<u16>) -> (r: Result<
    u16,
    LauncherError,
>)
    ensures
        policy matches PortPolicy::Fixed(p) ==> (if fixed_is_free {
            r == Ok::<u16, LauncherError>(p)
        } else {
            r == Err::<u16, LauncherError>(LauncherError::PortInUse { port: p })
        }),
        policy is Auto ==> (match picked {
            Some(p) => r == Ok::<u16, LauncherError>(p),
            None => r == Err::<u16, LauncherError>(LauncherError::NoFreePort),
        }),
{
    match policy {
        PortPolicy::Fixed(p) => if fixed_is_free {
            Ok(p)
        } else {
            Err(LauncherError::PortInUse { port: p })
        },
        PortPolicy::Auto => match picked {
            Some(p) => Ok(p),
            None => Err(LauncherError::NoFreePort),
        },
    }
}

/// Resolves the port: a fixed port is checked for being free, an automatic
/// one is picked.
pub fn resolve_port(policy: PortPolicy) -> (r: Result<u16, LauncherError>)
    ensures
        policy matches PortPolicy::Fixed(p) ==> (r == Ok::<u16, LauncherError>(p) || r == Err::<
            u16,
            LauncherError,
        >(LauncherError::PortInUse { port: p })),
        policy is Auto ==> (r is Ok || r == Err::<u16, LauncherError>(LauncherError::NoFreePort)),
{
    match policy {
        PortPolicy::Fixed(p) => {
            let free = port_is_free(p);
            choose_port(policy, free, None)
        },
        PortPolicy::Auto => {
            let picked = pick_unused_port();
            choose_port(policy, false, picked)
        },
    }
}

/// The URL the backend is told to listen on.
pub fn api_url(port: u16) -> (r: String)
    ensures
        r@ == LOCAL_URL_PREFIX@ + decimal_of(port as nat),
{
    let mut s = String::from_str(LOCAL_URL_PREFIX);
    push_decimal(&mut s, port);
    s
}

/// The backend's command line: its listen address and the location of the
/// frontend assets.
pub fn backend_args(api_url: &str, frontend_relative_path: &str) -> (r: Vec<String>)
    ensures
        r@.len() == 4,
        r@[0]@ == "--urls"@,
        r@[1]@ == api_url@,
        r@[2]@ == "--FrontendRelativePath"@,
        r@[3]@ == frontend_relative_path@,
{
    let mut v: Vec<String> = Vec::new();
    v.push(String::from_str("--urls"));
    v.push(String::from_str(api_url));
    v.push(String::from_str("--FrontendRelativePath"));
    v.push(String::from_str(frontend_relative_path));
    v
}

/// A one-shot readiness signal: fires on the first standard-output line
/// that holds the ready marker, never again.
pub struct ReadinessLatch {
    fired: bool,
}

impl ReadinessLatch {
    pub closed spec fn has_fired(&self) -> bool {
        self.fired
    }

    pub fn new() -> (r: ReadinessLatch)
        ensures
            !r.has_fired(),
    {
        ReadinessLatch { fired: false }
    }

    /// Looks at one line; `true` when this line is the one that signals.
    pub fn observe(&mut self, line: &str) -> (signal: bool)
        ensures
            signal == (!old(self).has_fired() && contains_seq(line@, READY_MARKER@)),
            final(self).has_fired() == (old(self).has_fired() || contains_seq(line@, READY_MARKER@)),
    {
        let l = chars_of(line);
        let m = chars_of(READY_MARKER);
        let hit = contains_chars(&l, &m);
        let signal = hit && !self.fired;
        if hit {
            self.fired = true;
        }
        signal
    }
}

/// The lines the backend wrote to its error stream, in arrival order.
pub struct DiagnosticBuffer {
    lines: Vec<String>,
}

impl DiagnosticBuffer {
    pub closed spec fn lines(&self) -> Seq<Seq<char>> {
        self.lines@.map_values(|s: String| s@)
    }

    pub fn new() -> (r: DiagnosticBuffer)
        ensures
            r.lines() == Seq::<Seq<char>>::empty(),
    {
        DiagnosticBuffer { lines: Vec::new() }
    }

    /// Records one error-stream line.
    pub fn push(&mut self, line: String)
        ensures
            final(self).lines() == old(self).lines().push(line@),
    {
        self.lines.push(line);
        assert(self.lines@.map_values(|s: String| s@) =~= old(self).lines().push(line@));
    }

    pub fn is_empty(&self) -> (r: bool)
        ensures
            r == (self.lines().len() == 0),
    {
        self.lines.len() == 0
    }

    /// Every recorded line, joined by newlines.
    pub fn joined(&self) -> (r: String)
        ensures
            r@ == join_lines(self.lines()),
    {
        let mut out = String::new();
        let mut i: usize = 0;
        while i < self.lines.len()
            invariant
                i <= self.lines@.len(),
                out@ == join_lines(self.lines().take(i as int)),
            decreases self.lines@.len() - i,
        {
            let ghost before = self.lines().take(i as int);
            if i > 0 {
                push_char(&mut out, '\n');
            }
            out.append(self.lines[i].as_str());
            proof {
                let now = self.lines().take(i + 1);
                assert(now.drop_last() =~= before);
                assert(now.last() == self.lines[i as int]@);
                if i == 0 {
                    assert(join_lines(before) == Seq::<char>::empty());
                    assert(out@ =~= join_lines(now));
                } else {
                    assert(out@ =~= join_lines(now));
                }
            }
            i = i + 1;
        }
        assert(self.lines().take(self.lines@.len() as int) =~= self.lines());
        out
    }
}

/// How the wait for the readiness signal ended.
#[derive(Clone, Copy, Debug, PartialEq, Eq, Structural)]
pub enum WaitResult {
    /// The signal came.
    Ready,
    /// The output closed before any signal: the process exited.
    Exited,
    /// The timeout elapsed first.
    TimedOut,
}

/// The outcome of starting the backend, given how the wait ended and what
/// the error stream held by then.
pub fn start_outcome(wait: WaitResult, timeout_secs: u64, diagnostics: &DiagnosticBuffer) -> (r:
    Result<(), LauncherError>)
    ensures
        wait is Ready ==> r is Ok,
        wait is Exited ==> (r matches Err(LauncherError::ProcessCrash { diagnostics: d }) && d@
            == join_lines(diagnostics.lines())),
        wait is TimedOut ==> (r matches Err(LauncherError::ProcessTimeout { seconds, diagnostics: d })
            && seconds == timeout_secs && d@ == join_lines(diagnostics.lines())),
{
    match wait {
        WaitResult::Ready => Ok(()),
        WaitResult::Exited => Err(LauncherError::ProcessCrash { diagnostics: diagnostics.joined() }),
        WaitResult::TimedOut => Err(
            LauncherError::ProcessTimeout { seconds: timeout_secs, diagnostics: diagnostics.joined() },
        ),
    }
}

/// Phases of the backend's start.
#[derive(Clone, Copy, Debug, PartialEq, Eq, Structural)]
pub enum SupervisorPhase {
    NotStarted,
    Launching,
    AwaitingReady,
    Ready,
    Failed,
}

/// What happens to the start of the backend.
#[derive(Clone, Copy, Debug, PartialEq, Eq, Structural)]
pub enum SupervisorEvent {
    PortResolved,
    PortRefused,
    Spawned,
    SpawnFailed,
    Signalled,
    Exited,
    TimedOut,
}

/// The start's transitions; `Ready` and `Failed` are terminal, and an event
/// that does not belong to a phase leaves it unchanged.
pub open spec fn next_phase(p: SupervisorPhase, e: SupervisorEvent) -> SupervisorPhase {
    match (p, e) {
        (SupervisorPhase::NotStarted, SupervisorEvent::PortResolved) => SupervisorPhase::Launching,
        (SupervisorPhase::NotStarted, SupervisorEvent::PortRefused) => SupervisorPhase::Failed,
        (SupervisorPhase::Launching, SupervisorEvent::Spawned) => SupervisorPhase::AwaitingReady,
        (SupervisorPhase::Launching, SupervisorEvent::SpawnFailed) => SupervisorPhase::Failed,
        (SupervisorPhase::AwaitingReady, SupervisorEvent::Signalled) => SupervisorPhase::Ready,
        (SupervisorPhase::AwaitingReady, SupervisorEvent::Exited) => SupervisorPhase::Failed,
        (SupervisorPhase::AwaitingReady, SupervisorEvent::TimedOut) => SupervisorPhase::Failed,
        _ => p,
    }
}

/// Takes the start one step further.
pub fn advance(phase: SupervisorPhase, event: SupervisorEvent) -> (r: SupervisorPhase)
    ensures
        r == next_phase(phase, event),
{
    match (phase, event) {
        (SupervisorPhase::NotStarted, SupervisorEvent::PortResolved) => SupervisorPhase::Launching,
        (SupervisorPhase::NotStarted, SupervisorEvent::PortRefused) => SupervisorPhase::Failed,
        (SupervisorPhase::Launching, SupervisorEvent::Spawned) => SupervisorPhase::AwaitingReady,
        (SupervisorPhase::Launching, SupervisorEvent::SpawnFailed) => SupervisorPhase::Failed,
        (SupervisorPhase::AwaitingReady, SupervisorEvent::Signalled) => SupervisorPhase::Ready,
        (SupervisorPhase::AwaitingReady, SupervisorEvent::Exited) => SupervisorPhase::Failed,
        (SupervisorPhase::AwaitingReady, SupervisorEvent::TimedOut) => SupervisorPhase::Failed,
        _ => phase,
    }
}

/// The event that ends the wait for readiness.
pub fn wait_event(wait: WaitResult) -> (r: SupervisorEvent)
    ensures
        wait is Ready ==> r == SupervisorEvent::Signalled,
        wait is Exited ==> r == SupervisorEvent::Exited,
        wait is TimedOut ==> r == SupervisorEvent::TimedOut,
{
    match wait {
        WaitResult::Ready => SupervisorEvent::Signalled,
        WaitResult::Exited => SupervisorEvent::Exited,
        WaitResult::TimedOut => SupervisorEvent::TimedOut,
    }
}

/// Once the backend is ready or has failed, no later event changes that.
pub proof fn terminal_phases_stay(p: SupervisorPhase, e: SupervisorEvent)
    requires
        p is Ready || p is Failed,
    ensures
        next_phase(p, e) == p,
{
}

} // verus!
