//! One capture from start to end, as a sequence of calls on the outside
//! world.
//!
//! A `Run` says which call to make next (`command`) and learns how it went
//! (`advance`); whoever drives it makes the calls. It starts the driver, looks
//! for its port, makes a profile directory, opens a session, makes the calls of
//! the capture plan, and then tears down whatever was set up: the session is
//! closed, the driver stopped and the directory removed, each at most once and
//! whatever failed before. The first error is the one that counts; errors met
//! while tearing down are kept after it.

use vstd::prelude::*;

use crate::client::browser_args;
use crate::client::capture_plan;
use crate::client::copy_text;
use crate::client::captures;
use crate::client::opt_view;
use crate::client::spec_browser_args;
use crate::client::spec_capture_plan;
use crate::client::views;
use crate::client::Builder;
use crate::client::CaptureStep;
use crate::client::ScreenshotOpts;
use crate::discovery::decide;
use crate::discovery::elapsed_since;
use crate::discovery::spec_attempt;
use crate::discovery::DiscoveryStep;
use crate::discovery::PortDiscovery;
use crate::discovery::DEFAULT_TIMEOUT_MS;
use crate::socket::socket_inodes_of;
use crate::socket::FdEntry;
use crate::tcp::table_entries;

verus! {

/// Why a call failed.
#[derive(Clone, Debug, PartialEq, Eq)]
pub enum Cause {
    /// What the caller reported.
    Reported(String),
    /// The reply did not fit the call.
    UnexpectedReply,
}

/// What went wrong in a run.
#[derive(Clone, Debug, PartialEq, Eq)]
pub enum RunError {
    /// The driver could not be started.
    Launch(Cause),
    /// The driver `pid` did not bind a loopback port in time.
    DiscoveryTimeout { pid: u32 },
    /// The descriptors or the connection table of the driver `pid` could not
    /// be read.
    Probe { pid: u32, cause: Cause },
    /// The profile directory could not be created.
    ProfileDir(Cause),
    /// No session could be opened with the driver on `port`.
    Connect { port: u16, cause: Cause },
    /// A call of the capture failed; the step names its URL or selector.
    Step { step: CaptureStep, cause: Cause },
    /// The session could not be closed.
    CloseSession(Cause),
    /// The driver `pid` could not be stopped.
    KillDriver { pid: u32, cause: Cause },
    /// The profile directory could not be removed.
    RemoveProfileDir(Cause),
    /// The run was called off before the capture was made.
    Cancelled,
}

/// How a call went.
#[derive(Debug)]
pub enum Reply {
    /// The call succeeded, with nothing to hand back.
    Done,
    /// The driver was started as process `pid`.
    Launched { pid: u32 },
    /// A look at the driver at time `now_ms`: its open descriptors, and the
    /// text of its connection table.
    Probed { now_ms: u64, fds: Vec<FdEntry>, table: Vec<u8> },
    /// The profile directory was created at `path`.
    ProfileCreated { path: String },
    /// The capture's image.
    Image(Vec<u8>),
    /// The call failed, for the reason given.
    Failed(String),
}

/// Where a run stands.
#[derive(Clone, Copy, Debug, PartialEq, Eq, Structural)]
pub enum Stage {
    /// The driver is to be started.
    Launch,
    /// The driver's port is to be looked for, after `delay_ms`.
    Discover { delay_ms: u64 },
    /// The profile directory is to be created.
    Profile,
    /// The session is to be opened.
    Connect,
    /// The `i`-th call of the capture plan is to be made.
    Session(usize),
    /// What was set up is to be torn down.
    Teardown,
}

/// The call to make.
#[derive(Clone, Debug, PartialEq, Eq)]
pub enum Command {
    /// Start the driver, telling it to bind a port of the kernel's choosing.
    LaunchDriver,
    /// Wait `delay_ms`, then read the open descriptors and the connection
    /// table of the driver `pid`.
    Probe { pid: u32, delay_ms: u64 },
    /// Create a fresh profile directory for the browser.
    CreateProfileDir,
    /// Open a session with the driver on `port` of the loopback address,
    /// passing `Run::connect_args` to the browser.
    Connect { port: u16 },
    /// Make this call of the capture.
    Session(CaptureStep),
    /// Close the session.
    CloseSession,
    /// Stop the driver `pid`.
    KillDriver { pid: u32 },
    /// Remove the profile directory.
    RemoveProfileDir,
    /// Nothing is left to do.
    Done,
}

/// What a run knows.
pub struct RunState {
    /// The calls of the capture.
    pub plan: Seq<CaptureStep>,
    /// The user agent to give the browser.
    pub user_agent: Option<String>,
    /// Where the run stands.
    pub stage: Stage,
    /// The search for the driver's port.
    pub discovery: PortDiscovery,
    /// The driver, while it runs.
    pub pid: Option<u32>,
    /// The driver's port, once found.
    pub port: u16,
    /// The profile directory, while it exists.
    pub profile: Option<String>,
    /// Whether a session is open.
    pub connected: bool,
    /// The captured image.
    pub image: Option<Seq<u8>>,
    /// The errors met, first one first.
    pub errors: Seq<RunError>,
}

/// What a reply says went wrong.
pub open spec fn cause_of(reply: Reply) -> Cause {
    match reply {
        Reply::Failed(c) => Cause::Reported(c),
        _ => Cause::UnexpectedReply,
    }
}

/// `s` with the error `e` noted.
pub open spec fn noted(s: RunState, e: RunError) -> RunState {
    RunState { errors: s.errors.push(e), ..s }
}

/// `s` after the error `e`: it is noted, and the run goes to tear down.
pub open spec fn failed(s: RunState, e: RunError) -> RunState {
    RunState { stage: Stage::Teardown, ..noted(s, e) }
}

/// Whether `reply` tells that the call `step` succeeded.
pub open spec fn step_succeeded(step: CaptureStep, reply: Reply) -> bool {
    if captures(step) {
        reply is Image
    } else {
        reply is Done
    }
}

/// Where a run goes after the `i`-th call of its plan succeeded.
pub open spec fn stage_after_step(s: RunState, i: int) -> Stage {
    if i + 1 < s.plan.len() {
        Stage::Session((i + 1) as usize)
    } else {
        Stage::Teardown
    }
}

/// The call that a run in state `s` asks for.
pub open spec fn command_of(s: RunState) -> Command {
    match s.stage {
        Stage::Launch => Command::LaunchDriver,
        Stage::Discover { delay_ms } => Command::Probe { pid: s.discovery.pid, delay_ms },
        Stage::Profile => Command::CreateProfileDir,
        Stage::Connect => Command::Connect { port: s.port },
        Stage::Session(i) => if i < s.plan.len() {
            Command::Session(s.plan[i as int])
        } else {
            Command::Done
        },
        Stage::Teardown => if s.connected {
            Command::CloseSession
        } else if s.pid is Some {
            Command::KillDriver { pid: s.pid->Some_0 }
        } else if s.profile is Some {
            Command::RemoveProfileDir
        } else {
            Command::Done
        },
    }
}

/// The state of a run in state `s` once `reply` has told how the call it
/// asked for went.
pub open spec fn next_state(s: RunState, reply: Reply) -> RunState {
    match s.stage {
        Stage::Launch => match reply {
            Reply::Launched { pid } => RunState {
                pid: Some(pid),
                discovery: PortDiscovery { pid, timeout_ms: s.discovery.timeout_ms, started_ms: None },
                stage: Stage::Discover { delay_ms: 0 },
                ..s
            },
            _ => failed(s, RunError::Launch(cause_of(reply))),
        },
        Stage::Discover { .. } => match reply {
            Reply::Probed { now_ms, fds, table } => {
                let start = s.discovery.start_for(now_ms);
                let t = RunState {
                    discovery: PortDiscovery { started_ms: Some(start), ..s.discovery },
                    ..s
                };
                match decide(
                    s.discovery.pid,
                    s.discovery.timeout_ms,
                    elapsed_since(start, now_ms),
                    spec_attempt(socket_inodes_of(fds@), table_entries(table@)),
                ) {
                    DiscoveryStep::Found(port) => RunState { port, stage: Stage::Profile, ..t },
                    DiscoveryStep::Retry { delay_ms, .. } => RunState {
                        stage: Stage::Discover { delay_ms },
                        ..t
                    },
                    DiscoveryStep::TimedOut { pid } => failed(t, RunError::DiscoveryTimeout { pid }),
                }
            },
            _ => failed(s, RunError::Probe { pid: s.discovery.pid, cause: cause_of(reply) }),
        },
        Stage::Profile => match reply {
            Reply::ProfileCreated { path } => RunState {
                profile: Some(path),
                stage: Stage::Connect,
                ..s
            },
            _ => failed(s, RunError::ProfileDir(cause_of(reply))),
        },
        Stage::Connect => match reply {
            Reply::Done => RunState { connected: true, stage: stage_after_step(s, -1), ..s },
            _ => failed(s, RunError::Connect { port: s.port, cause: cause_of(reply) }),
        },
        // A stage past the end of the plan has nothing left to call.
        Stage::Session(i) => if i >= s.plan.len() {
            RunState { stage: Stage::Teardown, ..s }
        } else if step_succeeded(s.plan[i as int], reply) {
            RunState {
                image: match reply {
                    Reply::Image(bytes) => Some(bytes@),
                    _ => s.image,
                },
                stage: stage_after_step(s, i as int),
                ..s
            }
        } else {
            failed(s, RunError::Step { step: s.plan[i as int], cause: cause_of(reply) })
        },
        Stage::Teardown => if s.connected {
            let t = RunState { connected: false, ..s };
            if reply is Done {
                t
            } else {
                noted(t, RunError::CloseSession(cause_of(reply)))
            }
        } else if s.pid is Some {
            let t = RunState { pid: None, ..s };
            if reply is Done {
                t
            } else {
                noted(t, RunError::KillDriver { pid: s.pid->Some_0, cause: cause_of(reply) })
            }
        } else if s.profile is Some {
            let t = RunState { profile: None, ..s };
            if reply is Done {
                t
            } else {
                noted(t, RunError::RemoveProfileDir(cause_of(reply)))
            }
        } else {
            s
        },
    }
}

/// Whether a run in state `s` is over: torn down, with nothing left set up.
pub open spec fn finished(s: RunState) -> bool {
    s.stage is Teardown && !s.connected && s.pid is None && s.profile is None
}

/// The state of a run that was called off in state `s`: unless it is tearing
/// down already, it drops what it captured, notes why, and tears down.
pub open spec fn cancelled(s: RunState) -> RunState {
    if s.stage is Teardown {
        s
    } else {
        RunState { image: None, ..failed(s, RunError::Cancelled) }
    }
}

/// What a run in state `s` comes to: the image when there was no error, and
/// otherwise the errors, the first one first.
pub open spec fn outcome(s: RunState) -> Result<Seq<u8>, Seq<RunError>> {
    if s.errors.len() == 0 && s.image is Some {
        Ok(s.image->Some_0)
    } else {
        Err(s.errors)
    }
}

/// One capture from start to end.
pub struct Run {
    plan: Vec<CaptureStep>,
    user_agent: Option<String>,
    stage: Stage,
    discovery: PortDiscovery,
    pid: Option<u32>,
    port: u16,
    profile: Option<String>,
    connected: bool,
    image: Option<Vec<u8>>,
    errors: Vec<RunError>,
}

impl View for Run {
    type V = RunState;

    closed spec fn view(&self) -> RunState {
        RunState {
            plan: self.plan@,
            user_agent: self.user_agent,
            stage: self.stage,
            discovery: self.discovery,
            pid: self.pid,
            port: self.port,
            profile: self.profile,
            connected: self.connected,
            image: match self.image {
                Some(v) => Some(v@),
                None => None,
            },
            errors: self.errors@,
        }
    }
}

/// The state of a run that is about to start: it will make the calls `plan`,
/// give the browser `user_agent`, and give the driver `timeout_ms` to bind its
/// port.
pub open spec fn initial(plan: Seq<CaptureStep>, user_agent: Option<String>, timeout_ms: u64) -> RunState {
    RunState {
        plan,
        user_agent,
        stage: Stage::Launch,
        discovery: PortDiscovery { pid: 0, timeout_ms, started_ms: None },
        pid: None,
        port: 0,
        profile: None,
        connected: false,
        image: None,
        errors: seq![],
    }
}

fn copy_step(s: &CaptureStep) -> (r: CaptureStep)
    ensures
        r == *s,
{
    match s {
        CaptureStep::SetWindowSize { width, height } => CaptureStep::SetWindowSize {
            width: *width,
            height: *height,
        },
        CaptureStep::Navigate { url } => CaptureStep::Navigate { url: url.clone() },
        CaptureStep::AwaitElement { selector } => CaptureStep::AwaitElement {
            selector: selector.clone(),
        },
        CaptureStep::RemoveElements { selector } => CaptureStep::RemoveElements {
            selector: selector.clone(),
        },
        CaptureStep::FindElement { selector } => CaptureStep::FindElement {
            selector: selector.clone(),
        },
        CaptureStep::CaptureElement { selector } => CaptureStep::CaptureElement {
            selector: selector.clone(),
        },
        CaptureStep::CapturePage { url } => CaptureStep::CapturePage { url: url.clone() },
    }
}

fn cause(reply: Reply) -> (c: Cause)
    ensures
        c == cause_of(reply),
{
    match reply {
        Reply::Failed(c) => Cause::Reported(c),
        _ => Cause::UnexpectedReply,
    }
}

fn is_capture(step: &CaptureStep) -> (r: bool)
    ensures
        r == captures(*step),
{
    match step {
        CaptureStep::CaptureElement { .. } => true,
        CaptureStep::CapturePage { .. } => true,
        _ => false,
    }
}

impl Builder {
    /// Plans the capture of `url` with `opts` under this configuration.
    pub fn screenshot(&self, url: String, opts: &ScreenshotOpts) -> (r: Run)
        ensures
            r@ == initial(spec_capture_plan(url, *opts), self.user_agent, DEFAULT_TIMEOUT_MS),
    {
        let plan = capture_plan(&url, opts);
        Run {
            plan,
            user_agent: copy_text(&self.user_agent),
            stage: Stage::Launch,
            discovery: PortDiscovery::new(0, DEFAULT_TIMEOUT_MS),
            pid: None,
            port: 0,
            profile: None,
            connected: false,
            image: None,
            errors: Vec::new(),
        }
    }
}

impl Run {
    /// The call to make next.
    pub fn command(&self) -> (r: Command)
        ensures
            r == command_of(self@),
    {
        match self.stage {
            Stage::Launch => Command::LaunchDriver,
            Stage::Discover { delay_ms } => Command::Probe { pid: self.discovery.pid, delay_ms },
            Stage::Profile => Command::CreateProfileDir,
            Stage::Connect => Command::Connect { port: self.port },
            Stage::Session(i) => if i < self.plan.len() {
                Command::Session(copy_step(&self.plan[i]))
            } else {
                Command::Done
            },
            Stage::Teardown => if self.connected {
                Command::CloseSession
            } else {
                match self.pid {
                    Some(pid) => Command::KillDriver { pid },
                    None => if self.profile.is_some() {
                        Command::RemoveProfileDir
                    } else {
                        Command::Done
                    },
                }
            },
        }
    }

    /// The browser's command line for the session: the usual flags, the
    /// profile directory, and the user agent when one is set.
    pub fn connect_args(&self) -> (r: Vec<String>)
        ensures
            self@.profile matches Some(p) ==> views(r@) == spec_browser_args(
                p@,
                opt_view(self@.user_agent),
            ),
    {
        match &self.profile {
            Some(p) => browser_args(p.as_str(), &self.user_agent),
            None => browser_args("", &self.user_agent),
        }
    }

    /// Whether the run is over.
    pub fn is_finished(&self) -> (r: bool)
        ensures
            r == finished(self@),
    {
        match self.stage {
            Stage::Teardown => !self.connected && self.pid.is_none() && self.profile.is_none(),
            _ => false,
        }
    }

    fn note(&mut self, e: RunError)
        ensures
            final(self)@ == noted(old(self)@, e),
    {
        self.errors.push(e);
    }

    fn fail(&mut self, e: RunError)
        ensures
            final(self)@ == failed(old(self)@, e),
    {
        self.errors.push(e);
        self.stage = Stage::Teardown;
    }

    /// Learns how the call asked for went.
    pub fn advance(&mut self, reply: Reply)
        ensures
            final(self)@ == next_state(old(self)@, reply),
    {
        match self.stage {
            Stage::Launch => match reply {
                Reply::Launched { pid } => {
                    self.pid = Some(pid);
                    self.discovery = PortDiscovery::new(pid, self.discovery.timeout_ms);
                    self.stage = Stage::Discover { delay_ms: 0 };
                },
                other => self.fail(RunError::Launch(cause(other))),
            },
            Stage::Discover { .. } => match reply {
                Reply::Probed { now_ms, fds, table } => {
                    let step = self.discovery.observe(now_ms, &fds, table.as_slice());
                    match step {
                        DiscoveryStep::Found(port) => {
                            self.port = port;
                            self.stage = Stage::Profile;
                        },
                        DiscoveryStep::Retry { delay_ms, .. } => {
                            self.stage = Stage::Discover { delay_ms };
                        },
                        DiscoveryStep::TimedOut { pid } => {
                            self.fail(RunError::DiscoveryTimeout { pid });
                        },
                    }
                },
                other => {
                    let pid = self.discovery.pid;
                    self.fail(RunError::Probe { pid, cause: cause(other) });
                },
            },
            Stage::Profile => match reply {
                Reply::ProfileCreated { path } => {
                    self.profile = Some(path);
                    self.stage = Stage::Connect;
                },
                other => self.fail(RunError::ProfileDir(cause(other))),
            },
            Stage::Connect => match reply {
                Reply::Done => {
                    self.connected = true;
                    self.stage = if 0 < self.plan.len() {
                        Stage::Session(0)
                    } else {
                        Stage::Teardown
                    };
                },
                other => {
                    let port = self.port;
                    self.fail(RunError::Connect { port, cause: cause(other) });
                },
            },
            Stage::Session(i) => {
                if i >= self.plan.len() {
                    self.stage = Stage::Teardown;
                } else {
                    let next = if i + 1 < self.plan.len() {
                        Stage::Session(i + 1)
                    } else {
                        Stage::Teardown
                    };
                    if is_capture(&self.plan[i]) {
                        match reply {
                            Reply::Image(bytes) => {
                                self.image = Some(bytes);
                                self.stage = next;
                            },
                            other => {
                                let step = copy_step(&self.plan[i]);
                                self.fail(RunError::Step { step, cause: cause(other) });
                            },
                        }
                    } else {
                        match reply {
                            Reply::Done => {
                                self.stage = next;
                            },
                            other => {
                                let step = copy_step(&self.plan[i]);
                                self.fail(RunError::Step { step, cause: cause(other) });
                            },
                        }
                    }
                }
            },
            Stage::Teardown => {
                if self.connected {
                    self.connected = false;
                    match reply {
                        Reply::Done => {},
                        other => self.note(RunError::CloseSession(cause(other))),
                    }
                } else {
                    match self.pid {
                        Some(pid) => {
                            self.pid = None;
                            match reply {
                                Reply::Done => {},
                                other => self.note(RunError::KillDriver { pid, cause: cause(other) }),
                            }
                        },
                        None => if self.profile.is_some() {
                            self.profile = None;
                            match reply {
                                Reply::Done => {},
                                other => self.note(RunError::RemoveProfileDir(cause(other))),
                            }
                        },
                    }
                }
            },
        }
    }

    /// Calls the run off: unless it is tearing down already, what was captured
    /// is dropped and the run goes to tear down.
    pub fn cancel(&mut self)
        ensures
            final(self)@ == cancelled(old(self)@),
    {
        match self.stage {
            Stage::Teardown => {},
            _ => {
                self.image = None;
                self.fail(RunError::Cancelled);
            },
        }
    }

    /// What the run came to: the image when there was no error, and
    /// otherwise the errors, the first one first.
    pub fn finish(self) -> (r: Result<Vec<u8>, Vec<RunError>>)
        ensures
            r matches Ok(v) ==> outcome(self@) == Ok::<Seq<u8>, Seq<RunError>>(v@),
            r matches Err(e) ==> outcome(self@) == Err::<Seq<u8>, Seq<RunError>>(e@),
    {
        if self.errors.len() == 0 {
            match self.image {
                Some(v) => Ok(v),
                None => Err(self.errors),
            }
        } else {
            Err(self.errors)
        }
    }
}

/// The calls that a run in state `s` asks for while it is told `replies`, one
/// reply per call, until it is over or the replies run out.
pub open spec fn trace(s: RunState, replies: Seq<Reply>) -> Seq<Command>
    decreases replies.len(),
{
    if replies.len() == 0 || finished(s) {
        seq![]
    } else {
        seq![command_of(s)] + trace(next_state(s, replies[0]), replies.drop_first())
    }
}

/// The state of a run in state `s` once it has been told `replies`, one reply
/// per call, until it is over or the replies run out.
pub open spec fn after(s: RunState, replies: Seq<Reply>) -> RunState
    decreases replies.len(),
{
    if replies.len() == 0 || finished(s) {
        s
    } else {
        after(next_state(s, replies[0]), replies.drop_first())
    }
}

/// The teardown of what `s` has set up: close the session, stop the driver,
/// remove the profile directory, in that order.
pub open spec fn teardown_commands(s: RunState) -> Seq<Command> {
    (if s.connected {
        seq![Command::CloseSession]
    } else {
        seq![]
    }) + match s.pid {
        Some(p) => seq![Command::KillDriver { pid: p }],
        None => seq![],
    } + (if s.profile is Some {
        seq![Command::RemoveProfileDir]
    } else {
        seq![]
    })
}

/// The calls that make the capture steps `p`.
pub open spec fn session_commands(p: Seq<CaptureStep>) -> Seq<Command> {
    p.map_values(|step: CaptureStep| Command::Session(step))
}

/// A teardown asks for each of its calls once, in order, whatever the
/// replies, and keeps the errors met before it first.
pub proof fn lemma_teardown_trace(s: RunState, replies: Seq<Reply>)
    requires
        s.stage is Teardown,
        finished(after(s, replies)),
    ensures
        trace(s, replies) == teardown_commands(s),
        s.errors.len() <= after(s, replies).errors.len(),
        forall|k: int| 0 <= k < s.errors.len() ==> after(s, replies).errors[k] == s.errors[k],
    decreases replies.len(),
{
    if replies.len() == 0 || finished(s) {
        assert(teardown_commands(s) =~= seq![]);
    } else {
        let t = next_state(s, replies[0]);
        lemma_teardown_trace(t, replies.drop_first());
        assert(s.errors.len() <= t.errors.len());
        assert forall|k: int| 0 <= k < s.errors.len() implies t.errors[k] == s.errors[k] by {
            if t.errors != s.errors {
                assert(t.errors == s.errors.push(t.errors.last()));
            }
        }
        assert(teardown_commands(s) =~= seq![command_of(s)] + teardown_commands(t));
        assert(trace(s, replies) =~= seq![command_of(s)] + trace(t, replies.drop_first()));
    }
}

proof fn lemma_session_trace(s: RunState, replies: Seq<Reply>, i: int)
    requires
        s.stage == Stage::Session(i as usize),
        0 <= i < s.plan.len() <= usize::MAX,
        s.connected,
        finished(after(s, replies)),
    ensures
        exists|j: int|
            #![trigger s.plan.subrange(i, j)]
            i < j <= s.plan.len() && j - i <= replies.len() && trace(s, replies) == session_commands(s.plan.subrange(i, j))
                + teardown_commands(s) && (forall|k: int|
                i <= k < j - 1 ==> step_succeeded(s.plan[k], #[trigger] replies[k - i])) && (j
                < s.plan.len() ==> !step_succeeded(s.plan[j - 1], replies[j - 1 - i])),
    decreases replies.len(),
{
    let r0 = replies[0];
    let rest = replies.drop_first();
    let t = next_state(s, r0);
    assert(trace(s, replies) == seq![Command::Session(s.plan[i])] + trace(t, rest));
    assert(teardown_commands(t) == teardown_commands(s));
    if step_succeeded(s.plan[i], r0) && i + 1 < s.plan.len() {
        lemma_session_trace(t, rest, i + 1);
        let j = choose|j: int|
            #![trigger s.plan.subrange(i + 1, j)]
            i + 1 < j <= s.plan.len() && j - (i + 1) <= rest.len() && trace(t, rest) == session_commands(
                s.plan.subrange(i + 1, j),
            ) + teardown_commands(t) && (forall|k: int|
                i + 1 <= k < j - 1 ==> step_succeeded(s.plan[k], #[trigger] rest[k - (i + 1)]))
                && (j < s.plan.len() ==> !step_succeeded(s.plan[j - 1], rest[j - 1 - (i + 1)]));
        assert(session_commands(s.plan.subrange(i, j)) =~= seq![Command::Session(s.plan[i])]
            + session_commands(s.plan.subrange(i + 1, j)));
        assert(trace(s, replies) =~= session_commands(s.plan.subrange(i, j)) + teardown_commands(
            s,
        ));
        assert forall|k: int| i <= k < j - 1 implies step_succeeded(
            s.plan[k],
            #[trigger] replies[k - i],
        ) by {
            if k > i {
                assert(replies[k - i] == rest[k - (i + 1)]);
            }
        }
        if j < s.plan.len() {
            assert(replies[j - 1 - i] == rest[j - 1 - (i + 1)]);
        }
    } else {
        lemma_teardown_trace(t, rest);
        let j = i + 1;
        assert(session_commands(s.plan.subrange(i, j)) =~= seq![Command::Session(s.plan[i])]);
        assert(trace(s, replies) =~= session_commands(s.plan.subrange(i, j)) + teardown_commands(
            s,
        ));
    }
}

/// The calls of a capture are made in the order of its plan, and the session
/// is closed exactly once, after them, whether the calls succeeded or not.
///
/// For a session just opened on a plan of at least one call, and any replies
/// that take the run to its end, the calls asked for are the first `j` calls
/// of the plan and then the teardown; `j` is the whole plan unless its `j`-th
/// call failed.
pub proof fn lemma_capture_order(s: RunState, replies: Seq<Reply>)
    requires
        s.stage == Stage::Session(0),
        0 < s.plan.len() <= usize::MAX,
        s.connected,
        finished(after(s, replies)),
    ensures
        exists|j: int|
            #![trigger s.plan.take(j)]
            1 <= j <= s.plan.len() && j <= replies.len() && trace(s, replies) == session_commands(s.plan.take(j))
                + teardown_commands(s) && (forall|k: int|
                0 <= k < j - 1 ==> step_succeeded(s.plan[k], #[trigger] replies[k])) && (j
                < s.plan.len() ==> !step_succeeded(s.plan[j - 1], replies[j - 1])),
        exists|c: int|
            0 <= c < trace(s, replies).len() && trace(s, replies)[c] == Command::CloseSession
                && forall|k: int|
                0 <= k < trace(s, replies).len() && k != c ==> #[trigger] trace(s, replies)[k]
                    != Command::CloseSession,
{
    lemma_session_trace(s, replies, 0);
    let j = choose|j: int|
        #![trigger s.plan.subrange(0, j)]
        0 < j <= s.plan.len() && j - 0 <= replies.len() && trace(s, replies) == session_commands(s.plan.subrange(0, j))
            + teardown_commands(s) && (forall|k: int|
            0 <= k < j - 1 ==> step_succeeded(s.plan[k], #[trigger] replies[k - 0])) && (j
            < s.plan.len() ==> !step_succeeded(s.plan[j - 1], replies[j - 1 - 0]));
    assert(s.plan.take(j) =~= s.plan.subrange(0, j));
    assert forall|k: int| 0 <= k < j - 1 implies step_succeeded(
        s.plan[k],
        #[trigger] replies[k],
    ) by {
        assert(replies[k] == replies[k - 0]);
    }
    let tr = trace(s, replies);
    let head = session_commands(s.plan.take(j));
    assert(tr[j] == Command::CloseSession);
    assert forall|k: int| 0 <= k < tr.len() && k != j implies #[trigger] tr[k]
        != Command::CloseSession by {
        if k < j {
            assert(tr[k] == head[k]);
        } else {
            assert(tr[k] == teardown_commands(s)[k - j]);
        }
    }
}

/// A failed search for the port tears down the driver alone: no session was
/// opened, so none is closed, no directory was made, so none is removed, and
/// the failure stays the error that counts.
pub proof fn lemma_failed_discovery_teardown(s: RunState, reply: Reply, replies: Seq<Reply>)
    requires
        s.stage is Discover,
        s.pid is Some,
        s.profile is None,
        !s.connected,
        s.errors.len() == 0,
        next_state(s, reply).stage is Teardown,
        finished(after(next_state(s, reply), replies)),
    ensures
        trace(next_state(s, reply), replies) == seq![Command::KillDriver { pid: s.pid->Some_0 }],
        after(next_state(s, reply), replies).errors.len() >= 1,
        after(next_state(s, reply), replies).errors[0] is DiscoveryTimeout || after(
            next_state(s, reply),
            replies,
        ).errors[0] is Probe,
{
    let t = next_state(s, reply);
    lemma_teardown_trace(t, replies);
    assert(t.errors.len() == 1);
    assert(t.errors[0] is DiscoveryTimeout || t.errors[0] is Probe);
    assert(teardown_commands(t) =~= seq![Command::KillDriver { pid: s.pid->Some_0 }]);
}

/// Tearing down twice is tearing down once: a finished run asks for nothing
/// and ignores any reply, and calling a run off twice is calling it off once.
pub proof fn lemma_teardown_idempotent(s: RunState, reply: Reply)
    ensures
        cancelled(cancelled(s)) == cancelled(s),
        finished(s) ==> command_of(s) == Command::Done && next_state(s, reply) == s && cancelled(s)
            == s,
{
}

/// Each thing set up is released by its own call alone, and that call always
/// releases it: the driver is stopped only by `KillDriver`, the session closed
/// only by `CloseSession`, the directory removed only by `RemoveProfileDir`.
/// Once tearing down, a run sets nothing up again, so nothing is released
/// twice.
pub proof fn lemma_release_only_by_its_call(s: RunState, reply: Reply)
    ensures
        s.pid is Some && next_state(s, reply).pid is None ==> command_of(s) == (Command::KillDriver {
            pid: s.pid->Some_0,
        }),
        s.connected && !next_state(s, reply).connected ==> command_of(s) == Command::CloseSession,
        s.profile is Some && next_state(s, reply).profile is None ==> command_of(s)
            == Command::RemoveProfileDir,
        command_of(s) is KillDriver ==> s.pid is Some && next_state(s, reply).pid is None,
        command_of(s) is CloseSession ==> s.connected && !next_state(s, reply).connected,
        command_of(s) is RemoveProfileDir ==> s.profile is Some && next_state(s, reply).profile is None,
        s.stage is Teardown ==> next_state(s, reply).stage is Teardown,
        s.stage is Teardown && next_state(s, reply).pid is Some ==> s.pid is Some,
        s.stage is Teardown && next_state(s, reply).connected ==> s.connected,
        s.stage is Teardown && next_state(s, reply).profile is Some ==> s.profile is Some,
{
}

} // verus!
