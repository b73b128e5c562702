use shave::client::CaptureStep;
use shave::run::Cause;
use shave::run::Command;
use shave::run::Reply;
use shave::run::RunError;
use shave::socket::FdEntry;
use shave::Builder;
use shave::Run;
use shave::ScreenshotOpts;

const PID: u32 = 4711;
const PORT: u16 = 9515;
const INODE: u64 = 1234;

fn listening_table() -> Vec<u8> {
    format!(
        "  sl  local_address rem_address   st\n   0: 0100007F:{PORT:04X} 00000000:0000 0A 0:0 0:0 0 1000 0 {INODE} 1\n"
    )
    .into_bytes()
}

fn listening_fds() -> Vec<FdEntry> {
    vec![FdEntry::Status { mode: 0o140777, inode: INODE }]
}

/// A stand-in for the driver, the file system and the browser session: it
/// records each call and answers it, failing the calls it is told to fail.
struct Fake {
    calls: Vec<Command>,
    fail: Vec<Command>,
    clock: u64,
    bound: bool,
}

impl Fake {
    fn new(fail: Vec<Command>) -> Fake {
        Fake { calls: Vec::new(), fail, clock: 0, bound: true }
    }

    fn answer(&mut self, command: &Command) -> Reply {
        self.calls.push(command.clone());
        if self.fail.contains(command) {
            return Reply::Failed(format!("{command:?} failed"));
        }
        match command {
            Command::LaunchDriver => Reply::Launched { pid: PID },
            Command::Probe { .. } => {
                self.clock += 10_000;
                if self.bound {
                    Reply::Probed { now_ms: self.clock, fds: listening_fds(), table: listening_table() }
                } else {
                    Reply::Probed { now_ms: self.clock, fds: Vec::new(), table: Vec::new() }
                }
            },
            Command::CreateProfileDir => Reply::ProfileCreated { path: String::from("/tmp/profile") },
            Command::Session(CaptureStep::CaptureElement { .. }) => Reply::Image(vec![1, 2, 3]),
            Command::Session(CaptureStep::CapturePage { .. }) => Reply::Image(vec![4, 5]),
            _ => Reply::Done,
        }
    }

    fn drive(&mut self, mut run: Run) -> Result<Vec<u8>, Vec<RunError>> {
        let mut turns = 0;
        while !run.is_finished() {
            let command = run.command();
            let reply = self.answer(&command);
            run.advance(reply);
            turns += 1;
            assert!(turns < 1_000, "the run does not end");
        }
        assert_eq!(run.command(), Command::Done);
        run.finish()
    }

    fn session_calls(&self) -> Vec<Command> {
        let first = self.calls.iter().position(|c| matches!(c, Command::Session(_))).unwrap();
        self.calls[first..].to_vec()
    }

    fn count(&self, command: &Command) -> usize {
        self.calls.iter().filter(|c| *c == command).count()
    }
}

fn full_opts() -> ScreenshotOpts {
    ScreenshotOpts {
        window_size: Some((800, 600)),
        await_selector: Some(String::from("#main")),
        remove_selector: Some(String::from(".ad")),
        selector: Some(String::from("#chart")),
        _non_exhaustive: (),
    }
}

fn url() -> String {
    String::from("https://example.com/")
}

#[test]
fn full_sequence_runs_in_order() {
    let run = Builder::new().screenshot(url(), &full_opts());
    let mut fake = Fake::new(Vec::new());
    let image = fake.drive(run).unwrap();
    assert_eq!(image, vec![1, 2, 3]);
    assert_eq!(
        fake.calls[..4].to_vec(),
        vec![
            Command::LaunchDriver,
            Command::Probe { pid: PID, delay_ms: 0 },
            Command::CreateProfileDir,
            Command::Connect { port: PORT },
        ]
    );
    assert_eq!(
        fake.session_calls(),
        vec![
            Command::Session(CaptureStep::SetWindowSize { width: 800, height: 600 }),
            Command::Session(CaptureStep::Navigate { url: url() }),
            Command::Session(CaptureStep::AwaitElement { selector: String::from("#main") }),
            Command::Session(CaptureStep::RemoveElements { selector: String::from(".ad") }),
            Command::Session(CaptureStep::FindElement { selector: String::from("#chart") }),
            Command::Session(CaptureStep::CaptureElement { selector: String::from("#chart") }),
            Command::CloseSession,
            Command::KillDriver { pid: PID },
            Command::RemoveProfileDir,
        ]
    );
    assert_eq!(fake.count(&Command::CloseSession), 1);
}

#[test]
fn close_follows_a_failed_capture() {
    let run = Builder::new().screenshot(url(), &full_opts());
    let failing = Command::Session(CaptureStep::CaptureElement { selector: String::from("#chart") });
    let mut fake = Fake::new(vec![failing.clone()]);
    let errors = fake.drive(run).unwrap_err();
    assert_eq!(
        errors,
        vec![RunError::Step {
            step: CaptureStep::CaptureElement { selector: String::from("#chart") },
            cause: Cause::Reported(format!("{failing:?} failed")),
        }]
    );
    assert_eq!(fake.count(&Command::CloseSession), 1);
    let calls = fake.session_calls();
    assert_eq!(calls[calls.len() - 4], failing);
    assert_eq!(
        calls[calls.len() - 3..].to_vec(),
        vec![Command::CloseSession, Command::KillDriver { pid: PID }, Command::RemoveProfileDir]
    );
}

#[test]
fn failed_navigation_skips_the_rest_of_the_plan() {
    let opts = ScreenshotOpts::default();
    let run = Builder::new().screenshot(url(), &opts);
    let failing = Command::Session(CaptureStep::Navigate { url: url() });
    let mut fake = Fake::new(vec![failing.clone()]);
    let errors = fake.drive(run).unwrap_err();
    assert!(matches!(&errors[0], RunError::Step { step: CaptureStep::Navigate { url: u }, .. } if *u == url()));
    assert_eq!(
        fake.session_calls(),
        vec![
            Command::Session(CaptureStep::SetWindowSize { width: 3840, height: 2160 }),
            failing,
            Command::CloseSession,
            Command::KillDriver { pid: PID },
            Command::RemoveProfileDir,
        ]
    );
}

#[test]
fn page_capture_without_selector() {
    let run = Builder::new().screenshot(url(), &ScreenshotOpts::default());
    let mut fake = Fake::new(Vec::new());
    assert_eq!(fake.drive(run).unwrap(), vec![4, 5]);
    assert!(fake.calls.contains(&Command::Session(CaptureStep::CapturePage { url: url() })));
    assert!(!fake.calls.iter().any(|c| matches!(c, Command::Session(CaptureStep::FindElement { .. }))));
}

#[test]
fn close_failure_is_reported_after_the_capture_failure() {
    let run = Builder::new().screenshot(url(), &ScreenshotOpts::default());
    let failing = Command::Session(CaptureStep::CapturePage { url: url() });
    let mut fake = Fake::new(vec![failing, Command::CloseSession, Command::RemoveProfileDir]);
    let errors = fake.drive(run).unwrap_err();
    assert_eq!(errors.len(), 3);
    assert!(matches!(errors[0], RunError::Step { .. }));
    assert!(matches!(errors[1], RunError::CloseSession(Cause::Reported(_))));
    assert!(matches!(errors[2], RunError::RemoveProfileDir(Cause::Reported(_))));
    assert_eq!(fake.count(&Command::KillDriver { pid: PID }), 1);
}

#[test]
fn close_failure_alone_fails_the_run() {
    let run = Builder::new().screenshot(url(), &ScreenshotOpts::default());
    let mut fake = Fake::new(vec![Command::CloseSession]);
    let errors = fake.drive(run).unwrap_err();
    assert_eq!(errors.len(), 1);
    assert!(matches!(errors[0], RunError::CloseSession(_)));
}

#[test]
fn teardown_after_failed_discovery_stops_the_driver_only() {
    let run = Builder::new().screenshot(url(), &ScreenshotOpts::default());
    let mut fake = Fake::new(Vec::new());
    fake.bound = false;
    let errors = fake.drive(run).unwrap_err();
    assert_eq!(errors, vec![RunError::DiscoveryTimeout { pid: PID }]);
    assert_eq!(fake.count(&Command::CloseSession), 0);
    assert_eq!(fake.count(&Command::RemoveProfileDir), 0);
    assert_eq!(fake.count(&Command::KillDriver { pid: PID }), 1);
    assert_eq!(fake.calls.last(), Some(&Command::KillDriver { pid: PID }));
}

#[test]
fn probe_failure_is_an_io_error_naming_the_driver() {
    let run = Builder::new().screenshot(url(), &ScreenshotOpts::default());
    let mut fake = Fake::new(vec![Command::Probe { pid: PID, delay_ms: 0 }]);
    let errors = fake.drive(run).unwrap_err();
    assert!(matches!(&errors[0], RunError::Probe { pid: PID, cause: Cause::Reported(_) }));
    assert_eq!(fake.calls.last(), Some(&Command::KillDriver { pid: PID }));
}

#[test]
fn failed_launch_tears_down_nothing() {
    let run = Builder::new().screenshot(url(), &ScreenshotOpts::default());
    let mut fake = Fake::new(vec![Command::LaunchDriver]);
    let errors = fake.drive(run).unwrap_err();
    assert!(matches!(errors[0], RunError::Launch(_)));
    assert_eq!(fake.calls, vec![Command::LaunchDriver]);
}

#[test]
fn failed_connect_removes_what_was_set_up() {
    let run = Builder::new().screenshot(url(), &ScreenshotOpts::default());
    let mut fake = Fake::new(vec![Command::Connect { port: PORT }]);
    let errors = fake.drive(run).unwrap_err();
    assert!(matches!(errors[0], RunError::Connect { port: PORT, .. }));
    assert_eq!(fake.count(&Command::CloseSession), 0);
    assert_eq!(
        fake.calls[fake.calls.len() - 2..].to_vec(),
        vec![Command::KillDriver { pid: PID }, Command::RemoveProfileDir]
    );
}

#[test]
fn unexpected_reply_counts_as_failure() {
    let mut run = Builder::new().screenshot(url(), &ScreenshotOpts::default());
    run.advance(Reply::Done);
    assert!(run.is_finished());
    assert_eq!(run.finish(), Err(vec![RunError::Launch(Cause::UnexpectedReply)]));
}

#[test]
fn cancel_twice_and_replies_after_the_end_change_nothing() {
    let mut run = Builder::new().screenshot(url(), &ScreenshotOpts::default());
    run.advance(Reply::Launched { pid: PID });
    run.cancel();
    run.cancel();
    assert_eq!(run.command(), Command::KillDriver { pid: PID });
    run.advance(Reply::Done);
    assert!(run.is_finished());
    run.advance(Reply::Failed(String::from("late")));
    run.cancel();
    assert!(run.is_finished());
    assert_eq!(run.command(), Command::Done);
    assert_eq!(run.finish(), Err(vec![RunError::Cancelled]));
}

#[test]
fn connect_args_name_the_profile_and_user_agent() {
    let builder = Builder::new().set_user_agent(Some(String::from("shave/1.0")));
    let mut run = builder.screenshot(url(), &ScreenshotOpts::default());
    run.advance(Reply::Launched { pid: PID });
    run.advance(Reply::Probed { now_ms: 0, fds: listening_fds(), table: listening_table() });
    run.advance(Reply::ProfileCreated { path: String::from("/tmp/p1") });
    assert_eq!(run.command(), Command::Connect { port: PORT });
    let args = run.connect_args();
    assert_eq!(args.len(), 57);
    assert_eq!(args[0], "--block-new-web-contents");
    assert_eq!(args[55], "--user-data-dir=/tmp/p1");
    assert_eq!(args[56], "--user-agent=shave/1.0");
}

#[test]
fn failed_profile_dir_stops_the_driver() {
    let run = Builder::new().screenshot(url(), &ScreenshotOpts::default());
    let mut fake = Fake::new(vec![Command::CreateProfileDir]);
    let errors = fake.drive(run).unwrap_err();
    assert!(matches!(errors[0], RunError::ProfileDir(Cause::Reported(_))));
    assert_eq!(fake.count(&Command::RemoveProfileDir), 0);
    assert_eq!(fake.count(&Command::CloseSession), 0);
    assert_eq!(fake.calls.last(), Some(&Command::KillDriver { pid: PID }));
}

#[test]
fn failed_kill_is_reported_and_teardown_goes_on() {
    let run = Builder::new().screenshot(url(), &ScreenshotOpts::default());
    let mut fake = Fake::new(vec![Command::KillDriver { pid: PID }]);
    let errors = fake.drive(run).unwrap_err();
    assert_eq!(errors.len(), 1);
    assert!(matches!(errors[0], RunError::KillDriver { pid: PID, .. }));
    assert_eq!(fake.calls.last(), Some(&Command::RemoveProfileDir));
}
