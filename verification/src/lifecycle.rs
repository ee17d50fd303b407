//! The life of the server process: how it is spawned, awaited and stopped.
use vstd::prelude::*;
use vstd::string::*;
use crate::client::local_url;
use crate::config::{EngineConfig, Span};
use crate::error::Error;
use crate::layout::{server_jar_path, InstallPath};
use crate::state::{EngineState, SharedState};
use crate::task::Arg;
use crate::{client, layout, task, text};

verus! {

/// How long one look at the health of the server may take.
pub const POLL_TIMEOUT_SECS: u64 = 2;

/// How long to wait between two looks at the health of the server.
pub const POLL_INTERVAL_MILLIS: u64 = 500;

/// How long the request to quit may take.
pub const QUIT_TIMEOUT_SECS: u64 = 3;

/// How long the server is given to exit by itself.
pub const QUIT_GRACE_MILLIS: u64 = 800;

/// A command that runs the server.
#[derive(Debug)]
pub struct LaunchCommand {
    pub program: InstallPath,
    pub args: Vec<Arg>,
}

/// Whether a command runs the configured server on `port` with the Java binary `java`. There is no
/// argument that would open the server to other hosts.
pub open spec fn is_launch(
    command: LaunchCommand,
    cfg: EngineConfig,
    java: InstallPath,
    port: u16,
) -> bool {
    let args = command.args@;
    &&& command.program@ == java@
    &&& args.len() == 7
    &&& task::is_text(args[0], "-cp"@)
    &&& task::is_path(args[1], cfg.data_dir@.below(layout::server_jar_parts(cfg.lt_version@)))
    &&& task::is_text(args[2], "org.languagetool.server.HTTPServer"@)
    &&& task::is_text(args[3], "--port"@)
    &&& task::is_text(args[4], text::decimal(port as nat))
    &&& task::is_text(args[5], "--allow-origin"@)
    &&& task::is_text(args[6], "*"@)
}

/// What is known of a child process.
#[derive(Clone, Copy, Debug, PartialEq, Eq, Structural)]
pub enum ChildStatus {
    /// There is no child process.
    Absent,
    /// It is running.
    Running,
    /// It has exited.
    Exited,
    /// It cannot be told.
    Unknown,
}

/// Whether a child process is gone: it has exited, it cannot be told, or there is none.
pub open spec fn is_gone(status: ChildStatus) -> bool {
    status != ChildStatus::Running
}

/// A step in the stopping of the server.
#[derive(Debug)]
pub enum StopStep {
    /// Ask the server to quit, and ignore what comes of it.
    Quit { url: String, timeout_secs: u64 },
    /// Give it time to exit by itself.
    Sleep { millis: u64 },
    /// Kill it.
    Kill,
    /// Wait until it is gone.
    Wait,
}

/// Whether the steps ask the server at `port` to quit, then make sure that it is gone.
pub open spec fn is_stop_plan(steps: Seq<StopStep>, port: u16) -> bool {
    &&& steps.len() == 4
    &&& steps[0] matches StopStep::Quit { url, timeout_secs }
    &&& url@ == client::server_url(port, "/v2/quit"@)
    &&& timeout_secs == 3
    &&& steps[1] == StopStep::Sleep { millis: 800 }
    &&& steps[2] == StopStep::Kill
    &&& steps[3] == StopStep::Wait
}

/// Whether the steps stop the server at `port`, where its child process is there.
pub open spec fn stops(steps: Seq<StopStep>, has_child: bool, port: u16) -> bool {
    if has_child {
        is_stop_plan(steps, port)
    } else {
        steps.len() == 0
    }
}

/// A server that was spawned.
#[derive(Debug)]
pub struct ServerProcess {
    pub port: u16,
}

impl ServerProcess {
    /// The command that spawns the server on `port`; an error where no Java runtime was chosen.
    pub fn spawn(cfg: &EngineConfig, shared: &SharedState, port: u16) -> (res: Result<
        LaunchCommand,
        Error,
    >)
        ensures
            res is Ok <==> shared.java_path is Some,
            res matches Ok(command) ==> is_launch(command, *cfg, shared.java_path->0, port),
            res matches Err(e) ==> (e matches Error::Provision(reason) && reason@
                == "java path not set; call provision() first"@),
    {
        match shared.java_path() {
            None => Err(
                Error::Provision(String::from_str("java path not set; call provision() first")),
            ),
            Some(java) => {
                let mut args: Vec<Arg> = Vec::new();
                args.push(Arg::Text(String::from_str("-cp")));
                args.push(Arg::Path(server_jar_path(&cfg.data_dir, cfg.lt_version.as_str())));
                args.push(Arg::Text(String::from_str("org.languagetool.server.HTTPServer")));
                args.push(Arg::Text(String::from_str("--port")));
                args.push(Arg::Text(text::format_u64(port as u64)));
                args.push(Arg::Text(String::from_str("--allow-origin")));
                args.push(Arg::Text(String::from_str("*")));
                Ok(LaunchCommand { program: java, args })
            },
        }
    }

    /// The server on `port`, which was spawned just now; its port is made known.
    pub fn spawned(port: u16, shared: &mut SharedState) -> (res: Self)
        ensures
            res == (ServerProcess { port }),
            *final(shared) == (SharedState { port: Some(port), ..*old(shared) }),
    {
        shared.set_port(port);
        ServerProcess { port }
    }

    /// The port that the server listens on.
    pub fn port(&self) -> (res: u16)
        ensures
            res == self.port,
    {
        self.port
    }

    /// The steps that stop the server; none where its child process was taken before.
    pub fn stop(&self, has_child: bool) -> (res: Vec<StopStep>)
        ensures
            stops(res@, has_child, self.port),
    {
        let mut res: Vec<StopStep> = Vec::new();
        if has_child {
            res.push(
                StopStep::Quit {
                    url: local_url(self.port, "/v2/quit"),
                    timeout_secs: QUIT_TIMEOUT_SECS,
                },
            );
            res.push(StopStep::Sleep { millis: QUIT_GRACE_MILLIS });
            res.push(StopStep::Kill);
            res.push(StopStep::Wait);
        }
        res
    }

    /// Whether the child process is gone: it has exited, it cannot be told, or there is none.
    pub fn has_exited(status: ChildStatus) -> (res: bool)
        ensures
            res == is_gone(status),
    {
        status != ChildStatus::Running
    }
}

/// Whether an HTTP status says that the server is healthy: nothing but 200 does.
pub open spec fn is_healthy(status: u16) -> bool {
    status == 200
}

/// How far the wait for the server has come, by the work that is under way.
#[derive(Clone, Copy, Debug, PartialEq, Eq, Structural)]
pub enum WaitStage {
    /// Reading the clock.
    Clock,
    /// Looking at the health of the server.
    Poll,
    /// Sleeping until the next look.
    Pause,
    /// Nothing: the wait is over.
    Done,
}

/// What came of a piece of work during the wait.
#[derive(Debug)]
pub enum WaitEvent {
    /// So much time has passed since the wait began.
    Elapsed(Span),
    /// The server answered with that HTTP status.
    Response(u16),
    /// The server did not answer.
    NoResponse,
    /// The time between two looks has passed.
    Slept,
}

/// A piece of work to be done next during the wait.
#[derive(Debug)]
pub enum WaitAction {
    /// Tell how much time has passed since the wait began.
    ReadClock,
    /// Request the URL.
    Poll { url: String, timeout_secs: u64 },
    /// Sleep.
    Sleep { millis: u64 },
    /// The wait is over.
    Finish(Result<(), Error>),
    /// The event answers no work that was asked for. Nothing was done.
    Unexpected,
}

/// The wait until the server on a port is healthy.
#[derive(Debug)]
pub struct ReadyWait {
    pub port: u16,
    pub timeout: Span,
    pub stage: WaitStage,
}

/// Begins to wait until the server on `port` is healthy. The work to be done first is to read the
/// clock.
pub fn wait_for_ready(port: u16, timeout: Span, shared: &mut SharedState) -> (res: ReadyWait)
    ensures
        res == (ReadyWait { port, timeout, stage: WaitStage::Clock }),
        *final(shared) == (SharedState { state: EngineState::Starting, ..*old(shared) }),
{
    shared.set(EngineState::Starting);
    ReadyWait { port, timeout, stage: WaitStage::Clock }
}

impl ReadyWait {
    /// The same wait, with other work under way.
    pub open spec fn at(self, stage: WaitStage) -> Self {
        ReadyWait { stage, ..self }
    }

    /// Whether the timeout, and a time that has passed, are proper lengths of time.
    pub open spec fn fits(self, event: WaitEvent) -> bool {
        &&& self.timeout.valid()
        &&& event matches WaitEvent::Elapsed(elapsed) ==> elapsed.valid()
    }

    /// One step of the wait: the server is looked at, and then after each pause, until it answers
    /// that all is well or the timeout has passed.
    pub open spec fn step(
        self,
        before: SharedState,
        event: WaitEvent,
        post: Self,
        after: SharedState,
        action: WaitAction,
    ) -> bool {
        match (self.stage, event) {
            (WaitStage::Clock, WaitEvent::Elapsed(elapsed)) => {
                &&& after == before
                &&& if elapsed.total_nanos() >= self.timeout.total_nanos() {
                    &&& post == self.at(WaitStage::Done)
                    &&& action == WaitAction::Finish(
                        Err(Error::StartupTimeout { seconds: self.timeout.secs }),
                    )
                } else {
                    &&& post == self.at(WaitStage::Poll)
                    &&& action matches WaitAction::Poll { url, timeout_secs }
                    &&& url@ == client::server_url(self.port, "/v2/languages"@)
                    &&& timeout_secs == 2
                }
            },
            (WaitStage::Poll, WaitEvent::Response(status)) => if is_healthy(status) {
                &&& post == self.at(WaitStage::Done)
                &&& after == SharedState { state: EngineState::Ready, ..before }
                &&& action == WaitAction::Finish(Ok(()))
            } else {
                &&& post == self.at(WaitStage::Pause)
                &&& after == before
                &&& action == WaitAction::Sleep { millis: 500 }
            },
            (WaitStage::Poll, WaitEvent::NoResponse) => {
                &&& post == self.at(WaitStage::Pause)
                &&& after == before
                &&& action == WaitAction::Sleep { millis: 500 }
            },
            (WaitStage::Pause, WaitEvent::Slept) => {
                &&& post == self.at(WaitStage::Clock)
                &&& after == before
                &&& action == WaitAction::ReadClock
            },
            _ => post == self && after == before && action == WaitAction::Unexpected,
        }
    }

    /// Takes one step: notes what came of the work under way and says what is to be done next.
    pub fn advance(&mut self, shared: &mut SharedState, event: WaitEvent) -> (res: WaitAction)
        requires
            old(self).fits(event),
        ensures
            old(self).step(*old(shared), event, *final(self), *final(shared), res),
    {
        match (self.stage, event) {
            (WaitStage::Clock, WaitEvent::Elapsed(elapsed)) => {
                if elapsed.reaches(&self.timeout) {
                    self.stage = WaitStage::Done;
                    WaitAction::Finish(Err(Error::StartupTimeout { seconds: self.timeout.secs }))
                } else {
                    self.stage = WaitStage::Poll;
                    WaitAction::Poll {
                        url: local_url(self.port, "/v2/languages"),
                        timeout_secs: POLL_TIMEOUT_SECS,
                    }
                }
            },
            (WaitStage::Poll, WaitEvent::Response(status)) => {
                if status == 200 {
                    shared.set(EngineState::Ready);
                    self.stage = WaitStage::Done;
                    WaitAction::Finish(Ok(()))
                } else {
                    self.stage = WaitStage::Pause;
                    WaitAction::Sleep { millis: POLL_INTERVAL_MILLIS }
                }
            },
            (WaitStage::Poll, WaitEvent::NoResponse) => {
                self.stage = WaitStage::Pause;
                WaitAction::Sleep { millis: POLL_INTERVAL_MILLIS }
            },
            (WaitStage::Pause, WaitEvent::Slept) => {
                self.stage = WaitStage::Clock;
                WaitAction::ReadClock
            },
            _ => WaitAction::Unexpected,
        }
    }
}

/// The command runs the chosen Java binary on the jar of the configured version, and the argument
/// behind `--port` is a number: the port.
pub proof fn law_launch_command(command: LaunchCommand, cfg: EngineConfig, java: InstallPath, port: u16)
    requires
        is_launch(command, cfg, java, port),
    ensures
        command.program@ == java@,
        command.args@.len() == 7,
        command.args@[0] matches Arg::Text(t) && t@ == "-cp"@,
        command.args@[1] matches Arg::Path(p) && p@.base == cfg.data_dir@.base && p@.parts
            == cfg.data_dir@.parts.push("dist"@).push("LanguageTool-"@ + cfg.lt_version@).push(
            "languagetool-server.jar"@,
        ),
        command.args@[2] matches Arg::Text(t) && t@ == "org.languagetool.server.HTTPServer"@,
        command.args@[3] matches Arg::Text(t) && t@ == "--port"@,
        command.args@[4] matches Arg::Text(t) && text::numeral_u32(t@) == Some(port as u32),
        command.args@[5] matches Arg::Text(t) && t@ == "--allow-origin"@,
        command.args@[6] matches Arg::Text(t) && t@ == "*"@,
{
    text::law_numeral_round_trip(port as u32);
    layout::law_server_jar_is_named_after_version(cfg.data_dir@, cfg.lt_version@);
}

/// The server is first asked to quit, at its own port, is then given time, and is killed and waited
/// for in any case, so that none is left behind.
pub proof fn law_stop_leaves_no_server(steps: Seq<StopStep>, port: u16)
    requires
        stops(steps, true, port),
    ensures
        steps.len() == 4,
        steps[0] matches StopStep::Quit { url, timeout_secs } && timeout_secs == 3 && (exists|
            number: Seq<char>,
        |
            #![trigger "http://127.0.0.1:"@ + number]
            url@ == "http://127.0.0.1:"@ + number + "/v2/quit"@ && text::numeral_u32(number)
                == Some(port as u32)),
        steps[1] matches StopStep::Sleep { millis } && millis == 800,
        steps[2] is Kill,
        steps[3] is Wait,
{
    client::law_url_names_the_port(port, "/v2/quit"@);
}

/// Where there is no child process any more, nothing is done.
pub proof fn law_stop_of_nothing(steps: Seq<StopStep>, port: u16)
    requires
        stops(steps, false, port),
    ensures
        steps == Seq::<StopStep>::empty(),
{
}

/// Only a process that is known to be running counts as still there.
pub proof fn law_only_running_is_there(status: ChildStatus)
    ensures
        is_gone(status) <==> status is Absent || status is Exited || status is Unknown,
{
}

/// In a wait, the first look at the server is taken at once, another one after each pause of half a
/// second, and each of them goes to the port that is waited for. Only the status 200 ends the wait
/// with success, and only a time that is as long as the timeout ends it with the error.
pub proof fn law_wait_step(
    wait: ReadyWait,
    before: SharedState,
    event: WaitEvent,
    post: ReadyWait,
    after: SharedState,
    action: WaitAction,
)
    requires
        wait.step(before, event, post, after, action),
    ensures
        post.port == wait.port,
        post.timeout == wait.timeout,
        after == (SharedState { state: after.state, ..before }),
        action == WaitAction::Finish(Ok(())) <==> wait.stage == WaitStage::Poll && event
            == WaitEvent::Response(200),
        action == WaitAction::Finish(Ok(())) ==> after.state == EngineState::Ready,
        !(action matches WaitAction::Finish(Ok(_))) ==> after == before,
        action matches WaitAction::Finish(Err(e)) ==> (event matches WaitEvent::Elapsed(t)
            && t.secs * 1_000_000_000 + t.nanos >= wait.timeout.secs * 1_000_000_000
            + wait.timeout.nanos && e == (Error::StartupTimeout { seconds: wait.timeout.secs })),
        action matches WaitAction::Poll { url, timeout_secs } ==> timeout_secs == 2 && (exists|
            number: Seq<char>,
        |
            #![trigger "http://127.0.0.1:"@ + number]
            url@ == "http://127.0.0.1:"@ + number + "/v2/languages"@ && text::numeral_u32(number)
                == Some(wait.port as u32)),
        action matches WaitAction::Sleep { millis } ==> millis == 500,
        action is Sleep <==> wait.stage == WaitStage::Poll && (event is NoResponse || (
        event matches WaitEvent::Response(status) && status != 200)),
        action is ReadClock <==> wait.stage == WaitStage::Pause && event == WaitEvent::Slept,
        action is Poll <==> wait.stage == WaitStage::Clock && (event matches WaitEvent::Elapsed(t)
            && t.secs * 1_000_000_000 + t.nanos < wait.timeout.secs * 1_000_000_000
            + wait.timeout.nanos),
        action is Unexpected ==> post == wait,
{
    client::law_url_names_the_port(wait.port, "/v2/languages"@);
}

} // verus!
