//! The engine: provisioning, starting, checking and stopping.
use vstd::prelude::*;
use vstd::string::*;
use crate::client::{CheckRequest, LtClient};
use crate::config::{EngineConfig, Os};
use crate::error::Error;
use crate::lifecycle::{wait_for_ready, LaunchCommand, ReadyWait, ServerProcess, WaitAction, WaitEvent, WaitStage};
use crate::provision::Provisioner;
use crate::state::{EngineState, SharedState};
use crate::task::{Action, Directive, Event, VersionJson};
use crate::{client, error, lifecycle, provision, text};

verus! {

/// The LanguageTool grammar engine.
#[derive(Debug)]
pub struct LanguageToolEngine {
    pub config: EngineConfig,
    pub shared: SharedState,
    pub server: Option<ServerProcess>,
}

/// How far the start of the server has come, by the work that is under way.
#[derive(Clone, Copy, Debug, PartialEq, Eq, Structural)]
pub enum StartStage {
    /// Looking for a free port.
    AcquirePort,
    /// Spawning the process.
    Launch,
    /// Waiting until the server is healthy.
    Wait,
    /// Stopping a server that did not become healthy.
    StopServer,
    /// Nothing: the start has come to an end.
    Done,
}

/// The start of the server, under way.
#[derive(Debug)]
pub struct StartFlow {
    pub stage: StartStage,
    pub wait: ReadyWait,
    /// Why the start will fail, once the work that is under way is done.
    pub failure: Option<Error>,
}

/// What came of a piece of work during the start.
#[derive(Debug)]
pub enum StartEvent {
    /// That port of the loopback interface is free.
    Port(u16),
    /// The process was spawned.
    Launched,
    /// Looking for a port, or spawning the process, failed.
    Failed(Error),
    /// What came of a piece of work during the wait.
    Wait(WaitEvent),
    /// The server was stopped.
    ServerStopped,
}

/// A piece of work to be done next during the start.
#[derive(Debug)]
pub enum StartAction {
    /// Find a free port of the loopback interface.
    AcquirePort,
    /// Spawn the process, to be killed when it is dropped.
    Launch(LaunchCommand),
    /// Work of the wait until the server is healthy.
    Wait(WaitAction),
    /// Stop the server, where there still is one.
    StopServer(Option<ServerProcess>),
    /// The start has come to an end.
    Finish(Result<(), Error>),
    /// The event answers no work that was asked for. Nothing was done.
    Unexpected,
}

/// Whether a state shows that error.
pub open spec fn shows(state: EngineState, e: Error) -> bool {
    state matches EngineState::Error { message } && message@ == error::error_text(e)
}

impl LanguageToolEngine {
    /// Whether the configuration is proper, and the port of the server is known whenever the
    /// engine is ready.
    pub open spec fn valid(self) -> bool {
        &&& self.config.valid()
        &&& self.shared.state == EngineState::Ready ==> self.shared.port is Some
    }

    /// The same engine in another observable state.
    pub open spec fn in_state(self, state: EngineState) -> Self {
        LanguageToolEngine { shared: SharedState { state, ..self.shared }, ..self }
    }

    /// An engine with the given configuration, which has done nothing yet.
    pub fn new(config: EngineConfig) -> (res: Self)
        ensures
            res.config == config,
            res.shared.state == EngineState::NotInstalled,
            res.shared.port is None,
            res.shared.java_path is None,
            !res.shared.using_system_java,
            res.server is None,
            config.valid() ==> res.valid(),
    {
        LanguageToolEngine { config, shared: SharedState::new(), server: None }
    }

    /// What is seen of the engine from outside.
    pub open spec fn observed(self) -> EngineState {
        self.shared.state
    }

    /// Whether the engine says that it accepts checks.
    pub open spec fn accepts_checks(self) -> bool {
        self.shared.state == EngineState::Ready
    }

    /// Whether the engine says that its Java runtime is one of the system.
    pub open spec fn uses_system_java(self) -> bool {
        self.shared.using_system_java
    }

    /// The observable state.
    pub fn state(&self) -> (res: EngineState)
        ensures
            res == self.observed(),
    {
        self.shared.get()
    }

    /// Whether LanguageTool is installed as configured, given whether the server jar exists and
    /// what the version file holds, where it can be read.
    pub fn is_installed(&self, jar_exists: bool, version: &Option<VersionJson>) -> (res: bool)
        ensures
            res == provision::installed(self.config, jar_exists, *version),
    {
        provision::is_installed(&self.config, jar_exists, version)
    }

    /// Whether the engine is ready and accepts checks.
    pub fn is_ready(&self) -> (res: bool)
        ensures
            res == self.accepts_checks(),
    {
        self.shared.is_ready()
    }

    /// Whether the engine was provisioned with a Java runtime of the system.
    pub fn using_system_java(&self) -> (res: bool)
        ensures
            res == self.uses_system_java(),
    {
        self.shared.using_system_java()
    }

    /// Begins to provision LanguageTool. The work to be done first is to create the data
    /// directory. What the engine shows does not change before it is known that LanguageTool is not
    /// installed yet.
    pub fn provision(&self, os: Os) -> (res: Provisioner)
        ensures
            res.begins_on(os),
            res.valid(),
    {
        Provisioner::new(os)
    }

    /// Whether provisioning leaves the engine in the state that fits its result: stopped after a
    /// success, unless it is running or starting by then, and the error after a failure.
    pub open spec fn provision_ended(self, result: Result<(), Error>, post: Self) -> bool {
        match result {
            Ok(_) => if self.shared.state == EngineState::Ready || self.shared.state
                == EngineState::Starting {
                post == self
            } else {
                post == self.in_state(EngineState::Stopped)
            },
            Err(e) => {
                &&& post == self.in_state(post.shared.state)
                &&& shows(post.shared.state, e)
            },
        }
    }

    /// Notes what came of provisioning.
    pub fn finish_provision(&mut self, result: &Result<(), Error>)
        requires
            old(self).valid(),
        ensures
            old(self).provision_ended(*result, *final(self)),
            final(self).valid(),
    {
        match result {
            Ok(_) => match self.shared.get() {
                EngineState::Ready | EngineState::Starting => {},
                _ => {
                    self.shared.set(EngineState::Stopped);
                },
            },
            Err(e) => {
                self.shared.set(EngineState::Error { message: e.to_string() });
            },
        }
    }

    /// Takes one step of provisioning. With the last one the engine takes the state that fits the
    /// result.
    pub fn advance_provision(&mut self, run: &mut Provisioner, event: Event) -> (res: Directive)
        requires
            old(self).valid(),
            old(run).valid(),
            old(run).fits(event),
        ensures
            final(self).valid(),
            final(run).valid(),
            final(self).config == old(self).config,
            final(self).server == old(self).server,
            provision_step(*old(self), *old(run), event, *final(self), *final(run), res),
    {
        let directive: Directive = run.advance(&self.config, &mut self.shared, event);
        let ghost between = self.shared;
        assert(old(run).step(old(self).config, old(self).shared, event, *run, between, directive));
        if let Action::Finish(result) = &directive.action {
            self.finish_provision(result);
        }
        directive
    }

    /// The engine once a start has begun. Where no Java runtime was chosen yet, as after the app was
    /// started anew, it is taken over from the version file.
    pub open spec fn starting(self, version: Option<VersionJson>) -> Self {
        (LanguageToolEngine {
            shared: if self.shared.java_path is None {
                provision::restored(self.shared, version)
            } else {
                self.shared
            },
            ..self
        }).in_state(EngineState::Starting)
    }

    /// Begins to start the server, if LanguageTool is installed. The work to be done first is to
    /// find a free port.
    pub fn start(&mut self, jar_exists: bool, version: Option<VersionJson>) -> (res: Result<
        StartFlow,
        Error,
    >)
        requires
            old(self).valid(),
        ensures
            start_begins(*old(self), jar_exists, version, *final(self), res),
            res matches Ok(flow) ==> flow.valid() && flow.runs_in(*final(self)),
            final(self).valid(),
    {
        if !self.is_installed(jar_exists, &version) {
            return Err(Error::Provision(String::from_str("call provision() before start()")));
        }
        if self.shared.java_path.is_none() {
            provision::restore_java_path(version, &mut self.shared);
        }
        self.shared.set(EngineState::Starting);
        Ok(
            StartFlow {
                stage: StartStage::AcquirePort,
                wait: ReadyWait {
                    port: 0,
                    timeout: self.config.startup_timeout,
                    stage: WaitStage::Clock,
                },
                failure: None,
            },
        )
    }

    fn start_failed(&mut self, flow: &mut StartFlow, e: Error) -> (res: StartAction)
        requires
            old(self).valid(),
        ensures
            start_ends(*old(self), *old(flow), e, *final(self), *final(flow), res),
            final(self).valid(),
    {
        self.shared.set(EngineState::Error { message: e.to_string() });
        flow.stage = StartStage::Done;
        StartAction::Finish(Err(e))
    }

    /// Takes one step of the start: notes what came of the work under way, brings the state of the
    /// engine up to date and says what is to be done next.
    pub fn advance_start(&mut self, flow: &mut StartFlow, event: StartEvent) -> (res: StartAction)
        requires
            old(self).valid(),
            old(flow).valid(),
            old(flow).fits(*old(self), event),
        ensures
            final(self).valid(),
            final(flow).valid(),
            start_step(*old(self), *old(flow), event, *final(self), *final(flow), res),
            old(flow).runs_in(*old(self)) ==> final(flow).runs_in(*final(self)),
    {
        match (flow.stage, event) {
            (StartStage::AcquirePort, StartEvent::Port(port)) => {
                match ServerProcess::spawn(&self.config, &self.shared, port) {
                    Ok(command) => {
                        flow.stage = StartStage::Launch;
                        flow.wait.port = port;
                        StartAction::Launch(command)
                    },
                    Err(e) => self.start_failed(flow, e),
                }
            },
            (StartStage::Launch, StartEvent::Launched) => {
                let server: ServerProcess = ServerProcess::spawned(
                    flow.wait.port,
                    &mut self.shared,
                );
                let port: u16 = server.port();
                self.server = Some(server);
                flow.wait = wait_for_ready(port, self.config.startup_timeout, &mut self.shared);
                flow.stage = StartStage::Wait;
                StartAction::Wait(WaitAction::ReadClock)
            },
            (StartStage::AcquirePort, StartEvent::Failed(e))
            | (StartStage::Launch, StartEvent::Failed(e)) => self.start_failed(flow, e),
            (StartStage::Wait, StartEvent::Wait(event)) => {
                match flow.wait.advance(&mut self.shared, event) {
                    WaitAction::Finish(Ok(_)) => {
                        flow.stage = StartStage::Done;
                        StartAction::Finish(Ok(()))
                    },
                    WaitAction::Finish(Err(e)) => {
                        self.shared.set(EngineState::Error { message: e.to_string() });
                        flow.failure = Some(e);
                        flow.stage = StartStage::StopServer;
                        StartAction::StopServer(self.server.take())
                    },
                    action => StartAction::Wait(action),
                }
            },
            (StartStage::StopServer, StartEvent::ServerStopped) => {
                flow.stage = StartStage::Done;
                StartAction::Finish(Err(flow.failure.take().unwrap()))
            },
            _ => StartAction::Unexpected,
        }
    }

    /// The engine once its server, where there was one, was handed over to be stopped.
    pub open spec fn handed_over(self) -> Self {
        LanguageToolEngine { server: None, ..self }
    }

    /// Whether the server of the engine, where there is one, is handed over to be stopped.
    pub open spec fn hands_over(self, server: Option<ServerProcess>, post: Self) -> bool {
        server == self.server && post == self.handed_over()
    }

    /// The engine once its server is stopped.
    pub open spec fn stopped(self) -> Self {
        self.in_state(EngineState::Stopped)
    }

    /// Begins to stop the server, where there is one: hands it over to be stopped.
    pub fn stop(&mut self) -> (res: Option<ServerProcess>)
        requires
            old(self).valid(),
        ensures
            old(self).hands_over(res, *final(self)),
            final(self).valid(),
    {
        self.server.take()
    }

    /// Notes that the server, if there was one, is stopped.
    pub fn finish_stop(&mut self)
        requires
            old(self).valid(),
        ensures
            *final(self) == old(self).stopped(),
            final(self).valid(),
    {
        self.shared.set(EngineState::Stopped);
    }

    /// The request that checks `text` for grammar errors in `language` (such as `en-US` or `es`).
    pub fn check(&self, text: &str, language: &str) -> (res: Result<CheckRequest, Error>)
        ensures
            checks(
                *self,
                text@,
                language@,
                Seq::<Seq<char>>::empty(),
                Seq::<Seq<char>>::empty(),
                res,
            ),
    {
        let none: Vec<String> = Vec::new();
        assert(text::texts(none@) =~= Seq::<Seq<char>>::empty());
        self.check_with_opts(text, language, none.as_slice(), none.as_slice())
    }

    /// The request that checks a text, with some rules and categories of rules switched off.
    pub fn check_with_opts(
        &self,
        text: &str,
        language: &str,
        disabled_rules: &[String],
        disabled_categories: &[String],
    ) -> (res: Result<CheckRequest, Error>)
        ensures
            checks(
                *self,
                text@,
                language@,
                text::texts(disabled_rules@),
                text::texts(disabled_categories@),
                res,
            ),
    {
        match self.shared.port() {
            None => Err(Error::NotReady { state: self.shared.get().to_string() }),
            Some(port) => LtClient::new(port).check(
                text,
                language,
                disabled_rules,
                disabled_categories,
                &self.shared,
            ),
        }
    }
}

/// Whether a start begins, as it does where LanguageTool is installed, or is refused.
pub open spec fn start_begins(
    before: LanguageToolEngine,
    jar_exists: bool,
    version: Option<VersionJson>,
    after: LanguageToolEngine,
    res: Result<StartFlow, Error>,
) -> bool {
    match res {
        Ok(flow) => {
            &&& provision::installed(before.config, jar_exists, version)
            &&& flow.is_begun()
            &&& after == before.starting(version)
        },
        Err(e) => {
            &&& !provision::installed(before.config, jar_exists, version)
            &&& after == before
            &&& e matches Error::Provision(reason)
            &&& reason@ == "call provision() before start()"@
        },
    }
}

/// One step of provisioning: the shared state is brought up to date, and with the last step the
/// engine takes the state that fits the result.
pub open spec fn provision_step(
    before: LanguageToolEngine,
    run: Provisioner,
    event: Event,
    after: LanguageToolEngine,
    post: Provisioner,
    out: Directive,
) -> bool {
    exists|between: SharedState|
        {
            &&& #[trigger] run.step(before.config, before.shared, event, post, between, out)
            &&& match out.action {
                Action::Finish(result) => (LanguageToolEngine {
                    shared: between,
                    ..before
                }).provision_ended(result, after),
                _ => after == LanguageToolEngine { shared: between, ..before },
            }
        }
}

/// What is owed to one who asks for a check: the request to the server, where the engine is ready
/// and the port of the server is known, and else at once the error that names the state.
pub open spec fn checks(
    engine: LanguageToolEngine,
    text: Seq<char>,
    language: Seq<char>,
    disabled_rules: Seq<Seq<char>>,
    disabled_categories: Seq<Seq<char>>,
    res: Result<CheckRequest, Error>,
) -> bool {
    match res {
        Ok(request) => {
            &&& engine.shared.state == EngineState::Ready
            &&& engine.shared.port matches Some(port)
            &&& client::is_check_request(
                request,
                port,
                text,
                language,
                disabled_rules,
                disabled_categories,
            )
        },
        Err(e) => {
            &&& engine.shared.state != EngineState::Ready || engine.shared.port is None
            &&& client::is_not_ready(e, engine.shared.state)
        },
    }
}

impl StartFlow {
    /// A start that has just begun, by looking for a free port.
    pub open spec fn is_begun(self) -> bool {
        self.stage == StartStage::AcquirePort
    }

    /// Whether a reason to fail is there exactly while a server is being stopped.
    pub open spec fn valid(self) -> bool {
        &&& self.stage == StartStage::StopServer <==> self.failure is Some
        &&& self.wait.timeout.valid()
    }

    /// Whether the engine is as the start left it. It is starting until the server is healthy. From
    /// its launch on, the server that is waited for is the one that the engine knows, at the port
    /// that was made known. One that did not become healthy was handed over to be stopped, and the
    /// engine shows why. In the end the engine is ready or shows an error.
    pub open spec fn runs_in(self, engine: LanguageToolEngine) -> bool {
        match self.stage {
            StartStage::AcquirePort => {
                &&& engine.shared.state == EngineState::Starting
                &&& engine.shared.java_path is Some
            },
            StartStage::Launch => {
                &&& engine.shared.state == EngineState::Starting
                &&& engine.shared.java_path is Some
            },
            StartStage::Wait => {
                &&& engine.shared.state == EngineState::Starting
                &&& engine.shared.port == Some(self.wait.port)
                &&& engine.server == Some(ServerProcess { port: self.wait.port })
                &&& self.wait.timeout == engine.config.startup_timeout
                &&& self.wait.stage != WaitStage::Done
            },
            StartStage::StopServer => {
                &&& self.failure matches Some(e)
                &&& shows(engine.shared.state, e)
                &&& engine.server is None
            },
            StartStage::Done => engine.shared.state == EngineState::Ready
                || engine.shared.state is Error,
        }
    }

    /// Whether a time that has passed is a proper length of time, and the port of the server that
    /// is waited for is known.
    pub open spec fn fits(self, engine: LanguageToolEngine, event: StartEvent) -> bool {
        &&& event matches StartEvent::Wait(event) ==> self.wait.fits(event)
        &&& self.stage == StartStage::Wait ==> engine.shared.port is Some
    }
}

/// Whether a start ends with that error, which the engine then shows.
pub open spec fn start_ends(
    before: LanguageToolEngine,
    flow: StartFlow,
    e: Error,
    after: LanguageToolEngine,
    post: StartFlow,
    action: StartAction,
) -> bool {
    &&& post == StartFlow { stage: StartStage::Done, ..flow }
    &&& after == before.in_state(after.shared.state)
    &&& shows(after.shared.state, e)
    &&& action == StartAction::Finish(Err(e))
}

/// One step of a start: what becomes of it and of the engine, and which work is to be done next,
/// once the work under way has come to `event`.
pub open spec fn start_step(
    before: LanguageToolEngine,
    flow: StartFlow,
    event: StartEvent,
    after: LanguageToolEngine,
    post: StartFlow,
    action: StartAction,
) -> bool {
    match (flow.stage, event) {
        (StartStage::AcquirePort, StartEvent::Port(port)) => match before.shared.java_path {
            Some(java) => {
                &&& after == before
                &&& post == StartFlow {
                    stage: StartStage::Launch,
                    wait: ReadyWait { port, ..flow.wait },
                    ..flow
                }
                &&& action matches StartAction::Launch(command)
                &&& lifecycle::is_launch(command, before.config, java, port)
            },
            None => {
                &&& action matches StartAction::Finish(Err(Error::Provision(reason)))
                &&& reason@ == "java path not set; call provision() first"@
                &&& start_ends(before, flow, Error::Provision(reason), after, post, action)
            },
        },
        (StartStage::Launch, StartEvent::Launched) => {
            let port = flow.wait.port;
            &&& after == LanguageToolEngine {
                shared: SharedState {
                    state: EngineState::Starting,
                    port: Some(port),
                    ..before.shared
                },
                server: Some(ServerProcess { port }),
                ..before
            }
            &&& post == StartFlow {
                stage: StartStage::Wait,
                wait: ReadyWait {
                    port,
                    timeout: before.config.startup_timeout,
                    stage: WaitStage::Clock,
                },
                ..flow
            }
            &&& action == StartAction::Wait(WaitAction::ReadClock)
        },
        (StartStage::AcquirePort, StartEvent::Failed(e))
        | (StartStage::Launch, StartEvent::Failed(e)) => start_ends(
            before,
            flow,
            e,
            after,
            post,
            action,
        ),
        (StartStage::Wait, StartEvent::Wait(event)) => match action {
            StartAction::Wait(next) => {
                &&& flow.wait.step(before.shared, event, post.wait, after.shared, next)
                &&& !(next is Finish)
                &&& post == StartFlow { wait: post.wait, ..flow }
                &&& after == LanguageToolEngine { shared: after.shared, ..before }
            },
            StartAction::Finish(Ok(_)) => {
                &&& flow.wait.step(
                    before.shared,
                    event,
                    post.wait,
                    after.shared,
                    WaitAction::Finish(Ok(())),
                )
                &&& post == StartFlow { stage: StartStage::Done, wait: post.wait, ..flow }
                &&& after == LanguageToolEngine { shared: after.shared, ..before }
            },
            StartAction::StopServer(server) => {
                &&& post.failure matches Some(e)
                &&& flow.wait.step(
                    before.shared,
                    event,
                    post.wait,
                    before.shared,
                    WaitAction::Finish(Err(e)),
                )
                &&& post == StartFlow {
                    stage: StartStage::StopServer,
                    wait: post.wait,
                    failure: Some(e),
                }
                &&& server == before.server
                &&& shows(after.shared.state, e)
                &&& after == LanguageToolEngine {
                    server: None,
                    ..before.in_state(after.shared.state)
                }
            },
            _ => false,
        },
        (StartStage::StopServer, StartEvent::ServerStopped) => {
            &&& flow.failure matches Some(e)
            &&& after == before
            &&& post == StartFlow { stage: StartStage::Done, failure: None, ..flow }
            &&& action == StartAction::Finish(Err(e))
        },
        _ => after == before && post == flow && action == StartAction::Unexpected,
    }
}

} // verus!
