use rust_languagetool::config::{Arch, Os, Platform, Span};
use rust_languagetool::engine::{StartAction, StartEvent, StartFlow};
use rust_languagetool::layout::InstallPath;
use rust_languagetool::lifecycle::{ChildStatus, ServerProcess, StopStep, WaitAction, WaitEvent};
use rust_languagetool::state::SharedState;
use rust_languagetool::task::{Action, Arg, Event, VersionJson};
use rust_languagetool::{EngineConfig, EngineState, Error, LanguageToolEngine};

const LINUX: Platform = Platform { os: Os::Linux, arch: Arch::X86_64 };

fn test_config() -> EngineConfig {
    EngineConfig::new(InstallPath::new("/tmp/lt"), "6.6", "https://example.com/lt.zip", "deadbeef", LINUX)
}

fn version() -> Option<VersionJson> {
    Some(VersionJson {
        lt_version: "6.6".to_string(),
        lt_sha256: "deadbeef".to_string(),
        java_path: InstallPath::new("/usr/bin/java"),
        using_system_java: true,
    })
}

fn provisioned() -> LanguageToolEngine {
    let mut engine = LanguageToolEngine::new(test_config());
    let mut run = engine.provision(Os::Linux);
    engine.advance_provision(&mut run, Event::Done);
    engine.advance_provision(&mut run, Event::Done);
    engine.advance_provision(&mut run, Event::Installation { jar_exists: true, version: version() });
    let last = engine.advance_provision(&mut run, Event::Version(version()));
    assert!(matches!(last.action, Action::Finish(Ok(()))));
    engine
}

fn waiting() -> (LanguageToolEngine, StartFlow) {
    let mut engine = provisioned();
    let mut flow = engine.start(true, version()).unwrap();
    assert_eq!(engine.state(), EngineState::Starting);
    assert!(matches!(engine.advance_start(&mut flow, StartEvent::Port(4321)), StartAction::Launch(_)));
    assert!(matches!(
        engine.advance_start(&mut flow, StartEvent::Launched),
        StartAction::Wait(WaitAction::ReadClock)
    ));
    (engine, flow)
}

fn started() -> LanguageToolEngine {
    let (mut engine, mut flow) = waiting();
    let clock = StartEvent::Wait(WaitEvent::Elapsed(Span { secs: 0, nanos: 5 }));
    engine.advance_start(&mut flow, clock);
    let action = engine.advance_start(&mut flow, StartEvent::Wait(WaitEvent::Response(200)));
    assert!(matches!(action, StartAction::Finish(Ok(()))));
    engine
}

#[test]
fn check_before_ready_returns_not_ready() {
    let engine = LanguageToolEngine::new(test_config());
    match engine.check("hello", "en-US").unwrap_err() {
        Error::NotReady { state } => assert_eq!(state, "not_installed"),
        other => panic!("expected NotReady, got {:?}", other),
    }
}

#[test]
fn state_starts_not_installed() {
    let engine = LanguageToolEngine::new(test_config());
    assert_eq!(engine.state(), EngineState::NotInstalled);
    assert!(!engine.is_installed(false, &None));
    assert!(!engine.is_ready());
    assert!(!engine.using_system_java());
}

#[test]
fn provision_fails_on_bad_url() {
    let mut engine = LanguageToolEngine::new(test_config());
    let mut run = engine.provision(Os::Linux);
    engine.advance_provision(&mut run, Event::Done);
    engine.advance_provision(&mut run, Event::Done);
    assert_eq!(engine.state(), EngineState::NotInstalled);
    engine.advance_provision(&mut run, Event::Installation { jar_exists: false, version: None });
    assert_eq!(engine.state(), EngineState::Downloading { downloaded: 0, total: None });
    engine.advance_provision(&mut run, Event::JavaHome(None));
    let output = rust_languagetool::java::JavaOutput { stderr: b"\"17\"".to_vec(), stdout: Vec::new() };
    engine.advance_provision(&mut run, Event::Probed { output: Some(output) });
    let last = engine.advance_provision(&mut run, Event::Failed(Error::Http("404".to_string())));
    assert!(matches!(last.action, Action::Finish(Err(_))));
    assert_eq!(engine.state(), EngineState::Error { message: "HTTP error: 404".to_string() });
}

#[test]
fn provision_ends_stopped() {
    let engine = provisioned();
    assert_eq!(engine.state(), EngineState::Stopped);
    assert!(engine.using_system_java());
    assert!(engine.is_installed(true, &version()));
}

#[test]
fn provision_of_what_is_installed_leaves_a_ready_engine_ready() {
    let mut engine = started();
    let mut run = engine.provision(Os::Linux);
    engine.advance_provision(&mut run, Event::Done);
    engine.advance_provision(&mut run, Event::Done);
    engine.advance_provision(&mut run, Event::Installation { jar_exists: true, version: version() });
    let last = engine.advance_provision(&mut run, Event::Version(version()));
    assert!(matches!(last.action, Action::Finish(Ok(()))));
    assert!(last.report.is_none());
    assert_eq!(engine.state(), EngineState::Ready);
    assert!(engine.check("hello", "en-US").is_ok());
    assert_eq!(engine.stop().unwrap().port(), 4321);
}

#[test]
fn provision_leaves_a_running_engine_alone_at_its_end() {
    let mut engine = started();
    engine.finish_provision(&Ok(()));
    assert_eq!(engine.state(), EngineState::Ready);
    engine.finish_provision(&Err(Error::NoJavaRuntime));
    assert!(matches!(engine.state(), EngineState::Error { .. }));
}

#[test]
fn start_needs_an_installation() {
    let mut engine = LanguageToolEngine::new(test_config());
    let error = engine.start(false, None).unwrap_err();
    assert_eq!(error.to_string(), "provisioning failed: call provision() before start()");
    assert_eq!(engine.state(), EngineState::NotInstalled);
}

#[test]
fn start_after_an_app_restart() {
    let mut engine = LanguageToolEngine::new(test_config());
    let mut flow = engine.start(true, version()).unwrap();
    assert_eq!(engine.state(), EngineState::Starting);
    assert!(engine.using_system_java());
    match engine.advance_start(&mut flow, StartEvent::Port(4321)) {
        StartAction::Launch(command) => assert_eq!(command.program.parts, vec!["/usr/bin/java"]),
        other => panic!("expected a launch, got {:?}", other),
    }
}

#[test]
fn start_keeps_the_runtime_that_was_chosen() {
    let mut engine = LanguageToolEngine::new(test_config());
    engine.shared.set_java(InstallPath::new("/jdk").join("java"), false);
    let mut flow = engine.start(true, version()).unwrap();
    assert!(!engine.using_system_java());
    match engine.advance_start(&mut flow, StartEvent::Port(4321)) {
        StartAction::Launch(command) => assert_eq!(command.program.parts, vec!["/jdk", "java"]),
        other => panic!("expected a launch, got {:?}", other),
    }
}

#[test]
fn spawn_needs_a_java_runtime() {
    let error = ServerProcess::spawn(&test_config(), &SharedState::new(), 4321).unwrap_err();
    assert_eq!(error.to_string(), "provisioning failed: java path not set; call provision() first");
}

#[test]
fn launch_command() {
    let mut engine = provisioned();
    let mut flow = engine.start(true, version()).unwrap();
    let command = match engine.advance_start(&mut flow, StartEvent::Port(4321)) {
        StartAction::Launch(command) => command,
        other => panic!("expected a launch, got {:?}", other),
    };
    assert_eq!(command.program.parts, vec!["/usr/bin/java"]);
    let shown: Vec<String> = command
        .args
        .iter()
        .map(|arg| match arg {
            Arg::Text(text) => text.clone(),
            Arg::Path(path) => path.parts.join("/"),
        })
        .collect();
    assert_eq!(
        shown,
        vec![
            "-cp",
            "/tmp/lt/dist/LanguageTool-6.6/languagetool-server.jar",
            "org.languagetool.server.HTTPServer",
            "--port",
            "4321",
            "--allow-origin",
            "*",
        ]
    );
}

#[test]
fn spawn_failure_is_shown() {
    let mut engine = provisioned();
    let mut flow = engine.start(true, version()).unwrap();
    engine.advance_start(&mut flow, StartEvent::Port(4321));
    let action = engine.advance_start(&mut flow, StartEvent::Failed(Error::Io("no exec".to_string())));
    assert!(matches!(action, StartAction::Finish(Err(Error::Io(_)))));
    assert_eq!(engine.state(), EngineState::Error { message: "IO error: no exec".to_string() });
    assert!(matches!(engine.advance_start(&mut flow, StartEvent::Launched), StartAction::Unexpected));
}

#[test]
fn provision_start_check_stop() {
    let mut engine = started();
    assert_eq!(engine.state(), EngineState::Ready);
    assert!(engine.is_ready());
    let request = engine.check("I goes to school every day.", "en-US").unwrap();
    assert_eq!(request.url, "http://127.0.0.1:4321/v2/check");
    assert_eq!(request.params.len(), 2);
    let rules = vec!["A".to_string(), "B".to_string()];
    let request = engine.check_with_opts("t", "es", &rules, &[]).unwrap();
    assert_eq!(request.params[2], ("disabledRules".to_string(), "A,B".to_string()));
    assert_eq!(engine.stop().unwrap().port(), 4321);
    engine.finish_stop();
    assert_eq!(engine.state(), EngineState::Stopped);
}

#[test]
fn no_check_after_stop() {
    let mut engine = started();
    engine.stop();
    engine.finish_stop();
    match engine.check("hello", "en-US") {
        Err(Error::NotReady { state }) => assert_eq!(state, "stopped"),
        other => panic!("expected NotReady after stop, got {:?}", other),
    }
    assert!(engine.stop().is_none());
    engine.finish_stop();
    assert_eq!(engine.state(), EngineState::Stopped);
}

#[test]
fn wait_polls_until_healthy() {
    let (mut engine, mut flow) = waiting();
    let clock = StartEvent::Wait(WaitEvent::Elapsed(Span { secs: 29, nanos: 999_999_999 }));
    match engine.advance_start(&mut flow, clock) {
        StartAction::Wait(WaitAction::Poll { url, timeout_secs }) => {
            assert_eq!(url, "http://127.0.0.1:4321/v2/languages");
            assert_eq!(timeout_secs, 2);
        }
        other => panic!("expected a poll, got {:?}", other),
    }
    let action = engine.advance_start(&mut flow, StartEvent::Wait(WaitEvent::Response(503)));
    assert!(matches!(action, StartAction::Wait(WaitAction::Sleep { millis: 500 })));
    assert_eq!(engine.state(), EngineState::Starting);
    let action = engine.advance_start(&mut flow, StartEvent::Wait(WaitEvent::Slept));
    assert!(matches!(action, StartAction::Wait(WaitAction::ReadClock)));
    engine.advance_start(&mut flow, StartEvent::Wait(WaitEvent::Elapsed(Span { secs: 1, nanos: 0 })));
    let action = engine.advance_start(&mut flow, StartEvent::Wait(WaitEvent::NoResponse));
    assert!(matches!(action, StartAction::Wait(WaitAction::Sleep { millis: 500 })));
}

#[test]
fn only_the_status_200_is_healthy() {
    for status in [201, 204, 299, 301, 404, 503] {
        let (mut engine, mut flow) = waiting();
        engine.advance_start(&mut flow, StartEvent::Wait(WaitEvent::Elapsed(Span { secs: 0, nanos: 0 })));
        let action = engine.advance_start(&mut flow, StartEvent::Wait(WaitEvent::Response(status)));
        assert!(matches!(action, StartAction::Wait(WaitAction::Sleep { millis: 500 })));
        assert_eq!(engine.state(), EngineState::Starting);
    }
}

#[test]
fn timeout_stops_the_server() {
    let (mut engine, mut flow) = waiting();
    let clock = StartEvent::Wait(WaitEvent::Elapsed(Span { secs: 30, nanos: 0 }));
    match engine.advance_start(&mut flow, clock) {
        StartAction::StopServer(Some(server)) => assert_eq!(server.port, 4321),
        other => panic!("expected a stop, got {:?}", other),
    }
    assert_eq!(
        engine.state(),
        EngineState::Error { message: "server startup timed out after 30s".to_string() }
    );
    let action = engine.advance_start(&mut flow, StartEvent::ServerStopped);
    assert!(matches!(action, StartAction::Finish(Err(Error::StartupTimeout { seconds: 30 }))));
}

#[test]
fn steps_that_stop_the_server() {
    let server = ServerProcess { port: 4321 };
    let steps = server.stop(true);
    assert_eq!(steps.len(), 4);
    match &steps[0] {
        StopStep::Quit { url, timeout_secs } => {
            assert_eq!(url, "http://127.0.0.1:4321/v2/quit");
            assert_eq!(*timeout_secs, 3);
        }
        other => panic!("expected the request to quit, got {:?}", other),
    }
    assert!(matches!(steps[1], StopStep::Sleep { millis: 800 }));
    assert!(matches!(steps[2], StopStep::Kill));
    assert!(matches!(steps[3], StopStep::Wait));
    assert!(server.stop(false).is_empty());
}

#[test]
fn child_that_cannot_be_told_counts_as_exited() {
    assert!(!ServerProcess::has_exited(ChildStatus::Running));
    assert!(ServerProcess::has_exited(ChildStatus::Exited));
    assert!(ServerProcess::has_exited(ChildStatus::Unknown));
    assert!(ServerProcess::has_exited(ChildStatus::Absent));
}
