use rust_languagetool::digest::{sha256_hex, verify_checksum};
use rust_languagetool::layout::InstallPath;
use rust_languagetool::state::{EngineState, SharedState};
use rust_languagetool::text::{format_u64, join};
use rust_languagetool::Error;

#[test]
fn names_of_the_states() {
    assert_eq!(EngineState::NotInstalled.to_string(), "not_installed");
    assert_eq!(
        EngineState::Downloading { downloaded: 12, total: Some(3400) }.to_string(),
        "downloading (12/3400 bytes)"
    );
    assert_eq!(EngineState::Downloading { downloaded: 0, total: None }.to_string(), "downloading (0 bytes)");
    assert_eq!(EngineState::Installing.to_string(), "installing");
    assert_eq!(EngineState::Starting.to_string(), "starting");
    assert_eq!(EngineState::Ready.to_string(), "ready");
    assert_eq!(EngineState::Stopped.to_string(), "stopped");
    assert_eq!(EngineState::Error { message: "no disk".to_string() }.to_string(), "error: no disk");
}

#[test]
fn no_two_states_print_alike() {
    let states = vec![
        EngineState::NotInstalled,
        EngineState::Downloading { downloaded: 1, total: None },
        EngineState::Downloading { downloaded: 1, total: Some(2) },
        EngineState::Downloading { downloaded: 12, total: None },
        EngineState::Downloading { downloaded: 1, total: Some(20) },
        EngineState::Installing,
        EngineState::Starting,
        EngineState::Ready,
        EngineState::Stopped,
        EngineState::Error { message: "".to_string() },
        EngineState::Error { message: "ready".to_string() },
    ];
    for (i, a) in states.iter().enumerate() {
        for (j, b) in states.iter().enumerate() {
            assert_eq!(a.to_string() == b.to_string(), i == j);
        }
    }
}

#[test]
fn messages_of_the_errors() {
    let cases = vec![
        (Error::NotReady { state: "stopped".to_string() }, "engine not ready (state: stopped)"),
        (Error::Provision("why".to_string()), "provisioning failed: why"),
        (
            Error::ChecksumMismatch { expected: "aa".to_string(), actual: "bb".to_string() },
            "checksum mismatch: expected aa, got bb",
        ),
        (
            Error::NoJavaRuntime,
            "no usable Java runtime found (need ≥17); provide via JAVA_HOME or PATH, or configure a JRE download URL",
        ),
        (Error::StartupTimeout { seconds: 30 }, "server startup timed out after 30s"),
        (Error::ServerCrashed, "server process exited unexpectedly"),
        (Error::Io("e".to_string()), "IO error: e"),
        (Error::Http("e".to_string()), "HTTP error: e"),
        (Error::Json("e".to_string()), "JSON error: e"),
        (Error::Zip("e".to_string()), "zip error: e"),
    ];
    for (error, message) in cases {
        assert_eq!(error.to_string(), message);
        assert_eq!(error.clone().to_string(), message);
    }
}

#[test]
fn shared_state_holds_what_is_set() {
    let mut shared = SharedState::new();
    assert_eq!(shared.get(), EngineState::NotInstalled);
    assert_eq!(shared.port(), None);
    assert!(shared.java_path().is_none());
    assert!(!shared.using_system_java());
    shared.set(EngineState::Error { message: "m".to_string() });
    shared.set_port(4000);
    shared.set_java(InstallPath::new("/usr/bin/java"), true);
    assert_eq!(shared.get(), EngineState::Error { message: "m".to_string() });
    assert_eq!(shared.port(), Some(4000));
    assert_eq!(shared.java_path().unwrap().parts, vec!["/usr/bin/java"]);
    assert!(shared.using_system_java());
    assert!(!shared.is_ready());
    shared.set(EngineState::Ready);
    assert!(shared.is_ready());
    assert_eq!(shared.port(), Some(4000));
    shared.set_java(InstallPath::new("jre/bin/java"), false);
    assert!(!shared.using_system_java());
}

#[test]
fn numbers_in_base_ten() {
    assert_eq!(format_u64(0), "0");
    assert_eq!(format_u64(10), "10");
    assert_eq!(format_u64(9876543210), "9876543210");
    assert_eq!(format_u64(u64::MAX), "18446744073709551615");
}

#[test]
fn lists_with_separators() {
    assert_eq!(join(&[], ","), "");
    assert_eq!(join(&["a".to_string()], ","), "a");
    assert_eq!(join(&["a".to_string(), "".to_string(), "c".to_string()], ", "), "a, , c");
}

#[test]
fn digest_of_known_data() {
    assert_eq!(sha256_hex(b"abc"), "ba7816bf8f01cfea414140de5dae2223b00361a396177a9cb410ff61f20015ad");
    assert_eq!(sha256_hex(b""), "e3b0c44298fc1c149afbf4c8996fb92427ae41e4649b934ca495991b7852b855");
}

#[test]
fn checksum_is_compared_letter_for_letter() {
    let sha = "ba7816bf8f01cfea414140de5dae2223b00361a396177a9cb410ff61f20015ad".to_string();
    assert!(verify_checksum(&sha, sha256_hex(b"abc")).is_ok());
    match verify_checksum(&sha, sha256_hex(b"abd")) {
        Err(Error::ChecksumMismatch { expected, actual }) => {
            assert_eq!(expected, sha);
            assert_eq!(actual, sha256_hex(b"abd"));
        }
        other => panic!("expected a mismatch, got {:?}", other),
    }
    assert!(verify_checksum(&sha.to_uppercase(), sha256_hex(b"abc")).is_err());
}
