use rust_languagetool::config::{Arch, Os, Platform};
use rust_languagetool::digest::sha256_hex;
use rust_languagetool::java::JavaOutput;
use rust_languagetool::layout::{Asset, InstallPath};
use rust_languagetool::provision::{is_installed, restore_java_path, Provisioner};
use rust_languagetool::resolve::java_candidates;
use rust_languagetool::state::{EngineState, SharedState};
use rust_languagetool::task::{
    archive_kind, find_java_binary, tar_args, tar_result, Action, ArchiveKind, Arg, Event, VersionJson,
};
use rust_languagetool::unzip::{EntryStep, UnzipAction, UnzipEvent, Unzipper};
use rust_languagetool::{EngineConfig, Error};

const LINUX: Platform = Platform { os: Os::Linux, arch: Arch::X86_64 };

fn config(sha: &str) -> EngineConfig {
    EngineConfig::new(InstallPath::new("/data"), "6.6", "https://example.com/lt.zip", sha, LINUX)
}

fn version(lt_version: &str, sha: &str) -> VersionJson {
    VersionJson {
        lt_version: lt_version.to_string(),
        lt_sha256: sha.to_string(),
        java_path: InstallPath::new("/opt/java"),
        using_system_java: true,
    }
}

fn parts(path: Option<InstallPath>) -> Vec<String> {
    path.expect("a path").parts
}

fn java(text: &str) -> Option<JavaOutput> {
    Some(JavaOutput { stderr: text.as_bytes().to_vec(), stdout: Vec::new() })
}

struct Run {
    cfg: EngineConfig,
    shared: SharedState,
    provisioner: Provisioner,
    reports: Vec<EngineState>,
}

impl Run {
    fn new(cfg: EngineConfig) -> Run {
        Run { cfg, shared: SharedState::new(), provisioner: Provisioner::new(Os::Linux), reports: Vec::new() }
    }

    fn tell(&mut self, event: Event) -> Action {
        let directive = self.provisioner.advance(&self.cfg, &mut self.shared, event);
        if let Some(report) = directive.report {
            self.reports.push(report);
        }
        directive.action
    }

    fn to_java(&mut self) {
        assert!(matches!(self.tell(Event::Done), Action::TakeLock));
        assert!(matches!(self.tell(Event::Done), Action::InspectInstall));
        let action = self.tell(Event::Installation { jar_exists: false, version: None });
        assert!(matches!(action, Action::ReadJavaHome));
    }

    fn to_download(&mut self) {
        self.to_java();
        assert!(matches!(self.tell(Event::JavaHome(None)), Action::ProbeOnPath(_)));
        match self.tell(Event::Probed { output: java("\"17.0.2\"") }) {
            Action::Download { url, dest } => {
                assert_eq!(url, "https://example.com/lt.zip");
                assert_eq!(dest, Asset::LtPart);
            }
            other => panic!("expected a download, got {:?}", other),
        }
    }

    fn install(&mut self) {
        assert!(matches!(self.tell(Event::Done), Action::CreateDir(Asset::Dist)));
        assert!(matches!(
            self.tell(Event::Done),
            Action::Unzip { archive: Asset::LtZip, dest: Asset::Dist }
        ));
        assert!(matches!(self.tell(Event::Done), Action::RemoveFile(Asset::LtZip)));
    }
}

#[test]
fn is_installed_missing_jar() {
    let cfg = config("abc123");
    assert!(!is_installed(&cfg, false, &Some(version("6.6", "abc123"))));
    assert!(!is_installed(&cfg, false, &None));
}

#[test]
fn is_installed_compares_version_and_digest() {
    let cfg = config("abc123");
    assert!(is_installed(&cfg, true, &Some(version("6.6", "abc123"))));
    assert!(!is_installed(&cfg, true, &None));
    assert!(!is_installed(&cfg, true, &Some(version("6.5", "abc123"))));
    assert!(!is_installed(&cfg, true, &Some(version("6.6", "other"))));
    assert!(is_installed(&config(""), true, &Some(version("6.6", "other"))));
}

#[test]
fn java_is_restored_from_the_version_file() {
    let mut shared = SharedState::new();
    restore_java_path(None, &mut shared);
    assert!(shared.java_path().is_none());
    restore_java_path(Some(version("6.6", "")), &mut shared);
    assert_eq!(parts(shared.java_path()), vec!["/opt/java"]);
    assert!(shared.using_system_java());
    assert_eq!(shared.get(), EngineState::NotInstalled);
}

#[test]
fn installed_is_a_fast_no_op() {
    let mut run = Run::new(config("abc123"));
    run.tell(Event::Done);
    run.tell(Event::Failed(Error::Io("lock".to_string())));
    let action = run.tell(Event::Installation { jar_exists: true, version: Some(version("6.6", "abc123")) });
    assert!(matches!(action, Action::ReadVersion));
    let action = run.tell(Event::Version(Some(version("6.6", "abc123"))));
    assert!(matches!(action, Action::Finish(Ok(()))));
    assert_eq!(parts(run.shared.java_path()), vec!["/opt/java"]);
    assert!(run.reports.is_empty());
}

#[test]
fn full_provision_with_digest() {
    let mut run = Run::new(config(&sha256_hex(b"zip")));
    run.to_download();
    assert_eq!(parts(run.shared.java_path()), vec!["java"]);
    assert!(run.shared.using_system_java());
    assert!(matches!(run.tell(Event::Headers { total: Some(3) }), Action::Receive));
    assert!(matches!(run.tell(Event::Chunk { len: 1 }), Action::Receive));
    assert_eq!(run.shared.get(), EngineState::Downloading { downloaded: 1, total: Some(3) });
    assert!(matches!(run.tell(Event::Chunk { len: 2 }), Action::Receive));
    assert!(matches!(run.tell(Event::End), Action::ReadFile(Asset::LtPart)));
    assert_eq!(run.shared.get(), EngineState::Installing);
    assert!(matches!(
        run.tell(Event::Bytes(b"zip".to_vec())),
        Action::Rename { from: Asset::LtPart, to: Asset::LtZip }
    ));
    run.install();
    match run.tell(Event::Done) {
        Action::WriteVersion(record) => {
            assert_eq!(record.lt_version, "6.6");
            assert_eq!(record.lt_sha256, sha256_hex(b"zip"));
            assert_eq!(record.java_path.parts, vec!["java"]);
            assert!(record.using_system_java);
            assert!(is_installed(&run.cfg, true, &Some(record)));
            let shared = &run.shared;
            assert_eq!(parts(shared.java_path()), vec!["java"]);
            assert!(shared.using_system_java());
        }
        other => panic!("expected the version file, got {:?}", other),
    }
    assert!(matches!(run.tell(Event::Done), Action::Finish(Ok(()))));
    assert_eq!(
        run.reports,
        vec![
            EngineState::Downloading { downloaded: 1, total: Some(3) },
            EngineState::Downloading { downloaded: 3, total: Some(3) },
            EngineState::Installing,
        ]
    );
}

#[test]
fn empty_digest_skips_verification() {
    let mut run = Run::new(config(""));
    run.to_download();
    run.tell(Event::Headers { total: None });
    assert!(matches!(
        run.tell(Event::End),
        Action::Rename { from: Asset::LtPart, to: Asset::LtZip }
    ));
    assert_eq!(run.reports, vec![EngineState::Installing]);
    run.install();
    assert!(matches!(run.tell(Event::Failed(Error::Io("busy".to_string()))), Action::WriteVersion(_)));
}

#[test]
fn mismatch_is_removed_and_refused() {
    let mut run = Run::new(config("deadbeef"));
    run.to_download();
    run.tell(Event::End);
    assert!(matches!(run.tell(Event::Bytes(b"zip".to_vec())), Action::RemoveFile(Asset::LtPart)));
    match run.tell(Event::Failed(Error::Io("gone".to_string()))) {
        Action::Finish(Err(Error::ChecksumMismatch { expected, actual })) => {
            assert_eq!(expected, "deadbeef");
            assert_eq!(actual, sha256_hex(b"zip"));
        }
        other => panic!("expected a mismatch, got {:?}", other),
    }
}

#[test]
fn failures_end_the_run() {
    let mut first = Run::new(config(""));
    assert!(matches!(
        first.tell(Event::Failed(Error::Io("read-only".to_string()))),
        Action::Finish(Err(Error::Io(_)))
    ));
    let mut download = Run::new(config(""));
    download.to_download();
    assert!(matches!(
        download.tell(Event::Failed(Error::Http("404".to_string()))),
        Action::Finish(Err(Error::Http(_)))
    ));
    assert!(matches!(download.tell(Event::Done), Action::Unexpected));
    let mut unzip = Run::new(config(""));
    unzip.to_download();
    unzip.tell(Event::End);
    unzip.tell(Event::Done);
    unzip.tell(Event::Done);
    assert!(matches!(
        unzip.tell(Event::Failed(Error::Zip("bad".to_string()))),
        Action::Finish(Err(Error::Zip(_)))
    ));
}

#[test]
fn unexpected_events_change_nothing() {
    let mut run = Run::new(config(""));
    assert!(matches!(run.tell(Event::End), Action::Unexpected));
    assert!(matches!(run.tell(Event::Chunk { len: 9 }), Action::Unexpected));
    run.to_java();
    assert!(matches!(run.tell(Event::Done), Action::Unexpected));
    assert!(matches!(run.tell(Event::JavaHome(None)), Action::ProbeOnPath(_)));
}

#[test]
fn java_home_is_preferred() {
    let mut run = Run::new(config(""));
    run.to_java();
    match run.tell(Event::JavaHome(Some("/jdk".to_string()))) {
        Action::Probe(path) => assert_eq!(path.parts, vec!["/jdk", "bin", "java"]),
        other => panic!("expected a probe, got {:?}", other),
    }
    let action = run.tell(Event::Probed { output: java("\"21\"") });
    assert!(matches!(action, Action::Download { dest: Asset::LtPart, .. }));
    assert_eq!(parts(run.shared.java_path()), vec!["/jdk", "bin", "java"]);
    assert!(run.shared.using_system_java());
}

fn to_jre_probe(run: &mut Run) {
    run.to_java();
    run.tell(Event::JavaHome(Some("/jdk".to_string())));
    let action = run.tell(Event::Probed { output: java("\"1.8.0\"") });
    match action {
        Action::ProbeOnPath(name) => assert_eq!(name, "java"),
        other => panic!("expected a probe, got {:?}", other),
    }
    match run.tell(Event::Probed { output: java("\"16.9\"") }) {
        Action::Probe(path) => assert_eq!(path.parts, vec!["/data", "jre", "bin", "java"]),
        other => panic!("expected a probe, got {:?}", other),
    }
}

#[test]
fn downloaded_runtime_is_used_again() {
    let mut run = Run::new(config(""));
    to_jre_probe(&mut run);
    run.tell(Event::Probed { output: java("\"17\"") });
    assert_eq!(parts(run.shared.java_path()), vec!["/data", "jre", "bin", "java"]);
    assert!(!run.shared.using_system_java());
}

#[test]
fn no_java_and_no_url() {
    let mut cfg = config("");
    cfg.jre_download_url = None;
    let mut run = Run::new(cfg);
    to_jre_probe(&mut run);
    let action = run.tell(Event::Probed { output: None });
    assert!(matches!(action, Action::Finish(Err(Error::NoJavaRuntime))));
}

fn to_jre_download(run: &mut Run) {
    to_jre_probe(run);
    let action = run.tell(Event::Probed { output: None });
    assert!(matches!(action, Action::Download { dest: Asset::JreArchive, .. }));
    assert!(run.reports.is_empty());
    run.tell(Event::Headers { total: Some(2) });
    run.tell(Event::Chunk { len: 1 });
    run.tell(Event::Chunk { len: 1 });
    assert_eq!(
        run.reports,
        vec![
            EngineState::Downloading { downloaded: 1, total: Some(2) },
            EngineState::Downloading { downloaded: 2, total: Some(2) },
        ]
    );
    assert_eq!(run.shared.get(), EngineState::Downloading { downloaded: 2, total: Some(2) });
}

#[test]
fn runtime_is_downloaded_and_found() {
    let mut run = Run::new(config(""));
    to_jre_download(&mut run);
    assert!(matches!(run.tell(Event::End), Action::CreateDir(Asset::Jre)));
    assert!(matches!(
        run.tell(Event::Done),
        Action::Unpack { kind: ArchiveKind::TarGz, archive: Asset::JreArchive, dest: Asset::Jre }
    ));
    assert!(matches!(run.tell(Event::Done), Action::RemoveFile(Asset::JreArchive)));
    assert!(matches!(run.tell(Event::Done), Action::ListDir(Asset::Jre)));
    match run.tell(Event::Entries(vec!["lib".to_string(), "jdk".to_string()])) {
        Action::FindJava(places) => {
            assert_eq!(places.len(), 3);
            assert_eq!(places[0].parts, vec!["/data", "jre", "bin", "java"]);
            assert_eq!(places[1].parts, vec!["/data", "jre", "lib", "bin", "java"]);
            assert_eq!(places[2].parts, vec!["/data", "jre", "jdk", "bin", "java"]);
        }
        other => panic!("expected a search, got {:?}", other),
    }
    let found = Event::Existing(vec![false, false, true]);
    assert!(matches!(run.tell(found), Action::Download { dest: Asset::LtPart, .. }));
    assert_eq!(parts(run.shared.java_path()), vec!["/data", "jre", "jdk", "bin", "java"]);
    assert!(!run.shared.using_system_java());
}

#[test]
fn runtime_is_unpacked_as_its_url_says() {
    let cases = vec![
        ("https://example.com/jre.zip", ArchiveKind::Zip),
        ("https://example.com/jre.tar.gz", ArchiveKind::TarGz),
        ("https://example.com/zip", ArchiveKind::TarGz),
    ];
    for (url, expected) in cases {
        let mut cfg = config("");
        cfg.jre_download_url = Some(url.to_string());
        let mut run = Run::new(cfg);
        to_jre_download(&mut run);
        run.tell(Event::End);
        match run.tell(Event::Done) {
            Action::Unpack { kind, archive, dest } => {
                assert_eq!(kind, expected);
                assert_eq!(archive, Asset::JreArchive);
                assert_eq!(dest, Asset::Jre);
            }
            other => panic!("expected an archive to be unpacked, got {:?}", other),
        }
    }
}

#[test]
fn runtime_without_a_binary() {
    let mut run = Run::new(config(""));
    to_jre_download(&mut run);
    run.tell(Event::End);
    run.tell(Event::Done);
    run.tell(Event::Done);
    run.tell(Event::Done);
    assert!(matches!(run.tell(Event::Entries(Vec::new())), Action::FindJava(_)));
    let action = run.tell(Event::Existing(vec![false]));
    assert!(matches!(action, Action::Finish(Err(Error::NoJavaRuntime))));
}

#[test]
fn runtime_with_another_digest_is_refused() {
    let mut cfg = config("");
    cfg.jre_sha256 = Some("00".to_string());
    let mut run = Run::new(cfg);
    to_jre_download(&mut run);
    assert!(matches!(run.tell(Event::End), Action::ReadFile(Asset::JreArchive)));
    assert!(matches!(run.tell(Event::Bytes(vec![1, 2])), Action::RemoveFile(Asset::JreArchive)));
    match run.tell(Event::Done) {
        Action::Finish(Err(Error::ChecksumMismatch { expected, actual })) => {
            assert_eq!(expected, "00");
            assert_eq!(actual, sha256_hex(&[1, 2]));
        }
        other => panic!("expected a mismatch, got {:?}", other),
    }
}

#[test]
fn runtime_with_the_right_digest_is_unpacked() {
    let mut cfg = config("");
    cfg.jre_sha256 = Some(sha256_hex(&[1, 2]));
    let mut run = Run::new(cfg);
    to_jre_download(&mut run);
    run.tell(Event::End);
    assert!(matches!(run.tell(Event::Bytes(vec![1, 2])), Action::CreateDir(Asset::Jre)));
}

#[test]
fn first_candidate_that_exists() {
    let places = vec![InstallPath::new("a"), InstallPath::new("b")];
    assert_eq!(parts(find_java_binary(&places, &vec![true, true])), vec!["a"]);
    assert_eq!(parts(find_java_binary(&places, &vec![false, true])), vec!["b"]);
    assert!(find_java_binary(&places, &vec![false, false]).is_none());
    assert!(find_java_binary(&places, &vec![false]).is_none());
    assert!(find_java_binary(&Vec::new(), &vec![true]).is_none());
}

#[test]
fn runtime_is_looked_for_in_its_directory_first() {
    let jre = InstallPath::new("/jre");
    let none = java_candidates(&jre, &Vec::new(), Os::Linux);
    assert_eq!(none.len(), 1);
    assert_eq!(none[0].parts, vec!["/jre", "bin", "java"]);
    let one = java_candidates(&jre, &vec!["jdk-17".to_string()], Os::Windows);
    assert_eq!(one.len(), 2);
    assert_eq!(one[0].parts, vec!["/jre", "bin", "java.exe"]);
    assert_eq!(one[1].parts, vec!["/jre", "jdk-17", "bin", "java.exe"]);
}

#[test]
fn archives_are_told_apart_by_name() {
    assert_eq!(archive_kind("C:\\x\\jre.zip"), ArchiveKind::Zip);
    assert_eq!(archive_kind(".zip"), ArchiveKind::Zip);
    assert_eq!(archive_kind("zip"), ArchiveKind::TarGz);
    assert_eq!(archive_kind("jre.tar.gz"), ArchiveKind::TarGz);
    assert_eq!(archive_kind("jre.zip.part"), ArchiveKind::TarGz);
    let args: Vec<String> = tar_args(&InstallPath::new("a"), &InstallPath::new("b").join("c"))
        .iter()
        .map(|arg| match arg {
            Arg::Text(text) => text.clone(),
            Arg::Path(path) => format!("<{}>", path.parts.join("/")),
        })
        .collect();
    assert_eq!(args, vec!["xzf", "<a>", "-C", "<b/c>", "--strip-components=1"]);
    assert!(matches!(tar_result(true), Event::Done));
    match tar_result(false) {
        Event::Failed(error) => assert_eq!(error.to_string(), "provisioning failed: tar extraction failed"),
        other => panic!("expected a failure, got {:?}", other),
    }
}

fn entry(name: &str, is_dir: bool, has_parent: bool, mode: Option<u32>) -> UnzipEvent {
    UnzipEvent::Entry { name: name.to_string(), is_dir, has_parent, mode }
}

fn assert_performs(action: UnzipAction, expected: EntryStep, at: Vec<&str>) {
    match action {
        UnzipAction::Perform { step, target } => {
            assert_eq!(step, expected);
            assert_eq!(target.parts, at);
        }
        other => panic!("expected a step, got {:?}", other),
    }
}

#[test]
fn entries_are_unpacked_in_order() {
    let mut unzipper = Unzipper::new(true, InstallPath::new("/data").join("dist"));
    assert!(matches!(unzipper.advance(UnzipEvent::Opened { entries: 2 }), UnzipAction::ReadEntry(0)));
    let dir = unzipper.advance(entry("lt/", true, true, Some(0o755)));
    assert_performs(dir, EntryStep::CreateDir, vec!["/data", "dist", "lt/"]);
    assert!(matches!(unzipper.advance(UnzipEvent::Done), UnzipAction::ReadEntry(1)));
    let file = vec!["/data", "dist", "lt/a.jar"];
    let parent = unzipper.advance(entry("lt/a.jar", false, true, Some(0o644)));
    assert_performs(parent, EntryStep::CreateParent, file.clone());
    assert_performs(unzipper.advance(UnzipEvent::Done), EntryStep::WriteFile, file.clone());
    assert_performs(unzipper.advance(UnzipEvent::Done), EntryStep::SetMode(0o644), file);
    assert!(matches!(unzipper.advance(UnzipEvent::Done), UnzipAction::Finish(Ok(()))));
    assert!(matches!(unzipper.advance(UnzipEvent::Done), UnzipAction::Unexpected));
}

#[test]
fn modes_are_kept_on_unix_only() {
    let mut unzipper = Unzipper::new(false, InstallPath::new("d"));
    unzipper.advance(UnzipEvent::Opened { entries: 1 });
    let write = unzipper.advance(entry("f", false, false, Some(0o644)));
    assert_performs(write, EntryStep::WriteFile, vec!["d", "f"]);
    assert!(matches!(unzipper.advance(UnzipEvent::Done), UnzipAction::Finish(Ok(()))));
}

#[test]
fn unpacking_stops_at_the_first_failure() {
    let mut empty = Unzipper::new(true, InstallPath::new("d"));
    assert!(matches!(empty.advance(UnzipEvent::Opened { entries: 0 }), UnzipAction::Finish(Ok(()))));
    let mut broken = Unzipper::new(true, InstallPath::new("d"));
    assert!(matches!(
        broken.advance(UnzipEvent::Failed(Error::Zip("x".to_string()))),
        UnzipAction::Finish(Err(Error::Zip(_)))
    ));
    let mut half = Unzipper::new(true, InstallPath::new("d"));
    half.advance(UnzipEvent::Opened { entries: 5 });
    half.advance(entry("e/", true, true, None));
    assert!(matches!(
        half.advance(UnzipEvent::Failed(Error::Io("full".to_string()))),
        UnzipAction::Finish(Err(Error::Io(_)))
    ));
}
