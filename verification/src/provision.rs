//! Provisioning: choose a Java runtime, then download, verify and unpack LanguageTool.
use vstd::prelude::*;
use vstd::string::*;
use crate::config::{EngineConfig, Os};
use crate::digest::{sha256_hex, verify_checksum};
use crate::error::Error;
use crate::layout::Asset;
use crate::resolve::{Download, JavaChoice, JavaResolver, JavaStage};
use crate::state::{EngineState, SharedState};
use crate::task::{Action, Directive, Event, VersionJson};
use crate::{layout, resolve};

verus! {

/// Whether LanguageTool is installed as configured: the jar is there, and the version file names
/// the configured version and, where a digest is configured, that digest.
pub open spec fn installed(
    cfg: EngineConfig,
    jar_exists: bool,
    version: Option<VersionJson>,
) -> bool {
    &&& jar_exists
    &&& version matches Some(v)
    &&& v.lt_version@ == cfg.lt_version@
    &&& cfg.lt_sha256@.len() == 0 || v.lt_sha256@ == cfg.lt_sha256@
}

/// Whether LanguageTool is installed as configured, given whether the server jar exists and what
/// the version file holds, where it can be read.
pub fn is_installed(cfg: &EngineConfig, jar_exists: bool, version: &Option<VersionJson>) -> (res:
    bool)
    ensures
        res == installed(*cfg, jar_exists, *version),
{
    if !jar_exists {
        return false;
    }
    match version {
        Some(v) => v.lt_version == cfg.lt_version && (cfg.lt_sha256.as_str().is_empty()
            || v.lt_sha256 == cfg.lt_sha256),
        None => false,
    }
}

/// The shared state with the Java runtime that the version file names, where it can be read.
pub open spec fn restored(shared: SharedState, version: Option<VersionJson>) -> SharedState {
    match version {
        Some(v) => SharedState {
            java_path: Some(v.java_path),
            using_system_java: v.using_system_java,
            ..shared
        },
        None => shared,
    }
}

/// Takes the Java runtime over from the version file, where it can be read.
pub fn restore_java_path(version: Option<VersionJson>, shared: &mut SharedState)
    ensures
        *final(shared) == restored(*old(shared), version),
{
    if let Some(v) = version {
        shared.set_java(v.java_path, v.using_system_java);
    }
}

/// How far provisioning has come, by the work that is under way.
#[derive(Clone, Copy, Debug, PartialEq, Eq, Structural)]
pub enum Stage {
    /// Creating the data directory.
    CreateDataDir,
    /// Taking the lock.
    Lock,
    /// Looking for an installation.
    Inspect,
    /// Reading the version file of the installation that is there.
    Restore,
    /// Choosing a Java runtime.
    Java,
    /// Downloading LanguageTool.
    Download,
    /// Reading the archive to check its digest.
    Digest,
    /// Removing an archive that has another digest.
    Discard,
    /// Renaming the archive.
    Rename,
    /// Creating the directory that LanguageTool goes to.
    CreateDist,
    /// Unpacking the archive.
    Unzip,
    /// Removing the archive.
    Cleanup,
    /// Writing the version file.
    Record,
    /// Nothing: provisioning has come to an end.
    Done,
}

/// Provisioning, under way.
#[derive(Debug)]
pub struct Provisioner {
    pub stage: Stage,
    pub resolver: JavaResolver,
    pub download: Download,
    /// The Java runtime, once it was chosen.
    pub java: Option<JavaChoice>,
    /// Why provisioning will fail, once the work that is under way is done.
    pub failure: Option<Error>,
}

/// Whether a record says what provisioning has installed, and with which Java runtime.
pub open spec fn is_record(record: VersionJson, cfg: EngineConfig, java: JavaChoice) -> bool {
    &&& record.lt_version == cfg.lt_version
    &&& record.lt_sha256 == cfg.lt_sha256
    &&& record.java_path@ == java.path@
    &&& record.using_system_java == java.system
}

/// A directive that only asks for work.
pub open spec fn quiet(action: Action) -> Directive {
    Directive { action, report: None }
}

impl Provisioner {
    /// The same run, with other work under way.
    pub open spec fn at(self, stage: Stage) -> Self {
        Provisioner { stage, ..self }
    }

    /// Whether the stage comes after the choice of a Java runtime.
    pub open spec fn past_java(stage: Stage) -> bool {
        match stage {
            Stage::Download
            | Stage::Digest
            | Stage::Discard
            | Stage::Rename
            | Stage::CreateDist
            | Stage::Unzip
            | Stage::Cleanup
            | Stage::Record => true,
            _ => false,
        }
    }

    /// Whether a reason to fail is there exactly while an archive is discarded, a Java runtime is
    /// there once it was chosen, and its choice is under way until then.
    pub open spec fn valid(self) -> bool {
        &&& self.stage == Stage::Discard <==> self.failure is Some
        &&& Self::past_java(self.stage) ==> self.java is Some
        &&& self.resolver.valid()
        &&& (self.stage == Stage::CreateDataDir || self.stage == Stage::Lock || self.stage
            == Stage::Inspect) ==> self.resolver.is_begun()
        &&& self.stage == Stage::Java ==> self.resolver.outcome is None
    }

    /// Provisioning that has just begun, by creating the data directory.
    pub open spec fn is_begun(self) -> bool {
        &&& self.stage == Stage::CreateDataDir
        &&& self.resolver.is_begun()
        &&& self.download == Download::none()
        &&& self.java is None
        &&& self.failure is None
    }

    /// Provisioning that has just begun on a platform.
    pub open spec fn begins_on(self, os: Os) -> bool {
        self.is_begun() && self.resolver.os == os
    }

    /// Whether a count of downloaded bytes still fits.
    pub open spec fn fits(self, event: Event) -> bool {
        event matches Event::Chunk { len } ==> (if self.stage == Stage::Java {
            self.resolver.download.downloaded
        } else {
            self.download.downloaded
        }) + len <= u64::MAX
    }

    /// Whether provisioning ends with `result`.
    pub open spec fn ends(self, post: Self, out: Directive, result: Result<(), Error>) -> bool {
        post == self.at(Stage::Done) && out == quiet(Action::Finish(result))
    }

    /// Whether the archive, found to be complete and right, is installed next.
    pub open spec fn goes_on_to_install(self, post: Self, action: Action) -> bool {
        &&& post == self.at(Stage::Rename)
        &&& action == Action::Rename { from: Asset::LtPart, to: Asset::LtZip }
    }

    /// Whether the event brings a piece of a Java runtime that is being downloaded.
    pub open spec fn receives_jre(self, event: Event) -> bool {
        &&& self.stage == Stage::Java
        &&& self.resolver.stage == JavaStage::Download
        &&& event is Chunk
    }

    /// One step of provisioning while a Java runtime is chosen. The progress of a download is shown
    /// and reported. The run goes on to download LanguageTool once the choice is made, and ends
    /// where it has failed.
    pub open spec fn java_step(
        self,
        cfg: EngineConfig,
        before: SharedState,
        event: Event,
        post: Self,
        after: SharedState,
        out: Directive,
    ) -> bool {
        let resolver = post.resolver;
        match resolver.outcome {
            None => {
                &&& self.resolver.step(cfg, event, resolver, out.action)
                &&& post == Provisioner { resolver, ..self }
                &&& if self.receives_jre(event) {
                    &&& after == SharedState { state: resolver.download.shown(), ..before }
                    &&& out.report == Some(resolver.download.shown())
                } else {
                    &&& after == before
                    &&& out.report is None
                }
            },
            Some(Ok(choice)) => {
                &&& self.resolver.step(cfg, event, resolver, Action::Resolved)
                &&& post == Provisioner {
                    stage: Stage::Download,
                    resolver,
                    download: Download::none(),
                    java: post.java,
                    ..self
                }
                &&& post.java matches Some(java)
                &&& java.path@ == choice.path@
                &&& java.system == choice.system
                &&& after == SharedState {
                    java_path: after.java_path,
                    using_system_java: choice.system,
                    ..before
                }
                &&& layout::optional_path(after.java_path) == Some(choice.path@)
                &&& out == quiet(
                    Action::Download { url: cfg.lt_download_url, dest: Asset::LtPart },
                )
            },
            Some(Err(error)) => {
                &&& self.resolver.step(cfg, event, resolver, Action::Resolved)
                &&& (Provisioner { resolver, ..self }).ends(post, out, Err(error))
                &&& after == before
            },
        }
    }

    /// One step of provisioning: what becomes of it and of the shared state, and which work is to
    /// be done next, once the work under way has come to `event`.
    pub open spec fn step(
        self,
        cfg: EngineConfig,
        before: SharedState,
        event: Event,
        post: Self,
        after: SharedState,
        out: Directive,
    ) -> bool {
        match (self.stage, event) {
            (Stage::Java, _) => self.java_step(cfg, before, event, post, after, out),
            (Stage::Inspect, Event::Installation { jar_exists, version }) => if installed(
                cfg,
                jar_exists,
                version,
            ) {
                &&& post == self.at(Stage::Restore)
                &&& after == before
                &&& out == quiet(Action::ReadVersion)
            } else {
                &&& post == self.at(Stage::Java)
                &&& after == SharedState { state: Download::none().shown(), ..before }
                &&& out == quiet(Action::ReadJavaHome)
            },
            (Stage::Restore, Event::Version(version)) => {
                &&& self.ends(post, out, Ok(()))
                &&& after == restored(before, version)
            },
            (Stage::Download, Event::Chunk { len }) => {
                &&& post == Provisioner {
                    download: Download {
                        downloaded: (self.download.downloaded + len) as u64,
                        ..self.download
                    },
                    ..self
                }
                &&& after == SharedState { state: post.download.shown(), ..before }
                &&& out == Directive {
                    action: Action::Receive,
                    report: Some(post.download.shown()),
                }
            },
            (Stage::Download, Event::End) => {
                &&& if cfg.lt_sha256@.len() > 0 {
                    post == self.at(Stage::Digest) && out.action == Action::ReadFile(Asset::LtPart)
                } else {
                    self.goes_on_to_install(post, out.action)
                }
                &&& after == SharedState { state: EngineState::Installing, ..before }
                &&& out.report == Some(EngineState::Installing)
            },
            _ => {
                &&& after == before
                &&& self.still_step(cfg, event, post, out)
            },
        }
    }

    /// The steps of provisioning that leave the shared state alone.
    pub open spec fn still_step(
        self,
        cfg: EngineConfig,
        event: Event,
        post: Self,
        out: Directive,
    ) -> bool {
        match (self.stage, event) {
            (Stage::CreateDataDir, Event::Done) => {
                post == self.at(Stage::Lock) && out == quiet(Action::TakeLock)
            },
            (Stage::Lock, Event::Done) | (Stage::Lock, Event::Failed(_)) => {
                post == self.at(Stage::Inspect) && out == quiet(Action::InspectInstall)
            },
            (Stage::Download, Event::Headers { total }) => {
                &&& post == Provisioner { download: Download { total, ..self.download }, ..self }
                &&& out == quiet(Action::Receive)
            },
            (Stage::Digest, Event::Bytes(data)) => {
                &&& out.report is None
                &&& if resolve::has_digest(data@, cfg.lt_sha256@) {
                    self.goes_on_to_install(post, out.action)
                } else {
                    &&& post.failure matches Some(error)
                    &&& post == Provisioner {
                        stage: Stage::Discard,
                        failure: Some(error),
                        ..self
                    }
                    &&& resolve::is_mismatch(error, cfg.lt_sha256@, data@)
                    &&& out.action == Action::RemoveFile(Asset::LtPart)
                }
            },
            (Stage::Discard, Event::Done) | (Stage::Discard, Event::Failed(_)) => {
                &&& self.failure matches Some(error)
                &&& (Provisioner { failure: None, ..self }).ends(post, out, Err(error))
            },
            (Stage::Rename, Event::Done) => {
                post == self.at(Stage::CreateDist) && out == quiet(Action::CreateDir(Asset::Dist))
            },
            (Stage::CreateDist, Event::Done) => {
                &&& post == self.at(Stage::Unzip)
                &&& out == quiet(Action::Unzip { archive: Asset::LtZip, dest: Asset::Dist })
            },
            (Stage::Unzip, Event::Done) => {
                post == self.at(Stage::Cleanup) && out == quiet(Action::RemoveFile(Asset::LtZip))
            },
            (Stage::Cleanup, Event::Done) | (Stage::Cleanup, Event::Failed(_)) => {
                &&& post == self.at(Stage::Record)
                &&& self.java matches Some(java)
                &&& out.action matches Action::WriteVersion(record)
                &&& is_record(record, cfg, java)
                &&& out.report is None
            },
            (Stage::Record, Event::Done) => self.ends(post, out, Ok(())),
            (Stage::CreateDataDir, Event::Failed(error))
            | (Stage::Download, Event::Failed(error))
            | (Stage::Digest, Event::Failed(error))
            | (Stage::Rename, Event::Failed(error))
            | (Stage::CreateDist, Event::Failed(error))
            | (Stage::Unzip, Event::Failed(error))
            | (Stage::Record, Event::Failed(error)) => self.ends(post, out, Err(error)),
            _ => post == self && out == quiet(Action::Unexpected),
        }
    }

    /// Begins provisioning. The work to be done first is to create the data directory.
    pub fn new(os: Os) -> (res: Self)
        ensures
            res.begins_on(os),
            res.valid(),
    {
        Provisioner {
            stage: Stage::CreateDataDir,
            resolver: JavaResolver::new(os),
            download: Download::new(),
            java: None,
            failure: None,
        }
    }

    fn go(&mut self, stage: Stage, action: Action) -> (res: Directive)
        ensures
            *final(self) == old(self).at(stage),
            res == quiet(action),
    {
        self.stage = stage;
        Directive { action, report: None }
    }

    fn end(&mut self, result: Result<(), Error>) -> (res: Directive)
        ensures
            old(self).ends(*final(self), res, result),
    {
        self.stage = Stage::Done;
        Directive { action: Action::Finish(result), report: None }
    }

    fn install(&mut self) -> (res: Directive)
        ensures
            old(self).goes_on_to_install(*final(self), res.action),
            res.report is None,
    {
        self.go(Stage::Rename, Action::Rename { from: Asset::LtPart, to: Asset::LtZip })
    }

    fn advance_java(&mut self, cfg: &EngineConfig, shared: &mut SharedState, event: Event) -> (res:
        Directive)
        requires
            old(self).valid(),
            old(self).stage == Stage::Java,
            old(self).fits(event),
        ensures
            final(self).valid(),
            old(self).java_step(*cfg, *old(shared), event, *final(self), *final(shared), res),
    {
        let received: bool = match (self.resolver.stage, &event) {
            (JavaStage::Download, Event::Chunk { len: _ }) => true,
            _ => false,
        };
        let action: Action = self.resolver.advance(cfg, event);
        match &self.resolver.outcome {
            None => if received {
                shared.set(self.resolver.download.state());
                Directive { action, report: Some(self.resolver.download.state()) }
            } else {
                Directive { action, report: None }
            },
            Some(Ok(choice)) => {
                let choice: JavaChoice = choice.clone();
                shared.set_java(choice.path.clone(), choice.system);
                self.java = Some(choice);
                self.download = Download::new();
                self.go(
                    Stage::Download,
                    Action::Download { url: cfg.lt_download_url.clone(), dest: Asset::LtPart },
                )
            },
            Some(Err(error)) => {
                let error: Error = error.clone();
                self.end(Err(error))
            },
        }
    }

    /// Takes one step: notes what came of the work under way, brings the shared state up to date
    /// and says what is to be done next.
    pub fn advance(&mut self, cfg: &EngineConfig, shared: &mut SharedState, event: Event) -> (res:
        Directive)
        requires
            old(self).valid(),
            old(self).fits(event),
        ensures
            final(self).valid(),
            old(self).step(*cfg, *old(shared), event, *final(self), *final(shared), res),
    {
        match (self.stage, event) {
            (Stage::Java, event) => self.advance_java(cfg, shared, event),
            (Stage::CreateDataDir, Event::Done) => self.go(Stage::Lock, Action::TakeLock),
            (Stage::Lock, Event::Done) | (Stage::Lock, Event::Failed(_)) => self.go(
                Stage::Inspect,
                Action::InspectInstall,
            ),
            (Stage::Inspect, Event::Installation { jar_exists, version }) => {
                if is_installed(cfg, jar_exists, &version) {
                    self.go(Stage::Restore, Action::ReadVersion)
                } else {
                    shared.set(Download::new().state());
                    self.go(Stage::Java, Action::ReadJavaHome)
                }
            },
            (Stage::Restore, Event::Version(version)) => {
                restore_java_path(version, shared);
                self.end(Ok(()))
            },
            (Stage::Download, Event::Headers { total }) => {
                self.download = self.download.begun(total);
                Directive { action: Action::Receive, report: None }
            },
            (Stage::Download, Event::Chunk { len }) => {
                self.download = self.download.received(len);
                shared.set(self.download.state());
                Directive { action: Action::Receive, report: Some(self.download.state()) }
            },
            (Stage::Download, Event::End) => {
                shared.set(EngineState::Installing);
                let next: Directive = if !cfg.lt_sha256.as_str().is_empty() {
                    self.go(Stage::Digest, Action::ReadFile(Asset::LtPart))
                } else {
                    self.install()
                };
                Directive { action: next.action, report: Some(EngineState::Installing) }
            },
            (Stage::Digest, Event::Bytes(data)) => {
                match verify_checksum(&cfg.lt_sha256, sha256_hex(data.as_slice())) {
                    Ok(_) => self.install(),
                    Err(error) => {
                        self.failure = Some(error);
                        self.go(Stage::Discard, Action::RemoveFile(Asset::LtPart))
                    },
                }
            },
            (Stage::Discard, Event::Done) | (Stage::Discard, Event::Failed(_)) => {
                let error: Error = self.failure.take().unwrap();
                self.end(Err(error))
            },
            (Stage::Rename, Event::Done) => self.go(
                Stage::CreateDist,
                Action::CreateDir(Asset::Dist),
            ),
            (Stage::CreateDist, Event::Done) => self.go(
                Stage::Unzip,
                Action::Unzip { archive: Asset::LtZip, dest: Asset::Dist },
            ),
            (Stage::Unzip, Event::Done) => self.go(
                Stage::Cleanup,
                Action::RemoveFile(Asset::LtZip),
            ),
            (Stage::Cleanup, Event::Done) | (Stage::Cleanup, Event::Failed(_)) => {
                let java: JavaChoice = self.java.as_ref().unwrap().clone();
                let record: VersionJson = VersionJson {
                    lt_version: cfg.lt_version.clone(),
                    lt_sha256: cfg.lt_sha256.clone(),
                    java_path: java.path,
                    using_system_java: java.system,
                };
                self.go(Stage::Record, Action::WriteVersion(record))
            },
            (Stage::Record, Event::Done) => self.end(Ok(())),
            (Stage::CreateDataDir, Event::Failed(error))
            | (Stage::Download, Event::Failed(error))
            | (Stage::Digest, Event::Failed(error))
            | (Stage::Rename, Event::Failed(error))
            | (Stage::CreateDist, Event::Failed(error))
            | (Stage::Unzip, Event::Failed(error))
            | (Stage::Record, Event::Failed(error)) => self.end(Err(error)),
            _ => Directive { action: Action::Unexpected, report: None },
        }
    }
}

} // verus!
