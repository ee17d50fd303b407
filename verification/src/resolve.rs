//! The choice of a Java runtime: one of the system where there is one, else one that was
//! downloaded before, else one that is downloaded now.
use vstd::prelude::*;
use vstd::string::*;
use crate::config::{java_bin_name, EngineConfig, Os};
use crate::digest::{sha256_hex, verify_checksum};
use crate::error::Error;
use crate::java::{probe_java_version, MIN_JAVA_MAJOR};
use crate::layout::{clone_paths, Asset, InstallPath, PathView};
use crate::state::EngineState;
use crate::task::{archive_kind, find_java_binary, Action, ArchiveKind, Event};
use crate::{config, digest, java, layout, task, text};

verus! {

/// How far a download has come.
#[derive(Clone, Copy, Debug, PartialEq, Eq, Structural)]
pub struct Download {
    pub downloaded: u64,
    pub total: Option<u64>,
}

impl Download {
    /// A download that has not begun.
    pub open spec fn none() -> Self {
        Download { downloaded: 0, total: None }
    }

    /// A download that has not begun.
    pub fn new() -> (res: Self)
        ensures
            res == Download::none(),
    {
        Download { downloaded: 0, total: None }
    }

    /// A download whose size became known, or did not.
    pub fn begun(&self, total: Option<u64>) -> (res: Self)
        ensures
            res == (Download { total, ..*self }),
    {
        Download { downloaded: self.downloaded, total }
    }

    /// The download with `len` more bytes written.
    pub fn received(&self, len: u64) -> (res: Self)
        requires
            self.downloaded + len <= u64::MAX,
        ensures
            res == (Download { downloaded: (self.downloaded + len) as u64, ..*self }),
    {
        Download { downloaded: self.downloaded + len, total: self.total }
    }

    /// The state that shows how far the download has come.
    pub open spec fn shown(self) -> EngineState {
        EngineState::Downloading { downloaded: self.downloaded, total: self.total }
    }

    /// The state that shows how far the download has come.
    pub fn state(&self) -> (res: EngineState)
        ensures
            res == self.shown(),
    {
        EngineState::Downloading { downloaded: self.downloaded, total: self.total }
    }
}

/// The Java binary to use, and whether it is one of the system. A binary on the search path is
/// named without a directory.
#[derive(Debug)]
pub struct JavaChoice {
    pub path: InstallPath,
    pub system: bool,
}

impl Clone for JavaChoice {
    fn clone(&self) -> (res: Self)
        ensures
            res.path@ == self.path@,
            res.system == self.system,
    {
        JavaChoice { path: self.path.clone(), system: self.system }
    }
}

/// How far the choice of a Java runtime has come, by the work that is under way.
#[derive(Clone, Copy, Debug, PartialEq, Eq, Structural)]
pub enum JavaStage {
    /// Reading `JAVA_HOME`.
    Home,
    /// Probing the binary below `JAVA_HOME`.
    HomeProbe,
    /// Probing the binary on the search path.
    PathProbe,
    /// Probing the binary that was downloaded before.
    JreProbe,
    /// Downloading a runtime.
    Download,
    /// Reading the archive to check its digest.
    Digest,
    /// Removing an archive that has another digest.
    Discard,
    /// Creating the directory of the runtime.
    CreateDir,
    /// Unpacking the archive.
    Unpack,
    /// Removing the archive.
    Cleanup,
    /// Listing what was unpacked.
    List,
    /// Looking for the binary in what was unpacked.
    Find,
    /// Nothing: the choice is made, or has failed.
    Done,
}

/// The choice of a Java runtime, under way.
#[derive(Debug)]
pub struct JavaResolver {
    pub os: Os,
    pub stage: JavaStage,
    pub download: Download,
    /// How the archive that is downloaded is packed, by its URL.
    pub kind: ArchiveKind,
    /// The binary that is being probed, unless it is the one on the search path.
    pub probed: Option<InstallPath>,
    /// The places where the binary may lie in what was unpacked, the preferred ones first.
    pub candidates: Vec<InstallPath>,
    /// Why the choice will fail, once the work that is under way is done.
    pub failure: Option<Error>,
    /// What came of the choice.
    pub outcome: Option<Result<JavaChoice, Error>>,
}

/// Whether a probe found a Java runtime that is recent enough.
pub open spec fn usable(output: Option<java::JavaOutput>) -> bool {
    java::probed_version(output) >= 17
}

/// What is joined onto a directory to reach the Java binary in it.
pub open spec fn java_parts(os: Os) -> Seq<Seq<char>> {
    seq!["bin"@, config::java_binary(os)]
}

/// The path of the Java binary in a directory.
pub fn java_below(dir: &InstallPath, os: Os) -> (res: InstallPath)
    ensures
        res@ == dir@.below(java_parts(os)),
{
    let res: InstallPath = dir.join("bin").join(java_bin_name(os));
    assert(res@ =~= dir@.below(java_parts(os)));
    res
}

/// Whether these are the places where the Java binary of a runtime may lie: directly in its
/// directory, or else in one of the directories in it.
pub open spec fn is_candidates(
    candidates: Seq<InstallPath>,
    jre: PathView,
    subdirs: Seq<String>,
    os: Os,
) -> bool {
    &&& candidates.len() == subdirs.len() + 1
    &&& candidates[0]@ == jre.below(java_parts(os))
    &&& forall|i: int|
        0 <= i < subdirs.len() ==> (#[trigger] candidates[i + 1])@ == jre.push(subdirs[i]@).below(
            java_parts(os),
        )
}

/// The places where the Java binary of a runtime may lie, the preferred ones first: directly in its
/// directory, then in each of the directories in it.
pub fn java_candidates(jre: &InstallPath, subdirs: &Vec<String>, os: Os) -> (res: Vec<InstallPath>)
    ensures
        is_candidates(res@, jre@, subdirs@, os),
{
    let mut res: Vec<InstallPath> = Vec::new();
    res.push(java_below(jre, os));
    let mut i: usize = 0;
    while i < subdirs.len()
        invariant
            i <= subdirs@.len(),
            res@.len() == i + 1,
            res@[0]@ == jre@.below(java_parts(os)),
            forall|j: int|
                0 <= j < i ==> (#[trigger] res@[j + 1])@ == jre@.push(subdirs@[j]@).below(
                    java_parts(os),
                ),
        decreases subdirs.len() - i,
    {
        res.push(java_below(&jre.join(subdirs[i].as_str()), os));
        i = i + 1;
    }
    res
}

/// Whether an error says that data has another digest than the expected one.
pub open spec fn is_mismatch(error: Error, expected: Seq<char>, data: Seq<u8>) -> bool {
    &&& error matches Error::ChecksumMismatch { expected: e, actual: a }
    &&& e@ == expected
    &&& a@ == digest::hex_text(digest::sha256(data))
}

/// Whether data has the expected digest.
pub open spec fn has_digest(data: Seq<u8>, expected: Seq<char>) -> bool {
    digest::hex_text(digest::sha256(data)) == expected
}

impl JavaResolver {
    /// The same choice, with other work under way.
    pub open spec fn at(self, stage: JavaStage) -> Self {
        JavaResolver { stage, ..self }
    }

    /// The choice, made.
    pub open spec fn chosen(self, path: InstallPath, system: bool) -> Self {
        JavaResolver {
            stage: JavaStage::Done,
            outcome: Some(Ok(JavaChoice { path, system })),
            ..self
        }
    }

    /// The choice, failed.
    pub open spec fn failed(self, error: Error) -> Self {
        JavaResolver { stage: JavaStage::Done, outcome: Some(Err(error)), ..self }
    }

    /// The choice of a runtime that has just begun, by reading `JAVA_HOME`.
    pub open spec fn is_begun(self) -> bool {
        &&& self.stage == JavaStage::Home
        &&& self.download == Download::none()
        &&& self.probed is None
        &&& self.candidates@.len() == 0
        &&& self.failure is None
        &&& self.outcome is None
    }

    /// Whether the path of a binary is there exactly while it is probed, a reason to fail exactly
    /// while an archive is discarded, and an outcome exactly when nothing is under way.
    pub open spec fn valid(self) -> bool {
        &&& (self.stage == JavaStage::HomeProbe || self.stage == JavaStage::JreProbe)
            <==> self.probed is Some
        &&& self.stage == JavaStage::Discard <==> self.failure is Some
        &&& self.stage == JavaStage::Done <==> self.outcome is Some
    }

    /// Whether a count of downloaded bytes still fits.
    pub open spec fn fits(self, event: Event) -> bool {
        event matches Event::Chunk { len } ==> self.download.downloaded + len <= u64::MAX
    }

    /// Whether the archive, found to be complete and right, is being unpacked next.
    pub open spec fn goes_on_to_unpack(self, post: Self, action: Action) -> bool {
        post == self.at(JavaStage::CreateDir) && action == Action::CreateDir(Asset::Jre)
    }

    /// Whether the Java binary at a path is probed next.
    pub open spec fn goes_on_to_probe(
        self,
        stage: JavaStage,
        place: PathView,
        post: Self,
        action: Action,
    ) -> bool {
        &&& post.probed matches Some(probed)
        &&& post == JavaResolver { stage, probed: Some(probed), ..self }
        &&& probed@ == place
        &&& action matches Action::Probe(path)
        &&& path@ == place
    }

    /// The same choice, without the path of a binary that was probed.
    pub open spec fn unprobed(self) -> Self {
        JavaResolver { probed: None, ..self }
    }

    /// Whether the Java binary on the search path is probed next.
    pub open spec fn goes_on_to_path(self, post: Self, action: Action) -> bool {
        &&& post == self.at(JavaStage::PathProbe)
        &&& action matches Action::ProbeOnPath(name)
        &&& name@ == config::java_binary(self.os)
    }

    /// One step of the choice: what becomes of it, and which work is to be done next, once the
    /// work under way has come to `event`.
    pub open spec fn step(self, cfg: EngineConfig, event: Event, post: Self, action: Action) -> bool {
        match (self.stage, event) {
            (JavaStage::Home, Event::JavaHome(Some(home))) => self.goes_on_to_probe(
                JavaStage::HomeProbe,
                PathView::of_text(home@).below(java_parts(self.os)),
                post,
                action,
            ),
            (JavaStage::Home, Event::JavaHome(None)) => self.goes_on_to_path(post, action),
            (JavaStage::HomeProbe, Event::Probed { output }) => if usable(output) {
                &&& self.probed matches Some(java)
                &&& post == self.unprobed().chosen(java, true)
                &&& action == Action::Resolved
            } else {
                self.unprobed().goes_on_to_path(post, action)
            },
            (JavaStage::PathProbe, Event::Probed { output }) => if usable(output) {
                &&& post.outcome matches Some(Ok(choice))
                &&& post == self.chosen(choice.path, true)
                &&& choice.path@ == PathView::of_text(config::java_binary(self.os))
                &&& action == Action::Resolved
            } else {
                self.goes_on_to_probe(
                    JavaStage::JreProbe,
                    cfg.data_dir@.below(layout::asset_parts(Asset::Jre)).below(java_parts(self.os)),
                    post,
                    action,
                )
            },
            (JavaStage::JreProbe, Event::Probed { output }) => if usable(output) {
                &&& self.probed matches Some(java)
                &&& post == self.unprobed().chosen(java, false)
                &&& action == Action::Resolved
            } else {
                match cfg.jre_download_url {
                    Some(url) => {
                        &&& post == JavaResolver {
                            stage: JavaStage::Download,
                            download: Download::none(),
                            kind: task::kind_of(url@),
                            ..self.unprobed()
                        }
                        &&& action == Action::Download { url, dest: Asset::JreArchive }
                    },
                    None => post == self.unprobed().failed(Error::NoJavaRuntime) && action
                        == Action::Resolved,
                }
            },
            (JavaStage::Download, Event::Headers { total }) => {
                &&& post == JavaResolver { download: Download { total, ..self.download }, ..self }
                &&& action == Action::Receive
            },
            (JavaStage::Download, Event::Chunk { len }) => {
                &&& post == JavaResolver {
                    download: Download {
                        downloaded: (self.download.downloaded + len) as u64,
                        ..self.download
                    },
                    ..self
                }
                &&& action == Action::Receive
            },
            (JavaStage::Download, Event::End) => if cfg.jre_sha256 is Some {
                post == self.at(JavaStage::Digest) && action == Action::ReadFile(Asset::JreArchive)
            } else {
                self.goes_on_to_unpack(post, action)
            },
            (JavaStage::Digest, Event::Bytes(data)) => match cfg.jre_sha256 {
                Some(sha) => if has_digest(data@, sha@) {
                    self.goes_on_to_unpack(post, action)
                } else {
                    &&& post.failure matches Some(error)
                    &&& post == JavaResolver {
                        stage: JavaStage::Discard,
                        failure: Some(error),
                        ..self
                    }
                    &&& is_mismatch(error, sha@, data@)
                    &&& action == Action::RemoveFile(Asset::JreArchive)
                },
                None => self.goes_on_to_unpack(post, action),
            },
            (JavaStage::Discard, Event::Done) | (JavaStage::Discard, Event::Failed(_)) => {
                &&& self.failure matches Some(error)
                &&& post == JavaResolver { failure: None, ..self.failed(error) }
                &&& action == Action::Resolved
            },
            (JavaStage::CreateDir, Event::Done) => {
                &&& post == self.at(JavaStage::Unpack)
                &&& action == Action::Unpack {
                    kind: self.kind,
                    archive: Asset::JreArchive,
                    dest: Asset::Jre,
                }
            },
            (JavaStage::Unpack, Event::Done) => {
                &&& post == self.at(JavaStage::Cleanup)
                &&& action == Action::RemoveFile(Asset::JreArchive)
            },
            (JavaStage::Cleanup, Event::Done) | (JavaStage::Cleanup, Event::Failed(_)) => {
                post == self.at(JavaStage::List) && action == Action::ListDir(Asset::Jre)
            },
            (JavaStage::List, Event::Entries(names)) => {
                &&& post == JavaResolver {
                    stage: JavaStage::Find,
                    candidates: post.candidates,
                    ..self
                }
                &&& is_candidates(
                    post.candidates@,
                    cfg.data_dir@.below(layout::asset_parts(Asset::Jre)),
                    names@,
                    self.os,
                )
                &&& action matches Action::FindJava(places)
                &&& layout::paths(places@) == layout::paths(post.candidates@)
            },
            (JavaStage::Find, Event::Existing(exists)) => match task::first_existing(
                layout::paths(self.candidates@),
                exists@,
            ) {
                Some(java) => {
                    &&& post.outcome matches Some(Ok(choice))
                    &&& post == self.chosen(choice.path, false)
                    &&& choice.path@ == java
                    &&& action == Action::Resolved
                },
                None => post == self.failed(Error::NoJavaRuntime) && action == Action::Resolved,
            },
            (JavaStage::Download, Event::Failed(error))
            | (JavaStage::Digest, Event::Failed(error))
            | (JavaStage::CreateDir, Event::Failed(error))
            | (JavaStage::Unpack, Event::Failed(error)) => {
                post == self.failed(error) && action == Action::Resolved
            },
            _ => post == self && action == Action::Unexpected,
        }
    }

    /// Begins the choice of a runtime. The work to be done first is to read `JAVA_HOME`.
    pub fn new(os: Os) -> (res: Self)
        ensures
            res.is_begun(),
            res.os == os,
            res.valid(),
    {
        JavaResolver {
            os,
            stage: JavaStage::Home,
            download: Download::new(),
            kind: ArchiveKind::TarGz,
            probed: None,
            candidates: Vec::new(),
            failure: None,
            outcome: None,
        }
    }

    fn settle(&mut self, path: InstallPath, system: bool) -> (res: Action)
        ensures
            *final(self) == old(self).chosen(path, system),
            res == Action::Resolved,
    {
        self.stage = JavaStage::Done;
        self.outcome = Some(Ok(JavaChoice { path, system }));
        Action::Resolved
    }

    fn fail(&mut self, error: Error) -> (res: Action)
        ensures
            *final(self) == old(self).failed(error),
            res == Action::Resolved,
    {
        self.stage = JavaStage::Done;
        self.outcome = Some(Err(error));
        Action::Resolved
    }

    fn probe(&mut self, stage: JavaStage, path: InstallPath) -> (res: Action)
        ensures
            old(self).goes_on_to_probe(stage, path@, *final(self), res),
    {
        self.stage = stage;
        self.probed = Some(path.clone());
        Action::Probe(path)
    }

    fn probe_path(&mut self) -> (res: Action)
        ensures
            old(self).goes_on_to_path(*final(self), res),
    {
        self.stage = JavaStage::PathProbe;
        Action::ProbeOnPath(String::from_str(java_bin_name(self.os)))
    }

    fn create_dir(&mut self) -> (res: Action)
        ensures
            old(self).goes_on_to_unpack(*final(self), res),
    {
        self.stage = JavaStage::CreateDir;
        Action::CreateDir(Asset::Jre)
    }

    /// Takes one step: notes what came of the work under way and says what is to be done next.
    pub fn advance(&mut self, cfg: &EngineConfig, event: Event) -> (res: Action)
        requires
            old(self).valid(),
            old(self).fits(event),
        ensures
            final(self).valid(),
            old(self).step(*cfg, event, *final(self), res),
    {
        match (self.stage, event) {
            (JavaStage::Home, Event::JavaHome(Some(home))) => {
                let java: InstallPath = java_below(&InstallPath::new(home.as_str()), self.os);
                self.probe(JavaStage::HomeProbe, java)
            },
            (JavaStage::Home, Event::JavaHome(None)) => self.probe_path(),
            (JavaStage::HomeProbe, Event::Probed { output }) => {
                let java: InstallPath = self.probed.take().unwrap();
                if probe_java_version(&output) >= MIN_JAVA_MAJOR {
                    self.settle(java, true)
                } else {
                    self.probe_path()
                }
            },
            (JavaStage::PathProbe, Event::Probed { output }) => {
                if probe_java_version(&output) >= MIN_JAVA_MAJOR {
                    self.settle(InstallPath::new(java_bin_name(self.os)), true)
                } else {
                    let java: InstallPath = java_below(&Asset::Jre.path(&cfg.data_dir), self.os);
                    self.probe(JavaStage::JreProbe, java)
                }
            },
            (JavaStage::JreProbe, Event::Probed { output }) => {
                let java: InstallPath = self.probed.take().unwrap();
                if probe_java_version(&output) >= MIN_JAVA_MAJOR {
                    self.settle(java, false)
                } else {
                    match &cfg.jre_download_url {
                        Some(url) => {
                            self.stage = JavaStage::Download;
                            self.download = Download::new();
                            self.kind = archive_kind(url.as_str());
                            Action::Download { url: url.clone(), dest: Asset::JreArchive }
                        },
                        None => self.fail(Error::NoJavaRuntime),
                    }
                }
            },
            (JavaStage::Download, Event::Headers { total }) => {
                self.download = self.download.begun(total);
                Action::Receive
            },
            (JavaStage::Download, Event::Chunk { len }) => {
                self.download = self.download.received(len);
                Action::Receive
            },
            (JavaStage::Download, Event::End) => {
                if cfg.jre_sha256.is_some() {
                    self.stage = JavaStage::Digest;
                    Action::ReadFile(Asset::JreArchive)
                } else {
                    self.create_dir()
                }
            },
            (JavaStage::Digest, Event::Bytes(data)) => {
                match &cfg.jre_sha256 {
                    Some(sha) => match verify_checksum(sha, sha256_hex(data.as_slice())) {
                        Ok(_) => self.create_dir(),
                        Err(error) => {
                            self.stage = JavaStage::Discard;
                            self.failure = Some(error);
                            Action::RemoveFile(Asset::JreArchive)
                        },
                    },
                    None => self.create_dir(),
                }
            },
            (JavaStage::Discard, Event::Done) | (JavaStage::Discard, Event::Failed(_)) => {
                let error: Error = self.failure.take().unwrap();
                self.fail(error)
            },
            (JavaStage::CreateDir, Event::Done) => {
                self.stage = JavaStage::Unpack;
                Action::Unpack {
                    kind: self.kind,
                    archive: Asset::JreArchive,
                    dest: Asset::Jre,
                }
            },
            (JavaStage::Unpack, Event::Done) => {
                self.stage = JavaStage::Cleanup;
                Action::RemoveFile(Asset::JreArchive)
            },
            (JavaStage::Cleanup, Event::Done) | (JavaStage::Cleanup, Event::Failed(_)) => {
                self.stage = JavaStage::List;
                Action::ListDir(Asset::Jre)
            },
            (JavaStage::List, Event::Entries(names)) => {
                self.stage = JavaStage::Find;
                self.candidates = java_candidates(
                    &Asset::Jre.path(&cfg.data_dir),
                    &names,
                    self.os,
                );
                Action::FindJava(clone_paths(&self.candidates))
            },
            (JavaStage::Find, Event::Existing(exists)) => {
                match find_java_binary(&self.candidates, &exists) {
                    Some(java) => self.settle(java, false),
                    None => self.fail(Error::NoJavaRuntime),
                }
            },
            (JavaStage::Download, Event::Failed(error))
            | (JavaStage::Digest, Event::Failed(error))
            | (JavaStage::CreateDir, Event::Failed(error))
            | (JavaStage::Unpack, Event::Failed(error)) => self.fail(error),
            _ => Action::Unexpected,
        }
    }
}

/// A Java runtime is recent enough from version 17 on, and one that could not be run, or that names
/// no version, is not.
pub proof fn law_java_17_is_recent_enough(
    out: java::JavaOutput,
    before: Seq<char>,
    n: u32,
    tail: Seq<char>,
    after: Seq<char>,
)
    requires
        vstd::utf8::valid_utf8(out.stderr@),
        vstd::utf8::valid_utf8(out.stdout@),
        !before.contains('"'),
        n != 1,
        tail.len() == 0 || tail[0] == '.',
        !tail.contains('"'),
        !tail.contains('\n'),
    ensures
        vstd::utf8::decode_utf8(out.stderr@) + vstd::utf8::decode_utf8(out.stdout@) == before
            + seq!['"'] + (text::decimal(n as nat) + tail) + seq!['"'] + after ==> (usable(
            Some(out),
        ) <==> n >= 17),
        !(vstd::utf8::decode_utf8(out.stderr@) + vstd::utf8::decode_utf8(out.stdout@)).contains('"')
            ==> !usable(Some(out)),
        !usable(None),
{
    java::law_probe_finds_quoted_number(out, before, n, tail, after);
}

/// The Java binary lies in the directory `bin`, and is called `java.exe` on Windows and `java`
/// everywhere else.
pub proof fn law_java_binary_fits_platform(os: Os)
    ensures
        java_parts(os).len() == 2,
        java_parts(os)[0] == "bin"@,
        os == Os::Windows ==> java_parts(os)[1] == "java.exe"@,
        os != Os::Windows ==> java_parts(os)[1] == "java"@,
{
}

/// Data has one digest only, of 64 characters: there are no two expected digests that it meets.
pub proof fn law_one_digest(data: Seq<u8>, a: Seq<char>, b: Seq<char>)
    requires
        has_digest(data, a),
        has_digest(data, b),
    ensures
        a == b,
        a == digest::hex_text(digest::sha256(data)),
{
}

} // verus!
