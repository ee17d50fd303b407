//! The pieces of outside work that provisioning asks for, and what comes back of them.
use vstd::prelude::*;
use vstd::string::*;
use crate::error::Error;
use crate::java::JavaOutput;
use crate::layout::{Asset, InstallPath, PathView};
use crate::state::EngineState;
use crate::{layout, text};

verus! {

/// The record of what is installed, kept in the version file.
#[derive(Debug)]
pub struct VersionJson {
    pub lt_version: String,
    pub lt_sha256: String,
    pub java_path: InstallPath,
    pub using_system_java: bool,
}

/// How an archive is packed.
#[derive(Clone, Copy, Debug, PartialEq, Eq, Structural)]
pub enum ArchiveKind {
    Zip,
    TarGz,
}

/// A piece of work to be done next.
#[derive(Debug)]
pub enum Action {
    /// Create a directory and those above it.
    CreateDir(Asset),
    /// Create the lock file, to be removed when provisioning ends.
    TakeLock,
    /// Look whether the server jar exists, and read the version file.
    InspectInstall,
    /// Read the version file.
    ReadVersion,
    /// Read the environment variable `JAVA_HOME`.
    ReadJavaHome,
    /// Run `-version` of a Java binary, if there is one at that path.
    Probe(InstallPath),
    /// Run `-version` of the Java binary that the search path leads to.
    ProbeOnPath(String),
    /// Request a file and create the place that it goes to.
    Download { url: String, dest: Asset },
    /// Write the next piece of the file that is being downloaded.
    Receive,
    /// Read a whole file.
    ReadFile(Asset),
    /// Remove a file.
    RemoveFile(Asset),
    /// Rename a file.
    Rename { from: Asset, to: Asset },
    /// Unpack the archive of a Java runtime.
    Unpack { kind: ArchiveKind, archive: Asset, dest: Asset },
    /// List what a directory holds.
    ListDir(Asset),
    /// Look which of these places the Java binary of the runtime that was unpacked lies at.
    FindJava(Vec<InstallPath>),
    /// Unpack the LanguageTool archive.
    Unzip { archive: Asset, dest: Asset },
    /// Write the version file.
    WriteVersion(VersionJson),
    /// The choice of a Java runtime has come to an end.
    Resolved,
    /// Provisioning has come to an end.
    Finish(Result<(), Error>),
    /// The event answers no work that was asked for. Nothing was done.
    Unexpected,
}

/// What came of a piece of work.
#[derive(Debug)]
pub enum Event {
    /// It succeeded.
    Done,
    /// It failed.
    Failed(Error),
    /// Whether the server jar exists, and the version file where it could be read.
    Installation { jar_exists: bool, version: Option<VersionJson> },
    /// The version file, where it could be read.
    Version(Option<VersionJson>),
    /// The value of `JAVA_HOME`, where it is set.
    JavaHome(Option<String>),
    /// What the binary that was probed printed, where it was there and ran.
    Probed { output: Option<JavaOutput> },
    /// A download has begun; its size, where it is known.
    Headers { total: Option<u64> },
    /// So many bytes of a download were written.
    Chunk { len: u64 },
    /// A download is complete.
    End,
    /// What a file holds.
    Bytes(Vec<u8>),
    /// The names of what a directory holds; none where it could not be listed.
    Entries(Vec<String>),
    /// Of each of the places that were looked at, in their order, whether anything lies there.
    Existing(Vec<bool>),
}

/// A piece of work to be done next, and the state to be reported before it.
#[derive(Debug)]
pub struct Directive {
    pub action: Action,
    pub report: Option<EngineState>,
}

/// The first of the paths at which something lies, where `exists` tells this of each of them.
pub open spec fn first_existing(
    candidates: Seq<PathView>,
    exists: Seq<bool>,
) -> Option<PathView>
    decreases candidates.len(),
{
    if candidates.len() == 0 || exists.len() == 0 {
        None
    } else if exists[0] {
        Some(candidates[0])
    } else {
        first_existing(candidates.skip(1), exists.skip(1))
    }
}

/// The first of the places where a Java binary lies, where `exists` tells this of each of them.
pub fn find_java_binary(candidates: &Vec<InstallPath>, exists: &Vec<bool>) -> (res: Option<
    InstallPath,
>)
    ensures
        layout::optional_path(res) == first_existing(layout::paths(candidates@), exists@),
{
    let ghost all = layout::paths(candidates@);
    let mut i: usize = 0;
    assert(all.skip(0) =~= all);
    assert(exists@.skip(0) =~= exists@);
    while i < candidates.len() && i < exists.len()
        invariant
            i <= candidates@.len(),
            i <= exists@.len(),
            all == layout::paths(candidates@),
            first_existing(all, exists@) == first_existing(
                all.skip(i as int),
                exists@.skip(i as int),
            ),
        decreases candidates.len() - i,
    {
        let ghost left = all.skip(i as int);
        let ghost told = exists@.skip(i as int);
        assert(left[0] == candidates@[i as int]@);
        assert(told[0] == exists@[i as int]);
        if exists[i] {
            return Some(candidates[i].clone());
        }
        assert(left.skip(1) =~= all.skip(i + 1));
        assert(told.skip(1) =~= exists@.skip(i + 1));
        i = i + 1;
    }
    None
}

/// How an archive of that name is packed: as a zip file where the name ends in `.zip`, as a
/// compressed tar file otherwise.
pub open spec fn kind_of(name: Seq<char>) -> ArchiveKind {
    if ".zip"@.is_suffix_of(name) {
        ArchiveKind::Zip
    } else {
        ArchiveKind::TarGz
    }
}

/// How an archive is packed, by its name.
pub fn archive_kind(name: &str) -> (res: ArchiveKind)
    ensures
        res == kind_of(name@),
{
    let chars: Vec<char> = text::to_chars(name);
    let len: usize = chars.len();
    proof {
        reveal_strlit(".zip");
        assert(".zip"@.len() == 4);
    }
    if len >= 4 && chars[len - 4] == '.' && chars[len - 3] == 'z' && chars[len - 2] == 'i'
        && chars[len - 1] == 'p' {
        assert(".zip"@ =~= name@.subrange(len - 4, len as int));
        ArchiveKind::Zip
    } else {
        assert(".zip"@.is_suffix_of(name@) ==> name@.subrange(len - 4, len as int)[0] == '.'
            && name@.subrange(len - 4, len as int)[1] == 'z' && name@.subrange(
            len - 4,
            len as int,
        )[2] == 'i' && name@.subrange(len - 4, len as int)[3] == 'p');
        ArchiveKind::TarGz
    }
}

/// An argument of a command: a text, or a path in the form that the platform gives it.
#[derive(Debug)]
pub enum Arg {
    Text(String),
    Path(InstallPath),
}

/// Whether an argument is that text.
pub open spec fn is_text(arg: Arg, s: Seq<char>) -> bool {
    arg matches Arg::Text(t) && t@ == s
}

/// Whether an argument is that path.
pub open spec fn is_path(arg: Arg, place: PathView) -> bool {
    arg matches Arg::Path(path) && path@ == place
}

/// Whether these are the arguments of `tar` that unpack an archive and leave out its outermost
/// directory.
pub open spec fn is_tar_args(args: Seq<Arg>, archive: PathView, dest: PathView) -> bool {
    &&& args.len() == 5
    &&& is_text(args[0], "xzf"@)
    &&& is_path(args[1], archive)
    &&& is_text(args[2], "-C"@)
    &&& is_path(args[3], dest)
    &&& is_text(args[4], "--strip-components=1"@)
}

/// The arguments of `tar` that unpack an archive and leave out its outermost directory.
pub fn tar_args(archive: &InstallPath, dest: &InstallPath) -> (res: Vec<Arg>)
    ensures
        is_tar_args(res@, archive@, dest@),
{
    let mut res: Vec<Arg> = Vec::new();
    res.push(Arg::Text(String::from_str("xzf")));
    res.push(Arg::Path(archive.clone()));
    res.push(Arg::Text(String::from_str("-C")));
    res.push(Arg::Path(dest.clone()));
    res.push(Arg::Text(String::from_str("--strip-components=1")));
    res
}

/// What came of running `tar`: its exit status says whether the archive was unpacked.
pub fn tar_result(success: bool) -> (res: Event)
    ensures
        success ==> res == Event::Done,
        !success ==> (res matches Event::Failed(Error::Provision(reason)) && reason@
            == "tar extraction failed"@),
{
    if success {
        Event::Done
    } else {
        Event::Failed(Error::Provision(String::from_str("tar extraction failed")))
    }
}

/// What is found is one of the places, something lies there, and nothing lies at any place before
/// it. Nothing is found only where nothing lies at any of them.
pub proof fn law_first_existing(candidates: Seq<PathView>, exists: Seq<bool>, k: int)
    requires
        candidates.len() == exists.len(),
        0 <= k < exists.len(),
    ensures
        exists[k] && (forall|j: int| 0 <= j < k ==> !(#[trigger] exists[j])) ==> first_existing(
            candidates,
            exists,
        ) == Some(candidates[k]),
        (forall|j: int| 0 <= j < exists.len() ==> !(#[trigger] exists[j])) ==> first_existing(
            candidates,
            exists,
        ) is None,
    decreases exists.len(),
{
    let rest = candidates.skip(1);
    let told = exists.skip(1);
    if !exists[0] {
        assert forall|j: int| 0 <= j < told.len() implies #[trigger] told[j] == exists[j + 1] by {}
        if k > 0 {
            law_first_existing(rest, told, k - 1);
        } else if told.len() > 0 {
            law_first_existing(rest, told, 0);
        }
    }
}

/// A name that ends in `.zip` is that of a zip file, whatever comes before it, and no other name is.
pub proof fn law_zip_by_ending(name: Seq<char>, n: int)
    requires
        n == name.len(),
    ensures
        kind_of(name + seq!['.', 'z', 'i', 'p']) == ArchiveKind::Zip,
        n < 4 ==> kind_of(name) == ArchiveKind::TarGz,
        n >= 4 && !(name[n - 4] == '.' && name[n - 3] == 'z' && name[n - 2] == 'i' && name[n - 1]
            == 'p') ==> kind_of(name) == ArchiveKind::TarGz,
{
    reveal_strlit(".zip");
    let zip = ".zip"@;
    assert(zip =~= seq!['.', 'z', 'i', 'p']);
    let longer = name + seq!['.', 'z', 'i', 'p'];
    assert(longer.subrange(n, n + 4) =~= zip);
    if n >= 4 && zip.is_suffix_of(name) {
        let end = name.subrange(n - 4, n);
        assert(end[0] == '.' && end[1] == 'z' && end[2] == 'i' && end[3] == 'p');
    }
}

/// `tar` is asked to unpack that archive into that directory, without its outermost directory.
pub proof fn law_tar_args(args: Seq<Arg>, archive: PathView, dest: PathView)
    requires
        is_tar_args(args, archive, dest),
    ensures
        args.len() == 5,
        args[0] matches Arg::Text(t) && t@ == "xzf"@,
        args[1] matches Arg::Path(p) && p@ == archive,
        args[2] matches Arg::Text(t) && t@ == "-C"@,
        args[3] matches Arg::Path(p) && p@ == dest,
        args[4] matches Arg::Text(t) && t@ == "--strip-components=1"@,
{
}

} // verus!
