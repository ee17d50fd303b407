//! Where things lie below the data directory.
use std::path::PathBuf;
use vstd::prelude::*;
use vstd::string::*;
use crate::text;

verus! {

/// Name of the file that records what is installed.
pub const VERSION_FILE: &'static str = "version.json";

/// Name of the advisory lock.
pub const LOCK_FILE: &'static str = ".lock";

/// Name of the directory that LanguageTool is unzipped into.
pub const DIST_DIR: &'static str = "dist";

/// Name of the directory that a downloaded Java runtime is unpacked into.
pub const JRE_DIR: &'static str = "jre";

/// A path of the platform, which need not be Unicode. It is carried through and never looked into.
#[verifier::external_type_specification]
#[verifier::external_body]
pub struct ExPathBuf(std::path::PathBuf);

/// `PathBuf::clone`: the clone is the same path.
pub assume_specification[ <std::path::PathBuf as Clone>::clone ](path: &std::path::PathBuf) -> (res:
    std::path::PathBuf)
    ensures
        res == *path,
;

/// A path, as the texts that are joined in order to form it, onto a path of the platform where it
/// starts with one. Joining follows the rules of the platform that the path is used on.
#[derive(Debug)]
pub struct InstallPath {
    pub base: Option<PathBuf>,
    pub parts: Vec<String>,
}

/// What a path is made of.
#[verifier::ext_equal]
pub struct PathView {
    pub base: Option<PathBuf>,
    pub parts: Seq<Seq<char>>,
}

impl PathView {
    /// The path that starts, and ends, with a text.
    pub open spec fn of_text(text: Seq<char>) -> Self {
        PathView { base: None, parts: seq![text] }
    }

    /// The path that starts, and ends, with a path of the platform.
    pub open spec fn of_base(base: PathBuf) -> Self {
        PathView { base: Some(base), parts: Seq::empty() }
    }

    /// The path with one more text joined onto it.
    pub open spec fn push(self, part: Seq<char>) -> Self {
        PathView { parts: self.parts.push(part), ..self }
    }

    /// The path with more texts joined onto it.
    pub open spec fn below(self, parts: Seq<Seq<char>>) -> Self {
        PathView { parts: self.parts + parts, ..self }
    }
}

impl View for InstallPath {
    type V = PathView;

    open spec fn view(&self) -> PathView {
        PathView { base: self.base, parts: text::texts(self.parts@) }
    }
}

impl Clone for InstallPath {
    fn clone(&self) -> (res: Self)
        ensures
            res@ == self@,
    {
        let base: Option<PathBuf> = match &self.base {
            Some(base) => Some(base.clone()),
            None => None,
        };
        InstallPath { base, parts: text::clone_strings(&self.parts) }
    }
}

impl InstallPath {
    /// The path that starts, and ends, with the text `root`.
    pub fn new(root: &str) -> (res: Self)
        ensures
            res@ == PathView::of_text(root@),
    {
        let mut parts: Vec<String> = Vec::new();
        parts.push(String::from_str(root));
        let res = InstallPath { base: None, parts };
        assert(res@.parts =~= seq![root@]);
        res
    }

    /// The path that starts, and ends, with a path of the platform.
    pub fn from_base(base: PathBuf) -> (res: Self)
        ensures
            res@ == PathView::of_base(base),
    {
        let res = InstallPath { base: Some(base), parts: Vec::new() };
        assert(res@.parts =~= Seq::<Seq<char>>::empty());
        res
    }

    /// This path with one more text joined onto it.
    pub fn join(&self, part: &str) -> (res: Self)
        ensures
            res@ == self@.push(part@),
    {
        let mut res: InstallPath = self.clone();
        let ghost before = res@;
        res.parts.push(String::from_str(part));
        assert(res@.parts =~= before.parts.push(part@));
        res
    }
}

/// What an optional path is made of.
pub open spec fn optional_path(path: Option<InstallPath>) -> Option<PathView> {
    match path {
        Some(path) => Some(path@),
        None => None,
    }
}

/// What each of several paths is made of.
pub open spec fn paths(list: Seq<InstallPath>) -> Seq<PathView> {
    list.map_values(|path: InstallPath| path@)
}

/// The same paths in the same order.
pub fn clone_paths(list: &Vec<InstallPath>) -> (res: Vec<InstallPath>)
    ensures
        paths(res@) == paths(list@),
{
    let mut res: Vec<InstallPath> = Vec::new();
    let mut i: usize = 0;
    while i < list.len()
        invariant
            i <= list@.len(),
            paths(res@) == paths(list@).take(i as int),
        decreases list.len() - i,
    {
        let ghost before = res@;
        res.push(list[i].clone());
        assert(paths(res@) =~= paths(before).push(list@[i as int]@));
        i = i + 1;
    }
    assert(paths(res@) =~= paths(list@));
    res
}

/// The files and directories that provisioning works on.
#[derive(Clone, Copy, Debug, PartialEq, Eq, Structural)]
pub enum Asset {
    /// The data directory itself.
    DataDir,
    /// The advisory lock.
    Lock,
    /// The record of what is installed.
    VersionFile,
    /// The LanguageTool archive while it is being downloaded and checked.
    LtPart,
    /// The LanguageTool archive once it is complete.
    LtZip,
    /// The directory that LanguageTool is unzipped into.
    Dist,
    /// The archive of the Java runtime.
    JreArchive,
    /// The directory that the Java runtime is unpacked into.
    Jre,
}

/// What is joined onto the data directory to reach an asset.
pub open spec fn asset_parts(asset: Asset) -> Seq<Seq<char>> {
    match asset {
        Asset::DataDir => Seq::empty(),
        Asset::Lock => seq![".lock"@],
        Asset::VersionFile => seq!["version.json"@],
        Asset::LtPart => seq!["LanguageTool.zip.part"@],
        Asset::LtZip => seq!["LanguageTool.zip"@],
        Asset::Dist => seq!["dist"@],
        Asset::JreArchive => seq!["jre.part"@],
        Asset::Jre => seq!["jre"@],
    }
}

impl Asset {
    /// Where the asset lies.
    pub fn path(&self, data_dir: &InstallPath) -> (res: InstallPath)
        ensures
            res@ == data_dir@.below(asset_parts(*self)),
    {
        let res = match self {
            Asset::DataDir => data_dir.clone(),
            Asset::Lock => data_dir.join(LOCK_FILE),
            Asset::VersionFile => data_dir.join(VERSION_FILE),
            Asset::LtPart => data_dir.join("LanguageTool.zip.part"),
            Asset::LtZip => data_dir.join("LanguageTool.zip"),
            Asset::Dist => data_dir.join(DIST_DIR),
            Asset::JreArchive => data_dir.join("jre.part"),
            Asset::Jre => data_dir.join(JRE_DIR),
        };
        assert(res@ =~= data_dir@.below(asset_parts(*self)));
        res
    }
}

/// What is joined onto the data directory to reach the server jar of a LanguageTool version.
pub open spec fn server_jar_parts(lt_version: Seq<char>) -> Seq<Seq<char>> {
    seq!["dist"@, "LanguageTool-"@ + lt_version, "languagetool-server.jar"@]
}

/// The path of the server jar inside the dist directory.
pub fn server_jar_path(data_dir: &InstallPath, lt_version: &str) -> (res: InstallPath)
    ensures
        res@ == data_dir@.below(server_jar_parts(lt_version@)),
{
    let res: InstallPath = data_dir.join(DIST_DIR).join(
        text::concat("LanguageTool-", lt_version).as_str(),
    ).join("languagetool-server.jar");
    assert(res@ =~= data_dir@.below(server_jar_parts(lt_version@)));
    res
}

/// Two assets that lie at the same place are the same asset.
pub proof fn law_assets_distinct(a: Asset, b: Asset)
    requires
        asset_parts(a) == asset_parts(b),
    ensures
        a == b,
{
    reveal_strlit(".lock");
    reveal_strlit("version.json");
    reveal_strlit("LanguageTool.zip.part");
    reveal_strlit("LanguageTool.zip");
    reveal_strlit("dist");
    reveal_strlit("jre.part");
    reveal_strlit("jre");
    assert(".lock"@.len() == 5 && "version.json"@.len() == 12 && "LanguageTool.zip.part"@.len()
        == 21 && "LanguageTool.zip"@.len() == 16 && "dist"@.len() == 4 && "jre.part"@.len() == 8
        && "jre"@.len() == 3);
    if a != Asset::DataDir && b != Asset::DataDir {
        assert(asset_parts(a)[0] == asset_parts(b)[0]);
        let n = asset_parts(a)[0].len();
        match a {
            Asset::DataDir => {},
            Asset::Lock => assert(n == 5),
            Asset::VersionFile => assert(n == 12),
            Asset::LtPart => assert(n == 21),
            Asset::LtZip => assert(n == 16),
            Asset::Dist => assert(n == 4),
            Asset::JreArchive => assert(n == 8),
            Asset::Jre => assert(n == 3),
        }
    } else if a != b {
        let other = if a == Asset::DataDir { b } else { a };
        assert(asset_parts(Asset::DataDir).len() == 0);
        assert(asset_parts(other).len() == 1) by {
            match other {
                Asset::DataDir => {},
                Asset::Lock => {},
                Asset::VersionFile => {},
                Asset::LtPart => {},
                Asset::LtZip => {},
                Asset::Dist => {},
                Asset::JreArchive => {},
                Asset::Jre => {},
            }
        }
    }
}

/// The server jar lies inside the dist directory, and the jars of two versions lie apart.
pub proof fn law_server_jar_inside_dist(v: Seq<char>, w: Seq<char>)
    ensures
        asset_parts(Asset::Dist).is_prefix_of(server_jar_parts(v)),
        server_jar_parts(v) == server_jar_parts(w) ==> v == w,
{
    let p = "LanguageTool-"@;
    assert(server_jar_parts(v).take(1) =~= asset_parts(Asset::Dist));
    if server_jar_parts(v) == server_jar_parts(w) {
        assert(server_jar_parts(v)[1] == server_jar_parts(w)[1]);
        assert(v =~= (p + v).skip(p.len() as int));
        assert(w =~= (p + w).skip(p.len() as int));
    }
}

/// Joining a text onto a path changes nothing of what is there and adds that text at the end.
pub proof fn law_join_adds_at_the_end(path: PathView, part: Seq<char>, i: int)
    ensures
        path.push(part).base == path.base,
        path.push(part).parts.len() == path.parts.len() + 1,
        path.push(part).parts.last() == part,
        0 <= i < path.parts.len() ==> path.push(part).parts[i] == path.parts[i],
{
}

/// Joining several texts is joining them one after the other.
pub proof fn law_below_joins_in_order(path: PathView, parts: Seq<Seq<char>>, part: Seq<char>)
    ensures
        path.below(Seq::empty()) == path,
        path.below(parts.push(part)) == path.below(parts).push(part),
        PathView::of_text(part).parts == seq![part],
        PathView::of_text(part).base is None,
{
    assert(path.below(Seq::empty()).parts =~= path.parts);
    assert(path.below(parts.push(part)).parts =~= path.below(parts).push(part).parts);
}

/// Everything that is installed lies in the data directory, under a name that its owner is known
/// by, one level below it.
pub proof fn law_assets_lie_in_data_dir(data_dir: PathView, asset: Asset)
    ensures
        data_dir.below(asset_parts(asset)).base == data_dir.base,
        data_dir.parts.is_prefix_of(data_dir.below(asset_parts(asset)).parts),
        asset != Asset::DataDir ==> data_dir.below(asset_parts(asset)).parts == data_dir.parts.push(
            match asset {
                Asset::DataDir => ""@,
                Asset::Lock => ".lock"@,
                Asset::VersionFile => "version.json"@,
                Asset::LtPart => "LanguageTool.zip.part"@,
                Asset::LtZip => "LanguageTool.zip"@,
                Asset::Dist => "dist"@,
                Asset::JreArchive => "jre.part"@,
                Asset::Jre => "jre"@,
            },
        ),
        asset == Asset::DataDir ==> data_dir.below(asset_parts(asset)) == data_dir,
{
    let place = data_dir.below(asset_parts(asset));
    assert(place.parts.take(data_dir.parts.len() as int) =~= data_dir.parts);
    match asset {
        Asset::DataDir => assert(place.parts =~= data_dir.parts),
        Asset::Lock => assert(place.parts =~= data_dir.parts.push(".lock"@)),
        Asset::VersionFile => assert(place.parts =~= data_dir.parts.push("version.json"@)),
        Asset::LtPart => assert(place.parts =~= data_dir.parts.push("LanguageTool.zip.part"@)),
        Asset::LtZip => assert(place.parts =~= data_dir.parts.push("LanguageTool.zip"@)),
        Asset::Dist => assert(place.parts =~= data_dir.parts.push("dist"@)),
        Asset::JreArchive => assert(place.parts =~= data_dir.parts.push("jre.part"@)),
        Asset::Jre => assert(place.parts =~= data_dir.parts.push("jre"@)),
    }
}

/// The server jar is the file `languagetool-server.jar` in the directory that carries the version,
/// written out whole.
pub proof fn law_server_jar_is_named_after_version(data_dir: PathView, v: Seq<char>)
    ensures
        data_dir.below(server_jar_parts(v)).base == data_dir.base,
        data_dir.below(server_jar_parts(v)).parts == data_dir.parts.push("dist"@).push(
            "LanguageTool-"@ + v,
        ).push("languagetool-server.jar"@),
{
    assert(data_dir.below(server_jar_parts(v)).parts =~= data_dir.parts.push("dist"@).push(
        "LanguageTool-"@ + v,
    ).push("languagetool-server.jar"@));
}

} // verus!
