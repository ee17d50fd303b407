//! What is asked for after what, told by the work that was asked for and what came of it alone: in
//! a run of provisioning, of an engine that is provisioned, and of a start.
use vstd::prelude::*;
use crate::client::CheckRequest;
use crate::config::Os;
use crate::engine::{LanguageToolEngine, StartAction, StartEvent, StartFlow, StartStage};
use crate::error::Error;
use crate::laws::{ProvisionRun, StartRun};
use crate::layout::{Asset, InstallPath, PathView};
use crate::lifecycle::{LaunchCommand, ServerProcess, WaitAction, WaitEvent, WaitStage};
use crate::provision::{Provisioner, Stage};
use crate::resolve::JavaStage;
use crate::state::{EngineState, SharedState};
use crate::task::{Action, Arg, Directive, Event, VersionJson};
use crate::{client, digest, engine, error, java, laws, layout, lifecycle, resolve, state, task, text};

verus! {

/// The name of the Java binary on a platform.
pub open spec fn binary(os: Os) -> Seq<char> {
    match os {
        Os::Windows => "java.exe"@,
        Os::Macos => "java"@,
        Os::Linux => "java"@,
        Os::Other => "java"@,
    }
}

/// Whether a step only asks for work: nothing is reported, and the shared state stays as it is.
pub open spec fn is_silent(run: ProvisionRun, i: int) -> bool {
    run.out[i].report is None && run.after[i] == run.before[i]
}

/// Whether a step goes on to download LanguageTool, once a Java runtime was chosen, and makes that
/// runtime known.
pub open spec fn settles(run: ProvisionRun, i: int, java: PathView, system: bool) -> bool {
    &&& run.out[i].action matches Action::Download { url, dest }
    &&& url@ == run.cfg.lt_download_url@
    &&& dest == Asset::LtPart
    &&& run.out[i].report is None
    &&& run.after[i].java_path matches Some(path)
    &&& path@ == java
    &&& run.after[i].using_system_java == system
    &&& run.after[i].state == run.before[i].state
    &&& run.after[i].port == run.before[i].port
}

/// Whether a step ends a run with that error.
pub open spec fn fails_with(run: ProvisionRun, i: int, e: Error) -> bool {
    run.out[i].action == Action::Finish(Err(e)) && is_silent(run, i)
}

/// The platform of a run never changes.
proof fn lemma_os(run: ProvisionRun, k: int)
    requires
        run.valid(),
        0 <= k <= run.len(),
    ensures
        run.states[k].resolver.os == run.states[0].resolver.os,
    decreases k,
{
    if k > 0 {
        lemma_os(run, k - 1);
        assert(run.takes(k - 1));
    }
}

/// While a Java runtime is being chosen, the choice has no outcome and fits its stage.
proof fn lemma_java_stage(run: ProvisionRun, k: int)
    requires
        run.valid(),
        0 <= k <= run.len(),
        laws::rank(run.states[k].stage) <= 4,
    ensures
        run.states[k].resolver.outcome is None,
        run.states[k].resolver.valid(),
        laws::rank(run.states[k].stage) < 4 ==> run.states[k].resolver.is_begun(),
    decreases k,
{
    if k > 0 {
        assert(run.takes(k - 1));
        laws::law_provision_goes_forward(run, k - 1, k);
        lemma_java_stage(run, k - 1);
    }
}

/// Which work is under way, by what was asked for last.
proof fn lemma_asked(run: ProvisionRun, i: int)
    requires
        run.valid(),
        0 <= i < run.len(),
    ensures
        ({
            let now = run.states[i + 1];
            let stage = now.resolver.stage;
            match run.out[i].action {
                Action::CreateDir(asset) => {
                    ||| asset == Asset::Dist && now.stage == Stage::CreateDist
                    ||| asset == Asset::Jre && now.stage == Stage::Java && stage
                        == JavaStage::CreateDir
                },
                Action::TakeLock => now.stage == Stage::Lock,
                Action::InspectInstall => now.stage == Stage::Inspect,
                Action::ReadVersion => now.stage == Stage::Restore,
                Action::ReadJavaHome => now.stage == Stage::Java && stage == JavaStage::Home,
                Action::Probe(path) => {
                    &&& now.stage == Stage::Java
                    &&& stage == JavaStage::HomeProbe || stage == JavaStage::JreProbe
                    &&& now.resolver.probed matches Some(probed)
                    &&& probed@ == path@
                },
                Action::ProbeOnPath(_) => now.stage == Stage::Java && stage
                    == JavaStage::PathProbe,
                Action::Download { url: _, dest } => {
                    ||| dest == Asset::LtPart && now.stage == Stage::Download
                    ||| dest == Asset::JreArchive && now.stage == Stage::Java && stage
                        == JavaStage::Download
                },
                Action::Receive => {
                    ||| now.stage == Stage::Download
                    ||| now.stage == Stage::Java && stage == JavaStage::Download
                },
                Action::ReadFile(asset) => {
                    ||| asset == Asset::LtPart && now.stage == Stage::Digest
                    ||| asset == Asset::JreArchive && now.stage == Stage::Java && stage
                        == JavaStage::Digest
                },
                Action::RemoveFile(asset) => {
                    ||| asset == Asset::LtPart && now.stage == Stage::Discard
                    ||| asset == Asset::LtZip && now.stage == Stage::Cleanup
                    ||| asset == Asset::JreArchive && now.stage == Stage::Java && (stage
                        == JavaStage::Discard || stage == JavaStage::Cleanup)
                },
                Action::Rename { from: _, to: _ } => now.stage == Stage::Rename,
                Action::Unpack { kind: _, archive: _, dest: _ } => now.stage == Stage::Java && stage
                    == JavaStage::Unpack,
                Action::ListDir(_) => now.stage == Stage::Java && stage == JavaStage::List,
                Action::FindJava(places) => {
                    &&& now.stage == Stage::Java
                    &&& stage == JavaStage::Find
                    &&& layout::paths(places@) == layout::paths(now.resolver.candidates@)
                },
                Action::Unzip { archive: _, dest: _ } => now.stage == Stage::Unzip,
                Action::WriteVersion(_) => now.stage == Stage::Record,
                Action::Resolved => false,
                Action::Finish(_) => now.stage == Stage::Done,
                Action::Unexpected => now == run.states[i],
            }
        }),
{
    assert(run.takes(i));
    if laws::rank(run.states[i].stage) <= 4 {
        lemma_java_stage(run, i);
    }
}

/// An event that answers no work that was asked for changes nothing, and nothing else is answered
/// with that.
pub proof fn law_unexpected_changes_nothing(run: ProvisionRun, i: int)
    requires
        run.valid(),
        0 <= i < run.len(),
        run.out[i].action is Unexpected,
    ensures
        run.states[i + 1] == run.states[i],
        is_silent(run, i),
{
    assert(run.takes(i));
    lemma_asked(run, i);
    if laws::rank(run.states[i].stage) <= 4 {
        lemma_java_stage(run, i);
    }
}

/// Provisioning begins with the data directory and the lock. That the lock cannot be taken does not
/// matter.
pub proof fn law_begins_with_lock(run: ProvisionRun, i: int)
    requires
        run.valid(),
        0 <= i < run.len(),
    ensures
        i == 0 && run.events[0] == Event::Done ==> run.out[0].action is TakeLock && is_silent(
            run,
            0,
        ),
        i == 0 ==> (run.events[0] matches Event::Failed(e) ==> fails_with(run, 0, e)),
        i > 0 && run.out[i - 1].action is TakeLock && (run.events[i] == Event::Done
            || run.events[i] is Failed) ==> run.out[i].action is InspectInstall && is_silent(run, i),
{
    assert(run.takes(i));
    if i > 0 {
        lemma_asked(run, i - 1);
    }
}

/// Nothing is installed where the jar is there, and the version file names the configured version
/// and, unless none is configured, the configured digest. Everything else leads to an installation,
/// which shows as a download from the beginning.
pub proof fn law_installs_unless_installed(
    run: ProvisionRun,
    i: int,
    jar_exists: bool,
    version: Option<VersionJson>,
)
    requires
        run.valid(),
        0 < i < run.len(),
        run.out[i - 1].action is InspectInstall,
        run.events[i] == (Event::Installation { jar_exists, version }),
    ensures
        run.out[i].action is ReadVersion <==> jar_exists && (version matches Some(v)
            && v.lt_version@ == run.cfg.lt_version@ && (run.cfg.lt_sha256@ == ""@ || v.lt_sha256@
            == run.cfg.lt_sha256@)),
        run.out[i].action is ReadVersion ==> is_silent(run, i),
        !(run.out[i].action is ReadVersion) ==> run.out[i].action is ReadJavaHome
            && run.out[i].report is None && run.after[i] == (SharedState {
            state: EngineState::Downloading { downloaded: 0, total: None },
            ..run.before[i]
        }),
{
    lemma_asked(run, i - 1);
    assert(run.takes(i));
    reveal_strlit("");
    assert(""@.len() == 0);
    if run.cfg.lt_sha256@.len() == 0 {
        assert(run.cfg.lt_sha256@ =~= ""@);
    }
}

/// What is installed is taken as it is: the Java runtime that the version file names becomes known,
/// and nothing else changes.
pub proof fn law_takes_over_what_is_installed(
    run: ProvisionRun,
    i: int,
    version: Option<VersionJson>,
)
    requires
        run.valid(),
        0 < i < run.len(),
        run.out[i - 1].action is ReadVersion,
        run.events[i] == Event::Version(version),
    ensures
        run.out[i].action == Action::Finish(Ok(())),
        run.out[i].report is None,
        run.after[i].state == run.before[i].state,
        run.after[i].port == run.before[i].port,
        version matches Some(v) ==> run.after[i].java_path == Some(v.java_path)
            && run.after[i].using_system_java == v.using_system_java,
        version is None ==> run.after[i] == run.before[i],
{
    lemma_asked(run, i - 1);
    assert(run.takes(i));
}

/// The Java runtime of `JAVA_HOME` is looked at first, where that is set, and else the one on the
/// search path, under the name that the binary has on the platform.
pub proof fn law_java_home_comes_first(run: ProvisionRun, i: int, home: Option<String>)
    requires
        run.valid(),
        0 < i < run.len(),
        run.out[i - 1].action is ReadJavaHome,
        run.events[i] == Event::JavaHome(home),
    ensures
        is_silent(run, i),
        home matches Some(h) ==> (run.out[i].action matches Action::Probe(path)
            && path@.base is None && path@.parts == seq![
            h@,
            "bin"@,
            binary(run.states[0].resolver.os),
        ]),
        home is None ==> (run.out[i].action matches Action::ProbeOnPath(name) && name@ == binary(
            run.states[0].resolver.os,
        )),
{
    lemma_asked(run, i - 1);
    lemma_java_stage(run, i);
    lemma_os(run, i);
    assert(run.takes(i));
    let os = run.states[0].resolver.os;
    resolve::law_java_binary_fits_platform(os);
    if let Some(h) = home {
        assert(PathView::of_text(h@).below(resolve::java_parts(os)).parts =~= seq![
            h@,
            "bin"@,
            binary(os),
        ]);
    }
}

/// The runtime of `JAVA_HOME` is used, as it was probed, where it is of version 17 or later, and else
/// the one on the search path is looked at.
pub proof fn law_java_home_is_used(
    run: ProvisionRun,
    i: int,
    path: InstallPath,
    output: Option<java::JavaOutput>,
)
    requires
        run.valid(),
        1 < i < run.len(),
        run.out[i - 2].action is ReadJavaHome,
        run.out[i - 1].action == Action::Probe(path),
        run.events[i] == (Event::Probed { output }),
    ensures
        java::probed_version(output) >= 17 ==> settles(run, i, path@, true),
        java::probed_version(output) < 17 ==> is_silent(run, i) && (
        run.out[i].action matches Action::ProbeOnPath(name) && name@ == binary(
            run.states[0].resolver.os,
        )),
{
    lemma_asked(run, i - 2);
    assert(run.takes(i - 1));
    lemma_asked(run, i - 1);
    lemma_java_stage(run, i - 1);
    lemma_java_stage(run, i);
    lemma_os(run, i);
    assert(run.takes(i));
    resolve::law_java_binary_fits_platform(run.states[0].resolver.os);
}

/// The runtime on the search path is used where it is of version 17 or later, and else one that was
/// downloaded before is looked at.
pub proof fn law_java_on_path_is_used(
    run: ProvisionRun,
    i: int,
    output: Option<java::JavaOutput>,
)
    requires
        run.valid(),
        0 < i < run.len(),
        run.out[i - 1].action is ProbeOnPath,
        run.events[i] == (Event::Probed { output }),
    ensures
        java::probed_version(output) >= 17 ==> settles(
            run,
            i,
            PathView { base: None, parts: seq![binary(run.states[0].resolver.os)] },
            true,
        ),
        java::probed_version(output) < 17 ==> is_silent(run, i) && (
        run.out[i].action matches Action::Probe(path) && path@.base == run.cfg.data_dir@.base
            && path@.parts == run.cfg.data_dir@.parts + seq![
            "jre"@,
            "bin"@,
            binary(run.states[0].resolver.os),
        ]),
{
    lemma_asked(run, i - 1);
    lemma_java_stage(run, i);
    lemma_os(run, i);
    assert(run.takes(i));
    let os = run.states[0].resolver.os;
    resolve::law_java_binary_fits_platform(os);
    let data = run.cfg.data_dir@;
    assert(data.below(layout::asset_parts(Asset::Jre)).below(resolve::java_parts(os)).parts
        =~= data.parts + seq!["jre"@, "bin"@, binary(os)]);
}

/// A runtime that was downloaded before is used, as one that is not of the system, where it is of
/// version 17 or later. Else one is downloaded from the configured URL, and without that there is no
/// Java runtime.
pub proof fn law_downloaded_java_is_used(
    run: ProvisionRun,
    i: int,
    path: InstallPath,
    output: Option<java::JavaOutput>,
)
    requires
        run.valid(),
        1 < i < run.len(),
        run.out[i - 2].action is ProbeOnPath,
        run.out[i - 1].action == Action::Probe(path),
        run.events[i] == (Event::Probed { output }),
    ensures
        java::probed_version(output) >= 17 ==> settles(run, i, path@, false),
        java::probed_version(output) < 17 ==> match run.cfg.jre_download_url {
            Some(url) => is_silent(run, i) && run.out[i].action == (Action::Download {
                url,
                dest: Asset::JreArchive,
            }),
            None => fails_with(run, i, Error::NoJavaRuntime),
        },
{
    lemma_asked(run, i - 2);
    assert(run.takes(i - 1));
    lemma_asked(run, i - 1);
    lemma_java_stage(run, i - 1);
    lemma_java_stage(run, i);
    assert(run.takes(i));
}

/// A Java runtime that was downloaded is verified where a digest is configured for it, and only then
/// unpacked.
pub proof fn law_jre_is_verified(run: ProvisionRun, i: int)
    requires
        run.valid(),
        0 <= i < run.len(),
        run.states[i].stage == Stage::Java,
        run.states[i].resolver.stage == JavaStage::Download,
        run.events[i] == Event::End,
    ensures
        is_silent(run, i),
        run.cfg.jre_sha256 is Some ==> run.out[i].action == Action::ReadFile(Asset::JreArchive),
        run.cfg.jre_sha256 is None ==> run.out[i].action == Action::CreateDir(Asset::Jre),
{
    lemma_java_stage(run, i);
    assert(run.takes(i));
}

/// An archive of a Java runtime is unpacked where the digest of its content is the configured one,
/// character for character, and is removed where it is another one.
pub proof fn law_jre_digest_decides(run: ProvisionRun, i: int, data: Vec<u8>, sha: String)
    requires
        run.valid(),
        0 < i < run.len(),
        run.out[i - 1].action == Action::ReadFile(Asset::JreArchive),
        run.events[i] == Event::Bytes(data),
        run.cfg.jre_sha256 == Some(sha),
    ensures
        is_silent(run, i),
        digest::hex_text(digest::sha256(data@)) == sha@ ==> run.out[i].action == Action::CreateDir(
            Asset::Jre,
        ),
        digest::hex_text(digest::sha256(data@)) != sha@ ==> run.out[i].action == Action::RemoveFile(
            Asset::JreArchive,
        ),
        digest::hex_text(digest::sha256(data@)) != sha@ && i + 1 < run.len() && (run.events[i + 1]
            == Event::Done || run.events[i + 1] is Failed) ==> (
        run.out[i + 1].action matches Action::Finish(Err(Error::ChecksumMismatch { expected, actual }))
            && expected@ == sha@ && actual@ == digest::hex_text(digest::sha256(data@))),
{
    lemma_asked(run, i - 1);
    lemma_java_stage(run, i);
    assert(run.takes(i));
    if i + 1 < run.len() && digest::hex_text(digest::sha256(data@)) != sha@ {
        lemma_java_stage(run, i + 1);
        assert(run.takes(i + 1));
    }
}

/// A Java runtime is unpacked into its directory, its archive is removed, which may fail, and what
/// was unpacked is listed.
pub proof fn law_jre_is_unpacked(run: ProvisionRun, i: int)
    requires
        run.valid(),
        0 < i < run.len(),
    ensures
        run.out[i - 1].action == Action::CreateDir(Asset::Jre) && run.events[i] == Event::Done
            ==> is_silent(run, i) && (run.out[i].action matches Action::Unpack {
            kind: _,
            archive,
            dest,
        } && archive == Asset::JreArchive && dest == Asset::Jre),
        run.out[i - 1].action is Unpack && run.events[i] == Event::Done ==> is_silent(run, i)
            && run.out[i].action == Action::RemoveFile(Asset::JreArchive),
        i > 1 && run.out[i - 2].action is Unpack && run.events[i - 1] == Event::Done && (
        run.events[i] == Event::Done || run.events[i] is Failed) ==> is_silent(run, i)
            && run.out[i].action == Action::ListDir(Asset::Jre),
{
    lemma_asked(run, i - 1);
    assert(run.takes(i));
    if laws::rank(run.states[i].stage) <= 4 {
        lemma_java_stage(run, i);
    }
    if i > 1 {
        lemma_asked(run, i - 2);
        assert(run.takes(i - 1));
        if run.out[i - 2].action is Unpack {
            lemma_java_stage(run, i - 1);
        }
    }
}

/// The binary of a runtime that was unpacked is looked for directly in it and then in each of the
/// directories in it.
pub proof fn law_jre_is_searched(run: ProvisionRun, i: int, names: Vec<String>, k: int)
    requires
        run.valid(),
        0 < i < run.len(),
        run.out[i - 1].action == Action::ListDir(Asset::Jre),
        run.events[i] == Event::Entries(names),
    ensures
        is_silent(run, i),
        run.out[i].action matches Action::FindJava(places) && places@.len() == names@.len() + 1
            && places@[0]@.base == run.cfg.data_dir@.base && places@[0]@.parts
            == run.cfg.data_dir@.parts + seq![
            "jre"@,
            "bin"@,
            binary(run.states[0].resolver.os),
        ] && (0 <= k < names@.len() ==> places@[k + 1]@.base == run.cfg.data_dir@.base && places@[k
            + 1]@.parts == run.cfg.data_dir@.parts + seq![
            "jre"@,
            names@[k]@,
            "bin"@,
            binary(run.states[0].resolver.os),
        ]),
{
    lemma_asked(run, i - 1);
    lemma_java_stage(run, i);
    lemma_os(run, i);
    assert(run.takes(i));
    let os = run.states[0].resolver.os;
    resolve::law_java_binary_fits_platform(os);
    let data = run.cfg.data_dir@;
    let jre = data.below(layout::asset_parts(Asset::Jre));
    let candidates = run.states[i + 1].resolver.candidates@;
    if let Action::FindJava(places) = run.out[i].action {
        assert(layout::paths(places@).len() == places@.len());
        assert(layout::paths(candidates).len() == candidates.len());
        assert(layout::paths(places@)[0] == places@[0]@);
        assert(layout::paths(candidates)[0] == candidates[0]@);
        assert(jre.below(resolve::java_parts(os)).parts =~= data.parts + seq![
            "jre"@,
            "bin"@,
            binary(os),
        ]);
        if 0 <= k < names@.len() {
            assert(layout::paths(places@)[k + 1] == places@[k + 1]@);
            assert(layout::paths(candidates)[k + 1] == candidates[k + 1]@);
            assert(jre.push(names@[k]@).below(resolve::java_parts(os)).parts =~= data.parts + seq![
                "jre"@,
                names@[k]@,
                "bin"@,
                binary(os),
            ]);
        }
    }
}

/// The first place at which the binary lies is used, as one that is not of the system, and where it
/// lies at none of them there is no Java runtime.
pub proof fn law_jre_is_found(
    run: ProvisionRun,
    i: int,
    places: Vec<InstallPath>,
    exists: Vec<bool>,
    k: int,
)
    requires
        run.valid(),
        0 < i < run.len(),
        run.out[i - 1].action == Action::FindJava(places),
        run.events[i] == Event::Existing(exists),
        exists@.len() == places@.len(),
        0 <= k < exists@.len(),
    ensures
        exists@[k] && (forall|j: int| 0 <= j < k ==> !(#[trigger] exists@[j])) ==> settles(
            run,
            i,
            places@[k]@,
            false,
        ),
        (forall|j: int| 0 <= j < exists@.len() ==> !(#[trigger] exists@[j])) ==> fails_with(
            run,
            i,
            Error::NoJavaRuntime,
        ),
{
    lemma_asked(run, i - 1);
    lemma_java_stage(run, i);
    assert(run.takes(i));
    let all = layout::paths(places@);
    assert(all.len() == places@.len());
    task::law_first_existing(all, exists@, k);
    assert(all[k] == places@[k]@);
}

/// In every run, each path that is probed or looked for as a Java binary ends in `bin` and the name
/// that the binary has on the platform that the run was begun for.
pub proof fn law_binary_fits_platform(run: ProvisionRun, i: int, k: int)
    requires
        run.valid(),
        0 <= i < run.len(),
    ensures
        run.states[i].resolver.os == run.states[0].resolver.os,
        run.out[i].action matches Action::Probe(path) ==> path@.parts.len() >= 2
            && path@.parts.last() == binary(run.states[0].resolver.os)
            && path@.parts[path@.parts.len() - 2] == "bin"@,
        run.out[i].action matches Action::ProbeOnPath(name) ==> name@ == binary(
            run.states[0].resolver.os,
        ),
        run.out[i].action matches Action::FindJava(places) ==> (0 <= k < places@.len()
            ==> places@[k]@.parts.len() >= 2 && places@[k]@.parts.last() == binary(
            run.states[0].resolver.os,
        ) && places@[k]@.parts[places@[k]@.parts.len() - 2] == "bin"@),
{
    lemma_os(run, i);
    assert(run.takes(i));
    if laws::rank(run.states[i].stage) <= 4 {
        lemma_java_stage(run, i);
    }
    let os = run.states[0].resolver.os;
    resolve::law_java_binary_fits_platform(os);
    if let Action::FindJava(places) = run.out[i].action {
        let candidates = run.states[i + 1].resolver.candidates@;
        assert(layout::paths(places@).len() == places@.len());
        assert(layout::paths(candidates).len() == candidates.len());
        if 0 <= k < places@.len() {
            assert(layout::paths(places@)[k] == places@[k]@);
            assert(layout::paths(candidates)[k] == candidates[k]@);
            if k > 0 {
                assert(candidates[(k - 1) + 1] == candidates[k]);
            }
        }
    }
}

/// What is announced as the size of LanguageTool before moment `k`.
pub open spec fn announced(run: ProvisionRun, k: int) -> Option<u64>
    decreases k,
{
    if k <= 0 {
        None
    } else {
        match (run.states[k - 1].stage, run.events[k - 1]) {
            (Stage::Download, Event::Headers { total }) => total,
            _ => announced(run, k - 1),
        }
    }
}

/// The size that was announced is remembered.
proof fn lemma_announced(run: ProvisionRun, k: int)
    requires
        run.valid(),
        0 <= k <= run.len(),
    ensures
        laws::rank(run.states[k].stage) < 5 ==> announced(run, k) is None,
        run.states[k].stage == Stage::Download ==> run.states[k].download.total == announced(
            run,
            k,
        ),
    decreases k,
{
    if k > 0 {
        lemma_announced(run, k - 1);
        assert(run.takes(k - 1));
        laws::law_provision_goes_forward(run, k - 1, k);
    }
}

/// Each piece of LanguageTool that is written is shown and reported at once: with the number of
/// bytes so far, and with the size that was announced.
pub proof fn law_progress_is_shown(run: ProvisionRun, i: int)
    requires
        run.valid(),
        forall|j: int| 0 <= j < run.len() ==> #[trigger] run.states[j].fits(run.events[j]),
        0 <= i < run.len(),
        run.states[i].stage == Stage::Download,
        run.events[i] is Chunk,
    ensures
        run.after[i].state matches EngineState::Downloading { downloaded, total } && downloaded
            == run.written(i + 1) && total == announced(run, i),
        run.out[i].report == Some(run.after[i].state),
        run.out[i].action is Receive,
        run.after[i] == (SharedState { state: run.after[i].state, ..run.before[i] }),
{
    laws::law_progress_counts_bytes(run, i);
    lemma_announced(run, i);
    assert(run.takes(i));
}

/// A download goes on until its end, and what was downloaded is then shown as being installed: it
/// is verified where a digest is configured, and else renamed.
pub proof fn law_download_goes_on(run: ProvisionRun, i: int)
    requires
        run.valid(),
        0 < i < run.len(),
        run.out[i - 1].action matches Action::Download { url: _, dest } && dest == Asset::LtPart
            || (run.out[i - 1].action is Receive && run.states[i].stage == Stage::Download),
    ensures
        run.events[i] is Headers ==> run.out[i].action is Receive && is_silent(run, i),
        run.events[i] == Event::End ==> {
            &&& run.after[i] == SharedState { state: EngineState::Installing, ..run.before[i] }
            &&& run.out[i].report == Some(EngineState::Installing)
            &&& run.cfg.lt_sha256@ != ""@ ==> run.out[i].action == Action::ReadFile(Asset::LtPart)
            &&& run.cfg.lt_sha256@ == ""@ ==> run.out[i].action == (Action::Rename {
                from: Asset::LtPart,
                to: Asset::LtZip,
            })
        },
{
    lemma_asked(run, i - 1);
    assert(run.takes(i));
    reveal_strlit("");
    assert(""@.len() == 0);
    if run.cfg.lt_sha256@.len() == 0 {
        assert(run.cfg.lt_sha256@ =~= ""@);
    }
}

/// LanguageTool is installed where the digest of what was downloaded is the configured one, character
/// for character. Else it is removed, and provisioning fails with both digests, whether or not it
/// could be removed.
pub proof fn law_digest_decides(run: ProvisionRun, i: int, data: Vec<u8>)
    requires
        run.valid(),
        0 < i < run.len(),
        run.out[i - 1].action == Action::ReadFile(Asset::LtPart),
        run.events[i] == Event::Bytes(data),
    ensures
        is_silent(run, i),
        digest::hex_text(digest::sha256(data@)) == run.cfg.lt_sha256@ ==> run.out[i].action == (
        Action::Rename { from: Asset::LtPart, to: Asset::LtZip }),
        digest::hex_text(digest::sha256(data@)) != run.cfg.lt_sha256@ ==> run.out[i].action
            == Action::RemoveFile(Asset::LtPart),
        digest::hex_text(digest::sha256(data@)) != run.cfg.lt_sha256@ && i + 1 < run.len() && (
        run.events[i + 1] == Event::Done || run.events[i + 1] is Failed) ==> (
        run.out[i + 1].action matches Action::Finish(Err(Error::ChecksumMismatch { expected, actual }))
            && expected@ == run.cfg.lt_sha256@ && actual@ == digest::hex_text(
            digest::sha256(data@),
        )),
{
    lemma_asked(run, i - 1);
    assert(run.takes(i));
    if i + 1 < run.len() {
        assert(run.takes(i + 1));
    }
}

/// LanguageTool is installed step by step, each of them once the one before has succeeded: renamed,
/// unpacked, its archive removed, which may fail, and recorded with the configured version and
/// digest. With that, provisioning succeeds.
pub proof fn law_installs_in_order(run: ProvisionRun, i: int)
    requires
        run.valid(),
        0 < i < run.len(),
    ensures
        run.out[i - 1].action is Rename && run.events[i] == Event::Done ==> run.out[i].action
            == Action::CreateDir(Asset::Dist) && is_silent(run, i),
        run.out[i - 1].action == Action::CreateDir(Asset::Dist) && run.events[i] == Event::Done
            ==> run.out[i].action == (Action::Unzip { archive: Asset::LtZip, dest: Asset::Dist })
            && is_silent(run, i),
        run.out[i - 1].action is Unzip && run.events[i] == Event::Done ==> run.out[i].action
            == Action::RemoveFile(Asset::LtZip) && is_silent(run, i),
        run.out[i - 1].action == Action::RemoveFile(Asset::LtZip) && (run.events[i] == Event::Done
            || run.events[i] is Failed) ==> is_silent(run, i) && (
        run.out[i].action matches Action::WriteVersion(record) && record.lt_version@
            == run.cfg.lt_version@ && record.lt_sha256@ == run.cfg.lt_sha256@),
        run.out[i - 1].action is WriteVersion && run.events[i] == Event::Done ==> run.out[i].action
            == Action::Finish(Ok(())) && is_silent(run, i),
{
    lemma_asked(run, i - 1);
    assert(run.takes(i));
}

/// Whatever else fails ends provisioning with that failure.
pub proof fn law_failure_is_returned(run: ProvisionRun, i: int, e: Error)
    requires
        run.valid(),
        0 < i < run.len(),
        run.events[i] == Event::Failed(e),
        match run.out[i - 1].action {
            Action::CreateDir(_) | Action::Download { url: _, dest: _ } | Action::Receive
            | Action::ReadFile(_) | Action::Rename { from: _, to: _ }
            | Action::Unpack { kind: _, archive: _, dest: _ }
            | Action::Unzip { archive: _, dest: _ } | Action::WriteVersion(_) => true,
            _ => false,
        },
    ensures
        fails_with(run, i, e),
{
    lemma_asked(run, i - 1);
    assert(run.takes(i));
    if run.states[i].stage == Stage::Java {
        lemma_java_stage(run, i);
    }
}

/// The provisioning of an engine with which nobody else interferes: what it and the engine were at
/// each moment, and of each step the event and the directive.
pub struct EngineRun {
    pub engines: Seq<LanguageToolEngine>,
    pub runs: Seq<Provisioner>,
    pub events: Seq<Event>,
    pub out: Seq<Directive>,
}

impl EngineRun {
    /// The number of steps.
    pub open spec fn len(self) -> int {
        self.events.len() as int
    }

    /// Whether step `i` is one that the engine takes.
    pub open spec fn takes(self, i: int) -> bool {
        engine::provision_step(
            self.engines[i],
            self.runs[i],
            self.events[i],
            self.engines[i + 1],
            self.runs[i + 1],
            self.out[i],
        )
    }

    /// Whether this is a run from the beginning, with any events.
    pub open spec fn valid(self) -> bool {
        &&& self.engines.len() == self.len() + 1
        &&& self.runs.len() == self.len() + 1
        &&& self.out.len() == self.len()
        &&& self.runs[0].is_begun()
        &&& forall|i: int| 0 <= i < self.len() ==> #[trigger] self.takes(i)
    }
}

/// What the engine shows at each moment, by how far its provisioning has come.
proof fn lemma_engine_shows(run: EngineRun, k: int)
    requires
        run.valid(),
        0 <= k <= run.len(),
    ensures
        run.engines[k].config == run.engines[0].config,
        run.engines[k].server == run.engines[0].server,
        run.engines[k].shared.port == run.engines[0].shared.port,
        laws::rank(run.runs[k].stage) <= 4 ==> run.runs[k].resolver.outcome is None,
        laws::rank(run.runs[k].stage) < 4 ==> run.runs[k].resolver.is_begun(),
        match run.runs[k].stage {
            Stage::CreateDataDir | Stage::Lock | Stage::Inspect
            | Stage::Restore => run.engines[k].shared.state == run.engines[0].shared.state,
            Stage::Java | Stage::Download => run.engines[k].shared.state is Downloading,
            Stage::Done => match run.engines[k].shared.state {
                EngineState::Ready | EngineState::Starting => run.engines[k].shared.state
                    == run.engines[0].shared.state,
                EngineState::Stopped => true,
                EngineState::Error { message: _ } => true,
                _ => false,
            },
            _ => run.engines[k].shared.state == EngineState::Installing,
        },
    decreases k,
{
    if k > 0 {
        lemma_engine_shows(run, k - 1);
        assert(run.takes(k - 1));
    }
}

/// Provisioning that succeeds leaves the engine stopped, ready to be started, unless it found
/// LanguageTool installed while the engine was ready or starting, which it then still is. It never
/// goes on to show a download or an installation.
pub proof fn law_provisioned_engine_is_stopped(run: EngineRun, i: int)
    requires
        run.valid(),
        0 <= i < run.len(),
        run.out[i].action == Action::Finish(Ok(())),
    ensures
        run.engines[i + 1].observed() == EngineState::Stopped || ((run.engines[i + 1].observed()
            == EngineState::Ready || run.engines[i + 1].observed() == EngineState::Starting)
            && run.engines[i + 1].observed() == run.engines[0].shared.state),
        run.engines[i + 1].server == run.engines[0].server,
        run.engines[i + 1].config == run.engines[0].config,
        run.engines[i + 1].shared.port == run.engines[0].shared.port,
{
    lemma_engine_shows(run, i);
    lemma_engine_shows(run, i + 1);
    assert(run.takes(i));
}

/// An installation that succeeds, so that its version file was written, leaves the engine stopped.
pub proof fn law_installation_ends_stopped(run: EngineRun, j: int, i: int)
    requires
        run.valid(),
        0 <= j < i < run.len(),
        run.out[j].action is WriteVersion,
        run.out[i].action == Action::Finish(Ok(())),
    ensures
        run.engines[i + 1].observed() == EngineState::Stopped,
{
    assert(run.takes(i));
    lemma_engine_shows(run, i);
    lemma_engine_shows(run, j);
    assert(run.takes(j));
    lemma_recorded(run, j, i);
}

proof fn lemma_recorded(run: EngineRun, j: int, k: int)
    requires
        run.valid(),
        0 <= j < k <= run.len(),
        run.out[j].action is WriteVersion,
    ensures
        run.runs[k].stage == Stage::Record || run.runs[k].stage == Stage::Done,
    decreases k,
{
    lemma_engine_shows(run, k - 1);
    assert(run.takes(k - 1));
    if k - 1 > j {
        lemma_recorded(run, j, k - 1);
    }
}

/// Provisioning that fails leaves the engine showing the message of the error that it returns, and
/// its server, port and configuration as they were.
pub proof fn law_provision_failure_is_shown(run: EngineRun, i: int, e: Error)
    requires
        run.valid(),
        0 <= i < run.len(),
        run.out[i].action == Action::Finish(Err(e)),
    ensures
        run.engines[i + 1].observed() matches EngineState::Error { message } && message@
            == error::error_text(e),
        run.engines[i + 1].server == run.engines[0].server,
        run.engines[i + 1].config == run.engines[0].config,
        run.engines[i + 1].shared.port == run.engines[0].shared.port,
{
    lemma_engine_shows(run, i + 1);
    assert(run.takes(i));
}

/// Whatever the state before, a result is noted as the diagram has it: success as stopped, unless the
/// engine is ready or starting, which it stays, and failure as the error.
pub proof fn law_result_of_provisioning(
    before: LanguageToolEngine,
    result: Result<(), Error>,
    after: LanguageToolEngine,
)
    requires
        before.provision_ended(result, after),
    ensures
        result is Ok ==> match before.shared.state {
            EngineState::Ready => after.shared.state is Ready,
            EngineState::Starting => after.shared.state is Starting,
            _ => after.shared.state is Stopped,
        },
        result matches Err(e) ==> (after.shared.state matches EngineState::Error { message }
            && message@ == error::error_text(e)),
        after.config == before.config,
        after.server == before.server,
        after.shared.port == before.shared.port,
        after.shared.java_path == before.shared.java_path,
        after.shared.using_system_java == before.shared.using_system_java,
{
}

/// A start shows at once, and takes the Java runtime from the version file only where none was
/// chosen yet.
pub proof fn law_start_begins(before: LanguageToolEngine, version: Option<VersionJson>)
    ensures
        before.starting(version).shared.state == EngineState::Starting,
        before.starting(version).shared.port == before.shared.port,
        before.starting(version).config == before.config,
        before.starting(version).server == before.server,
        before.shared.java_path is Some ==> before.starting(version).shared.java_path
            == before.shared.java_path && before.starting(version).shared.using_system_java
            == before.shared.using_system_java,
        before.shared.java_path is None ==> (version matches Some(v) ==> before.starting(
            version,
        ).shared.java_path == Some(v.java_path) && before.starting(
            version,
        ).shared.using_system_java == v.using_system_java),
{
}

/// Which work is under way during a start, by what was asked for last.
proof fn lemma_start_asked(
    run: StartRun,
    before: LanguageToolEngine,
    version: Option<VersionJson>,
    i: int,
)
    requires
        run.valid(before, version),
        0 <= i < run.len(),
    ensures
        ({
            let now = run.flows[i + 1];
            match run.actions[i] {
                StartAction::AcquirePort => false,
                StartAction::Launch(command) => now.stage == StartStage::Launch && (
                run.engines[i + 1].shared.java_path matches Some(java) && lifecycle::is_launch(
                    command,
                    before.config,
                    java,
                    now.wait.port,
                )),
                StartAction::Wait(WaitAction::ReadClock) => now.stage == StartStage::Wait
                    && now.wait.stage == WaitStage::Clock,
                StartAction::Wait(WaitAction::Poll { url: _, timeout_secs: _ }) => now.stage
                    == StartStage::Wait && now.wait.stage == WaitStage::Poll,
                StartAction::Wait(WaitAction::Sleep { millis: _ }) => now.stage == StartStage::Wait
                    && now.wait.stage == WaitStage::Pause,
                StartAction::Wait(WaitAction::Finish(_)) => false,
                StartAction::StopServer(_) => now.stage == StartStage::StopServer && now.failure
                    == Some(Error::StartupTimeout { seconds: before.config.startup_timeout.secs }),
                StartAction::Finish(_) => now.stage == StartStage::Done,
                _ => true,
            }
        }),
{
    laws::law_start_keeps_engine(run, before, version, i);
    laws::law_start_keeps_engine(run, before, version, i + 1);
    assert(run.takes(i));
}

/// The server is launched with the Java runtime that was chosen, on the jar of the configured
/// version, with the port that was found free as a number behind `--port`. Nothing changes before it
/// was launched.
pub proof fn law_launches_on_free_port(
    run: StartRun,
    before: LanguageToolEngine,
    version: Option<VersionJson>,
    port: u16,
)
    requires
        run.valid(before, version),
        run.len() > 0,
        run.events[0] == StartEvent::Port(port),
    ensures
        run.engines[1] == run.engines[0],
        run.actions[0] matches StartAction::Launch(command) && layout::optional_path(
            run.engines[0].shared.java_path,
        ) == Some(command.program@) && command.args@.len() == 7 && (
        command.args@[1] matches Arg::Path(jar) && jar@.base == before.config.data_dir@.base
            && jar@.parts == before.config.data_dir@.parts.push("dist"@).push(
            "LanguageTool-"@ + before.config.lt_version@,
        ).push("languagetool-server.jar"@)) && (command.args@[3] matches Arg::Text(t) && t@
            == "--port"@) && (command.args@[4] matches Arg::Text(t) && text::numeral_u32(t@)
            == Some(port as u32)),
{
    laws::law_start_keeps_engine(run, before, version, 0);
    assert(run.takes(0));
    if let StartAction::Launch(command) = run.actions[0] {
        lifecycle::law_launch_command(
            command,
            before.config,
            run.engines[0].shared.java_path->0,
            port,
        );
    }
}

/// The port of a launch stays that of the start.
proof fn lemma_port(
    run: StartRun,
    before: LanguageToolEngine,
    version: Option<VersionJson>,
    i: int,
    k: int,
)
    requires
        run.valid(before, version),
        0 <= i < k <= run.len(),
        run.actions[i] is Launch,
    ensures
        run.flows[k].stage != StartStage::AcquirePort,
        run.flows[k].wait.port == run.flows[i + 1].wait.port,
        run.engines[k].shared.state == EngineState::Ready ==> run.engines[k].shared.port == Some(
            run.flows[k].wait.port,
        ),
    decreases k,
{
    lemma_start_asked(run, before, version, i);
    laws::law_start_keeps_engine(run, before, version, k);
    laws::law_start_keeps_engine(run, before, version, k - 1);
    assert(run.takes(k - 1));
    if k - 1 > i {
        lemma_port(run, before, version, i, k - 1);
    }
}

/// The number behind `--port` with which the server was launched denotes the very port that is made
/// known, that the wait looks at, and that an engine which became ready sends its checks to.
pub proof fn law_launched_port_is_used(
    run: StartRun,
    before: LanguageToolEngine,
    version: Option<VersionJson>,
    i: int,
    command: LaunchCommand,
    k: int,
)
    requires
        run.valid(before, version),
        0 <= i < k <= run.len(),
        run.actions[i] == StartAction::Launch(command),
        run.flows[k].stage == StartStage::Wait || run.engines[k].shared.state == EngineState::Ready,
    ensures
        command.args@.len() == 7,
        command.args@[4] matches Arg::Text(t) && (run.engines[k].shared.port matches Some(port)
            && text::numeral_u32(t@) == Some(port as u32)),
{
    lemma_start_asked(run, before, version, i);
    lemma_port(run, before, version, i, k);
    laws::law_start_keeps_engine(run, before, version, k);
    lifecycle::law_launch_command(
        command,
        before.config,
        run.engines[i + 1].shared.java_path->0,
        run.flows[i + 1].wait.port,
    );
}

/// Once it was launched the server is known, with its port, and is waited for. A launch that fails
/// ends the start with that failure.
pub proof fn law_waits_after_launch(
    run: StartRun,
    before: LanguageToolEngine,
    version: Option<VersionJson>,
    i: int,
)
    requires
        run.valid(before, version),
        0 < i < run.len(),
        run.actions[i - 1] is Launch,
    ensures
        run.events[i] == StartEvent::Launched ==> {
            &&& run.actions[i] == StartAction::Wait(WaitAction::ReadClock)
            &&& run.engines[i + 1].observed() == EngineState::Starting
            &&& run.engines[i + 1].shared.port matches Some(port)
            &&& run.engines[i + 1].server matches Some(server)
            &&& server.port == port
        },
        run.events[i] matches StartEvent::Failed(e) ==> run.actions[i] == StartAction::Finish(
            Err(e),
        ) && (run.engines[i + 1].observed() matches EngineState::Error { message } && message@
            == error::error_text(e)) && run.engines[i + 1].server == run.engines[i].server,
{
    lemma_start_asked(run, before, version, i - 1);
    assert(run.takes(i));
}

/// Without a free port the start ends with that failure.
pub proof fn law_no_port_ends_start(
    run: StartRun,
    before: LanguageToolEngine,
    version: Option<VersionJson>,
    e: Error,
)
    requires
        run.valid(before, version),
        run.len() > 0,
        run.events[0] == StartEvent::Failed(e),
    ensures
        run.actions[0] == StartAction::Finish(Err(e)),
        run.engines[1].shared.state matches EngineState::Error { message } && message@
            == error::error_text(e),
{
    assert(run.takes(0));
}

/// As long as the time that has passed is shorter than the configured timeout, the server is looked
/// at, on its port. Once it is not, the server is stopped and the engine shows that it timed out.
pub proof fn law_polls_until_timeout(
    run: StartRun,
    before: LanguageToolEngine,
    version: Option<VersionJson>,
    i: int,
)
    requires
        run.valid(before, version),
        0 < i < run.len(),
        run.actions[i - 1] == StartAction::Wait(WaitAction::ReadClock),
    ensures
        run.events[i] matches StartEvent::Wait(WaitEvent::Elapsed(t)) ==> {
            let timeout = before.config.startup_timeout;
            if t.secs * 1_000_000_000 + t.nanos < timeout.secs * 1_000_000_000 + timeout.nanos {
                &&& run.engines[i + 1] == run.engines[i]
                &&& run.actions[i] matches StartAction::Wait(WaitAction::Poll { url, timeout_secs })
                &&& timeout_secs == 2
                &&& run.engines[i].shared.port matches Some(port)
                &&& exists|number: Seq<char>|
                    #![trigger "http://127.0.0.1:"@ + number]
                    url@ == "http://127.0.0.1:"@ + number + "/v2/languages"@ && text::numeral_u32(
                        number,
                    ) == Some(port as u32)
            } else {
                &&& run.actions[i] == StartAction::StopServer(run.engines[i].server)
                &&& run.engines[i].server is Some
                &&& run.engines[i + 1].server is None
                &&& run.engines[i + 1].observed() matches EngineState::Error { message }
                &&& message@ == error::error_text(
                    Error::StartupTimeout { seconds: timeout.secs },
                )
            }
        },
{
    lemma_start_asked(run, before, version, i - 1);
    laws::law_start_keeps_engine(run, before, version, i);
    assert(run.takes(i));
    if let StartAction::Wait(action) = run.actions[i] {
        if let StartEvent::Wait(event) = run.events[i] {
            lifecycle::law_wait_step(
                run.flows[i].wait,
                run.engines[i].shared,
                event,
                run.flows[i + 1].wait,
                run.engines[i + 1].shared,
                action,
            );
        }
    }
}

/// The status 200 makes the engine ready. Any other answer, or none, leads to a pause of half a
/// second, and that to the clock again.
pub proof fn law_ready_with_status_200(
    run: StartRun,
    before: LanguageToolEngine,
    version: Option<VersionJson>,
    i: int,
)
    requires
        run.valid(before, version),
        0 < i < run.len(),
    ensures
        run.actions[i - 1] matches StartAction::Wait(WaitAction::Poll { url: _, timeout_secs: _ })
            ==> (run.events[i] matches StartEvent::Wait(event) ==> match event {
            WaitEvent::Response(status) => if status == 200 {
                &&& run.actions[i] matches StartAction::Finish(Ok(_))
                &&& run.engines[i + 1].observed() == EngineState::Ready
                &&& run.engines[i + 1].server == run.engines[i].server
                &&& run.engines[i + 1].shared.port == run.engines[i].shared.port
            } else {
                &&& run.actions[i] == StartAction::Wait(WaitAction::Sleep { millis: 500 })
                &&& run.engines[i + 1] == run.engines[i]
            },
            WaitEvent::NoResponse => {
                &&& run.actions[i] == StartAction::Wait(WaitAction::Sleep { millis: 500 })
                &&& run.engines[i + 1] == run.engines[i]
            },
            _ => true,
        }),
        run.actions[i - 1] matches StartAction::Wait(WaitAction::Sleep { millis: _ }) ==> (
        run.events[i] == StartEvent::Wait(WaitEvent::Slept) ==> run.actions[i] == StartAction::Wait(
            WaitAction::ReadClock,
        ) && run.engines[i + 1] == run.engines[i]),
{
    lemma_start_asked(run, before, version, i - 1);
    assert(run.takes(i));
}

/// Once a server that did not become healthy is stopped, the start ends with the error that names the
/// configured timeout.
pub proof fn law_timeout_is_returned(
    run: StartRun,
    before: LanguageToolEngine,
    version: Option<VersionJson>,
    i: int,
)
    requires
        run.valid(before, version),
        0 < i < run.len(),
        run.actions[i - 1] is StopServer,
        run.events[i] == StartEvent::ServerStopped,
    ensures
        run.actions[i] == StartAction::Finish(
            Err(Error::StartupTimeout { seconds: before.config.startup_timeout.secs }),
        ),
        run.engines[i + 1] == run.engines[i],
{
    lemma_start_asked(run, before, version, i - 1);
    assert(run.takes(i));
}

/// A run of provisioning keeps to the platform that it was begun on.
pub proof fn law_begins_on_platform(p: Provisioner, os: Os)
    requires
        p.begins_on(os),
    ensures
        p.is_begun(),
        os == Os::Windows <==> p.resolver.os == Os::Windows,
        os == p.resolver.os,
        p.java is None,
        p.failure is None,
{
}

/// A start is begun where the jar is there and the version file names the configured version and,
/// unless none is configured, the configured digest. It is refused everywhere else, with what is to
/// be done first, and leaves the engine as it is.
pub proof fn law_start_needs_installation(
    before: LanguageToolEngine,
    jar_exists: bool,
    version: Option<VersionJson>,
    after: LanguageToolEngine,
    res: Result<StartFlow, Error>,
)
    requires
        engine::start_begins(before, jar_exists, version, after, res),
    ensures
        res is Ok <==> jar_exists && (version matches Some(v) && v.lt_version@
            == before.config.lt_version@ && (before.config.lt_sha256@ == ""@ || v.lt_sha256@
            == before.config.lt_sha256@)),
        res is Ok ==> after.observed() == EngineState::Starting && after.server == before.server
            && after.config == before.config && after.shared.port == before.shared.port
            && after.shared.java_path is Some,
        res matches Err(e) ==> after == before && (e matches Error::Provision(reason) && reason@
            == "call provision() before start()"@),
{
    reveal_strlit("");
    assert(""@.len() == 0);
    if before.config.lt_sha256@.len() == 0 {
        assert(before.config.lt_sha256@ =~= ""@);
    }
}

/// An engine says that it accepts checks exactly where it does, and a check is refused with the name
/// of what is seen of the engine.
pub proof fn law_ready_tells_whether_checks_are_accepted(
    e: LanguageToolEngine,
    text: Seq<char>,
    language: Seq<char>,
    rules: Seq<Seq<char>>,
    categories: Seq<Seq<char>>,
    res: Result<CheckRequest, Error>,
)
    requires
        engine::checks(e, text, language, rules, categories, res),
        e.valid(),
    ensures
        e.accepts_checks() <==> res is Ok,
        e.accepts_checks() <==> e.observed() is Ready,
        res matches Err(error) ==> (error matches Error::NotReady { state } && state@
            == state::state_text(e.observed())),
        res matches Ok(request) ==> request.params@.len() >= 2 && request.params@[0].1@ == text
            && request.params@[1].1@ == language,
{
    if let Ok(request) = res {
        client::law_form_holds_the_text(
            request,
            e.shared.port->0,
            text,
            language,
            rules,
            categories,
        );
    }
}

/// The engine says that it uses a Java runtime of the system exactly where the version file that was
/// written by its provisioning says so.
pub proof fn law_system_java_is_seen(run: EngineRun, j: int, record: VersionJson, i: int)
    requires
        run.valid(),
        0 <= j < i < run.len(),
        run.out[j].action == Action::WriteVersion(record),
        run.out[i].action == Action::Finish(Ok(())),
    ensures
        run.engines[i + 1].uses_system_java() == record.using_system_java,
        layout::optional_path(run.engines[i + 1].shared.java_path) == Some(record.java_path@),
{
    lemma_engine_java(run, j);
    lemma_engine_shows(run, j);
    assert(run.takes(j));
    lemma_recorded_java(run, j, record, i);
    lemma_recorded(run, j, i);
    lemma_engine_shows(run, i);
    assert(run.takes(i));
}

proof fn lemma_engine_java(run: EngineRun, k: int)
    requires
        run.valid(),
        0 <= k <= run.len(),
    ensures
        5 <= laws::rank(run.runs[k].stage) <= 12 ==> (run.runs[k].java matches Some(java)
            && laws::holds_java(run.engines[k].shared, java.path@, java.system)),
    decreases k,
{
    if k > 0 {
        lemma_engine_java(run, k - 1);
        lemma_engine_shows(run, k - 1);
        assert(run.takes(k - 1));
    }
}

proof fn lemma_recorded_java(run: EngineRun, j: int, record: VersionJson, k: int)
    requires
        run.valid(),
        0 <= j < k <= run.len(),
        run.out[j].action == Action::WriteVersion(record),
    ensures
        laws::holds_java(run.engines[k].shared, record.java_path@, record.using_system_java),
    decreases k,
{
    lemma_engine_java(run, k - 1);
    lemma_engine_shows(run, k - 1);
    assert(run.takes(k - 1));
    if k - 1 > j {
        lemma_recorded(run, j, k - 1);
        lemma_recorded_java(run, j, record, k - 1);
    }
}

/// A stop hands over the server that the engine has, so that none is left with it, and what is seen
/// of the engine then is that it is stopped.
pub proof fn law_stop_hands_over_server(
    e: LanguageToolEngine,
    server: Option<ServerProcess>,
    between: LanguageToolEngine,
)
    requires
        e.hands_over(server, between),
    ensures
        e.server matches Some(s) ==> (server matches Some(t) && t.port == s.port),
        e.server is None ==> server is None,
        between.server is None,
        between.observed() == e.observed(),
        between.stopped().observed() == EngineState::Stopped,
        between.stopped().server is None,
{
}

/// What is announced as the size of a Java runtime before moment `k`.
pub open spec fn jre_announced(run: ProvisionRun, k: int) -> Option<u64>
    decreases k,
{
    if k <= 0 {
        None
    } else {
        match (run.states[k - 1].stage, run.states[k - 1].resolver.stage, run.events[k - 1]) {
            (Stage::Java, JavaStage::Download, Event::Headers { total }) => total,
            _ => jre_announced(run, k - 1),
        }
    }
}

proof fn lemma_jre_announced(run: ProvisionRun, k: int)
    requires
        run.valid(),
        0 <= k <= run.len(),
        laws::rank(run.states[k].stage) <= 4,
    ensures
        run.states[k].resolver.download.total == jre_announced(run, k),
        match run.states[k].resolver.stage {
            JavaStage::Home | JavaStage::HomeProbe | JavaStage::PathProbe
            | JavaStage::JreProbe => jre_announced(run, k) is None,
            _ => true,
        },
    decreases k,
{
    if k > 0 {
        laws::law_provision_goes_forward(run, k - 1, k);
        lemma_jre_announced(run, k - 1);
        lemma_java_stage(run, k - 1);
        assert(run.takes(k - 1));
    }
}

/// Each piece of a Java runtime that is written is shown and reported at once: with the number of its
/// bytes so far, and with the size that was announced. The download goes on after it.
pub proof fn law_jre_progress_is_shown(run: ProvisionRun, i: int)
    requires
        run.valid(),
        forall|j: int| 0 <= j < run.len() ==> #[trigger] run.states[j].fits(run.events[j]),
        0 <= i < run.len(),
        run.states[i].stage == Stage::Java,
        run.states[i].resolver.stage == JavaStage::Download,
    ensures
        run.events[i] is Chunk ==> {
            &&& run.after[i].state matches EngineState::Downloading { downloaded, total }
            &&& downloaded == run.jre_written(i + 1)
            &&& total == jre_announced(run, i)
            &&& run.out[i].report == Some(run.after[i].state)
            &&& run.after[i] == SharedState { state: run.after[i].state, ..run.before[i] }
            &&& run.out[i].action is Receive
        },
        run.events[i] is Headers ==> run.out[i].action is Receive && is_silent(run, i),
{
    laws::law_jre_progress_counts_bytes(run, i);
    lemma_jre_announced(run, i);
    lemma_java_stage(run, i);
    assert(run.takes(i));
}

/// Only an answer to the work that was asked for is heard: whatever else comes, and whatever comes
/// after the end, is unexpected.
pub proof fn law_only_answers_are_heard(run: ProvisionRun, i: int)
    requires
        run.valid(),
        0 <= i < run.len(),
        i > 0 ==> !(run.out[i - 1].action is Unexpected),
        ({
            let event = run.events[i];
            let ended = event == Event::Done || event is Failed;
            if i == 0 {
                !ended
            } else {
                match run.out[i - 1].action {
                    Action::CreateDir(_) => !ended,
                    Action::TakeLock => !ended,
                    Action::InspectInstall => !(event is Installation),
                    Action::ReadVersion => !(event is Version),
                    Action::ReadJavaHome => !(event is JavaHome),
                    Action::Probe(_) => !(event is Probed),
                    Action::ProbeOnPath(_) => !(event is Probed),
                    Action::Download { url: _, dest: _ } | Action::Receive => !(event is Headers)
                        && !(event is Chunk) && event != Event::End && !(event is Failed),
                    Action::ReadFile(_) => !(event is Bytes) && !(event is Failed),
                    Action::RemoveFile(_) => !ended,
                    Action::Rename { from: _, to: _ } => !ended,
                    Action::Unpack { kind: _, archive: _, dest: _ } => !ended,
                    Action::ListDir(_) => !(event is Entries),
                    Action::FindJava(_) => !(event is Existing),
                    Action::Unzip { archive: _, dest: _ } => !ended,
                    Action::WriteVersion(_) => !ended,
                    _ => true,
                }
            }
        }),
    ensures
        run.out[i].action is Unexpected,
        run.states[i + 1] == run.states[i],
        is_silent(run, i),
{
    if i > 0 {
        lemma_asked(run, i - 1);
    }
    assert(run.takes(i));
    if laws::rank(run.states[i].stage) <= 4 {
        lemma_java_stage(run, i);
    }
}

/// Only an answer to the work that was asked for is heard during a start: whatever else comes, and
/// whatever comes after the end, is unexpected and changes nothing.
pub proof fn law_start_hears_answers_only(
    run: StartRun,
    before: LanguageToolEngine,
    version: Option<VersionJson>,
    i: int,
)
    requires
        run.valid(before, version),
        0 <= i < run.len(),
        ({
            let event = run.events[i];
            if i == 0 {
                !(event is Port) && !(event is Failed)
            } else {
                match run.actions[i - 1] {
                    StartAction::Launch(_) => event != StartEvent::Launched && !(event is Failed),
                    StartAction::Wait(_) => !(event is Wait),
                    StartAction::StopServer(_) => event != StartEvent::ServerStopped,
                    StartAction::Finish(_) => true,
                    _ => false,
                }
            }
        }),
    ensures
        run.actions[i] is Unexpected,
        run.engines[i + 1] == run.engines[i],
        run.flows[i + 1] == run.flows[i],
{
    laws::law_start_keeps_engine(run, before, version, i);
    if i > 0 {
        lemma_start_asked(run, before, version, i - 1);
        laws::law_start_keeps_engine(run, before, version, i - 1);
        assert(run.takes(i - 1));
    }
    assert(run.takes(i));
}

} // verus!
