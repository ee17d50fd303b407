//! What holds of whole runs: of provisioning, and of the engine over several calls.
use vstd::prelude::*;
use crate::client::CheckRequest;
use crate::config::EngineConfig;
use crate::engine::{LanguageToolEngine, StartAction, StartEvent, StartFlow, StartStage};
use crate::error::Error;
use crate::layout::{Asset, PathView};
use crate::lifecycle::{ServerProcess, WaitEvent, WaitStage};
use crate::provision::{Provisioner, Stage};
use crate::resolve::{JavaChoice, JavaStage};
use crate::state::{EngineState, SharedState};
use crate::task::{Action, Directive, Event, VersionJson};
use crate::{client, engine, layout, lifecycle, provision, resolve, state, task};

verus! {

/// A run of provisioning: what it was at each moment, and of each step the event, the directive
/// and the shared state before and after it. Between two steps others may change the shared
/// state.
pub struct ProvisionRun {
    pub cfg: EngineConfig,
    pub states: Seq<Provisioner>,
    pub events: Seq<Event>,
    pub before: Seq<SharedState>,
    pub after: Seq<SharedState>,
    pub out: Seq<Directive>,
}

impl ProvisionRun {
    /// The number of steps.
    pub open spec fn len(self) -> int {
        self.events.len() as int
    }

    /// Whether step `i` is one that provisioning takes.
    pub open spec fn takes(self, i: int) -> bool {
        self.states[i].step(
            self.cfg,
            self.before[i],
            self.events[i],
            self.states[i + 1],
            self.after[i],
            self.out[i],
        )
    }

    /// Whether this is a run from the beginning, with any events.
    pub open spec fn valid(self) -> bool {
        &&& self.states.len() == self.len() + 1
        &&& self.before.len() == self.len()
        &&& self.after.len() == self.len()
        &&& self.out.len() == self.len()
        &&& self.states[0].is_begun()
        &&& forall|i: int| 0 <= i < self.len() ==> #[trigger] self.takes(i)
    }

    /// Whether an archive with the expected digest was read before moment `k`.
    pub open spec fn verified_before(self, k: int) -> bool {
        exists|j: int| 0 <= j < k && #[trigger] self.verifies(j)
    }

    /// Whether step `j` reads an archive with the expected digest.
    pub open spec fn verifies(self, j: int) -> bool {
        &&& self.states[j].stage == Stage::Digest
        &&& self.events[j] matches Event::Bytes(data)
        &&& resolve::has_digest(data@, self.cfg.lt_sha256@)
    }

    /// Whether step `j` finds LanguageTool to be installed.
    pub open spec fn finds_installed(self, j: int) -> bool {
        &&& self.states[j].stage == Stage::Inspect
        &&& self.events[j] matches Event::Installation { jar_exists, version }
        &&& provision::installed(self.cfg, jar_exists, version)
    }

    /// Whether step `j` finds an archive that has another digest than the expected one.
    pub open spec fn refuses(self, j: int) -> bool {
        &&& self.states[j].stage == Stage::Digest
        &&& self.events[j] matches Event::Bytes(data)
        &&& !resolve::has_digest(data@, self.cfg.lt_sha256@)
    }

    /// Whether step `j` hears of the probe of a Java binary that is recent enough.
    pub open spec fn hears_of_java(self, j: int) -> bool {
        let stage = self.states[j].resolver.stage;
        &&& self.states[j].stage == Stage::Java
        &&& stage == JavaStage::HomeProbe || stage == JavaStage::PathProbe || stage
            == JavaStage::JreProbe
        &&& self.events[j] matches Event::Probed { output }
        &&& resolve::usable(output)
    }

    /// Whether step `j` reads an archive of a Java runtime that has the expected digest.
    pub open spec fn verifies_jre(self, j: int) -> bool {
        &&& self.states[j].stage == Stage::Java
        &&& self.states[j].resolver.stage == JavaStage::Digest
        &&& self.events[j] matches Event::Bytes(data)
        &&& self.cfg.jre_sha256 matches Some(sha)
        &&& resolve::has_digest(data@, sha@)
    }

    /// The number of bytes of LanguageTool that were written before moment `k`.
    pub open spec fn written(self, k: int) -> int
        decreases k,
    {
        if k <= 0 {
            0
        } else {
            self.written(k - 1) + if self.states[k - 1].stage == Stage::Download {
                match self.events[k - 1] {
                    Event::Chunk { len } => len as int,
                    _ => 0,
                }
            } else {
                0
            }
        }
    }

    /// The number of bytes of a Java runtime that were written before moment `k`.
    pub open spec fn jre_written(self, k: int) -> int
        decreases k,
    {
        if k <= 0 {
            0
        } else {
            self.jre_written(k - 1) + if self.states[k - 1].receives_jre(self.events[k - 1]) {
                self.events[k - 1]->len as int
            } else {
                0
            }
        }
    }

    /// Whether step `j` asks for a download.
    pub open spec fn downloads(self, j: int) -> bool {
        self.out[j].action is Download
    }

    /// Whether nobody else changes the shared state.
    pub open spec fn alone(self) -> bool {
        forall|i: int| 0 < i < self.len() ==> #[trigger] self.before[i] == self.after[i - 1]
    }

    /// Whether at step `j` the version file is written, or read, and then holds `record`.
    pub open spec fn knows_record(self, j: int, record: VersionJson) -> bool {
        ||| self.out[j].action == Action::WriteVersion(record)
        ||| self.states[j].stage == Stage::Restore && self.events[j] == Event::Version(Some(record))
    }

    /// Whether nobody else changes the observable state.
    pub open spec fn undisturbed(self) -> bool {
        forall|i: int|
            0 < i < self.len() ==> (#[trigger] self.before[i]).state == self.after[i - 1].state
    }
}

/// Where a stage stands in the order of provisioning.
pub open spec fn rank(stage: Stage) -> int {
    match stage {
        Stage::CreateDataDir => 0,
        Stage::Lock => 1,
        Stage::Inspect => 2,
        Stage::Restore => 3,
        Stage::Java => 4,
        Stage::Download => 5,
        Stage::Digest => 6,
        Stage::Discard => 7,
        Stage::Rename => 8,
        Stage::CreateDist => 9,
        Stage::Unzip => 10,
        Stage::Cleanup => 11,
        Stage::Record => 12,
        Stage::Done => 13,
    }
}

/// Provisioning never goes back to an earlier stage.
pub proof fn law_provision_goes_forward(run: ProvisionRun, i: int, j: int)
    requires
        run.valid(),
        0 <= i <= j <= run.len(),
    ensures
        rank(run.states[i].stage) <= rank(run.states[j].stage),
    decreases j - i,
{
    if i < j {
        law_provision_goes_forward(run, i, j - 1);
        assert(run.takes(j - 1));
    }
}

/// Before an archive is installed, its digest was found to be right, where one is configured.
proof fn lemma_verified(run: ProvisionRun, k: int)
    requires
        run.valid(),
        0 <= k <= run.len(),
        run.cfg.lt_sha256@.len() > 0,
        8 <= rank(run.states[k].stage) <= 12,
    ensures
        run.verified_before(k),
    decreases k,
{
    if k > 0 {
        assert(run.takes(k - 1));
        if 8 <= rank(run.states[k - 1].stage) <= 12 {
            lemma_verified(run, k - 1);
            let j = choose|j: int| 0 <= j < k - 1 && #[trigger] run.verifies(j);
            assert(run.verifies(j));
        } else {
            assert(run.verifies(k - 1));
        }
    }
}

/// Nothing unverified is installed: an archive is renamed and unpacked, and the version file
/// written, only after its content was found to have the configured SHA-256 digest. Only an empty
/// digest in the configuration skips this.
pub proof fn law_only_verified_is_installed(run: ProvisionRun, i: int)
    requires
        run.valid(),
        0 <= i < run.len(),
        run.out[i].action is Rename || run.out[i].action is Unzip
            || run.out[i].action is WriteVersion,
    ensures
        run.cfg.lt_sha256@.len() == 0 || run.verified_before(i + 1),
{
    assert(run.takes(i));
    if run.cfg.lt_sha256@.len() > 0 {
        lemma_verified(run, i + 1);
    }
}

/// While an archive is discarded and once that is done, nothing else was made of it.
proof fn lemma_refused(run: ProvisionRun, j: int, k: int)
    requires
        run.valid(),
        0 <= j < k <= run.len(),
        run.refuses(j),
    ensures
        ({
            let error = run.states[j + 1].failure;
            ||| run.states[k].stage == Stage::Discard && run.states[k].failure == error
            ||| run.states[k].stage == Stage::Done
        }),
    decreases k,
{
    assert(run.takes(k - 1));
    if k - 1 > j {
        lemma_refused(run, j, k - 1);
    }
}

/// A download that has another SHA-256 digest than the configured one is refused: it is removed,
/// it is never renamed or unpacked, no version file is written, and provisioning cannot end but
/// with the error that names both digests.
pub proof fn law_mismatch_is_refused(run: ProvisionRun, j: int, i: int)
    requires
        run.valid(),
        0 <= j < run.len(),
        run.refuses(j),
        0 <= i < run.len(),
    ensures
        run.out[j].action == Action::RemoveFile(Asset::LtPart),
        !(run.out[i].action is Rename),
        !(run.out[i].action is Unzip),
        !(run.out[i].action is WriteVersion),
        run.out[i].action matches Action::Finish(result) ==> (result matches Err(e)
            && resolve::is_mismatch(
            e,
            run.cfg.lt_sha256@,
            run.events[j]->Bytes_0@,
        )),
{
    assert(run.takes(j));
    assert(run.takes(i));
    if i < j {
        law_provision_goes_forward(run, i + 1, j);
    } else if i > j {
        lemma_refused(run, j, i);
        lemma_refused(run, j, i + 1);
    }
}

/// Before LanguageTool is found to be installed nothing is downloaded, and after it only the
/// version file is read.
proof fn lemma_fast_path(run: ProvisionRun, j: int, k: int)
    requires
        run.valid(),
        0 <= j < k <= run.len(),
        run.finds_installed(j),
    ensures
        run.states[k].stage == Stage::Restore || run.states[k].stage == Stage::Done,
    decreases k,
{
    assert(run.takes(k - 1));
    if k - 1 > j {
        lemma_fast_path(run, j, k - 1);
    }
}

/// Provisioning what is installed already is fast: nothing is downloaded, probed, unpacked or
/// written, and it cannot end but with success.
pub proof fn law_installed_is_not_downloaded(run: ProvisionRun, j: int, i: int)
    requires
        run.valid(),
        0 <= j < run.len(),
        run.finds_installed(j),
        0 <= i < run.len(),
    ensures
        match run.out[i].action {
            Action::TakeLock | Action::InspectInstall | Action::ReadVersion
            | Action::Unexpected => true,
            Action::Finish(result) => result is Ok,
            _ => false,
        },
        run.out[i].report is None,
        run.after[i].state == run.before[i].state,
{
    assert(run.takes(i));
    assert(run.takes(j));
    if i < j {
        law_provision_goes_forward(run, i + 1, j);
    } else if i > j {
        lemma_fast_path(run, j, i);
    }
}

/// Provisioning what is installed already is a no-op for a running engine: one that is ready, or
/// starting, is so afterwards too, with the same port, the same server and the same configuration.
pub proof fn law_installed_leaves_running_engine(
    run: ProvisionRun,
    j: int,
    i: int,
    ended: LanguageToolEngine,
    post: LanguageToolEngine,
)
    requires
        run.valid(),
        0 <= j < run.len(),
        run.finds_installed(j),
        0 <= i < run.len(),
        run.out[i].action matches Action::Finish(result) && ended.provision_ended(result, post),
        ended.shared == run.after[i],
        run.before[i].state == EngineState::Ready || run.before[i].state == EngineState::Starting,
    ensures
        post == ended,
        post.shared.state == run.before[i].state,
        post.shared.port == run.before[i].port,
{
    law_installed_is_not_downloaded(run, j, i);
    assert(run.takes(i));
    if i > j {
        lemma_fast_path(run, j, i);
    }
}

/// As long as a Java runtime is being chosen, none that was probed was recent enough.
proof fn lemma_no_java_yet(run: ProvisionRun, k: int, j: int)
    requires
        run.valid(),
        0 <= j < k <= run.len(),
        rank(run.states[k].stage) <= 4,
    ensures
        !run.hears_of_java(j),
    decreases k,
{
    assert(run.takes(k - 1));
    law_provision_goes_forward(run, k - 1, k);
    if j < k - 1 {
        lemma_no_java_yet(run, k - 1, j);
    }
}

/// A Java runtime is downloaded only as a fallback: where one of the system, or one that was
/// downloaded before, was found to be recent enough, none is.
pub proof fn law_jre_only_as_fallback(run: ProvisionRun, i: int, j: int)
    requires
        run.valid(),
        0 <= i < run.len(),
        run.out[i].action matches Action::Download { url: _, dest } && dest == Asset::JreArchive,
        0 <= j < run.len(),
    ensures
        !run.hears_of_java(j),
{
    assert(run.takes(i));
    assert(run.takes(j));
    if j < i {
        lemma_no_java_yet(run, i, j);
    } else if j == i {
        lemma_no_java_yet(run, i + 1, j);
    } else {
        lemma_downloading_jre(run, i, j);
    }
}

/// Once a Java runtime is being downloaded, none is probed any more.
proof fn lemma_downloading_jre(run: ProvisionRun, i: int, k: int)
    requires
        run.valid(),
        0 <= i < k <= run.len(),
        run.out[i].action matches Action::Download { url: _, dest } && dest == Asset::JreArchive,
    ensures
        run.states[k].stage == Stage::Java ==> match run.states[k].resolver.stage {
            JavaStage::Home | JavaStage::HomeProbe | JavaStage::PathProbe
            | JavaStage::JreProbe => false,
            _ => true,
        },
        rank(run.states[k].stage) >= 4,
    decreases k,
{
    assert(run.takes(i));
    assert(run.takes(k - 1));
    if k - 1 > i {
        lemma_downloading_jre(run, i, k - 1);
    }
}

/// Before the archive of a Java runtime is unpacked, its digest was found to be right, where one
/// is configured.
proof fn lemma_jre_verified(run: ProvisionRun, k: int)
    requires
        run.valid(),
        0 <= k <= run.len(),
        run.cfg.jre_sha256 is Some,
        run.states[k].stage == Stage::Java,
        run.states[k].resolver.stage == JavaStage::CreateDir || run.states[k].resolver.stage
            == JavaStage::Unpack,
    ensures
        exists|j: int| 0 <= j < k && #[trigger] run.verifies_jre(j),
    decreases k,
{
    if k > 0 {
        assert(run.takes(k - 1));
        let before = run.states[k - 1];
        if before.stage == Stage::Java && (before.resolver.stage == JavaStage::CreateDir
            || before.resolver.stage == JavaStage::Unpack) {
            lemma_jre_verified(run, k - 1);
            let j = choose|j: int| 0 <= j < k - 1 && #[trigger] run.verifies_jre(j);
            assert(run.verifies_jre(j));
        } else {
            lemma_resolver_begun(run, k - 1);
            assert(run.verifies_jre(k - 1));
        }
    }
}

/// Until a Java runtime is being chosen, that choice has not begun.
proof fn lemma_resolver_begun(run: ProvisionRun, k: int)
    requires
        run.valid(),
        0 <= k <= run.len(),
    ensures
        rank(run.states[k].stage) <= 2 ==> run.states[k].resolver.is_begun(),
    decreases k,
{
    if k > 0 {
        assert(run.takes(k - 1));
        lemma_resolver_begun(run, k - 1);
    }
}

/// No unverified Java runtime is unpacked: where a digest is configured for its archive, the
/// archive was found to have it.
pub proof fn law_only_verified_jre_is_unpacked(run: ProvisionRun, i: int)
    requires
        run.valid(),
        0 <= i < run.len(),
        run.out[i].action is Unpack,
    ensures
        run.cfg.jre_sha256 is None || exists|j: int| 0 <= j < i && #[trigger] run.verifies_jre(j),
{
    assert(run.takes(i));
    if run.cfg.jre_sha256 is Some {
        lemma_jre_verified(run, i);
    }
}

/// Without a URL to download a Java runtime from, the choice of one fails only because there is
/// none that is recent enough.
pub proof fn law_no_java_runtime(run: ProvisionRun, i: int, j: int)
    requires
        run.valid(),
        run.cfg.jre_download_url is None,
        0 <= j <= i < run.len(),
        run.states[i].stage == Stage::Java,
        run.out[i].action is Finish,
    ensures
        run.out[i].action == Action::Finish(Err(Error::NoJavaRuntime)),
        !run.hears_of_java(j),
{
    assert(run.takes(i));
    assert(run.takes(j));
    lemma_no_jre_download(run, i);
    if j < i {
        lemma_no_java_yet(run, i, j);
    }
}

/// Without a URL to download a Java runtime from, none is downloaded.
proof fn lemma_no_jre_download(run: ProvisionRun, k: int)
    requires
        run.valid(),
        run.cfg.jre_download_url is None,
        0 <= k <= run.len(),
        rank(run.states[k].stage) <= 4,
    ensures
        match run.states[k].resolver.stage {
            JavaStage::Home | JavaStage::HomeProbe | JavaStage::PathProbe
            | JavaStage::JreProbe => true,
            _ => false,
        },
        run.states[k].resolver.outcome is None,
    decreases k,
{
    if k > 0 {
        assert(run.takes(k - 1));
        law_provision_goes_forward(run, k - 1, k);
        lemma_no_jre_download(run, k - 1);
    }
}

/// The runtime that is chosen counts as one of the system exactly where it was found by way of
/// `JAVA_HOME` or the search path, and the choice is made known at once.
pub proof fn law_system_java_is_told(run: ProvisionRun, i: int)
    requires
        run.valid(),
        0 <= i < run.len(),
        run.states[i].stage == Stage::Java,
        run.states[i + 1].stage == Stage::Download,
    ensures
        run.states[i + 1].java matches Some(java) && layout::optional_path(run.after[i].java_path)
            == Some(java.path@) && run.after[i].using_system_java == java.system && (java.system <==> (
        run.states[i].resolver.stage == JavaStage::HomeProbe || run.states[i].resolver.stage
            == JavaStage::PathProbe)),
{
    assert(run.takes(i));
    lemma_choosing(run, i);
}

/// While a Java runtime is being chosen, there is no outcome yet.
proof fn lemma_choosing(run: ProvisionRun, k: int)
    requires
        run.valid(),
        0 <= k <= run.len(),
        rank(run.states[k].stage) <= 4,
    ensures
        run.states[k].resolver.outcome is None,
    decreases k,
{
    if k > 0 {
        assert(run.takes(k - 1));
        law_provision_goes_forward(run, k - 1, k);
        lemma_choosing(run, k - 1);
    }
}

/// Only the two configured URLs are ever downloaded: that of LanguageTool and that of the Java
/// runtime. There is no other data, such as n-gram datasets, that could be.
pub proof fn law_only_configured_downloads(run: ProvisionRun, i: int)
    requires
        run.valid(),
        0 <= i < run.len(),
    ensures
        run.out[i].action matches Action::Download { url, dest } ==> {
            ||| dest == Asset::LtPart && url == run.cfg.lt_download_url
            ||| dest == Asset::JreArchive && run.cfg.jre_download_url == Some(url)
        },
{
    assert(run.takes(i));
}

/// The count of bytes is that of the pieces that were written.
proof fn lemma_written(run: ProvisionRun, k: int)
    requires
        run.valid(),
        0 <= k <= run.len(),
        forall|i: int| 0 <= i < run.len() ==> #[trigger] run.states[i].fits(run.events[i]),
    ensures
        rank(run.states[k].stage) < 5 ==> run.written(k) == 0,
        run.states[k].stage == Stage::Download ==> run.written(k)
            == run.states[k].download.downloaded,
    decreases k,
{
    if k > 0 {
        lemma_written(run, k - 1);
        assert(run.takes(k - 1));
        assert(run.states[k - 1].fits(run.events[k - 1]));
        law_provision_goes_forward(run, k - 1, k);
    }
}

/// A download reports how many bytes of LanguageTool were written so far, after each piece.
pub proof fn law_progress_counts_bytes(run: ProvisionRun, i: int)
    requires
        run.valid(),
        forall|j: int| 0 <= j < run.len() ==> #[trigger] run.states[j].fits(run.events[j]),
        0 <= i < run.len(),
        run.states[i].stage == Stage::Download,
        run.events[i] is Chunk,
    ensures
        run.out[i].report matches Some(EngineState::Downloading { downloaded, total: _ })
            && downloaded == run.written(i + 1),
        Some(run.after[i].state) == run.out[i].report,
{
    assert(run.takes(i));
    assert(run.states[i].fits(run.events[i]));
    lemma_written(run, i);
}

/// The count of bytes of a Java runtime is that of the pieces that were written.
proof fn lemma_jre_written(run: ProvisionRun, k: int)
    requires
        run.valid(),
        0 <= k <= run.len(),
        forall|i: int| 0 <= i < run.len() ==> #[trigger] run.states[i].fits(run.events[i]),
    ensures
        rank(run.states[k].stage) <= 4 ==> run.jre_written(k)
            == run.states[k].resolver.download.downloaded,
        rank(run.states[k].stage) <= 4 && (match run.states[k].resolver.stage {
            JavaStage::Home | JavaStage::HomeProbe | JavaStage::PathProbe
            | JavaStage::JreProbe => true,
            _ => false,
        }) ==> run.jre_written(k) == 0,
    decreases k,
{
    if k > 0 {
        lemma_jre_written(run, k - 1);
        assert(run.takes(k - 1));
        assert(run.states[k - 1].fits(run.events[k - 1]));
        law_provision_goes_forward(run, k - 1, k);
        lemma_resolver_begun(run, k - 1);
    }
}

/// The download of a Java runtime reports how many of its bytes were written so far, after each
/// piece. Nothing else is reported while a runtime is chosen.
pub proof fn law_jre_progress_counts_bytes(run: ProvisionRun, i: int)
    requires
        run.valid(),
        forall|j: int| 0 <= j < run.len() ==> #[trigger] run.states[j].fits(run.events[j]),
        0 <= i < run.len(),
        run.states[i].stage == Stage::Java,
    ensures
        run.states[i].receives_jre(run.events[i]) ==> {
            &&& run.out[i].report matches Some(EngineState::Downloading { downloaded, total: _ })
            &&& downloaded == run.jre_written(i + 1)
            &&& run.after[i].state == run.out[i].report->0
        },
        !run.states[i].receives_jre(run.events[i]) ==> run.out[i].report is None,
{
    assert(run.takes(i));
    assert(run.states[i].fits(run.events[i]));
    lemma_jre_written(run, i);
    lemma_choosing(run, i);
}

/// Each of the two configured URLs is fetched at most once: of two downloads in a run, the first
/// is that of a Java runtime and the second that of LanguageTool.
pub proof fn law_downloads_at_most_once(run: ProvisionRun, i: int, j: int)
    requires
        run.valid(),
        0 <= i < j < run.len(),
        run.downloads(i),
        run.downloads(j),
    ensures
        run.out[i].action matches Action::Download { url: _, dest } && dest == Asset::JreArchive,
        run.out[j].action matches Action::Download { url: _, dest } && dest == Asset::LtPart,
{
    assert(run.takes(i));
    assert(run.takes(j));
    law_provision_goes_forward(run, i + 1, j);
    if run.out[i].action->Download_dest == Asset::JreArchive {
        lemma_downloading_jre(run, i, j);
    }
}

/// What is seen from outside follows what is done: until it is known that LanguageTool is not
/// installed nothing changes, then the engine shows a download until LanguageTool was downloaded,
/// and then that it is installing, until provisioning ends.
pub proof fn law_state_follows_stage(run: ProvisionRun, k: int)
    requires
        run.valid(),
        run.undisturbed(),
        0 <= k < run.len(),
        run.states[k].stage != Stage::Done,
    ensures
        rank(run.states[k].stage) <= 3 ==> run.before[k].state == run.before[0].state,
        4 <= rank(run.states[k].stage) <= 5 ==> run.before[k].state is Downloading,
        rank(run.states[k].stage) > 5 ==> run.before[k].state == EngineState::Installing,
    decreases k,
{
    if k > 0 {
        assert(run.takes(k - 1));
        assert(run.before[k].state == run.after[k - 1].state);
        law_provision_goes_forward(run, k - 1, k);
        law_state_follows_stage(run, k - 1);
    }
}

/// Every way from a download to the end of a successful installation goes through the state that
/// shows it: where the version file is written, the engine was reported to be installing.
pub proof fn law_installing_is_reported(run: ProvisionRun, i: int)
    requires
        run.valid(),
        0 <= i < run.len(),
        run.out[i].action is WriteVersion,
    ensures
        exists|j: int|
            0 <= j < i && (#[trigger] run.out[j]).report == Some(EngineState::Installing),
{
    assert(run.takes(i));
    lemma_installing(run, i);
}

proof fn lemma_installing(run: ProvisionRun, k: int)
    requires
        run.valid(),
        0 <= k <= run.len(),
        6 <= rank(run.states[k].stage) <= 12,
    ensures
        exists|j: int|
            0 <= j < k && (#[trigger] run.out[j]).report == Some(EngineState::Installing),
    decreases k,
{
    if k > 0 {
        assert(run.takes(k - 1));
        if 6 <= rank(run.states[k - 1].stage) <= 12 {
            lemma_installing(run, k - 1);
        } else {
            assert(run.out[k - 1].report == Some(EngineState::Installing));
        }
    }
}

/// Provisioning ends with success only where LanguageTool was installed already, or where the
/// version file was written.
pub proof fn law_success_means_installed(run: ProvisionRun, i: int)
    requires
        run.valid(),
        0 <= i < run.len(),
        run.out[i].action == Action::Finish(Ok(())),
    ensures
        ({
            ||| exists|j: int| 0 <= j < i && #[trigger] run.finds_installed(j)
            ||| exists|j: int| 0 <= j < i && (#[trigger] run.out[j]).action is WriteVersion
        }),
{
    assert(run.takes(i));
    lemma_success(run, i);
}

proof fn lemma_success(run: ProvisionRun, k: int)
    requires
        run.valid(),
        0 <= k <= run.len(),
    ensures
        run.states[k].stage == Stage::Restore ==> exists|j: int|
            0 <= j < k && #[trigger] run.finds_installed(j),
        run.states[k].stage == Stage::Record ==> exists|j: int|
            0 <= j < k && (#[trigger] run.out[j]).action is WriteVersion,
    decreases k,
{
    if k > 0 {
        assert(run.takes(k - 1));
        lemma_success(run, k - 1);
        if run.states[k].stage == Stage::Restore && run.states[k - 1].stage != Stage::Restore {
            assert(run.finds_installed(k - 1));
        }
        if run.states[k].stage == Stage::Record && run.states[k - 1].stage != Stage::Record {
            assert(run.out[k - 1].action is WriteVersion);
        }
    }
}

/// What provisioning writes is what a later look finds: with the version file that it writes, and
/// the jar in its place, LanguageTool counts as installed, and the Java runtime that is taken over
/// from the file is the one that was chosen.
pub proof fn law_version_file_round_trip(
    cfg: EngineConfig,
    java: JavaChoice,
    record: VersionJson,
    shared: SharedState,
)
    requires
        provision::is_record(record, cfg, java),
    ensures
        provision::installed(cfg, true, Some(record)),
        provision::restored(shared, Some(record)) == (SharedState {
            java_path: Some(record.java_path),
            using_system_java: java.system,
            ..shared
        }),
        record.java_path@ == java.path@,
{
}

/// Whether the shared state holds that Java runtime.
pub open spec fn holds_java(shared: SharedState, path: PathView, system: bool) -> bool {
    layout::optional_path(shared.java_path) == Some(path) && shared.using_system_java == system
}

/// Once a Java runtime was chosen, the shared state holds it.
proof fn lemma_java_is_shared(run: ProvisionRun, k: int)
    requires
        run.valid(),
        run.alone(),
        0 <= k < run.len(),
        5 <= rank(run.states[k].stage) <= 12,
    ensures
        run.states[k].java matches Some(java) && holds_java(
            run.before[k],
            java.path@,
            java.system,
        ),
    decreases k,
{
    if k > 0 {
        assert(run.takes(k - 1));
        assert(run.before[k] == run.after[k - 1]);
        if 5 <= rank(run.states[k - 1].stage) {
            lemma_java_is_shared(run, k - 1);
        } else {
            lemma_resolver_begun(run, k - 1);
            lemma_choosing(run, k - 1);
        }
    }
}

/// While the version file is written, the shared state holds the Java runtime that it records.
proof fn lemma_record_is_shared(run: ProvisionRun, j: int, record: VersionJson, k: int)
    requires
        run.valid(),
        run.alone(),
        0 <= j < k < run.len(),
        run.out[j].action == Action::WriteVersion(record),
        run.states[k].stage == Stage::Record,
    ensures
        holds_java(run.before[k], record.java_path@, record.using_system_java),
    decreases k,
{
    assert(run.takes(j));
    assert(run.takes(k - 1));
    assert(run.before[k] == run.after[k - 1]);
    if k - 1 > j {
        law_provision_goes_forward(run, j + 1, k - 1);
        lemma_record_is_shared(run, j, record, k - 1);
    } else {
        lemma_java_is_shared(run, j);
    }
}

/// After provisioning that succeeded, while nobody else changes it, the shared state holds the Java
/// runtime that the version file records, so that taking it over from the file changes nothing.
pub proof fn law_shared_java_is_recorded(run: ProvisionRun, j: int, record: VersionJson, i: int)
    requires
        run.valid(),
        run.alone(),
        0 <= j < run.len(),
        run.knows_record(j, record),
        0 <= i < run.len(),
        run.out[i].action == Action::Finish(Ok(())),
    ensures
        holds_java(run.after[i], record.java_path@, record.using_system_java),
        ({
            let again = provision::restored(run.after[i], Some(record));
            &&& layout::optional_path(again.java_path) == layout::optional_path(
                run.after[i].java_path,
            )
            &&& again == SharedState { java_path: again.java_path, ..run.after[i] }
        }),
{
    assert(run.takes(i));
    assert(run.takes(j));
    if i < j {
        law_provision_goes_forward(run, i + 1, j);
    } else if j < i {
        law_provision_goes_forward(run, j + 1, i);
        if run.out[j].action == Action::WriteVersion(record) {
            lemma_record_is_shared(run, j, record, i);
        }
    }
}

/// Until the archive of a Java runtime is unpacked, it counts as packed in the way that its URL
/// says.
proof fn lemma_jre_kind(run: ProvisionRun, k: int)
    requires
        run.valid(),
        0 <= k <= run.len(),
        run.states[k].stage == Stage::Java,
        match run.states[k].resolver.stage {
            JavaStage::Download | JavaStage::Digest | JavaStage::CreateDir => true,
            _ => false,
        },
    ensures
        run.cfg.jre_download_url matches Some(url) && run.states[k].resolver.kind == task::kind_of(
            url@,
        ),
    decreases k,
{
    if k > 0 {
        assert(run.takes(k - 1));
        lemma_resolver_begun(run, k - 1);
        if run.states[k - 1].stage == Stage::Java {
            match run.states[k - 1].resolver.stage {
                JavaStage::Download | JavaStage::Digest | JavaStage::CreateDir => {
                    lemma_jre_kind(run, k - 1);
                },
                _ => {},
            }
        }
    }
}

/// The archive of a Java runtime is unpacked in the way that the name in its URL says: as a zip file
/// where that ends in `.zip`, as a compressed tar file otherwise.
pub proof fn law_jre_is_unpacked_by_its_url(run: ProvisionRun, i: int)
    requires
        run.valid(),
        0 <= i < run.len(),
    ensures
        run.out[i].action matches Action::Unpack { kind, archive, dest } ==> {
            &&& run.cfg.jre_download_url matches Some(url)
            &&& kind == task::kind_of(url@)
            &&& archive == Asset::JreArchive
            &&& dest == Asset::Jre
        },
{
    assert(run.takes(i));
    if run.out[i].action is Unpack {
        lemma_jre_kind(run, i);
    }
}

/// The version file counts for no other version, and for no other digest where one is configured.
pub proof fn law_other_version_is_not_installed(
    cfg: EngineConfig,
    other: EngineConfig,
    java: JavaChoice,
    record: VersionJson,
)
    requires
        provision::is_record(record, cfg, java),
        other.lt_version@ != cfg.lt_version@ || (other.lt_sha256@.len() > 0 && other.lt_sha256@
            != cfg.lt_sha256@),
    ensures
        !provision::installed(other, true, Some(record)),
{
}

/// During a start the engine becomes ready only because the server, on the port that was made
/// known, has answered with the status 200.
pub proof fn law_ready_only_when_healthy(
    before: LanguageToolEngine,
    flow: StartFlow,
    event: StartEvent,
    after: LanguageToolEngine,
    post: StartFlow,
    action: StartAction,
)
    requires
        engine::start_step(before, flow, event, after, post, action),
        before.shared.state != EngineState::Ready,
        after.shared.state == EngineState::Ready,
    ensures
        event matches StartEvent::Wait(WaitEvent::Response(status)) && lifecycle::is_healthy(
            status,
        ),
        flow.stage == StartStage::Wait,
        flow.wait.stage == WaitStage::Poll,
        action matches StartAction::Finish(Ok(_)),
{
}

/// The wait for the server is given up only once the startup timeout has passed; the error names
/// the timeout in seconds, the engine shows it, and the server that was spawned is stopped.
pub proof fn law_given_up_only_after_timeout(
    before: LanguageToolEngine,
    flow: StartFlow,
    event: StartEvent,
    after: LanguageToolEngine,
    post: StartFlow,
    action: StartAction,
)
    requires
        engine::start_step(before, flow, event, after, post, action),
        flow.stage == StartStage::Wait,
        post.stage != StartStage::Wait,
        after.shared.state != EngineState::Ready,
    ensures
        event matches StartEvent::Wait(WaitEvent::Elapsed(elapsed)) && elapsed.total_nanos()
            >= flow.wait.timeout.total_nanos(),
        post.failure == Some(Error::StartupTimeout { seconds: flow.wait.timeout.secs }),
        engine::shows(
            after.shared.state,
            Error::StartupTimeout { seconds: flow.wait.timeout.secs },
        ),
        action == StartAction::StopServer(before.server),
        after.server is None,
{
}

/// While nobody else changes it, the state during a start is that of the diagram: starting until
/// the engine is ready or shows an error.
pub proof fn law_start_states(
    before: LanguageToolEngine,
    flow: StartFlow,
    event: StartEvent,
    after: LanguageToolEngine,
    post: StartFlow,
    action: StartAction,
)
    requires
        engine::start_step(before, flow, event, after, post, action),
        before.shared.state == EngineState::Starting,
    ensures
        after.shared.state == EngineState::Starting || after.shared.state == EngineState::Ready
            || after.shared.state is Error,
        after.shared.state == EngineState::Ready <==> action matches StartAction::Finish(Ok(_)),
{
}

/// A run of a start with which nobody else interferes: what it and the engine were at each moment,
/// and of each step the event and the action.
pub struct StartRun {
    pub engines: Seq<LanguageToolEngine>,
    pub flows: Seq<StartFlow>,
    pub events: Seq<StartEvent>,
    pub actions: Seq<StartAction>,
}

impl StartRun {
    /// The number of steps.
    pub open spec fn len(self) -> int {
        self.events.len() as int
    }

    /// Whether step `i` is one that the start takes.
    pub open spec fn takes(self, i: int) -> bool {
        engine::start_step(
            self.engines[i],
            self.flows[i],
            self.events[i],
            self.engines[i + 1],
            self.flows[i + 1],
            self.actions[i],
        )
    }

    /// Whether this is a run that begins where `start` leaves `before`, with any events.
    pub open spec fn valid(self, before: LanguageToolEngine, version: Option<VersionJson>) -> bool {
        &&& self.engines.len() == self.len() + 1
        &&& self.flows.len() == self.len() + 1
        &&& self.actions.len() == self.len()
        &&& before.valid()
        &&& provision::installed(before.config, true, version)
        &&& self.engines[0] == before.starting(version)
        &&& self.flows[0].is_begun()
        &&& self.flows[0].valid()
        &&& forall|i: int| 0 <= i < self.len() ==> #[trigger] self.takes(i)
    }
}

/// At each moment of a start, the engine is as the start left it: starting until it is ready, with
/// the server that was launched, and showing the error once the start has failed. There is no
/// server but that one where there was none before.
pub proof fn law_start_keeps_engine(
    run: StartRun,
    before: LanguageToolEngine,
    version: Option<VersionJson>,
    k: int,
)
    requires
        run.valid(before, version),
        0 <= k <= run.len(),
    ensures
        run.flows[k].runs_in(run.engines[k]),
        run.flows[k].valid(),
        run.engines[k].config == before.config,
        before.server is None && (run.flows[k].stage == StartStage::AcquirePort
            || run.flows[k].stage == StartStage::Launch || run.engines[k].shared.state is Error)
            ==> run.engines[k].server is None,
    decreases k,
{
    if k > 0 {
        law_start_keeps_engine(run, before, version, k - 1);
        assert(run.takes(k - 1));
    }
}

/// A start that fails leaves the engine showing the error that it returns, at whichever step it
/// fails, and with no server where it had none before.
pub proof fn law_start_failure_is_shown(
    run: StartRun,
    before: LanguageToolEngine,
    version: Option<VersionJson>,
    i: int,
)
    requires
        run.valid(before, version),
        0 <= i < run.len(),
        run.actions[i] matches StartAction::Finish(Err(_)),
    ensures
        run.actions[i] matches StartAction::Finish(Err(e)) && engine::shows(
            run.engines[i + 1].shared.state,
            e,
        ),
        before.server is None ==> run.engines[i + 1].server is None,
{
    law_start_keeps_engine(run, before, version, i);
    law_start_keeps_engine(run, before, version, i + 1);
    assert(run.takes(i));
}

/// A start that succeeds leaves the engine ready, with the server that was launched at the port
/// that checks go to.
pub proof fn law_start_success_is_ready(
    run: StartRun,
    before: LanguageToolEngine,
    version: Option<VersionJson>,
    i: int,
)
    requires
        run.valid(before, version),
        0 <= i < run.len(),
        run.actions[i] matches StartAction::Finish(Ok(_)),
    ensures
        run.engines[i + 1].shared.state == EngineState::Ready,
        run.engines[i + 1].shared.port matches Some(port) && run.engines[i + 1].server == Some(
            ServerProcess { port },
        ),
{
    law_start_keeps_engine(run, before, version, i);
    assert(run.takes(i));
}

/// After the app was started anew, LanguageTool that is installed starts without provisioning: the
/// server is launched with the Java runtime that the version file names.
pub proof fn law_start_after_restart(
    before: LanguageToolEngine,
    version: VersionJson,
    flow: StartFlow,
    port: u16,
    after: LanguageToolEngine,
    post: StartFlow,
    action: StartAction,
)
    requires
        before.shared.java_path is None,
        provision::installed(before.config, true, Some(version)),
        flow.is_begun(),
        engine::start_step(
            before.starting(Some(version)),
            flow,
            StartEvent::Port(port),
            after,
            post,
            action,
        ),
    ensures
        action matches StartAction::Launch(command) && command.program@ == version.java_path@
            && lifecycle::is_launch(command, before.config, version.java_path, port),
{
}

/// Stopping is safe at any time: a second stop finds no server, and leaves the engine as the
/// first one did.
pub proof fn law_stop_twice(e: LanguageToolEngine)
    ensures
        ({
            let once = e.handed_over().stopped();
            let twice = once.handed_over().stopped();
            &&& once.server is None
            &&& once.shared.state == EngineState::Stopped
            &&& once.shared.port == e.shared.port
            &&& once.shared.java_path == e.shared.java_path
            &&& once.shared.using_system_java == e.shared.using_system_java
            &&& once.config == e.config
            &&& twice == once
        }),
{
}

/// In every state but ready, a check is answered at once with the error that names the state.
pub proof fn law_check_needs_ready(
    e: LanguageToolEngine,
    text: Seq<char>,
    language: Seq<char>,
    rules: Seq<Seq<char>>,
    categories: Seq<Seq<char>>,
    res: Result<CheckRequest, Error>,
)
    requires
        engine::checks(e, text, language, rules, categories, res),
        e.shared.state != EngineState::Ready,
    ensures
        res matches Err(Error::NotReady { state }) && state@ == state::state_text(e.shared.state),
{
}

/// An engine that is ready takes every check to its own server.
pub proof fn law_ready_engine_checks(
    e: LanguageToolEngine,
    text: Seq<char>,
    language: Seq<char>,
    rules: Seq<Seq<char>>,
    categories: Seq<Seq<char>>,
    res: Result<CheckRequest, Error>,
)
    requires
        engine::checks(e, text, language, rules, categories, res),
        e.valid(),
        e.shared.state == EngineState::Ready,
    ensures
        res matches Ok(request) && request.url@ == client::server_url(
            e.shared.port->0,
            "/v2/check"@,
        ),
{
}

/// After a stop, whatever the engine did before, checks are refused because it is stopped.
pub proof fn law_no_check_after_stop(
    e: LanguageToolEngine,
    text: Seq<char>,
    language: Seq<char>,
    rules: Seq<Seq<char>>,
    categories: Seq<Seq<char>>,
    res: Result<CheckRequest, Error>,
)
    requires
        engine::checks(
            e.handed_over().stopped(),
            text,
            language,
            rules,
            categories,
            res,
        ),
    ensures
        res matches Err(Error::NotReady { state }) && state@ == "stopped"@,
{
}

} // verus!
