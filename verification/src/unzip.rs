//! Unpacking a zip file, entry by entry.
use vstd::prelude::*;
use vstd::string::*;
use crate::error::Error;
use crate::layout::{InstallPath, PathView};

verus! {

/// A step in the unpacking of one entry of a zip file, at the path that the entry goes to.
#[derive(Clone, Copy, Debug, PartialEq, Eq, Structural)]
pub enum EntryStep {
    /// Create the directory at that path, and those above it.
    CreateDir,
    /// Create the directory that the path lies in, and those above it.
    CreateParent,
    /// Write what the entry holds to a file at that path.
    WriteFile,
    /// Give the file at that path its permissions.
    SetMode(u32),
}

/// The steps that unpack one entry of a zip file. Permissions are kept on systems that have them.
pub open spec fn entry_plan(
    is_dir: bool,
    has_parent: bool,
    unix: bool,
    mode: Option<u32>,
) -> Seq<EntryStep> {
    if is_dir {
        seq![EntryStep::CreateDir]
    } else {
        (if has_parent {
            seq![EntryStep::CreateParent]
        } else {
            Seq::empty()
        }) + seq![EntryStep::WriteFile] + (if unix && mode is Some {
            seq![EntryStep::SetMode(mode->0)]
        } else {
            Seq::empty()
        })
    }
}

/// The steps that unpack one entry of a zip file.
pub fn unzip_entry(is_dir: bool, has_parent: bool, unix: bool, mode: Option<u32>) -> (res: Vec<
    EntryStep,
>)
    ensures
        res@ == entry_plan(is_dir, has_parent, unix, mode),
{
    let mut res: Vec<EntryStep> = Vec::new();
    if is_dir {
        res.push(EntryStep::CreateDir);
    } else {
        if has_parent {
            res.push(EntryStep::CreateParent);
        }
        res.push(EntryStep::WriteFile);
        if unix {
            if let Some(mode) = mode {
                res.push(EntryStep::SetMode(mode));
            }
        }
    }
    assert(res@ =~= entry_plan(is_dir, has_parent, unix, mode));
    res
}

/// A step, and the path that it works on.
pub type Placed = (EntryStep, PathView);

/// The steps of a plan, all of them at one path.
pub open spec fn placed(plan: Seq<EntryStep>, target: PathView) -> Seq<Placed> {
    plan.map_values(|step: EntryStep| (step, target))
}

/// How far the unpacking has come, by the work that is under way.
#[derive(Clone, Copy, Debug, PartialEq, Eq, Structural)]
pub enum UnzipStage {
    /// Opening the archive.
    Open,
    /// Reading what is known of an entry.
    Entry,
    /// Unpacking an entry.
    Perform,
    /// Nothing: the unpacking has come to an end.
    Done,
}

/// What came of a piece of work.
#[derive(Debug)]
pub enum UnzipEvent {
    /// The archive was opened; it has so many entries.
    Opened { entries: usize },
    /// What is known of an entry: its name, whether it stands for a directory, whether the path that
    /// it goes to lies in a directory, and the permissions where they are recorded.
    Entry { name: String, is_dir: bool, has_parent: bool, mode: Option<u32> },
    /// The step was performed.
    Done,
    /// The work failed.
    Failed(Error),
}

/// A piece of work to be done next.
#[derive(Debug)]
pub enum UnzipAction {
    /// Open the archive.
    Open,
    /// Tell what is known of the entry with that index.
    ReadEntry(usize),
    /// Perform a step, at that path, for the entry that was read last.
    Perform { step: EntryStep, target: InstallPath },
    /// The unpacking has come to an end.
    Finish(Result<(), Error>),
    /// The event answers no work that was asked for. Nothing was done.
    Unexpected,
}

/// The unpacking of a zip file, under way.
#[derive(Debug)]
pub struct Unzipper {
    pub unix: bool,
    /// The directory that the archive is unpacked into.
    pub dest: InstallPath,
    pub stage: UnzipStage,
    /// The number of entries of the archive.
    pub entries: usize,
    /// The entry that is being read or unpacked.
    pub index: usize,
    /// The path that the entry goes to.
    pub target: InstallPath,
    /// The steps that unpack that entry.
    pub steps: Vec<EntryStep>,
    /// The step that is being performed.
    pub current: usize,
}

/// Whether an action is to perform that step at that path.
pub open spec fn performs(action: UnzipAction, step: EntryStep, target: PathView) -> bool {
    action matches UnzipAction::Perform { step: s, target: t } && s == step && t@ == target
}

impl Unzipper {
    /// Whether an entry that is being read or unpacked is there, and so is the step.
    pub open spec fn valid(self) -> bool {
        &&& self.stage == UnzipStage::Entry || self.stage == UnzipStage::Perform ==> self.index
            < self.entries
        &&& self.stage == UnzipStage::Perform ==> self.current < self.steps@.len()
    }

    /// Unpacking that has just begun, by opening the archive.
    pub open spec fn is_begun(self) -> bool {
        self.stage == UnzipStage::Open && self.index == 0
    }

    /// Unpacking into `dest` that has just begun, on a system with Unix permissions or without.
    pub open spec fn begins_with(self, unix: bool, dest: InstallPath) -> bool {
        self.is_begun() && self.unix == unix && self.dest == dest
    }

    /// Whether the entry with that index is read next, or the unpacking ends where there is none.
    pub open spec fn goes_on(
        self,
        entries: usize,
        index: int,
        post: Self,
        action: UnzipAction,
    ) -> bool {
        if index < entries {
            &&& post == Unzipper {
                stage: UnzipStage::Entry,
                entries,
                index: index as usize,
                ..self
            }
            &&& action == UnzipAction::ReadEntry(index as usize)
        } else {
            &&& post == Unzipper {
                stage: UnzipStage::Done,
                entries,
                index: index as usize,
                ..self
            }
            &&& action == UnzipAction::Finish(Ok(()))
        }
    }

    /// One step of the unpacking: the entries are read in order, and for each of them its steps
    /// are performed in order, until all are done or something fails. An entry goes to its name,
    /// joined onto the directory that the archive is unpacked into.
    pub open spec fn step(self, event: UnzipEvent, post: Self, action: UnzipAction) -> bool {
        match (self.stage, event) {
            (UnzipStage::Open, UnzipEvent::Opened { entries }) => self.goes_on(
                entries,
                0,
                post,
                action,
            ),
            (UnzipStage::Entry, UnzipEvent::Entry { name, is_dir, has_parent, mode }) => {
                &&& post == Unzipper {
                    stage: UnzipStage::Perform,
                    target: post.target,
                    steps: post.steps,
                    current: 0,
                    ..self
                }
                &&& post.steps@ == entry_plan(is_dir, has_parent, self.unix, mode)
                &&& post.target@ == self.dest@.push(name@)
                &&& performs(action, post.steps@[0], self.dest@.push(name@))
            },
            (UnzipStage::Perform, UnzipEvent::Done) => if self.current + 1 < self.steps@.len() {
                &&& post == Unzipper { current: (self.current + 1) as usize, ..self }
                &&& performs(action, self.steps@[self.current + 1], self.target@)
            } else {
                self.goes_on(self.entries, self.index + 1, post, action)
            },
            (UnzipStage::Open, UnzipEvent::Failed(e))
            | (UnzipStage::Entry, UnzipEvent::Failed(e))
            | (UnzipStage::Perform, UnzipEvent::Failed(e)) => {
                &&& post == Unzipper { stage: UnzipStage::Done, ..self }
                &&& action == UnzipAction::Finish(Err(e))
            },
            _ => post == self && action == UnzipAction::Unexpected,
        }
    }

    /// Begins to unpack a zip file into `dest`, on a system that has Unix permissions or on one that
    /// has not. The work to be done first is to open the archive.
    pub fn new(unix: bool, dest: InstallPath) -> (res: Self)
        ensures
            res.begins_with(unix, dest),
            res.valid(),
    {
        let target: InstallPath = dest.clone();
        Unzipper {
            unix,
            dest,
            stage: UnzipStage::Open,
            entries: 0,
            index: 0,
            target,
            steps: Vec::new(),
            current: 0,
        }
    }

    fn read_entry(&mut self, entries: usize, index: usize) -> (res: UnzipAction)
        requires
            index <= entries,
        ensures
            old(self).goes_on(entries, index as int, *final(self), res),
            final(self).valid(),
    {
        self.entries = entries;
        self.index = index;
        if index < entries {
            self.stage = UnzipStage::Entry;
            UnzipAction::ReadEntry(index)
        } else {
            self.stage = UnzipStage::Done;
            UnzipAction::Finish(Ok(()))
        }
    }

    /// Takes one step: notes what came of the work under way and says what is to be done next.
    pub fn advance(&mut self, event: UnzipEvent) -> (res: UnzipAction)
        requires
            old(self).valid(),
        ensures
            final(self).valid(),
            old(self).step(event, *final(self), res),
    {
        match (self.stage, event) {
            (UnzipStage::Open, UnzipEvent::Opened { entries }) => self.read_entry(entries, 0),
            (UnzipStage::Entry, UnzipEvent::Entry { name, is_dir, has_parent, mode }) => {
                self.target = self.dest.join(name.as_str());
                self.steps = unzip_entry(is_dir, has_parent, self.unix, mode);
                self.current = 0;
                self.stage = UnzipStage::Perform;
                UnzipAction::Perform { step: self.steps[0], target: self.target.clone() }
            },
            (UnzipStage::Perform, UnzipEvent::Done) => {
                let count: usize = self.steps.len();
                if self.current + 1 < count {
                    self.current = self.current + 1;
                    UnzipAction::Perform {
                        step: self.steps[self.current],
                        target: self.target.clone(),
                    }
                } else {
                    self.read_entry(self.entries, self.index + 1)
                }
            },
            (UnzipStage::Open, UnzipEvent::Failed(e))
            | (UnzipStage::Entry, UnzipEvent::Failed(e))
            | (UnzipStage::Perform, UnzipEvent::Failed(e)) => {
                self.stage = UnzipStage::Done;
                UnzipAction::Finish(Err(e))
            },
            _ => UnzipAction::Unexpected,
        }
    }
}

/// A run of the unpacking: what it was at each moment, and of each step the event and the action.
pub struct UnzipRun {
    pub states: Seq<Unzipper>,
    pub events: Seq<UnzipEvent>,
    pub actions: Seq<UnzipAction>,
}

impl UnzipRun {
    /// The number of steps.
    pub open spec fn len(self) -> int {
        self.events.len() as int
    }

    /// Whether step `i` is one that the unpacking takes.
    pub open spec fn takes(self, i: int) -> bool {
        self.states[i].step(self.events[i], self.states[i + 1], self.actions[i])
    }

    /// Whether this is a run from the beginning, with any events.
    pub open spec fn valid(self) -> bool {
        &&& self.states.len() == self.len() + 1
        &&& self.actions.len() == self.len()
        &&& self.states[0].is_begun()
        &&& forall|i: int| 0 <= i < self.len() ==> #[trigger] self.takes(i)
        &&& forall|i: int| 0 <= i <= self.len() ==> (#[trigger] self.states[i]).valid()
    }

    /// The steps that were performed before moment `k`, and where.
    pub open spec fn performed(self, k: int) -> Seq<Placed>
        decreases k,
    {
        if k <= 0 {
            Seq::empty()
        } else {
            let unzipper = self.states[k - 1];
            if unzipper.stage == UnzipStage::Perform && self.events[k - 1] == UnzipEvent::Done {
                self.performed(k - 1).push(
                    (unzipper.steps@[unzipper.current as int], unzipper.target@),
                )
            } else {
                self.performed(k - 1)
            }
        }
    }

    /// The steps that unpack the entries that were read before moment `k`, each of them at the name
    /// of its entry below the directory that the archive is unpacked into.
    pub open spec fn planned(self, k: int) -> Seq<Placed>
        decreases k,
    {
        if k <= 0 {
            Seq::empty()
        } else {
            match (self.states[k - 1].stage, self.events[k - 1]) {
                (UnzipStage::Entry, UnzipEvent::Entry { name, is_dir, has_parent, mode }) => {
                    self.planned(k - 1) + placed(
                        entry_plan(is_dir, has_parent, self.states[0].unix, mode),
                        self.states[0].dest@.push(name@),
                    )
                },
                _ => self.planned(k - 1),
            }
        }
    }

    /// The number of entries that were read before moment `k`.
    pub open spec fn entries_read(self, k: int) -> int
        decreases k,
    {
        if k <= 0 {
            0
        } else {
            self.entries_read(k - 1) + if self.states[k - 1].stage == UnzipStage::Entry
                && self.events[k - 1] is Entry {
                1int
            } else {
                0
            }
        }
    }
}

/// What is still to be performed of what was planned.
proof fn lemma_performed(run: UnzipRun, k: int)
    requires
        run.valid(),
        0 <= k <= run.len(),
    ensures
        run.states[k].dest == run.states[0].dest,
        run.states[k].unix == run.states[0].unix,
        match run.states[k].stage {
            UnzipStage::Open => {
                &&& run.planned(k) == run.performed(k)
                &&& run.entries_read(k) == 0
                &&& run.states[k].index == 0
            },
            UnzipStage::Entry => {
                &&& run.planned(k) == run.performed(k)
                &&& run.entries_read(k) == run.states[k].index
            },
            UnzipStage::Perform => {
                &&& run.planned(k) == run.performed(k) + placed(
                    run.states[k].steps@.skip(run.states[k].current as int),
                    run.states[k].target@,
                )
                &&& run.entries_read(k) == run.states[k].index + 1
            },
            UnzipStage::Done => true,
        },
    decreases k,
{
    if k > 0 {
        lemma_performed(run, k - 1);
        assert(run.takes(k - 1));
        let before = run.states[k - 1];
        let after = run.states[k];
        assert(before.valid() && after.valid());
        if before.stage == UnzipStage::Perform && run.events[k - 1] == UnzipEvent::Done {
            assert(before.steps.len() == before.steps@.len());
            let left = before.steps@.skip(before.current as int);
            assert(left =~= seq![before.steps@[before.current as int]] + before.steps@.skip(
                before.current + 1,
            ));
            assert(run.planned(k) =~= run.performed(k) + placed(
                before.steps@.skip(before.current + 1),
                before.target@,
            ));
            if before.current + 1 >= before.steps@.len() {
                assert(run.planned(k) =~= run.performed(k));
            }
        } else if after.stage == UnzipStage::Perform && before.stage == UnzipStage::Entry {
            assert(after.steps@.skip(0) =~= after.steps@);
        }
    }
}

/// When the unpacking ends with success, every entry of the archive was read, and all the steps
/// that unpack them were performed, in order, each at the name of its entry below the directory
/// that the archive is unpacked into, and nothing else.
pub proof fn law_unzip_is_complete(run: UnzipRun, i: int)
    requires
        run.valid(),
        0 <= i < run.len(),
        run.actions[i] == UnzipAction::Finish(Ok(())),
    ensures
        run.entries_read(i + 1) == run.states[i + 1].entries,
        run.performed(i + 1) == run.planned(i + 1),
{
    lemma_performed(run, i);
    assert(run.takes(i));
    let before = run.states[i];
    if before.stage == UnzipStage::Perform {
        let left = before.steps@.skip(before.current as int);
        assert(before.valid());
        assert(left =~= seq![before.steps@[before.current as int]]);
        assert(run.planned(i + 1) =~= run.performed(i + 1));
    }
}

/// An entry that stands for a directory is created as one. A file is written once, behind the
/// creation of the directory that it lies in, and where permissions are kept and recorded, the last
/// step sets exactly those, whatever they are.
pub proof fn law_entry_steps(is_dir: bool, has_parent: bool, unix: bool, mode: Option<u32>)
    ensures
        is_dir ==> entry_plan(is_dir, has_parent, unix, mode) == seq![EntryStep::CreateDir],
        !is_dir ==> {
            let plan = entry_plan(is_dir, has_parent, unix, mode);
            let file: int = if has_parent {
                1
            } else {
                0
            };
            &&& has_parent ==> plan[0] == EntryStep::CreateParent
            &&& plan[file] == EntryStep::WriteFile
            &&& if unix && mode is Some {
                plan.len() == file + 2 && plan.last() == EntryStep::SetMode(mode.unwrap())
            } else {
                plan.len() == file + 1
            }
        },
{
}

/// The plan only grows during a run.
proof fn lemma_planned_grows(run: UnzipRun, a: int, b: int)
    requires
        0 <= a <= b,
    ensures
        run.planned(a).is_prefix_of(run.planned(b)),
    decreases b - a,
{
    if a < b {
        lemma_planned_grows(run, a, b - 1);
        assert(run.planned(b).take(run.planned(a).len() as int) =~= run.planned(a));
    } else {
        assert(run.planned(a).take(run.planned(a).len() as int) =~= run.planned(a));
    }
}

/// When the unpacking ends with success, each entry was unpacked to its name below the directory
/// that the archive is unpacked into: a directory was created there, or a file was written there,
/// and on Unix it was then given exactly the permissions that are recorded for it.
pub proof fn law_entry_is_unpacked(
    run: UnzipRun,
    j: int,
    name: String,
    is_dir: bool,
    has_parent: bool,
    mode: Option<u32>,
    i: int,
)
    requires
        run.valid(),
        0 <= j < i < run.len(),
        run.states[j].stage == UnzipStage::Entry,
        run.events[j] == (UnzipEvent::Entry { name, is_dir, has_parent, mode }),
        run.actions[i] == UnzipAction::Finish(Ok(())),
    ensures
        ({
            let target = PathView {
                base: run.states[0].dest@.base,
                parts: run.states[0].dest@.parts.push(name@),
            };
            let done = run.performed(i + 1);
            &&& is_dir ==> exists|p: int|
                0 <= p < done.len() && #[trigger] done[p] == (EntryStep::CreateDir, target)
            &&& !is_dir ==> exists|p: int|
                0 <= p < done.len() && #[trigger] done[p] == (EntryStep::WriteFile, target) && (
                has_parent ==> p > 0 && done[p - 1] == (EntryStep::CreateParent, target)) && (
                run.states[0].unix && mode is Some ==> p + 1 < done.len() && done[p + 1] == (
                    EntryStep::SetMode(mode.unwrap()),
                    target,
                ))
        }),
{
    let target = PathView {
        base: run.states[0].dest@.base,
        parts: run.states[0].dest@.parts.push(name@),
    };
    let unix = run.states[0].unix;
    let plan = entry_plan(is_dir, has_parent, unix, mode);
    let start = run.planned(j).len() as int;
    law_unzip_is_complete(run, i);
    law_entry_steps(is_dir, has_parent, unix, mode);
    lemma_planned_grows(run, j + 1, i + 1);
    let done = run.performed(i + 1);
    let part = run.planned(j + 1);
    assert(part == run.planned(j) + placed(plan, target));
    assert forall|q: int| 0 <= q < plan.len() implies #[trigger] done[start + q] == (
        plan[q],
        target,
    ) by {
        assert(part[start + q] == placed(plan, target)[q]);
        assert(done.take(part.len() as int)[start + q] == done[start + q]);
    }
    assert(done.len() >= part.len());
    if is_dir {
        assert(done[start + 0] == (EntryStep::CreateDir, target));
    } else {
        let file: int = if has_parent { 1 } else { 0 };
        assert(done[start + file] == (EntryStep::WriteFile, target));
        if has_parent {
            assert(done[start + 0] == (EntryStep::CreateParent, target));
        }
        if unix && mode is Some {
            assert(done[start + (file + 1)] == (EntryStep::SetMode(mode.unwrap()), target));
        }
    }
}

/// What counts as performed is what was asked for: a step that is done is the one that the last
/// action named, at the path that it named.
pub proof fn law_performed_as_asked(run: UnzipRun, i: int, step: EntryStep, target: InstallPath)
    requires
        run.valid(),
        0 <= i < run.len() - 1,
        run.actions[i] == (UnzipAction::Perform { step, target }),
        run.events[i + 1] == UnzipEvent::Done,
    ensures
        run.performed(i + 2) == run.performed(i + 1).push((step, target@)),
{
    assert(run.takes(i));
    let before = run.states[i];
    let asked = run.states[i + 1];
    assert(before.steps.len() == before.steps@.len());
    assert(asked.stage == UnzipStage::Perform);
    assert(asked.steps@[asked.current as int] == step && asked.target@ == target@);
}

/// The entries are read in order from the first to the last: the one that is asked for is the one
/// behind all those that were read, and at a successful end as many were read as there are.
pub proof fn law_entries_are_read_in_order(run: UnzipRun, entries: usize, i: int)
    requires
        run.valid(),
        0 <= i < run.len(),
        run.events[0] == (UnzipEvent::Opened { entries }),
    ensures
        run.actions[i] matches UnzipAction::ReadEntry(n) ==> n == run.entries_read(i + 1) && n
            < entries,
        run.actions[i] == UnzipAction::Finish(Ok(())) ==> run.entries_read(i + 1) == entries,
{
    assert(run.takes(i));
    lemma_performed(run, i);
    lemma_performed(run, i + 1);
    lemma_entries(run, entries, i + 1);
    assert(run.states[i + 1].valid());
    if run.actions[i] == UnzipAction::Finish(Ok(())) {
        law_unzip_is_complete(run, i);
    }
}

/// The number of entries stays what it was when the archive was opened.
proof fn lemma_entries(run: UnzipRun, entries: usize, k: int)
    requires
        run.valid(),
        0 < k <= run.len(),
        run.events[0] == (UnzipEvent::Opened { entries }),
    ensures
        run.states[k].entries == entries,
        run.states[k].stage != UnzipStage::Open,
    decreases k,
{
    assert(run.takes(k - 1));
    if k > 1 {
        lemma_entries(run, entries, k - 1);
    }
}

/// The unpacking ends with the first thing that fails, and returns that error.
pub proof fn law_unzip_failure_is_returned(run: UnzipRun, i: int, e: Error)
    requires
        run.valid(),
        0 <= i < run.len(),
        i > 0 ==> run.actions[i - 1] is ReadEntry || run.actions[i - 1] is Perform,
        run.events[i] == UnzipEvent::Failed(e),
    ensures
        run.actions[i] == UnzipAction::Finish(Err(e)),
{
    assert(run.takes(i));
    if i > 0 {
        assert(run.takes(i - 1));
    }
}

/// An archive is unpacked into the directory that is named, and permissions are kept where the
/// system has them.
pub proof fn law_unzip_begins(unzipper: Unzipper, unix: bool, dest: InstallPath)
    requires
        unzipper.begins_with(unix, dest),
    ensures
        unzipper.is_begun(),
        unzipper.unix <==> unix,
        unzipper.dest@.base == dest@.base,
        unzipper.dest@.parts == dest@.parts,
{
}

/// The unpacking goes on as long as nothing fails: an archive that was opened is read from its first
/// entry, or is done where it has none, an entry that was read is unpacked, at its name below the
/// directory, and a step that was performed leads to the next step, the next entry or the end.
pub proof fn law_unzip_goes_on(run: UnzipRun, i: int)
    requires
        run.valid(),
        0 <= i < run.len(),
    ensures
        i == 0 ==> (run.events[0] matches UnzipEvent::Opened { entries } ==> if entries > 0 {
            run.actions[0] == UnzipAction::ReadEntry(0)
        } else {
            run.actions[0] matches UnzipAction::Finish(Ok(_))
        }),
        i > 0 && run.actions[i - 1] is ReadEntry ==> (run.events[i] matches UnzipEvent::Entry {
            name,
            is_dir,
            has_parent,
            mode: _,
        } ==> (run.actions[i] matches UnzipAction::Perform { step, target } && target@.base
            == run.states[0].dest@.base && target@.parts == run.states[0].dest@.parts.push(name@)
            && step == (if is_dir {
            EntryStep::CreateDir
        } else if has_parent {
            EntryStep::CreateParent
        } else {
            EntryStep::WriteFile
        }))),
        i > 0 && run.actions[i - 1] is Perform && run.events[i] == UnzipEvent::Done
            ==> run.actions[i] is Perform || run.actions[i] is ReadEntry || (
        run.actions[i] matches UnzipAction::Finish(Ok(_))),
{
    assert(run.takes(i));
    lemma_performed(run, i);
    if i > 0 {
        assert(run.takes(i - 1));
    }
    if let UnzipEvent::Entry { name, is_dir, has_parent, mode } = run.events[i] {
        law_entry_steps(is_dir, has_parent, run.states[i].unix, mode);
    }
}

/// An event that answers no work that was asked for changes nothing.
pub proof fn law_unzip_hears_answers_only(run: UnzipRun, i: int)
    requires
        run.valid(),
        0 <= i < run.len(),
    ensures
        run.actions[i] is Unexpected ==> run.states[i + 1] == run.states[i],
        i == 0 && !(run.events[0] is Opened) && !(run.events[0] is Failed) ==> run.actions[0]
            is Unexpected,
        i > 0 && run.actions[i - 1] is ReadEntry && !(run.events[i] is Entry) && !(run.events[i]
            is Failed) ==> run.actions[i] is Unexpected,
        i > 0 && run.actions[i - 1] is Perform && !(run.events[i] is Done) && !(run.events[i]
            is Failed) ==> run.actions[i] is Unexpected,
        i > 0 && run.actions[i - 1] is Finish ==> run.actions[i] is Unexpected,
{
    assert(run.takes(i));
    if i > 0 {
        assert(run.takes(i - 1));
    }
}

} // verus!
