//! Build modes, the ordered list of build stages, and the options of a run.

use vstd::prelude::*;
use vstd::string::*;

verus! {

/// How the precombines are generated and the archive is compressed.
#[derive(Debug, Copy, Clone, PartialEq, Eq, Structural)]
pub enum BuildMode {
    Clean,
    Filtered,
    Xbox,
}

impl BuildMode {
    /// The mode's name as it is written on a command line.
    pub open spec fn name_text(self) -> Seq<char> {
        match self {
            BuildMode::Clean => "clean"@,
            BuildMode::Filtered => "filtered"@,
            BuildMode::Xbox => "xbox"@,
        }
    }

    /// The mode's name as it is written on a command line.
    pub fn name(&self) -> (r: &'static str)
        ensures
            r@ == self.name_text(),
    {
        match self {
            BuildMode::Clean => "clean",
            BuildMode::Filtered => "filtered",
            BuildMode::Xbox => "xbox",
        }
    }
}

/// The stages of a build, in the order in which they run.
#[derive(Debug, Copy, Clone, PartialEq, Eq, PartialOrd, Ord, Structural)]
pub enum BuildStage {
    VerifyEnvironment,
    GeneratePrecombines,
    MergePrecombines,
    ArchivePrecombines,
    CompressPsg,
    BuildCdx,
    GeneratePrevis,
    MergePrevis,
    ArchiveVis,
}

/// The stage with number `n`.
pub open spec fn stage_numbered(n: int) -> Option<BuildStage> {
    if n == 0 {
        Some(BuildStage::VerifyEnvironment)
    } else if n == 1 {
        Some(BuildStage::GeneratePrecombines)
    } else if n == 2 {
        Some(BuildStage::MergePrecombines)
    } else if n == 3 {
        Some(BuildStage::ArchivePrecombines)
    } else if n == 4 {
        Some(BuildStage::CompressPsg)
    } else if n == 5 {
        Some(BuildStage::BuildCdx)
    } else if n == 6 {
        Some(BuildStage::GeneratePrevis)
    } else if n == 7 {
        Some(BuildStage::MergePrevis)
    } else if n == 8 {
        Some(BuildStage::ArchiveVis)
    } else {
        None
    }
}

/// The menu of stages from which a run can be resumed in a clean build.
pub open spec fn clean_menu() -> Seq<char> {
    "[1] Generate Precombines Via CK\n"@ + "[2] Merge PrecombineObjects.esp Via FO4Edit\n"@
        + "[3] Create BA2 Archive from Precombines\n"@ + "[4] Compress PSG Via CK\n"@
        + "[5] Build CDX Via CK\n"@ + "[6] Generate Previs Via CK\n"@
        + "[7] Merge Previs.esp Via FO4Edit\n"@ + "[8] Add vis files to BA2 Archive\n"@
}

/// The menu of stages from which a run can be resumed in a build that is not
/// clean.
pub open spec fn short_menu() -> Seq<char> {
    "[1] Generate Precombines Via CK\n"@ + "[2] Merge PrecombineObjects.esp Via FO4Edit\n"@
        + "[3] Create BA2 Archive from Precombines\n"@ + "[6] Generate Previs Via CK\n"@
        + "[7] Merge Previs.esp Via FO4Edit\n"@ + "[8] Add vis files to BA2 Archive\n"@
}

/// The menu of stages from which a build of the given mode can be resumed.
pub open spec fn stage_menu(mode: BuildMode) -> Seq<char> {
    if mode == BuildMode::Clean {
        clean_menu()
    } else {
        short_menu()
    }
}

impl BuildStage {
    /// The stage's place in the pipeline, from 0.
    pub open spec fn ordinal(self) -> int {
        match self {
            BuildStage::VerifyEnvironment => 0,
            BuildStage::GeneratePrecombines => 1,
            BuildStage::MergePrecombines => 2,
            BuildStage::ArchivePrecombines => 3,
            BuildStage::CompressPsg => 4,
            BuildStage::BuildCdx => 5,
            BuildStage::GeneratePrevis => 6,
            BuildStage::MergePrevis => 7,
            BuildStage::ArchiveVis => 8,
        }
    }

    /// Whether the stage is part of clean builds only.
    pub open spec fn clean_only(self) -> bool {
        self == BuildStage::CompressPsg || self == BuildStage::BuildCdx
    }

    /// Whether the stage runs in a build of the given mode.
    pub open spec fn in_scope(self, mode: BuildMode) -> bool {
        mode == BuildMode::Clean || !self.clean_only()
    }

    pub open spec fn description_text(self) -> Seq<char> {
        match self {
            BuildStage::VerifyEnvironment => "Verify Environment"@,
            BuildStage::GeneratePrecombines => "Generate Precombines"@,
            BuildStage::MergePrecombines => "Merge Precombines"@,
            BuildStage::ArchivePrecombines => "Archive Precombines"@,
            BuildStage::CompressPsg => "Compress PSG"@,
            BuildStage::BuildCdx => "Build CDX"@,
            BuildStage::GeneratePrevis => "Generate Previs"@,
            BuildStage::MergePrevis => "Merge Previs"@,
            BuildStage::ArchiveVis => "Archive Vis"@,
        }
    }

    /// The stage that comes next in the pipeline, whatever the mode.
    pub open spec fn successor(self) -> Option<BuildStage> {
        stage_numbered(self.ordinal() + 1)
    }

    /// The first stage that runs in a build of the given mode that starts
    /// from this stage: the stage itself if it is in scope and does work,
    /// else the first one after it that is. The verification of the
    /// environment is done before every run and is no work of a stage.
    pub open spec fn first_from(self, mode: BuildMode) -> BuildStage
        decreases 8 - self.ordinal(),
    {
        if self != BuildStage::VerifyEnvironment && self.in_scope(mode) {
            self
        } else {
            match self.successor() {
                Some(next) => next.first_from(mode),
                None => self,
            }
        }
    }

    /// The stage that runs after this one in a build of the given mode; none
    /// after the last.
    pub open spec fn following(self, mode: BuildMode) -> Option<BuildStage> {
        match self.successor() {
            Some(next) => Some(next.first_from(mode)),
            None => None,
        }
    }

    /// Whether this stage runs in a build of the given mode that starts from
    /// `start`: it does work, it is in scope, and it is not before `start`.
    pub open spec fn runs(self, start: BuildStage, mode: BuildMode) -> bool {
        self != BuildStage::VerifyEnvironment && self.in_scope(mode) && start.ordinal()
            <= self.ordinal()
    }

    /// The stages that run in a build of the given mode that starts from this
    /// stage, in the order in which they run.
    pub open spec fn schedule(self, mode: BuildMode) -> Seq<BuildStage> {
        lineup(9, self, mode)
    }

    /// The stage that comes next in the pipeline, whatever the mode.
    pub fn next(&self) -> (r: Option<BuildStage>)
        ensures
            r == self.successor(),
    {
        match self {
            Self::VerifyEnvironment => Some(Self::GeneratePrecombines),
            Self::GeneratePrecombines => Some(Self::MergePrecombines),
            Self::MergePrecombines => Some(Self::ArchivePrecombines),
            Self::ArchivePrecombines => Some(Self::CompressPsg),
            Self::CompressPsg => Some(Self::BuildCdx),
            Self::BuildCdx => Some(Self::GeneratePrevis),
            Self::GeneratePrevis => Some(Self::MergePrevis),
            Self::MergePrevis => Some(Self::ArchiveVis),
            Self::ArchiveVis => None,
        }
    }

    /// The first stage that runs in a build of the given mode that starts
    /// from this stage.
    pub fn first_to_run(&self, mode: BuildMode) -> (r: BuildStage)
        ensures
            r == self.first_from(mode),
    {
        reveal_with_fuel(BuildStage::first_from, 4);
        match self {
            Self::VerifyEnvironment => Self::GeneratePrecombines,
            Self::CompressPsg => {
                if mode == BuildMode::Clean {
                    Self::CompressPsg
                } else {
                    Self::GeneratePrevis
                }
            },
            Self::BuildCdx => {
                if mode == BuildMode::Clean {
                    Self::BuildCdx
                } else {
                    Self::GeneratePrevis
                }
            },
            _ => *self,
        }
    }

    /// The stage that runs after this one in a build of the given mode; none
    /// after the last.
    pub fn next_to_run(&self, mode: BuildMode) -> (r: Option<BuildStage>)
        ensures
            r == self.following(mode),
    {
        match self.next() {
            Some(next) => Some(next.first_to_run(mode)),
            None => None,
        }
    }

    /// The stage with the given number; none for a number outside 0 to 8.
    pub fn from_i32(value: i32) -> (r: Option<Self>)
        ensures
            r == stage_numbered(value as int),
            r is Some <==> 0 <= value <= 8,
            r is Some ==> r->0.ordinal() == value,
    {
        match value {
            0 => Some(Self::VerifyEnvironment),
            1 => Some(Self::GeneratePrecombines),
            2 => Some(Self::MergePrecombines),
            3 => Some(Self::ArchivePrecombines),
            4 => Some(Self::CompressPsg),
            5 => Some(Self::BuildCdx),
            6 => Some(Self::GeneratePrevis),
            7 => Some(Self::MergePrevis),
            8 => Some(Self::ArchiveVis),
            _ => None,
        }
    }

    /// The stage's number, from 0 to 8.
    pub fn number(&self) -> (r: i32)
        ensures
            r == self.ordinal(),
            stage_numbered(r as int) == Some(*self),
    {
        match self {
            Self::VerifyEnvironment => 0,
            Self::GeneratePrecombines => 1,
            Self::MergePrecombines => 2,
            Self::ArchivePrecombines => 3,
            Self::CompressPsg => 4,
            Self::BuildCdx => 5,
            Self::GeneratePrevis => 6,
            Self::MergePrevis => 7,
            Self::ArchiveVis => 8,
        }
    }

    /// Whether the stage is part of clean builds only.
    pub fn is_clean_only(&self) -> (r: bool)
        ensures
            r == self.clean_only(),
    {
        match self {
            Self::CompressPsg => true,
            Self::BuildCdx => true,
            _ => false,
        }
    }

    /// The numbered list of stages from which a build of the given mode can
    /// be resumed, one per line.
    pub fn display_stages(build_mode: &BuildMode) -> (r: String)
        ensures
            r@ == stage_menu(*build_mode),
    {
        let mut result = String::new();
        result.append("[1] Generate Precombines Via CK\n");
        result.append("[2] Merge PrecombineObjects.esp Via FO4Edit\n");
        result.append("[3] Create BA2 Archive from Precombines\n");
        if *build_mode == BuildMode::Clean {
            result.append("[4] Compress PSG Via CK\n");
            result.append("[5] Build CDX Via CK\n");
        }
        result.append("[6] Generate Previs Via CK\n");
        result.append("[7] Merge Previs.esp Via FO4Edit\n");
        result.append("[8] Add vis files to BA2 Archive\n");
        assert(result@ =~= stage_menu(*build_mode));
        result
    }

    /// A short name for the stage.
    pub fn description(&self) -> (r: &'static str)
        ensures
            r@ == self.description_text(),
    {
        match self {
            Self::VerifyEnvironment => "Verify Environment",
            Self::GeneratePrecombines => "Generate Precombines",
            Self::MergePrecombines => "Merge Precombines",
            Self::ArchivePrecombines => "Archive Precombines",
            Self::CompressPsg => "Compress PSG",
            Self::BuildCdx => "Build CDX",
            Self::GeneratePrevis => "Generate Previs",
            Self::MergePrevis => "Merge Previs",
            Self::ArchiveVis => "Archive Vis",
        }
    }
}

/// The options of a run.
#[derive(Debug, Clone)]
pub struct Args {
    /// Build mode.
    pub mode: BuildMode,
    /// The plugin to generate previsbines for.
    pub plugin: Option<String>,
    /// Path to the editor executable.
    pub fo4edit_path: Option<String>,
    /// Path to the game's installation directory.
    pub fallout4_path: Option<String>,
    /// Number of the stage to start from.
    pub start_stage: Option<i32>,
    /// Ask the operator nothing.
    pub no_prompt: bool,
    /// Keep the intermediate files after the run.
    pub keep_files: bool,
    /// Pack with BSArch instead of Archive2.
    pub use_bsarch: bool,
    /// Path to BSArch.
    pub bsarch_path: Option<String>,
}

/// The stages with a number below `k` that run in a build of the given mode
/// that starts from `start`, in the order of the pipeline.
pub open spec fn lineup(k: int, start: BuildStage, mode: BuildMode) -> Seq<BuildStage>
    decreases k,
{
    if k <= 0 {
        Seq::empty()
    } else {
        match stage_numbered(k - 1) {
            Some(stage) => if stage.runs(start, mode) {
                lineup(k - 1, start, mode).push(stage)
            } else {
                lineup(k - 1, start, mode)
            },
            None => lineup(k - 1, start, mode),
        }
    }
}

/// The first stage that runs is in scope, is no earlier than the stage from
/// which the build starts, and no stage in scope that does work lies between
/// the two: no stage is passed over.
pub proof fn lemma_first_from(start: BuildStage, mode: BuildMode)
    ensures
        start.first_from(mode).runs(start, mode),
        forall|stage: BuildStage|
            stage.runs(start, mode) ==> start.first_from(mode).ordinal() <= stage.ordinal(),
{
    reveal_with_fuel(BuildStage::first_from, 4);
}

/// The stage that follows is the next one that runs: it runs, it comes later
/// in the pipeline, and no stage that runs lies between the two. After the
/// last stage none follows.
pub proof fn lemma_following(stage: BuildStage, start: BuildStage, mode: BuildMode)
    requires
        stage.runs(start, mode),
    ensures
        stage.following(mode) is None <==> stage == BuildStage::ArchiveVis,
        stage.following(mode) matches Some(next) ==> next.runs(start, mode) && stage.ordinal()
            < next.ordinal() && forall|other: BuildStage|
            other.runs(start, mode) && stage.ordinal() < other.ordinal() ==> next.ordinal()
                <= other.ordinal(),
{
    reveal_with_fuel(BuildStage::first_from, 4);
}

/// What the line-up up to `k` holds: the stages below `k` that run, each
/// once, in ascending order.
pub proof fn lemma_lineup(k: int, start: BuildStage, mode: BuildMode)
    requires
        0 <= k <= 9,
    ensures
        forall|stage: BuildStage|
            #[trigger] lineup(k, start, mode).contains(stage) <==> (stage.runs(start, mode)
                && stage.ordinal() < k),
        forall|i: int, j: int|
            #![trigger lineup(k, start, mode)[i], lineup(k, start, mode)[j]]
            0 <= i < j < lineup(k, start, mode).len() ==> lineup(k, start, mode)[i].ordinal()
                < lineup(k, start, mode)[j].ordinal(),
    decreases k,
{
    let now = lineup(k, start, mode);
    if k > 0 {
        lemma_lineup(k - 1, start, mode);
        let earlier = lineup(k - 1, start, mode);
        let here = stage_numbered(k - 1)->0;
        assert(stage_numbered(k - 1) is Some);
        assert(here.ordinal() == k - 1);
        let pushed = here.runs(start, mode);
        assert(now == if pushed {
            earlier.push(here)
        } else {
            earlier
        });
        assert forall|stage: BuildStage| #[trigger]
            now.contains(stage) <==> (stage.runs(start, mode) && stage.ordinal() < k) by {
            if stage.ordinal() == k - 1 {
                lemma_same_ordinal(stage, here);
            }
            if now.contains(stage) {
                let at = choose|at: int| 0 <= at < now.len() && now[at] == stage;
                if at < earlier.len() {
                    assert(earlier[at] == stage);
                    assert(earlier.contains(stage));
                } else {
                    assert(pushed && stage == here);
                }
            }
            if stage.runs(start, mode) && stage.ordinal() < k {
                if stage.ordinal() < k - 1 {
                    assert(earlier.contains(stage));
                    let at = choose|at: int| 0 <= at < earlier.len() && earlier[at] == stage;
                    assert(now[at] == stage);
                } else {
                    assert(pushed);
                    assert(now[earlier.len() as int] == stage);
                }
            }
        }
        assert forall|i: int, j: int| 0 <= i < j < now.len() implies (#[trigger] now[i]).ordinal()
            < (#[trigger] now[j]).ordinal() by {
            assert(now[i] == earlier[i]);
            assert(earlier.contains(earlier[i]));
            assert(earlier[i].ordinal() < k - 1);
            if j < earlier.len() {
                assert(now[j] == earlier[j]);
            } else {
                assert(now[j] == here);
            }
        }
    } else {
        assert(now.len() == 0);
    }
}

/// The stages of a run are those in scope from the start stage on, in
/// ascending order, none left out: a stage is in the schedule exactly if it
/// does work, is in scope and is not before the start stage, and a stage
/// that stands earlier in the schedule comes earlier in the pipeline.
pub proof fn lemma_schedule(start: BuildStage, mode: BuildMode)
    ensures
        forall|stage: BuildStage|
            #[trigger] start.schedule(mode).contains(stage) <==> stage.runs(start, mode),
        forall|i: int, j: int|
            #![trigger start.schedule(mode)[i], start.schedule(mode)[j]]
            0 <= i < j < start.schedule(mode).len() ==> start.schedule(mode)[i].ordinal()
                < start.schedule(mode)[j].ordinal(),
{
    lemma_lineup(9, start, mode);
}

/// The line-up of a run from the beginning is its part below the stage
/// `from`, followed by the line-up of a run that starts from `from`.
pub proof fn lemma_lineup_splits(k: int, from: BuildStage, mode: BuildMode)
    requires
        0 <= k <= 9,
    ensures
        lineup(k, BuildStage::VerifyEnvironment, mode) == lineup(
            if k < from.ordinal() {
                k
            } else {
                from.ordinal()
            },
            BuildStage::VerifyEnvironment,
            mode,
        ) + lineup(k, from, mode),
    decreases k,
{
    let whole = lineup(k, BuildStage::VerifyEnvironment, mode);
    let resumed = lineup(k, from, mode);
    if k > 0 {
        lemma_lineup_splits(k - 1, from, mode);
        let here = stage_numbered(k - 1)->0;
        assert(here.ordinal() == k - 1);
        if k <= from.ordinal() {
            assert(resumed == lineup(k - 1, from, mode));
            lemma_lineup(k - 1, from, mode);
            assert(lineup(k - 1, from, mode).len() == 0) by {
                if lineup(k - 1, from, mode).len() > 0 {
                    assert(lineup(k - 1, from, mode).contains(lineup(k - 1, from, mode)[0]));
                }
            }
            assert(whole =~= whole + resumed);
        } else {
            let head = lineup(from.ordinal(), BuildStage::VerifyEnvironment, mode);
            assert(here.runs(BuildStage::VerifyEnvironment, mode) <==> here.runs(from, mode));
            if here.runs(from, mode) {
                assert(whole =~= head + resumed);
            }
        }
    } else {
        assert(whole =~= whole + resumed);
    }
}

/// A run that is resumed from a stage does from there on what a run from the
/// beginning does: the schedule from the beginning is its stages before the
/// resumed one, followed by the schedule of the resumed run.
pub proof fn lemma_resume_is_suffix(from: BuildStage, mode: BuildMode)
    ensures
        BuildStage::VerifyEnvironment.schedule(mode) == lineup(
            from.ordinal(),
            BuildStage::VerifyEnvironment,
            mode,
        ) + from.schedule(mode),
{
    lemma_lineup_splits(9, from, mode);
}

/// The machine's way through the stages is the schedule: a run starts with the
/// schedule's first stage, and the stage that follows a stage of the
/// schedule is the next one in it.
pub proof fn lemma_schedule_is_walked(start: BuildStage, mode: BuildMode, i: int)
    requires
        0 <= i < start.schedule(mode).len(),
    ensures
        start.schedule(mode)[0] == start.first_from(mode),
        i + 1 < start.schedule(mode).len() ==> start.schedule(mode)[i].following(mode) == Some(
            start.schedule(mode)[i + 1],
        ),
        i + 1 == start.schedule(mode).len() ==> start.schedule(mode)[i].following(mode) is None,
{
    let all = start.schedule(mode);
    lemma_schedule(start, mode);
    lemma_first_from(start, mode);
    let first = start.first_from(mode);
    assert(all.contains(all[0]));
    assert(all.contains(first));
    let at = choose|at: int| 0 <= at < all.len() && all[at] == first;
    if at > 0 {
        assert(all[0].ordinal() < all[at].ordinal());
        assert(all[0].runs(start, mode));
        assert(first.ordinal() <= all[0].ordinal());
    }
    assert(at == 0);
    let stage = all[i];
    assert(all.contains(stage));
    lemma_following(stage, start, mode);
    if i + 1 < all.len() {
        let after = all[i + 1];
        assert(all.contains(after));
        assert(stage.ordinal() < after.ordinal());
        let next = stage.following(mode)->0;
        assert(all.contains(next));
        assert(next.runs(start, mode));
        assert(after.runs(start, mode));
        assert(next.ordinal() <= after.ordinal());
        let k = choose|k: int| 0 <= k < all.len() && all[k] == next;
        if k < i {
            assert(all[k].ordinal() < all[i].ordinal());
        } else if k == i {
            assert(false);
        } else if k > i + 1 {
            assert(all[i + 1].ordinal() < all[k].ordinal());
        }
        assert(k == i + 1);
    } else {
        if stage != BuildStage::ArchiveVis {
            assert(BuildStage::ArchiveVis.runs(start, mode));
            assert(all.contains(BuildStage::ArchiveVis));
            let k = choose|k: int| 0 <= k < all.len() && all[k] == BuildStage::ArchiveVis;
            if k < i {
                assert(all[k].ordinal() < all[i].ordinal());
            }
        }
    }
}

/// Two stages with the same number are the same stage.
pub proof fn lemma_same_ordinal(a: BuildStage, b: BuildStage)
    requires
        a.ordinal() == b.ordinal(),
    ensures
        a == b,
{
}

} // verus!
