//! The archivers: their command lines, the course of packing, extracting and
//! adding to the plugin's archive, and what these steps do to the archive.
//!
//! Archive2 cannot add to an archive. To add a folder, the archive is
//! extracted and removed, and a new one is packed from what was in it and
//! the folder.

use crate::error::Failure;
use crate::names::PackJob;
use crate::facts::DataFacts;
use crate::protocol::{exit_status, Artifact, Folder, PackSet, Request, Response};
use crate::stage::BuildMode;
use vstd::prelude::*;
use vstd::string::*;

verus! {

/// The qualifiers that Archive2 gets in a build of the given mode.
pub open spec fn qualifiers_text(mode: BuildMode) -> Seq<char> {
    match mode {
        BuildMode::Xbox => "-compression=XBox"@,
        _ => ""@,
    }
}

/// The archive format that BSArch gets in a build of the given mode.
pub open spec fn format_text(mode: BuildMode) -> Seq<char> {
    match mode {
        BuildMode::Xbox => "Xbox"@,
        _ => "General"@,
    }
}

/// The folders of `set` as the archivers take them: separated by a comma.
pub open spec fn folders_text(set: PackSet) -> Seq<char> {
    if set.precombined && set.vis {
        "meshes\\precombined,vis"@
    } else if set.precombined {
        "meshes\\precombined"@
    } else if set.vis {
        "vis"@
    } else {
        ""@
    }
}

/// The qualifiers that Archive2 gets in a build of the given mode: the
/// compression for the Xbox in that mode, none otherwise.
pub fn get_archive_qualifiers(build_mode: &BuildMode) -> (r: &'static str)
    ensures
        r@ == qualifiers_text(*build_mode),
{
    match build_mode {
        BuildMode::Xbox => "-compression=XBox",
        _ => "",
    }
}

/// The archive format that BSArch gets in a build of the given mode.
pub fn bsarch_format(build_mode: &BuildMode) -> (r: &'static str)
    ensures
        r@ == format_text(*build_mode),
{
    match build_mode {
        BuildMode::Xbox => "Xbox",
        _ => "General",
    }
}

/// The folders of `set` as the archivers take them.
pub fn folder_list(set: PackSet) -> (r: &'static str)
    ensures
        r@ == folders_text(set),
{
    if set.precombined && set.vis {
        "meshes\\precombined,vis"
    } else if set.precombined {
        "meshes\\precombined"
    } else if set.vis {
        "vis"
    } else {
        ""
    }
}

/// The arguments with which Archive2 packs the folders of `set` into the
/// archive named `archive`. It runs in the data directory.
pub fn archive2_arguments(set: PackSet, archive: &str, build_mode: &BuildMode) -> (r: Vec<String>)
    ensures
        r.deep_view() == seq![
            folders_text(set),
            "-c="@ + archive@,
            qualifiers_text(*build_mode),
            "-f=General"@,
            "-q"@,
        ],
{
    let mut out: Vec<String> = Vec::new();
    out.push(String::from_str(folder_list(set)));
    let mut create = String::from_str("-c=");
    create.append(archive);
    out.push(create);
    out.push(String::from_str(get_archive_qualifiers(build_mode)));
    out.push(String::from_str("-f=General"));
    out.push(String::from_str("-q"));
    assert(out.deep_view() =~= seq![
        folders_text(set),
        "-c="@ + archive@,
        qualifiers_text(*build_mode),
        "-f=General"@,
        "-q"@,
    ]);
    out
}

/// The arguments with which Archive2 extracts the archive named `archive`
/// into the directory it runs in, the data directory.
pub fn extraction_arguments(archive: &str) -> (r: Vec<String>)
    ensures
        r.deep_view() == seq![archive@, "-e=."@, "-q"@],
{
    let mut out: Vec<String> = Vec::new();
    out.push(String::from_str(archive));
    out.push(String::from_str("-e=."));
    out.push(String::from_str("-q"));
    assert(out.deep_view() =~= seq![archive@, "-e=."@, "-q"@]);
    out
}

/// The arguments with which BSArch packs the folders of `set` from the data
/// directory at `data_path` into the archive at `archive_path`.
pub fn bsarch_arguments(set: PackSet, data_path: &str, archive_path: &str, build_mode: &BuildMode)
    -> (r: Vec<String>)
    ensures
        r.deep_view() == seq![
            "pack"@,
            data_path@,
            archive_path@,
            format_text(*build_mode),
            "--include"@,
            folders_text(set),
        ],
{
    let mut out: Vec<String> = Vec::new();
    out.push(String::from_str("pack"));
    out.push(String::from_str(data_path));
    out.push(String::from_str(archive_path));
    out.push(String::from_str(bsarch_format(build_mode)));
    out.push(String::from_str("--include"));
    out.push(String::from_str(folder_list(set)));
    assert(out.deep_view() =~= seq![
        "pack"@,
        data_path@,
        archive_path@,
        format_text(*build_mode),
        "--include"@,
        folders_text(set),
    ]);
    out
}

/// The set that holds `folder` alone.
pub open spec fn only(folder: Folder) -> PackSet {
    PackSet { precombined: folder == Folder::Precombined, vis: folder == Folder::Vis }
}

/// The set that holds `folder` and the precombined meshes.
pub open spec fn with_precombined(folder: Folder) -> PackSet {
    PackSet { precombined: true, vis: folder == Folder::Vis }
}

/// Seconds left to the file system after an archive has been extracted.
pub const SETTLE_SECONDS: u64 = 5;

/// Where the packing of an archive stands.
#[derive(Debug, Copy, Clone, PartialEq, Eq, Structural)]
pub enum PackPhase {
    /// Archive2 is packing.
    Packing,
    /// The data directory is being looked at for the archive.
    Confirming,
}

/// What the packing of an archive does next.
#[derive(Debug, Copy, Clone, PartialEq, Eq, Structural)]
pub enum PackFlow {
    /// It goes on in the given phase.
    Next(PackPhase),
    /// It has ended, with the given failure or well.
    Done(Option<Failure>),
}

/// The request that the packing of `set` makes on entering `phase`.
pub open spec fn pack_request(set: PackSet, phase: PackPhase) -> Request {
    match phase {
        PackPhase::Packing => Request::Pack(set),
        PackPhase::Confirming => Request::SurveyData,
    }
}

/// What the packing of an archive does after `response` has come in, in
/// `phase`: it fails where Archive2 cannot be started or reports failure, and
/// where Archive2 reports success and the archive is not there.
pub open spec fn pack_next(phase: PackPhase, response: Response) -> PackFlow {
    match phase {
        PackPhase::Packing => match response {
            Response::Exited { success, .. } => if success {
                PackFlow::Next(PackPhase::Confirming)
            } else {
                PackFlow::Done(Some(Failure::Archive2Failed))
            },
            Response::Failed(_) => PackFlow::Done(Some(Failure::Archive2Launch)),
            _ => PackFlow::Done(Some(Failure::OutOfTurn)),
        },
        PackPhase::Confirming => match response {
            Response::Data(facts) => if facts.archive_exists {
                PackFlow::Done(None)
            } else {
                PackFlow::Done(Some(Failure::ArchiveNotCreated))
            },
            _ => PackFlow::Done(Some(Failure::OutOfTurn)),
        },
    }
}

/// Takes the packing of an archive with Archive2 a step further.
pub fn run_archive(phase: PackPhase, response: &Response) -> (r: PackFlow)
    ensures
        r == pack_next(phase, *response),
{
    match phase {
        PackPhase::Packing => match response {
            Response::Exited { success, .. } => {
                if *success {
                    PackFlow::Next(PackPhase::Confirming)
                } else {
                    PackFlow::Done(Some(Failure::Archive2Failed))
                }
            },
            Response::Failed(_) => PackFlow::Done(Some(Failure::Archive2Launch)),
            _ => PackFlow::Done(Some(Failure::OutOfTurn)),
        },
        PackPhase::Confirming => match response {
            Response::Data(facts) => {
                if facts.archive_exists {
                    PackFlow::Done(None)
                } else {
                    PackFlow::Done(Some(Failure::ArchiveNotCreated))
                }
            },
            _ => PackFlow::Done(Some(Failure::OutOfTurn)),
        },
    }
}

/// Where the extraction of the archive stands.
#[derive(Debug, Copy, Clone, PartialEq, Eq, Structural)]
pub enum ExtractPhase {
    /// The data directory is being looked at for the archive.
    Looking,
    /// Archive2 is extracting.
    Extracting,
}

/// What the extraction of the archive does next.
#[derive(Debug, Copy, Clone, PartialEq, Eq, Structural)]
pub enum ExtractFlow {
    /// It goes on in the given phase.
    Next(ExtractPhase),
    /// It has ended, with the given failure or well.
    Done(Option<Failure>),
}

/// The request that the extraction makes on entering `phase`.
pub open spec fn extract_request(phase: ExtractPhase) -> Request {
    match phase {
        ExtractPhase::Looking => Request::SurveyData,
        ExtractPhase::Extracting => Request::Extract,
    }
}

/// What the extraction of the archive does after `response` has come in, in
/// `phase`: it fails where there is no archive, and where Archive2 cannot be
/// started or reports failure.
pub open spec fn extract_next(phase: ExtractPhase, response: Response) -> ExtractFlow {
    match phase {
        ExtractPhase::Looking => match response {
            Response::Data(facts) => if facts.archive_exists {
                ExtractFlow::Next(ExtractPhase::Extracting)
            } else {
                ExtractFlow::Done(Some(Failure::ArchiveAbsent))
            },
            _ => ExtractFlow::Done(Some(Failure::OutOfTurn)),
        },
        ExtractPhase::Extracting => match response {
            Response::Exited { success, .. } => if success {
                ExtractFlow::Done(None)
            } else {
                ExtractFlow::Done(Some(Failure::ExtractionFailed))
            },
            Response::Failed(_) => ExtractFlow::Done(Some(Failure::ExtractionLaunch)),
            _ => ExtractFlow::Done(Some(Failure::OutOfTurn)),
        },
    }
}

/// Takes the extraction of the archive with Archive2 a step further.
pub fn extract_archive(phase: ExtractPhase, response: &Response) -> (r: ExtractFlow)
    ensures
        r == extract_next(phase, *response),
{
    match phase {
        ExtractPhase::Looking => match response {
            Response::Data(facts) => {
                if facts.archive_exists {
                    ExtractFlow::Next(ExtractPhase::Extracting)
                } else {
                    ExtractFlow::Done(Some(Failure::ArchiveAbsent))
                }
            },
            _ => ExtractFlow::Done(Some(Failure::OutOfTurn)),
        },
        ExtractPhase::Extracting => match response {
            Response::Exited { success, .. } => {
                if *success {
                    ExtractFlow::Done(None)
                } else {
                    ExtractFlow::Done(Some(Failure::ExtractionFailed))
                }
            },
            Response::Failed(_) => ExtractFlow::Done(Some(Failure::ExtractionLaunch)),
            _ => ExtractFlow::Done(Some(Failure::OutOfTurn)),
        },
    }
}

/// How a run of BSArch for `job` went, given the response to it.
pub open spec fn bsarch_verdict(job: PackJob, response: Response) -> Option<Failure> {
    match response {
        Response::Exited { success, code, .. } => if success {
            None
        } else {
            Some(Failure::BsArchFailed(job, exit_status(code)))
        },
        Response::Failed(_) => Some(Failure::BsArchLaunch(job)),
        _ => Some(Failure::OutOfTurn),
    }
}

/// Judges a run of BSArch for `job` by the response to it: it failed where
/// BSArch could not be started or did not report success.
pub fn run_bsarch(job: PackJob, response: &Response) -> (r: Option<Failure>)
    ensures
        r == bsarch_verdict(job, *response),
{
    match response {
        Response::Exited { success, code, .. } => {
            if *success {
                None
            } else {
                let status: i32 = match code {
                    Some(c) => *c,
                    None => -1,
                };
                Some(Failure::BsArchFailed(job, status))
            }
        },
        Response::Failed(_) => Some(Failure::BsArchLaunch(job)),
        _ => Some(Failure::OutOfTurn),
    }
}

/// Where the adding of a folder to the archive stands.
#[derive(Debug, Copy, Clone, PartialEq, Eq, Structural)]
pub enum AddPhase {
    /// The data directory is being looked at for an archive.
    Looking,
    /// Archive2 is extracting the archive.
    Extracting,
    /// The file system is left to settle.
    Settling,
    /// The extracted archive is being removed.
    Removing,
    /// The data directory is being looked at for extracted precombined
    /// meshes.
    Surveying,
    /// The new archive is being packed, in the given phase. The flag says
    /// whether the archive was extracted before.
    Packing(PackSet, PackPhase, bool),
    /// The extracted precombined meshes are being removed.
    Clearing,
}

/// What the adding of a folder to the archive does next.
#[derive(Debug, Copy, Clone, PartialEq, Eq, Structural)]
pub enum AddFlow {
    /// It goes on in the given phase.
    Next(AddPhase),
    /// It has ended, with the given failure or well.
    Done(Option<Failure>),
}

/// The phase in which the adding begins.
pub open spec fn add_first() -> AddPhase {
    AddPhase::Looking
}

/// The request that the adding makes on entering `phase`.
pub open spec fn add_request(phase: AddPhase) -> Request {
    match phase {
        AddPhase::Looking => Request::SurveyData,
        AddPhase::Extracting => extract_request(ExtractPhase::Extracting),
        AddPhase::Settling => Request::Pause(SETTLE_SECONDS),
        AddPhase::Removing => Request::Remove(Artifact::Archive),
        AddPhase::Surveying => Request::SurveyData,
        AddPhase::Packing(set, phase, _) => pack_request(set, phase),
        AddPhase::Clearing => Request::RemoveTree(Artifact::PrecombinedDir),
    }
}

/// What the adding of `folder` to the archive does after `response` has come
/// in, in `phase`.
///
/// Where there is no archive yet, the folder is packed and nothing else is
/// done. Where there is one, it is extracted and removed; then the folder is
/// packed, together with the precombined meshes if the extraction left any,
/// and such meshes are removed once they are packed.
pub open spec fn add_next(folder: Folder, phase: AddPhase, response: Response) -> AddFlow {
    match phase {
        AddPhase::Looking => match response {
            Response::Data(facts) => if facts.archive_exists {
                AddFlow::Next(AddPhase::Extracting)
            } else {
                AddFlow::Next(AddPhase::Packing(only(folder), PackPhase::Packing, false))
            },
            _ => AddFlow::Done(Some(Failure::OutOfTurn)),
        },
        AddPhase::Extracting => match extract_next(ExtractPhase::Extracting, response) {
            ExtractFlow::Done(None) => AddFlow::Next(AddPhase::Settling),
            ExtractFlow::Done(Some(failure)) => AddFlow::Done(Some(failure)),
            ExtractFlow::Next(_) => AddFlow::Done(Some(Failure::OutOfTurn)),
        },
        AddPhase::Settling => AddFlow::Next(AddPhase::Removing),
        AddPhase::Removing => match response {
            Response::Done => AddFlow::Next(AddPhase::Surveying),
            Response::Failed(_) => AddFlow::Done(Some(Failure::RemoveArchive)),
            _ => AddFlow::Done(Some(Failure::OutOfTurn)),
        },
        AddPhase::Surveying => match response {
            Response::Data(facts) => if facts.precombined_present() {
                AddFlow::Next(AddPhase::Packing(with_precombined(folder), PackPhase::Packing, true))
            } else {
                AddFlow::Next(AddPhase::Packing(only(folder), PackPhase::Packing, true))
            },
            _ => AddFlow::Done(Some(Failure::OutOfTurn)),
        },
        AddPhase::Packing(set, phase, extracted) => match pack_next(phase, response) {
            PackFlow::Next(next) => AddFlow::Next(AddPhase::Packing(set, next, extracted)),
            PackFlow::Done(Some(failure)) => AddFlow::Done(Some(failure)),
            PackFlow::Done(None) => if extracted && set.precombined {
                AddFlow::Next(AddPhase::Clearing)
            } else {
                AddFlow::Done(None)
            },
        },
        AddPhase::Clearing => match response {
            Response::Done => AddFlow::Done(None),
            Response::Failed(_) => AddFlow::Done(Some(Failure::RemovePrecombined)),
            _ => AddFlow::Done(Some(Failure::OutOfTurn)),
        },
    }
}

/// The request that the adding makes on entering `phase`.
pub fn archive_request(phase: AddPhase) -> (r: Request)
    ensures
        r == add_request(phase),
{
    match phase {
        AddPhase::Looking => Request::SurveyData,
        AddPhase::Extracting => Request::Extract,
        AddPhase::Settling => Request::Pause(SETTLE_SECONDS),
        AddPhase::Removing => Request::Remove(Artifact::Archive),
        AddPhase::Surveying => Request::SurveyData,
        AddPhase::Packing(set, phase, _) => match phase {
            PackPhase::Packing => Request::Pack(set),
            PackPhase::Confirming => Request::SurveyData,
        },
        AddPhase::Clearing => Request::RemoveTree(Artifact::PrecombinedDir),
    }
}

/// Takes the adding of `folder` to the plugin's archive a step further: given
/// the phase it is in and the response to that phase's request, says in which
/// phase it goes on or how it has ended.
pub fn add_to_archive(folder: Folder, phase: AddPhase, response: &Response) -> (r: AddFlow)
    ensures
        r == add_next(folder, phase, *response),
{
    let vis = match folder {
        Folder::Vis => true,
        Folder::Precombined => false,
    };
    match phase {
        AddPhase::Looking => match response {
            Response::Data(facts) => {
                if facts.archive_exists {
                    AddFlow::Next(AddPhase::Extracting)
                } else {
                    AddFlow::Next(
                        AddPhase::Packing(
                            PackSet { precombined: !vis, vis },
                            PackPhase::Packing,
                            false,
                        ),
                    )
                }
            },
            _ => AddFlow::Done(Some(Failure::OutOfTurn)),
        },
        AddPhase::Extracting => match extract_archive(ExtractPhase::Extracting, response) {
            ExtractFlow::Done(None) => AddFlow::Next(AddPhase::Settling),
            ExtractFlow::Done(Some(failure)) => AddFlow::Done(Some(failure)),
            ExtractFlow::Next(_) => AddFlow::Done(Some(Failure::OutOfTurn)),
        },
        AddPhase::Settling => AddFlow::Next(AddPhase::Removing),
        AddPhase::Removing => match response {
            Response::Done => AddFlow::Next(AddPhase::Surveying),
            Response::Failed(_) => AddFlow::Done(Some(Failure::RemoveArchive)),
            _ => AddFlow::Done(Some(Failure::OutOfTurn)),
        },
        AddPhase::Surveying => match response {
            Response::Data(facts) => {
                if facts.has_precombined() {
                    AddFlow::Next(
                        AddPhase::Packing(
                            PackSet { precombined: true, vis },
                            PackPhase::Packing,
                            true,
                        ),
                    )
                } else {
                    AddFlow::Next(
                        AddPhase::Packing(
                            PackSet { precombined: !vis, vis },
                            PackPhase::Packing,
                            true,
                        ),
                    )
                }
            },
            _ => AddFlow::Done(Some(Failure::OutOfTurn)),
        },
        AddPhase::Packing(set, phase, extracted) => match run_archive(phase, response) {
            PackFlow::Next(next) => AddFlow::Next(AddPhase::Packing(set, next, extracted)),
            PackFlow::Done(Some(failure)) => AddFlow::Done(Some(failure)),
            PackFlow::Done(None) => {
                if extracted && set.precombined {
                    AddFlow::Next(AddPhase::Clearing)
                } else {
                    AddFlow::Done(None)
                }
            },
        },
        AddPhase::Clearing => match response {
            Response::Done => AddFlow::Done(None),
            Response::Failed(_) => AddFlow::Done(Some(Failure::RemovePrecombined)),
            _ => AddFlow::Done(Some(Failure::OutOfTurn)),
        },
    }
}

/// The flow of an adding that stands for `flow` of the packing of `set`
/// without an extraction before it.
pub open spec fn as_adding(set: PackSet, flow: PackFlow) -> AddFlow {
    match flow {
        PackFlow::Next(next) => AddFlow::Next(AddPhase::Packing(set, next, false)),
        PackFlow::Done(end) => AddFlow::Done(end),
    }
}

/// Adding a folder where there is no archive yet is packing that folder and
/// nothing else: the adding goes straight to the packing of the folder alone,
/// and from there on it makes the requests of a packing and ends as the
/// packing ends.
pub proof fn lemma_add_without_archive_is_pack(
    folder: Folder,
    facts: DataFacts,
    phase: PackPhase,
    response: Response,
)
    requires
        !facts.archive_exists,
    ensures
        add_next(folder, AddPhase::Looking, Response::Data(facts)) == AddFlow::Next(
            AddPhase::Packing(only(folder), PackPhase::Packing, false),
        ),
        add_request(AddPhase::Packing(only(folder), phase, false)) == pack_request(
            only(folder),
            phase,
        ),
        add_next(folder, AddPhase::Packing(only(folder), phase, false), response) == as_adding(
            only(folder),
            pack_next(phase, response),
        ),
{
}

/// What the archive holds, if there is one, and which folders hold files on
/// disk. This is the picture of the data directory in which the steps of the
/// archivers are understood.
pub struct Shelf {
    pub archive: Option<Set<Folder>>,
    pub disk: Set<Folder>,
}

/// The folders of `set`.
pub open spec fn members(set: PackSet) -> Set<Folder> {
    Set::new(
        |folder: Folder|
            (folder == Folder::Precombined && set.precombined) || (folder == Folder::Vis
                && set.vis),
    )
}

/// What carrying out `request` makes of `shelf`: packing leaves an archive
/// of those of the chosen folders that are on disk; extracting puts on disk
/// what the archive holds; removing takes away the archive or a folder.
pub open spec fn carried_out(shelf: Shelf, request: Request) -> Shelf {
    match request {
        Request::Pack(set) => Shelf {
            archive: Some(members(set).intersect(shelf.disk)),
            disk: shelf.disk,
        },
        Request::Extract => Shelf {
            archive: shelf.archive,
            disk: match shelf.archive {
                Some(held) => shelf.disk.union(held),
                None => shelf.disk,
            },
        },
        Request::Remove(Artifact::Archive) => Shelf { archive: None, disk: shelf.disk },
        Request::RemoveTree(Artifact::PrecombinedDir) => Shelf {
            archive: shelf.archive,
            disk: shelf.disk.remove(Folder::Precombined),
        },
        Request::RemoveTree(Artifact::VisDir) => Shelf {
            archive: shelf.archive,
            disk: shelf.disk.remove(Folder::Vis),
        },
        _ => shelf,
    }
}

/// `response` is what the carrying out of `request` gives where it goes well
/// and leaves `shelf`.
pub open spec fn answers(shelf: Shelf, request: Request, response: Response) -> bool {
    match request {
        Request::SurveyData => response matches Response::Data(facts) && (facts.archive_exists
            <==> shelf.archive is Some) && (facts.precombined_present() <==> shelf.disk.contains(
            Folder::Precombined,
        )) && (facts.visibility_present() <==> shelf.disk.contains(Folder::Vis)),
        Request::Pack(_) | Request::Extract => response matches Response::Exited { success, .. }
            && success,
        _ => response is Done,
    }
}

/// How the adding of `folder` ends, and what it makes of `shelf`, when it
/// starts in `phase` and is given `responses` one by one.
pub open spec fn add_run(folder: Folder, phase: AddPhase, shelf: Shelf, responses: Seq<Response>)
    -> (AddFlow, Shelf)
    decreases responses.len(),
{
    if responses.len() == 0 {
        (AddFlow::Next(phase), shelf)
    } else {
        let now = carried_out(shelf, add_request(phase));
        match add_next(folder, phase, responses[0]) {
            AddFlow::Next(next) => add_run(folder, next, now, responses.drop_first()),
            AddFlow::Done(end) => (AddFlow::Done(end), now),
        }
    }
}

/// Each of `responses` is what the carrying out of the request before it
/// gives where it goes well.
pub open spec fn add_faithful(
    folder: Folder,
    phase: AddPhase,
    shelf: Shelf,
    responses: Seq<Response>,
) -> bool
    decreases responses.len(),
{
    responses.len() == 0 || {
        let now = carried_out(shelf, add_request(phase));
        &&& answers(now, add_request(phase), responses[0])
        &&& match add_next(folder, phase, responses[0]) {
            AddFlow::Next(next) => add_faithful(folder, next, now, responses.drop_first()),
            AddFlow::Done(_) => true,
        }
    }
}

/// Adding a folder to an archive of precombined meshes leaves an archive of
/// what was packed before and the folder, and nothing of what was extracted
/// stays on disk.
///
/// This is stated for an archive that holds nothing but precombined meshes,
/// for a folder that is on disk, and for a disk on which no precombined
/// meshes lie that are not in the archive; every step is taken to go well.
pub proof fn lemma_add_keeps_what_was_packed(
    folder: Folder,
    shelf: Shelf,
    held: Set<Folder>,
    responses: Seq<Response>,
)
    requires
        shelf.archive == Some(held),
        forall|f: Folder| held.contains(f) ==> f == Folder::Precombined,
        shelf.disk.contains(folder),
        shelf.disk.contains(Folder::Precombined) ==> held.contains(Folder::Precombined) || folder
            == Folder::Precombined,
        responses.len() >= 8,
        add_faithful(folder, add_first(), shelf, responses),
    ensures
        add_run(folder, add_first(), shelf, responses).0 == AddFlow::Done(None),
        add_run(folder, add_first(), shelf, responses).1.archive == Some(held.insert(folder)),
        forall|f: Folder|
            held.contains(f) ==> !add_run(folder, add_first(), shelf, responses).1.disk.contains(f),
{
    reveal_with_fuel(add_run, 9);
    reveal_with_fuel(add_faithful, 9);
    let extracted = shelf.disk.union(held);
    let meshes = extracted.contains(Folder::Precombined);
    let set = if meshes {
        with_precombined(folder)
    } else {
        only(folder)
    };
    assert(extracted.contains(folder));
    assert(members(set).intersect(extracted) =~= held.insert(folder)) by {
        if meshes {
            assert(held.contains(Folder::Precombined) || folder == Folder::Precombined);
        } else {
            assert(!held.contains(Folder::Precombined));
        }
    }
    let r1 = responses.drop_first();
    let r2 = r1.drop_first();
    let r3 = r2.drop_first();
    let r4 = r3.drop_first();
    let r5 = r4.drop_first();
    let r6 = r5.drop_first();
    let r7 = r6.drop_first();
    assert(add_next(folder, AddPhase::Looking, responses[0]) == AddFlow::Next(
        AddPhase::Extracting,
    ));
    assert(add_next(folder, AddPhase::Extracting, r1[0]) == AddFlow::Next(AddPhase::Settling));
    assert(add_next(folder, AddPhase::Settling, r2[0]) == AddFlow::Next(AddPhase::Removing));
    assert(add_next(folder, AddPhase::Removing, r3[0]) == AddFlow::Next(AddPhase::Surveying));
    let emptied = Shelf { archive: None, disk: extracted };
    let looked = carried_out(shelf, Request::SurveyData);
    let unpacked = carried_out(looked, Request::Extract);
    let settled = carried_out(unpacked, Request::Pause(SETTLE_SECONDS));
    assert(carried_out(settled, Request::Remove(Artifact::Archive)) == emptied);
    assert(add_next(folder, AddPhase::Surveying, r4[0]) == AddFlow::Next(
        AddPhase::Packing(set, PackPhase::Packing, true),
    ));
    assert(add_next(folder, AddPhase::Packing(set, PackPhase::Packing, true), r5[0])
        == AddFlow::Next(AddPhase::Packing(set, PackPhase::Confirming, true)));
}

} // verus!
