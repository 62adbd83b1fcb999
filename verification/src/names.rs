//! The fixed names of the build: the actions of the content tool, the editor
//! scripts, the overlay libraries that are set aside while the content tool
//! runs, and the files that a plugin's base name gives rise to.

use vstd::prelude::*;
use vstd::string::*;

verus! {

/// What the content tool is asked to do.
#[derive(Debug, Copy, Clone, PartialEq, Eq, Structural)]
pub enum CkAction {
    GeneratePrecombined,
    CompressPsg,
    BuildCdx,
    GeneratePrevisData,
}

impl CkAction {
    /// The action's name on the content tool's command line.
    pub open spec fn name_text(self) -> Seq<char> {
        match self {
            CkAction::GeneratePrecombined => "GeneratePrecombined"@,
            CkAction::CompressPsg => "CompressPSG"@,
            CkAction::BuildCdx => "BuildCDX"@,
            CkAction::GeneratePrevisData => "GeneratePreVisData"@,
        }
    }

    /// The action's name on the content tool's command line.
    pub fn name(&self) -> (r: &'static str)
        ensures
            r@ == self.name_text(),
    {
        match self {
            CkAction::GeneratePrecombined => "GeneratePrecombined",
            CkAction::CompressPsg => "CompressPSG",
            CkAction::BuildCdx => "BuildCDX",
            CkAction::GeneratePrevisData => "GeneratePreVisData",
        }
    }
}

/// The editor scripts that merge generated data into the plugin.
#[derive(Debug, Copy, Clone, PartialEq, Eq, Structural)]
pub enum Script {
    MergeCombinedObjects,
    MergePrevis,
}

impl Script {
    /// The script's file name.
    pub open spec fn file_text(self) -> Seq<char> {
        match self {
            Script::MergeCombinedObjects => "Batch_FO4MergeCombinedObjectsAndCheck.pas"@,
            Script::MergePrevis => "Batch_FO4MergePreVisAndAutoUpdateRefr.pas"@,
        }
    }

    /// The file that the script merges into the plugin.
    pub open spec fn source_text(self) -> Seq<char> {
        match self {
            Script::MergeCombinedObjects => "CombinedObjects.esp"@,
            Script::MergePrevis => "Previs.esp"@,
        }
    }

    /// The script's file name.
    pub fn file_name(&self) -> (r: &'static str)
        ensures
            r@ == self.file_text(),
    {
        match self {
            Script::MergeCombinedObjects => "Batch_FO4MergeCombinedObjectsAndCheck.pas",
            Script::MergePrevis => "Batch_FO4MergePreVisAndAutoUpdateRefr.pas",
        }
    }

    /// The file that the script merges into the plugin.
    pub fn source_name(&self) -> (r: &'static str)
        ensures
            r@ == self.source_text(),
    {
        match self {
            Script::MergeCombinedObjects => "CombinedObjects.esp",
            Script::MergePrevis => "Previs.esp",
        }
    }
}

/// Number of overlay libraries that are set aside while the content tool runs.
pub const OVERLAY_COUNT: u8 = 6;

/// Name of the overlay library with the given index; for an index past the
/// list, that of the last one.
pub open spec fn overlay_text(index: int) -> Seq<char> {
    if index == 0 {
        "d3d11.dll"@
    } else if index == 1 {
        "d3d10.dll"@
    } else if index == 2 {
        "d3d9.dll"@
    } else if index == 3 {
        "dxgi.dll"@
    } else if index == 4 {
        "enbimgui.dll"@
    } else {
        "d3dcompiler_46e.dll"@
    }
}

/// Name of the overlay library with the given index; for an index past the
/// list, that of the last one.
pub fn overlay_name(index: u8) -> (r: &'static str)
    ensures
        r@ == overlay_text(index as int),
{
    if index == 0 {
        "d3d11.dll"
    } else if index == 1 {
        "d3d10.dll"
    } else if index == 2 {
        "d3d9.dll"
    } else if index == 3 {
        "dxgi.dll"
    } else if index == 4 {
        "enbimgui.dll"
    } else {
        "d3dcompiler_46e.dll"
    }
}

/// Name under which the overlay library with the given index is set aside.
pub fn disabled_overlay_name(index: u8) -> (r: String)
    ensures
        r@ == overlay_text(index as int) + "-PJMdisabled"@,
{
    let mut out = String::from_str(overlay_name(index));
    out.append("-PJMdisabled");
    out
}

/// Name of the geometry file that a clean precombine build leaves behind.
pub fn geometry_psg_name(base: &str) -> (r: String)
    ensures
        r@ == base@ + " - Geometry.psg"@,
{
    let mut out = String::from_str(base);
    out.append(" - Geometry.psg");
    out
}

/// Name of the compressed geometry file.
pub fn geometry_csg_name(base: &str) -> (r: String)
    ensures
        r@ == base@ + " - Geometry.csg"@,
{
    let mut out = String::from_str(base);
    out.append(" - Geometry.csg");
    out
}

/// Name of the index file.
pub fn cdx_name(base: &str) -> (r: String)
    ensures
        r@ == base@ + ".cdx"@,
{
    let mut out = String::from_str(base);
    out.append(".cdx");
    out
}

/// Name of the run's log file.
pub fn run_log_name(base: &str) -> (r: String)
    ensures
        r@ == base@ + ".log"@,
{
    let mut out = String::from_str(base);
    out.append(".log");
    out
}

/// The file that the content tool must leave behind after `action`.
pub open spec fn output_text(action: CkAction, base: Seq<char>) -> Seq<char> {
    match action {
        CkAction::GeneratePrecombined => "CombinedObjects.esp"@,
        CkAction::CompressPsg => base + " - Geometry.csg"@,
        CkAction::BuildCdx => base + ".cdx"@,
        CkAction::GeneratePrevisData => "Previs.esp"@,
    }
}

/// The file that the content tool must leave behind after `action`.
pub fn output_name(action: CkAction, base: &str) -> (r: String)
    ensures
        r@ == output_text(action, base@),
{
    match action {
        CkAction::GeneratePrecombined => String::from_str("CombinedObjects.esp"),
        CkAction::CompressPsg => geometry_csg_name(base),
        CkAction::BuildCdx => cdx_name(base),
        CkAction::GeneratePrevisData => String::from_str("Previs.esp"),
    }
}

/// What is packed into the archive.
#[derive(Debug, Copy, Clone, PartialEq, Eq, Structural)]
pub enum PackJob {
    Precombines,
    Vis,
}

impl PackJob {
    /// What the job does, in words.
    pub open spec fn description_text(self) -> Seq<char> {
        match self {
            PackJob::Precombines => "archiving precombines"@,
            PackJob::Vis => "archiving vis files"@,
        }
    }

    /// What the job does, in words.
    pub fn description(&self) -> (r: &'static str)
        ensures
            r@ == self.description_text(),
    {
        match self {
            PackJob::Precombines => "archiving precombines",
            PackJob::Vis => "archiving vis files",
        }
    }
}

} // verus!
