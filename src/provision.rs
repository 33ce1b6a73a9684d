//! The provisioner: a state machine that finds, installs and caches the
//! language server executable.
//!
//! The host drives it. [`LTeXPlusExtension::start`] returns the first
//! [`Action`]; the host performs each action and hands what came of it back
//! to [`LTeXPlusExtension::step`] as an [`Event`], until an
//! [`Action::Finish`] carries the path of the executable or the error.
use vstd::prelude::*;
use vstd::string::StringExecFns;
use crate::platform::{ArchiveFormat, Architecture, Os};

verus! {

/// Where archives are unpacked: the working directory. Each release archive
/// holds the version directory at its top level.
pub const EXTRACT_ROOT: &'static str = "";

/// Installation status shown to the user.
#[derive(Clone, Copy, Debug, PartialEq, Eq, Structural)]
pub enum Status {
    CheckingForUpdate,
    Downloading,
}

/// A file attached to a release.
#[derive(Debug)]
pub struct Asset {
    pub name: String,
    pub download_url: String,
}

/// The latest release of the language server.
#[derive(Debug)]
pub struct Release {
    pub version: String,
    pub assets: Vec<Asset>,
}

/// Why no executable could be provided.
#[derive(Debug)]
pub enum ProvisionError {
    /// The host is a 32-bit x86 machine, for which no release exists.
    UnsupportedArchitecture,
    /// The latest release could not be fetched; the host's message.
    ReleaseFetch(String),
    /// The release holds no asset of this name.
    AssetNotFound(String),
    /// Downloading or unpacking failed; the host's message.
    Download(String),
    /// The executable could not be made executable; the host's message.
    Permission(String),
}

/// A step for the host to take.
#[derive(Debug)]
pub enum Action {
    /// Look the executable up on the search path; answer `PathLookup`.
    FindOnPath { name: String },
    /// Show the status; answer `Done`.
    ReportStatus { status: Status },
    /// Identify the platform; answer `Platform`.
    QueryPlatform,
    /// Fetch the latest release with assets that is no pre-release; answer `LatestRelease`.
    FetchLatestRelease { repo: String },
    /// Tell whether the path exists; answer `Exists`.
    CheckExists { path: String },
    /// Download the archive and unpack it into `destination`; answer `Downloaded`.
    Download { url: String, destination: String, format: ArchiveFormat },
    /// Mark the file executable; answer `MadeExecutable`.
    MakeExecutable { path: String },
    /// Remove the directory and all it holds, ignoring failure; answer `Done`.
    RemoveDir { path: String },
    /// List the names of the working directory's entries; answer `Entries`.
    ListEntries,
    /// Remove each of these entries, ignoring failures; answer `Done`.
    RemoveEntries { names: Vec<String> },
    /// The run is over.
    Finish { result: Result<String, ProvisionError> },
}

/// What came of an action.
#[derive(Debug)]
pub enum Event {
    PathLookup { found: Option<String> },
    Done,
    Platform { os: Os, arch: Architecture },
    LatestRelease { release: Result<Release, String> },
    Exists { exists: bool },
    Downloaded { result: Result<(), String> },
    MadeExecutable { result: Result<(), String> },
    Entries { names: Vec<String> },
}

/// Where a run stands, with what it still needs.
#[derive(Debug)]
pub enum Phase {
    Idle,
    LookingUp,
    ReportingCheck,
    QueryingPlatform,
    Fetching { os: Os, arch: Architecture },
    Checking { dir: String, binary: String, url: String, format: ArchiveFormat },
    ReportingDownload { dir: String, binary: String, url: String, format: ArchiveFormat },
    Downloading { dir: String, binary: String },
    MarkingExecutable { dir: String, binary: String },
    Undoing { error: ProvisionError },
    Listing { dir: String, binary: String },
    Removing { binary: String },
}

/// Whether `e` answers the action that a run in `phase` is waiting on.
pub open spec fn answers(phase: Phase, e: Event) -> bool {
    match phase {
        Phase::Idle => false,
        Phase::LookingUp => e is PathLookup,
        Phase::ReportingCheck => e is Done,
        Phase::QueryingPlatform => e is Platform,
        Phase::Fetching { .. } => e is LatestRelease,
        Phase::Checking { .. } => e is Exists,
        Phase::ReportingDownload { .. } => e is Done,
        Phase::Downloading { .. } => e is Downloaded,
        Phase::MarkingExecutable { .. } => e is MadeExecutable,
        Phase::Undoing { .. } => e is Done,
        Phase::Listing { .. } => e is Entries,
        Phase::Removing { .. } => e is Done,
    }
}

/// An entry other than `keep`.
pub open spec fn is_stale(keep: Seq<char>) -> spec_fn(String) -> bool {
    |n: String| n@ != keep
}

/// The entries to remove so that only `keep` is left.
pub open spec fn stale_spec(names: Seq<String>, keep: Seq<char>) -> Seq<String> {
    names.filter(is_stale(keep))
}

/// Position of the first asset named `name`, if any.
pub open spec fn is_first_named(assets: Seq<Asset>, name: Seq<char>, i: int) -> bool {
    &&& 0 <= i < assets.len()
    &&& assets[i].name@ == name
    &&& forall|j: int| 0 <= j < i ==> assets[j].name@ != name
}

pub open spec fn has_asset_named(assets: Seq<Asset>, name: Seq<char>) -> bool {
    exists|i: int| 0 <= i < assets.len() && assets[i].name@ == name
}

/// The first asset of `assets` named `name`.
pub fn find_asset(assets: &Vec<Asset>, name: &String) -> (r: Option<usize>)
    ensures
        r is None <==> !has_asset_named(assets@, name@),
        r matches Some(i) ==> is_first_named(assets@, name@, i as int),
{
    let mut i: usize = 0;
    while i < assets.len()
        invariant
            0 <= i <= assets.len(),
            forall|j: int| 0 <= j < i ==> assets@[j].name@ != name@,
        decreases assets.len() - i,
    {
        if assets[i].name == *name {
            return Some(i);
        }
        i = i + 1;
    }
    None
}

/// The entries of `names` other than `keep`, in order.
pub fn stale_entries(names: &Vec<String>, keep: &String) -> (r: Vec<String>)
    ensures
        r@ == stale_spec(names@, keep@),
{
    let mut r: Vec<String> = Vec::new();
    let mut i: usize = 0;
    while i < names.len()
        invariant
            0 <= i <= names.len(),
            r@ == stale_spec(names@.subrange(0, i as int), keep@),
        decreases names.len() - i,
    {
        let ghost prefix = names@.subrange(0, i as int);
        assert(names@.subrange(0, i + 1).drop_last() == prefix);
        proof {
            reveal(Seq::filter);
        }
        if !(names[i] == *keep) {
            r.push(names[i].clone());
        }
        i = i + 1;
    }
    assert(names@.subrange(0, names.len() as int) == names@);
    r
}

pub open spec fn message_spec(e: ProvisionError) -> Seq<char> {
    match e {
        ProvisionError::UnsupportedArchitecture => "x86 is not supported by this extension."@,
        ProvisionError::ReleaseFetch(m) => "Failed to fetch latest release: "@ + m@,
        ProvisionError::AssetNotFound(n) => "Failed to find asset with name "@ + n@,
        ProvisionError::Download(m) => "Failed to download LTeX+ Language Server: "@ + m@,
        ProvisionError::Permission(m) => "Failed to make binary executable: "@ + m@,
    }
}

impl ProvisionError {
    /// The error as shown to the user: the stage that failed, then the detail.
    pub fn message(&self) -> (r: String)
        ensures
            r@ == message_spec(*self),
    {
        match self {
            ProvisionError::UnsupportedArchitecture => String::from_str(
                "x86 is not supported by this extension.",
            ),
            ProvisionError::ReleaseFetch(m) => String::from_str(
                "Failed to fetch latest release: ",
            ).concat(m.as_str()),
            ProvisionError::AssetNotFound(n) => String::from_str(
                "Failed to find asset with name ",
            ).concat(n.as_str()),
            ProvisionError::Download(m) => String::from_str(
                "Failed to download LTeX+ Language Server: ",
            ).concat(m.as_str()),
            ProvisionError::Permission(m) => String::from_str(
                "Failed to make binary executable: ",
            ).concat(m.as_str()),
        }
    }
}

} // verus!
