//! The extension's state: the cached executable path and the run in flight.
use vstd::prelude::*;
use vstd::string::StringExecFns;
use crate::platform::{
    Architecture, LS_EXECUTABLE_NAME, LS_REPO, archive_format, archive_format_spec, asset_name,
    asset_name_spec, binary_path, binary_path_spec, is_supported, version_dir, version_dir_spec,
};
use crate::provision::{
    Action, Event, Phase, ProvisionError, Status, EXTRACT_ROOT, answers, find_asset,
    has_asset_named, is_first_named, stale_entries, stale_spec,
};

verus! {

/// Key under which the editor keeps the language server's settings.
pub const LSP_SETTINGS_KEY: &'static str = "ltex";

/// How the host starts the language server.
#[derive(Debug)]
pub struct LaunchCommand {
    pub command: String,
    pub args: Vec<String>,
    pub env: Vec<(String, String)>,
}

/// The command that runs the executable at `path`, with no arguments and no
/// added environment.
pub fn launch_command(path: String) -> (r: LaunchCommand)
    ensures
        r.command == path,
        r.args@.len() == 0,
        r.env@.len() == 0,
{
    LaunchCommand { command: path, args: Vec::new(), env: Vec::new() }
}

/// The language server provider. Its cache is written once, by the first
/// install that succeeds, and then served for the life of the value.
pub struct LTeXPlusExtension {
    pub executable_cache: Option<String>,
    pub phase: Phase,
}

impl LTeXPlusExtension {
    /// A run waiting on a release was started for a supported architecture.
    pub open spec fn wf(&self) -> bool {
        self.phase matches Phase::Fetching { arch, .. } ==> is_supported(arch)
    }

    /// An extension with nothing cached and no run in flight.
    pub fn new() -> (r: Self)
        ensures
            r.executable_cache is None,
            r.phase is Idle,
            r.wf(),
    {
        LTeXPlusExtension { executable_cache: None, phase: Phase::Idle }
    }

    /// Whether no run is in flight, so that [`Self::start`] may be called.
    pub fn is_idle(&self) -> (r: bool)
        ensures
            r == (self.phase is Idle),
    {
        match self.phase {
            Phase::Idle => true,
            _ => false,
        }
    }

    /// Whether `e` answers the action that the run in flight waits on, so
    /// that [`Self::step`] may be called with it.
    pub fn accepts(&self, e: &Event) -> (r: bool)
        ensures
            r == answers(self.phase, *e),
    {
        match (&self.phase, e) {
            (Phase::LookingUp, Event::PathLookup { .. }) => true,
            (Phase::ReportingCheck, Event::Done) => true,
            (Phase::QueryingPlatform, Event::Platform { .. }) => true,
            (Phase::Fetching { .. }, Event::LatestRelease { .. }) => true,
            (Phase::Checking { .. }, Event::Exists { .. }) => true,
            (Phase::ReportingDownload { .. }, Event::Done) => true,
            (Phase::Downloading { .. }, Event::Downloaded { .. }) => true,
            (Phase::MarkingExecutable { .. }, Event::MadeExecutable { .. }) => true,
            (Phase::Undoing { .. }, Event::Done) => true,
            (Phase::Listing { .. }, Event::Entries { .. }) => true,
            (Phase::Removing { .. }, Event::Done) => true,
            _ => false,
        }
    }

    /// Begins a run that resolves the executable: first by the search path.
    pub fn start(&mut self) -> (r: Action)
        requires
            old(self).phase is Idle,
        ensures
            final(self).wf(),
            final(self).phase is LookingUp,
            final(self).executable_cache == old(self).executable_cache,
            r matches Action::FindOnPath { name } && name@ == LS_EXECUTABLE_NAME@,
    {
        self.phase = Phase::LookingUp;
        Action::FindOnPath { name: String::from_str(LS_EXECUTABLE_NAME) }
    }

    /// Takes in what came of the last action and returns the next one.
    ///
    /// A run resolves the executable by the search path first, then by the
    /// cache, and only then installs: it reports that it checks for updates,
    /// identifies the platform (32-bit x86 ends the run before any fetch),
    /// fetches the latest release, picks the asset for the platform, and
    /// downloads and unpacks it unless the executable is there already. A
    /// failed download or chmod removes the version directory before the
    /// error is returned. Every entry of the working directory but the
    /// version directory is then removed, and the path is cached.
    pub fn step(&mut self, e: Event) -> (r: Action)
        requires
            old(self).wf(),
            answers(old(self).phase, e),
        ensures
            final(self).wf(),
            !(old(self).phase is Removing) ==> final(self).executable_cache
                == old(self).executable_cache,
            // resolution: search path, then cache, then install
            e matches Event::PathLookup { found: Some(p) } ==> r == (Action::Finish {
                result: Ok(p),
            }) && final(self).phase is Idle,
            e matches Event::PathLookup { found: None } ==> ((old(self).executable_cache matches Some(
                c,
            ) ==> r == (Action::Finish { result: Ok(c) }) && final(self).phase is Idle)),
            e matches Event::PathLookup { found: None } ==> (old(self).executable_cache is None
                ==> r == (Action::ReportStatus { status: Status::CheckingForUpdate })
                && final(self).phase is ReportingCheck),
            old(self).phase is ReportingCheck ==> r is QueryPlatform && final(self).phase is QueryingPlatform,
            // the platform is known before anything is fetched
            e matches Event::Platform { os, arch } ==> ((if is_supported(arch) {
                &&& r matches Action::FetchLatestRelease { repo } && repo@ == LS_REPO@
                &&& final(self).phase == (Phase::Fetching { os, arch })
            } else {
                &&& r == (Action::Finish { result: Err(ProvisionError::UnsupportedArchitecture) })
                &&& final(self).phase is Idle
            })),
            r is FetchLatestRelease ==> (e matches Event::Platform { arch, .. } && is_supported(arch)),
            e matches Event::LatestRelease { release: Err(m) } ==> r == (Action::Finish {
                result: Err(ProvisionError::ReleaseFetch(m)),
            }) && final(self).phase is Idle,
            e matches Event::LatestRelease { release: Ok(rel) } ==> (old(self).phase matches Phase::Fetching {
                os,
                arch,
            } && (if has_asset_named(rel.assets@, asset_name_spec(rel.version@, os, arch)) {
                &&& r matches Action::CheckExists { path } && path@ == binary_path_spec(
                    rel.version@,
                    os,
                )
                &&& final(self).phase matches Phase::Checking { dir, binary, url, format }
                &&& dir@ == version_dir_spec(rel.version@)
                &&& binary@ == binary_path_spec(rel.version@, os)
                &&& format == archive_format_spec(os)
                &&& forall|i: int|
                    is_first_named(rel.assets@, asset_name_spec(rel.version@, os, arch), i)
                        ==> url == rel.assets@[i].download_url
            } else {
                &&& r matches Action::Finish { result: Err(ProvisionError::AssetNotFound(n)) }
                &&& n@ == asset_name_spec(rel.version@, os, arch)
                &&& final(self).phase is Idle
            })),
            // an executable already in place is not downloaded again
            e matches Event::Exists { exists } ==> (old(self).phase matches Phase::Checking {
                dir,
                binary,
                url,
                format,
            } && (if exists {
                r is ListEntries && final(self).phase == (Phase::Listing { dir, binary })
            } else {
                &&& r == (Action::ReportStatus { status: Status::Downloading })
                &&& final(self).phase == (Phase::ReportingDownload { dir, binary, url, format })
            })),
            old(self).phase matches Phase::ReportingDownload { dir, binary, url, format } ==> ((r matches Action::Download {
                url: u,
                destination: d,
                format: f,
            } && u == url && d@ == EXTRACT_ROOT@ && f == format && final(self).phase == (
            Phase::Downloading { dir, binary }))),
            r is Download ==> old(self).phase is ReportingDownload,
            // a failed download or chmod leaves no version directory behind
            e matches Event::Downloaded { result: Err(m) } ==> (old(self).phase matches Phase::Downloading {
                dir,
                ..
            } && r == (Action::RemoveDir { path: dir }) && final(self).phase == (Phase::Undoing {
                error: ProvisionError::Download(m),
            })),
            e matches Event::Downloaded { result: Ok(_) } ==> (old(self).phase matches Phase::Downloading {
                dir,
                binary,
            } && r == (Action::MakeExecutable { path: binary }) && final(self).phase == (
            Phase::MarkingExecutable { dir, binary })),
            e matches Event::MadeExecutable { result: Err(m) } ==> (old(self).phase matches Phase::MarkingExecutable { dir, .. } && r == (Action::RemoveDir {
                path: dir,
            }) && final(self).phase == (Phase::Undoing { error: ProvisionError::Permission(m) })),
            e matches Event::MadeExecutable { result: Ok(_) } ==> (old(self).phase matches Phase::MarkingExecutable { dir, binary } && r is ListEntries && final(self).phase == (Phase::Listing { dir, binary })),
            old(self).phase matches Phase::Undoing { error } ==> r == (Action::Finish {
                result: Err(error),
            }) && final(self).phase is Idle,
            // everything but the version directory goes
            e matches Event::Entries { names } ==> (old(self).phase matches Phase::Listing {
                dir,
                binary,
            } && (r matches Action::RemoveEntries { names: stale } && stale@ == stale_spec(
                names@,
                dir@,
            )) && final(self).phase == (Phase::Removing { binary })),
            old(self).phase matches Phase::Removing { binary } ==> r == (Action::Finish {
                result: Ok(binary),
            }) && final(self).executable_cache == Some(binary) && final(self).phase is Idle,
    {
        let mut phase = Phase::Idle;
        std::mem::swap(&mut self.phase, &mut phase);
        match (phase, e) {
            (Phase::LookingUp, Event::PathLookup { found }) => match found {
                Some(p) => Action::Finish { result: Ok(p) },
                None => match &self.executable_cache {
                    Some(c) => Action::Finish { result: Ok(c.clone()) },
                    None => {
                        self.phase = Phase::ReportingCheck;
                        Action::ReportStatus { status: Status::CheckingForUpdate }
                    },
                },
            },
            (Phase::ReportingCheck, Event::Done) => {
                self.phase = Phase::QueryingPlatform;
                Action::QueryPlatform
            },
            (Phase::QueryingPlatform, Event::Platform { os, arch }) => match arch {
                Architecture::X86 => Action::Finish {
                    result: Err(ProvisionError::UnsupportedArchitecture),
                },
                _ => {
                    self.phase = Phase::Fetching { os, arch };
                    Action::FetchLatestRelease { repo: String::from_str(LS_REPO) }
                },
            },
            (Phase::Fetching { os, arch }, Event::LatestRelease { release }) => match release {
                Err(m) => Action::Finish { result: Err(ProvisionError::ReleaseFetch(m)) },
                Ok(rel) => match asset_name(rel.version.as_str(), os, arch) {
                    None => Action::Finish { result: Err(ProvisionError::UnsupportedArchitecture) },
                    Some(name) => match find_asset(&rel.assets, &name) {
                        None => Action::Finish { result: Err(ProvisionError::AssetNotFound(name)) },
                        Some(i) => {
                            let binary = binary_path(rel.version.as_str(), os);
                            let path = binary.clone();
                            self.phase = Phase::Checking {
                                dir: version_dir(rel.version.as_str()),
                                binary,
                                url: rel.assets[i].download_url.clone(),
                                format: archive_format(os),
                            };
                            Action::CheckExists { path }
                        },
                    },
                },
            },
            (Phase::Checking { dir, binary, url, format }, Event::Exists { exists }) => {
                if exists {
                    self.phase = Phase::Listing { dir, binary };
                    Action::ListEntries
                } else {
                    self.phase = Phase::ReportingDownload { dir, binary, url, format };
                    Action::ReportStatus { status: Status::Downloading }
                }
            },
            (Phase::ReportingDownload { dir, binary, url, format }, Event::Done) => {
                self.phase = Phase::Downloading { dir, binary };
                Action::Download { url, destination: String::from_str(EXTRACT_ROOT), format }
            },
            (Phase::Downloading { dir, binary }, Event::Downloaded { result }) => match result {
                Err(m) => {
                    self.phase = Phase::Undoing { error: ProvisionError::Download(m) };
                    Action::RemoveDir { path: dir }
                },
                Ok(_) => {
                    let path = binary.clone();
                    self.phase = Phase::MarkingExecutable { dir, binary };
                    Action::MakeExecutable { path }
                },
            },
            (Phase::MarkingExecutable { dir, binary }, Event::MadeExecutable { result }) => {
                match result {
                    Err(m) => {
                        self.phase = Phase::Undoing { error: ProvisionError::Permission(m) };
                        Action::RemoveDir { path: dir }
                    },
                    Ok(_) => {
                        self.phase = Phase::Listing { dir, binary };
                        Action::ListEntries
                    },
                }
            },
            (Phase::Undoing { error }, Event::Done) => Action::Finish { result: Err(error) },
            (Phase::Listing { dir, binary }, Event::Entries { names }) => {
                let stale = stale_entries(&names, &dir);
                self.phase = Phase::Removing { binary };
                Action::RemoveEntries { names: stale }
            },
            (Phase::Removing { binary }, Event::Done) => {
                self.executable_cache = Some(binary.clone());
                Action::Finish { result: Ok(binary) }
            },
            (_, _) => {
                proof {
                    assert(false);
                }
                Action::ListEntries
            },
        }
    }
}

} // verus!
