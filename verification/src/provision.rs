//! The provisioning procedure as a step-by-step decision machine.
//!
//! The machine owns every decision of the procedure; the caller performs
//! the lookups, network calls and file operations an [`Action`] asks for
//! and reports each outcome back as an [`Event`]. One run is linear:
//! local lookup, release resolution, asset selection, cache check, then —
//! only on a cache miss — download and cleanup of stale versions.

use vstd::prelude::*;

use crate::naming::{
    ArchiveKind, Architecture, Platform, asset_name, cached_binary_path, version_dir_name,
    spec_archive_kind, archive_kind, compute_asset_name, compute_version_dir,
    compute_binary_path,
};
use crate::release::{Release, find_asset, has_matching_asset, is_first_match};

verus! {

/// What a caller asks to be provisioned, and for which machine.
pub struct ToolRequest {
    /// Name of the tool; also the name of its executable.
    pub name: String,
    /// Operating system the binary must run on.
    pub platform: Platform,
    /// Processor architecture the binary must run on.
    pub architecture: Architecture,
}

/// Advisory progress signal for the host UI.
#[derive(Clone, Copy, PartialEq, Eq, Structural, Debug)]
pub enum InstallationStatus {
    /// Nothing is happening.
    Idle,
    /// The latest release is being resolved.
    CheckingForUpdate,
    /// An asset is being downloaded.
    Downloading,
}

/// Why provisioning failed.
pub enum ProvisionError {
    /// The release host was unreachable or offered no qualifying release.
    ReleaseResolution { message: String },
    /// No release asset carries the expected name.
    AssetNotFound { expected: String },
    /// Downloading the asset failed.
    Download { message: String },
    /// Unpacking the downloaded archive failed.
    Extraction { message: String },
}

/// A non-fatal problem met while removing stale version directories.
/// Cleanup is best effort: these are reported, never fatal.
pub enum CleanupWarning {
    /// The working directory could not be listed.
    DirectoryList { message: String },
    /// A directory entry could not be read.
    DirectoryEntry { message: String },
    /// A stale entry could not be removed.
    Removal { name: String },
}

/// How the download-and-unpack action failed.
pub enum FetchFailure {
    /// The download itself failed.
    Download { message: String },
    /// The archive could not be unpacked.
    Extraction { message: String },
}

/// What the machine asks the caller to do next.
pub enum Action {
    /// Look `tool` up on the command search path and report the result
    /// with [`Event::LocalLookup`].
    LookUpLocal { tool: String },
    /// Report `status` to the host, ask the release host for the latest
    /// release of the upstream project — assets required, pre-releases
    /// excluded — and report the result with [`Event::ReleaseResolved`].
    FetchRelease { status: InstallationStatus, require_assets: bool, pre_release: bool },
    /// Check whether a regular file exists at `path` and report with
    /// [`Event::CacheChecked`].
    CheckCachedFile { path: String },
    /// Report `status` to the host, download the archive at `url` into
    /// the directory `destination`, unpack it as `archive`, and report
    /// with [`Event::Downloaded`].
    DownloadAndUnpack {
        status: InstallationStatus,
        url: String,
        destination: String,
        archive: ArchiveKind,
    },
    /// List the working directory, remove every entry not named `keep`
    /// (best effort), and report with [`Event::CleanedUp`].
    RemoveStaleEntries { keep: String },
}

/// What the caller reports back after performing an [`Action`].
#[allow(inconsistent_fields)]
pub enum Event {
    /// Outcome of [`Action::LookUpLocal`]: the path of a local
    /// executable satisfying the tool name, if one exists.
    LocalLookup { path: Option<String> },
    /// Outcome of [`Action::FetchRelease`]: the latest qualifying
    /// release, or the release host's failure message.
    ReleaseResolved { result: Result<Release, String> },
    /// Outcome of [`Action::CheckCachedFile`]: whether a regular file
    /// exists at the checked path.
    CacheChecked { is_file: bool },
    /// Outcome of [`Action::DownloadAndUnpack`].
    Downloaded { result: Result<(), FetchFailure> },
    /// Outcome of [`Action::RemoveStaleEntries`]: the non-fatal problems
    /// met along the way.
    CleanedUp { warnings: Vec<CleanupWarning> },
}

/// Where the machine stands between two actions.
pub enum ProvisionState {
    /// Waiting for the local search-path lookup.
    AwaitingLocalLookup,
    /// Waiting for the latest release of the upstream project.
    AwaitingRelease,
    /// A release and its asset are resolved; waiting to hear whether the
    /// cached binary for that version is already on disk.
    AwaitingCacheCheck {
        download_url: String,
        version_dir: String,
        binary_path: String,
        archive: ArchiveKind,
    },
    /// Waiting for the asset download to finish.
    AwaitingDownload { version_dir: String, binary_path: String },
    /// Waiting for stale version directories to be removed.
    AwaitingCleanup { binary_path: String },
    /// Provisioning succeeded: the executable is at `binary_path`.
    Done { binary_path: String, warnings: Vec<CleanupWarning> },
    /// Provisioning failed.
    Failed { error: ProvisionError },
}

/// True when `event` is the outcome the machine awaits in `state`.
pub open spec fn accepts(state: ProvisionState, event: Event) -> bool {
    match state {
        ProvisionState::AwaitingLocalLookup => event is LocalLookup,
        ProvisionState::AwaitingRelease => event is ReleaseResolved,
        ProvisionState::AwaitingCacheCheck { .. } => event is CacheChecked,
        ProvisionState::AwaitingDownload { .. } => event is Downloaded,
        ProvisionState::AwaitingCleanup { .. } => event is CleanedUp,
        ProvisionState::Done { .. } => false,
        ProvisionState::Failed { .. } => false,
    }
}

/// The machine's transition relation: from `state`, on `event`, it moves
/// to `post` and asks for `action` (nothing, once `post` is terminal).
pub open spec fn step_spec(
    req: ToolRequest,
    state: ProvisionState,
    event: Event,
    post: ProvisionState,
    action: Option<Action>,
) -> bool {
    match (state, event) {
        (ProvisionState::AwaitingLocalLookup, Event::LocalLookup { path }) => match path {
            // A local executable settles provisioning at once.
            Some(p) => {
                &&& post matches ProvisionState::Done { binary_path, warnings }
                    && binary_path@ == p@ && warnings@.len() == 0
                &&& action is None
            },
            None => {
                &&& post is AwaitingRelease
                &&& action matches Some(Action::FetchRelease { status, require_assets, pre_release })
                    && status is CheckingForUpdate && require_assets && !pre_release
            },
        },
        (ProvisionState::AwaitingRelease, Event::ReleaseResolved { result }) => match result {
            Err(m) => {
                &&& post matches ProvisionState::Failed { error }
                    && error matches ProvisionError::ReleaseResolution { message }
                    && message@ == m@
                &&& action is None
            },
            Ok(release) => {
                let wanted = asset_name(req.name@, req.platform, req.architecture);
                let vdir = version_dir_name(req.name@, release.version@);
                let bpath = cached_binary_path(req.name@, release.version@);
                if has_matching_asset(release.assets@, wanted) {
                    &&& post matches ProvisionState::AwaitingCacheCheck {
                            download_url, version_dir, binary_path, archive,
                        }
                        && (exists|i: int| is_first_match(release.assets@, i, wanted)
                            && download_url@ == release.assets@[i].download_url@)
                        && version_dir@ == vdir
                        && binary_path@ == bpath
                        && archive == spec_archive_kind(req.platform)
                    &&& action matches Some(Action::CheckCachedFile { path }) && path@ == bpath
                } else {
                    &&& post matches ProvisionState::Failed { error }
                        && error matches ProvisionError::AssetNotFound { expected }
                        && expected@ == wanted
                    &&& action is None
                }
            },
        },
        (
            ProvisionState::AwaitingCacheCheck { download_url, version_dir, binary_path, archive },
            Event::CacheChecked { is_file },
        ) => {
            if is_file {
                // The cached binary is trusted by presence alone: no
                // download, the path is returned unchanged.
                &&& post matches ProvisionState::Done { binary_path: bp, warnings }
                    && bp@ == binary_path@ && warnings@.len() == 0
                &&& action is None
            } else {
                &&& post matches ProvisionState::AwaitingDownload { version_dir: vd, binary_path: bp }
                    && vd@ == version_dir@ && bp@ == binary_path@
                &&& action matches Some(Action::DownloadAndUnpack { status, url, destination, archive: k })
                    && status is Downloading
                    && url@ == download_url@
                    && destination@ == version_dir@
                    && k == archive
            }
        },
        (ProvisionState::AwaitingDownload { version_dir, binary_path }, Event::Downloaded { result }) => {
            match result {
                Ok(_) => {
                    &&& post matches ProvisionState::AwaitingCleanup { binary_path: bp }
                        && bp@ == binary_path@
                    &&& action matches Some(Action::RemoveStaleEntries { keep })
                        && keep@ == version_dir@
                },
                Err(FetchFailure::Download { message }) => {
                    &&& post matches ProvisionState::Failed { error }
                        && error matches ProvisionError::Download { message: m }
                        && m@ == message@
                    &&& action is None
                },
                Err(FetchFailure::Extraction { message }) => {
                    &&& post matches ProvisionState::Failed { error }
                        && error matches ProvisionError::Extraction { message: m }
                        && m@ == message@
                    &&& action is None
                },
            }
        },
        (ProvisionState::AwaitingCleanup { binary_path }, Event::CleanedUp { warnings }) => {
            &&& post matches ProvisionState::Done { binary_path: bp, warnings: w }
                && bp@ == binary_path@ && w == warnings
            &&& action is None
        },
        _ => false,
    }
}

/// Opens a provisioning run: the first thing to learn is whether a local
/// executable already satisfies the tool name.
pub fn start(req: &ToolRequest) -> (r: (ProvisionState, Action))
    ensures
        r.0 is AwaitingLocalLookup,
        r.1 matches Action::LookUpLocal { tool } && tool@ == req.name@,
{
    (
        ProvisionState::AwaitingLocalLookup,
        Action::LookUpLocal { tool: req.name.clone() },
    )
}

/// Advances the machine by one step: from `state`, on `event`, to the
/// next state and the next action for the caller. `None` means the run
/// is over and the state is terminal.
pub fn step(req: &ToolRequest, state: ProvisionState, event: Event) -> (r: (
    ProvisionState,
    Option<Action>,
))
    requires
        accepts(state, event),
    ensures
        step_spec(*req, state, event, r.0, r.1),
        r.1 is None <==> (r.0 is Done || r.0 is Failed),
{
    match (state, event) {
        (ProvisionState::AwaitingLocalLookup, Event::LocalLookup { path }) => match path {
            Some(p) => (
                ProvisionState::Done { binary_path: p, warnings: Vec::new() },
                None,
            ),
            None => (
                ProvisionState::AwaitingRelease,
                Some(Action::FetchRelease {
                    status: InstallationStatus::CheckingForUpdate,
                    require_assets: true,
                    pre_release: false,
                }),
            ),
        },
        (ProvisionState::AwaitingRelease, Event::ReleaseResolved { result }) => match result {
            Err(m) => (
                ProvisionState::Failed {
                    error: ProvisionError::ReleaseResolution { message: m },
                },
                None,
            ),
            Ok(release) => {
                let wanted = compute_asset_name(
                    req.name.as_str(),
                    req.platform,
                    req.architecture,
                );
                match find_asset(&release.assets, &wanted) {
                    Some(i) => {
                        let url = release.assets[i].download_url.clone();
                        let version_dir = compute_version_dir(
                            req.name.as_str(),
                            release.version.as_str(),
                        );
                        let binary_path = compute_binary_path(
                            req.name.as_str(),
                            release.version.as_str(),
                        );
                        let checked_path = binary_path.clone();
                        (
                            ProvisionState::AwaitingCacheCheck {
                                download_url: url,
                                version_dir,
                                binary_path,
                                archive: archive_kind(req.platform),
                            },
                            Some(Action::CheckCachedFile { path: checked_path }),
                        )
                    },
                    None => (
                        ProvisionState::Failed {
                            error: ProvisionError::AssetNotFound { expected: wanted },
                        },
                        None,
                    ),
                }
            },
        },
        (
            ProvisionState::AwaitingCacheCheck { download_url, version_dir, binary_path, archive },
            Event::CacheChecked { is_file },
        ) => {
            if is_file {
                (
                    ProvisionState::Done { binary_path, warnings: Vec::new() },
                    None,
                )
            } else {
                let destination = version_dir.clone();
                (
                    ProvisionState::AwaitingDownload { version_dir, binary_path },
                    Some(Action::DownloadAndUnpack {
                        status: InstallationStatus::Downloading,
                        url: download_url,
                        destination,
                        archive,
                    }),
                )
            }
        },
        (
            ProvisionState::AwaitingDownload { version_dir, binary_path },
            Event::Downloaded { result },
        ) => match result {
            Ok(_) => (
                ProvisionState::AwaitingCleanup { binary_path },
                Some(Action::RemoveStaleEntries { keep: version_dir }),
            ),
            Err(FetchFailure::Download { message }) => (
                ProvisionState::Failed { error: ProvisionError::Download { message } },
                None,
            ),
            Err(FetchFailure::Extraction { message }) => (
                ProvisionState::Failed { error: ProvisionError::Extraction { message } },
                None,
            ),
        },
        (ProvisionState::AwaitingCleanup { binary_path }, Event::CleanedUp { warnings }) => (
            ProvisionState::Done { binary_path, warnings },
            None,
        ),
        _ => {
            // Unreachable: `accepts` pairs every state with its event.
            proof {
                assert(false);
            }
            (ProvisionState::AwaitingLocalLookup, None)
        },
    }
}

/// The names of the stale entries among `entries`: every name other than
/// `keep`, each kept exactly as often as it occurs, in order.
pub open spec fn stale_names(entries: Seq<Seq<char>>, keep: Seq<char>) -> Seq<Seq<char>>
    decreases entries.len(),
{
    if entries.len() == 0 {
        Seq::empty()
    } else {
        let rest = stale_names(entries.drop_last(), keep);
        if entries.last() != keep {
            rest.push(entries.last())
        } else {
            rest
        }
    }
}

/// The names in a list of directory entries.
pub open spec fn names_of(entries: Seq<String>) -> Seq<Seq<char>> {
    entries.map_values(|s: String| s@)
}

/// Decides which working-directory entries must be removed after a
/// successful install: every entry not named `keep`, in order.
pub fn entries_to_remove(entries: &Vec<String>, keep: &String) -> (r: Vec<String>)
    ensures
        names_of(r@) == stale_names(names_of(entries@), keep@),
{
    let mut r: Vec<String> = Vec::new();
    let mut i: usize = 0;
    while i < entries.len()
        invariant
            0 <= i <= entries@.len(),
            names_of(r@) == stale_names(names_of(entries@).take(i as int), keep@),
        decreases entries@.len() - i,
    {
        let ghost pre = names_of(r@);
        if !(entries[i] == *keep) {
            r.push(entries[i].clone());
        }
        proof {
            let all = names_of(entries@);
            let before = all.take(i as int);
            let after = all.take(i as int + 1);
            assert(after.drop_last() =~= before);
            assert(after.last() == entries@[i as int]@);
            if entries@[i as int]@ != keep@ {
                assert(names_of(r@) =~= pre.push(entries@[i as int]@));
            }
        }
        i = i + 1;
    }
    proof {
        assert(names_of(entries@).take(entries@.len() as int) =~= names_of(entries@));
    }
    r
}

/// Every name other than the kept one is slated for removal.
proof fn lemma_stale_names_complete(entries: Seq<Seq<char>>, keep: Seq<char>, i: int)
    requires
        0 <= i < entries.len(),
        entries[i] != keep,
    ensures
        stale_names(entries, keep).contains(entries[i]),
    decreases entries.len(),
{
    if i == entries.len() - 1 {
        let rest = stale_names(entries.drop_last(), keep);
        assert(stale_names(entries, keep)[rest.len() as int] == entries[i]);
    } else {
        lemma_stale_names_complete(entries.drop_last(), keep, i);
        let rest = stale_names(entries.drop_last(), keep);
        let j = choose|j: int| 0 <= j < rest.len() && rest[j] == entries.drop_last()[i];
        assert(stale_names(entries, keep)[j] == entries[i]);
    }
}

/// The just-installed version directory is never slated for removal.
pub proof fn lemma_kept_entry_survives(entries: Seq<Seq<char>>, keep: Seq<char>)
    ensures
        !stale_names(entries, keep).contains(keep),
    decreases entries.len(),
{
    if entries.len() > 0 {
        lemma_kept_entry_survives(entries.drop_last(), keep);
        let rest = stale_names(entries.drop_last(), keep);
        if entries.last() != keep {
            assert forall|j: int| 0 <= j < rest.len() + 1 implies rest.push(entries.last())[j]
                != keep by {
                if j < rest.len() && rest[j] == keep {
                    assert(rest.contains(keep));
                }
            }
        }
    }
}

/// Removing every stale entry leaves only the just-installed version
/// directory: a surviving entry — one not slated for removal — is the
/// kept one.
pub proof fn lemma_cleanup_leaves_only_installed(entries: Seq<Seq<char>>, keep: Seq<char>, i: int)
    requires
        0 <= i < entries.len(),
        !stale_names(entries, keep).contains(entries[i]),
    ensures
        entries[i] == keep,
{
    if entries[i] != keep {
        lemma_stale_names_complete(entries, keep, i);
    }
}

/// A tool found on the local search path settles provisioning at once:
/// the machine finishes with that very path and asks for nothing further
/// — in particular, it never asks the release host for anything.
pub proof fn lemma_local_hit_needs_no_network(
    req: ToolRequest,
    found: String,
    post: ProvisionState,
    action: Option<Action>,
)
    requires
        step_spec(
            req,
            ProvisionState::AwaitingLocalLookup,
            Event::LocalLookup { path: Some(found) },
            post,
            action,
        ),
    ensures
        post matches ProvisionState::Done { binary_path, warnings } && binary_path@ == found@
            && warnings@.len() == 0,
        action is None,
{
}

/// A cached binary already on disk settles provisioning with that very
/// path: the machine asks for no download and no removal.
pub proof fn lemma_cache_hit_skips_download(
    req: ToolRequest,
    url: String,
    vdir: String,
    bpath: String,
    kind: ArchiveKind,
    post: ProvisionState,
    action: Option<Action>,
)
    requires
        step_spec(
            req,
            ProvisionState::AwaitingCacheCheck {
                download_url: url,
                version_dir: vdir,
                binary_path: bpath,
                archive: kind,
            },
            Event::CacheChecked { is_file: true },
            post,
            action,
        ),
    ensures
        post matches ProvisionState::Done { binary_path, warnings } && binary_path@ == bpath@
            && warnings@.len() == 0,
        action is None,
{
}

/// A release-host failure propagates as a release-resolution error, and
/// the machine asks for nothing further: no download and no removal, so
/// an existing cached installation is left untouched.
pub proof fn lemma_release_failure_touches_nothing(
    req: ToolRequest,
    message: String,
    post: ProvisionState,
    action: Option<Action>,
)
    requires
        step_spec(
            req,
            ProvisionState::AwaitingRelease,
            Event::ReleaseResolved { result: Err(message) },
            post,
            action,
        ),
    ensures
        post matches ProvisionState::Failed { error } && error matches
            ProvisionError::ReleaseResolution { message: m } && m@ == message@,
        action is None,
{
}

/// The machine asks for stale entries to be removed only right after a
/// successful download: no failure, lookup or cache-hit path reaches the
/// removal step, and what is kept is the directory downloaded into.
pub proof fn lemma_removal_only_after_download(
    req: ToolRequest,
    state: ProvisionState,
    event: Event,
    post: ProvisionState,
    action: Option<Action>,
)
    requires
        step_spec(req, state, event, post, action),
        action matches Some(a) && a is RemoveStaleEntries,
    ensures
        state is AwaitingDownload,
        event matches Event::Downloaded { result } && result is Ok,
        action matches Some(Action::RemoveStaleEntries { keep }) && state matches
            ProvisionState::AwaitingDownload { version_dir, .. } && keep@ == version_dir@,
{
}

} // verus!

