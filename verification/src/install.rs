//! Installing a version: where it is fetched from, the order of the steps
//! that put it on disk, what each failure is reported as, and when a version
//! counts as installed.

use vstd::prelude::*;
use vstd::string::*;

verus! {

/// What a look at a version's directory found.
#[derive(Clone, Copy, Debug)]
pub struct InstallProbe {
    /// Whether the directory of the installed versions could be had.
    pub versions_dir_available: bool,
    /// Whether the version's directory exists.
    pub dir_exists: bool,
    /// Whether it is a directory.
    pub dir_is_dir: bool,
    /// Whether the game executable exists in it.
    pub executable_exists: bool,
    /// Whether it is a regular file.
    pub executable_is_file: bool,
    /// The executable's size in bytes, where it could be read.
    pub executable_size: Option<u64>,
}

/// A version counts as installed when its directory holds a game executable
/// that is a regular file and is not empty.
pub open spec fn counts_as_installed(probe: InstallProbe) -> bool {
    &&& probe.versions_dir_available
    &&& probe.dir_exists
    &&& probe.dir_is_dir
    &&& probe.executable_exists
    &&& probe.executable_is_file
    &&& probe.executable_size matches Some(bytes) && bytes > 0
}

/// Decides from a look at the version's directory whether the version is
/// installed.
pub fn is_client_installed(probe: &InstallProbe) -> (installed: bool)
    ensures
        installed == counts_as_installed(*probe),
{
    if !probe.versions_dir_available {
        return false;
    }
    if !probe.dir_exists || !probe.dir_is_dir {
        return false;
    }
    if !probe.executable_exists || !probe.executable_is_file {
        return false;
    }
    match probe.executable_size {
        Some(bytes) => bytes > 0,
        None => false,
    }
}

/// What a look at the application's data directory found.
#[derive(Clone, Copy, Debug)]
pub struct SetupProbe {
    /// Whether the system names a local data directory.
    pub data_dir_available: bool,
    pub root_exists: bool,
    pub root_is_dir: bool,
    pub versions_exists: bool,
    pub versions_is_dir: bool,
    pub downloads_exists: bool,
    pub downloads_is_dir: bool,
}

/// The application is set up when its data directory and the directories
/// for versions and for downloads inside it are all there.
pub open spec fn counts_as_set_up(probe: SetupProbe) -> bool {
    &&& probe.data_dir_available
    &&& probe.root_exists && probe.root_is_dir
    &&& probe.versions_exists && probe.versions_is_dir
    &&& probe.downloads_exists && probe.downloads_is_dir
}

/// Decides from a look at the application's data directory whether the
/// application is set up.
pub fn is_fluster_setup(probe: &SetupProbe) -> (ready: bool)
    ensures
        ready == counts_as_set_up(*probe),
{
    probe.data_dir_available && probe.root_exists && probe.root_is_dir && probe.versions_exists
        && probe.versions_is_dir && probe.downloads_exists && probe.downloads_is_dir
}

/// The address from which the archive of `version` is fetched.
pub open spec fn archive_url(version: Seq<char>) -> Seq<char> {
    "https://cdn.simuldev.com/"@ + version + ".zip"@
}

/// Writes the address from which the archive of `version` is fetched.
pub fn download_url(version: &str) -> (url: String)
    ensures
        url@ == archive_url(version@),
{
    let mut url = String::from_str("https://cdn.simuldev.com/");
    url.append(version);
    url.append(".zip");
    url
}

/// One step of an installation. An entry step carries the place of the
/// archive entry it is about.
#[derive(Clone, Copy, Debug, PartialEq, Eq)]
pub enum InstallStage {
    /// Look up the directory of the installed versions.
    VersionsDir,
    /// Look up the directory for downloads.
    DownloadsDir,
    /// Check whether the version is installed already.
    InstalledCheck,
    /// Ask the storage for the archive.
    Request,
    /// Read the body of the answer.
    Body,
    /// Create the archive file in the directory for downloads.
    ArchiveCreate,
    /// Write the body to the archive file.
    ArchiveWrite,
    /// Open the archive file again.
    ArchiveOpen,
    /// Read the archive's directory of entries.
    ArchiveRead,
    /// Create the version's directory where it is missing.
    TargetDir,
    /// Read the entry at this place.
    Entry(usize),
    /// Create the directory that the entry stands for.
    EntryDir(usize),
    /// Create the directory above the entry's file where it is missing.
    EntryParent(usize),
    /// Create the entry's file.
    EntryFile(usize),
    /// Copy the entry's content to its file.
    EntryCopy(usize),
    /// Measure what the version's directory holds.
    Measure,
    /// Record this size for the version in the registry.
    Record(u64),
    /// Remove the archive file.
    Cleanup,
    /// Check that the version is installed now.
    FinalCheck,
}

/// Why an installation came to nothing.
#[derive(Clone, Copy, Debug, PartialEq, Eq)]
pub enum InstallFailure {
    /// The step of this stage failed.
    Stage(InstallStage),
    /// The storage does not have the version.
    NotAvailable,
    /// The storage answered with neither the archive nor "not found".
    BadStatus,
    /// All steps were taken and the client is still not there.
    NotFoundAfterInstall,
}

/// A failed installation: why, and what the failing step said.
#[derive(Debug)]
pub struct InstallError {
    pub failure: InstallFailure,
    /// The failing step's own words; for a bad status, the status.
    pub detail: String,
}

/// An `InstallError` with its detail as a sequence of characters.
pub struct InstallErrorView {
    pub failure: InstallFailure,
    pub detail: Seq<char>,
}

impl View for InstallError {
    type V = InstallErrorView;

    open spec fn view(&self) -> InstallErrorView {
        InstallErrorView { failure: self.failure, detail: self.detail@ }
    }
}

/// The words that introduce the failure of a stage; empty for a stage whose
/// failure is not reported.
pub open spec fn stage_failure_prefix(stage: InstallStage) -> Seq<char> {
    match stage {
        InstallStage::VersionsDir => "Failed to get the versions directory: "@,
        InstallStage::DownloadsDir => "Failed to get the downloads directory: "@,
        InstallStage::Request => "Failed to contact with the Fluster Storage: "@,
        InstallStage::Body => "Failed to read the response body: "@,
        InstallStage::ArchiveCreate => "Failed to create the destination file: "@,
        InstallStage::ArchiveWrite => "Failed to write the version data to the file: "@,
        InstallStage::ArchiveOpen => "Failed to open the zip file: "@,
        InstallStage::ArchiveRead => "Failed to create the zip archive: "@,
        InstallStage::TargetDir => "Failed to create version directory: "@,
        InstallStage::Entry(_) => "Failed to read the zip entry: "@,
        InstallStage::EntryDir(_) => "Failed to create the directory: "@,
        InstallStage::EntryParent(_) => "Failed to create the parent directory: "@,
        InstallStage::EntryFile(_) => "Failed to create the file: "@,
        InstallStage::EntryCopy(_) => "Failed to write the file: "@,
        InstallStage::Measure => "Failed to calculate directory size: "@,
        _ => Seq::<char>::empty(),
    }
}

/// The sentence that reports a failed installation of `version`.
pub open spec fn install_error_text(error: InstallErrorView, version: Seq<char>) -> Seq<char> {
    match error.failure {
        InstallFailure::Stage(stage) => stage_failure_prefix(stage) + error.detail,
        InstallFailure::NotAvailable => version + " was not available on the Fluster Storage"@,
        InstallFailure::BadStatus => "Failed to download "@ + version + " for error code "@
            + error.detail,
        InstallFailure::NotFoundAfterInstall =>
            "Installation failed: Client files not found after installation"@,
    }
}

/// The words that introduce the failure of a stage.
fn stage_failure_words(stage: InstallStage) -> (words: &'static str)
    ensures
        words@ == stage_failure_prefix(stage),
{
    proof {
        reveal_strlit("");
    }
    let words = match stage {
        InstallStage::VersionsDir => "Failed to get the versions directory: ",
        InstallStage::DownloadsDir => "Failed to get the downloads directory: ",
        InstallStage::Request => "Failed to contact with the Fluster Storage: ",
        InstallStage::Body => "Failed to read the response body: ",
        InstallStage::ArchiveCreate => "Failed to create the destination file: ",
        InstallStage::ArchiveWrite => "Failed to write the version data to the file: ",
        InstallStage::ArchiveOpen => "Failed to open the zip file: ",
        InstallStage::ArchiveRead => "Failed to create the zip archive: ",
        InstallStage::TargetDir => "Failed to create version directory: ",
        InstallStage::Entry(_) => "Failed to read the zip entry: ",
        InstallStage::EntryDir(_) => "Failed to create the directory: ",
        InstallStage::EntryParent(_) => "Failed to create the parent directory: ",
        InstallStage::EntryFile(_) => "Failed to create the file: ",
        InstallStage::EntryCopy(_) => "Failed to write the file: ",
        InstallStage::Measure => "Failed to calculate directory size: ",
        _ => "",
    };
    assert(words@ =~= stage_failure_prefix(stage));
    words
}

impl InstallError {
    /// The sentence that reports this failure to install `version`.
    pub fn message(&self, version: &str) -> (text: String)
        ensures
            text@ == install_error_text(self@, version@),
    {
        match self.failure {
            InstallFailure::Stage(stage) => {
                let mut text = String::from_str(stage_failure_words(stage));
                text.append(self.detail.as_str());
                text
            },
            InstallFailure::NotAvailable => {
                let mut text = String::from_str(version);
                text.append(" was not available on the Fluster Storage");
                text
            },
            InstallFailure::BadStatus => {
                let mut text = String::from_str("Failed to download ");
                text.append(version);
                text.append(" for error code ");
                text.append(self.detail.as_str());
                text
            },
            InstallFailure::NotFoundAfterInstall => String::from_str(
                "Installation failed: Client files not found after installation",
            ),
        }
    }
}

/// Where an installation stands.
#[derive(Clone, Copy, Debug, PartialEq, Eq)]
pub enum InstallState {
    /// The step of `stage` is under way; the archive has `entries` entries,
    /// zero while that is not known.
    Awaiting { stage: InstallStage, entries: usize },
    /// The version is installed.
    Succeeded,
    /// The installation was given up.
    Failed,
}

/// What the installation is told about the step under way.
#[derive(Debug)]
pub enum InstallEvent {
    /// The step is done and has nothing to say.
    Completed,
    /// The step failed, in these words.
    Failed { reason: String },
    /// The check for the client is done.
    Installed { installed: bool },
    /// The storage answered with this status.
    Responded { status: u16, status_text: String, has_length: bool },
    /// The archive's directory was read: it has this many entries.
    ArchiveRead { entries: usize },
    /// The entry was read: it is a directory, or a file.
    EntryRead { is_dir: bool },
    /// The version's directory holds this many bytes.
    Measured { bytes: u64 },
}

/// What the installation asks for next.
#[derive(Debug)]
pub enum InstallAction {
    /// Take the step of this stage, then report how it went.
    Perform(InstallStage),
    /// Tell the caller that the version is installed.
    Succeed,
    /// Tell the caller that the installation failed.
    Fail(InstallError),
    /// Nothing: the event does not belong to the step under way.
    Idle,
}

/// An `InstallAction` with its error as a view.
pub enum InstallActionView {
    Perform(InstallStage),
    Succeed,
    Fail(InstallErrorView),
    Idle,
}

impl View for InstallAction {
    type V = InstallActionView;

    open spec fn view(&self) -> InstallActionView {
        match self {
            InstallAction::Perform(stage) => InstallActionView::Perform(*stage),
            InstallAction::Succeed => InstallActionView::Succeed,
            InstallAction::Fail(error) => InstallActionView::Fail(error@),
            InstallAction::Idle => InstallActionView::Idle,
        }
    }
}

/// The HTTP status of an answer that carries what was asked for.
pub const STATUS_OK: u16 = 200;

/// The HTTP status of an answer that says there is no such thing.
pub const STATUS_NOT_FOUND: u16 = 404;

/// The stage after the entry at `index` is on disk: the next entry, or the
/// measuring once the last entry is done.
pub open spec fn stage_after_entry(index: usize, entries: usize) -> InstallStage {
    if index + 1 < entries {
        InstallStage::Entry((index + 1) as usize)
    } else {
        InstallStage::Measure
    }
}

/// The stage that follows `stage` once its step is done with nothing to say;
/// none for a stage whose step always has something to say.
pub open spec fn stage_after(stage: InstallStage, entries: usize) -> Option<InstallStage> {
    match stage {
        InstallStage::VersionsDir => Some(InstallStage::DownloadsDir),
        InstallStage::DownloadsDir => Some(InstallStage::InstalledCheck),
        InstallStage::Body => Some(InstallStage::ArchiveCreate),
        InstallStage::ArchiveCreate => Some(InstallStage::ArchiveWrite),
        InstallStage::ArchiveWrite => Some(InstallStage::ArchiveOpen),
        InstallStage::ArchiveOpen => Some(InstallStage::ArchiveRead),
        InstallStage::TargetDir => Some(
            if entries > 0 {
                InstallStage::Entry(0)
            } else {
                InstallStage::Measure
            },
        ),
        InstallStage::EntryDir(index) => Some(stage_after_entry(index, entries)),
        InstallStage::EntryParent(index) => Some(InstallStage::EntryFile(index)),
        InstallStage::EntryFile(index) => Some(InstallStage::EntryCopy(index)),
        InstallStage::EntryCopy(index) => Some(stage_after_entry(index, entries)),
        InstallStage::Record(_) => Some(InstallStage::Cleanup),
        InstallStage::Cleanup => Some(InstallStage::FinalCheck),
        _ => None,
    }
}

/// Whether a failure of this stage is passed over: a size that could not be
/// recorded and an archive file that could not be removed do not undo an
/// installation.
pub open spec fn failure_passed_over(stage: InstallStage) -> bool {
    stage is Record || stage is Cleanup
}

/// Whether a failure of this stage ends the installation.
pub open spec fn failure_ends_install(stage: InstallStage) -> bool {
    !(stage is Record || stage is Cleanup || stage is InstalledCheck || stage is FinalCheck)
}

/// The step to go on with, as a state and what is asked for.
pub open spec fn go_on(stage: InstallStage, entries: usize) -> (InstallState, InstallActionView) {
    (InstallState::Awaiting { stage, entries }, InstallActionView::Perform(stage))
}

/// The end of an installation that failed.
pub open spec fn give_up(failure: InstallFailure, detail: Seq<char>) -> (
    InstallState,
    InstallActionView,
) {
    (InstallState::Failed, InstallActionView::Fail(InstallErrorView { failure, detail }))
}

/// The state that follows `state` on `event`, and what is asked for.
pub open spec fn install_next(state: InstallState, event: InstallEvent) -> (
    InstallState,
    InstallActionView,
) {
    match state {
        InstallState::Awaiting { stage, entries } => match event {
            InstallEvent::Completed => match stage_after(stage, entries) {
                Some(following) => go_on(following, entries),
                None => (state, InstallActionView::Idle),
            },
            InstallEvent::Failed { reason } => if failure_passed_over(stage) {
                go_on(stage_after(stage, entries)->0, entries)
            } else if failure_ends_install(stage) {
                give_up(InstallFailure::Stage(stage), reason@)
            } else {
                (state, InstallActionView::Idle)
            },
            InstallEvent::Installed { installed } => if stage is InstalledCheck {
                if installed {
                    (InstallState::Succeeded, InstallActionView::Succeed)
                } else {
                    go_on(InstallStage::Request, entries)
                }
            } else if stage is FinalCheck {
                if installed {
                    (InstallState::Succeeded, InstallActionView::Succeed)
                } else {
                    give_up(InstallFailure::NotFoundAfterInstall, Seq::<char>::empty())
                }
            } else {
                (state, InstallActionView::Idle)
            },
            InstallEvent::Responded { status, status_text, has_length } => if stage is Request {
                if status == STATUS_NOT_FOUND {
                    give_up(InstallFailure::NotAvailable, status_text@)
                } else if status != STATUS_OK || !has_length {
                    give_up(InstallFailure::BadStatus, status_text@)
                } else {
                    go_on(InstallStage::Body, entries)
                }
            } else {
                (state, InstallActionView::Idle)
            },
            InstallEvent::ArchiveRead { entries: found } => if stage is ArchiveRead {
                go_on(InstallStage::TargetDir, found)
            } else {
                (state, InstallActionView::Idle)
            },
            InstallEvent::EntryRead { is_dir } => match stage {
                InstallStage::Entry(index) => if is_dir {
                    go_on(InstallStage::EntryDir(index), entries)
                } else {
                    go_on(InstallStage::EntryParent(index), entries)
                },
                _ => (state, InstallActionView::Idle),
            },
            InstallEvent::Measured { bytes } => if stage is Measure {
                go_on(InstallStage::Record(bytes), entries)
            } else {
                (state, InstallActionView::Idle)
            },
        },
        _ => (state, InstallActionView::Idle),
    }
}

/// Begins an installation: the directory of the installed versions is looked
/// up first.
pub fn install_start() -> (begin: (InstallState, InstallAction))
    ensures
        (begin.0, begin.1@) == go_on(InstallStage::VersionsDir, 0),
{
    (
        InstallState::Awaiting { stage: InstallStage::VersionsDir, entries: 0 },
        InstallAction::Perform(InstallStage::VersionsDir),
    )
}

/// Finds the stage after the entry at `index` is on disk.
fn next_after_entry(index: usize, entries: usize) -> (stage: InstallStage)
    ensures
        stage == stage_after_entry(index, entries),
{
    if entries > 0 && index < entries - 1 {
        InstallStage::Entry(index + 1)
    } else {
        InstallStage::Measure
    }
}

/// Finds the stage that follows `stage` once its step is done with nothing
/// to say.
fn next_stage(stage: InstallStage, entries: usize) -> (following: Option<InstallStage>)
    ensures
        following == stage_after(stage, entries),
{
    match stage {
        InstallStage::VersionsDir => Some(InstallStage::DownloadsDir),
        InstallStage::DownloadsDir => Some(InstallStage::InstalledCheck),
        InstallStage::Body => Some(InstallStage::ArchiveCreate),
        InstallStage::ArchiveCreate => Some(InstallStage::ArchiveWrite),
        InstallStage::ArchiveWrite => Some(InstallStage::ArchiveOpen),
        InstallStage::ArchiveOpen => Some(InstallStage::ArchiveRead),
        InstallStage::TargetDir => {
            if entries > 0 {
                Some(InstallStage::Entry(0))
            } else {
                Some(InstallStage::Measure)
            }
        },
        InstallStage::EntryDir(index) => Some(next_after_entry(index, entries)),
        InstallStage::EntryParent(index) => Some(InstallStage::EntryFile(index)),
        InstallStage::EntryFile(index) => Some(InstallStage::EntryCopy(index)),
        InstallStage::EntryCopy(index) => Some(next_after_entry(index, entries)),
        InstallStage::Record(_) => Some(InstallStage::Cleanup),
        InstallStage::Cleanup => Some(InstallStage::FinalCheck),
        _ => None,
    }
}

/// Goes on with the step of `stage`.
fn proceed(stage: InstallStage, entries: usize) -> (next: (InstallState, InstallAction))
    ensures
        (next.0, next.1@) == go_on(stage, entries),
{
    (InstallState::Awaiting { stage, entries }, InstallAction::Perform(stage))
}

/// Ends the installation with a failure.
fn abandon(failure: InstallFailure, detail: String) -> (next: (InstallState, InstallAction))
    ensures
        (next.0, next.1@) == give_up(failure, detail@),
{
    (InstallState::Failed, InstallAction::Fail(InstallError { failure, detail }))
}

/// Takes one event: gives the next state and what to do next.
pub fn install_step(state: InstallState, event: InstallEvent) -> (next: (
    InstallState,
    InstallAction,
))
    ensures
        (next.0, next.1@) == install_next(state, event),
{
    let (stage, entries) = match state {
        InstallState::Awaiting { stage, entries } => (stage, entries),
        _ => {
            return (state, InstallAction::Idle);
        },
    };
    match event {
        InstallEvent::Completed => match next_stage(stage, entries) {
            Some(following) => proceed(following, entries),
            None => (state, InstallAction::Idle),
        },
        InstallEvent::Failed { reason } => match stage {
            InstallStage::Record(_) => proceed(InstallStage::Cleanup, entries),
            InstallStage::Cleanup => proceed(InstallStage::FinalCheck, entries),
            InstallStage::InstalledCheck => (state, InstallAction::Idle),
            InstallStage::FinalCheck => (state, InstallAction::Idle),
            _ => abandon(InstallFailure::Stage(stage), reason),
        },
        InstallEvent::Installed { installed } => match stage {
            InstallStage::InstalledCheck => {
                if installed {
                    (InstallState::Succeeded, InstallAction::Succeed)
                } else {
                    proceed(InstallStage::Request, entries)
                }
            },
            InstallStage::FinalCheck => {
                if installed {
                    (InstallState::Succeeded, InstallAction::Succeed)
                } else {
                    abandon(InstallFailure::NotFoundAfterInstall, String::new())
                }
            },
            _ => (state, InstallAction::Idle),
        },
        InstallEvent::Responded { status, status_text, has_length } => match stage {
            InstallStage::Request => {
                if status == STATUS_NOT_FOUND {
                    abandon(InstallFailure::NotAvailable, status_text)
                } else if status != STATUS_OK || !has_length {
                    abandon(InstallFailure::BadStatus, status_text)
                } else {
                    proceed(InstallStage::Body, entries)
                }
            },
            _ => (state, InstallAction::Idle),
        },
        InstallEvent::ArchiveRead { entries: found } => match stage {
            InstallStage::ArchiveRead => proceed(InstallStage::TargetDir, found),
            _ => (state, InstallAction::Idle),
        },
        InstallEvent::EntryRead { is_dir } => match stage {
            InstallStage::Entry(index) => {
                if is_dir {
                    proceed(InstallStage::EntryDir(index), entries)
                } else {
                    proceed(InstallStage::EntryParent(index), entries)
                }
            },
            _ => (state, InstallAction::Idle),
        },
        InstallEvent::Measured { bytes } => match stage {
            InstallStage::Measure => proceed(InstallStage::Record(bytes), entries),
            _ => (state, InstallAction::Idle),
        },
    }
}

/// A version that is found installed is neither fetched nor unpacked again,
/// and an installation reports success only on the word that the client is
/// there.
pub proof fn lemma_success_needs_the_client(state: InstallState, event: InstallEvent)
    ensures
        install_next(
            InstallState::Awaiting { stage: InstallStage::InstalledCheck, entries: 0 },
            InstallEvent::Installed { installed: true },
        ) == (InstallState::Succeeded, InstallActionView::Succeed),
        install_next(state, event).1 is Succeed ==> event == (InstallEvent::Installed {
            installed: true,
        }),
        install_next(state, event).0 == InstallState::Succeeded ==> state
            == InstallState::Succeeded || event == (InstallEvent::Installed { installed: true }),
{
}

/// The entries of an archive are unpacked in order: after the entry at
/// `index` comes the one at `index + 1`, and after the last the measuring.
pub proof fn lemma_entries_follow_in_order(index: usize, entries: usize)
    requires
        index < entries,
    ensures
        install_next(
            InstallState::Awaiting { stage: InstallStage::EntryCopy(index), entries },
            InstallEvent::Completed,
        ).1 == (if index + 1 < entries {
            InstallActionView::Perform(InstallStage::Entry((index + 1) as usize))
        } else {
            InstallActionView::Perform(InstallStage::Measure)
        }),
        install_next(
            InstallState::Awaiting { stage: InstallStage::EntryDir(index), entries },
            InstallEvent::Completed,
        ) == install_next(
            InstallState::Awaiting { stage: InstallStage::EntryCopy(index), entries },
            InstallEvent::Completed,
        ),
{
}

/// How an attempt to remove a version ended.
#[derive(Debug)]
pub enum UninstallOutcome {
    /// The directory of the installed versions could not be had.
    NoVersionsDir(String),
    /// The version was not installed: nothing was removed.
    NotInstalled,
    /// The version's directory could not be removed.
    RemoveFailed(String),
    /// The version's directory was removed.
    Removed,
}

/// What the user is told after an attempt to remove `version`: a version
/// that was not installed is no failure.
pub open spec fn uninstall_text(version: Seq<char>, outcome: UninstallOutcome) -> Result<
    Seq<char>,
    Seq<char>,
> {
    match outcome {
        UninstallOutcome::NoVersionsDir(reason) => Err(
            "Failed to get the versions directory: "@ + reason@,
        ),
        UninstallOutcome::NotInstalled => Ok(version + " is not installed"@),
        UninstallOutcome::RemoveFailed(reason) => Err(
            "Failed to remove the version directory for "@ + reason@,
        ),
        UninstallOutcome::Removed => Ok(version + " was uninstalled from the device"@),
    }
}

/// Tells the user how the attempt to remove `version` ended.
pub fn uninstall_message(version: &str, outcome: &UninstallOutcome) -> (told: Result<String, String>)
    ensures
        match told {
            Ok(text) => uninstall_text(version@, *outcome) == Ok::<Seq<char>, Seq<char>>(text@),
            Err(text) => uninstall_text(version@, *outcome) == Err::<Seq<char>, Seq<char>>(text@),
        },
{
    match outcome {
        UninstallOutcome::NoVersionsDir(reason) => {
            let mut text = String::from_str("Failed to get the versions directory: ");
            text.append(reason.as_str());
            Err(text)
        },
        UninstallOutcome::NotInstalled => {
            let mut text = String::from_str(version);
            text.append(" is not installed");
            Ok(text)
        },
        UninstallOutcome::RemoveFailed(reason) => {
            let mut text = String::from_str("Failed to remove the version directory for ");
            text.append(reason.as_str());
            Err(text)
        },
        UninstallOutcome::Removed => {
            let mut text = String::from_str(version);
            text.append(" was uninstalled from the device");
            Ok(text)
        },
    }
}

} // verus!
