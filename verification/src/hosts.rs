//! The entries that point the service's domains at this machine: what is
//! added to the system's hosts file, when nothing needs adding, and what each
//! outcome is reported as.

use vstd::prelude::*;
use vstd::string::*;

use crate::text::{text_contains, text_holds};

verus! {

/// The lines that are added to the hosts file.
pub open spec fn hosts_block() -> Seq<char> {
    "# Fluster Local Domain Entries\n127.0.0.1 fluster.is\n127.0.0.1 www.fluster.is\n"@
}

/// The lines that are added to the hosts file.
pub fn hosts_entries() -> (block: &'static str)
    ensures
        block@ == hosts_block(),
{
    "# Fluster Local Domain Entries\n127.0.0.1 fluster.is\n127.0.0.1 www.fluster.is\n"
}

/// Where the system keeps its hosts file.
pub open spec fn hosts_location(windows: bool) -> Seq<char> {
    if windows {
        "C:\\Windows\\System32\\drivers\\etc\\hosts"@
    } else {
        "/etc/hosts"@
    }
}

/// Where the system keeps its hosts file.
pub fn hosts_path(windows: bool) -> (path: &'static str)
    ensures
        path@ == hosts_location(windows),
{
    if windows {
        "C:\\Windows\\System32\\drivers\\etc\\hosts"
    } else {
        "/etc/hosts"
    }
}

/// Whether the hosts file holds the entries already, as one unbroken block.
pub fn hosts_have_entries(contents: &str) -> (present: bool)
    ensures
        present == text_holds(contents@, hosts_block()),
{
    text_contains(contents, hosts_entries())
}

/// Why the hosts file could not be opened.
#[derive(Clone, Copy, Debug, PartialEq, Eq)]
pub enum OpenFailure {
    PermissionDenied,
    NotFound,
    Other,
}

/// How an attempt to add the entries ended.
#[derive(Debug)]
pub enum HostsReport {
    /// There is no hosts file.
    NotFound,
    /// The hosts file may not be opened by this user.
    PermissionDenied,
    /// The hosts file could not be opened.
    OpenFailed(String),
    /// The hosts file could not be read.
    ReadFailed(String),
    /// The entries could not be written.
    WriteFailed(String),
    /// The path of the running program could not be had.
    ProgramUnknown(String),
    /// The user did not let the program run with higher rights.
    ElevationRefused,
    /// The entries were there already.
    AlreadyPresent,
    /// The entries were written.
    Updated,
    /// The program was started again with higher rights to write the entries.
    ElevationStarted,
}

/// A `HostsReport` with its attached reason as a sequence of characters.
pub enum HostsReportView {
    NotFound,
    PermissionDenied,
    OpenFailed(Seq<char>),
    ReadFailed(Seq<char>),
    WriteFailed(Seq<char>),
    ProgramUnknown(Seq<char>),
    ElevationRefused,
    AlreadyPresent,
    Updated,
    ElevationStarted,
}

impl View for HostsReport {
    type V = HostsReportView;

    open spec fn view(&self) -> HostsReportView {
        match self {
            HostsReport::NotFound => HostsReportView::NotFound,
            HostsReport::PermissionDenied => HostsReportView::PermissionDenied,
            HostsReport::OpenFailed(reason) => HostsReportView::OpenFailed(reason@),
            HostsReport::ReadFailed(reason) => HostsReportView::ReadFailed(reason@),
            HostsReport::WriteFailed(reason) => HostsReportView::WriteFailed(reason@),
            HostsReport::ProgramUnknown(reason) => HostsReportView::ProgramUnknown(reason@),
            HostsReport::ElevationRefused => HostsReportView::ElevationRefused,
            HostsReport::AlreadyPresent => HostsReportView::AlreadyPresent,
            HostsReport::Updated => HostsReportView::Updated,
            HostsReport::ElevationStarted => HostsReportView::ElevationStarted,
        }
    }
}

/// Whether a report tells of success.
pub open spec fn report_is_success(report: HostsReportView) -> bool {
    report is AlreadyPresent || report is Updated || report is ElevationStarted
}

/// The sentence that tells the user how the attempt ended.
pub open spec fn report_text(report: HostsReportView, windows: bool) -> Seq<char> {
    match report {
        HostsReportView::NotFound => "Hosts file not found at "@ + hosts_location(windows),
        HostsReportView::PermissionDenied =>
            "Permission denied while opening the hosts file. Please run Fluster as administrator once."@,
        HostsReportView::OpenFailed(reason) => "Failed to open hosts file: "@ + reason,
        HostsReportView::ReadFailed(reason) => "Failed to read hosts file: "@ + reason,
        HostsReportView::WriteFailed(reason) => "Failed to write to hosts file: "@ + reason,
        HostsReportView::ProgramUnknown(reason) => reason,
        HostsReportView::ElevationRefused =>
            "We couldn't add the local Fluster Domains onto your machine, did you accept the UAC prompt?"@,
        HostsReportView::AlreadyPresent => "Hosts file already contains Fluster entries"@,
        HostsReportView::Updated => "Hosts file updated successfully"@,
        HostsReportView::ElevationStarted => "Setup the local Fluster Domains onto the machine!"@,
    }
}

impl HostsReport {
    /// The sentence that tells the user how the attempt ended: `Ok` for a
    /// success, `Err` for a failure.
    pub fn message(&self, windows: bool) -> (told: Result<String, String>)
        ensures
            told is Ok == report_is_success(self@),
            match told {
                Ok(text) => text@ == report_text(self@, windows),
                Err(text) => text@ == report_text(self@, windows),
            },
    {
        match self {
            HostsReport::NotFound => {
                let mut text = String::from_str("Hosts file not found at ");
                text.append(hosts_path(windows));
                Err(text)
            },
            HostsReport::PermissionDenied => Err(
                String::from_str(
                    "Permission denied while opening the hosts file. Please run Fluster as administrator once.",
                ),
            ),
            HostsReport::OpenFailed(reason) => {
                let mut text = String::from_str("Failed to open hosts file: ");
                text.append(reason.as_str());
                Err(text)
            },
            HostsReport::ReadFailed(reason) => {
                let mut text = String::from_str("Failed to read hosts file: ");
                text.append(reason.as_str());
                Err(text)
            },
            HostsReport::WriteFailed(reason) => {
                let mut text = String::from_str("Failed to write to hosts file: ");
                text.append(reason.as_str());
                Err(text)
            },
            HostsReport::ProgramUnknown(reason) => Err(reason.clone()),
            HostsReport::ElevationRefused => Err(
                String::from_str(
                    "We couldn't add the local Fluster Domains onto your machine, did you accept the UAC prompt?",
                ),
            ),
            HostsReport::AlreadyPresent => Ok(
                String::from_str("Hosts file already contains Fluster entries"),
            ),
            HostsReport::Updated => Ok(String::from_str("Hosts file updated successfully")),
            HostsReport::ElevationStarted => Ok(
                String::from_str("Setup the local Fluster Domains onto the machine!"),
            ),
        }
    }
}

/// What a failure to open the hosts file is reported as.
pub fn open_failure_report(failure: OpenFailure, reason: String) -> (report: HostsReport)
    ensures
        report@ == match failure {
            OpenFailure::PermissionDenied => HostsReportView::PermissionDenied,
            OpenFailure::NotFound => HostsReportView::NotFound,
            OpenFailure::Other => HostsReportView::OpenFailed(reason@),
        },
{
    match failure {
        OpenFailure::PermissionDenied => HostsReport::PermissionDenied,
        OpenFailure::NotFound => HostsReport::NotFound,
        OpenFailure::Other => HostsReport::OpenFailed(reason),
    }
}

/// The largest code with which the system's shell says that it did not
/// start a program.
pub const SHELL_FAILURE_MAX: isize = 32;

/// What the shell's answer to the request for higher rights is reported as:
/// a code above `SHELL_FAILURE_MAX` means that the program was started.
pub fn elevation_report(code: isize) -> (report: HostsReport)
    ensures
        report@ == if code <= SHELL_FAILURE_MAX {
            HostsReportView::ElevationRefused
        } else {
            HostsReportView::ElevationStarted
        },
{
    if code <= SHELL_FAILURE_MAX {
        HostsReport::ElevationRefused
    } else {
        HostsReport::ElevationStarted
    }
}

} // verus!
