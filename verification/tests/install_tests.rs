use fluster_session::install::{
    download_url, install_start, install_step, is_client_installed, is_fluster_setup,
    uninstall_message, InstallAction, InstallError, InstallEvent, InstallFailure, InstallProbe,
    InstallStage, InstallState, SetupProbe, UninstallOutcome,
};

fn present() -> InstallProbe {
    InstallProbe {
        versions_dir_available: true,
        dir_exists: true,
        dir_is_dir: true,
        executable_exists: true,
        executable_is_file: true,
        executable_size: Some(1),
    }
}

fn ready() -> SetupProbe {
    SetupProbe {
        data_dir_available: true,
        root_exists: true,
        root_is_dir: true,
        versions_exists: true,
        versions_is_dir: true,
        downloads_exists: true,
        downloads_is_dir: true,
    }
}

fn awaiting(stage: InstallStage, entries: usize) -> InstallState {
    InstallState::Awaiting { stage, entries }
}

fn failed(reason: &str) -> InstallEvent {
    InstallEvent::Failed { reason: reason.to_string() }
}

fn stage_of(action: &InstallAction) -> InstallStage {
    match action {
        InstallAction::Perform(stage) => *stage,
        other => panic!("expected a step, got {:?}", other),
    }
}

fn error_of(action: InstallAction) -> InstallError {
    match action {
        InstallAction::Fail(error) => error,
        other => panic!("expected a failure, got {:?}", other),
    }
}

#[test]
fn installed_needs_a_non_empty_executable_file() {
    assert!(is_client_installed(&present()));
    assert!(is_client_installed(&InstallProbe { executable_size: Some(u64::MAX), ..present() }));
    assert!(!is_client_installed(&InstallProbe { executable_size: Some(0), ..present() }));
    assert!(!is_client_installed(&InstallProbe { executable_size: None, ..present() }));
    assert!(!is_client_installed(&InstallProbe { versions_dir_available: false, ..present() }));
    assert!(!is_client_installed(&InstallProbe { dir_exists: false, ..present() }));
    assert!(!is_client_installed(&InstallProbe { dir_is_dir: false, ..present() }));
    assert!(!is_client_installed(&InstallProbe { executable_exists: false, ..present() }));
    assert!(!is_client_installed(&InstallProbe { executable_is_file: false, ..present() }));
}

#[test]
fn set_up_needs_all_three_directories() {
    assert!(is_fluster_setup(&ready()));
    assert!(!is_fluster_setup(&SetupProbe { data_dir_available: false, ..ready() }));
    assert!(!is_fluster_setup(&SetupProbe { root_exists: false, ..ready() }));
    assert!(!is_fluster_setup(&SetupProbe { root_is_dir: false, ..ready() }));
    assert!(!is_fluster_setup(&SetupProbe { versions_exists: false, ..ready() }));
    assert!(!is_fluster_setup(&SetupProbe { versions_is_dir: false, ..ready() }));
    assert!(!is_fluster_setup(&SetupProbe { downloads_exists: false, ..ready() }));
    assert!(!is_fluster_setup(&SetupProbe { downloads_is_dir: false, ..ready() }));
}

#[test]
fn archive_address() {
    assert_eq!(download_url("2016"), "https://cdn.simuldev.com/2016.zip");
    assert_eq!(download_url(""), "https://cdn.simuldev.com/.zip");
}

#[test]
fn install_error_messages() {
    let cases = [
        (InstallStage::VersionsDir, "Failed to get the versions directory: boom"),
        (InstallStage::DownloadsDir, "Failed to get the downloads directory: boom"),
        (InstallStage::Request, "Failed to contact with the Fluster Storage: boom"),
        (InstallStage::Body, "Failed to read the response body: boom"),
        (InstallStage::ArchiveCreate, "Failed to create the destination file: boom"),
        (InstallStage::ArchiveWrite, "Failed to write the version data to the file: boom"),
        (InstallStage::ArchiveOpen, "Failed to open the zip file: boom"),
        (InstallStage::ArchiveRead, "Failed to create the zip archive: boom"),
        (InstallStage::TargetDir, "Failed to create version directory: boom"),
        (InstallStage::Entry(3), "Failed to read the zip entry: boom"),
        (InstallStage::EntryDir(3), "Failed to create the directory: boom"),
        (InstallStage::EntryParent(3), "Failed to create the parent directory: boom"),
        (InstallStage::EntryFile(3), "Failed to create the file: boom"),
        (InstallStage::EntryCopy(3), "Failed to write the file: boom"),
        (InstallStage::Measure, "Failed to calculate directory size: boom"),
    ];
    for (stage, expected) in cases {
        let error = InstallError { failure: InstallFailure::Stage(stage), detail: "boom".to_string() };
        assert_eq!(error.message("2016"), expected);
    }
    let error = InstallError { failure: InstallFailure::NotAvailable, detail: "404 Not Found".to_string() };
    assert_eq!(error.message("2016"), "2016 was not available on the Fluster Storage");
    let error = InstallError {
        failure: InstallFailure::BadStatus,
        detail: "500 Internal Server Error".to_string(),
    };
    assert_eq!(
        error.message("2016"),
        "Failed to download 2016 for error code 500 Internal Server Error"
    );
    let error = InstallError { failure: InstallFailure::NotFoundAfterInstall, detail: String::new() };
    assert_eq!(
        error.message("2016"),
        "Installation failed: Client files not found after installation"
    );
}

#[test]
fn installed_version_is_not_fetched_again() {
    let (state, action) = install_start();
    assert_eq!(state, awaiting(InstallStage::VersionsDir, 0));
    assert_eq!(stage_of(&action), InstallStage::VersionsDir);
    let (state, action) = install_step(state, InstallEvent::Completed);
    assert_eq!(stage_of(&action), InstallStage::DownloadsDir);
    let (state, action) = install_step(state, InstallEvent::Completed);
    assert_eq!(stage_of(&action), InstallStage::InstalledCheck);
    let (state, action) = install_step(state, InstallEvent::Installed { installed: true });
    assert_eq!(state, InstallState::Succeeded);
    assert!(matches!(action, InstallAction::Succeed));
}

#[test]
fn full_installation_takes_every_step_in_order() {
    let mut events = vec![
        InstallEvent::Completed,
        InstallEvent::Completed,
        InstallEvent::Installed { installed: false },
        InstallEvent::Responded { status: 200, status_text: "200 OK".to_string(), has_length: true },
        InstallEvent::Completed,
        InstallEvent::Completed,
        InstallEvent::Completed,
        InstallEvent::Completed,
        InstallEvent::ArchiveRead { entries: 2 },
        InstallEvent::Completed,
        InstallEvent::EntryRead { is_dir: true },
        InstallEvent::Completed,
        InstallEvent::EntryRead { is_dir: false },
        InstallEvent::Completed,
        InstallEvent::Completed,
        InstallEvent::Completed,
        InstallEvent::Measured { bytes: 4_096 },
        InstallEvent::Completed,
        InstallEvent::Completed,
    ];
    let expected = vec![
        InstallStage::VersionsDir,
        InstallStage::DownloadsDir,
        InstallStage::InstalledCheck,
        InstallStage::Request,
        InstallStage::Body,
        InstallStage::ArchiveCreate,
        InstallStage::ArchiveWrite,
        InstallStage::ArchiveOpen,
        InstallStage::ArchiveRead,
        InstallStage::TargetDir,
        InstallStage::Entry(0),
        InstallStage::EntryDir(0),
        InstallStage::Entry(1),
        InstallStage::EntryParent(1),
        InstallStage::EntryFile(1),
        InstallStage::EntryCopy(1),
        InstallStage::Measure,
        InstallStage::Record(4_096),
        InstallStage::Cleanup,
        InstallStage::FinalCheck,
    ];
    let (mut state, action) = install_start();
    let mut stages = vec![stage_of(&action)];
    for event in events.drain(..) {
        let (next, action) = install_step(state, event);
        state = next;
        stages.push(stage_of(&action));
    }
    assert_eq!(stages, expected);
    let (state, action) = install_step(state, InstallEvent::Installed { installed: true });
    assert_eq!(state, InstallState::Succeeded);
    assert!(matches!(action, InstallAction::Succeed));
}

#[test]
fn empty_archive_goes_straight_to_measuring() {
    let (state, action) =
        install_step(awaiting(InstallStage::ArchiveRead, 0), InstallEvent::ArchiveRead { entries: 0 });
    assert_eq!(stage_of(&action), InstallStage::TargetDir);
    let (_, action) = install_step(state, InstallEvent::Completed);
    assert_eq!(stage_of(&action), InstallStage::Measure);
}

#[test]
fn storage_answers_are_told_apart() {
    let request = awaiting(InstallStage::Request, 0);
    let (state, action) = install_step(
        request,
        InstallEvent::Responded { status: 404, status_text: "404 Not Found".to_string(), has_length: true },
    );
    assert_eq!(state, InstallState::Failed);
    assert_eq!(error_of(action).message("2016"), "2016 was not available on the Fluster Storage");

    let (state, action) = install_step(
        request,
        InstallEvent::Responded { status: 503, status_text: "503 Service Unavailable".to_string(), has_length: true },
    );
    assert_eq!(state, InstallState::Failed);
    assert_eq!(
        error_of(action).message("2016"),
        "Failed to download 2016 for error code 503 Service Unavailable"
    );

    let (state, action) = install_step(
        request,
        InstallEvent::Responded { status: 200, status_text: "200 OK".to_string(), has_length: false },
    );
    assert_eq!(state, InstallState::Failed);
    assert_eq!(error_of(action).message("2016"), "Failed to download 2016 for error code 200 OK");

    let (state, action) = install_step(request, failed("dns"));
    assert_eq!(state, InstallState::Failed);
    assert_eq!(
        error_of(action).message("2016"),
        "Failed to contact with the Fluster Storage: dns"
    );
}

#[test]
fn failure_of_a_step_ends_the_installation() {
    for stage in [
        InstallStage::VersionsDir,
        InstallStage::DownloadsDir,
        InstallStage::Body,
        InstallStage::ArchiveCreate,
        InstallStage::ArchiveWrite,
        InstallStage::ArchiveOpen,
        InstallStage::ArchiveRead,
        InstallStage::TargetDir,
        InstallStage::Entry(0),
        InstallStage::EntryDir(0),
        InstallStage::EntryParent(0),
        InstallStage::EntryFile(0),
        InstallStage::EntryCopy(0),
        InstallStage::Measure,
    ] {
        let (state, action) = install_step(awaiting(stage, 1), failed("disk"));
        assert_eq!(state, InstallState::Failed);
        let error = error_of(action);
        assert_eq!(error.failure, InstallFailure::Stage(stage));
        assert_eq!(error.detail, "disk");
    }
}

#[test]
fn leftover_archive_and_unsaved_size_do_not_undo_an_installation() {
    let (state, action) = install_step(awaiting(InstallStage::Record(9), 1), failed("disk"));
    assert_eq!(state, awaiting(InstallStage::Cleanup, 1));
    assert_eq!(stage_of(&action), InstallStage::Cleanup);
    let (state, action) = install_step(state, failed("busy"));
    assert_eq!(state, awaiting(InstallStage::FinalCheck, 1));
    assert_eq!(stage_of(&action), InstallStage::FinalCheck);
}

#[test]
fn client_missing_after_all_steps_is_a_failure() {
    let (state, action) =
        install_step(awaiting(InstallStage::FinalCheck, 3), InstallEvent::Installed { installed: false });
    assert_eq!(state, InstallState::Failed);
    assert_eq!(
        error_of(action).message("2016"),
        "Installation failed: Client files not found after installation"
    );
}

#[test]
fn last_entry_index_does_not_overflow() {
    let (state, action) =
        install_step(awaiting(InstallStage::EntryCopy(usize::MAX), usize::MAX), InstallEvent::Completed);
    assert_eq!(state, awaiting(InstallStage::Measure, usize::MAX));
    assert_eq!(stage_of(&action), InstallStage::Measure);
    let (_, action) =
        install_step(awaiting(InstallStage::EntryCopy(usize::MAX - 2), usize::MAX), InstallEvent::Completed);
    assert_eq!(stage_of(&action), InstallStage::Entry(usize::MAX - 1));
}

#[test]
fn finished_installation_asks_for_nothing() {
    for state in [InstallState::Succeeded, InstallState::Failed] {
        let (next, action) = install_step(state, InstallEvent::Completed);
        assert_eq!(next, state);
        assert!(matches!(action, InstallAction::Idle));
    }
    let (next, action) =
        install_step(awaiting(InstallStage::Request, 0), InstallEvent::Completed);
    assert_eq!(next, awaiting(InstallStage::Request, 0));
    assert!(matches!(action, InstallAction::Idle));
}

#[test]
fn uninstall_messages() {
    assert_eq!(
        uninstall_message("2016", &UninstallOutcome::NotInstalled),
        Ok("2016 is not installed".to_string())
    );
    assert_eq!(
        uninstall_message("2016", &UninstallOutcome::Removed),
        Ok("2016 was uninstalled from the device".to_string())
    );
    assert_eq!(
        uninstall_message("2016", &UninstallOutcome::RemoveFailed("busy".to_string())),
        Err("Failed to remove the version directory for busy".to_string())
    );
    assert_eq!(
        uninstall_message("2016", &UninstallOutcome::NoVersionsDir("none".to_string())),
        Err("Failed to get the versions directory: none".to_string())
    );
}
