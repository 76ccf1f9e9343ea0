use fluster_session::session::{
    client_executable, host_script_text, join_script_text, launch_command, session_start,
    session_step, SessionAction, SessionError, SessionEvent, SessionRequest, SessionState,
};

fn host() -> SessionRequest {
    SessionRequest::Host { version: "abc".to_string(), game_file: "/path/to/game.dat".to_string() }
}

fn join() -> SessionRequest {
    SessionRequest::Join {
        version: "2016".to_string(),
        server_ip: "192.168.1.20".to_string(),
        server_port: 53_124,
        user_id: 77,
    }
}

fn play() -> SessionRequest {
    SessionRequest::Play { version: "2016".to_string() }
}

fn failure(action: SessionAction) -> (String, bool) {
    match action {
        SessionAction::Fail { error, stop_server } => (error.message(), stop_server),
        other => panic!("expected a failure, got {:?}", other),
    }
}

fn drive(request: &SessionRequest, events: Vec<SessionEvent>) -> (SessionState, Vec<SessionAction>) {
    let (mut state, first) = session_start();
    let mut actions = vec![first];
    for event in events {
        let (next, action) = session_step(state, event, request);
        state = next;
        actions.push(action);
    }
    (state, actions)
}

fn brings_up(action: &SessionAction) -> bool {
    matches!(action, SessionAction::StartServer | SessionAction::Launch(_) | SessionAction::Watch)
}

#[test]
fn error_messages() {
    assert_eq!(SessionError::VersionsDirUnavailable.message(), "Failed to get the versions directory.");
    assert_eq!(SessionError::ClientNotInstalled.message(), "Client is not installed.");
    assert_eq!(SessionError::GameFileMissing.message(), "Game file does not exist.");
    assert_eq!(
        SessionError::ServerStartFailed("address in use".to_string()).message(),
        "Failed to start the server: address in use"
    );
    assert_eq!(SessionError::ServerLaunchFailed.message(), "Failed to launch the server.");
    assert_eq!(SessionError::ClientLaunchFailed.message(), "Failed to launch the client.");
}

#[test]
fn scripts_carry_the_connection_parameters() {
    assert_eq!(client_executable(), "Roblox.exe");
    assert_eq!(
        host_script_text(53_124),
        "loadfile('http://www.fluster.is/game/gameserver.ashx')(0, 53124)"
    );
    assert_eq!(
        join_script_text("192.168.1.20", 53_124, 77),
        "http://www.fluster.is/game/join.ashx?UserID=77&serverPort=53124&serverIP=192.168.1.20"
    );
    assert_eq!(
        join_script_text("", 0, 0),
        "http://www.fluster.is/game/join.ashx?UserID=0&serverPort=0&serverIP="
    );
}

#[test]
fn launch_commands() {
    let command = launch_command(&host(), 40_001);
    assert_eq!(command.version, "abc");
    assert_eq!(
        command.arguments,
        vec![
            "/path/to/game.dat",
            "-no3d",
            "-script",
            "loadfile('http://www.fluster.is/game/gameserver.ashx')(0, 40001)"
        ]
    );
    let command = launch_command(&join(), 0);
    assert_eq!(command.version, "2016");
    assert_eq!(
        command.arguments,
        vec![
            "-script",
            "http://www.fluster.is/game/join.ashx?UserID=77&serverPort=53124&serverIP=192.168.1.20"
        ]
    );
    let command = launch_command(&play(), 0);
    assert_eq!(command.version, "2016");
    assert!(command.arguments.is_empty());
}

#[test]
fn session_begins_by_resolving_the_versions_directory() {
    let (state, action) = session_start();
    assert_eq!(state, SessionState::ResolvingVersions);
    assert!(matches!(action, SessionAction::ResolveVersionsDir));
}

#[test]
fn missing_versions_directory_fails_the_session() {
    let (state, mut actions) =
        drive(&host(), vec![SessionEvent::VersionsDirResolved { available: false }]);
    assert_eq!(state, SessionState::Failed);
    assert_eq!(
        failure(actions.pop().unwrap()),
        ("Failed to get the versions directory.".to_string(), false)
    );
}

#[test]
fn hosting_a_version_that_is_not_installed_starts_nothing() {
    let (state, mut actions) = drive(
        &host(),
        vec![
            SessionEvent::VersionsDirResolved { available: true },
            SessionEvent::InstallChecked { installed: false },
            SessionEvent::GameFileChecked { exists: true, is_file: true },
            SessionEvent::ServerStarted { port: 40_000 },
            SessionEvent::Launched { spawned: true },
            SessionEvent::ProcessExited,
        ],
    );
    assert_eq!(state, SessionState::Failed);
    assert!(actions.iter().all(|action| !brings_up(action)));
    assert!(actions.iter().all(|action| !matches!(action, SessionAction::StopServer)));
    let later: Vec<SessionAction> = actions.drain(3..).collect();
    assert_eq!(later.len(), 4);
    assert!(later.iter().all(|action| matches!(action, SessionAction::Idle)));
    assert_eq!(failure(actions.pop().unwrap()), ("Client is not installed.".to_string(), false));
}

#[test]
fn hosting_a_missing_game_file_fails_before_the_server_starts() {
    for (exists, is_file) in [(false, false), (true, false), (false, true)] {
        let (state, mut actions) = drive(
            &host(),
            vec![
                SessionEvent::VersionsDirResolved { available: true },
                SessionEvent::InstallChecked { installed: true },
                SessionEvent::GameFileChecked { exists, is_file },
            ],
        );
        assert_eq!(state, SessionState::Failed);
        assert!(actions.iter().all(|action| !brings_up(action)));
        assert_eq!(failure(actions.pop().unwrap()), ("Game file does not exist.".to_string(), false));
    }
}

#[test]
fn hosting_fails_when_the_server_cannot_start() {
    let (state, mut actions) = drive(
        &host(),
        vec![
            SessionEvent::VersionsDirResolved { available: true },
            SessionEvent::InstallChecked { installed: true },
            SessionEvent::GameFileChecked { exists: true, is_file: true },
            SessionEvent::ServerFailed { reason: "no network".to_string() },
        ],
    );
    assert_eq!(state, SessionState::Failed);
    assert!(actions.iter().all(|action| !matches!(action, SessionAction::Launch(_))));
    assert_eq!(
        failure(actions.pop().unwrap()),
        ("Failed to start the server: no network".to_string(), false)
    );
}

#[test]
fn hosting_runs_through_all_steps() {
    let (state, actions) = drive(
        &host(),
        vec![
            SessionEvent::VersionsDirResolved { available: true },
            SessionEvent::InstallChecked { installed: true },
            SessionEvent::GameFileChecked { exists: true, is_file: true },
            SessionEvent::ServerStarted { port: 49_731 },
            SessionEvent::Launched { spawned: true },
            SessionEvent::ProcessExited,
        ],
    );
    assert_eq!(state, SessionState::Closed);
    assert_eq!(actions.len(), 7);
    assert!(matches!(actions[0], SessionAction::ResolveVersionsDir));
    assert!(matches!(actions[1], SessionAction::CheckInstalled));
    assert!(matches!(actions[2], SessionAction::CheckGameFile));
    assert!(matches!(actions[3], SessionAction::StartServer));
    match &actions[4] {
        SessionAction::Launch(command) => {
            assert_eq!(command.version, "abc");
            assert_eq!(
                command.arguments,
                vec![
                    "/path/to/game.dat",
                    "-no3d",
                    "-script",
                    "loadfile('http://www.fluster.is/game/gameserver.ashx')(0, 49731)"
                ]
            );
        }
        other => panic!("expected a launch, got {:?}", other),
    }
    assert!(matches!(actions[5], SessionAction::Watch));
    assert!(matches!(actions[6], SessionAction::StopServer));
}

#[test]
fn failed_host_launch_stops_the_server() {
    let (state, mut actions) = drive(
        &host(),
        vec![
            SessionEvent::VersionsDirResolved { available: true },
            SessionEvent::InstallChecked { installed: true },
            SessionEvent::GameFileChecked { exists: true, is_file: true },
            SessionEvent::ServerStarted { port: 49_731 },
            SessionEvent::Launched { spawned: false },
        ],
    );
    assert_eq!(state, SessionState::Failed);
    assert!(actions.iter().all(|action| !matches!(action, SessionAction::Watch)));
    assert_eq!(failure(actions.pop().unwrap()), ("Failed to launch the server.".to_string(), true));
}

#[test]
fn joining_launches_with_the_join_script_and_is_watched() {
    let (state, actions) = drive(
        &join(),
        vec![
            SessionEvent::VersionsDirResolved { available: true },
            SessionEvent::InstallChecked { installed: true },
            SessionEvent::Launched { spawned: true },
        ],
    );
    assert_eq!(state, SessionState::Running);
    assert!(actions.iter().all(|action| !matches!(action, SessionAction::StartServer)));
    match &actions[2] {
        SessionAction::Launch(command) => {
            assert_eq!(command.version, "2016");
            assert_eq!(
                command.arguments,
                vec![
                    "-script",
                    "http://www.fluster.is/game/join.ashx?UserID=77&serverPort=53124&serverIP=192.168.1.20"
                ]
            );
        }
        other => panic!("expected a launch, got {:?}", other),
    }
    assert!(matches!(actions[3], SessionAction::Watch));
}

#[test]
fn joining_a_version_that_is_not_installed_fails() {
    let (state, mut actions) = drive(
        &join(),
        vec![
            SessionEvent::VersionsDirResolved { available: true },
            SessionEvent::InstallChecked { installed: false },
        ],
    );
    assert_eq!(state, SessionState::Failed);
    assert!(actions.iter().all(|action| !brings_up(action)));
    assert_eq!(failure(actions.pop().unwrap()), ("Client is not installed.".to_string(), false));
}

#[test]
fn failed_client_launch_is_reported_and_not_watched() {
    for request in [join(), play()] {
        let (state, mut actions) = drive(
            &request,
            vec![
                SessionEvent::VersionsDirResolved { available: true },
                SessionEvent::InstallChecked { installed: true },
                SessionEvent::Launched { spawned: false },
            ],
        );
        assert_eq!(state, SessionState::Failed);
        assert!(actions.iter().all(|action| !matches!(action, SessionAction::Watch)));
        assert_eq!(
            failure(actions.pop().unwrap()),
            ("Failed to launch the client.".to_string(), false)
        );
    }
}

#[test]
fn playing_launches_without_arguments() {
    let (state, actions) = drive(
        &play(),
        vec![
            SessionEvent::VersionsDirResolved { available: true },
            SessionEvent::InstallChecked { installed: true },
            SessionEvent::Launched { spawned: true },
            SessionEvent::ProcessExited,
        ],
    );
    assert_eq!(state, SessionState::Closed);
    match &actions[2] {
        SessionAction::Launch(command) => assert!(command.arguments.is_empty()),
        other => panic!("expected a launch, got {:?}", other),
    }
    assert!(matches!(actions[3], SessionAction::Watch));
    assert!(matches!(actions[4], SessionAction::Idle));
}

#[test]
fn events_out_of_turn_change_nothing() {
    let (state, action) =
        session_step(SessionState::CheckingInstall, SessionEvent::Launched { spawned: true }, &host());
    assert_eq!(state, SessionState::CheckingInstall);
    assert!(matches!(action, SessionAction::Idle));
    let (state, action) =
        session_step(SessionState::Closed, SessionEvent::ProcessExited, &host());
    assert_eq!(state, SessionState::Closed);
    assert!(matches!(action, SessionAction::Idle));
}
