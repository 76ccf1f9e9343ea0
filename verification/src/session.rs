//! The session lifecycle: what is checked before a game process is launched
//! to host, to join or to play, what it is launched with, and what follows its
//! launch and its end.

use vstd::prelude::*;
use vstd::string::*;

use crate::text::{decimal_digits, decimal_text};

verus! {

/// Why a session could not be brought up.
#[derive(Debug)]
pub enum SessionError {
    /// The directory that holds the installed versions could not be had.
    VersionsDirUnavailable,
    /// The version asked for is not installed.
    ClientNotInstalled,
    /// The game file to host is not there or is not a regular file.
    GameFileMissing,
    /// The discovery server could not be started; the reason is attached.
    ServerStartFailed(String),
    /// The hosting process could not be launched.
    ServerLaunchFailed,
    /// The client process could not be launched.
    ClientLaunchFailed,
}

/// A `SessionError` with its attached reason as a sequence of characters.
pub enum SessionErrorView {
    VersionsDirUnavailable,
    ClientNotInstalled,
    GameFileMissing,
    ServerStartFailed(Seq<char>),
    ServerLaunchFailed,
    ClientLaunchFailed,
}

impl View for SessionError {
    type V = SessionErrorView;

    open spec fn view(&self) -> SessionErrorView {
        match self {
            SessionError::VersionsDirUnavailable => SessionErrorView::VersionsDirUnavailable,
            SessionError::ClientNotInstalled => SessionErrorView::ClientNotInstalled,
            SessionError::GameFileMissing => SessionErrorView::GameFileMissing,
            SessionError::ServerStartFailed(reason) => SessionErrorView::ServerStartFailed(reason@),
            SessionError::ServerLaunchFailed => SessionErrorView::ServerLaunchFailed,
            SessionError::ClientLaunchFailed => SessionErrorView::ClientLaunchFailed,
        }
    }
}

/// The sentence that reports an error to the user.
pub open spec fn error_text(error: SessionErrorView) -> Seq<char> {
    match error {
        SessionErrorView::VersionsDirUnavailable => "Failed to get the versions directory."@,
        SessionErrorView::ClientNotInstalled => "Client is not installed."@,
        SessionErrorView::GameFileMissing => "Game file does not exist."@,
        SessionErrorView::ServerStartFailed(reason) => "Failed to start the server: "@ + reason,
        SessionErrorView::ServerLaunchFailed => "Failed to launch the server."@,
        SessionErrorView::ClientLaunchFailed => "Failed to launch the client."@,
    }
}

impl SessionError {
    /// The sentence that reports this error to the user.
    pub fn message(&self) -> (text: String)
        ensures
            text@ == error_text(self@),
    {
        match self {
            SessionError::VersionsDirUnavailable => String::from_str(
                "Failed to get the versions directory.",
            ),
            SessionError::ClientNotInstalled => String::from_str("Client is not installed."),
            SessionError::GameFileMissing => String::from_str("Game file does not exist."),
            SessionError::ServerStartFailed(reason) => {
                let mut text = String::from_str("Failed to start the server: ");
                text.append(reason.as_str());
                text
            },
            SessionError::ServerLaunchFailed => String::from_str("Failed to launch the server."),
            SessionError::ClientLaunchFailed => String::from_str("Failed to launch the client."),
        }
    }
}

/// What a session is asked to be.
#[derive(Debug)]
pub enum SessionRequest {
    /// Host the game file for others on the network.
    Host { version: String, game_file: String },
    /// Join the session that a host runs at `server_ip` and `server_port`.
    Join { version: String, server_ip: String, server_port: u16, user_id: usize },
    /// Run the client by itself.
    Play { version: String },
}

/// The file name of the game executable inside a version's directory.
pub fn client_executable() -> (name: &'static str)
    ensures
        name@ == "Roblox.exe"@,
{
    "Roblox.exe"
}

/// The script that makes a hosting process serve on `port`.
pub open spec fn host_script(port: u16) -> Seq<char> {
    "loadfile('http://www.fluster.is/game/gameserver.ashx')(0, "@ + decimal_digits(port as nat)
        + ")"@
}

/// The address of the script that makes a client join a host.
pub open spec fn join_script(server_ip: Seq<char>, server_port: u16, user_id: usize) -> Seq<char> {
    "http://www.fluster.is/game/join.ashx?UserID="@ + decimal_digits(user_id as nat)
        + "&serverPort="@ + decimal_digits(server_port as nat) + "&serverIP="@ + server_ip
}

/// The arguments that the game executable is launched with; `port` is the
/// port of the discovery server, which only a host has.
pub open spec fn launch_arguments(request: SessionRequest, port: u16) -> Seq<Seq<char>> {
    match request {
        SessionRequest::Host { version, game_file } => seq![
            game_file@,
            "-no3d"@,
            "-script"@,
            host_script(port),
        ],
        SessionRequest::Join { version, server_ip, server_port, user_id } => seq![
            "-script"@,
            join_script(server_ip@, server_port, user_id),
        ],
        SessionRequest::Play { version } => Seq::<Seq<char>>::empty(),
    }
}

/// The version that a request is about.
pub open spec fn requested_version(request: SessionRequest) -> Seq<char> {
    match request {
        SessionRequest::Host { version, game_file } => version@,
        SessionRequest::Join { version, server_ip, server_port, user_id } => version@,
        SessionRequest::Play { version } => version@,
    }
}

/// A process to launch: the game executable of `version` with `arguments`.
#[derive(Debug)]
pub struct LaunchCommand {
    pub version: String,
    pub arguments: Vec<String>,
}

/// A `LaunchCommand` with its texts as sequences of characters.
pub struct LaunchCommandView {
    pub version: Seq<char>,
    pub arguments: Seq<Seq<char>>,
}

impl View for LaunchCommand {
    type V = LaunchCommandView;

    open spec fn view(&self) -> LaunchCommandView {
        LaunchCommandView {
            version: self.version@,
            arguments: Seq::new(self.arguments@.len(), |i: int| self.arguments@[i]@),
        }
    }
}

/// Writes the script that makes a hosting process serve on `port`.
pub fn host_script_text(port: u16) -> (text: String)
    ensures
        text@ == host_script(port),
{
    let mut text = String::from_str("loadfile('http://www.fluster.is/game/gameserver.ashx')(0, ");
    text.append(decimal_text(port as u64).as_str());
    text.append(")");
    text
}

/// Writes the address of the script that makes a client join a host.
pub fn join_script_text(server_ip: &str, server_port: u16, user_id: usize) -> (text: String)
    ensures
        text@ == join_script(server_ip@, server_port, user_id),
{
    let mut text = String::from_str("http://www.fluster.is/game/join.ashx?UserID=");
    text.append(decimal_text(user_id as u64).as_str());
    text.append("&serverPort=");
    text.append(decimal_text(server_port as u64).as_str());
    text.append("&serverIP=");
    text.append(server_ip);
    assert(text@ =~= join_script(server_ip@, server_port, user_id));
    text
}

/// The process to launch for `request`; `port` is the port of the discovery
/// server, which only a host has.
pub fn launch_command(request: &SessionRequest, port: u16) -> (command: LaunchCommand)
    ensures
        command@.version == requested_version(*request),
        command@.arguments == launch_arguments(*request, port),
{
    let mut arguments: Vec<String> = Vec::new();
    match request {
        SessionRequest::Host { version, game_file } => {
            arguments.push(game_file.clone());
            arguments.push(String::from_str("-no3d"));
            arguments.push(String::from_str("-script"));
            arguments.push(host_script_text(port));
            let command = LaunchCommand { version: version.clone(), arguments };
            assert(command@.arguments =~= launch_arguments(*request, port));
            command
        },
        SessionRequest::Join { version, server_ip, server_port, user_id } => {
            arguments.push(String::from_str("-script"));
            arguments.push(join_script_text(server_ip.as_str(), *server_port, *user_id));
            let command = LaunchCommand { version: version.clone(), arguments };
            assert(command@.arguments =~= launch_arguments(*request, port));
            command
        },
        SessionRequest::Play { version } => {
            let command = LaunchCommand { version: version.clone(), arguments };
            assert(command@.arguments =~= launch_arguments(*request, port));
            command
        },
    }
}

/// Where the bringing up of a session stands.
#[derive(Clone, Copy, Debug, PartialEq, Eq)]
pub enum SessionState {
    /// The directory of the installed versions is being looked up.
    ResolvingVersions,
    /// The installation of the version is being checked.
    CheckingInstall,
    /// The game file to host is being checked.
    CheckingGameFile,
    /// The discovery server is being started.
    StartingServer,
    /// The game process is being launched.
    Launching,
    /// The game process runs.
    Running,
    /// The game process has ended.
    Closed,
    /// The session was not brought up.
    Failed,
}

/// What the controller is told.
#[derive(Debug)]
pub enum SessionEvent {
    /// The directory of the installed versions was looked up.
    VersionsDirResolved { available: bool },
    /// The installation of the version was checked.
    InstallChecked { installed: bool },
    /// The game file was looked at.
    GameFileChecked { exists: bool, is_file: bool },
    /// The discovery server is up and accepts connections on `port`.
    ServerStarted { port: u16 },
    /// The discovery server could not be started.
    ServerFailed { reason: String },
    /// The launch was tried; `spawned` says whether the process came up.
    Launched { spawned: bool },
    /// The game process has ended.
    ProcessExited,
}

/// What the controller asks for next.
#[derive(Debug)]
pub enum SessionAction {
    /// Look up the directory of the installed versions, then report
    /// `VersionsDirResolved`.
    ResolveVersionsDir,
    /// Check that the version is installed, then report `InstallChecked`.
    CheckInstalled,
    /// Look at the game file, then report `GameFileChecked`.
    CheckGameFile,
    /// Start the discovery server on a port that the system picks, then
    /// report `ServerStarted` or `ServerFailed`.
    StartServer,
    /// Launch this process, then report `Launched`.
    Launch(LaunchCommand),
    /// The session is up: tell the caller, record its start in the registry,
    /// start a process monitor for the version, and report `ProcessExited`
    /// when the process ends.
    Watch,
    /// Stop the discovery server.
    StopServer,
    /// Give up and tell the caller why; stop the discovery server first
    /// where `stop_server` holds.
    Fail { error: SessionError, stop_server: bool },
    /// Nothing: the event does not belong to this state.
    Idle,
}

/// A `SessionAction` with its texts as sequences of characters.
pub enum SessionActionView {
    ResolveVersionsDir,
    CheckInstalled,
    CheckGameFile,
    StartServer,
    Launch(LaunchCommandView),
    Watch,
    StopServer,
    Fail { error: SessionErrorView, stop_server: bool },
    Idle,
}

impl View for SessionAction {
    type V = SessionActionView;

    open spec fn view(&self) -> SessionActionView {
        match self {
            SessionAction::ResolveVersionsDir => SessionActionView::ResolveVersionsDir,
            SessionAction::CheckInstalled => SessionActionView::CheckInstalled,
            SessionAction::CheckGameFile => SessionActionView::CheckGameFile,
            SessionAction::StartServer => SessionActionView::StartServer,
            SessionAction::Launch(command) => SessionActionView::Launch(command@),
            SessionAction::Watch => SessionActionView::Watch,
            SessionAction::StopServer => SessionActionView::StopServer,
            SessionAction::Fail { error, stop_server } => SessionActionView::Fail {
                error: error@,
                stop_server: *stop_server,
            },
            SessionAction::Idle => SessionActionView::Idle,
        }
    }
}

/// The process that `request` launches once `port` is known.
pub open spec fn command_for(request: SessionRequest, port: u16) -> LaunchCommandView {
    LaunchCommandView {
        version: requested_version(request),
        arguments: launch_arguments(request, port),
    }
}

/// The error of a launch that did not come up.
pub open spec fn launch_error(request: SessionRequest) -> SessionErrorView {
    if request is Host {
        SessionErrorView::ServerLaunchFailed
    } else {
        SessionErrorView::ClientLaunchFailed
    }
}

/// The state that follows `state` on `event`, and what is asked for, while
/// `request` is brought up.
pub open spec fn session_next(state: SessionState, event: SessionEvent, request: SessionRequest) -> (
    SessionState,
    SessionActionView,
) {
    match (state, event) {
        (SessionState::ResolvingVersions, SessionEvent::VersionsDirResolved { available }) => {
            if available {
                (SessionState::CheckingInstall, SessionActionView::CheckInstalled)
            } else {
                (
                    SessionState::Failed,
                    SessionActionView::Fail {
                        error: SessionErrorView::VersionsDirUnavailable,
                        stop_server: false,
                    },
                )
            }
        },
        (SessionState::CheckingInstall, SessionEvent::InstallChecked { installed }) => {
            if !installed {
                (
                    SessionState::Failed,
                    SessionActionView::Fail {
                        error: SessionErrorView::ClientNotInstalled,
                        stop_server: false,
                    },
                )
            } else if request is Host {
                (SessionState::CheckingGameFile, SessionActionView::CheckGameFile)
            } else {
                (SessionState::Launching, SessionActionView::Launch(command_for(request, 0)))
            }
        },
        (SessionState::CheckingGameFile, SessionEvent::GameFileChecked { exists, is_file }) => {
            if exists && is_file {
                (SessionState::StartingServer, SessionActionView::StartServer)
            } else {
                (
                    SessionState::Failed,
                    SessionActionView::Fail {
                        error: SessionErrorView::GameFileMissing,
                        stop_server: false,
                    },
                )
            }
        },
        (SessionState::StartingServer, SessionEvent::ServerStarted { port }) => (
            SessionState::Launching,
            SessionActionView::Launch(command_for(request, port)),
        ),
        (SessionState::StartingServer, SessionEvent::ServerFailed { reason }) => (
            SessionState::Failed,
            SessionActionView::Fail {
                error: SessionErrorView::ServerStartFailed(reason@),
                stop_server: false,
            },
        ),
        (SessionState::Launching, SessionEvent::Launched { spawned }) => {
            if spawned {
                (SessionState::Running, SessionActionView::Watch)
            } else {
                (
                    SessionState::Failed,
                    SessionActionView::Fail {
                        error: launch_error(request),
                        stop_server: request is Host,
                    },
                )
            }
        },
        (SessionState::Running, SessionEvent::ProcessExited) => (
            SessionState::Closed,
            if request is Host {
                SessionActionView::StopServer
            } else {
                SessionActionView::Idle
            },
        ),
        _ => (state, SessionActionView::Idle),
    }
}

/// Begins to bring a session up: the directory of the installed versions is
/// looked up first.
pub fn session_start() -> (begin: (SessionState, SessionAction))
    ensures
        begin.0 == SessionState::ResolvingVersions,
        begin.1@ == SessionActionView::ResolveVersionsDir,
{
    (SessionState::ResolvingVersions, SessionAction::ResolveVersionsDir)
}

/// Whether a request is to host.
fn is_host(request: &SessionRequest) -> (host: bool)
    ensures
        host == (*request is Host),
{
    match request {
        SessionRequest::Host { .. } => true,
        _ => false,
    }
}

/// Takes one event: gives the next state and what to do next.
pub fn session_step(state: SessionState, event: SessionEvent, request: &SessionRequest) -> (next: (
    SessionState,
    SessionAction,
))
    ensures
        (next.0, next.1@) == session_next(state, event, *request),
{
    match state {
        SessionState::ResolvingVersions => match event {
            SessionEvent::VersionsDirResolved { available } => {
                if available {
                    (SessionState::CheckingInstall, SessionAction::CheckInstalled)
                } else {
                    (
                        SessionState::Failed,
                        SessionAction::Fail {
                            error: SessionError::VersionsDirUnavailable,
                            stop_server: false,
                        },
                    )
                }
            },
            _ => (state, SessionAction::Idle),
        },
        SessionState::CheckingInstall => match event {
            SessionEvent::InstallChecked { installed } => {
                if !installed {
                    (
                        SessionState::Failed,
                        SessionAction::Fail {
                            error: SessionError::ClientNotInstalled,
                            stop_server: false,
                        },
                    )
                } else if is_host(request) {
                    (SessionState::CheckingGameFile, SessionAction::CheckGameFile)
                } else {
                    (SessionState::Launching, SessionAction::Launch(launch_command(request, 0)))
                }
            },
            _ => (state, SessionAction::Idle),
        },
        SessionState::CheckingGameFile => match event {
            SessionEvent::GameFileChecked { exists, is_file } => {
                if exists && is_file {
                    (SessionState::StartingServer, SessionAction::StartServer)
                } else {
                    (
                        SessionState::Failed,
                        SessionAction::Fail {
                            error: SessionError::GameFileMissing,
                            stop_server: false,
                        },
                    )
                }
            },
            _ => (state, SessionAction::Idle),
        },
        SessionState::StartingServer => match event {
            SessionEvent::ServerStarted { port } => (
                SessionState::Launching,
                SessionAction::Launch(launch_command(request, port)),
            ),
            SessionEvent::ServerFailed { reason } => (
                SessionState::Failed,
                SessionAction::Fail {
                    error: SessionError::ServerStartFailed(reason),
                    stop_server: false,
                },
            ),
            _ => (state, SessionAction::Idle),
        },
        SessionState::Launching => match event {
            SessionEvent::Launched { spawned } => {
                if spawned {
                    (SessionState::Running, SessionAction::Watch)
                } else if is_host(request) {
                    (
                        SessionState::Failed,
                        SessionAction::Fail {
                            error: SessionError::ServerLaunchFailed,
                            stop_server: true,
                        },
                    )
                } else {
                    (
                        SessionState::Failed,
                        SessionAction::Fail {
                            error: SessionError::ClientLaunchFailed,
                            stop_server: false,
                        },
                    )
                }
            },
            _ => (state, SessionAction::Idle),
        },
        SessionState::Running => match event {
            SessionEvent::ProcessExited => {
                if is_host(request) {
                    (SessionState::Closed, SessionAction::StopServer)
                } else {
                    (SessionState::Closed, SessionAction::Idle)
                }
            },
            _ => (state, SessionAction::Idle),
        },
        SessionState::Closed => (state, SessionAction::Idle),
        SessionState::Failed => (state, SessionAction::Idle),
    }
}

/// Whether an action brings something up: the discovery server, the game
/// process, or the monitor that watches it.
pub open spec fn brings_up(action: SessionActionView) -> bool {
    action is StartServer || action is Launch || action is Watch
}

/// How many of the actions asked for while `events` are taken bring
/// something up.
pub open spec fn things_brought_up(
    state: SessionState,
    events: Seq<SessionEvent>,
    request: SessionRequest,
) -> nat
    decreases events.len(),
{
    if events.len() == 0 {
        0
    } else {
        let (next, action) = session_next(state, events.first(), request);
        let now: nat = if brings_up(action) {
            1
        } else {
            0
        };
        now + things_brought_up(next, events.drop_first(), request)
    }
}

/// Whether `events` hold the report that the version is installed.
pub open spec fn install_confirmed(events: Seq<SessionEvent>) -> bool {
    exists|i: int|
        0 <= i < events.len() && #[trigger] events[i] == (SessionEvent::InstallChecked {
            installed: true,
        })
}

/// A session that failed or ended brings nothing up any more, whatever the
/// controller is told.
pub proof fn lemma_nothing_follows_the_end(
    state: SessionState,
    events: Seq<SessionEvent>,
    request: SessionRequest,
)
    requires
        state == SessionState::Failed || state == SessionState::Closed,
    ensures
        things_brought_up(state, events, request) == 0,
    decreases events.len(),
{
    if events.len() > 0 {
        lemma_nothing_follows_the_end(state, events.drop_first(), request);
    }
}

/// Where the version is found not installed, the caller gets that error and
/// neither a discovery server nor a process nor a monitor is started, then or
/// later.
pub proof fn lemma_missing_install_starts_nothing(
    later: Seq<SessionEvent>,
    request: SessionRequest,
)
    ensures
        session_next(
            SessionState::CheckingInstall,
            SessionEvent::InstallChecked { installed: false },
            request,
        ) == (
            SessionState::Failed,
            SessionActionView::Fail {
                error: SessionErrorView::ClientNotInstalled,
                stop_server: false,
            },
        ),
        things_brought_up(
            SessionState::CheckingInstall,
            seq![SessionEvent::InstallChecked { installed: false }] + later,
            request,
        ) == 0,
{
    let events = seq![SessionEvent::InstallChecked { installed: false }] + later;
    assert(events.first() == (SessionEvent::InstallChecked { installed: false }));
    assert(events.drop_first() =~= later);
    lemma_nothing_follows_the_end(SessionState::Failed, later, request);
}

/// From the beginning of a session, nothing is brought up unless the version
/// was reported installed.
pub proof fn lemma_nothing_starts_before_install_is_confirmed(
    state: SessionState,
    events: Seq<SessionEvent>,
    request: SessionRequest,
)
    requires
        state == SessionState::ResolvingVersions || state == SessionState::CheckingInstall,
        things_brought_up(state, events, request) > 0,
    ensures
        install_confirmed(events),
    decreases events.len(),
{
    if events.len() > 0 {
        let (next, action) = session_next(state, events.first(), request);
        let rest = events.drop_first();
        if next == SessionState::Failed {
            lemma_nothing_follows_the_end(next, rest, request);
        } else if next == SessionState::ResolvingVersions || next == SessionState::CheckingInstall {
            lemma_nothing_starts_before_install_is_confirmed(next, rest, request);
            let i = choose|i: int|
                0 <= i < rest.len() && #[trigger] rest[i] == (SessionEvent::InstallChecked {
                    installed: true,
                });
            assert(events[i + 1] == rest[i]);
        } else {
            assert(events[0] == (SessionEvent::InstallChecked { installed: true }));
        }
    }
}

} // verus!
