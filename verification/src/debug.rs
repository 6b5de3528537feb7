//! Turning a debug configuration, as the user wrote it, into the full
//! description of a debug session with the Playdate Simulator.

use crate::error::Error;
use crate::platform::Os;
use crate::sdk::{detect_sdk_path, detect_sdk_path_spec, get_simulator_path, simulator_path_spec};
use crate::text::{
    lemma_replace_absent, lemma_replace_around, occurs_in, replace_all, replace_all_spec, same_text,
    starts_uniquely,
};
use vstd::prelude::*;
use vstd::string::*;

verus! {

/// A debug configuration. `request` is `launch` or `attach`; the paths may
/// hold the worktree placeholder.
#[derive(Clone, Debug, PartialEq, Eq)]
pub struct PlaydateDebugConfig {
    pub request: String,
    pub game_path: Option<String>,
    pub source_path: Option<String>,
    pub sdk_path: Option<String>,
}

/// Whether a session starts the simulator or joins a running one.
#[derive(Clone, Copy, Debug, PartialEq, Eq, Structural)]
pub enum RequestKind {
    Launch,
    Attach,
}

/// Connection parameters as the user gave them: each may be left out.
#[derive(Clone, Copy, Debug, PartialEq, Eq, Structural)]
pub struct TcpArgumentsTemplate {
    pub port: Option<u16>,
    /// An IPv4 address, packed into 32 bits.
    pub host: Option<u32>,
    /// Milliseconds.
    pub timeout: Option<u64>,
}

/// Connection parameters of a session.
#[derive(Clone, Copy, Debug, PartialEq, Eq, Structural)]
pub struct TcpArguments {
    pub port: u16,
    /// An IPv4 address, packed into 32 bits.
    pub host: u32,
    /// Milliseconds.
    pub timeout: Option<u64>,
}

/// A debug session, fully described.
#[derive(Clone, Debug, PartialEq, Eq)]
pub struct DebugSession {
    /// The program to start; none when joining a running simulator.
    pub command: Option<String>,
    pub arguments: Vec<String>,
    pub envs: Vec<(String, String)>,
    pub cwd: Option<String>,
    pub connection: Option<TcpArguments>,
    pub request: RequestKind,
    /// The configuration with every path resolved.
    pub configuration: PlaydateDebugConfig,
}

/// 127.0.0.1.
pub const DEFAULT_HOST: u32 = 0x7f000001;

pub const DEFAULT_PORT: u16 = 55934;

/// Five seconds.
pub const DEFAULT_TIMEOUT_MS: u64 = 5000;

/// The name of the debug adapter this library serves.
pub open spec fn adapter_name_spec() -> Seq<char> {
    "Playdate"@
}

/// The token that stands for the worktree's root in a path.
pub open spec fn worktree_placeholder() -> Seq<char> {
    "$ZED_WORKTREE_ROOT"@
}

/// The characters of an optional string.
pub open spec fn opt_view(s: Option<String>) -> Option<Seq<char>> {
    match s {
        Some(s) => Some(s@),
        None => None,
    }
}

/// `path` with every placeholder replaced by `root`.
pub open spec fn substitute_spec(path: Seq<char>, root: Seq<char>) -> Seq<char> {
    replace_all_spec(path, worktree_placeholder(), root)
}

/// An optional path with every placeholder replaced by `root`.
pub open spec fn substitute_opt_spec(path: Option<String>, root: Seq<char>) -> Option<Seq<char>> {
    match path {
        Some(p) => Some(substitute_spec(p@, root)),
        None => None,
    }
}

/// The kind that a request word stands for: `launch` and `attach`, spelled
/// exactly so, and no other word.
pub open spec fn request_kind_spec(request: Seq<char>) -> Option<RequestKind> {
    if request == "attach"@ {
        Some(RequestKind::Attach)
    } else if request == "launch"@ {
        Some(RequestKind::Launch)
    } else {
        None
    }
}

/// The connection parameters: each one the user's, else the default.
pub open spec fn resolve_connection_spec(template: Option<TcpArgumentsTemplate>) -> TcpArguments {
    match template {
        Some(t) => TcpArguments {
            host: match t.host {
                Some(h) => h,
                None => DEFAULT_HOST,
            },
            port: match t.port {
                Some(p) => p,
                None => DEFAULT_PORT,
            },
            timeout: Some(
                match t.timeout {
                    Some(ms) => ms,
                    None => DEFAULT_TIMEOUT_MS,
                },
            ),
        },
        None => TcpArguments {
            host: DEFAULT_HOST,
            port: DEFAULT_PORT,
            timeout: Some(DEFAULT_TIMEOUT_MS),
        },
    }
}

/// The SDK directory of a session: the configured one, else the detected.
pub open spec fn session_sdk_path(
    configured: Option<String>,
    env: Seq<(String, String)>,
    os: Os,
) -> Seq<char> {
    match configured {
        Some(path) => path@,
        None => detect_sdk_path_spec(env, os),
    }
}

/// Whether `session` is the session of kind `kind` that `config` describes
/// in a worktree rooted at `root`, with the environment `env`, on `os`.
pub open spec fn session_for(
    session: DebugSession,
    kind: RequestKind,
    config: PlaydateDebugConfig,
    tcp_connection: Option<TcpArgumentsTemplate>,
    env: Seq<(String, String)>,
    root: Seq<char>,
    os: Os,
) -> bool {
    &&& session.request == kind
    &&& session.configuration.request@ == config.request@
    &&& opt_view(session.configuration.sdk_path) == Some(
        session_sdk_path(config.sdk_path, env, os),
    )
    &&& opt_view(session.configuration.source_path) == substitute_opt_spec(config.source_path, root)
    &&& opt_view(session.configuration.game_path) == substitute_opt_spec(config.game_path, root)
    &&& session.connection == Some(resolve_connection_spec(tcp_connection))
    &&& session.envs@.len() == 0
    &&& session.cwd is None
    &&& match kind {
        RequestKind::Launch => {
            &&& opt_view(session.command) == Some(simulator_path_spec(env, os))
            &&& session.arguments@.len() == 1
            &&& Some(session.arguments@[0]@) == substitute_opt_spec(config.game_path, root)
        },
        RequestKind::Attach => session.command is None && session.arguments@.len() == 0,
    }
}

/// A path without a placeholder is left as it is.
pub proof fn law_substitute_without_placeholder(path: Seq<char>, root: Seq<char>)
    requires
        !occurs_in(path, worktree_placeholder()),
    ensures
        substitute_spec(path, root) == path,
{
    lemma_replace_absent(path, worktree_placeholder(), root);
}

/// Every placeholder is replaced: where one stands between `before` and
/// `after`, the result is `root` between what the two become.
pub proof fn law_substitute_every_placeholder(
    before: Seq<char>,
    after: Seq<char>,
    root: Seq<char>,
)
    ensures
        substitute_spec(before + worktree_placeholder() + after, root) == substitute_spec(
            before,
            root,
        ) + root + substitute_spec(after, root),
{
    reveal_strlit("$ZED_WORKTREE_ROOT");
    assert(starts_uniquely(worktree_placeholder()));
    lemma_replace_around(before, after, worktree_placeholder(), root);
}

/// The name of the debug adapter this library serves.
pub fn adapter_name() -> (s: &'static str)
    ensures
        s@ == adapter_name_spec(),
{
    "Playdate"
}

/// The game that is debugged where the configuration names none.
pub fn default_game_path() -> (r: Option<String>)
    ensures
        opt_view(r) == Some("$ZED_WORKTREE_ROOT/builds/Game.pdx"@),
{
    Some(String::from_str("$ZED_WORKTREE_ROOT/builds/Game.pdx"))
}

/// The source directory where the configuration names none.
pub fn default_source_path() -> (r: Option<String>)
    ensures
        opt_view(r) == Some("$ZED_WORKTREE_ROOT/source"@),
{
    Some(String::from_str("$ZED_WORKTREE_ROOT/source"))
}

impl PlaydateDebugConfig {
    /// The configuration that names a request and nothing else: the game and
    /// the sources at their usual places, the SDK left to detection.
    pub fn with_defaults(request: String) -> (config: PlaydateDebugConfig)
        ensures
            config.request == request,
            opt_view(config.game_path) == Some("$ZED_WORKTREE_ROOT/builds/Game.pdx"@),
            opt_view(config.source_path) == Some("$ZED_WORKTREE_ROOT/source"@),
            config.sdk_path is None,
    {
        PlaydateDebugConfig {
            request,
            game_path: default_game_path(),
            source_path: default_source_path(),
            sdk_path: None,
        }
    }
}

/// Refuses a debug adapter other than the one served.
pub fn check_adapter(adapter: &str) -> (r: Result<(), Error>)
    ensures
        if adapter@ == adapter_name_spec() {
            r is Ok
        } else {
            r matches Err(Error::UnsupportedAdapter { name }) && name@ == adapter@
        },
{
    if same_text(adapter, adapter_name()) {
        Ok(())
    } else {
        Err(Error::UnsupportedAdapter { name: String::from_str(adapter) })
    }
}

/// Replaces every worktree placeholder in `path` by `root`.
pub fn substitute_worktree_root(path: &str, root: &str) -> (r: String)
    ensures
        r@ == substitute_spec(path@, root@),
{
    replace_all(path, "$ZED_WORKTREE_ROOT", root)
}

/// Tells a launch from an attach. Any other request word is refused, and the
/// failure carries the word.
pub fn get_request_type(config: &PlaydateDebugConfig) -> (r: Result<RequestKind, Error>)
    ensures
        match request_kind_spec(config.request@) {
            Some(kind) => r == Ok::<RequestKind, Error>(kind),
            None => r matches Err(Error::InvalidRequest { value }) && value@ == config.request@,
        },
{
    let request = config.request.as_str();
    if same_text(request, "attach") {
        Ok(RequestKind::Attach)
    } else if same_text(request, "launch") {
        Ok(RequestKind::Launch)
    } else {
        Err(Error::InvalidRequest { value: config.request.clone() })
    }
}

/// Fills the connection parameters that the user left out.
pub fn resolve_connection(template: Option<TcpArgumentsTemplate>) -> (r: TcpArguments)
    ensures
        r == resolve_connection_spec(template),
{
    match template {
        Some(t) => TcpArguments {
            host: match t.host {
                Some(h) => h,
                None => DEFAULT_HOST,
            },
            port: match t.port {
                Some(p) => p,
                None => DEFAULT_PORT,
            },
            timeout: Some(
                match t.timeout {
                    Some(ms) => ms,
                    None => DEFAULT_TIMEOUT_MS,
                },
            ),
        },
        None => TcpArguments {
            host: DEFAULT_HOST,
            port: DEFAULT_PORT,
            timeout: Some(DEFAULT_TIMEOUT_MS),
        },
    }
}

/// The kind of session that a configuration asks of the adapter `adapter`.
pub fn dap_request_kind(adapter: &str, config: &PlaydateDebugConfig) -> (r: Result<
    RequestKind,
    Error,
>)
    ensures
        if adapter@ != adapter_name_spec() {
            r matches Err(Error::UnsupportedAdapter { name }) && name@ == adapter@
        } else {
            match request_kind_spec(config.request@) {
                Some(kind) => r == Ok::<RequestKind, Error>(kind),
                None => r matches Err(Error::InvalidRequest { value }) && value@
                    == config.request@,
            }
        },
{
    if let Err(e) = check_adapter(adapter) {
        return Err(e);
    }
    get_request_type(config)
}

/// An optional path with every worktree placeholder replaced by `root`.
pub fn substitute_opt(path: &Option<String>, root: &str) -> (r: Option<String>)
    ensures
        opt_view(r) == substitute_opt_spec(*path, root@),
{
    match path {
        Some(p) => Some(substitute_worktree_root(p.as_str(), root)),
        None => None,
    }
}

/// Describes the debug session that `config` asks of the adapter `adapter`.
///
/// `env` is the worktree's shell environment and `root_path` its root. A
/// missing SDK directory is detected from `env`; the placeholders in the game
/// and source paths are replaced by `root_path`; the connection parameters
/// are `tcp_connection` with the defaults filled in. A launch starts the
/// simulator of the detected SDK on the game and fails where no game is
/// named; an attach starts nothing.
pub fn get_dap_binary(
    adapter: &str,
    config: PlaydateDebugConfig,
    tcp_connection: Option<TcpArgumentsTemplate>,
    env: &Vec<(String, String)>,
    root_path: &str,
    os: Os,
) -> (r: Result<DebugSession, Error>)
    ensures
        if adapter@ != adapter_name_spec() {
            r matches Err(Error::UnsupportedAdapter { name }) && name@ == adapter@
        } else {
            match request_kind_spec(config.request@) {
                None => r matches Err(Error::InvalidRequest { value }) && value@
                    == config.request@,
                Some(kind) => if kind == RequestKind::Launch && config.game_path is None {
                    r == Err::<DebugSession, Error>(Error::MissingGamePath)
                } else {
                    r is Ok && session_for(
                        r->Ok_0,
                        kind,
                        config,
                        tcp_connection,
                        env@,
                        root_path@,
                        os,
                    )
                },
            }
        },
{
    if let Err(e) = check_adapter(adapter) {
        return Err(e);
    }
    let sdk_path = match &config.sdk_path {
        Some(path) => path.clone(),
        None => match detect_sdk_path(env, os) {
            Ok(path) => path,
            Err(e) => {
                return Err(e);
            },
        },
    };
    let resolved = PlaydateDebugConfig {
        request: config.request.clone(),
        game_path: substitute_opt(&config.game_path, root_path),
        source_path: substitute_opt(&config.source_path, root_path),
        sdk_path: Some(sdk_path),
    };
    let request = match get_request_type(&resolved) {
        Ok(kind) => kind,
        Err(e) => {
            return Err(e);
        },
    };
    let connection = resolve_connection(tcp_connection);
    let mut arguments: Vec<String> = Vec::new();
    let command = match request {
        RequestKind::Launch => {
            let simulator = match get_simulator_path(env, os) {
                Ok(path) => path,
                Err(e) => {
                    return Err(e);
                },
            };
            match &resolved.game_path {
                Some(game) => {
                    arguments.push(game.clone());
                },
                None => {
                    return Err(Error::MissingGamePath);
                },
            }
            Some(simulator)
        },
        RequestKind::Attach => None,
    };
    Ok(
        DebugSession {
            command,
            arguments,
            envs: Vec::new(),
            cwd: None,
            connection: Some(connection),
            request,
            configuration: resolved,
        },
    )
}

} // verus!
