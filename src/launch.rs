use vstd::prelude::*;

use crate::decimal::{decimal, port_text};

verus! {

/// Name under which the backend executable is bundled.
pub const SIDECAR_NAME: &'static str = "backend";

/// Name of the UI event that reports that the backend could not be started.
pub const STARTUP_ERROR_EVENT: &'static str = "sidecar-error";

/// How the backend is to be started: its executable, arguments and
/// environment.
pub struct LaunchSpec {
    pub program: String,
    pub args: Vec<String>,
    pub env: Vec<(String, String)>,
}

pub open spec fn string_views(v: Seq<String>) -> Seq<Seq<char>> {
    v.map_values(|s: String| s@)
}

pub open spec fn pair_views(v: Seq<(String, String)>) -> Seq<(Seq<char>, Seq<char>)> {
    v.map_values(|p: (String, String)| (p.0@, p.1@))
}

/// The arguments: listen on the loopback address, on `port`.
pub open spec fn launch_args(port: u16) -> Seq<Seq<char>> {
    seq!["--host"@, "127.0.0.1"@, "--port"@, decimal(port as nat)]
}

/// The environment: the port, production mode, the model cache, and the
/// three temporary-directory variables pointed at the runtime area.
pub open spec fn launch_env(port: u16, models: Seq<char>, runtime: Seq<char>) -> Seq<
    (Seq<char>, Seq<char>),
> {
    seq![
        ("THERESE_PORT"@, decimal(port as nat)),
        ("THERESE_ENV"@, "production"@),
        ("SENTENCE_TRANSFORMERS_HOME"@, models),
        ("TMPDIR"@, runtime),
        ("TEMP"@, runtime),
        ("TMP"@, runtime),
    ]
}

fn text(s: &str) -> (r: String)
    ensures
        r@ == s@,
{
    String::from_str(s)
}

fn env_pair(key: &str, value: &str) -> (r: (String, String))
    ensures
        r.0@ == key@,
        r.1@ == value@,
{
    (String::from_str(key), String::from_str(value))
}

/// How to start the backend on `port`, with its model cache in `models_dir`
/// and its temporary files in `runtime_dir`.
pub fn launch_spec(port: u16, models_dir: &str, runtime_dir: &str) -> (r: LaunchSpec)
    ensures
        r.program@ == SIDECAR_NAME@,
        string_views(r.args@) == launch_args(port),
        pair_views(r.env@) == launch_env(port, models_dir@, runtime_dir@),
{
    let port_str = port_text(port);
    let mut args: Vec<String> = Vec::new();
    args.push(text("--host"));
    args.push(text("127.0.0.1"));
    args.push(text("--port"));
    args.push(port_str.clone());
    let mut env: Vec<(String, String)> = Vec::new();
    env.push(env_pair("THERESE_PORT", port_str.as_str()));
    env.push(env_pair("THERESE_ENV", "production"));
    env.push(env_pair("SENTENCE_TRANSFORMERS_HOME", models_dir));
    env.push(env_pair("TMPDIR", runtime_dir));
    env.push(env_pair("TEMP", runtime_dir));
    env.push(env_pair("TMP", runtime_dir));
    assert(string_views(args@) =~= launch_args(port));
    assert(pair_views(env@) =~= launch_env(port, models_dir@, runtime_dir@));
    LaunchSpec { program: text(SIDECAR_NAME), args, env }
}

/// Why the backend could not be started.
#[derive(Clone, Copy, PartialEq, Eq, Structural, Debug)]
pub enum LaunchFailure {
    /// The bundled executable was not found.
    BinaryMissing,
    /// The operating system refused to start it.
    SpawnFailed,
}

/// The message shown to the user when the backend could not be started.
pub open spec fn failure_message(kind: LaunchFailure, detail: Seq<char>) -> Seq<char> {
    match kind {
        LaunchFailure::BinaryMissing => "Binaire sidecar introuvable : "@ + detail,
        LaunchFailure::SpawnFailed => "Erreur lancement sidecar : "@ + detail,
    }
}

/// Builds the message shown to the user when the backend could not be
/// started, from the failure and the system's own description of it.
pub fn launch_failure_message(kind: LaunchFailure, detail: &str) -> (r: String)
    ensures
        r@ == failure_message(kind, detail@),
{
    let head = match kind {
        LaunchFailure::BinaryMissing => text("Binaire sidecar introuvable : "),
        LaunchFailure::SpawnFailed => text("Erreur lancement sidecar : "),
    };
    head.concat(detail)
}

} // verus!
