use crate::text::{decimal, push_decimal};
use vstd::prelude::*;
use vstd::string::*;

verus! {

/// Name under which the server binary ships beside the application.
pub open spec fn sidecar_name() -> Seq<char> {
    "opencode-cli"@
}

/// The shell used when `$SHELL` is not set.
pub open spec fn default_shell() -> Seq<char> {
    "/bin/sh"@
}

/// The arguments that start the server on `port`.
pub open spec fn serve_args(port: u16) -> Seq<Seq<char>> {
    seq!["serve"@, "--port="@ + decimal(port as nat)]
}

/// The command line that a login shell runs to start the server on `port`.
pub open spec fn serve_script(sidecar_path: Seq<char>, port: u16) -> Seq<char> {
    sidecar_path + " serve --port="@ + decimal(port as nat)
}

/// The environment the server is started with.
pub open spec fn child_env(state_dir: Seq<char>) -> Seq<(Seq<char>, Seq<char>)> {
    seq![
        ("OPENCODE_EXPERIMENTAL_ICON_DISCOVERY"@, "true"@),
        ("OPENCODE_CLIENT"@, "desktop"@),
        ("XDG_STATE_HOME"@, state_dir),
    ]
}

/// A program to start, with its arguments and extra environment.
pub struct LaunchCommand {
    pub program: String,
    pub args: Vec<String>,
    pub env: Vec<(String, String)>,
}

impl LaunchCommand {
    pub open spec fn program_text(&self) -> Seq<char> {
        self.program@
    }

    pub open spec fn arg_texts(&self) -> Seq<Seq<char>> {
        self.args@.map_values(|a: String| a@)
    }

    pub open spec fn env_texts(&self) -> Seq<(Seq<char>, Seq<char>)> {
        self.env@.map_values(|p: (String, String)| (p.0@, p.1@))
    }
}

/// How the server binary is started.
pub enum Launcher {
    /// The binary is run directly, as a sidecar the host resolves by name.
    Sidecar,
    /// The binary is run through the user's login shell, so that it inherits
    /// the user's configured PATH and environment.
    LoginShell { shell: String, sidecar_path: String },
}

/// The shell to start the server through: `$SHELL` if set, else a POSIX default.
pub fn user_shell(env_shell: Option<String>) -> (r: String)
    ensures
        r@ == match env_shell {
            Some(s) => s@,
            None => default_shell(),
        },
{
    match env_shell {
        Some(s) => s,
        None => String::from_str("/bin/sh"),
    }
}

fn child_env_vec(state_dir: &str) -> (env: Vec<(String, String)>)
    ensures
        env@.map_values(|p: (String, String)| (p.0@, p.1@)) == child_env(state_dir@),
{
    let mut env: Vec<(String, String)> = Vec::new();
    env.push(
        (
            String::from_str("OPENCODE_EXPERIMENTAL_ICON_DISCOVERY"),
            String::from_str("true"),
        ),
    );
    env.push((String::from_str("OPENCODE_CLIENT"), String::from_str("desktop")));
    env.push((String::from_str("XDG_STATE_HOME"), String::from_str(state_dir)));
    assert(env@.map_values(|p: (String, String)| (p.0@, p.1@)) =~= child_env(state_dir@));
    env
}

impl Launcher {
    /// The command that starts the server on `port`, keeping its state under
    /// `state_dir`.
    pub fn command(&self, port: u16, state_dir: &str) -> (c: LaunchCommand)
        ensures
            c.env_texts() == child_env(state_dir@),
            match self {
                Launcher::Sidecar => {
                    &&& c.program_text() == sidecar_name()
                    &&& c.arg_texts() == serve_args(port)
                },
                Launcher::LoginShell { shell, sidecar_path } => {
                    &&& c.program_text() == shell@
                    &&& c.arg_texts() == seq![
                        "-il"@,
                        "-c"@,
                        serve_script(sidecar_path@, port),
                    ]
                },
            },
    {
        let env = child_env_vec(state_dir);
        let mut args: Vec<String> = Vec::new();
        match self {
            Launcher::Sidecar => {
                let mut port_arg = String::from_str("--port=");
                push_decimal(&mut port_arg, port as u32);
                args.push(String::from_str("serve"));
                args.push(port_arg);
                assert(args@.map_values(|a: String| a@) =~= serve_args(port));
                LaunchCommand { program: String::from_str("opencode-cli"), args, env }
            },
            Launcher::LoginShell { shell, sidecar_path } => {
                let mut script = sidecar_path.clone();
                script.append(" serve --port=");
                push_decimal(&mut script, port as u32);
                args.push(String::from_str("-il"));
                args.push(String::from_str("-c"));
                args.push(script);
                assert(args@.map_values(|a: String| a@) =~= seq![
                    "-il"@,
                    "-c"@,
                    serve_script(sidecar_path@, port),
                ]);
                LaunchCommand { program: shell.clone(), args, env }
            },
        }
    }
}

} // verus!
