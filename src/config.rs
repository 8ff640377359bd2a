use vstd::prelude::*;
use crate::path::AppPath;

verus! {

/// The command interpreter that runs the start script.
#[derive(Clone, Copy, Debug, PartialEq, Eq, Structural)]
pub enum Shell {
    /// `cmd /C <script>`
    Cmd,
    /// `sh -c <script>`
    Sh,
}

pub open spec fn shell_program_spec(s: Shell) -> Seq<char> {
    match s {
        Shell::Cmd => seq!['c', 'm', 'd'],
        Shell::Sh => seq!['s', 'h'],
    }
}

pub open spec fn shell_flag_spec(s: Shell) -> Seq<char> {
    match s {
        Shell::Cmd => seq!['/', 'C'],
        Shell::Sh => seq!['-', 'c'],
    }
}

impl Shell {
    /// The interpreter's program name.
    pub fn program(&self) -> (r: String)
        ensures
            r@ == shell_program_spec(*self),
    {
        match self {
            Shell::Cmd => {
                let r = "cmd".to_owned();
                proof { reveal_strlit("cmd"); }
                assert(r@ =~= shell_program_spec(*self));
                r
            },
            Shell::Sh => {
                let r = "sh".to_owned();
                proof { reveal_strlit("sh"); }
                assert(r@ =~= shell_program_spec(*self));
                r
            },
        }
    }

    /// The flag after which the interpreter takes the command to run.
    pub fn flag(&self) -> (r: String)
        ensures
            r@ == shell_flag_spec(*self),
    {
        match self {
            Shell::Cmd => {
                let r = "/C".to_owned();
                proof { reveal_strlit("/C"); }
                assert(r@ =~= shell_flag_spec(*self));
                r
            },
            Shell::Sh => {
                let r = "-c".to_owned();
                proof { reveal_strlit("-c"); }
                assert(r@ =~= shell_flag_spec(*self));
                r
            },
        }
    }
}

/// How the bootstrap behaves in this build or deployment.
#[derive(Debug)]
pub struct LaunchConfig {
    /// Seconds to wait before looking for the script.
    pub delay_secs: u64,
    /// Interpreter used to run the script.
    pub shell: Shell,
    /// Whether the child may get a visible console window.
    pub show_console: bool,
    /// Whether the child's output is appended to a log file.
    pub enable_logging: bool,
    /// Log directory to use instead of the per-user data directory.
    pub log_dir_override: Option<AppPath>,
}

/// The mathematical model of a [`LaunchConfig`].
pub struct ConfigModel {
    pub delay_secs: nat,
    pub shell: Shell,
    pub show_console: bool,
    pub enable_logging: bool,
    pub log_dir_override: Option<Seq<Seq<char>>>,
}

pub open spec fn opt_path_view(p: Option<AppPath>) -> Option<Seq<Seq<char>>> {
    match p {
        Some(q) => Some(q@),
        None => None,
    }
}

impl View for LaunchConfig {
    type V = ConfigModel;

    open spec fn view(&self) -> ConfigModel {
        ConfigModel {
            delay_secs: self.delay_secs as nat,
            shell: self.shell,
            show_console: self.show_console,
            enable_logging: self.enable_logging,
            log_dir_override: opt_path_view(self.log_dir_override),
        }
    }
}

/// Warm-up delay, in seconds, of the standard configuration.
pub const DEFAULT_DELAY_SECS: u64 = 2;

impl LaunchConfig {
    /// The standard configuration: a two-second warm-up, no console window,
    /// no logging.
    pub fn standard(shell: Shell) -> (r: LaunchConfig)
        ensures
            r@ == (ConfigModel {
                delay_secs: DEFAULT_DELAY_SECS as nat,
                shell,
                show_console: false,
                enable_logging: false,
                log_dir_override: None,
            }),
    {
        LaunchConfig {
            delay_secs: DEFAULT_DELAY_SECS,
            shell,
            show_console: false,
            enable_logging: false,
            log_dir_override: None,
        }
    }
}

} // verus!
