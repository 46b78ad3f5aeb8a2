//! The command lines of the installer and the engine host, and the lines
//! the engine host reads in its interactive mode.

use crate::text::compare_chars;
use vstd::prelude::*;
use vstd::string::StringExecFns;

verus! {

/// The CLSID of the text service, as the installer prints it.
pub const CHEIME_TIP_CLSID: &'static str = "{B5F1C9A8-3E7D-4A15-AE2D-F89C1B6E3A07}";
/// The installation directory's name under the user's local application data.
pub const CHEIME_DIR: &'static str = "CheIME";

/// What the installer was asked to do.
#[derive(Clone, Debug, PartialEq, Eq)]
pub enum InstallerCommand {
    /// Refused: deployment is the administrator script `install.ps1`'s job.
    Install,
    /// Refused: deployment is the administrator script `uninstall.ps1`'s job.
    Uninstall,
    /// Show the registration state (the default).
    Status,
    Unknown(String),
}

/// The installer's command from its first argument.
pub fn installer_command(first: Option<&str>) -> (c: InstallerCommand)
    ensures
        match first {
            None => c == InstallerCommand::Status,
            Some(a) => if a@ == "install"@ {
                c == InstallerCommand::Install
            } else if a@ == "uninstall"@ {
                c == InstallerCommand::Uninstall
            } else if a@ == "status"@ {
                c == InstallerCommand::Status
            } else {
                (c matches InstallerCommand::Unknown(s) && s@ == a@)
            },
        },
{
    match first {
        None => InstallerCommand::Status,
        Some(a) => {
            if same(a, "install") {
                InstallerCommand::Install
            } else if same(a, "uninstall") {
                InstallerCommand::Uninstall
            } else if same(a, "status") {
                InstallerCommand::Status
            } else {
                InstallerCommand::Unknown(String::from_str(a))
            }
        },
    }
}

/// The installation directory under `local_app_data`.
pub fn installation_dir(local_app_data: &str) -> (d: String)
    ensures
        d@ == local_app_data@ + "\\"@ + CHEIME_DIR@,
{
    let mut d = String::from_str(local_app_data);
    d.append("\\");
    d.append(CHEIME_DIR);
    d
}

/// The binaries' directory inside the installation directory.
pub fn bin_dir(installation: &str) -> (d: String)
    ensures
        d@ == installation@ + "\\bin"@,
{
    let mut d = String::from_str(installation);
    d.append("\\bin");
    d
}

/// The engine host's options.
#[derive(Clone, Debug, PartialEq, Eq)]
pub struct EngineOptions {
    pub pipe_name: String,
    pub dict_dir: Option<String>,
    pub config_path: Option<String>,
    pub stdin_mode: bool,
    pub help: bool,
}

/// The engine host's options after reading `args[i..]`: `--pipe`,
/// `--dict-dir` and `--config` take the next argument (ignored when there is
/// none), `--stdin` selects interactive mode, `--help` stops reading and
/// asks for the usage text; anything else is skipped.
pub open spec fn options_from(args: Seq<String>, i: int, acc: EngineOptions) -> EngineOptions
    decreases args.len() - i,
{
    if i < 0 || i >= args.len() || acc.help {
        acc
    } else {
        let a = args[i]@;
        if a == "--pipe"@ {
            if i + 1 < args.len() {
                options_from(args, i + 2, EngineOptions { pipe_name: args[i + 1], ..acc })
            } else {
                acc
            }
        } else if a == "--dict-dir"@ {
            if i + 1 < args.len() {
                options_from(args, i + 2, EngineOptions { dict_dir: Some(args[i + 1]), ..acc })
            } else {
                acc
            }
        } else if a == "--config"@ {
            if i + 1 < args.len() {
                options_from(args, i + 2, EngineOptions { config_path: Some(args[i + 1]), ..acc })
            } else {
                acc
            }
        } else if a == "--stdin"@ {
            options_from(args, i + 1, EngineOptions { stdin_mode: true, ..acc })
        } else if a == "--help"@ {
            EngineOptions { help: true, ..acc }
        } else {
            options_from(args, i + 1, acc)
        }
    }
}

fn same(a: &str, b: &str) -> (r: bool)
    ensures
        r == (a@ == b@),
{
    compare_chars(a, b) == 0
}

/// Read the engine host's arguments (the program name first); the pipe is
/// `default_pipe` unless `--pipe` names another.
pub fn engine_options(args: &Vec<String>, default_pipe: &str) -> (o: EngineOptions)
    ensures
        exists|p: String|
            p@ == default_pipe@ && o == options_from(
                args@,
                1,
                EngineOptions { pipe_name: p, dict_dir: None, config_path: None, stdin_mode: false, help: false },
            ),
{
    let mut o = EngineOptions {
        pipe_name: String::from_str(default_pipe),
        dict_dir: None,
        config_path: None,
        stdin_mode: false,
        help: false,
    };
    let ghost init = o;
    let mut i: usize = 1;
    while i < args.len()
        invariant
            1 <= i,
            !o.help,
            init.pipe_name@ == default_pipe@,
            init == (EngineOptions {
                pipe_name: init.pipe_name,
                dict_dir: None,
                config_path: None,
                stdin_mode: false,
                help: false,
            }),
            options_from(args@, 1, init) == options_from(args@, i as int, o),
        decreases args@.len() - i,
    {
        let a = args[i].as_str();
        if same(a, "--pipe") {
            if i + 1 < args.len() {
                o.pipe_name = args[i + 1].clone();
                i = i + 2;
            } else {
                return o;
            }
        } else if same(a, "--dict-dir") {
            if i + 1 < args.len() {
                o.dict_dir = Some(args[i + 1].clone());
                i = i + 2;
            } else {
                return o;
            }
        } else if same(a, "--config") {
            if i + 1 < args.len() {
                o.config_path = Some(args[i + 1].clone());
                i = i + 2;
            } else {
                return o;
            }
        } else if same(a, "--stdin") {
            o.stdin_mode = true;
            i = i + 1;
        } else if same(a, "--help") {
            o.help = true;
            return o;
        } else {
            i = i + 1;
        }
    }
    o
}

/// What the engine host does with a line it reads in interactive mode.
#[derive(Clone, Debug, PartialEq, Eq)]
pub enum StdinLine {
    /// An empty line: read the next one.
    Skip,
    /// `quit` or `exit`: stop.
    Quit,
    /// Anything else, trimmed: a message, or a key named by its first character.
    Input(String),
}

/// Classify a line already trimmed of surrounding white space.
pub fn stdin_line(trimmed: &str) -> (l: StdinLine)
    ensures
        trimmed@.len() == 0 ==> l == StdinLine::Skip,
        trimmed@.len() > 0 && (trimmed@ == "quit"@ || trimmed@ == "exit"@) ==> l == StdinLine::Quit,
        trimmed@.len() > 0 && trimmed@ != "quit"@ && trimmed@ != "exit"@ ==> (l matches StdinLine::Input(s) && s@
            == trimmed@),
{
    if trimmed.is_empty() {
        StdinLine::Skip
    } else if same(trimmed, "quit") || same(trimmed, "exit") {
        StdinLine::Quit
    } else {
        StdinLine::Input(String::from_str(trimmed))
    }
}

/// The key a line that is no message stands for: its first character, or
/// `a` for an empty line.
pub fn line_key(line: &str) -> (c: char)
    ensures
        line@.len() > 0 ==> c == line@[0],
        line@.len() == 0 ==> c == 'a',
{
    let v = crate::text::chars_of(line);
    if v.len() > 0 {
        v[0]
    } else {
        'a'
    }
}

/// Where the engine host takes an emoji translator's data file from.
#[derive(Clone, Copy, Debug, PartialEq, Eq, Structural)]
pub enum EmojiDataSource {
    /// The configured path, which is absolute.
    Configured,
    /// The configured path taken beside the schema file.
    ConfigRelative,
    /// The configured path taken under the data directory.
    RuntimeRelative,
    /// The installation's own emoji file.
    Default,
}

/// An emoji translator's data file: an absolute configured path is kept;
/// a relative one is looked for beside the schema file, then under the
/// data directory, then the installation's own file is taken; when none of
/// them exists, the path beside the schema file is kept.
pub fn emoji_data_source(
    configured_is_absolute: bool,
    config_relative_is_file: bool,
    runtime_relative_is_file: bool,
    default_is_file: bool,
) -> (s: EmojiDataSource)
    ensures
        configured_is_absolute ==> s == EmojiDataSource::Configured,
        !configured_is_absolute ==> s == (if config_relative_is_file {
            EmojiDataSource::ConfigRelative
        } else if runtime_relative_is_file {
            EmojiDataSource::RuntimeRelative
        } else if default_is_file {
            EmojiDataSource::Default
        } else {
            EmojiDataSource::ConfigRelative
        }),
{
    if configured_is_absolute {
        EmojiDataSource::Configured
    } else if config_relative_is_file {
        EmojiDataSource::ConfigRelative
    } else if runtime_relative_is_file {
        EmojiDataSource::RuntimeRelative
    } else if default_is_file {
        EmojiDataSource::Default
    } else {
        EmojiDataSource::ConfigRelative
    }
}

} // verus!
