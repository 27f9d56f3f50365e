//! Layered configuration: built-in defaults, a configuration file, the
//! environment, and command-line options, in increasing priority.
use vstd::prelude::*;

verus! {

/// Command-line options for the CLI application.
#[derive(Debug, Clone)]
pub struct CliOptions {
    /// Database URL override from CLI.
    pub db_url: Option<String>,
    /// Log level override from CLI.
    pub log_level: Option<String>,
}

/// The settings that one configuration source (the file, or the environment)
/// provides; a setting the source does not mention is `None`.
#[derive(Debug, Clone)]
pub struct ConfigLayer {
    /// The `db_url` setting of this source.
    pub db_url: Option<String>,
    /// The `log_level` setting of this source.
    pub log_level: Option<String>,
}

/// Application configuration combining defaults, files, environment, and CLI options.
#[derive(Debug, Clone)]
pub struct AppConfig {
    /// The database URL to connect to.
    pub db_url: String,
    /// The logging level (trace, debug, info, warn, error).
    pub log_level: Option<String>,
}

/// The database URL used when no source sets one.
pub open spec fn default_db_url() -> Seq<char> {
    seq!['g', 'r', 'a', 'p', 'h', '-', 'n', 'o', 't', 'e', 's', '-', 'd', 'e', 'v', '.', 'd', 'b']
}

/// The log level used when no source sets one.
pub open spec fn default_log_level() -> Seq<char> {
    seq!['i', 'n', 'f', 'o']
}

/// The view of an optional text setting.
pub open spec fn setting_view(s: Option<String>) -> Option<Seq<char>> {
    match s {
        Some(v) => Some(v@),
        None => None,
    }
}

/// The value a setting takes: the command line wins over the environment,
/// the environment over the file, and the file over the default.
pub open spec fn layered(
    cli: Option<Seq<char>>,
    env: Option<Seq<char>>,
    file: Option<Seq<char>>,
    default: Seq<char>,
) -> Seq<char> {
    match cli {
        Some(v) => v,
        None => match env {
            Some(v) => v,
            None => match file {
                Some(v) => v,
                None => default,
            },
        },
    }
}

/// The first setting that is present, taken in the order given.
fn first_present(cli: Option<String>, env: Option<String>, file: Option<String>, default: String) -> (res: String)
    ensures
        res@ == layered(setting_view(cli), setting_view(env), setting_view(file), default@),
{
    match cli {
        Some(v) => v,
        None => match env {
            Some(v) => v,
            None => match file {
                Some(v) => v,
                None => default,
            },
        },
    }
}

/// The directory that holds the configuration file: `$XDG_CONFIG_HOME/graph-notes-cli`
/// when `XDG_CONFIG_HOME` is set to a non-empty path, else `$HOME/.config/graph-notes-cli`
/// when `HOME` is set; `None` when neither is.
pub open spec fn spec_config_dir(xdg_config_home: Option<Seq<char>>, home: Option<Seq<char>>) -> Option<Seq<char>> {
    if xdg_config_home is Some && xdg_config_home->0.len() > 0 {
        Some(xdg_config_home->0 + "/graph-notes-cli"@)
    } else if home is Some {
        Some(home->0 + "/.config/graph-notes-cli"@)
    } else {
        None
    }
}

/// The configuration file read at start-up: the one given on the command line,
/// else `config.toml` in the configuration directory.
pub open spec fn spec_config_file(
    cli_config: Option<Seq<char>>,
    xdg_config_home: Option<Seq<char>>,
    home: Option<Seq<char>>,
) -> Option<Seq<char>> {
    if cli_config is Some {
        cli_config
    } else {
        match spec_config_dir(xdg_config_home, home) {
            Some(dir) => Some(dir + "/config.toml"@),
            None => None,
        }
    }
}

/// The configuration file given with `--config` is the one read, whatever
/// `XDG_CONFIG_HOME` and `HOME` are.
pub proof fn lemma_config_file_given(path: Seq<char>, xdg_config_home: Option<Seq<char>>, home: Option<Seq<char>>)
    ensures
        spec_config_file(Some(path), xdg_config_home, home) == Some(path),
{
}

/// Without `--config`, with `XDG_CONFIG_HOME` set to a non-empty path `x`, the
/// file read is `x/graph-notes-cli/config.toml`, whatever `HOME` is; and it
/// lies in the directory that `init-config` writes to.
pub proof fn lemma_config_file_under_xdg(x: Seq<char>, home: Option<Seq<char>>)
    requires
        x.len() > 0,
    ensures
        spec_config_file(None, Some(x), home) == Some(x + "/graph-notes-cli/config.toml"@),
        spec_config_dir(Some(x), home) == Some(x + "/graph-notes-cli"@),
{
    reveal_strlit("/graph-notes-cli/config.toml");
    reveal_strlit("/graph-notes-cli");
    reveal_strlit("/config.toml");
    assert((x + "/graph-notes-cli"@) + "/config.toml"@ =~= x + "/graph-notes-cli/config.toml"@);
}

/// Without `--config`, when `XDG_CONFIG_HOME` is unset or empty and `HOME` is
/// `h`, the file read is `h/.config/graph-notes-cli/config.toml`.
pub proof fn lemma_config_file_under_home(xdg_config_home: Option<Seq<char>>, h: Seq<char>)
    requires
        xdg_config_home is None || xdg_config_home->0.len() == 0,
    ensures
        spec_config_file(None, xdg_config_home, Some(h)) == Some(
            h + "/.config/graph-notes-cli/config.toml"@,
        ),
        spec_config_dir(xdg_config_home, Some(h)) == Some(h + "/.config/graph-notes-cli"@),
{
    reveal_strlit("/.config/graph-notes-cli/config.toml");
    reveal_strlit("/.config/graph-notes-cli");
    reveal_strlit("/config.toml");
    assert((h + "/.config/graph-notes-cli"@) + "/config.toml"@ =~= h
        + "/.config/graph-notes-cli/config.toml"@);
}

/// Without `--config`, the file read is `config.toml` in the configuration
/// directory (the one `init-config` writes to), and there is none exactly
/// when neither `XDG_CONFIG_HOME` nor `HOME` gives a directory.
pub proof fn lemma_config_file_in_config_dir(xdg_config_home: Option<Seq<char>>, home: Option<Seq<char>>)
    ensures
        spec_config_file(None, xdg_config_home, home) is None <==> (
            (xdg_config_home is None || xdg_config_home->0.len() == 0) && home is None),
        spec_config_file(None, xdg_config_home, home) is Some ==> spec_config_file(
            None,
            xdg_config_home,
            home,
        )->0 == spec_config_dir(xdg_config_home, home)->0 + "/config.toml"@,
{
}

/// The configuration directory, from the values of `XDG_CONFIG_HOME` and `HOME`.
pub fn config_dir(xdg_config_home: Option<String>, home: Option<String>) -> (res: Option<String>)
    ensures
        setting_view(res) == spec_config_dir(setting_view(xdg_config_home), setting_view(home)),
{
    match xdg_config_home {
        Some(xdg) => {
            if xdg.as_str().unicode_len() > 0 {
                return Some(xdg.concat("/graph-notes-cli"));
            }
        },
        None => {},
    }
    match home {
        Some(h) => Some(h.concat("/.config/graph-notes-cli")),
        None => None,
    }
}

/// The configuration file to read, from the `--config` option and the values
/// of `XDG_CONFIG_HOME` and `HOME`.
pub fn config_file(cli_config: Option<String>, xdg_config_home: Option<String>, home: Option<String>) -> (res: Option<String>)
    ensures
        setting_view(res) == spec_config_file(
            setting_view(cli_config),
            setting_view(xdg_config_home),
            setting_view(home),
        ),
{
    match cli_config {
        Some(path) => Some(path),
        None => match config_dir(xdg_config_home, home) {
            Some(dir) => Some(dir.concat("/config.toml")),
            None => None,
        },
    }
}

impl AppConfig {
    /// Builds the configuration from its sources, with the following priority:
    /// 1. CLI options (highest priority)
    /// 2. Environment variables (with GRAPH_NOTES prefix)
    /// 3. Configuration file (if provided)
    /// 4. Defaults (lowest priority): `graph-notes-dev.db` and `info`.
    pub fn from_sources(file: ConfigLayer, env: ConfigLayer, cli_options: CliOptions) -> (res: AppConfig)
        ensures
            res.db_url@ == layered(
                setting_view(cli_options.db_url),
                setting_view(env.db_url),
                setting_view(file.db_url),
                default_db_url(),
            ),
            res.log_level is Some,
            res.log_level->0@ == layered(
                setting_view(cli_options.log_level),
                setting_view(env.log_level),
                setting_view(file.log_level),
                default_log_level(),
            ),
    {
        let default_url = String::from_str("graph-notes-dev.db");
        let default_level = String::from_str("info");
        proof {
            reveal_strlit("graph-notes-dev.db");
            reveal_strlit("info");
        }
        let db_url = first_present(cli_options.db_url, env.db_url, file.db_url, default_url);
        let log_level = first_present(
            cli_options.log_level,
            env.log_level,
            file.log_level,
            default_level,
        );
        AppConfig { db_url, log_level: Some(log_level) }
    }
}

/// A setting given on the command line is the one that is used, whatever the
/// environment and the configuration file say.
pub proof fn lemma_command_line_wins(
    cli: Seq<char>,
    env: Option<Seq<char>>,
    file: Option<Seq<char>>,
    default: Seq<char>,
)
    ensures
        layered(Some(cli), env, file, default) == cli,
{
}

/// Without a command-line value, a setting from the environment is used,
/// whatever the configuration file says.
pub proof fn lemma_environment_over_file(env: Seq<char>, file: Option<Seq<char>>, default: Seq<char>)
    ensures
        layered(None, Some(env), file, default) == env,
{
}

/// The configuration file is used only when neither the command line nor the
/// environment set the value, and the default only when no source sets it.
pub proof fn lemma_file_then_default(file: Option<Seq<char>>, default: Seq<char>)
    ensures
        layered(None, None, file, default) == match file {
            Some(v) => v,
            None => default,
        },
{
}

} // verus!
