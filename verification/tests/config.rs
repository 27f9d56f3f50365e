use graph_notes::config::{config_dir, config_file, AppConfig, CliOptions, ConfigLayer};
use graph_notes::db::connection::Connection;

fn layer(db_url: Option<&str>, log_level: Option<&str>) -> ConfigLayer {
    ConfigLayer { db_url: db_url.map(String::from), log_level: log_level.map(String::from) }
}

fn cli(db_url: Option<&str>, log_level: Option<&str>) -> CliOptions {
    CliOptions { db_url: db_url.map(String::from), log_level: log_level.map(String::from) }
}

#[test]
fn defaults_when_no_source_sets_anything() {
    let config = AppConfig::from_sources(layer(None, None), layer(None, None), cli(None, None));
    assert_eq!(config.db_url, "graph-notes-dev.db");
    assert_eq!(config.log_level.as_deref(), Some("info"));
}

#[test]
fn command_line_overrides_environment_and_file() {
    let config = AppConfig::from_sources(
        layer(Some("sqlite://file.db"), Some("warn")),
        layer(Some("sqlite://env.db"), Some("error")),
        cli(Some("sqlite://cli.db"), Some("trace")),
    );
    assert_eq!(config.db_url, "sqlite://cli.db");
    assert_eq!(config.log_level.as_deref(), Some("trace"));
}

#[test]
fn environment_overrides_file() {
    let config = AppConfig::from_sources(
        layer(Some("sqlite://file.db"), Some("warn")),
        layer(Some("sqlite://env.db"), None),
        cli(None, None),
    );
    assert_eq!(config.db_url, "sqlite://env.db");
    assert_eq!(config.log_level.as_deref(), Some("warn"));
}

#[test]
fn file_used_when_nothing_else_is_set() {
    let config = AppConfig::from_sources(
        layer(Some("sqlite://notes.db"), Some("info")),
        layer(None, None),
        cli(None, Some("debug")),
    );
    assert_eq!(config.db_url, "sqlite://notes.db");
    assert_eq!(config.log_level.as_deref(), Some("debug"));
}

#[test]
fn configuration_directory_and_file() {
    assert_eq!(
        config_dir(Some("/xdg".to_string()), Some("/home/user".to_string())).as_deref(),
        Some("/xdg/graph-notes-cli")
    );
    assert_eq!(
        config_dir(Some(String::new()), Some("/home/user".to_string())).as_deref(),
        Some("/home/user/.config/graph-notes-cli")
    );
    assert_eq!(
        config_dir(None, Some("/home/user".to_string())).as_deref(),
        Some("/home/user/.config/graph-notes-cli")
    );
    assert_eq!(config_dir(None, None), None);
    assert_eq!(
        config_file(None, None, Some("/home/user".to_string())).as_deref(),
        Some("/home/user/.config/graph-notes-cli/config.toml")
    );
    assert_eq!(
        config_file(Some("/etc/my.toml".to_string()), Some("/xdg".to_string()), None).as_deref(),
        Some("/etc/my.toml")
    );
    assert_eq!(config_file(None, None, None), None);
}

fn connection(db_url: &str) -> Connection {
    Connection { config: AppConfig { db_url: db_url.to_string(), log_level: None } }
}

#[test]
fn database_file_name_from_url() {
    assert_eq!(connection("sqlite://notes.db").database_filename(), "notes.db");
    assert_eq!(connection("graph-notes-dev.db").database_filename(), "graph-notes-dev.db");
    assert_eq!(connection("sqlite:///tmp/a.db").database_filename(), "/tmp/a.db");
    assert_eq!(connection("sqlite://sqlite://x.db").database_filename(), "x.db");
    assert_eq!(connection("sqlsqlite://ite://y.db").database_filename(), "sqlite://y.db");
    assert_eq!(connection("").database_filename(), "");
    assert_eq!(connection("d\u{e9}j\u{e0}-vu.db").database_filename(), "d\u{e9}j\u{e0}-vu.db");
}
