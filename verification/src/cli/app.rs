//! The command-line arguments, and the run of one command as a sequence of
//! requests to the note store, each decided from the outcome of the one before.
use vstd::prelude::*;

use clap::{Arg, ArgMatches, Command};

use crate::cli::interface::{
    arg_with_help, arg_with_integer_values, arg_with_long, arg_with_possible_values,
    arg_with_required, arg_with_value_name, command_with_about, command_with_arg,
    command_with_arg_required_else_help, command_with_author, command_with_subcommand,
    command_with_subcommand_required, command_with_version, integer_matched, new_arg,
    new_command, subcommand_matched, text_matched, arg_help, arg_integer, arg_long, arg_new, arg_one_of, arg_required, arg_value_name,
    command_about, command_arg, command_arg_required_else_help, command_author, command_new,
    command_subcommand, command_subcommand_required, command_version, matched_integer,
    matched_subcommand, matched_text,
};
use crate::db::connection::{pool_error_text, PoolError};
use crate::db::links::{describes_link_error, prefixes_note_error, lemma_link_type_name_round_trip, link_type_name, link_type_named, Link, LinkServiceError, LinkType, NewLink};
use crate::db::notes::{note_to_store, title_empty_message, NewNote, Note, NoteServiceError};
use crate::config::setting_view;
use crate::json::{json_document, json_null, json_parses, parse_json};
use crate::text::{same_text, spec_is_blank};

verus! {

/// Errors of running a command.
#[derive(Debug)]
pub enum AppError {
    /// A note operation failed.
    AppNoteError(NoteServiceError),
    /// A link operation failed.
    AppLinkError(LinkServiceError),
    /// The connection pool could not be set up.
    AppPoolError(PoolError),
    /// The configuration could not be loaded.
    AppConfigError(config::ConfigError),
    /// Metadata given on the command line is not JSON, or output could not be serialized.
    AppSerializationError(serde_json::Error),
    /// A file could not be read or written.
    AppIoError(std::io::Error),
}

/// Whether `text` is `prefix` followed by the `Display` text of `shown`.
pub open spec fn prefixes_display<T: std::fmt::Display>(prefix: Seq<char>, shown: T, text: Seq<char>) -> bool {
    exists|t: String|
        #![trigger vstd::string::to_string_from_display_ensures::<T>(&shown, t)]
        vstd::string::to_string_from_display_ensures::<T>(&shown, t) && text == prefix + t@
}

/// Whether `text` is the message shown for the application error `e`.
pub open spec fn describes_app_error(e: AppError, text: Seq<char>) -> bool {
    match e {
        AppError::AppNoteError(n) => prefixes_note_error("Application note error: "@, n, text),
        AppError::AppLinkError(l) => {
            let prefix = "Application link error: "@;
            &&& prefix.len() <= text.len()
            &&& text.take(prefix.len() as int) == prefix
            &&& describes_link_error(l, text.skip(prefix.len() as int))
        },
        AppError::AppPoolError(p) => text == "Application pool error: "@ + pool_error_text(p),
        AppError::AppConfigError(c) => prefixes_display("Application config error: "@, c, text),
        AppError::AppSerializationError(j) => prefixes_display("Serialization error: "@, j, text),
        AppError::AppIoError(i) => prefixes_display("Application IO error: "@, i, text),
    }
}

impl AppError {
    /// The message shown for this error.
    pub fn message(&self) -> (res: String)
        ensures
            describes_app_error(*self, res@),
    {
        match self {
            AppError::AppNoteError(n) => {
                let inner = n.message();
                let res = String::from_str("Application note error: ").concat(inner.as_str());
                assert(res@.take("Application note error: "@.len() as int) =~= "Application note error: "@);
                assert(res@.skip("Application note error: "@.len() as int) =~= inner@);
                res
            },
            AppError::AppLinkError(l) => {
                let inner = l.message();
                let res = String::from_str("Application link error: ").concat(inner.as_str());
                assert(res@.take("Application link error: "@.len() as int) =~= "Application link error: "@);
                assert(res@.skip("Application link error: "@.len() as int) =~= inner@);
                res
            },
            AppError::AppPoolError(p) => String::from_str("Application pool error: ").concat(
                p.message().as_str(),
            ),
            AppError::AppConfigError(c) => {
                let shown = c.to_string();
                String::from_str("Application config error: ").concat(shown.as_str())
            },
            AppError::AppSerializationError(j) => {
                let shown = j.to_string();
                String::from_str("Serialization error: ").concat(shown.as_str())
            },
            AppError::AppIoError(i) => {
                let shown = i.to_string();
                String::from_str("Application IO error: ").concat(shown.as_str())
            },
        }
    }
}

/// The parsed command line.
#[derive(Debug)]
pub struct Args {
    /// Optional config file path (overrides default config discovery)
    pub config: Option<String>,
    /// Optional database URL (overrides config/env)
    pub db_url: Option<String>,
    /// Optional log level (overrides config/env)
    pub log_level: Option<String>,
    /// The command to run.
    pub command: Commands,
}

/// The commands of the command line.
#[derive(Debug)]
pub enum Commands {
    /// Create a new graph note
    Create { title: String, content: String, metadata: Option<String> },
    /// Read a graph note by provided id
    Read { id: i64 },
    /// Update a existing graph note by id
    Update { id: i64, title: String, content: String, metadata: Option<String> },
    /// Delete/Remove a graph note by id
    Delete { id: i64 },
    /// Link to graph notes
    Link { from_note_id: i64, to_note_id: i64, link_type: LinkType },
    /// Initialize a default configuration file in the standard config directory
    InitConfig,
}

/// The values a subcommand was given, by argument; an argument the
/// subcommand does not have, or that was not given, is `None`.
#[derive(Debug)]
pub struct SubcommandValues {
    /// The `TITLE` argument.
    pub title: Option<String>,
    /// The `CONTENT` argument.
    pub content: Option<String>,
    /// The `--metadata` option.
    pub metadata: Option<String>,
    /// The `ID` argument.
    pub id: Option<i64>,
    /// The `FROM_NOTE_ID` argument.
    pub from_note_id: Option<i64>,
    /// The `TO_NOTE_ID` argument.
    pub to_note_id: Option<i64>,
    /// The `LINK_TYPE` argument.
    pub link_type: Option<String>,
}

/// The command that a subcommand name and its values stand for: `None` for
/// an unknown name, a missing required value, or an unknown link type.
pub open spec fn command_from(name: Seq<char>, v: SubcommandValues) -> Option<Commands> {
    if name == "create"@ {
        if v.title is Some && v.content is Some {
            Some(Commands::Create { title: v.title->0, content: v.content->0, metadata: v.metadata })
        } else {
            None
        }
    } else if name == "read"@ {
        if v.id is Some {
            Some(Commands::Read { id: v.id->0 })
        } else {
            None
        }
    } else if name == "update"@ {
        if v.id is Some && v.title is Some && v.content is Some {
            Some(
                Commands::Update {
                    id: v.id->0,
                    title: v.title->0,
                    content: v.content->0,
                    metadata: v.metadata,
                },
            )
        } else {
            None
        }
    } else if name == "delete"@ {
        if v.id is Some {
            Some(Commands::Delete { id: v.id->0 })
        } else {
            None
        }
    } else if name == "link"@ {
        if v.from_note_id is Some && v.to_note_id is Some && v.link_type is Some
            && link_type_named(v.link_type->0@) is Some {
            Some(
                Commands::Link {
                    from_note_id: v.from_note_id->0,
                    to_note_id: v.to_note_id->0,
                    link_type: link_type_named(v.link_type->0@)->0,
                },
            )
        } else {
            None
        }
    } else if name == "init-config"@ {
        Some(Commands::InitConfig)
    } else {
        None
    }
}

/// The subcommand names are six different texts.
proof fn lemma_subcommand_names_distinct()
    ensures
        "create"@ != "read"@,
        "create"@ != "update"@,
        "create"@ != "delete"@,
        "create"@ != "link"@,
        "create"@ != "init-config"@,
        "read"@ != "update"@,
        "read"@ != "delete"@,
        "read"@ != "link"@,
        "read"@ != "init-config"@,
        "update"@ != "delete"@,
        "update"@ != "link"@,
        "update"@ != "init-config"@,
        "delete"@ != "link"@,
        "delete"@ != "init-config"@,
        "link"@ != "init-config"@,
{
    reveal_strlit("create");
    reveal_strlit("read");
    reveal_strlit("update");
    reveal_strlit("delete");
    reveal_strlit("link");
    reveal_strlit("init-config");
    assert("create"@[0] != "read"@[0]);
    assert("create"@[0] != "update"@[0]);
    assert("create"@[0] != "delete"@[0]);
    assert("create"@[0] != "link"@[0]);
    assert("create"@[0] != "init-config"@[0]);
    assert("read"@[0] != "update"@[0]);
    assert("read"@[0] != "delete"@[0]);
    assert("read"@[0] != "link"@[0]);
    assert("read"@[0] != "init-config"@[0]);
    assert("update"@[0] != "delete"@[0]);
    assert("update"@[0] != "link"@[0]);
    assert("update"@[0] != "init-config"@[0]);
    assert("delete"@[0] != "link"@[0]);
    assert("delete"@[0] != "init-config"@[0]);
    assert("link"@[0] != "init-config"@[0]);
}

/// `link <FROM_NOTE_ID> <TO_NOTE_ID> <LINK_TYPE>` links from the first id to
/// the second, whatever the two ids are, with the type of that name; a link
/// type name that names no type gives no command.
pub proof fn lemma_link_command(from_note_id: i64, to_note_id: i64, v: SubcommandValues)
    requires
        v.from_note_id == Some(from_note_id),
        v.to_note_id == Some(to_note_id),
        v.link_type is Some,
    ensures
        forall|t: LinkType| #[trigger] link_type_name(t) == v.link_type->0@ ==> command_from(
            "link"@,
            v,
        ) == Some(Commands::Link { from_note_id, to_note_id, link_type: t }),
        (forall|t: LinkType| #[trigger] link_type_name(t) != v.link_type->0@) ==> command_from(
            "link"@,
            v,
        ) is None,
{
    lemma_subcommand_names_distinct();
    assert forall|t: LinkType| #[trigger] link_type_name(t) == v.link_type->0@ implies command_from(
        "link"@,
        v,
    ) == Some(Commands::Link { from_note_id, to_note_id, link_type: t }) by {
        lemma_link_type_name_round_trip(t);
    }
    if forall|t: LinkType| #[trigger] link_type_name(t) != v.link_type->0@ {
        assert(link_type_name(LinkType::Reference) != v.link_type->0@);
        assert(link_type_name(LinkType::Related) != v.link_type->0@);
        assert(link_type_name(LinkType::Parent) != v.link_type->0@);
        assert(link_type_name(LinkType::Child) != v.link_type->0@);
    }
}

/// `create <TITLE> <CONTENT> [--metadata <JSON>]` creates a note with that
/// title, content and metadata text; without a title or content there is no command.
pub proof fn lemma_create_command(v: SubcommandValues)
    ensures
        v.title is Some && v.content is Some ==> command_from("create"@, v) == Some(
            Commands::Create { title: v.title->0, content: v.content->0, metadata: v.metadata },
        ),
        v.title is None || v.content is None ==> command_from("create"@, v) is None,
{
}

/// `read <ID>` and `delete <ID>` act on the note with that id.
pub proof fn lemma_read_and_delete_commands(id: i64, v: SubcommandValues)
    requires
        v.id == Some(id),
    ensures
        command_from("read"@, v) == Some(Commands::Read { id }),
        command_from("delete"@, v) == Some(Commands::Delete { id }),
{
    lemma_subcommand_names_distinct();
}

/// `update <ID> <TITLE> <CONTENT> [--metadata <JSON>]` updates the note with
/// that id to that title, content and metadata text.
pub proof fn lemma_update_command(id: i64, v: SubcommandValues)
    requires
        v.id == Some(id),
        v.title is Some,
        v.content is Some,
    ensures
        command_from("update"@, v) == Some(
            Commands::Update { id, title: v.title->0, content: v.content->0, metadata: v.metadata },
        ),
{
    lemma_subcommand_names_distinct();
}

/// `init-config` needs no value.
pub proof fn lemma_init_config_command(v: SubcommandValues)
    ensures
        command_from("init-config"@, v) == Some(Commands::InitConfig),
{
    lemma_subcommand_names_distinct();
}

impl Commands {
    /// The command for a subcommand name and the values given to it.
    pub fn from_values(name: &str, values: SubcommandValues) -> (res: Option<Commands>)
        ensures
            res == command_from(name@, values),
    {
        let ghost v = values;
        let SubcommandValues { title, content, metadata, id, from_note_id, to_note_id, link_type } =
            values;
        if same_text(name, "create") {
            match (title, content) {
                (Some(title), Some(content)) => Some(Commands::Create { title, content, metadata }),
                _ => None,
            }
        } else if same_text(name, "read") {
            match id {
                Some(id) => Some(Commands::Read { id }),
                None => None,
            }
        } else if same_text(name, "update") {
            match (id, title, content) {
                (Some(id), Some(title), Some(content)) => Some(
                    Commands::Update { id, title, content, metadata },
                ),
                _ => None,
            }
        } else if same_text(name, "delete") {
            match id {
                Some(id) => Some(Commands::Delete { id }),
                None => None,
            }
        } else if same_text(name, "link") {
            match (from_note_id, to_note_id, link_type) {
                (Some(from_note_id), Some(to_note_id), Some(text)) => match LinkType::parse(
                    text.as_str(),
                ) {
                    Some(link_type) => Some(Commands::Link { from_note_id, to_note_id, link_type }),
                    None => None,
                },
                _ => None,
            }
        } else if same_text(name, "init-config") {
            Some(Commands::InitConfig)
        } else {
            None
        }
    }
}

/// What an argument's value is read as.
#[derive(Debug, Clone, Copy, PartialEq, Eq, Structural)]
pub enum ValueKind {
    /// Any text.
    Text,
    /// A 64-bit signed integer.
    Integer,
    /// One of the link type names: `reference`, `related`, `parent`, `child`.
    LinkTypeName,
}

/// The definition of one command-line argument.
#[derive(Debug, Clone, Copy)]
pub struct ArgDefinition {
    /// The id its value is found under.
    pub id: &'static str,
    /// The long name of an option (`--long`); `None` for a positional argument.
    pub long: Option<&'static str>,
    /// The placeholder of the value shown in help.
    pub value_name: &'static str,
    /// The description shown in help, if any.
    pub help: Option<&'static str>,
    /// Whether the argument must be given.
    pub required: bool,
    /// What the value is read as.
    pub kind: ValueKind,
}

/// The definition of one subcommand.
#[derive(Debug, Clone)]
pub struct SubcommandDefinition {
    /// The subcommand's name.
    pub name: &'static str,
    /// Its description shown in help.
    pub about: &'static str,
    /// Its arguments, positional ones in order.
    pub args: Vec<ArgDefinition>,
}

/// The definition of the whole command line; a subcommand must be given, and
/// a bare invocation prints the help.
#[derive(Debug, Clone)]
pub struct CliDefinition {
    /// The program's name.
    pub name: &'static str,
    /// Its author.
    pub author: &'static str,
    /// Its version.
    pub version: &'static str,
    /// Its description shown in help.
    pub about: &'static str,
    /// The options that come before the subcommand.
    pub options: Vec<ArgDefinition>,
    /// The subcommands, in the order help lists them.
    pub subcommands: Vec<SubcommandDefinition>,
}

/// A required positional argument read as text.
pub open spec fn spec_positional(id: &'static str, value_name: &'static str) -> ArgDefinition {
    ArgDefinition { id, long: None, value_name, help: None, required: true, kind: ValueKind::Text }
}

/// A required positional argument read as an integer.
pub open spec fn spec_integer_positional(id: &'static str, value_name: &'static str) -> ArgDefinition {
    ArgDefinition { kind: ValueKind::Integer, ..spec_positional(id, value_name) }
}

/// An option `--long <VALUE_NAME>`, read as text, that may be left out.
pub open spec fn spec_optional(id: &'static str, long: &'static str, value_name: &'static str) -> ArgDefinition {
    ArgDefinition {
        id,
        long: Some(long),
        value_name,
        help: None,
        required: false,
        kind: ValueKind::Text,
    }
}

/// The same argument with this description.
pub open spec fn with_help(a: ArgDefinition, help: &'static str) -> ArgDefinition {
    ArgDefinition { help: Some(help), ..a }
}

/// The options before the subcommand: `--config`, `--db-url`, `--log-level`.
pub open spec fn global_options() -> Seq<ArgDefinition> {
    seq![
        with_help(
            spec_optional("config", "config", "CONFIG"),
            "Optional config file path (overrides default config discovery)",
        ),
        with_help(
            spec_optional("db_url", "db-url", "DB_URL"),
            "Optional database URL (overrides config/env)",
        ),
        with_help(
            spec_optional("log_level", "log-level", "LOG_LEVEL"),
            "Optional log level (overrides config/env)",
        ),
    ]
}

/// Whether `s` is the subcommand with this name, description and arguments.
pub open spec fn is_subcommand(
    s: SubcommandDefinition,
    name: &'static str,
    about: &'static str,
    args: Seq<ArgDefinition>,
) -> bool {
    s.name == name && s.about == about && s.args@ == args
}

/// Whether `d` is the command line of the program: its name, author, version
/// and description, the three global options, and the subcommands `create`,
/// `read`, `update`, `delete`, `link` and `init-config` with their arguments.
pub open spec fn is_cli_definition(d: CliDefinition) -> bool {
    &&& d.name == "graph-notes-cli"
    &&& d.author == "Peter Vincek"
    &&& d.version == "0.1.0"
    &&& d.about == "Terminal application for managing graph notes"
    &&& d.options@ == global_options()
    &&& d.subcommands@.len() == 6
    &&& is_subcommand(
        d.subcommands@[0],
        "create",
        "Create a new graph note",
        seq![
            spec_positional("title", "TITLE"),
            spec_positional("content", "CONTENT"),
            spec_optional("metadata", "metadata", "METADATA"),
        ],
    )
    &&& is_subcommand(
        d.subcommands@[1],
        "read",
        "Read a graph note by provided id",
        seq![spec_integer_positional("id", "ID")],
    )
    &&& is_subcommand(
        d.subcommands@[2],
        "update",
        "Update a existing graph note by id",
        seq![
            spec_integer_positional("id", "ID"),
            spec_positional("title", "TITLE"),
            spec_positional("content", "CONTENT"),
            spec_optional("metadata", "metadata", "METADATA"),
        ],
    )
    &&& is_subcommand(
        d.subcommands@[3],
        "delete",
        "Delete/Remove a graph note by id",
        seq![spec_integer_positional("id", "ID")],
    )
    &&& is_subcommand(
        d.subcommands@[4],
        "link",
        "Link to graph notes",
        seq![
            spec_integer_positional("from_note_id", "FROM_NOTE_ID"),
            spec_integer_positional("to_note_id", "TO_NOTE_ID"),
            ArgDefinition { kind: ValueKind::LinkTypeName, ..spec_positional("link_type", "LINK_TYPE") },
        ],
    )
    &&& is_subcommand(
        d.subcommands@[5],
        "init-config",
        "Initialize a default configuration file in the standard config directory",
        Seq::<ArgDefinition>::empty(),
    )
}

/// A required positional argument.
fn positional(id: &'static str, value_name: &'static str) -> (res: ArgDefinition)
    ensures
        res == spec_positional(id, value_name),
{
    ArgDefinition { id, long: None, value_name, help: None, required: true, kind: ValueKind::Text }
}

/// A required positional argument holding an integer.
fn integer_positional(id: &'static str, value_name: &'static str) -> (res: ArgDefinition)
    ensures
        res == spec_integer_positional(id, value_name),
{
    ArgDefinition { kind: ValueKind::Integer, ..positional(id, value_name) }
}

/// An option `--long <VALUE_NAME>` that may be left out.
fn optional(id: &'static str, long: &'static str, value_name: &'static str) -> (res: ArgDefinition)
    ensures
        res == spec_optional(id, long, value_name),
{
    ArgDefinition {
        id,
        long: Some(long),
        value_name,
        help: None,
        required: false,
        kind: ValueKind::Text,
    }
}

/// A subcommand with its description, before its arguments are added.
fn subcommand(name: &'static str, about: &'static str) -> (res: SubcommandDefinition)
    ensures
        res.name == name,
        res.about == about,
        res.args@ == Seq::<ArgDefinition>::empty(),
{
    SubcommandDefinition { name, about, args: Vec::new() }
}

/// The names of the link types, in the order `reference`, `related`,
/// `parent`, `child`.
pub open spec fn link_type_names() -> Seq<Seq<char>> {
    seq![
        link_type_name(LinkType::Reference),
        link_type_name(LinkType::Related),
        link_type_name(LinkType::Parent),
        link_type_name(LinkType::Child),
    ]
}

/// The `clap` argument built for a definition: its id, then its long name (if
/// any), its placeholder, its description (if any), whether it is required,
/// and how its value is read.
pub open spec fn clap_arg_of(def: ArgDefinition) -> Arg {
    let a0 = new_arg(def.id@);
    let a1 = match def.long {
        Some(long) => arg_with_long(a0, long@),
        None => a0,
    };
    let a2 = arg_with_value_name(a1, def.value_name@);
    let a3 = match def.help {
        Some(help) => arg_with_help(a2, help@),
        None => a2,
    };
    let a4 = arg_with_required(a3, def.required);
    match def.kind {
        ValueKind::Text => a4,
        ValueKind::Integer => arg_with_integer_values(a4),
        ValueKind::LinkTypeName => arg_with_possible_values(a4, link_type_names()),
    }
}

/// `command` with the `clap` arguments of these definitions added in order.
pub open spec fn with_args(command: Command, args: Seq<ArgDefinition>) -> Command
    decreases args.len(),
{
    if args.len() == 0 {
        command
    } else {
        command_with_arg(with_args(command, args.drop_last()), clap_arg_of(args.last()))
    }
}

/// The `clap` command built for a subcommand definition.
pub open spec fn clap_subcommand_of(def: SubcommandDefinition) -> Command {
    with_args(command_with_about(new_command(def.name@), def.about@), def.args@)
}

/// `command` with the `clap` commands of these subcommand definitions added in order.
pub open spec fn with_subcommands(command: Command, subs: Seq<SubcommandDefinition>) -> Command
    decreases subs.len(),
{
    if subs.len() == 0 {
        command
    } else {
        command_with_subcommand(
            with_subcommands(command, subs.drop_last()),
            clap_subcommand_of(subs.last()),
        )
    }
}

/// The `clap` command built for the definition of the command line: its name,
/// author, version and description, the options, the subcommands, then a
/// subcommand required and help on a bare invocation.
pub open spec fn clap_command_of(def: CliDefinition) -> Command {
    let c0 = command_with_about(
        command_with_version(
            command_with_author(new_command(def.name@), def.author@),
            def.version@,
        ),
        def.about@,
    );
    let c1 = with_subcommands(with_args(c0, def.options@), def.subcommands@);
    command_with_arg_required_else_help(command_with_subcommand_required(c1, true), true)
}

/// The `clap` argument for a definition.
fn clap_arg(def: ArgDefinition) -> (res: Arg)
    ensures
        res == clap_arg_of(def),
{
    let mut arg = arg_new(def.id);
    match def.long {
        Some(long) => {
            arg = arg_long(arg, long);
        },
        None => {},
    }
    arg = arg_value_name(arg, def.value_name);
    match def.help {
        Some(help) => {
            arg = arg_help(arg, help);
        },
        None => {},
    }
    arg = arg_required(arg, def.required);
    match def.kind {
        ValueKind::Text => arg,
        ValueKind::Integer => arg_integer(arg),
        ValueKind::LinkTypeName => {
            let mut names: Vec<&'static str> = Vec::new();
            names.push(LinkType::Reference.as_str());
            names.push(LinkType::Related.as_str());
            names.push(LinkType::Parent.as_str());
            names.push(LinkType::Child.as_str());
            assert(names@.map_values(|s: &'static str| s@) =~= link_type_names());
            arg_one_of(arg, names)
        },
    }
}

/// `command` with the `clap` arguments of `args` added in order.
fn add_args(command: Command, args: &Vec<ArgDefinition>) -> (res: Command)
    ensures
        res == with_args(command, args@),
{
    let n = args.len();
    let mut cmd = command;
    let mut i: usize = 0;
    while i < n
        invariant
            n == args@.len(),
            i <= n,
            cmd == with_args(command, args@.take(i as int)),
        decreases n - i,
    {
        assert(args@.take(i + 1).drop_last() =~= args@.take(i as int));
        cmd = command_arg(cmd, clap_arg(args[i]));
        i = i + 1;
    }
    assert(args@.take(n as int) =~= args@);
    cmd
}

/// The `clap` command for a subcommand definition.
fn clap_subcommand(def: &SubcommandDefinition) -> (res: Command)
    ensures
        res == clap_subcommand_of(*def),
{
    add_args(command_about(command_new(def.name), def.about), &def.args)
}

impl Args {
    /// The definition of the command line.
    pub fn definition() -> (res: CliDefinition)
        ensures
            is_cli_definition(res),
    {
        let mut options: Vec<ArgDefinition> = Vec::new();
        options.push(
            ArgDefinition {
                help: Some("Optional config file path (overrides default config discovery)"),
                ..optional("config", "config", "CONFIG")
            },
        );
        options.push(
            ArgDefinition {
                help: Some("Optional database URL (overrides config/env)"),
                ..optional("db_url", "db-url", "DB_URL")
            },
        );
        options.push(
            ArgDefinition {
                help: Some("Optional log level (overrides config/env)"),
                ..optional("log_level", "log-level", "LOG_LEVEL")
            },
        );
        let mut create = subcommand("create", "Create a new graph note");
        create.args.push(positional("title", "TITLE"));
        create.args.push(positional("content", "CONTENT"));
        create.args.push(optional("metadata", "metadata", "METADATA"));
        let mut read = subcommand("read", "Read a graph note by provided id");
        read.args.push(integer_positional("id", "ID"));
        let mut update = subcommand("update", "Update a existing graph note by id");
        update.args.push(integer_positional("id", "ID"));
        update.args.push(positional("title", "TITLE"));
        update.args.push(positional("content", "CONTENT"));
        update.args.push(optional("metadata", "metadata", "METADATA"));
        let mut delete = subcommand("delete", "Delete/Remove a graph note by id");
        delete.args.push(integer_positional("id", "ID"));
        let mut link = subcommand("link", "Link to graph notes");
        link.args.push(integer_positional("from_note_id", "FROM_NOTE_ID"));
        link.args.push(integer_positional("to_note_id", "TO_NOTE_ID"));
        link.args.push(
            ArgDefinition { kind: ValueKind::LinkTypeName, ..positional("link_type", "LINK_TYPE") },
        );
        let init_config = subcommand(
            "init-config",
            "Initialize a default configuration file in the standard config directory",
        );
        let mut subcommands: Vec<SubcommandDefinition> = Vec::new();
        subcommands.push(create);
        subcommands.push(read);
        subcommands.push(update);
        subcommands.push(delete);
        subcommands.push(link);
        subcommands.push(init_config);
        let res = CliDefinition {
            name: "graph-notes-cli",
            author: "Peter Vincek",
            version: "0.1.0",
            about: "Terminal application for managing graph notes",
            options,
            subcommands,
        };
        assert(res.options@ =~= global_options());
        assert(res.subcommands@[0].args@ =~= seq![
            spec_positional("title", "TITLE"),
            spec_positional("content", "CONTENT"),
            spec_optional("metadata", "metadata", "METADATA"),
        ]);
        assert(res.subcommands@[1].args@ =~= seq![spec_integer_positional("id", "ID")]);
        assert(res.subcommands@[2].args@ =~= seq![
            spec_integer_positional("id", "ID"),
            spec_positional("title", "TITLE"),
            spec_positional("content", "CONTENT"),
            spec_optional("metadata", "metadata", "METADATA"),
        ]);
        assert(res.subcommands@[3].args@ =~= seq![spec_integer_positional("id", "ID")]);
        assert(res.subcommands@[4].args@ =~= seq![
            spec_integer_positional("from_note_id", "FROM_NOTE_ID"),
            spec_integer_positional("to_note_id", "TO_NOTE_ID"),
            ArgDefinition { kind: ValueKind::LinkTypeName, ..spec_positional("link_type", "LINK_TYPE") },
        ]);
        res
    }

    /// The command-line definition of [`Args::definition`] as a `clap` command:
    /// the global options, then one subcommand per command, one of which must
    /// be given.
    pub fn command() -> (res: Command)
        ensures
            exists|def: CliDefinition| #[trigger] is_cli_definition(def) && res == clap_command_of(
                def,
            ),
    {
        let def = Args::definition();
        let mut cmd = command_new(def.name);
        cmd = command_author(cmd, def.author);
        cmd = command_version(cmd, def.version);
        cmd = command_about(cmd, def.about);
        cmd = add_args(cmd, &def.options);
        let ghost base = cmd;
        let m = def.subcommands.len();
        let mut j: usize = 0;
        while j < m
            invariant
                m == def.subcommands@.len(),
                j <= m,
                cmd == with_subcommands(base, def.subcommands@.take(j as int)),
            decreases m - j,
        {
            assert(def.subcommands@.take(j + 1).drop_last() =~= def.subcommands@.take(j as int));
            cmd = command_subcommand(cmd, clap_subcommand(&def.subcommands[j]));
            j = j + 1;
        }
        assert(def.subcommands@.take(m as int) =~= def.subcommands@);
        cmd = command_subcommand_required(cmd, true);
        let res = command_arg_required_else_help(cmd, true);
        assert(is_cli_definition(def) && res == clap_command_of(def));
        res
    }

    /// The arguments for the given global options and the subcommand `name`
    /// with these values: `None` exactly when they stand for no command.
    pub fn from_parts(
        config: Option<String>,
        db_url: Option<String>,
        log_level: Option<String>,
        name: &str,
        values: SubcommandValues,
    ) -> (res: Option<Args>)
        ensures
            match command_from(name@, values) {
                None => res is None,
                Some(command) => res == Some(Args { config, db_url, log_level, command }),
            },
    {
        match Commands::from_values(name, values) {
            None => None,
            Some(command) => Some(Args { config, db_url, log_level, command }),
        }
    }

    /// Reads, through `clap`, the subcommand matched against [`Args::command`],
    /// the values of its arguments and the global options, and hands them to
    /// [`Args::from_parts`]: `None` when no subcommand was matched or when the
    /// subcommand and its values stand for no command.
    pub fn from_matches(arg_matches: &ArgMatches) -> (res: Option<Args>)
        ensures
            read_from_matches(res, *arg_matches),
    {
        match matched_subcommand(arg_matches) {
            None => None,
            Some((name, sub)) => {
                let values = SubcommandValues {
                    title: matched_text(sub, "title"),
                    content: matched_text(sub, "content"),
                    metadata: matched_text(sub, "metadata"),
                    id: matched_integer(sub, "id"),
                    from_note_id: matched_integer(sub, "from_note_id"),
                    to_note_id: matched_integer(sub, "to_note_id"),
                    link_type: matched_text(sub, "link_type"),
                };
                let ghost given = values;
                assert(values_matched(given, *sub));
                let res = Args::from_parts(
                    matched_text(arg_matches, "config"),
                    matched_text(arg_matches, "db_url"),
                    matched_text(arg_matches, "log_level"),
                    name,
                    values,
                );
                assert(parsed_as(res, command_from(name@, given), *arg_matches));
                assert(values_matched(given, *sub));
                assert(read_for_subcommand(res, name@, *sub, *arg_matches));
                res
            },
        }
    }
}

/// Whether `v` holds, argument by argument, what `clap` matched in `sub`.
pub open spec fn values_matched(v: SubcommandValues, sub: ArgMatches) -> bool {
    &&& setting_view(v.title) == text_matched(sub, "title"@)
    &&& setting_view(v.content) == text_matched(sub, "content"@)
    &&& setting_view(v.metadata) == text_matched(sub, "metadata"@)
    &&& v.id == integer_matched(sub, "id"@)
    &&& v.from_note_id == integer_matched(sub, "from_note_id"@)
    &&& v.to_note_id == integer_matched(sub, "to_note_id"@)
    &&& setting_view(v.link_type) == text_matched(sub, "link_type"@)
}

/// Whether `res` is what `clap`'s matches give: `None` without a subcommand;
/// otherwise what the subcommand's name and the values matched for its
/// arguments stand for (see `command_from`), with the global options matched.
pub open spec fn read_from_matches(res: Option<Args>, matched: ArgMatches) -> bool {
    match subcommand_matched(matched) {
        None => res is None,
        Some(found) => read_for_subcommand(res, found.0, found.1, matched),
    }
}

/// Whether `res` is what the subcommand `name`, with the values `clap` matched
/// for its arguments in `sub`, stands for, with the global options matched.
pub open spec fn read_for_subcommand(
    res: Option<Args>,
    name: Seq<char>,
    sub: ArgMatches,
    matched: ArgMatches,
) -> bool {
    exists|v: SubcommandValues|
        #![trigger values_matched(v, sub)]
        values_matched(v, sub) && parsed_as(res, command_from(name, v), matched)
}

/// Whether `res` is what the command line gives for `command`: `None` when
/// there is no command, else the command with the global options `clap` matched.
pub open spec fn parsed_as(res: Option<Args>, command: Option<Commands>, matched: ArgMatches) -> bool {
    match command {
        None => res is None,
        Some(c) => res matches Some(args) && args.command == c && options_matched(args, matched),
    }
}

/// Each global option of the arguments read from `clap`'s matches is the
/// value matched under the id that the command-line definition gives the
/// option with that long name: `--config` fills `config`, `--db-url` fills
/// `db_url`, and `--log-level` fills `log_level`; the definition has each of
/// the three long names.
pub proof fn lemma_options_read_by_long_name(args: Args, matched: ArgMatches, def: CliDefinition)
    requires
        options_matched(args, matched),
        is_cli_definition(def),
    ensures
        forall|i: int|
            0 <= i < def.options@.len() && #[trigger] def.options@[i].long == Some("config")
                ==> setting_view(args.config) == text_matched(matched, def.options@[i].id@),
        forall|i: int|
            0 <= i < def.options@.len() && #[trigger] def.options@[i].long == Some("db-url")
                ==> setting_view(args.db_url) == text_matched(matched, def.options@[i].id@),
        forall|i: int|
            0 <= i < def.options@.len() && #[trigger] def.options@[i].long == Some("log-level")
                ==> setting_view(args.log_level) == text_matched(matched, def.options@[i].id@),
        exists|i: int| 0 <= i < def.options@.len() && #[trigger] def.options@[i].long == Some("config"),
        exists|i: int| 0 <= i < def.options@.len() && #[trigger] def.options@[i].long == Some("db-url"),
        exists|i: int| 0 <= i < def.options@.len() && #[trigger] def.options@[i].long == Some("log-level"),
{
    reveal_strlit("config");
    reveal_strlit("db-url");
    reveal_strlit("log-level");
    reveal_strlit("db_url");
    reveal_strlit("log_level");
    assert("config"@[0] != "db-url"@[0]);
    assert("config"@.len() != "log-level"@.len());
    assert("db-url"@.len() != "log-level"@.len());
    assert(def.options@[0].long == Some("config"));
    assert(def.options@[1].long == Some("db-url"));
    assert(def.options@[2].long == Some("log-level"));
    assert forall|i: int|
        0 <= i < def.options@.len() && #[trigger] def.options@[i].long == Some("config") implies i == 0 by {
        if i == 1 {
            assert(def.options@[1].long->0@ == "db-url"@);
        } else if i == 2 {
            assert(def.options@[2].long->0@ == "log-level"@);
        }
    }
    assert forall|i: int|
        0 <= i < def.options@.len() && #[trigger] def.options@[i].long == Some("db-url") implies i == 1 by {
        if i == 0 {
            assert(def.options@[0].long->0@ == "config"@);
        } else if i == 2 {
            assert(def.options@[2].long->0@ == "log-level"@);
        }
    }
    assert forall|i: int|
        0 <= i < def.options@.len() && #[trigger] def.options@[i].long == Some("log-level") implies i == 2 by {
        if i == 0 {
            assert(def.options@[0].long->0@ == "config"@);
        } else if i == 1 {
            assert(def.options@[1].long->0@ == "db-url"@);
        }
    }
}

/// Whether the global options of `args` are what `clap` matched.
pub open spec fn options_matched(args: Args, matched: ArgMatches) -> bool {
    &&& setting_view(args.config) == text_matched(matched, "config"@)
    &&& setting_view(args.db_url) == text_matched(matched, "db_url"@)
    &&& setting_view(args.log_level) == text_matched(matched, "log_level"@)
}

/// What a finished command produced, for printing.
#[derive(Debug)]
pub enum Output {
    /// A note that was created, read or updated.
    Note(Note),
    /// The note with this id was deleted.
    NoteDeleted(i64),
    /// A link that was created.
    Link(Link),
    /// The configuration file was already there and was left alone.
    ConfigAlreadyExists,
    /// The default configuration file was written.
    ConfigCreated,
}

/// What the run of a command asks for next.
#[derive(Debug)]
pub enum AppAction {
    /// Create this note and report the outcome to [`AppSession::note_result`].
    CreateNote(NewNote),
    /// Read the note with this id and report the outcome to [`AppSession::note_result`].
    GetNote(i64),
    /// Store this note over the one with its id and report the outcome to
    /// [`AppSession::note_result`].
    UpdateNote(Note),
    /// Delete the note with this id and report the outcome to
    /// [`AppSession::deletion_result`].
    DeleteNote(i64),
    /// Create this link and report the outcome to [`AppSession::link_result`].
    CreateLink(NewLink),
    /// Report to [`AppSession::config_checked`] whether the configuration file exists.
    CheckConfigFile,
    /// Write this text as the configuration file (creating its directory) and
    /// report the outcome to [`AppSession::config_written`].
    WriteDefaultConfig(String),
    /// The command is over, with this outcome.
    Finish(Result<Output, AppError>),
}

/// Where the run of a command stands.
#[derive(Debug)]
pub enum SessionStage {
    /// Waiting for the created note.
    AwaitCreated,
    /// Waiting for the note that was read.
    AwaitRead,
    /// Waiting for the note to update, which then gets this title, content and
    /// (when given) metadata.
    AwaitExisting { title: String, content: String, metadata: Option<String> },
    /// Waiting for the updated note.
    AwaitUpdated,
    /// Waiting for the deletion of the note with this id.
    AwaitDeleted(i64),
    /// Waiting for the created link.
    AwaitLinked,
    /// Waiting to learn whether the configuration file exists.
    AwaitConfigCheck,
    /// Waiting for the configuration file to be written.
    AwaitConfigWrite,
    /// The command is over.
    Finished,
}

/// The run of one command against the note store.
#[derive(Debug)]
pub struct AppSession {
    stage: SessionStage,
}

/// Whether the run is waiting for the note store (which may turn out to be unavailable).
pub open spec fn awaits_store(stage: SessionStage) -> bool {
    match stage {
        SessionStage::AwaitCreated | SessionStage::AwaitRead | SessionStage::AwaitExisting { .. }
        | SessionStage::AwaitUpdated | SessionStage::AwaitDeleted(_) | SessionStage::AwaitLinked => true,
        _ => false,
    }
}

/// Whether the run is waiting for the outcome of a query that returns a note.
pub open spec fn awaits_note(stage: SessionStage) -> bool {
    match stage {
        SessionStage::AwaitCreated | SessionStage::AwaitRead | SessionStage::AwaitExisting { .. }
        | SessionStage::AwaitUpdated => true,
        _ => false,
    }
}

/// The note that an update stores: the note read, with the new title and
/// content, and its own id and creation time.
pub open spec fn is_revision(revised: Note, existing: Note, title: String, content: String) -> bool {
    &&& revised.id == existing.id
    &&& revised.created_at == existing.created_at
    &&& revised.title == title
    &&& revised.content == content
}

/// The note an update asks to store: the note read, with the new title and
/// content, and the document read from the new metadata text when some is given.
pub open spec fn revised_note(existing: Note, title: String, content: String, metadata: Option<String>) -> Note {
    match metadata {
        None => Note { title, content, ..existing },
        Some(text) => Note { title, content, metadata: json_document(text@)->0, ..existing },
    }
}

/// An update keeps the id and creation time of the note read, and takes the
/// new title and content.
pub proof fn lemma_update_keeps_identity(
    existing: Note,
    title: String,
    content: String,
    metadata: Option<String>,
)
    ensures
        is_revision(revised_note(existing, title, content, metadata), existing, title, content),
{
}

/// The metadata an update stores is the document read from the `--metadata`
/// text when one is given, whatever the title and content are, and the note's
/// own metadata otherwise.
pub proof fn lemma_update_metadata(
    existing: Note,
    title: String,
    content: String,
    metadata: Option<String>,
)
    ensures
        metadata is Some ==> revised_note(existing, title, content, metadata).metadata
            == json_document(metadata->0@)->0,
        metadata is None ==> revised_note(existing, title, content, metadata).metadata
            == existing.metadata,
        revised_note(existing, title, content, metadata).title == title,
        revised_note(existing, title, content, metadata).content == content,
{
}

/// Whether the run asks to store `note`, or, when its title is blank, ends
/// with the validation error for a blank title.
pub open spec fn stores_or_rejects(res: (AppSession, AppAction), note: Note) -> bool {
    if spec_is_blank(note.title@) {
        res.0.stage() is Finished && (res.1 matches AppAction::Finish(
            Err(AppError::AppNoteError(NoteServiceError::Validation(m))),
        ) && m@ == title_empty_message())
    } else {
        res.0.stage() is AwaitUpdated && res.1 == AppAction::UpdateNote(note)
    }
}

/// The configuration file that `init-config` writes.
pub open spec fn default_config_text() -> Seq<char> {
    "\ndb_url = \"sqlite://notes.db\"\nlog_level = \"info\"\n"@
}

impl AppSession {
    /// Where the run stands.
    pub closed spec fn stage(self) -> SessionStage {
        self.stage
    }

    /// Starts the run of a command: `create` asks to create the note (unless its
    /// metadata is not JSON), `read` and `update` ask for the note by id,
    /// `delete` asks to delete it, `link` asks to create the link, and
    /// `init-config` asks whether the configuration file exists.
    pub fn start(command: Commands) -> (res: (AppSession, AppAction))
        ensures
            match command {
                Commands::Create { title, content, metadata } => {
                    if metadata is None || json_parses(metadata->0@) {
                        &&& res.0.stage() is AwaitCreated
                        &&& res.1 matches AppAction::CreateNote(n) && n.title == title && n.content
                            == content && n.metadata == json_document(
                            match metadata {
                                Some(text) => text@,
                                None => "null"@,
                            },
                        )->0
                    } else {
                        &&& res.0.stage() is Finished
                        &&& res.1 matches AppAction::Finish(Err(AppError::AppSerializationError(_)))
                    }
                },
                Commands::Read { id } => res.0.stage() is AwaitRead && res.1 == AppAction::GetNote(id),
                Commands::Update { id, title, content, metadata } => res.0.stage()
                    == SessionStage::AwaitExisting { title, content, metadata } && res.1
                    == AppAction::GetNote(id),
                Commands::Delete { id } => res.0.stage() == SessionStage::AwaitDeleted(id) && res.1
                    == AppAction::DeleteNote(id),
                Commands::Link { from_note_id, to_note_id, link_type } => res.0.stage() is AwaitLinked
                    && res.1 == AppAction::CreateLink(NewLink { from_note_id, to_note_id, link_type }),
                Commands::InitConfig => res.0.stage() is AwaitConfigCheck && res.1 is CheckConfigFile,
            },
    {
        match command {
            Commands::Create { title, content, metadata } => match metadata {
                None => {
                    let note = NewNote { title, content, metadata: json_null() };
                    (AppSession { stage: SessionStage::AwaitCreated }, AppAction::CreateNote(note))
                },
                Some(text) => {
                    let parsed = parse_json(text.as_str());
                    AppSession::create_with_metadata(title, content, parsed)
                },
            },
            Commands::Read { id } => (AppSession { stage: SessionStage::AwaitRead }, AppAction::GetNote(id)),
            Commands::Update { id, title, content, metadata } => (
                AppSession { stage: SessionStage::AwaitExisting { title, content, metadata } },
                AppAction::GetNote(id),
            ),
            Commands::Delete { id } => (
                AppSession { stage: SessionStage::AwaitDeleted(id) },
                AppAction::DeleteNote(id),
            ),
            Commands::Link { from_note_id, to_note_id, link_type } => (
                AppSession { stage: SessionStage::AwaitLinked },
                AppAction::CreateLink(NewLink { from_note_id, to_note_id, link_type }),
            ),
            Commands::InitConfig => (
                AppSession { stage: SessionStage::AwaitConfigCheck },
                AppAction::CheckConfigFile,
            ),
        }
    }

    /// The `create` command once its metadata text has been read as JSON:
    /// the note to create has that document as metadata; text that is not
    /// JSON ends the command with a serialization error.
    pub fn create_with_metadata(
        title: String,
        content: String,
        parsed: Result<serde_json::Value, serde_json::Error>,
    ) -> (res: (AppSession, AppAction))
        ensures
            match parsed {
                Ok(v) => res.0.stage() is AwaitCreated && res.1 == AppAction::CreateNote(
                    NewNote { title, content, metadata: v },
                ),
                Err(e) => res.0.stage() is Finished && res.1 == AppAction::Finish(
                    Err(AppError::AppSerializationError(e)),
                ),
            },
    {
        match parsed {
            Ok(v) => (
                AppSession { stage: SessionStage::AwaitCreated },
                AppAction::CreateNote(NewNote { title, content, metadata: v }),
            ),
            Err(e) => (
                AppSession { stage: SessionStage::Finished },
                AppAction::Finish(Err(AppError::AppSerializationError(e))),
            ),
        }
    }

    /// The `update` command once the note was read and the new metadata text
    /// (if any) has been read as JSON: the note to store keeps the id and
    /// creation time of the one read, takes the new title and content, and the
    /// new metadata if some was given (else it keeps its own). Metadata text
    /// that is not JSON ends the command with a serialization error; a blank
    /// title ends it with the validation error for a blank title.
    pub fn update_with_metadata(
        existing: Note,
        title: String,
        content: String,
        parsed: Option<Result<serde_json::Value, serde_json::Error>>,
    ) -> (res: (AppSession, AppAction))
        ensures
            match parsed {
                None => stores_or_rejects(res, (Note { title, content, ..existing })),
                Some(Ok(v)) => stores_or_rejects(res, (Note { title, content, metadata: v, ..existing })),
                Some(Err(e)) => res.0.stage() is Finished && res.1 == AppAction::Finish(
                    Err(AppError::AppSerializationError(e)),
                ),
            },
    {
        let note = match parsed {
            None => Note { title, content, ..existing },
            Some(Ok(v)) => Note { title, content, metadata: v, ..existing },
            Some(Err(e)) => {
                return (
                    AppSession { stage: SessionStage::Finished },
                    AppAction::Finish(Err(AppError::AppSerializationError(e))),
                );
            },
        };
        match note_to_store(note) {
            Ok(note) => (AppSession { stage: SessionStage::AwaitUpdated }, AppAction::UpdateNote(note)),
            Err(e) => (
                AppSession { stage: SessionStage::Finished },
                AppAction::Finish(Err(AppError::AppNoteError(e))),
            ),
        }
    }

    /// Takes in the outcome of a note query. A failure ends the command with
    /// that error. A created, read or updated note ends it with that note; a
    /// note read for an update is revised (see `revised_note`) and, when its
    /// title is not blank, stored.
    pub fn note_result(self, result: Result<Note, NoteServiceError>) -> (res: (AppSession, AppAction))
        requires
            awaits_note(self.stage()),
        ensures
            match result {
                Err(e) => res.0.stage() is Finished && res.1 == AppAction::Finish(
                    Err(AppError::AppNoteError(e)),
                ),
                Ok(n) => match self.stage() {
                    SessionStage::AwaitExisting { title, content, metadata } => {
                        if metadata is None || json_parses(metadata->0@) {
                            stores_or_rejects(res, revised_note(n, title, content, metadata))
                        } else {
                            &&& res.0.stage() is Finished
                            &&& res.1 matches AppAction::Finish(
                                Err(AppError::AppSerializationError(_)),
                            )
                        }
                    },
                    _ => res.0.stage() is Finished && res.1 == AppAction::Finish(
                        Ok(Output::Note(n)),
                    ),
                },
            },
    {
        match result {
            Err(e) => (
                AppSession { stage: SessionStage::Finished },
                AppAction::Finish(Err(AppError::AppNoteError(e))),
            ),
            Ok(note) => match self.stage {
                SessionStage::AwaitExisting { title, content, metadata } => match metadata {
                    None => AppSession::update_with_metadata(note, title, content, None),
                    Some(text) => {
                        let parsed = parse_json(text.as_str());
                        AppSession::update_with_metadata(note, title, content, Some(parsed))
                    },
                },
                _ => (
                    AppSession { stage: SessionStage::Finished },
                    AppAction::Finish(Ok(Output::Note(note))),
                ),
            },
        }
    }

    /// Takes in the outcome of a note deletion: the command ends with the id
    /// deleted, or with the error.
    pub fn deletion_result(self, result: Result<(), NoteServiceError>) -> (res: (AppSession, AppAction))
        requires
            self.stage() is AwaitDeleted,
        ensures
            res.0.stage() is Finished,
            match result {
                Ok(()) => res.1 == AppAction::Finish(
                    Ok(Output::NoteDeleted(self.stage()->AwaitDeleted_0)),
                ),
                Err(e) => res.1 == AppAction::Finish(Err(AppError::AppNoteError(e))),
            },
    {
        let id = match self.stage {
            SessionStage::AwaitDeleted(id) => id,
            _ => 0,
        };
        let outcome = match result {
            Ok(()) => Ok(Output::NoteDeleted(id)),
            Err(e) => Err(AppError::AppNoteError(e)),
        };
        (AppSession { stage: SessionStage::Finished }, AppAction::Finish(outcome))
    }

    /// Takes in the outcome of a link creation: the command ends with the
    /// link, or with the error.
    pub fn link_result(self, result: Result<Link, LinkServiceError>) -> (res: (AppSession, AppAction))
        requires
            self.stage() is AwaitLinked,
        ensures
            res.0.stage() is Finished,
            match result {
                Ok(l) => res.1 == AppAction::Finish(Ok(Output::Link(l))),
                Err(e) => res.1 == AppAction::Finish(Err(AppError::AppLinkError(e))),
            },
    {
        let outcome = match result {
            Ok(l) => Ok(Output::Link(l)),
            Err(e) => Err(AppError::AppLinkError(e)),
        };
        (AppSession { stage: SessionStage::Finished }, AppAction::Finish(outcome))
    }

    /// The note store could not be reached: the command ends with that error.
    pub fn service_unavailable(self, error: PoolError) -> (res: (AppSession, AppAction))
        requires
            awaits_store(self.stage()),
        ensures
            res.0.stage() is Finished,
            res.1 == AppAction::Finish(Err(AppError::AppPoolError(error))),
    {
        (AppSession { stage: SessionStage::Finished }, AppAction::Finish(Err(AppError::AppPoolError(error))))
    }

    /// Takes in whether the configuration file exists: an existing file is
    /// left alone; otherwise the default configuration is to be written.
    pub fn config_checked(self, exists: bool) -> (res: (AppSession, AppAction))
        requires
            self.stage() is AwaitConfigCheck,
        ensures
            exists ==> res.0.stage() is Finished && res.1 == AppAction::Finish(
                Ok(Output::ConfigAlreadyExists),
            ),
            !exists ==> res.0.stage() is AwaitConfigWrite && (res.1 matches AppAction::WriteDefaultConfig(
                text,
            ) && text@ == default_config_text()),
    {
        if exists {
            (AppSession { stage: SessionStage::Finished }, AppAction::Finish(Ok(Output::ConfigAlreadyExists)))
        } else {
            let text = String::from_str("\ndb_url = \"sqlite://notes.db\"\nlog_level = \"info\"\n");
            (AppSession { stage: SessionStage::AwaitConfigWrite }, AppAction::WriteDefaultConfig(text))
        }
    }

    /// Takes in the outcome of writing the configuration file.
    pub fn config_written(self, result: Result<(), std::io::Error>) -> (res: (AppSession, AppAction))
        requires
            self.stage() is AwaitConfigWrite,
        ensures
            res.0.stage() is Finished,
            match result {
                Ok(()) => res.1 == AppAction::Finish(Ok(Output::ConfigCreated)),
                Err(e) => res.1 == AppAction::Finish(Err(AppError::AppIoError(e))),
            },
    {
        let outcome = match result {
            Ok(()) => Ok(Output::ConfigCreated),
            Err(e) => Err(AppError::AppIoError(e)),
        };
        (AppSession { stage: SessionStage::Finished }, AppAction::Finish(outcome))
    }
}

} // verus!
