//! Calls into `clap` that build the command-line definition and read what it matched.
//!
//! Each builder call is deterministic: its result depends on its arguments
//! alone, so each result is named by a specification function of those
//! arguments. What the resulting values hold is `clap`'s and is not stated.
use vstd::prelude::*;

use clap::{Arg, ArgMatches, Command};

verus! {

/// The command `Command::new` makes with this name.
pub uninterp spec fn new_command(name: Seq<char>) -> Command;

/// The command `Command::about` makes from `command` with this description.
pub uninterp spec fn command_with_about(command: Command, about: Seq<char>) -> Command;

/// The command `Command::version` makes from `command` with this version.
pub uninterp spec fn command_with_version(command: Command, version: Seq<char>) -> Command;

/// The command `Command::author` makes from `command` with this author.
pub uninterp spec fn command_with_author(command: Command, author: Seq<char>) -> Command;

/// The command `Command::arg` makes from `command` with this argument added.
pub uninterp spec fn command_with_arg(command: Command, arg: Arg) -> Command;

/// The command `Command::subcommand` makes from `command` with this subcommand added.
pub uninterp spec fn command_with_subcommand(command: Command, subcommand: Command) -> Command;

/// The command `Command::subcommand_required` makes from `command`.
pub uninterp spec fn command_with_subcommand_required(command: Command, yes: bool) -> Command;

/// The command `Command::arg_required_else_help` makes from `command`.
pub uninterp spec fn command_with_arg_required_else_help(command: Command, yes: bool) -> Command;

/// The argument `Arg::new` makes with this id.
pub uninterp spec fn new_arg(id: Seq<char>) -> Arg;

/// The argument `Arg::long` makes from `arg` with this long name.
pub uninterp spec fn arg_with_long(arg: Arg, name: Seq<char>) -> Arg;

/// The argument `Arg::help` makes from `arg` with this description.
pub uninterp spec fn arg_with_help(arg: Arg, help: Seq<char>) -> Arg;

/// The argument `Arg::value_name` makes from `arg` with this placeholder.
pub uninterp spec fn arg_with_value_name(arg: Arg, name: Seq<char>) -> Arg;

/// The argument `Arg::required` makes from `arg`.
pub uninterp spec fn arg_with_required(arg: Arg, yes: bool) -> Arg;

/// The argument `Arg::value_parser` makes from `arg` with `clap`'s parser of
/// 64-bit signed integers.
pub uninterp spec fn arg_with_integer_values(arg: Arg) -> Arg;

/// The argument `Arg::value_parser` makes from `arg` with `clap`'s parser
/// that accepts only these names.
pub uninterp spec fn arg_with_possible_values(arg: Arg, names: Seq<Seq<char>>) -> Arg;

/// The name and matches of the subcommand that `ArgMatches::subcommand` reports.
pub uninterp spec fn subcommand_matched(matches: ArgMatches) -> Option<(Seq<char>, ArgMatches)>;

/// The text that `ArgMatches::try_get_one::<String>` reports for the argument `id`
/// (`None` when there is none, or when `clap` reports an error).
pub uninterp spec fn text_matched(matches: ArgMatches, id: Seq<char>) -> Option<Seq<char>>;

/// The integer that `ArgMatches::try_get_one::<i64>` reports for the argument `id`
/// (`None` when there is none, or when `clap` reports an error).
pub uninterp spec fn integer_matched(matches: ArgMatches, id: Seq<char>) -> Option<i64>;

/// `Command::new`: a command with this name and nothing else defined.
#[verifier::external_body]
pub(crate) fn command_new(name: &'static str) -> (res: Command)
    ensures
        res == new_command(name@),
{
    Command::new(name)
}

/// `Command::about`: sets the one-line description shown in help.
#[verifier::external_body]
pub(crate) fn command_about(command: Command, about: &'static str) -> (res: Command)
    ensures
        res == command_with_about(command, about@),
{
    command.about(about)
}

/// `Command::version`: sets the version shown by `--version`.
#[verifier::external_body]
pub(crate) fn command_version(command: Command, version: &'static str) -> (res: Command)
    ensures
        res == command_with_version(command, version@),
{
    command.version(version)
}

/// `Command::author`: sets the author.
#[verifier::external_body]
pub(crate) fn command_author(command: Command, author: &'static str) -> (res: Command)
    ensures
        res == command_with_author(command, author@),
{
    command.author(author)
}

/// `Command::arg`: adds an argument.
#[verifier::external_body]
pub(crate) fn command_arg(command: Command, arg: Arg) -> (res: Command)
    ensures
        res == command_with_arg(command, arg),
{
    command.arg(arg)
}

/// `Command::subcommand`: adds a subcommand.
#[verifier::external_body]
pub(crate) fn command_subcommand(command: Command, subcommand: Command) -> (res: Command)
    ensures
        res == command_with_subcommand(command, subcommand),
{
    command.subcommand(subcommand)
}

/// `Command::subcommand_required`: whether a subcommand must be given.
#[verifier::external_body]
pub(crate) fn command_subcommand_required(command: Command, yes: bool) -> (res: Command)
    ensures
        res == command_with_subcommand_required(command, yes),
{
    command.subcommand_required(yes)
}

/// `Command::arg_required_else_help`: whether a bare invocation prints the help.
#[verifier::external_body]
pub(crate) fn command_arg_required_else_help(command: Command, yes: bool) -> (res: Command)
    ensures
        res == command_with_arg_required_else_help(command, yes),
{
    command.arg_required_else_help(yes)
}

/// `Arg::new`: an argument with this id (a positional one until it gets a long name).
#[verifier::external_body]
pub(crate) fn arg_new(id: &'static str) -> (res: Arg)
    ensures
        res == new_arg(id@),
{
    Arg::new(id)
}

/// `Arg::long`: makes the argument an option `--name`.
#[verifier::external_body]
pub(crate) fn arg_long(arg: Arg, name: &'static str) -> (res: Arg)
    ensures
        res == arg_with_long(arg, name@),
{
    arg.long(name)
}

/// `Arg::help`: sets the description shown in help.
#[verifier::external_body]
pub(crate) fn arg_help(arg: Arg, help: &'static str) -> (res: Arg)
    ensures
        res == arg_with_help(arg, help@),
{
    arg.help(help)
}

/// `Arg::value_name`: sets the placeholder of the value shown in help.
#[verifier::external_body]
pub(crate) fn arg_value_name(arg: Arg, name: &'static str) -> (res: Arg)
    ensures
        res == arg_with_value_name(arg, name@),
{
    arg.value_name(name)
}

/// `Arg::required`: whether the argument must be given.
#[verifier::external_body]
pub(crate) fn arg_required(arg: Arg, yes: bool) -> (res: Arg)
    ensures
        res == arg_with_required(arg, yes),
{
    arg.required(yes)
}

/// `Arg::value_parser` with `clap`'s parser of 64-bit signed integers.
#[verifier::external_body]
pub(crate) fn arg_integer(arg: Arg) -> (res: Arg)
    ensures
        res == arg_with_integer_values(arg),
{
    arg.value_parser(clap::builder::RangedI64ValueParser::<i64>::new())
}

/// `Arg::value_parser` with `clap`'s parser that accepts only the given names.
#[verifier::external_body]
pub(crate) fn arg_one_of(arg: Arg, names: Vec<&'static str>) -> (res: Arg)
    ensures
        res == arg_with_possible_values(arg, names@.map_values(|s: &'static str| s@)),
{
    arg.value_parser(clap::builder::PossibleValuesParser::new(names))
}

/// `ArgMatches::subcommand`: the name and matches of the subcommand given, if any.
#[verifier::external_body]
pub(crate) fn matched_subcommand(matches: &ArgMatches) -> (res: Option<(&str, &ArgMatches)>)
    ensures
        match res {
            None => subcommand_matched(*matches) is None,
            Some((name, sub)) => subcommand_matched(*matches) == Some((name@, *sub)),
        },
{
    matches.subcommand()
}

/// `ArgMatches::try_get_one::<String>`: the text given for the argument `id`, if any.
#[verifier::external_body]
pub(crate) fn matched_text(matches: &ArgMatches, id: &str) -> (res: Option<String>)
    ensures
        match res {
            None => text_matched(*matches, id@) is None,
            Some(text) => text_matched(*matches, id@) == Some(text@),
        },
{
    match matches.try_get_one::<String>(id) {
        Ok(found) => found.cloned(),
        Err(_) => None,
    }
}

/// `ArgMatches::try_get_one::<i64>`: the integer given for the argument `id`, if any.
#[verifier::external_body]
pub(crate) fn matched_integer(matches: &ArgMatches, id: &str) -> (res: Option<i64>)
    ensures
        res == integer_matched(*matches, id@),
{
    match matches.try_get_one::<i64>(id) {
        Ok(found) => found.copied(),
        Err(_) => None,
    }
}

} // verus!
