//! The tasks of the workspace: which one the command line asks for, and
//! where the workspace lies.

use pico_args::Arguments;
use vstd::prelude::*;

verus! {

/// The arguments of a command line, as `pico_args` holds them.
#[verifier::external_type_specification]
#[verifier::external_body]
pub struct ExArguments(Arguments);

/// What `pico_args` reports of an argument that it cannot hand out.
#[verifier::external_type_specification]
#[verifier::external_body]
pub struct ExArgumentsError(pico_args::Error);

/// The arguments that are left in `args`, in their order. An argument that
/// is no UTF-8 text is `None`.
pub uninterp spec fn remaining(args: Arguments) -> Seq<Option<Seq<char>>>;

/// A task of the workspace.
#[derive(Clone, Copy, Debug, PartialEq, Eq, Hash, Structural)]
pub enum Action {
    ShowHelp,
    Dist,
    Start,
    Ci,
    CiFormatting,
    CiTests,
    CiLints,
    CiWasm,
    Clean,
}

/// Why a command line names no task.
#[derive(Clone, Copy, Debug, PartialEq, Eq, Hash, Structural)]
pub enum ArgsError {
    /// The task is no UTF-8 text.
    InvalidSubcommand,
    /// What follows `ci` is no UTF-8 text.
    InvalidCiAction,
    /// What follows `ci` is no check that is known.
    UnknownCiAction,
}

/// Whether `arg` can be a flag: it is text that starts with `-`.
pub open spec fn looks_like_flag(arg: Option<Seq<char>>) -> bool {
    arg matches Some(text) && text.len() > 0 && text[0] == '-'
}

/// Whether the first of `args` can be taken as a subcommand: there is one,
/// and it does not look like a flag.
pub open spec fn has_subcommand(args: Seq<Option<Seq<char>>>) -> bool {
    args.len() > 0 && !looks_like_flag(args[0])
}

/// Whether `args` ask for help, anywhere among them.
pub open spec fn asks_for_help(args: Seq<Option<Seq<char>>>) -> bool {
    args.contains(Some("-h"@)) || args.contains(Some("--help"@))
}

/// The check that `word`, found after `ci`, stands for.
pub open spec fn spec_ci_action(word: Seq<char>) -> Result<Action, ArgsError> {
    if word == "formatting"@ {
        Ok(Action::CiFormatting)
    } else if word == "tests"@ {
        Ok(Action::CiTests)
    } else if word == "lints"@ {
        Ok(Action::CiLints)
    } else if word == "wasm"@ {
        Ok(Action::CiWasm)
    } else {
        Err(ArgsError::UnknownCiAction)
    }
}

/// The task that `args` ask for.
///
/// A help flag anywhere wins. Otherwise the first argument names the task,
/// and after `ci` the second names the check, all of them where there is
/// none. No task, a flag in its place, or a task that is not known, shows
/// the help.
pub open spec fn spec_parse_args(args: Seq<Option<Seq<char>>>) -> Result<Action, ArgsError> {
    if asks_for_help(args) {
        Ok(Action::ShowHelp)
    } else if !has_subcommand(args) {
        Ok(Action::ShowHelp)
    } else {
        match args[0] {
            None => Err(ArgsError::InvalidSubcommand),
            Some(task) => if task == "dist"@ {
                Ok(Action::Dist)
            } else if task == "start"@ {
                Ok(Action::Start)
            } else if task == "ci"@ {
                let rest = args.drop_first();
                if !has_subcommand(rest) {
                    Ok(Action::Ci)
                } else {
                    match rest[0] {
                        None => Err(ArgsError::InvalidCiAction),
                        Some(check) => spec_ci_action(check),
                    }
                }
            } else if task == "clean"@ {
                Ok(Action::Clean)
            } else {
                Ok(Action::ShowHelp)
            },
        }
    }
}

/// What is left of `args` once a help flag was looked for: the first `-h` is
/// taken out, or where there is none the first `--help`.
pub open spec fn without_help_flag(args: Seq<Option<Seq<char>>>) -> Seq<Option<Seq<char>>> {
    match args.index_of_first(Some("-h"@)) {
        Some(at) => args.remove(at),
        None => match args.index_of_first(Some("--help"@)) {
            Some(at) => args.remove(at),
            None => args,
        },
    }
}

/// What is left of `args` once the task was read off them: the help flag is
/// taken out where there is one, and otherwise the task, and after `ci` the
/// check.
pub open spec fn left_by_parse_args(args: Seq<Option<Seq<char>>>) -> Seq<Option<Seq<char>>> {
    if asks_for_help(args) {
        without_help_flag(args)
    } else if !has_subcommand(args) {
        args
    } else if args[0] == Some("ci"@) && has_subcommand(args.drop_first()) {
        args.drop_first().drop_first()
    } else {
        args.drop_first()
    }
}

/// `Arguments::contains` with the keys `-h` and `--help`: whether one of
/// the two is among the arguments. The first `-h` is taken out, or where
/// there is none the first `--help`; where there is neither, the arguments
/// stay as they are.
#[verifier::external_body]
fn take_help_flag(args: &mut Arguments) -> (found: bool)
    ensures
        found == asks_for_help(remaining(*old(args))),
        remaining(*final(args)) == without_help_flag(remaining(*old(args))),
{
    args.contains(["-h", "--help"])
}

/// `Arguments::subcommand`: where there is no argument, or the first one
/// looks like a flag, `Ok(None)`, and the arguments stay as they are.
/// Otherwise the first argument is taken out and handed over, or an error
/// where it is no UTF-8 text.
#[verifier::external_body]
fn take_subcommand(args: &mut Arguments) -> (word: Result<Option<String>, pico_args::Error>)
    ensures
        if has_subcommand(remaining(*old(args))) {
            &&& remaining(*final(args)) == remaining(*old(args)).drop_first()
            &&& match remaining(*old(args))[0] {
                Some(text) => word matches Ok(Some(taken)) && taken@ == text,
                None => word is Err,
            }
        } else {
            &&& word matches Ok(None)
            &&& remaining(*final(args)) == remaining(*old(args))
        },
{
    args.subcommand()
}

/// Whether `text` is the word `word`.
fn is_word(text: &String, word: &str) -> (r: bool)
    ensures
        r == (text@ == word@),
{
    let owned: String = word.to_owned();
    *text == owned
}

/// The check that `word`, found after `ci`, stands for.
fn ci_action(word: &String) -> (action: Result<Action, ArgsError>)
    ensures
        action == spec_ci_action(word@),
{
    if is_word(word, "formatting") {
        Ok(Action::CiFormatting)
    } else if is_word(word, "tests") {
        Ok(Action::CiTests)
    } else if is_word(word, "lints") {
        Ok(Action::CiLints)
    } else if is_word(word, "wasm") {
        Ok(Action::CiWasm)
    } else {
        Err(ArgsError::UnknownCiAction)
    }
}

/// Finds the task that the command line asks for, taking out of `args`
/// what it reads.
pub fn parse_args(args: &mut Arguments) -> (action: Result<Action, ArgsError>)
    ensures
        action == spec_parse_args(remaining(*old(args))),
        remaining(*final(args)) == left_by_parse_args(remaining(*old(args))),
{
    if take_help_flag(args) {
        return Ok(Action::ShowHelp);
    }
    proof {
        remaining(*old(args)).index_of_first_ensures(Some("-h"@));
        remaining(*old(args)).index_of_first_ensures(Some("--help"@));
        reveal_strlit("ci");
        reveal_strlit("dist");
        reveal_strlit("start");
    }
    match take_subcommand(args) {
        Err(_) => Err(ArgsError::InvalidSubcommand),
        Ok(None) => Ok(Action::ShowHelp),
        Ok(Some(task)) => {
            if is_word(&task, "dist") {
                Ok(Action::Dist)
            } else if is_word(&task, "start") {
                Ok(Action::Start)
            } else if is_word(&task, "ci") {
                match take_subcommand(args) {
                    Err(_) => Err(ArgsError::InvalidCiAction),
                    Ok(None) => Ok(Action::Ci),
                    Ok(Some(check)) => ci_action(&check),
                }
            } else if is_word(&task, "clean") {
                Ok(Action::Clean)
            } else {
                Ok(Action::ShowHelp)
            }
        },
    }
}

impl ArgsError {
    /// The error in words.
    pub fn message(&self) -> (text: &'static str)
        ensures
            text@ == match self {
                ArgsError::InvalidSubcommand => "Invalid subcommand"@,
                ArgsError::InvalidCiAction => "Invalid CI action"@,
                ArgsError::UnknownCiAction => "Unknown CI action"@,
            },
    {
        match self {
            ArgsError::InvalidSubcommand => "Invalid subcommand",
            ArgsError::InvalidCiAction => "Invalid CI action",
            ArgsError::UnknownCiAction => "Unknown CI action",
        }
    }
}

/// The path without its last component, as `std::path::Path::parent` gives
/// it for the path `path`; `None` where the path has no component to leave
/// out, or ends in a root.
pub uninterp spec fn parent_path(path: Seq<char>) -> Option<Seq<char>>;

/// `std::path::Path::parent`: the path without its last component, where it
/// has one to leave out. What comes back is a beginning of `path`, and
/// shorter than `path`.
#[verifier::external_body]
fn parent_of(path: &str) -> (parent: Option<String>)
    ensures
        match parent {
            Some(dir) => parent_path(path@) == Some(dir@),
            None => parent_path(path@) is None,
        },
        parent matches Some(dir) ==> dir@.len() < path@.len() && dir@ == path@.take(
            dir@.len() as int,
        ),
{
    std::path::Path::new(path).parent().and_then(|dir| dir.to_str()).map(|dir| dir.to_owned())
}

/// The root of the workspace: the directory that holds `manifest_dir`, the
/// directory of a package of the workspace. `None` where `manifest_dir` has
/// nothing above it.
pub fn project_root(manifest_dir: &str) -> (root: Option<String>)
    ensures
        match root {
            Some(dir) => parent_path(manifest_dir@) == Some(dir@),
            None => parent_path(manifest_dir@) is None,
        },
        root matches Some(dir) ==> dir@.len() < manifest_dir@.len() && dir@
            == manifest_dir@.take(dir@.len() as int),
{
    parent_of(manifest_dir)
}

} // verus!
