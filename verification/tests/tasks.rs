use bread_world::{parse_args, project_root, Action, ArgsError};
use pico_args::Arguments;

fn arguments(words: &[&str]) -> Arguments {
    Arguments::from_vec(words.iter().map(|word| (*word).into()).collect())
}

fn parse(words: &[&str]) -> Result<Action, ArgsError> {
    parse_args(&mut arguments(words))
}

#[test]
fn no_task_shows_the_help() {
    assert_eq!(parse(&[]), Ok(Action::ShowHelp));
}

#[test]
fn a_help_flag_anywhere_wins() {
    assert_eq!(parse(&["-h"]), Ok(Action::ShowHelp));
    assert_eq!(parse(&["--help"]), Ok(Action::ShowHelp));
    assert_eq!(parse(&["dist", "--help"]), Ok(Action::ShowHelp));
    assert_eq!(parse(&["ci", "bogus", "-h"]), Ok(Action::ShowHelp));
}

#[test]
fn the_first_argument_names_the_task() {
    assert_eq!(parse(&["dist"]), Ok(Action::Dist));
    assert_eq!(parse(&["start"]), Ok(Action::Start));
    assert_eq!(parse(&["clean"]), Ok(Action::Clean));
    assert_eq!(parse(&["clean", "dist"]), Ok(Action::Clean));
}

#[test]
fn ci_takes_a_check_or_runs_them_all() {
    assert_eq!(parse(&["ci"]), Ok(Action::Ci));
    assert_eq!(parse(&["ci", "formatting"]), Ok(Action::CiFormatting));
    assert_eq!(parse(&["ci", "tests"]), Ok(Action::CiTests));
    assert_eq!(parse(&["ci", "lints"]), Ok(Action::CiLints));
    assert_eq!(parse(&["ci", "wasm"]), Ok(Action::CiWasm));
    // a flag is no check
    assert_eq!(parse(&["ci", "--locked"]), Ok(Action::Ci));
}

#[test]
fn an_unknown_check_is_an_error() {
    assert_eq!(parse(&["ci", "bogus"]), Err(ArgsError::UnknownCiAction));
    assert_eq!(parse(&["ci", "Tests"]), Err(ArgsError::UnknownCiAction));
    assert_eq!(parse(&["ci", ""]), Err(ArgsError::UnknownCiAction));
}

#[test]
fn an_unknown_task_or_a_flag_in_its_place_shows_the_help() {
    assert_eq!(parse(&["bogus"]), Ok(Action::ShowHelp));
    assert_eq!(parse(&["Dist"]), Ok(Action::ShowHelp));
    assert_eq!(parse(&["--verbose", "dist"]), Ok(Action::ShowHelp));
    assert_eq!(parse(&["-", "dist"]), Ok(Action::ShowHelp));
    assert_eq!(parse(&[""]), Ok(Action::ShowHelp));
}

#[test]
fn parsing_takes_out_what_it_reads() {
    let mut args = arguments(&["ci", "tests", "--locked", "more"]);
    assert_eq!(parse_args(&mut args), Ok(Action::CiTests));
    let left: Vec<String> =
        args.finish().into_iter().map(|arg| arg.into_string().unwrap()).collect();
    assert_eq!(left, vec!["--locked".to_owned(), "more".to_owned()]);

    let mut args = arguments(&["dist", "--help", "-h"]);
    assert_eq!(parse_args(&mut args), Ok(Action::ShowHelp));
    let left: Vec<String> =
        args.finish().into_iter().map(|arg| arg.into_string().unwrap()).collect();
    assert_eq!(left, vec!["dist".to_owned(), "--help".to_owned()]);
}

#[test]
fn errors_in_words() {
    assert_eq!(ArgsError::InvalidSubcommand.message(), "Invalid subcommand");
    assert_eq!(ArgsError::InvalidCiAction.message(), "Invalid CI action");
    assert_eq!(ArgsError::UnknownCiAction.message(), "Unknown CI action");
}

#[test]
fn project_root_is_the_directory_above() {
    assert_eq!(project_root("/home/baker/bread/xtask"), Some("/home/baker/bread".to_owned()));
    assert_eq!(project_root("/home/baker/bread/xtask/"), Some("/home/baker/bread".to_owned()));
    assert_eq!(project_root("bread/xtask"), Some("bread".to_owned()));
    assert_eq!(project_root("xtask"), Some("".to_owned()));
}

#[test]
fn project_root_of_a_root_is_none() {
    assert_eq!(project_root("/"), None);
    assert_eq!(project_root(""), None);
}
