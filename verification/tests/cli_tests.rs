use ytmdctrl::cli::first_command_word;
use ytmdctrl::cli::help_hint;
use ytmdctrl::cli::needs_default_command;

fn args(words: &[&str]) -> Vec<String> {
    words.iter().map(|w| String::from(*w)).collect()
}

#[test]
fn no_arguments_resolve_to_the_default_command() {
    assert!(needs_default_command(&args(&[])));
}

#[test]
fn flags_only_resolve_to_the_default_command() {
    assert!(needs_default_command(&args(&["-s", "--delay"])));
}

#[test]
fn a_command_word_suppresses_the_default() {
    assert!(!needs_default_command(&args(&["play"])));
    assert!(!needs_default_command(&args(&["-s", "localhost"])));
}

#[test]
fn first_command_word_skips_leading_flags() {
    assert_eq!(first_command_word(&args(&["-s", "volume", "50"])), Some(1));
    assert_eq!(first_command_word(&args(&["state"])), Some(0));
    assert_eq!(first_command_word(&args(&["--script"])), None);
    assert_eq!(first_command_word(&args(&[])), None);
}

#[test]
fn numeric_commands_get_specific_hints() {
    assert_eq!(
        help_hint("volume").as_str(),
        "`volume` requires a percentage to set volume to between 0 and 100\n"
    );
    assert_eq!(help_hint("seek").as_str(), "`seek` requires a time to seek to in seconds\n");
    assert_eq!(
        help_hint("jumpto").as_str(),
        "`jumpto` requires an integer index in the queue to jump to\n"
    );
}

#[test]
fn hints_ignore_the_case_of_the_word() {
    assert_eq!(
        help_hint("VOLUME").as_str(),
        "`volume` requires a percentage to set volume to between 0 and 100\n"
    );
    assert_eq!(help_hint("Seek").as_str(), "`seek` requires a time to seek to in seconds\n");
}

#[test]
fn unknown_words_get_the_generic_hint() {
    assert_eq!(help_hint("warble").as_str(), "Invalid command `warble`\n");
}
