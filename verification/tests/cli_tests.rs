//! Global option handling, from raw argument vectors to the chosen
//! platform, through the real argument tokenizer.

use ani::cli::{
    interpret_matches, machine_error_exit_code, parse_options, validate_options, AniOptions,
    ParseError,
};
use ani::platform::MachineError;
use ani::registry::PlatformKind;
use ani::SystemError;

fn argv(parts: &[&str]) -> Vec<String> {
    parts.iter().map(|s| s.to_string()).collect()
}

#[test]
fn platform_and_trailing_arguments_are_split() {
    let args = argv(&["ani", "malta", "vmlinux", "console=ttyS0"]);
    let (rest, opts) = parse_options(&args).expect("well-formed invocation");
    assert_eq!(opts.platform, Some(PlatformKind::Malta));
    assert_eq!(rest, argv(&["vmlinux", "console=ttyS0"]));
}

#[test]
fn missing_platform_is_reported() {
    let args = argv(&["ani"]);
    let r = parse_options(&args);
    assert!(matches!(r, Err(ParseError::NoPlatform)));
}

#[test]
fn catalog_sentinel_requests_platform_listing() {
    let args = argv(&["ani", "?"]);
    let r = parse_options(&args);
    assert!(matches!(r, Err(ParseError::PrintPlatforms)));
}

#[test]
fn unknown_platform_is_reported_with_its_value() {
    let args = argv(&["ani", "pdp11"]);
    match parse_options(&args) {
        Err(ParseError::UnknownArgument(option, value)) => {
            assert_eq!(option, "PLATFORM");
            assert_eq!(value, "pdp11");
        }
        other => panic!("expected UnknownArgument, got {:?}", other.map(|_| ())),
    }
}

#[test]
fn help_flag_wins_over_construction() {
    let r = parse_options(&argv(&["ani", "malta", "-H"]));
    assert!(matches!(r, Err(ParseError::Help)));
    let r = parse_options(&argv(&["ani", "malta", "--help"]));
    assert!(matches!(r, Err(ParseError::Help)));
}

#[test]
fn version_flag_reports_version() {
    let r = parse_options(&argv(&["ani", "sys161", "-v"]));
    assert!(matches!(r, Err(ParseError::Ver)));
    let r = parse_options(&argv(&["ani", "sys161", "--version"]));
    assert!(matches!(r, Err(ParseError::Ver)));
}

#[test]
fn unknown_platform_wins_over_help() {
    // the platform name is resolved before the global flags are honoured
    let r = parse_options(&argv(&["ani", "pdp11", "-H"]));
    assert!(matches!(r, Err(ParseError::UnknownArgument(_, _))));
}

#[test]
fn malformed_option_is_reported_by_the_tokenizer() {
    let r = parse_options(&argv(&["ani", "--bogus", "malta"]));
    assert!(matches!(r, Err(ParseError::OptsErr(_))));
}

#[test]
fn interpretation_does_not_depend_on_the_tokenizer() {
    let free = argv(&["malta", "vmlinux", "cmdline"]);
    let (rest, opts) = interpret_matches(&free, false, false).expect("platform resolves");
    assert_eq!(opts.platform, Some(PlatformKind::Malta));
    assert_eq!(rest, argv(&["vmlinux", "cmdline"]));

    let r = interpret_matches(&argv(&["malta"]), true, true);
    assert!(matches!(r, Err(ParseError::Help)));

    let r = interpret_matches(&argv(&["malta"]), false, true);
    assert!(matches!(r, Err(ParseError::Ver)));

    let r = interpret_matches(&argv(&[]), false, false);
    assert!(matches!(r, Err(ParseError::NoPlatform)));
}

#[test]
fn validate_options_requires_a_platform() {
    let r = validate_options(&AniOptions { platform: None });
    assert!(matches!(r, Err(ParseError::NoPlatform)));
    let r = validate_options(&AniOptions { platform: Some(PlatformKind::Sys161) });
    assert!(r.is_ok());
}

#[test]
fn exit_codes_follow_the_outcome() {
    assert_eq!(ParseError::Help.exit_code(), 0);
    assert_eq!(ParseError::Ver.exit_code(), 0);
    assert_eq!(ParseError::PrintPlatforms.exit_code(), 0);
    assert_eq!(ParseError::NoPlatform.exit_code(), 1);
    assert_eq!(ParseError::OptsErr("bad".to_string()).exit_code(), 1);
    assert_eq!(
        ParseError::UnknownArgument("PLATFORM", "pdp11".to_string()).exit_code(),
        1
    );
    assert_eq!(machine_error_exit_code(&MachineError::Io), 1);
    assert_eq!(machine_error_exit_code(&MachineError::InvalidArgs), 1);
    assert_eq!(
        machine_error_exit_code(&MachineError::System(SystemError::InvalidCookie)),
        1
    );
}
