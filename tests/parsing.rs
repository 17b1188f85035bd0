use releasemops::command::{parse_command, Command, CommandError, CommandKind};
use releasemops::version::{check_version, parse_version, require_stable, Version, VersionError};

fn plain(major: u64, minor: u64, patch: u64) -> Version {
    Version { major, minor, patch, stable: true }
}

#[test]
fn bare_triples_parse() {
    assert_eq!(parse_version("1.2.3"), Ok(plain(1, 2, 3)));
    assert_eq!(parse_version("0.0.0"), Ok(plain(0, 0, 0)));
    assert_eq!(parse_version("18446744073709551615.0.7"), Ok(plain(u64::MAX, 0, 7)));
}

#[test]
fn wrong_arity_is_refused() {
    assert_eq!(parse_version("1.2"), Err(VersionError::InvalidVersion));
    assert_eq!(parse_version("1.2.3.4"), Err(VersionError::InvalidVersion));
    assert_eq!(parse_version(""), Err(VersionError::InvalidVersion));
}

#[test]
fn overflow_is_refused() {
    assert_eq!(parse_version("18446744073709551616.0.0"), Err(VersionError::InvalidVersion));
}

#[test]
fn leading_v_is_stripped() {
    assert_eq!(parse_version("v1.2.3"), parse_version("1.2.3"));
    assert_eq!(parse_version("vv1.2.3"), Err(VersionError::InvalidVersion));
}

#[test]
fn prerelease_and_build_are_not_stable() {
    let pre = parse_version("1.2.3-rc1").unwrap();
    assert!(!pre.stable);
    assert_eq!(require_stable(&pre), Err(VersionError::InvalidVersion));
    let build = parse_version("1.2.3+abc").unwrap();
    assert_eq!(require_stable(&build), Err(VersionError::InvalidVersion));
    assert_eq!(require_stable(&plain(1, 2, 3)), Ok(()));
    assert_eq!(check_version("v1.2.3-rc1"), Err(VersionError::InvalidVersion));
    assert_eq!(check_version("v1.2.3"), Ok(plain(1, 2, 3)));
}

#[test]
fn rc_command_parses() {
    let expected = Command { kind: CommandKind::ReleaseCandidate, version: plain(1, 0, 0) };
    assert_eq!(parse_command("rc 1.0.0"), Ok(expected));
    assert_eq!(parse_command("RC v1.0.0"), Ok(expected));
}

#[test]
fn other_commands_parse() {
    assert_eq!(
        parse_command("Release v2.3.4"),
        Ok(Command { kind: CommandKind::Release, version: plain(2, 3, 4) })
    );
    assert_eq!(
        parse_command("prepare-HOTFIX 0.1.2"),
        Ok(Command { kind: CommandKind::PrepareHotfix, version: plain(0, 1, 2) })
    );
}

#[test]
fn malformed_and_unknown_messages() {
    assert_eq!(parse_command("rc"), Err(CommandError::MalformedMessage));
    assert_eq!(parse_command("rc  1.0.0"), Err(CommandError::MalformedMessage));
    assert_eq!(parse_command("rc 1.0.0 extra"), Err(CommandError::MalformedMessage));
    assert_eq!(parse_command("deploy 1.0.0"), Err(CommandError::UnknownCommand));
    assert_eq!(parse_command("rc 1.0"), Err(CommandError::InvalidVersion));
}

#[test]
fn stable_only_workflows_refuse_prereleases() {
    assert_eq!(parse_command("release 1.0.0-rc1"), Err(CommandError::InvalidVersion));
    assert_eq!(parse_command("prepare-hotfix 1.0.0+b7"), Err(CommandError::InvalidVersion));
    let rc = parse_command("rc 1.0.0-beta").unwrap();
    assert!(!rc.version.stable);
}
