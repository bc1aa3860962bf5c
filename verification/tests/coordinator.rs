use dmodman::coordinator::{launch_mode, resolve, starts_with_scheme, Claim, Launch, Role};

fn args(list: &[&str]) -> Vec<String> {
    list.iter().map(|s| s.to_string()).collect()
}

#[test]
fn launch_without_argument_is_interactive() {
    assert!(matches!(launch_mode(&args(&["dmodman"])), Launch::Interactive));
    assert!(matches!(launch_mode(&args(&[])), Launch::Interactive));
}

#[test]
fn launch_with_link() {
    match launch_mode(&args(&["dmodman", "nxm://skyrim/mods/3/files/7?key=k"])) {
        Launch::Link(link) => assert_eq!(link, "nxm://skyrim/mods/3/files/7?key=k"),
        other => panic!("{:?}", other),
    }
}

#[test]
fn launch_headless() {
    assert!(matches!(launch_mode(&args(&["dmodman", "-d"])), Launch::Headless));
}

#[test]
fn launch_with_other_argument() {
    assert!(matches!(launch_mode(&args(&["dmodman", "--help"])), Launch::UnexpectedArgument));
    assert!(matches!(launch_mode(&args(&["dmodman", "nxm:/"])), Launch::UnexpectedArgument));
    assert!(matches!(launch_mode(&args(&["dmodman", "-dd"])), Launch::UnexpectedArgument));
    assert!(matches!(launch_mode(&args(&["dmodman", ""])), Launch::UnexpectedArgument));
}

#[test]
fn launch_with_too_many_arguments() {
    assert!(matches!(launch_mode(&args(&["dmodman", "nxm://a", "b"])), Launch::TooManyArguments));
}

#[test]
fn scheme_prefix() {
    assert!(starts_with_scheme("nxm://"));
    assert!(starts_with_scheme("nxm://x"));
    assert!(!starts_with_scheme("nxm:/"));
    assert!(!starts_with_scheme("NXM://x"));
    assert!(!starts_with_scheme("https://x"));
    assert!(!starts_with_scheme(""));
}

#[test]
fn winner_of_the_channel_is_owner() {
    assert!(matches!(resolve(Claim::Won, None, false), Role::Owner));
    assert!(matches!(resolve(Claim::Won, Some("nxm://a".to_string()), true), Role::Owner));
}

#[test]
fn second_invocation_forwards_or_reports() {
    match resolve(Claim::Held, Some("nxm://a".to_string()), false) {
        Role::Forward(link) => assert_eq!(link, "nxm://a"),
        other => panic!("{:?}", other),
    }
    assert!(matches!(resolve(Claim::Held, None, false), Role::AlreadyRunning));
    assert!(matches!(resolve(Claim::Held, None, true), Role::AlreadyRunning));
}

#[test]
fn stale_channel_is_reclaimed_once() {
    assert!(matches!(resolve(Claim::Stale, None, false), Role::Reclaim));
    assert!(matches!(resolve(Claim::Stale, Some("nxm://a".to_string()), false), Role::Reclaim));
    assert!(matches!(resolve(Claim::Stale, None, true), Role::GiveUp));
}
