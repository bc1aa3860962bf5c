use dmodman::coordinator::{launch_mode, resolve, Claim, Launch, Role};
use dmodman::model::FileInfo;
use dmodman::registry::{Downloads, ParsedLink};

fn parse(link: &str) -> Option<ParsedLink> {
    let rest = link.strip_prefix("nxm://")?;
    let file_id: u64 = rest.rsplit('/').next()?.parse().ok()?;
    Some(ParsedLink {
        file_info: FileInfo::new(file_id, format!("{}.zip", file_id), 3, "skyrim".to_string(), None),
        url: format!("https://files.example/{}", file_id),
    })
}

#[test]
fn later_invocations_hand_over_to_the_owner() {
    let mut owner = Downloads::new();
    assert!(matches!(resolve(Claim::Won, None, false), Role::Owner));

    let bare = launch_mode(&vec!["dmodman".to_string()]);
    assert!(matches!(bare, Launch::Interactive));
    assert!(matches!(resolve(Claim::Held, None, false), Role::AlreadyRunning));

    let linked = launch_mode(&vec!["dmodman".to_string(), "nxm://skyrim/mods/3/files/7".to_string()]);
    let link = match linked {
        Launch::Link(link) => link,
        other => panic!("{:?}", other),
    };
    let forwarded = match resolve(Claim::Held, Some(link), false) {
        Role::Forward(link) => link,
        other => panic!("{:?}", other),
    };
    assert_eq!(forwarded, "nxm://skyrim/mods/3/files/7");

    assert_eq!(owner.queue(parse(&forwarded)), Ok(0));
    assert_eq!(owner.len(), 1);
    assert_eq!(owner.task(0).unwrap().dl_info.file_info.file_id, 7);
}

#[test]
fn malformed_payload_leaves_the_owner_running() {
    let mut owner = Downloads::new();
    assert!(owner.queue(parse("garbage")).is_err());
    assert_eq!(owner.len(), 0);
    assert_eq!(owner.queue(parse("nxm://skyrim/mods/3/files/8")), Ok(0));
}
