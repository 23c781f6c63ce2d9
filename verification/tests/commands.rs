use winch::commands::{upgrade_message, InstallArgs, SearchArgs, SyncArgs, UpgradeArgs};

#[test]
fn upgrade_from_all_repos() {
    assert_eq!(upgrade_message("kalker", &None), "Upgrading package: kalker from all repos");
    assert_eq!(upgrade_message("*", &Some("*".to_string())), "Upgrading package: * from all repos");
}

#[test]
fn upgrade_from_one_repo() {
    assert_eq!(upgrade_message("kalker", &Some("main".to_string())), "Upgrading package: kalker from repo: main");
    assert_eq!(upgrade_message("kalker", &Some("**".to_string())), "Upgrading package: kalker from repo: **");
}

#[test]
fn search_messages() {
    let local = SearchArgs { package: "kalker".to_string(), local: true };
    assert_eq!(local.message(), "Searching for package: kalker locally");
    let remote = SearchArgs { package: "kalker".to_string(), local: false };
    assert_eq!(remote.message(), "Searching for package: kalker in remote repos");
}

#[test]
fn sync_messages() {
    assert_eq!(SyncArgs { repo: None }.message(), "Syncing with all repos");
    assert_eq!(SyncArgs { repo: Some("*".to_string()) }.message(), "Syncing with all repos");
    assert_eq!(SyncArgs { repo: Some("core".to_string()) }.message(), "Syncing with repo: core");
}

#[test]
fn arguments_hold_their_values() {
    let i = InstallArgs { package: "p".to_string(), repo: Some("r".to_string()), local: true };
    assert_eq!((i.package.as_str(), i.repo.as_deref(), i.local), ("p", Some("r"), true));
    let u = UpgradeArgs { package: None, repo: Some("r".to_string()) };
    assert!(u.package.is_none());
    assert_eq!(u.repo.as_deref(), Some("r"));
}
