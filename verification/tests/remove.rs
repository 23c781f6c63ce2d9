use winch::remove::{removal_next, removal_start, RemovalAction, RemovalEvent, RemovalPhase, RemovalRequest};

#[test]
fn removal_request_trims_the_package() {
    let req = RemovalRequest::new("/h/.winch/bin/", "  kalker \n");
    assert_eq!(req.package, "kalker");
    assert_eq!(req.target_dir, "/h/.winch/bin/");
}

#[test]
fn removal_of_an_installed_package() {
    let req = RemovalRequest::new("/h/.winch/bin/", "kalker");
    let (p, a) = removal_start(&req);
    assert!(matches!(p, RemovalPhase::Checking));
    match a {
        RemovalAction::Check(name) => assert_eq!(name, "kalker.json"),
        _ => panic!("expected a check"),
    }
    let (p, a) = removal_next(&req, p, &RemovalEvent::Checked(true));
    assert!(matches!(a, RemovalAction::Ask));
    let (p, a) = removal_next(&req, p, &RemovalEvent::Answered("y\n".to_string()));
    assert!(matches!(a, RemovalAction::ReadRecord));
    let (p, a) = removal_next(&req, p, &RemovalEvent::BinaryNamed("kalk".to_string()));
    match a {
        RemovalAction::DeleteProgram(binary) => assert_eq!(binary, "/h/.winch/bin//kalk"),
        _ => panic!("expected the program's deletion"),
    }
    assert!(matches!(p, RemovalPhase::DeletingProgram));
    let (p, a) = removal_next(&req, p, &RemovalEvent::Deleted);
    match a {
        RemovalAction::DeleteRecord(record) => assert_eq!(record, "/h/.winch/bin//kalker.json"),
        _ => panic!("expected the record's deletion"),
    }
    assert!(matches!(p, RemovalPhase::DeletingRecord));
    let (p, a) = removal_next(&req, p, &RemovalEvent::Deleted);
    assert!(matches!(a, RemovalAction::ReportRemoved));
    assert!(matches!(p, RemovalPhase::Done));
}

#[test]
fn removal_of_a_missing_package() {
    let req = RemovalRequest::new("/h/.winch/bin/", "nope");
    let (p, _) = removal_start(&req);
    let (p, a) = removal_next(&req, p, &RemovalEvent::Checked(false));
    assert!(matches!(a, RemovalAction::ReportNotInstalled));
    assert!(matches!(p, RemovalPhase::Done));
}

#[test]
fn removal_refused() {
    let req = RemovalRequest::new("/h/.winch/bin/", "kalker");
    let (p, _) = removal_start(&req);
    let (p, _) = removal_next(&req, p, &RemovalEvent::Checked(true));
    let (p, a) = removal_next(&req, p, &RemovalEvent::Answered("no".to_string()));
    assert!(matches!(a, RemovalAction::Abort));
    assert!(matches!(p, RemovalPhase::Done));
    let (p, a) = removal_next(&req, p, &RemovalEvent::BinaryNamed("kalk".to_string()));
    assert!(matches!(a, RemovalAction::Ignore));
    assert!(matches!(p, RemovalPhase::Done));
}

#[test]
fn removal_never_deletes_before_consent() {
    let req = RemovalRequest::new("/h/.winch/bin/", "kalker");
    let (p, _) = removal_start(&req);
    let (p, a) = removal_next(&req, p, &RemovalEvent::BinaryNamed("kalk".to_string()));
    assert!(matches!(a, RemovalAction::Ignore));
    let (p, _) = removal_next(&req, p, &RemovalEvent::Checked(true));
    let (_, a) = removal_next(&req, p, &RemovalEvent::BinaryNamed("kalk".to_string()));
    assert!(matches!(a, RemovalAction::Ignore));
}
