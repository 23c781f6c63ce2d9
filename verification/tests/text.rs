use winch::text::{is_confirmation, is_yes};
use winch::locations::{file_in_dir, package_info_url, release_info_url, sidecar_name, sidecar_path};

#[test]
fn confirmation_accepts_y_in_any_case() {
    assert!(is_confirmation("y"));
    assert!(is_confirmation("y\n"));
    assert!(is_confirmation("Y\n"));
    assert!(is_confirmation("  y\t\r\n"));
}

#[test]
fn confirmation_refuses_anything_else() {
    assert!(!is_confirmation("n\n"));
    assert!(!is_confirmation("yes\n"));
    assert!(!is_confirmation("\n"));
    assert!(!is_confirmation(""));
    assert!(!is_confirmation("y y"));
}

#[test]
fn yes_after_lowercasing() {
    assert!(is_yes("y"));
    assert!(!is_yes("Y"));
    assert!(!is_yes("n"));
    assert!(!is_yes("yy"));
    assert!(!is_yes(""));
}

#[test]
fn package_addresses() {
    assert_eq!(package_info_url("kalker"), "https://api.winchteam.dev/getInfo/kalker");
    assert_eq!(
        release_info_url("kalker", "brodycritchlow", "1.0.2"),
        "https://api.winchteam.dev/download/kalker/brodycritchlow/1.0.2"
    );
}

#[test]
fn package_files() {
    assert_eq!(sidecar_name("kalker"), "kalker.json");
    assert_eq!(sidecar_path("/home/u", "kalker"), "/home/u/.winch/bin/kalker.json");
    assert_eq!(file_in_dir("/home/u/.winch/bin/", "kalker"), "/home/u/.winch/bin//kalker");
}

#[test]
fn answer_whitespace_does_not_matter() {
    for answer in ["y", "n", "Y", "yes", ""] {
        let padded = format!(" \t{}\r\n", answer);
        assert_eq!(is_confirmation(&padded), is_confirmation(answer));
    }
}
