use winch::install::{
    install_next, install_start, installs_programs, is_exe_path, is_executable_mode,
    select_programs, Entry, InstallAction, InstallEvent, InstallPhase,
};

fn steps(v: &[&str]) -> Vec<String> {
    v.iter().map(|s| s.to_string()).collect()
}

#[test]
fn executable_modes() {
    assert!(is_executable_mode(0o755));
    assert!(is_executable_mode(0o100));
    assert!(is_executable_mode(0o010));
    assert!(is_executable_mode(0o001));
    assert!(!is_executable_mode(0o644));
    assert!(!is_executable_mode(0o666));
    assert!(!is_executable_mode(0));
}

#[test]
fn exe_names() {
    assert!(is_exe_path("d/temp.exe"));
    assert!(is_exe_path("C:\\tools\\KALKER.EXE"));
    assert!(is_exe_path(".exe"));
    assert!(!is_exe_path("exe"));
    assert!(!is_exe_path("d/temp.exe.txt"));
    assert!(!is_exe_path("d/tempexe"));
}

#[test]
fn test_find_executable() {
    // A file just made with `File::create` in an empty directory: no
    // execute bit, named `temp.exe`.
    let dir = "/tmp/.tmpAbC123";
    let entries = vec![Entry { path: format!("{}/temp.exe", dir), is_file: true, mode: Some(0o644) }];
    let executables_found = select_programs(&entries);
    assert!(executables_found.len() == 1);
    for executable in executables_found {
        assert!(executable == format!("{}/temp.exe", dir));
    }
}

#[test]
fn programs_are_executable_files_in_order() {
    let entries = vec![
        Entry { path: "d/a".to_string(), is_file: true, mode: Some(0o755) },
        Entry { path: "d/readme".to_string(), is_file: true, mode: Some(0o644) },
        Entry { path: "d/sub".to_string(), is_file: false, mode: Some(0o755) },
        Entry { path: "d/b".to_string(), is_file: true, mode: None },
        Entry { path: "d/c".to_string(), is_file: true, mode: Some(0o700) },
        Entry { path: "d/w.exe".to_string(), is_file: true, mode: None },
        Entry { path: "d/x.exe".to_string(), is_file: false, mode: None },
    ];
    assert_eq!(select_programs(&entries), vec!["d/a".to_string(), "d/c".to_string(), "d/w.exe".to_string()]);
    assert!(select_programs(&Vec::new()).is_empty());
}

#[test]
fn install_without_steps_finishes_at_once() {
    let s = steps(&[]);
    let (phase, action) = install_start(&s);
    assert!(matches!(phase, InstallPhase::Completed));
    assert!(matches!(action, InstallAction::Finish));
    assert!(installs_programs(phase));
}

#[test]
fn install_runs_every_agreed_step() {
    let s = steps(&["configure", "build"]);
    let (p, a) = install_start(&s);
    assert!(matches!(a, InstallAction::Ask(0)));
    let (p, a) = install_next(&s, p, &InstallEvent::Answered("y\n".to_string()));
    assert!(matches!(a, InstallAction::Run(0)));
    let (p, a) = install_next(&s, p, &InstallEvent::Finished(true));
    assert!(matches!(a, InstallAction::Succeeded { step: 0, complete: false, then_ask: Some(1) }));
    assert!(matches!(p, InstallPhase::Asking(1)));
    let (p, a) = install_next(&s, p, &InstallEvent::Answered("Y".to_string()));
    assert!(matches!(a, InstallAction::Run(1)));
    let (p, a) = install_next(&s, p, &InstallEvent::Finished(true));
    assert!(matches!(a, InstallAction::Succeeded { step: 1, complete: true, then_ask: None }));
    assert!(matches!(p, InstallPhase::Completed));
    assert!(installs_programs(p));
}

#[test]
fn install_refused_step_aborts() {
    let s = steps(&["configure", "build"]);
    let (p, _) = install_start(&s);
    let (p, a) = install_next(&s, p, &InstallEvent::Answered("n\n".to_string()));
    assert!(matches!(a, InstallAction::Abort));
    assert!(matches!(p, InstallPhase::Aborted));
    assert!(installs_programs(p));
    let (p2, a2) = install_next(&s, p, &InstallEvent::Answered("y".to_string()));
    assert!(matches!(p2, InstallPhase::Aborted));
    assert!(matches!(a2, InstallAction::Ignore));
}

#[test]
fn install_failed_step_stops() {
    let s = steps(&["configure", "build"]);
    let (p, _) = install_start(&s);
    let (p, _) = install_next(&s, p, &InstallEvent::Answered("y".to_string()));
    let (p, a) = install_next(&s, p, &InstallEvent::Finished(false));
    assert!(matches!(a, InstallAction::ReportFailure(0)));
    assert!(matches!(p, InstallPhase::Failed(0)));
    assert!(!installs_programs(p));
    let (p2, a2) = install_next(&s, p, &InstallEvent::Finished(true));
    assert!(matches!(p2, InstallPhase::Failed(0)));
    assert!(matches!(a2, InstallAction::Ignore));
}

#[test]
fn install_step_equal_to_the_last_announces_completion() {
    let s = steps(&["make", "test", "make"]);
    let (p, _) = install_start(&s);
    let (p, _) = install_next(&s, p, &InstallEvent::Answered("y".to_string()));
    let (_, a) = install_next(&s, p, &InstallEvent::Finished(true));
    assert!(matches!(a, InstallAction::Succeeded { step: 0, complete: true, then_ask: Some(1) }));
}

#[test]
fn install_ignores_events_out_of_turn() {
    let s = steps(&["make"]);
    let (p, _) = install_start(&s);
    let (p, a) = install_next(&s, p, &InstallEvent::Finished(true));
    assert!(matches!(p, InstallPhase::Asking(0)));
    assert!(matches!(a, InstallAction::Ignore));
    let (p, _) = install_next(&s, p, &InstallEvent::Answered("y".to_string()));
    let (p, a) = install_next(&s, p, &InstallEvent::Answered("y".to_string()));
    assert!(matches!(p, InstallPhase::Running(0)));
    assert!(matches!(a, InstallAction::Ignore));
}
