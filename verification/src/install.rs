//! Installing a package: going through its build steps with the user, and
//! picking the programs to install from the unpacked package.

use vstd::prelude::*;
use crate::text::{confirms, is_confirmation, all_ascii, is_yes_answer, trim_spec};

verus! {

/// Whether Unix permission bits let someone (owner, group or others)
/// execute the file.
pub open spec fn mode_allows_execution(mode: u32) -> bool {
    ||| (mode / 64) % 2 == 1
    ||| (mode / 8) % 2 == 1
    ||| mode % 2 == 1
}

/// Whether these Unix permission bits let someone execute the file:
/// `mode & 0o111 != 0`.
pub fn is_executable_mode(mode: u32) -> (r: bool)
    ensures
        r == mode_allows_execution(mode),
{
    assert((mode & 0o111u32 != 0) == ((mode / 64) % 2 == 1 || (mode / 8) % 2 == 1 || mode % 2 == 1))
        by (bit_vector);
    mode & 0o111u32 != 0
}

/// Whether `c` is the letter `lower` in either case.
pub open spec fn same_letter(c: char, lower: char, upper: char) -> bool {
    c == lower || c == upper
}

/// Whether a path names a Windows program: it ends in `.exe`, in any
/// letter case.
pub open spec fn has_exe_extension(path: Seq<char>) -> bool {
    let n = path.len();
    &&& n >= 4
    &&& path[n - 4] == '.'
    &&& same_letter(path[n - 3], 'e', 'E')
    &&& same_letter(path[n - 2], 'x', 'X')
    &&& same_letter(path[n - 1], 'e', 'E')
}

/// Whether `path` ends in `.exe`, in any letter case.
pub fn is_exe_path(path: &str) -> (r: bool)
    ensures
        r == has_exe_extension(path@),
{
    let n = path.unicode_len();
    if n < 4 {
        return false;
    }
    let dot = path.get_char(n - 4);
    let e1 = path.get_char(n - 3);
    let x = path.get_char(n - 2);
    let e2 = path.get_char(n - 1);
    dot == '.' && (e1 == 'e' || e1 == 'E') && (x == 'x' || x == 'X') && (e2 == 'e' || e2 == 'E')
}

/// What is known of an entry of a directory: its path, whether it is a
/// regular file, and its Unix permission bits where there are any and they
/// could be read.
pub struct Entry {
    pub path: String,
    pub is_file: bool,
    pub mode: Option<u32>,
}

/// Whether an entry is a program to install: a regular file that is named
/// like a Windows program (`.exe`) or that its Unix permission bits let
/// someone execute.
pub open spec fn is_program(e: Entry) -> bool {
    &&& e.is_file
    &&& has_exe_extension(e.path@) || (e.mode matches Some(m) && mode_allows_execution(m))
}

/// The paths of the programs among `entries`, in their order.
pub open spec fn program_paths(entries: Seq<Entry>) -> Seq<Seq<char>>
    decreases entries.len(),
{
    if entries.len() == 0 {
        Seq::empty()
    } else if is_program(entries.last()) {
        program_paths(entries.drop_last()).push(entries.last().path@)
    } else {
        program_paths(entries.drop_last())
    }
}

/// The paths of the regular files among `entries` that may be executed, in
/// the order of `entries`.
pub fn select_programs(entries: &Vec<Entry>) -> (r: Vec<String>)
    ensures
        r@.map_values(|s: String| s@) == program_paths(entries@),
{
    let mut found: Vec<String> = Vec::new();
    let mut i: usize = 0;
    while i < entries.len()
        invariant
            i <= entries@.len(),
            found@.map_values(|s: String| s@) == program_paths(entries@.take(i as int)),
        decreases entries@.len() - i,
    {
        assert(entries@.take(i + 1).drop_last() =~= entries@.take(i as int));
        let e = &entries[i];
        let executable = is_exe_path(e.path.as_str()) || match e.mode {
            Some(m) => is_executable_mode(m),
            None => false,
        };
        let ghost before = found@;
        if e.is_file && executable {
            found.push(e.path.clone());
            assert(found@.map_values(|s: String| s@) =~= before.map_values(|s: String| s@).push(e.path@));
        }
        i = i + 1;
    }
    assert(entries@.take(entries@.len() as int) =~= entries@);
    found
}

/// Where the install of a package stands.
#[derive(Clone, Copy)]
pub enum InstallPhase {
    /// Step `i` is shown and the user is asked whether to run it.
    Asking(usize),
    /// Step `i` is running.
    Running(usize),
    /// The user declined a step: no further step runs.
    Aborted,
    /// Step `i` failed: the install stops here.
    Failed(usize),
    /// Every step ran.
    Completed,
}

/// What happened since the last decision.
pub enum InstallEvent {
    /// The user typed this line at the question.
    Answered(String),
    /// The step that was running ended, successfully or not.
    Finished(bool),
}

/// What to do next.
pub enum InstallAction {
    /// Show step `i` and ask whether to run it.
    Ask(usize),
    /// Run step `i`.
    Run(usize),
    /// Say that the install is aborted.
    Abort,
    /// Report that step `i` failed.
    ReportFailure(usize),
    /// Report that step `step` succeeded; `complete` when it is the last
    /// step, announced as the end of the install; then ask about
    /// `then_ask`, if there is one.
    Succeeded { step: usize, complete: bool, then_ask: Option<usize> },
    /// The steps are over: install the programs.
    Finish,
    /// The event does not apply in this phase.
    Ignore,
}

/// A phase that makes sense for a list of `n` steps.
pub open spec fn phase_fits(n: nat, phase: InstallPhase) -> bool {
    match phase {
        InstallPhase::Asking(i) => i < n,
        InstallPhase::Running(i) => i < n,
        InstallPhase::Failed(i) => i < n,
        _ => true,
    }
}

/// A phase in which nothing more happens.
pub open spec fn is_final(phase: InstallPhase) -> bool {
    phase is Aborted || phase is Failed || phase is Completed
}

/// How an install begins.
pub open spec fn start_spec(steps: Seq<Seq<char>>) -> (InstallPhase, InstallAction) {
    if steps.len() == 0 {
        (InstallPhase::Completed, InstallAction::Finish)
    } else {
        (InstallPhase::Asking(0), InstallAction::Ask(0))
    }
}

/// The decision taken on an event.
pub open spec fn next_spec(steps: Seq<Seq<char>>, phase: InstallPhase, event: InstallEvent) -> (InstallPhase, InstallAction) {
    match phase {
        InstallPhase::Asking(i) => match event {
            InstallEvent::Answered(a) => if confirms(a@) {
                (InstallPhase::Running(i), InstallAction::Run(i))
            } else {
                (InstallPhase::Aborted, InstallAction::Abort)
            },
            _ => (phase, InstallAction::Ignore),
        },
        InstallPhase::Running(i) => match event {
            InstallEvent::Finished(ok) => if !ok {
                (InstallPhase::Failed(i), InstallAction::ReportFailure(i))
            } else {
                let complete = steps[i as int] == steps.last();
                if i + 1 < steps.len() {
                    (InstallPhase::Asking((i + 1) as usize),
                     InstallAction::Succeeded { step: i, complete, then_ask: Some((i + 1) as usize) })
                } else {
                    (InstallPhase::Completed, InstallAction::Succeeded { step: i, complete, then_ask: None })
                }
            },
            _ => (phase, InstallAction::Ignore),
        },
        _ => (phase, InstallAction::Ignore),
    }
}

/// The texts of a list of steps.
pub open spec fn step_texts(steps: Seq<String>) -> Seq<Seq<char>> {
    steps.map_values(|s: String| s@)
}

/// How the install of a package with these build steps begins: with the
/// first step, or, without steps, by installing the programs.
pub fn install_start(steps: &Vec<String>) -> (r: (InstallPhase, InstallAction))
    ensures
        r == start_spec(step_texts(steps@)),
{
    if steps.len() == 0 {
        (InstallPhase::Completed, InstallAction::Finish)
    } else {
        (InstallPhase::Asking(0), InstallAction::Ask(0))
    }
}

/// Decides what follows an event during an install: a step runs only
/// after the user agreed to it, the first refusal or failure ends the
/// steps, and a successful last step completes them.
pub fn install_next(steps: &Vec<String>, phase: InstallPhase, event: &InstallEvent) -> (r: (InstallPhase, InstallAction))
    requires
        phase_fits(steps@.len(), phase),
    ensures
        r == next_spec(step_texts(steps@), phase, *event),
        phase_fits(steps@.len(), r.0),
        phase is Asking && event is Answered && all_ascii(event->Answered_0@) ==> (r.1
            is Run <==> is_yes_answer(trim_spec(event->Answered_0@))),
{
    match phase {
        InstallPhase::Asking(i) => match event {
            InstallEvent::Answered(a) => if is_confirmation(a.as_str()) {
                (InstallPhase::Running(i), InstallAction::Run(i))
            } else {
                (InstallPhase::Aborted, InstallAction::Abort)
            },
            _ => (phase, InstallAction::Ignore),
        },
        InstallPhase::Running(i) => match event {
            InstallEvent::Finished(ok) => if !*ok {
                (InstallPhase::Failed(i), InstallAction::ReportFailure(i))
            } else {
                let complete = steps[i] == steps[steps.len() - 1];
                if i + 1 < steps.len() {
                    (InstallPhase::Asking(i + 1),
                     InstallAction::Succeeded { step: i, complete, then_ask: Some(i + 1) })
                } else {
                    (InstallPhase::Completed, InstallAction::Succeeded { step: i, complete, then_ask: None })
                }
            },
            _ => (phase, InstallAction::Ignore),
        },
        _ => (phase, InstallAction::Ignore),
    }
}

/// Whether the programs of the package are installed once the steps end
/// in this phase: always, unless a step failed.
pub fn installs_programs(phase: InstallPhase) -> (r: bool)
    ensures
        r == !(phase is Failed),
{
    match phase {
        InstallPhase::Failed(_) => false,
        _ => true,
    }
}

} // verus!
