//! Removing an installed package, once the user has agreed to it.

use vstd::prelude::*;
use crate::text::{confirms, is_confirmation, trim, trim_spec, owned, all_ascii, is_yes_answer};
use crate::locations::{file_in_dir, sidecar_name};

verus! {

/// A request to remove a package whose programs and record live in
/// `target_dir`.
pub struct RemovalRequest {
    pub target_dir: String,
    pub package: String,
}

/// Where a removal stands.
#[derive(Clone, Copy)]
pub enum RemovalPhase {
    /// Looking whether the package's record exists.
    Checking,
    /// Asking the user to agree.
    Confirming,
    /// Reading the name of the package's program from its record.
    Reading,
    /// Deleting the program.
    DeletingProgram,
    /// Deleting the record, once the program is gone.
    DeletingRecord,
    /// Nothing more happens.
    Done,
}

/// What happened since the last decision.
pub enum RemovalEvent {
    /// Whether the package's record exists.
    Checked(bool),
    /// The user typed this line at the question.
    Answered(String),
    /// The record names this program.
    BinaryNamed(String),
    /// The file last asked for is deleted.
    Deleted,
}

/// What to do next.
pub enum RemovalAction {
    /// Look for the record with this file name in the target directory.
    Check(String),
    /// Say that the package is not installed.
    ReportNotInstalled,
    /// Ask whether to remove the package.
    Ask,
    /// Say that the removal is aborted.
    Abort,
    /// Read the package's record.
    ReadRecord,
    /// Delete the package's program, at this path.
    DeleteProgram(String),
    /// Delete the package's record, at this path.
    DeleteRecord(String),
    /// Say that the package is removed.
    ReportRemoved,
    /// The event does not apply in this phase.
    Ignore,
}

impl RemovalRequest {
    /// A request for the package named by `package`, without surrounding
    /// whitespace.
    pub fn new(target_dir: &str, package: &str) -> (r: RemovalRequest)
        ensures
            r.target_dir@ == target_dir@,
            r.package@ == trim_spec(package@),
    {
        RemovalRequest { target_dir: owned(target_dir), package: owned(trim(package)) }
    }
}

/// `dir/name`.
pub open spec fn in_dir(dir: Seq<char>, name: Seq<char>) -> Seq<char> {
    dir + "/"@ + name
}

/// Whether `next` and `action` are the decision taken on `event` in
/// `phase`: the package is asked about only when its record exists, its
/// record is read only after the user agreed, and then the program that the
/// record names is deleted, and only after it the record.
pub open spec fn removal_step(req: RemovalRequest, phase: RemovalPhase, event: RemovalEvent, next: RemovalPhase, action: RemovalAction) -> bool {
    match phase {
        RemovalPhase::Checking => match event {
            RemovalEvent::Checked(found) => if found {
                next == RemovalPhase::Confirming && action is Ask
            } else {
                next == RemovalPhase::Done && action is ReportNotInstalled
            },
            _ => next == phase && action is Ignore,
        },
        RemovalPhase::Confirming => match event {
            RemovalEvent::Answered(a) => if confirms(a@) {
                next == RemovalPhase::Reading && action is ReadRecord
            } else {
                next == RemovalPhase::Done && action is Abort
            },
            _ => next == phase && action is Ignore,
        },
        RemovalPhase::Reading => match event {
            RemovalEvent::BinaryNamed(b) => next == RemovalPhase::DeletingProgram
                && (action matches RemovalAction::DeleteProgram(p) && p@ == in_dir(req.target_dir@, b@)),
            _ => next == phase && action is Ignore,
        },
        RemovalPhase::DeletingProgram => match event {
            RemovalEvent::Deleted => next == RemovalPhase::DeletingRecord
                && (action matches RemovalAction::DeleteRecord(p)
                    && p@ == in_dir(req.target_dir@, req.package@ + ".json"@)),
            _ => next == phase && action is Ignore,
        },
        RemovalPhase::DeletingRecord => match event {
            RemovalEvent::Deleted => next == RemovalPhase::Done && action is ReportRemoved,
            _ => next == phase && action is Ignore,
        },
        RemovalPhase::Done => next == phase && action is Ignore,
    }
}

/// The first action of a removal: look for the package's record.
pub fn removal_start(req: &RemovalRequest) -> (r: (RemovalPhase, RemovalAction))
    ensures
        r.0 == RemovalPhase::Checking,
        r.1 matches RemovalAction::Check(name) && name@ == req.package@ + ".json"@,
{
    (RemovalPhase::Checking, RemovalAction::Check(sidecar_name(req.package.as_str())))
}

/// Decides what follows an event during a removal.
pub fn removal_next(req: &RemovalRequest, phase: RemovalPhase, event: &RemovalEvent) -> (r: (RemovalPhase, RemovalAction))
    ensures
        removal_step(*req, phase, *event, r.0, r.1),
        phase is Confirming && event is Answered && all_ascii(event->Answered_0@) ==> (r.0
            == RemovalPhase::Reading <==> is_yes_answer(trim_spec(event->Answered_0@))),
{
    match phase {
        RemovalPhase::Checking => match event {
            RemovalEvent::Checked(found) => if *found {
                (RemovalPhase::Confirming, RemovalAction::Ask)
            } else {
                (RemovalPhase::Done, RemovalAction::ReportNotInstalled)
            },
            _ => (phase, RemovalAction::Ignore),
        },
        RemovalPhase::Confirming => match event {
            RemovalEvent::Answered(a) => if is_confirmation(a.as_str()) {
                (RemovalPhase::Reading, RemovalAction::ReadRecord)
            } else {
                (RemovalPhase::Done, RemovalAction::Abort)
            },
            _ => (phase, RemovalAction::Ignore),
        },
        RemovalPhase::Reading => match event {
            RemovalEvent::BinaryNamed(b) => {
                let binary = file_in_dir(req.target_dir.as_str(), b.as_str());
                (RemovalPhase::DeletingProgram, RemovalAction::DeleteProgram(binary))
            },
            _ => (phase, RemovalAction::Ignore),
        },
        RemovalPhase::DeletingProgram => match event {
            RemovalEvent::Deleted => {
                let name = sidecar_name(req.package.as_str());
                let record = file_in_dir(req.target_dir.as_str(), name.as_str());
                (RemovalPhase::DeletingRecord, RemovalAction::DeleteRecord(record))
            },
            _ => (phase, RemovalAction::Ignore),
        },
        RemovalPhase::DeletingRecord => match event {
            RemovalEvent::Deleted => (RemovalPhase::Done, RemovalAction::ReportRemoved),
            _ => (phase, RemovalAction::Ignore),
        },
        RemovalPhase::Done => (phase, RemovalAction::Ignore),
    }
}

} // verus!
