//! Properties of the library as a whole.

use vstd::prelude::*;
use crate::json::{JsonTree, member, str_of};
use crate::manifest::{
    non_null, release_of, steps_of, string_member_in, download_url_of, ManifestFault,
};
use crate::json::parsed_json;
use crate::manifest::{
    string_member_of, fault, text_outcome, list_outcome, release_outcome, ManifestError, Release,
};
use crate::install::step_texts;
use crate::install::{mode_allows_execution, has_exe_extension};
use crate::commands::all_repos;
use crate::text::is_yes_answer;
use crate::install::{
    InstallPhase, InstallEvent, InstallAction, phase_fits, is_final, next_spec, start_spec, Entry,
    is_program, program_paths,
};
use crate::remove::{RemovalRequest, RemovalPhase, RemovalEvent, RemovalAction, removal_step};
use crate::text::{confirms, is_unicode_whitespace, trim_start_spec, trim_end_spec, trim_spec};

verus! {

/// The elements kept by `non_null` are the non-`null` elements of the
/// list: each is a non-`null` element of it, and the last one kept is
/// followed only by `null`s.
pub proof fn law_present_versions(items: Seq<JsonTree>)
    ensures
        forall|k: int| 0 <= k < non_null(items).len() ==> !(#[trigger] non_null(items)[k] is Null),
        forall|k: int| 0 <= k < non_null(items).len() ==> items.contains(#[trigger] non_null(items)[k]),
        non_null(items).len() == 0 ==> forall|k: int| 0 <= k < items.len() ==> #[trigger] items[k] is Null,
        non_null(items).len() > 0 ==> exists|j: int| 0 <= j < items.len()
            && items[j] == non_null(items).last()
            && forall|k: int| j < k < items.len() ==> #[trigger] items[k] is Null,
    decreases items.len(),
{
    if items.len() > 0 {
        let rest = items.drop_last();
        law_present_versions(rest);
        assert forall|k: int| 0 <= k < non_null(items).len() implies items.contains(#[trigger] non_null(items)[k]) by {
            if k < non_null(rest).len() {
                let x = non_null(rest)[k];
                assert(rest.contains(x));
                let m = choose|m: int| 0 <= m < rest.len() && rest[m] == x;
                assert(items[m] == x);
            } else {
                assert(items[items.len() - 1] == non_null(items)[k]);
            }
        }
        if items.last() is Null {
            if non_null(rest).len() > 0 {
                let j = choose|j: int| 0 <= j < rest.len()
                    && rest[j] == non_null(rest).last()
                    && forall|k: int| j < k < rest.len() ==> #[trigger] rest[k] is Null;
                assert(items[j] == non_null(items).last());
                assert forall|k: int| j < k < items.len() implies #[trigger] items[k] is Null by {
                    if k < rest.len() {
                        assert(rest[k] is Null);
                    }
                }
            } else {
                assert forall|k: int| 0 <= k < items.len() implies #[trigger] items[k] is Null by {
                    if k < rest.len() {
                        assert(rest[k] is Null);
                    }
                }
            }
        } else {
            let j = items.len() - 1;
            assert(items[j] == non_null(items).last());
        }
    }
}

/// The version chosen as the latest is a string of the package's
/// `versions`, and every entry after it is `null`.
pub proof fn law_latest_version(doc: JsonTree)
    ensures
        release_of(doc) matches Some((author, version)) ==> {
            &&& member(doc, "author"@) == JsonTree::Str(author)
            &&& member(doc, "versions"@) matches JsonTree::Array(items)
            &&& exists|j: int| 0 <= j < items.len()
                && items[j] == JsonTree::Str(version)
                && forall|k: int| j < k < items.len() ==> #[trigger] items[k] is Null
        },
{
    if let JsonTree::Array(items) = member(doc, "versions"@) {
        law_present_versions(items);
        if let Some((author, version)) = release_of(doc) {
            let last = non_null(items).last();
            assert(last is Str);
            assert(last == JsonTree::Str(str_of(last)));
        }
    }
}

/// An install runs a step only right after the user agreed to that very
/// step.
pub proof fn law_step_runs_after_consent(steps: Seq<Seq<char>>, phase: InstallPhase, event: InstallEvent, i: usize)
    ensures
        next_spec(steps, phase, event).1 == InstallAction::Run(i) ==> {
            &&& phase == InstallPhase::Asking(i)
            &&& event matches InstallEvent::Answered(a) && confirms(a@)
        },
{
}

/// Once an install is aborted, has failed or has completed, every event is
/// ignored and it stays where it is.
pub proof fn law_install_ends_stay(steps: Seq<Seq<char>>, phase: InstallPhase, event: InstallEvent)
    requires
        is_final(phase),
    ensures
        next_spec(steps, phase, event) == (phase, InstallAction::Ignore),
{
}

/// Each decision keeps the install's phase within its list of steps.
pub proof fn law_install_phase_fits(steps: Seq<Seq<char>>, phase: InstallPhase, event: InstallEvent)
    requires
        phase_fits(steps.len(), phase),
    ensures
        phase_fits(steps.len(), next_spec(steps, phase, event).0),
{
}

/// Steps are offered in order: the install moves on to step `j` only when
/// step `j - 1` has just succeeded, and a failed step ends the install.
pub proof fn law_steps_in_order(steps: Seq<Seq<char>>, phase: InstallPhase, event: InstallEvent, j: usize)
    requires
        steps.len() <= usize::MAX,
        phase_fits(steps.len(), phase),
    ensures
        next_spec(steps, phase, event).0 == InstallPhase::Asking(j) && phase != InstallPhase::Asking(j) ==> {
            &&& j >= 1
            &&& phase == InstallPhase::Running((j - 1) as usize)
            &&& event == InstallEvent::Finished(true)
        },
        phase is Running && event == InstallEvent::Finished(false) ==> is_final(next_spec(steps, phase, event).0),
{
}

/// Whether `path` is the path of a program among `entries`.
pub open spec fn is_program_path(entries: Seq<Entry>, path: Seq<char>) -> bool {
    exists|m: int| 0 <= m < entries.len() && is_program(#[trigger] entries[m]) && entries[m].path@ == path
}

/// The programs picked from a directory are regular files that may be
/// executed, and none is left out.
pub proof fn law_programs_picked(entries: Seq<Entry>)
    ensures
        forall|k: int| 0 <= k < program_paths(entries).len() ==>
            is_program_path(entries, #[trigger] program_paths(entries)[k]),
        forall|m: int| 0 <= m < entries.len() && is_program(#[trigger] entries[m]) ==>
            program_paths(entries).contains(entries[m].path@),
    decreases entries.len(),
{
    if entries.len() > 0 {
        let rest = entries.drop_last();
        law_programs_picked(rest);
        let p = program_paths(entries);
        let q = program_paths(rest);
        assert forall|k: int| 0 <= k < p.len() implies is_program_path(entries, #[trigger] p[k]) by {
            if k < q.len() {
                assert(p[k] == q[k]);
                assert(is_program_path(rest, q[k]));
                let m = choose|m: int| 0 <= m < rest.len() && is_program(#[trigger] rest[m])
                    && rest[m].path@ == q[k];
                assert(entries[m] == rest[m]);
            } else {
                assert(p == q.push(entries.last().path@));
                assert(p[k] == entries[entries.len() - 1].path@);
                assert(is_program(entries[entries.len() - 1]));
            }
        }
        assert forall|m: int| 0 <= m < entries.len() && is_program(#[trigger] entries[m]) implies
            p.contains(entries[m].path@) by {
            if m < rest.len() {
                assert(rest[m] == entries[m]);
                assert(q.contains(rest[m].path@));
                let k = choose|k: int| 0 <= k < q.len() && q[k] == rest[m].path@;
                assert(p[k] == q[k]);
            } else {
                assert(p[p.len() - 1] == entries[m].path@);
            }
        }
    }
}

/// An answer that agrees to go on.
pub open spec fn is_consent(e: RemovalEvent) -> bool {
    e matches RemovalEvent::Answered(a) && confirms(a@)
}

/// A trace of a removal: the phases it went through, the events it got
/// and the actions it decided, one decision per event, from the start.
pub open spec fn removal_trace(req: RemovalRequest, phases: Seq<RemovalPhase>, events: Seq<RemovalEvent>, actions: Seq<RemovalAction>) -> bool {
    &&& phases.len() == events.len() + 1
    &&& actions.len() == events.len()
    &&& phases[0] == RemovalPhase::Checking
    &&& forall|k: int| #![trigger events[k]] 0 <= k < events.len() ==> removal_step(req, phases[k], events[k], phases[k + 1], actions[k])
}

proof fn removal_consent_so_far(req: RemovalRequest, phases: Seq<RemovalPhase>, events: Seq<RemovalEvent>, actions: Seq<RemovalAction>, n: int)
    requires
        removal_trace(req, phases, events, actions),
        0 <= n <= events.len(),
    ensures
        (phases[n] is Confirming || phases[n] is Reading || phases[n] is DeletingProgram
            || phases[n] is DeletingRecord) ==>
            exists|k: int| 0 <= k < n && #[trigger] events[k] == RemovalEvent::Checked(true),
        (phases[n] is Reading || phases[n] is DeletingProgram || phases[n] is DeletingRecord) ==>
            exists|k: int| 0 <= k < n && is_consent(#[trigger] events[k]),
        (phases[n] is DeletingProgram || phases[n] is DeletingRecord) ==>
            exists|k: int| 0 <= k < n && (#[trigger] actions[k]) is DeleteProgram,
    decreases n,
{
    if n > 0 {
        removal_consent_so_far(req, phases, events, actions, n - 1);
        let e = events[n - 1];
        assert(removal_step(req, phases[n - 1], e, phases[n], actions[n - 1]));
    }
}

/// A removal deletes files only when the package's record exists and the
/// user agreed, both before the deletion; and it deletes the record only
/// after the program.
pub proof fn law_removal_needs_consent(req: RemovalRequest, phases: Seq<RemovalPhase>, events: Seq<RemovalEvent>, actions: Seq<RemovalAction>, j: int)
    requires
        removal_trace(req, phases, events, actions),
        0 <= j < actions.len(),
        actions[j] is DeleteProgram || actions[j] is DeleteRecord,
    ensures
        exists|k: int| 0 <= k < j && #[trigger] events[k] == RemovalEvent::Checked(true),
        exists|k: int| 0 <= k < j && is_consent(#[trigger] events[k]),
        actions[j] is DeleteRecord ==> exists|k: int| 0 <= k < j && (#[trigger] actions[k]) is DeleteProgram,
{
    removal_consent_so_far(req, phases, events, actions, j);
    let e = events[j];
    assert(removal_step(req, phases[j], e, phases[j + 1], actions[j]));
}

proof fn trim_start_leaves_no_space(s: Seq<char>)
    ensures
        trim_start_spec(s).len() > 0 ==> !is_unicode_whitespace(trim_start_spec(s)[0]),
    decreases s.len(),
{
    if s.len() > 0 && is_unicode_whitespace(s[0]) {
        trim_start_leaves_no_space(s.drop_first());
    }
}

proof fn trim_end_keeps_a_prefix(s: Seq<char>)
    ensures
        trim_end_spec(s).len() <= s.len(),
        forall|i: int| 0 <= i < trim_end_spec(s).len() ==> #[trigger] trim_end_spec(s)[i] == s[i],
        trim_end_spec(s).len() > 0 ==> !is_unicode_whitespace(trim_end_spec(s).last()),
    decreases s.len(),
{
    if s.len() > 0 && is_unicode_whitespace(s.last()) {
        trim_end_keeps_a_prefix(s.drop_last());
    }
}

/// Trimming twice trims no more than trimming once.
pub proof fn law_trim_idempotent(s: Seq<char>)
    ensures
        trim_spec(trim_spec(s)) == trim_spec(s),
{
    let a = trim_start_spec(s);
    let t = trim_end_spec(a);
    trim_start_leaves_no_space(s);
    trim_end_keeps_a_prefix(a);
    if t.len() > 0 {
        assert(t[0] == a[0]);
    }
    assert(trim_start_spec(t) == t);
    assert(trim_end_spec(t) == t);
}

/// Whitespace around an answer does not change whether it agrees to go on.
pub proof fn law_answer_ignores_surrounding_space(input: Seq<char>)
    ensures
        confirms(trim_spec(input)) == confirms(input),
{
    law_trim_idempotent(input);
}

/// An install with no steps goes straight to installing the programs; any
/// other install begins by asking about its first step.
pub proof fn law_install_begins(steps: Seq<Seq<char>>)
    ensures
        steps.len() == 0 ==> start_spec(steps) == (InstallPhase::Completed, InstallAction::Finish),
        steps.len() > 0 ==> start_spec(steps) == (InstallPhase::Asking(0), InstallAction::Ask(0)),
{
}

/// A running step that ends unsuccessfully is a failure, whichever step it
/// is, the last one included: it is reported, and the install stops there.
pub proof fn law_failed_step_fails(steps: Seq<Seq<char>>, i: usize)
    requires
        i < steps.len(),
    ensures
        next_spec(steps, InstallPhase::Running(i), InstallEvent::Finished(false))
            == (InstallPhase::Failed(i), InstallAction::ReportFailure(i)),
{
}

/// Success is reported, and the install goes on or completes, only for a
/// running step that ended successfully.
pub proof fn law_success_needs_success(steps: Seq<Seq<char>>, phase: InstallPhase, event: InstallEvent)
    ensures
        (next_spec(steps, phase, event).1 is Succeeded || (next_spec(steps, phase, event).0 is Completed
            && !(phase is Completed))) ==> (phase is Running && event == InstallEvent::Finished(true)),
{
}

/// A running step that ends successfully is reported as done; the next step
/// is asked about if there is one, and otherwise the install is complete.
/// The report announces the end of the install exactly when the step's text
/// is that of the last step.
pub proof fn law_successful_step(steps: Seq<Seq<char>>, i: usize)
    requires
        i < steps.len(),
        steps.len() <= usize::MAX,
    ensures
        ({
            let (next, action) = next_spec(steps, InstallPhase::Running(i), InstallEvent::Finished(true));
            &&& action matches InstallAction::Succeeded { step, complete, then_ask }
            &&& action->step == i
            &&& action->complete == (steps[i as int] == steps[steps.len() - 1])
            &&& i + 1 < steps.len() ==> action->then_ask == Some((i + 1) as usize)
                && next == InstallPhase::Asking((i + 1) as usize)
            &&& i + 1 == steps.len() ==> action->then_ask is None && next == InstallPhase::Completed
        }),
{
}

/// Asked about step `i`, an answer that agrees runs that step, and any other
/// answer aborts the install.
pub proof fn law_answer_decides_step(steps: Seq<Seq<char>>, i: usize, answer: String)
    ensures
        confirms(answer@) ==> next_spec(steps, InstallPhase::Asking(i), InstallEvent::Answered(answer))
            == (InstallPhase::Running(i), InstallAction::Run(i)),
        !confirms(answer@) ==> next_spec(steps, InstallPhase::Asking(i), InstallEvent::Answered(answer))
            == (InstallPhase::Aborted, InstallAction::Abort),
{
}

/// The decisions of a removal: it asks only when the record exists and
/// otherwise reports that the package is not installed; an answer that
/// agrees leads to reading the record, any other aborts; the program named
/// by the record is deleted from the target directory, then the record.
pub proof fn law_removal_decisions(req: RemovalRequest, event: RemovalEvent, next: RemovalPhase, action: RemovalAction)
    ensures
        removal_step(req, RemovalPhase::Checking, RemovalEvent::Checked(true), next, action)
            ==> next == RemovalPhase::Confirming && action is Ask,
        removal_step(req, RemovalPhase::Checking, RemovalEvent::Checked(false), next, action)
            ==> next == RemovalPhase::Done && action is ReportNotInstalled,
        event matches RemovalEvent::Answered(a) && confirms(a@)
            && removal_step(req, RemovalPhase::Confirming, event, next, action)
            ==> next == RemovalPhase::Reading && action is ReadRecord,
        event matches RemovalEvent::Answered(a) && !confirms(a@)
            && removal_step(req, RemovalPhase::Confirming, event, next, action)
            ==> next == RemovalPhase::Done && action is Abort,
        event is BinaryNamed
            && removal_step(req, RemovalPhase::Reading, event, next, action)
            ==> next == RemovalPhase::DeletingProgram
                && (action matches RemovalAction::DeleteProgram(p)
                && p@ == req.target_dir@ + seq!['/'] + event->BinaryNamed_0@),
        removal_step(req, RemovalPhase::DeletingProgram, RemovalEvent::Deleted, next, action)
            ==> next == RemovalPhase::DeletingRecord
                && (action matches RemovalAction::DeleteRecord(p)
                && p@ == req.target_dir@ + seq!['/'] + req.package@ + seq!['.', 'j', 's', 'o', 'n']),
        removal_step(req, RemovalPhase::DeletingRecord, RemovalEvent::Deleted, next, action)
            ==> next == RemovalPhase::Done && action is ReportRemoved,
{
    reveal_strlit("/");
    reveal_strlit(".json");
}

proof fn last_present_is_last_non_null(items: Seq<JsonTree>, j: int)
    requires
        0 <= j < items.len(),
        !(items[j] is Null),
        forall|k: int| j < k < items.len() ==> #[trigger] items[k] is Null,
    ensures
        non_null(items).len() > 0,
        non_null(items).last() == items[j],
    decreases items.len(),
{
    if j < items.len() - 1 {
        let rest = items.drop_last();
        assert(items.last() is Null);
        assert forall|k: int| j < k < rest.len() implies #[trigger] rest[k] is Null by {
            assert(rest[k] == items[k]);
        }
        last_present_is_last_non_null(rest, j);
    }
}

/// Whenever the description holds a string author, and its `versions` hold
/// a string followed only by `null`s, that author and that version are the
/// release, however many versions come before it.
pub proof fn law_latest_version_found(doc: JsonTree, items: Seq<JsonTree>, j: int, author: Seq<char>, version: Seq<char>)
    requires
        member(doc, "author"@) == JsonTree::Str(author),
        member(doc, "versions"@) == JsonTree::Array(items),
        0 <= j < items.len(),
        items[j] == JsonTree::Str(version),
        forall|k: int| j < k < items.len() ==> #[trigger] items[k] is Null,
    ensures
        release_of(doc) == Some((author, version)),
{
    last_present_is_last_non_null(items, j);
}

/// The build steps of a manifest: an error when `build_steps` is not an
/// array or holds something other than a string, and otherwise exactly its
/// strings, in order.
pub proof fn law_build_steps(doc: JsonTree)
    ensures
        !(member(doc, "build_steps"@) is Array)
            ==> steps_of(doc) == Err::<Seq<Seq<char>>, ManifestFault>(ManifestFault::NotAnArray),
        member(doc, "build_steps"@) is Array ==> ({
            let items = member(doc, "build_steps"@)->Array_0;
            &&& (exists|i: int| 0 <= i < items.len() && !(#[trigger] items[i] is Str))
                ==> steps_of(doc) == Err::<Seq<Seq<char>>, ManifestFault>(ManifestFault::NotAString)
            &&& (forall|i: int| 0 <= i < items.len() ==> #[trigger] items[i] is Str) ==> {
                &&& steps_of(doc) is Ok
                &&& steps_of(doc)->Ok_0.len() == items.len()
                &&& forall|i: int| 0 <= i < items.len()
                    ==> #[trigger] items[i] == JsonTree::Str(steps_of(doc)->Ok_0[i])
            }
        }),
{
}

/// Reading a member from a text is reading it from the document the text
/// holds: the string of that member, or `Missing`, whatever the other
/// members hold; and the parser's error for a text that is not JSON.
pub proof fn law_member_from_text(text: Seq<char>, key: Seq<char>)
    ensures
        parsed_json(text) is Ok ==> string_member_in(text, key) == match member(parsed_json(text)->Ok_0, key) {
            JsonTree::Str(s) => Ok::<Seq<char>, ManifestFault>(s),
            _ => Err(ManifestFault::Missing),
        },
        parsed_json(text) is Err ==> string_member_in(text, key)
            == Err::<Seq<char>, ManifestFault>(ManifestFault::Json(parsed_json(text)->Err_0)),
{
}

/// The answer of the package index gives a download address exactly when it
/// is an object whose members are all strings and which has
/// `download_url`, and the address is that member's string.
pub proof fn law_download_url(doc: JsonTree)
    ensures
        download_url_of(doc) is Ok <==> {
            &&& doc is Object
            &&& forall|k: Seq<char>| doc->Object_0.contains_key(k) ==> (#[trigger] doc->Object_0[k]) is Str
            &&& doc->Object_0.contains_key("download_url"@)
        },
        download_url_of(doc) is Ok ==> doc->Object_0["download_url"@] == JsonTree::Str(download_url_of(doc)->Ok_0),
{
}

/// Whether a path ends in `.exe`, in any letter case.
pub open spec fn named_exe(p: Seq<char>) -> bool {
    &&& p.len() >= 4
    &&& p[p.len() - 4] == '.'
    &&& (p[p.len() - 3] == 'e' || p[p.len() - 3] == 'E')
    &&& (p[p.len() - 2] == 'x' || p[p.len() - 2] == 'X')
    &&& (p[p.len() - 1] == 'e' || p[p.len() - 1] == 'E')
}

/// Whether `path` is that of a regular file among `entries` that is named
/// `.exe` or whose permission bits hold an execute bit.
pub open spec fn permitted_file(entries: Seq<Entry>, path: Seq<char>) -> bool {
    exists|m: int| 0 <= m < entries.len()
        && (#[trigger] entries[m]).path@ == path
        && entries[m].is_file
        && (named_exe(entries[m].path@) || (entries[m].mode matches Some(x) && x & 0o111u32 != 0))
}

/// Every regular file whose permission bits hold an execute bit
/// (`mode & 0o111 != 0`), or whose name ends in `.exe`, is picked; and every
/// picked path is that of such a file.
pub proof fn law_programs_by_permission(entries: Seq<Entry>)
    ensures
        forall|m: int| 0 <= m < entries.len() && (#[trigger] entries[m]).is_file
            && (entries[m].mode matches Some(x) && x & 0o111u32 != 0)
            ==> program_paths(entries).contains(entries[m].path@),
        forall|m: int| 0 <= m < entries.len() && (#[trigger] entries[m]).is_file && named_exe(entries[m].path@)
            ==> program_paths(entries).contains(entries[m].path@),
        forall|k: int| 0 <= k < program_paths(entries).len()
            ==> permitted_file(entries, #[trigger] program_paths(entries)[k]),
{
    law_programs_picked(entries);
    assert forall|x: u32| (x & 0o111u32 != 0) == ((x / 64) % 2 == 1 || (x / 8) % 2 == 1 || x % 2 == 1) by {
        assert((x & 0o111u32 != 0) == ((x / 64) % 2 == 1 || (x / 8) % 2 == 1 || x % 2 == 1)) by (bit_vector);
    }
    assert forall|k: int| 0 <= k < program_paths(entries).len()
        implies permitted_file(entries, #[trigger] program_paths(entries)[k]) by {
        assert(is_program_path(entries, program_paths(entries)[k]));
        let m = choose|m: int| 0 <= m < entries.len() && is_program(#[trigger] entries[m])
            && entries[m].path@ == program_paths(entries)[k];
        assert(is_program(entries[m]));
    }
}

proof fn trim_start_shape(s: Seq<char>) -> (i: int)
    ensures
        0 <= i <= s.len(),
        trim_start_spec(s) == s.skip(i),
        forall|k: int| 0 <= k < i ==> is_unicode_whitespace(#[trigger] s[k]),
        i < s.len() ==> !is_unicode_whitespace(s[i]),
    decreases s.len(),
{
    if s.len() > 0 && is_unicode_whitespace(s[0]) {
        let rest = s.drop_first();
        let i = trim_start_shape(rest);
        assert(rest.skip(i) =~= s.skip(i + 1));
        assert forall|k: int| 0 <= k < i + 1 implies is_unicode_whitespace(#[trigger] s[k]) by {
            if k > 0 {
                assert(s[k] == rest[k - 1]);
            }
        }
        if i + 1 < s.len() {
            assert(s[i + 1] == rest[i]);
        }
        i + 1
    } else {
        assert(s.skip(0) =~= s);
        0
    }
}

proof fn trim_end_shape(s: Seq<char>) -> (n: int)
    ensures
        0 <= n <= s.len(),
        trim_end_spec(s) == s.take(n),
        forall|k: int| n <= k < s.len() ==> is_unicode_whitespace(#[trigger] s[k]),
        n > 0 ==> !is_unicode_whitespace(s[n - 1]),
    decreases s.len(),
{
    if s.len() > 0 && is_unicode_whitespace(s.last()) {
        let rest = s.drop_last();
        let n = trim_end_shape(rest);
        assert(rest.take(n) =~= s.take(n));
        assert forall|k: int| n <= k < s.len() implies is_unicode_whitespace(#[trigger] s[k]) by {
            if k < rest.len() {
                assert(s[k] == rest[k]);
            }
        }
        if n > 0 {
            assert(s[n - 1] == rest[n - 1]);
        }
        n
    } else {
        assert(s.take(s.len() as int) =~= s);
        s.len() as int
    }
}

/// Whether the part `i..j` of `s` is what trimming leaves: only whitespace
/// before and after it, and no whitespace at either end of it.
pub open spec fn trimmed_part(s: Seq<char>, i: int, j: int) -> bool {
    &&& 0 <= i <= j <= s.len()
    &&& forall|k: int| 0 <= k < i ==> is_unicode_whitespace(#[trigger] s[k])
    &&& forall|k: int| j <= k < s.len() ==> is_unicode_whitespace(#[trigger] s[k])
    &&& i < j ==> !is_unicode_whitespace(s[i]) && !is_unicode_whitespace(s[j - 1])
}

/// Trimming leaves the part of the text between its leading and trailing
/// whitespace, unchanged.
pub proof fn law_trim_keeps_the_middle(s: Seq<char>)
    ensures
        exists|i: int, j: int| trimmed_part(s, i, j) && trim_spec(s) == s.subrange(i, j),
{
    let i = trim_start_shape(s);
    let t = s.skip(i);
    let n = trim_end_shape(t);
    let j = i + n;
    assert(t.take(n) =~= s.subrange(i, j));
    assert forall|k: int| j <= k < s.len() implies is_unicode_whitespace(#[trigger] s[k]) by {
        assert(s[k] == t[k - i]);
    }
    if i < j {
        assert(s[i] == t[0]);
        assert(s[j - 1] == t[n - 1]);
    }
    assert(trimmed_part(s, i, j));
}

/// A trimmed ASCII answer agrees exactly when it is `y` or `Y`.
pub proof fn law_yes_answers(t: Seq<char>)
    ensures
        is_yes_answer(t) <==> (t.len() == 1 && (t[0] == 'y' || t[0] == 'Y')),
{
    if t.len() == 1 && t[0] == 'y' {
        assert(t =~= seq!['y']);
    }
    if t.len() == 1 && t[0] == 'Y' {
        assert(t =~= seq!['Y']);
    }
}

/// A file counts as executable when its permission bits hold any of the
/// three execute bits: `mode & 0o111 != 0`.
pub proof fn law_execute_bits(mode: u32)
    ensures
        mode_allows_execution(mode) <==> (mode & 0o111u32 != 0),
{
    assert((mode & 0o111u32 != 0) == ((mode / 64) % 2 == 1 || (mode / 8) % 2 == 1 || mode % 2 == 1))
        by (bit_vector);
}

/// A Windows program is a path that ends in `.exe`, in any letter case.
pub proof fn law_exe_names(p: Seq<char>)
    ensures
        has_exe_extension(p) <==> named_exe(p),
{
}

/// A repository argument stands for every repository exactly when it is
/// absent or `*`.
pub proof fn law_all_repos(repo: Option<Seq<char>>)
    ensures
        all_repos(repo) <==> (repo is None || repo == Some(seq!['*'])),
{
}

/// Reading a member gives its string, or `Missing` when it is absent or
/// holds anything else, whatever the other members hold.
pub proof fn law_member_read(doc: JsonTree, key: Seq<char>)
    ensures
        string_member_of(doc, key) == match member(doc, key) {
            JsonTree::Str(s) => Ok::<Seq<char>, ManifestFault>(s),
            _ => Err(ManifestFault::Missing),
        },
        doc is Object && doc->Object_0.contains_key(key) ==> member(doc, key) == doc->Object_0[key],
        !(doc is Object && doc->Object_0.contains_key(key)) ==> member(doc, key) == JsonTree::Null,
{
}

/// An install ignores an event that does not fit its phase: a step's end
/// while asking, and an answer while a step runs.
pub proof fn law_install_out_of_turn(steps: Seq<Seq<char>>, i: usize, answer: String, ok: bool)
    ensures
        next_spec(steps, InstallPhase::Asking(i), InstallEvent::Finished(ok))
            == (InstallPhase::Asking(i), InstallAction::Ignore),
        next_spec(steps, InstallPhase::Running(i), InstallEvent::Answered(answer))
            == (InstallPhase::Running(i), InstallAction::Ignore),
{
}

/// A removal ignores an event that does not fit its phase, and once done it
/// ignores every event.
pub proof fn law_removal_out_of_turn(req: RemovalRequest, phase: RemovalPhase, event: RemovalEvent, next: RemovalPhase, action: RemovalAction)
    requires
        removal_step(req, phase, event, next, action),
        phase is Done
            || (phase is Checking && !(event is Checked))
            || (phase is Confirming && !(event is Answered))
            || (phase is Reading && !(event is BinaryNamed))
            || ((phase is DeletingProgram || phase is DeletingRecord) && !(event is Deleted)),
    ensures
        next == phase,
        action is Ignore,
{
}

/// Whether an entry is a regular file named `.exe` or with an execute bit.
pub open spec fn permitted_entry(e: Entry) -> bool {
    e.is_file && (named_exe(e.path@) || (e.mode matches Some(x) && x & 0o111u32 != 0))
}

/// The programs of two lists of entries, one after the other, are the
/// programs of the first followed by those of the second; and a single
/// entry gives its path exactly when it is a regular file named `.exe` or
/// with an execute bit. Together these fix the order and the number of the
/// picked paths.
pub proof fn law_programs_in_order(a: Seq<Entry>, b: Seq<Entry>)
    ensures
        program_paths(a + b) == program_paths(a) + program_paths(b),
        forall|e: Entry| program_paths(seq![e]) == if permitted_entry(e) { seq![e.path@] } else { Seq::<Seq<char>>::empty() },
    decreases b.len(),
{
    if b.len() == 0 {
        assert(a + b =~= a);
        assert(program_paths(a) + program_paths(b) =~= program_paths(a));
    } else {
        let b1 = b.drop_last();
        law_programs_in_order(a, b1);
        assert((a + b).drop_last() =~= a + b1);
        assert((a + b).last() == b.last());
        if is_program(b.last()) {
            assert(program_paths(a) + program_paths(b) =~= (program_paths(a) + program_paths(b1)).push(b.last().path@));
        } else {
            assert(program_paths(a) + program_paths(b) =~= program_paths(a) + program_paths(b1));
        }
    }
    assert forall|e: Entry| program_paths(seq![e]) == if permitted_entry(e) { seq![e.path@] } else { Seq::<Seq<char>>::empty() } by {
        let one = seq![e];
        assert(one.drop_last() =~= Seq::<Entry>::empty());
        assert(one.last() == e);
        assert(program_paths(Seq::<Entry>::empty()) == Seq::<Seq<char>>::empty());
        law_execute_bits(match e.mode { Some(x) => x, None => 0 });
        law_exe_names(e.path@);
        assert(is_program(e) == permitted_entry(e));
        if is_program(e) {
            assert(program_paths(one) == program_paths(one.drop_last()).push(e.path@));
            assert(program_paths(one) =~= seq![e.path@]);
        } else {
            assert(program_paths(one) == program_paths(one.drop_last()));
        }
    }
}

/// How results are read in the contracts: each error keeps its kind, and
/// for a text that is not JSON its message; each text and list of texts is
/// read by its characters.
pub proof fn law_outcome_views(e: ManifestError, s: String, v: Vec<String>, rel: Release)
    ensures
        e is NotAnArray <==> fault(e) is NotAnArray,
        e is NotAString <==> fault(e) is NotAString,
        e is Missing <==> fault(e) is Missing,
        e is Json <==> fault(e) is Json,
        e is Json ==> fault(e)->Json_0 == e->Json_0@,
        text_outcome(Ok(s)) == Ok::<Seq<char>, ManifestFault>(s@),
        text_outcome(Err(e)) == Err::<Seq<char>, ManifestFault>(fault(e)),
        list_outcome(Ok(v)) is Ok,
        list_outcome(Ok(v))->Ok_0.len() == v@.len(),
        forall|i: int| 0 <= i < v@.len() ==> #[trigger] list_outcome(Ok(v))->Ok_0[i] == v@[i]@,
        list_outcome(Err(e)) == Err::<Seq<Seq<char>>, ManifestFault>(fault(e)),
        release_outcome(Ok(rel)) == Ok::<(Seq<char>, Seq<char>), ManifestFault>((rel.author@, rel.version@)),
        release_outcome(Err(e)) == Err::<(Seq<char>, Seq<char>), ManifestFault>(fault(e)),
{
}

/// The steps' texts are read one by one, in order.
pub proof fn law_step_texts(v: Seq<String>)
    ensures
        step_texts(v).len() == v.len(),
        forall|i: int| 0 <= i < v.len() ==> #[trigger] step_texts(v)[i] == v[i]@,
{
}

} // verus!
