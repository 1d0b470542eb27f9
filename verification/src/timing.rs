//! When an export is due: the staleness policies, the editing events that a
//! snapshot was compiled for, and the predicate that joins them.

use tinymist_std::typst::TypstPagedDocument;
use tinymist_world::CompileSignal;
use vstd::prelude::*;
use crate::document::PagedDocument;

verus! {

/// The trigger under which a task is run again.
#[derive(Clone, Copy, Debug, PartialEq, Eq, Structural)]
pub enum TaskWhen {
    /// Never run.
    Never,
    /// Run when a file was saved.
    OnSave,
    /// Run when the text was edited in memory.
    OnType,
    /// Run when the document was changed, by an edit or by a save.
    OnDocumentChange,
    /// Run when a file was saved and the document declares a title.
    OnDocumentHasTitle,
    /// Run when the entry file was changed.
    Script,
}

/// The triggers that the signal of a compilation is asked about.
#[derive(Clone, Copy, Debug, PartialEq, Eq, Structural)]
pub enum SignalPolicy {
    Never,
    OnSave,
    OnType,
    OnDocumentHasTitle,
    Script,
}

/// The editing events that led to a compilation.
#[derive(Clone, Copy, Debug, PartialEq, Eq, Structural)]
pub struct ExportSignal {
    /// The revision follows an edit held in memory.
    pub by_mem_events: bool,
    /// The revision follows a change on disk.
    pub by_fs_events: bool,
    /// The revision follows a change of the entry file.
    pub by_entry_update: bool,
}

/// The view of a project that one compilation works on, as far as the
/// exports read it.
#[derive(Clone, Copy, Debug, PartialEq, Eq, Structural)]
pub struct CompileSnapshot {
    /// The events that led to this compilation.
    pub signal: ExportSignal,
}

/// The policy in force where none is configured.
pub open spec fn effective_policy(timing: Option<TaskWhen>) -> TaskWhen {
    match timing {
        Some(policy) => policy,
        None => TaskWhen::Never,
    }
}

/// The trigger that the signal is asked about for a policy; none for the
/// policy that follows every change of the document, which the signal does
/// not know.
pub open spec fn signal_policy(policy: TaskWhen) -> Option<SignalPolicy> {
    match policy {
        TaskWhen::Never => Some(SignalPolicy::Never),
        TaskWhen::OnSave => Some(SignalPolicy::OnSave),
        TaskWhen::OnType => Some(SignalPolicy::OnType),
        TaskWhen::OnDocumentChange => None,
        TaskWhen::OnDocumentHasTitle => Some(SignalPolicy::OnDocumentHasTitle),
        TaskWhen::Script => Some(SignalPolicy::Script),
    }
}

/// What the signal of a compilation says about a trigger, given whether
/// the document declares a title; `None` where it would take a document to
/// say and there is none.
pub open spec fn should_run(
    signal: ExportSignal,
    policy: SignalPolicy,
    titled: Option<bool>,
) -> Option<bool> {
    match policy {
        SignalPolicy::Never => Some(false),
        SignalPolicy::Script => Some(signal.by_entry_update),
        SignalPolicy::OnType => Some(signal.by_mem_events),
        SignalPolicy::OnSave => Some(signal.by_fs_events),
        SignalPolicy::OnDocumentHasTitle => if signal.by_fs_events {
            titled
        } else {
            Some(false)
        },
    }
}

/// Whether a task is due. A task that never runs is not. Any other task is
/// due where no previous document is known. With a document, a task that
/// follows every change of it is due after an edit or a save; for the
/// others the signal is asked, and the task is due where the signal cannot
/// say.
pub open spec fn needs_run_spec(
    signal: ExportSignal,
    timing: Option<TaskWhen>,
    titled: Option<bool>,
) -> bool {
    let policy = effective_policy(timing);
    if policy == TaskWhen::Never {
        false
    } else if titled.is_none() {
        true
    } else {
        match signal_policy(policy) {
            None => signal.by_mem_events || signal.by_fs_events,
            Some(asked) => match should_run(signal, asked, titled) {
                Some(due) => due,
                None => true,
            },
        }
    }
}

/// Whether a document, if there is one, declares a title.
pub open spec fn titled(doc: Option<&PagedDocument>) -> Option<bool> {
    match doc {
        Some(d) => Some(d.has_title()),
        None => None,
    }
}

/// `CompileSignal::should_run_task` of tinymist-world, asked about a
/// document with the given title: `Never` is not due; `Script` follows the
/// change of the entry file, `OnType` the edits in memory, `OnSave` the
/// changes on disk; `OnDocumentHasTitle` is due after a change on disk
/// where the document has a title.
#[verifier::external_body]
fn should_run_task(signal: &ExportSignal, policy: SignalPolicy, title: &Option<String>) -> (r:
    Option<bool>)
    ensures
        r == should_run(*signal, policy, Some(title.is_some())),
{
    let signal = CompileSignal {
        by_mem_events: signal.by_mem_events,
        by_fs_events: signal.by_fs_events,
        by_entry_update: signal.by_entry_update,
    };
    let when = match policy {
        SignalPolicy::Never => tinymist_world::args::TaskWhen::Never,
        SignalPolicy::OnSave => tinymist_world::args::TaskWhen::OnSave,
        SignalPolicy::OnType => tinymist_world::args::TaskWhen::OnType,
        SignalPolicy::OnDocumentHasTitle => tinymist_world::args::TaskWhen::OnDocumentHasTitle,
        SignalPolicy::Script => tinymist_world::args::TaskWhen::Script,
    };
    let mut doc = TypstPagedDocument::default();
    doc.info.title = title.as_ref().map(|text| text.as_str().into());
    signal.should_run_task(&when, Some(&doc))
}

/// The trigger that the signal is asked about for a policy.
pub fn asked_policy(policy: TaskWhen) -> (r: Option<SignalPolicy>)
    ensures
        r == signal_policy(policy),
{
    match policy {
        TaskWhen::Never => Some(SignalPolicy::Never),
        TaskWhen::OnSave => Some(SignalPolicy::OnSave),
        TaskWhen::OnType => Some(SignalPolicy::OnType),
        TaskWhen::OnDocumentChange => None,
        TaskWhen::OnDocumentHasTitle => Some(SignalPolicy::OnDocumentHasTitle),
        TaskWhen::Script => Some(SignalPolicy::Script),
    }
}

/// The decisions on when exports run.
#[derive(Clone, Copy, Debug)]
pub struct ExportTimings;

impl ExportTimings {
    /// Decides whether a task with the policy `timing` must run for the
    /// snapshot, given the previous document. A task without a policy, or
    /// with the policy `Never`, does not run. Any other task runs where no
    /// previous document is known.
    pub fn needs_run(
        snap: &CompileSnapshot,
        timing: Option<TaskWhen>,
        doc: Option<&PagedDocument>,
    ) -> (due: bool)
        ensures
            due == needs_run_spec(snap.signal, timing, titled(doc)),
            effective_policy(timing) == TaskWhen::Never ==> !due,
            effective_policy(timing) != TaskWhen::Never && doc.is_none() ==> due,
    {
        let policy = match timing {
            Some(policy) => policy,
            None => TaskWhen::Never,
        };
        match policy {
            TaskWhen::Never => false,
            _ => match doc {
                None => true,
                Some(d) => match asked_policy(policy) {
                    None => snap.signal.by_mem_events || snap.signal.by_fs_events,
                    Some(asked) => match should_run_task(&snap.signal, asked, &d.title) {
                        Some(due) => due,
                        None => true,
                    },
                },
            },
        }
    }

    /// Decides whether any of the policies is due for the snapshot, judged
    /// without a previous document.
    pub fn any_needs_run(snap: &CompileSnapshot, timings: &Vec<Option<TaskWhen>>) -> (due: bool)
        ensures
            due == any_due_without_document(snap.signal, timings@),
    {
        let mut i: usize = 0;
        while i < timings.len()
            invariant
                i <= timings.len(),
                !any_due_without_document(snap.signal, timings@.take(i as int)),
            decreases timings.len() - i,
        {
            if Self::needs_run(snap, timings[i], None) {
                proof {
                    lemma_due_at(snap.signal, timings@, i as int);
                }
                return true;
            }
            proof {
                let next = timings@.take(i + 1);
                assert(forall|j: int| 0 <= j < next.len() ==> next[j] == timings@[j]);
            }
            i += 1;
        }
        proof {
            assert(timings@.take(timings.len() as int) == timings@);
        }
        false
    }
}

/// Whether some policy of the sequence is due for the events, judged
/// without a previous document.
pub open spec fn any_due_without_document(
    signal: ExportSignal,
    timings: Seq<Option<TaskWhen>>,
) -> bool {
    exists|i: int| 0 <= i < timings.len() && needs_run_spec(signal, #[trigger] timings[i], None)
}

proof fn lemma_due_at(signal: ExportSignal, timings: Seq<Option<TaskWhen>>, i: int)
    requires
        0 <= i < timings.len(),
        needs_run_spec(signal, timings[i], None),
    ensures
        any_due_without_document(signal, timings),
{
}

/// Judged without a previous document, some policy is due exactly where
/// some policy is other than `Never`, whatever the events.
pub proof fn lemma_any_due_is_any_policy(signal: ExportSignal, timings: Seq<Option<TaskWhen>>)
    ensures
        any_due_without_document(signal, timings) <==> exists|i: int|
            0 <= i < timings.len() && effective_policy(#[trigger] timings[i]) != TaskWhen::Never,
{
    if any_due_without_document(signal, timings) {
        let i = choose|i: int|
            0 <= i < timings.len() && needs_run_spec(signal, #[trigger] timings[i], None);
        assert(effective_policy(timings[i]) != TaskWhen::Never);
    }
    if exists|i: int|
        0 <= i < timings.len() && effective_policy(#[trigger] timings[i]) != TaskWhen::Never {
        let i = choose|i: int|
            0 <= i < timings.len() && effective_policy(#[trigger] timings[i]) != TaskWhen::Never;
        assert(needs_run_spec(signal, timings[i], None));
    }
}

/// A task that never runs is not due, whatever the events and the document.
pub proof fn lemma_never_is_not_due(signal: ExportSignal, titled: Option<bool>)
    ensures
        !needs_run_spec(signal, Some(TaskWhen::Never), titled),
        !needs_run_spec(signal, None, titled),
{
}

/// A task with any other policy is due where no previous document is known.
pub proof fn lemma_due_without_document(signal: ExportSignal, policy: TaskWhen)
    requires
        policy != TaskWhen::Never,
    ensures
        needs_run_spec(signal, Some(policy), None),
{
}

/// Where nothing happened since the previous document, a task that waits
/// for an event is not due.
pub proof fn lemma_quiet_is_not_due(policy: TaskWhen, has_title: bool)
    ensures
        !needs_run_spec(
            (ExportSignal { by_mem_events: false, by_fs_events: false, by_entry_update: false }),
            Some(policy),
            Some(has_title),
        ),
{
}

} // verus!
