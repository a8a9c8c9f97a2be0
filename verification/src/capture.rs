//! The selection-capture engine. A capture session first asks for the
//! accessibility permission, then queries the focused element's selected
//! text, and only when that yields nothing runs the clipboard fallback:
//! snapshot the clipboard, post a synthetic copy keystroke, poll for a
//! change until a deadline, read once more, and unconditionally restore the
//! snapshot. The engine makes every decision; the outer driver performs the
//! operating-system calls it is told to and reports each result back.

use vstd::pervasive::unreached;
use vstd::prelude::*;

use crate::text::normalize_selection_text;
use crate::text::normalize_spec;

verus! {

/// Milliseconds the fallback waits in total for the clipboard to change.
pub const CLIPBOARD_FALLBACK_WAIT_MS: u64 = 420;

/// Milliseconds between two clipboard polls during the fallback wait.
pub const CLIPBOARD_FALLBACK_POLL_MS: u64 = 35;

/// A capture error surfaced to the caller. Everything else — an unsupported
/// attribute, a missing selection, a clipboard read failure — degrades to an
/// empty capture result instead.
pub enum CaptureError {
    /// The process does not hold the accessibility permission.
    PermissionDenied,
    /// The synthetic copy keystroke could not be constructed.
    SynthesisFailed(String),
}

/// The mathematical value of a [`CaptureError`].
pub enum CapErr {
    PermissionDenied,
    SynthesisFailed(Seq<char>),
}

impl View for CaptureError {
    type V = CapErr;

    open spec fn view(&self) -> CapErr {
        match self {
            CaptureError::PermissionDenied => CapErr::PermissionDenied,
            CaptureError::SynthesisFailed(m) => CapErr::SynthesisFailed(m@),
        }
    }
}

/// The mathematical value of a capture result.
pub open spec fn outcome_view(r: Result<String, CaptureError>) -> Result<Seq<char>, CapErr> {
    match r {
        Ok(t) => Ok(t@),
        Err(e) => Err(e@),
    }
}

/// The permission error message shown verbatim to the user; a synthesis
/// failure carries the description of the construction step that failed.
pub open spec fn error_message(e: CapErr) -> Seq<char> {
    match e {
        CapErr::PermissionDenied => "Grant Accessibility permission to MacClaw and retry"@,
        CapErr::SynthesisFailed(m) => m,
    }
}

impl CaptureError {
    /// The user-facing message of this error.
    pub fn message(&self) -> (m: String)
        ensures
            m@ == error_message(self@),
    {
        match self {
            CaptureError::PermissionDenied => {
                "Grant Accessibility permission to MacClaw and retry".to_owned()
            },
            CaptureError::SynthesisFailed(text) => text.clone(),
        }
    }
}

/// What the driver reports back to the engine: the result of the operation
/// it was asked to perform. A clipboard read that failed is reported as
/// `None`, exactly like a clipboard without text content.
pub enum CaptureEvent {
    /// Whether the process holds the accessibility permission.
    PermissionChecked(bool),
    /// The focused element's selected-text attribute, or `None` when there
    /// is no focused element, no value, an unsupported attribute, or any
    /// other accessibility failure — all of them fall back alike.
    PrimaryObserved(Option<String>),
    /// The clipboard text at the start of the fallback; `None` means the
    /// clipboard holds no text content, which is distinct from empty text.
    SnapshotObserved(Option<String>),
    /// `None` when the copy keystroke was posted; the error description
    /// when constructing the synthetic event failed.
    KeystrokeSent(Option<String>),
    /// One clipboard poll during the fallback wait.
    PollObserved(Option<String>),
    /// The fallback deadline elapsed before a change was observed.
    DeadlineElapsed,
    /// The one additional read taken after the wait.
    FinalObserved(Option<String>),
    /// The snapshot was written back to the clipboard.
    ClipboardRestored,
}

/// The mathematical value of a [`CaptureEvent`].
pub enum CapEvent {
    PermissionChecked(bool),
    PrimaryObserved(Option<Seq<char>>),
    SnapshotObserved(Option<Seq<char>>),
    KeystrokeSent(Option<Seq<char>>),
    PollObserved(Option<Seq<char>>),
    DeadlineElapsed,
    FinalObserved(Option<Seq<char>>),
    ClipboardRestored,
}

impl View for CaptureEvent {
    type V = CapEvent;

    open spec fn view(&self) -> CapEvent {
        match self {
            CaptureEvent::PermissionChecked(t) => CapEvent::PermissionChecked(*t),
            CaptureEvent::PrimaryObserved(r) => CapEvent::PrimaryObserved(r.deep_view()),
            CaptureEvent::SnapshotObserved(r) => CapEvent::SnapshotObserved(r.deep_view()),
            CaptureEvent::KeystrokeSent(r) => CapEvent::KeystrokeSent(r.deep_view()),
            CaptureEvent::PollObserved(r) => CapEvent::PollObserved(r.deep_view()),
            CaptureEvent::DeadlineElapsed => CapEvent::DeadlineElapsed,
            CaptureEvent::FinalObserved(r) => CapEvent::FinalObserved(r.deep_view()),
            CaptureEvent::ClipboardRestored => CapEvent::ClipboardRestored,
        }
    }
}

/// What the engine asks the driver to do next.
pub enum CaptureAction {
    /// Ask whether the process holds the accessibility permission.
    CheckPermission,
    /// Query the focused element's selected-text attribute.
    QueryPrimarySelection,
    /// Read the clipboard once to snapshot it before the fallback.
    ReadClipboardSnapshot,
    /// Post the synthetic copy keystroke to the input queue.
    PostCopyKeystroke,
    /// Read the clipboard once; sleep one poll interval before reporting
    /// when nothing changed, and report the deadline when it has passed.
    PollClipboard,
    /// Take the one additional clipboard read after the wait.
    ReadClipboardAgain,
    /// Write this exact text back to the clipboard.
    RestoreClipboard(String),
    /// The session is over with this result.
    Done(Result<String, CaptureError>),
}

/// The mathematical value of a [`CaptureAction`].
pub enum CapAction {
    CheckPermission,
    QueryPrimarySelection,
    ReadClipboardSnapshot,
    PostCopyKeystroke,
    PollClipboard,
    ReadClipboardAgain,
    RestoreClipboard(Seq<char>),
    Done(Result<Seq<char>, CapErr>),
}

impl View for CaptureAction {
    type V = CapAction;

    open spec fn view(&self) -> CapAction {
        match self {
            CaptureAction::CheckPermission => CapAction::CheckPermission,
            CaptureAction::QueryPrimarySelection => CapAction::QueryPrimarySelection,
            CaptureAction::ReadClipboardSnapshot => CapAction::ReadClipboardSnapshot,
            CaptureAction::PostCopyKeystroke => CapAction::PostCopyKeystroke,
            CaptureAction::PollClipboard => CapAction::PollClipboard,
            CaptureAction::ReadClipboardAgain => CapAction::ReadClipboardAgain,
            CaptureAction::RestoreClipboard(t) => CapAction::RestoreClipboard(t@),
            CaptureAction::Done(r) => CapAction::Done(outcome_view(*r)),
        }
    }
}

/// Where a capture session stands.
#[allow(inconsistent_fields)]
pub enum CapPhase {
    /// Waiting for the permission check.
    AwaitPermission,
    /// Waiting for the accessibility query.
    AwaitPrimary,
    /// Waiting for the pre-fallback clipboard snapshot.
    AwaitSnapshot,
    /// Waiting for the synthetic keystroke to be posted.
    AwaitKeystroke { snapshot: Option<Seq<char>> },
    /// Waiting for clipboard polls; `latest` is the last polled text.
    Polling { snapshot: Option<Seq<char>>, latest: Seq<char> },
    /// Waiting for the one additional read after the wait.
    AwaitFinalRead { snapshot: Option<Seq<char>> },
    /// Waiting for the snapshot to be written back; the result is already
    /// decided and is released only after the restore.
    AwaitRestore { snapshot: Seq<char>, outcome: Result<Seq<char>, CapErr> },
    /// The session is over.
    Finished { outcome: Result<Seq<char>, CapErr> },
}

/// The text of a clipboard read: an absent clipboard reads as empty text.
pub open spec fn read_text(r: Option<Seq<char>>) -> Seq<char> {
    match r {
        Some(t) => t,
        None => Seq::empty(),
    }
}

/// Whether a polled clipboard value counts as changed: any different value
/// when the snapshot had text, any non-empty value when it was absent.
pub open spec fn changed_spec(snapshot: Option<Seq<char>>, current: Seq<char>) -> bool {
    match snapshot {
        Some(prev) => current != prev,
        None => current.len() > 0,
    }
}

/// The fallback result for a captured text: empty when the capture is
/// byte-for-byte the old snapshot (the synthesized copy produced no new
/// selection), the normalized text otherwise — which is also empty when the
/// capture was whitespace only.
pub open spec fn settle_spec(snapshot: Option<Seq<char>>, captured: Seq<char>) -> Result<
    Seq<char>,
    CapErr,
> {
    if snapshot matches Some(prev) && captured == prev {
        Ok(Seq::empty())
    } else {
        Ok(normalize_spec(captured))
    }
}

/// Leaving the fallback: when a snapshot with text was taken it is restored
/// first, whatever the outcome; an absent snapshot is left absent by not
/// writing anything, and the session finishes at once.
pub open spec fn finish_or_restore(
    snapshot: Option<Seq<char>>,
    outcome: Result<Seq<char>, CapErr>,
) -> (CapPhase, CapAction) {
    match snapshot {
        Some(prev) => (
            CapPhase::AwaitRestore { snapshot: prev, outcome },
            CapAction::RestoreClipboard(prev),
        ),
        None => (CapPhase::Finished { outcome }, CapAction::Done(outcome)),
    }
}

/// Which driver report each phase is waiting for.
pub open spec fn cap_expects(p: CapPhase, e: CapEvent) -> bool {
    match (p, e) {
        (CapPhase::AwaitPermission, CapEvent::PermissionChecked(_)) => true,
        (CapPhase::AwaitPrimary, CapEvent::PrimaryObserved(_)) => true,
        (CapPhase::AwaitSnapshot, CapEvent::SnapshotObserved(_)) => true,
        (CapPhase::AwaitKeystroke { .. }, CapEvent::KeystrokeSent(_)) => true,
        (CapPhase::Polling { .. }, CapEvent::PollObserved(_)) => true,
        (CapPhase::Polling { .. }, CapEvent::DeadlineElapsed) => true,
        (CapPhase::AwaitFinalRead { .. }, CapEvent::FinalObserved(_)) => true,
        (CapPhase::AwaitRestore { .. }, CapEvent::ClipboardRestored) => true,
        _ => false,
    }
}

/// The transition function of a capture session: the next phase and the
/// operation the driver must perform, for each phase and report.
pub open spec fn cap_next(p: CapPhase, e: CapEvent) -> (CapPhase, CapAction) {
    match (p, e) {
        (CapPhase::AwaitPermission, CapEvent::PermissionChecked(trusted)) => {
            if trusted {
                (CapPhase::AwaitPrimary, CapAction::QueryPrimarySelection)
            } else {
                (
                    CapPhase::Finished { outcome: Err(CapErr::PermissionDenied) },
                    CapAction::Done(Err(CapErr::PermissionDenied)),
                )
            }
        },
        (CapPhase::AwaitPrimary, CapEvent::PrimaryObserved(r)) => {
            let text = normalize_spec(read_text(r));
            if text.len() > 0 {
                (CapPhase::Finished { outcome: Ok(text) }, CapAction::Done(Ok(text)))
            } else {
                (CapPhase::AwaitSnapshot, CapAction::ReadClipboardSnapshot)
            }
        },
        (CapPhase::AwaitSnapshot, CapEvent::SnapshotObserved(s)) => {
            (CapPhase::AwaitKeystroke { snapshot: s }, CapAction::PostCopyKeystroke)
        },
        (CapPhase::AwaitKeystroke { snapshot }, CapEvent::KeystrokeSent(err)) => {
            match err {
                None => (
                    CapPhase::Polling { snapshot, latest: Seq::empty() },
                    CapAction::PollClipboard,
                ),
                Some(msg) => finish_or_restore(snapshot, Err(CapErr::SynthesisFailed(msg))),
            }
        },
        (CapPhase::Polling { snapshot, latest }, CapEvent::PollObserved(r)) => {
            let now = read_text(r);
            if !changed_spec(snapshot, now) {
                (CapPhase::Polling { snapshot, latest: now }, CapAction::PollClipboard)
            } else if now.len() == 0 {
                (CapPhase::AwaitFinalRead { snapshot }, CapAction::ReadClipboardAgain)
            } else {
                finish_or_restore(snapshot, settle_spec(snapshot, now))
            }
        },
        (CapPhase::Polling { snapshot, latest }, CapEvent::DeadlineElapsed) => {
            if latest.len() == 0 {
                (CapPhase::AwaitFinalRead { snapshot }, CapAction::ReadClipboardAgain)
            } else {
                finish_or_restore(snapshot, settle_spec(snapshot, latest))
            }
        },
        (CapPhase::AwaitFinalRead { snapshot }, CapEvent::FinalObserved(r)) => {
            finish_or_restore(snapshot, settle_spec(snapshot, read_text(r)))
        },
        (CapPhase::AwaitRestore { snapshot, outcome }, CapEvent::ClipboardRestored) => {
            (CapPhase::Finished { outcome }, CapAction::Done(outcome))
        },
        // A report no phase is waiting for; `cap_expects` rules these out.
        _ => (p, CapAction::CheckPermission),
    }
}

/// Whether a sequence of driver reports follows the protocol from `p`:
/// each report answers exactly the operation the engine asked for, and no
/// report arrives after the session finished.
pub open spec fn cap_wf(p: CapPhase, evs: Seq<CapEvent>) -> bool
    decreases evs.len(),
{
    evs.len() == 0 || (cap_expects(p, evs[0]) && cap_wf(cap_next(p, evs[0]).0, evs.drop_first()))
}

/// The phase after a sequence of driver reports.
pub open spec fn cap_run(p: CapPhase, evs: Seq<CapEvent>) -> CapPhase
    decreases evs.len(),
{
    if evs.len() == 0 {
        p
    } else {
        cap_run(cap_next(p, evs[0]).0, evs.drop_first())
    }
}

/// All operations the engine requests over a sequence of driver reports,
/// in order, one per report.
pub open spec fn cap_actions(p: CapPhase, evs: Seq<CapEvent>) -> Seq<CapAction>
    decreases evs.len(),
{
    if evs.len() == 0 {
        Seq::empty()
    } else {
        seq![cap_next(p, evs[0]).1] + cap_actions(cap_next(p, evs[0]).0, evs.drop_first())
    }
}

/// Whether an operation touches the clipboard, reading or writing.
pub open spec fn is_clipboard_op(a: CapAction) -> bool {
    a is ReadClipboardSnapshot || a is PollClipboard || a is ReadClipboardAgain
        || a is RestoreClipboard
}

/// When the accessibility query returns text that is non-empty after
/// normalization, the session finishes at once with exactly that text, and
/// the clipboard is never touched — not read, not written: the fallback and
/// its snapshot/restore pair are a no-op from the clipboard's perspective.
pub proof fn lemma_primary_hit_touches_no_clipboard(t: Seq<char>, evs: Seq<CapEvent>)
    requires
        cap_wf(CapPhase::AwaitPrimary, evs),
        evs.len() > 0,
        evs[0] == CapEvent::PrimaryObserved(Some(t)),
        normalize_spec(t).len() > 0,
    ensures
        cap_actions(CapPhase::AwaitPrimary, evs) == seq![
            CapAction::Done(Ok(normalize_spec(t))),
        ],
        forall|i: int| 0 <= i < cap_actions(CapPhase::AwaitPrimary, evs).len() ==> !is_clipboard_op(
            #[trigger] cap_actions(CapPhase::AwaitPrimary, evs)[i],
        ),
{
    let p1 = cap_next(CapPhase::AwaitPrimary, evs[0]).0;
    assert(read_text(Some(t)) == t);
    assert(p1 == CapPhase::Finished { outcome: Ok(normalize_spec(t)) });
    if evs.len() > 1 {
        assert(cap_wf(p1, evs.drop_first()));
        assert(!cap_expects(p1, evs.drop_first()[0]));
        assert(false);
    }
    assert(cap_actions(p1, evs.drop_first()) =~= Seq::<CapAction>::empty());
    assert(cap_actions(CapPhase::AwaitPrimary, evs) =~= seq![
        CapAction::Done(Ok(normalize_spec(t))),
    ]);
}

/// The snapshot a phase inside the fallback carries, if any.
pub open spec fn fallback_snapshot(p: CapPhase) -> Option<Option<Seq<char>>> {
    match p {
        CapPhase::AwaitKeystroke { snapshot } => Some(snapshot),
        CapPhase::Polling { snapshot, .. } => Some(snapshot),
        CapPhase::AwaitFinalRead { snapshot } => Some(snapshot),
        CapPhase::AwaitRestore { snapshot, .. } => Some(Some(snapshot)),
        _ => None,
    }
}

/// The phases between taking the snapshot and deciding the restore.
pub open spec fn pre_restore(p: CapPhase) -> bool {
    p is AwaitKeystroke || p is Polling || p is AwaitFinalRead
}

proof fn lemma_step_snapshot(p: CapPhase, e: CapEvent, s: Option<Seq<char>>)
    requires
        cap_expects(p, e),
        fallback_snapshot(p) == Some(s),
    ensures
        cap_next(p, e).1 matches CapAction::RestoreClipboard(v) ==> Some(v) == s,
        fallback_snapshot(cap_next(p, e).0) == Some(s) || cap_next(p, e).0 is Finished,
        cap_next(p, e).0 is Finished ==> s is None || p is AwaitRestore,
        s matches Some(prev) ==> (cap_next(p, e).0 is AwaitRestore ==> cap_next(p, e).1
            == CapAction::RestoreClipboard(prev)),
{
}

/// Every clipboard write a fallback ever requests is the restoration of the
/// exact pre-fallback snapshot — whatever was captured, however the polls
/// went, and whether the session ends in success, timeout or an error. When
/// the snapshot was absent nothing is ever written, leaving the clipboard
/// absent as it was.
pub proof fn lemma_fallback_writes_only_snapshot(
    s: Option<Seq<char>>,
    p: CapPhase,
    evs: Seq<CapEvent>,
)
    requires
        cap_wf(p, evs),
        fallback_snapshot(p) == Some(s),
    ensures
        forall|i: int| 0 <= i < cap_actions(p, evs).len() ==> ((#[trigger] cap_actions(p, evs)[i])
            matches CapAction::RestoreClipboard(v) ==> Some(v) == s),
    decreases evs.len(),
{
    if evs.len() > 0 {
        let p1 = cap_next(p, evs[0]).0;
        let a0 = cap_next(p, evs[0]).1;
        lemma_step_snapshot(p, evs[0], s);
        if fallback_snapshot(p1) == Some(s) {
            lemma_fallback_writes_only_snapshot(s, p1, evs.drop_first());
        } else {
            assert(p1 is Finished);
            if evs.len() > 1 {
                reveal_with_fuel(cap_wf, 2);
                assert(!cap_expects(p1, evs.drop_first()[0]));
                assert(false);
            }
        }
        assert forall|i: int|
            0 <= i < cap_actions(p, evs).len() implies ((#[trigger] cap_actions(p, evs)[i])
            matches CapAction::RestoreClipboard(v) ==> Some(v) == s) by {
            if i == 0 {
                assert(cap_actions(p, evs)[0] == a0);
            } else {
                assert(cap_actions(p, evs)[i] == cap_actions(p1, evs.drop_first())[i - 1]);
            }
        }
    }
}

/// A fallback that took a snapshot with text and ran to completion has
/// requested the restoration of that exact snapshot along the way, on every
/// path: capture, timeout, or synthesis failure.
pub proof fn lemma_fallback_restore_unconditional(prev: Seq<char>, p: CapPhase, evs: Seq<CapEvent>)
    requires
        cap_wf(p, evs),
        pre_restore(p),
        fallback_snapshot(p) == Some(Some(prev)),
        cap_run(p, evs) is Finished,
    ensures
        exists|j: int| 0 <= j < cap_actions(p, evs).len() && cap_actions(p, evs)[j]
            == CapAction::RestoreClipboard(prev),
    decreases evs.len(),
{
    if evs.len() == 0 {
        assert(cap_run(p, evs) == p);
        assert(false);
    } else {
        let p1 = cap_next(p, evs[0]).0;
        let a0 = cap_next(p, evs[0]).1;
        lemma_step_snapshot(p, evs[0], Some(prev));
        if p1 is AwaitRestore {
            assert(cap_actions(p, evs)[0] == a0);
            assert(a0 == CapAction::RestoreClipboard(prev));
        } else if p1 is Finished {
            assert(false);
        } else {
            assert(fallback_snapshot(p1) == Some(Some(prev)));
            assert(pre_restore(p1));
            lemma_fallback_restore_unconditional(prev, p1, evs.drop_first());
            let j0 = choose|j: int|
                0 <= j < cap_actions(p1, evs.drop_first()).len() && cap_actions(
                    p1,
                    evs.drop_first(),
                )[j] == CapAction::RestoreClipboard(prev);
            assert(cap_actions(p, evs)[j0 + 1] == CapAction::RestoreClipboard(prev));
        }
    }
}

/// With an absent snapshot and a poll loop that never observes a change
/// before the deadline, the capture result is empty text — a success, not
/// an error — and nothing is ever written to the clipboard, which therefore
/// ends the call still absent.
pub proof fn lemma_absent_snapshot_stays_absent(polls: Seq<CapEvent>, rf: Option<Seq<char>>)
    requires
        forall|i: int| 0 <= i < polls.len() ==> ((#[trigger] polls[i])
            matches CapEvent::PollObserved(r) && read_text(r).len() == 0),
        read_text(rf).len() == 0,
    ensures
        ({
            let p0 = CapPhase::Polling { snapshot: None, latest: Seq::empty() };
            let evs = polls + seq![CapEvent::DeadlineElapsed, CapEvent::FinalObserved(rf)];
            &&& cap_wf(p0, evs)
            &&& cap_run(p0, evs) == (CapPhase::Finished { outcome: Ok(Seq::<char>::empty()) })
            &&& forall|i: int| 0 <= i < cap_actions(p0, evs).len() ==> !((#[trigger] cap_actions(
                p0,
                evs,
            )[i]) is RestoreClipboard)
            &&& cap_actions(p0, evs).last() == CapAction::Done(Ok(Seq::<char>::empty()))
        }),
    decreases polls.len(),
{
    reveal_with_fuel(cap_wf, 3);
    reveal_with_fuel(cap_run, 3);
    reveal_with_fuel(cap_actions, 3);
    let p0 = CapPhase::Polling { snapshot: None, latest: Seq::empty() };
    let evs = polls + seq![CapEvent::DeadlineElapsed, CapEvent::FinalObserved(rf)];
    assert(normalize_spec(Seq::<char>::empty()) =~= Seq::<char>::empty());
    if polls.len() == 0 {
        let e0 = CapEvent::DeadlineElapsed;
        let e1 = CapEvent::FinalObserved(rf);
        assert(evs =~= seq![e0, e1]);
        assert(evs[0] == e0);
        assert(evs.drop_first() =~= seq![e1]);
        assert(evs.drop_first().drop_first() =~= Seq::<CapEvent>::empty());
        let p1 = cap_next(p0, e0).0;
        let a0 = cap_next(p0, e0).1;
        assert(p1 == CapPhase::AwaitFinalRead { snapshot: None });
        assert(a0 == CapAction::ReadClipboardAgain);
        assert(read_text(rf) =~= Seq::<char>::empty());
        assert(settle_spec(None, read_text(rf)) == Ok::<Seq<char>, CapErr>(Seq::<char>::empty()));
        let p2 = cap_next(p1, e1).0;
        let a1 = cap_next(p1, e1).1;
        assert(p2 == CapPhase::Finished { outcome: Ok(Seq::<char>::empty()) });
        assert(a1 == CapAction::Done(Ok(Seq::<char>::empty())));
        assert(cap_wf(p2, evs.drop_first().drop_first()));
        assert(cap_wf(p1, evs.drop_first()));
        assert(cap_wf(p0, evs));
        assert(cap_run(p0, evs) == p2);
        assert(cap_actions(p1, evs.drop_first()) =~= seq![a1]);
        assert(cap_actions(p0, evs) =~= seq![a0, a1]);
    } else {
        match polls[0] {
            CapEvent::PollObserved(r) => {
                assert(evs[0] == polls[0]);
                let now = read_text(r);
                assert(now =~= Seq::<char>::empty());
                assert(!changed_spec(None, now));
                let p1 = cap_next(p0, evs[0]).0;
                assert(p1 == p0);
                assert(cap_next(p0, evs[0]).1 == CapAction::PollClipboard);
                assert(forall|i: int| 0 <= i < polls.drop_first().len() ==> polls.drop_first()[i]
                    == polls[i + 1]);
                lemma_absent_snapshot_stays_absent(polls.drop_first(), rf);
                assert(evs.drop_first() =~= polls.drop_first() + seq![
                    CapEvent::DeadlineElapsed,
                    CapEvent::FinalObserved(rf),
                ]);
                let rest = cap_actions(p0, evs.drop_first());
                assert(rest.len() > 0);
                assert(cap_actions(p0, evs) =~= seq![CapAction::PollClipboard] + rest);
                assert(cap_actions(p0, evs).last() == rest.last());
                assert forall|i: int| 0 <= i < cap_actions(p0, evs).len() implies !((
                #[trigger] cap_actions(p0, evs)[i]) is RestoreClipboard) by {
                    if i > 0 {
                        assert(cap_actions(p0, evs)[i] == rest[i - 1]);
                    }
                }
            },
            _ => {
                assert(false);
            },
        }
    }
}

/// One capture session. The engine holds where the session stands; `step`
/// consumes a driver report and says what to do next.
pub struct CaptureEngine {
    state: EngineState,
}

#[allow(inconsistent_fields)]
enum EngineState {
    AwaitPermission,
    AwaitPrimary,
    AwaitSnapshot,
    AwaitKeystroke { snapshot: Option<String> },
    Polling { snapshot: Option<String>, latest: String },
    AwaitFinalRead { snapshot: Option<String> },
    AwaitRestore { snapshot: String, outcome: Result<String, CaptureError> },
    Finished { outcome: Result<String, CaptureError> },
}

impl View for CaptureEngine {
    type V = CapPhase;

    closed spec fn view(&self) -> CapPhase {
        match &self.state {
            EngineState::AwaitPermission => CapPhase::AwaitPermission,
            EngineState::AwaitPrimary => CapPhase::AwaitPrimary,
            EngineState::AwaitSnapshot => CapPhase::AwaitSnapshot,
            EngineState::AwaitKeystroke { snapshot } => CapPhase::AwaitKeystroke {
                snapshot: snapshot.deep_view(),
            },
            EngineState::Polling { snapshot, latest } => CapPhase::Polling {
                snapshot: snapshot.deep_view(),
                latest: latest@,
            },
            EngineState::AwaitFinalRead { snapshot } => CapPhase::AwaitFinalRead {
                snapshot: snapshot.deep_view(),
            },
            EngineState::AwaitRestore { snapshot, outcome } => CapPhase::AwaitRestore {
                snapshot: snapshot@,
                outcome: outcome_view(*outcome),
            },
            EngineState::Finished { outcome } => CapPhase::Finished {
                outcome: outcome_view(*outcome),
            },
        }
    }
}

/// Begins a capture session. The first thing a capture does is check the
/// accessibility permission; nothing is queried or touched before that.
pub fn capture_selected_text() -> (r: (CaptureEngine, CaptureAction))
    ensures
        r.0@ == CapPhase::AwaitPermission,
        r.1@ == CapAction::CheckPermission,
{
    (CaptureEngine { state: EngineState::AwaitPermission }, CaptureAction::CheckPermission)
}

fn clone_error(e: &CaptureError) -> (r: CaptureError)
    ensures
        r@ == e@,
{
    match e {
        CaptureError::PermissionDenied => CaptureError::PermissionDenied,
        CaptureError::SynthesisFailed(m) => CaptureError::SynthesisFailed(m.clone()),
    }
}

fn clone_outcome(o: &Result<String, CaptureError>) -> (r: Result<String, CaptureError>)
    ensures
        outcome_view(r) == outcome_view(*o),
{
    match o {
        Ok(t) => Ok(t.clone()),
        Err(e) => Err(clone_error(e)),
    }
}

/// The fallback result for a captured text; see [`settle_spec`].
fn settle(snapshot: &Option<String>, captured: &String) -> (r: Result<String, CaptureError>)
    ensures
        outcome_view(r) == settle_spec(snapshot.deep_view(), captured@),
{
    let unchanged = match snapshot {
        Some(prev) => *prev == *captured,
        None => false,
    };
    if unchanged {
        Ok(String::new())
    } else {
        Ok(normalize_selection_text(captured.as_str()))
    }
}

/// Leaves the fallback; see [`finish_or_restore`].
fn leave_fallback(snapshot: Option<String>, outcome: Result<String, CaptureError>) -> (r: (
    CaptureEngine,
    CaptureAction,
))
    ensures
        r.0@ == finish_or_restore(snapshot.deep_view(), outcome_view(outcome)).0,
        r.1@ == finish_or_restore(snapshot.deep_view(), outcome_view(outcome)).1,
{
    match snapshot {
        Some(prev) => {
            let restored = prev.clone();
            (
                CaptureEngine { state: EngineState::AwaitRestore { snapshot: prev, outcome } },
                CaptureAction::RestoreClipboard(restored),
            )
        },
        None => {
            let reported = clone_outcome(&outcome);
            (
                CaptureEngine { state: EngineState::Finished { outcome } },
                CaptureAction::Done(reported),
            )
        },
    }
}

impl CaptureEngine {
    /// Consumes one driver report and returns the engine in its next phase
    /// together with the operation the driver must perform next.
    pub fn step(self, event: CaptureEvent) -> (r: (Self, CaptureAction))
        requires
            cap_expects(self@, event@),
        ensures
            r.0@ == cap_next(self@, event@).0,
            r.1@ == cap_next(self@, event@).1,
    {
        let CaptureEngine { state } = self;
        match (state, event) {
            (EngineState::AwaitPermission, CaptureEvent::PermissionChecked(trusted)) => {
                if trusted {
                    (
                        CaptureEngine { state: EngineState::AwaitPrimary },
                        CaptureAction::QueryPrimarySelection,
                    )
                } else {
                    (
                        CaptureEngine {
                            state: EngineState::Finished {
                                outcome: Err(CaptureError::PermissionDenied),
                            },
                        },
                        CaptureAction::Done(Err(CaptureError::PermissionDenied)),
                    )
                }
            },
            (EngineState::AwaitPrimary, CaptureEvent::PrimaryObserved(observed)) => {
                let text = match &observed {
                    Some(t) => normalize_selection_text(t.as_str()),
                    None => String::new(),
                };
                proof {
                    assert(text@ == normalize_spec(read_text(observed.deep_view())));
                }
                if !text.as_str().is_empty() {
                    let reported = text.clone();
                    (
                        CaptureEngine { state: EngineState::Finished { outcome: Ok(text) } },
                        CaptureAction::Done(Ok(reported)),
                    )
                } else {
                    (
                        CaptureEngine { state: EngineState::AwaitSnapshot },
                        CaptureAction::ReadClipboardSnapshot,
                    )
                }
            },
            (EngineState::AwaitSnapshot, CaptureEvent::SnapshotObserved(snapshot)) => {
                (
                    CaptureEngine { state: EngineState::AwaitKeystroke { snapshot } },
                    CaptureAction::PostCopyKeystroke,
                )
            },
            (EngineState::AwaitKeystroke { snapshot }, CaptureEvent::KeystrokeSent(err)) => {
                match err {
                    None => {
                        (
                            CaptureEngine {
                                state: EngineState::Polling { snapshot, latest: String::new() },
                            },
                            CaptureAction::PollClipboard,
                        )
                    },
                    Some(msg) => {
                        leave_fallback(snapshot, Err(CaptureError::SynthesisFailed(msg)))
                    },
                }
            },
            (EngineState::Polling { snapshot, latest }, CaptureEvent::PollObserved(observed)) => {
                let ghost observed_read = observed.deep_view();
                let now = match observed {
                    Some(t) => t,
                    None => String::new(),
                };
                proof {
                    assert(now@ == read_text(observed_read));
                }
                let changed = match &snapshot {
                    Some(prev) => !(*prev == now),
                    None => !now.as_str().is_empty(),
                };
                if !changed {
                    (
                        CaptureEngine { state: EngineState::Polling { snapshot, latest: now } },
                        CaptureAction::PollClipboard,
                    )
                } else if now.as_str().is_empty() {
                    (
                        CaptureEngine { state: EngineState::AwaitFinalRead { snapshot } },
                        CaptureAction::ReadClipboardAgain,
                    )
                } else {
                    let outcome = settle(&snapshot, &now);
                    leave_fallback(snapshot, outcome)
                }
            },
            (EngineState::Polling { snapshot, latest }, CaptureEvent::DeadlineElapsed) => {
                if latest.as_str().is_empty() {
                    (
                        CaptureEngine { state: EngineState::AwaitFinalRead { snapshot } },
                        CaptureAction::ReadClipboardAgain,
                    )
                } else {
                    let outcome = settle(&snapshot, &latest);
                    leave_fallback(snapshot, outcome)
                }
            },
            (EngineState::AwaitFinalRead { snapshot }, CaptureEvent::FinalObserved(observed)) => {
                let ghost observed_read = observed.deep_view();
                let captured = match observed {
                    Some(t) => t,
                    None => String::new(),
                };
                proof {
                    assert(captured@ == read_text(observed_read));
                }
                let outcome = settle(&snapshot, &captured);
                leave_fallback(snapshot, outcome)
            },
            (EngineState::AwaitRestore { snapshot, outcome }, CaptureEvent::ClipboardRestored) => {
                let reported = clone_outcome(&outcome);
                (
                    CaptureEngine { state: EngineState::Finished { outcome } },
                    CaptureAction::Done(reported),
                )
            },
            _ => unreached(),
        }
    }
}

/// The payload of the `panel-prefill-selection` event, fired after every
/// capture attempt, successful or not, so the UI can also show an
/// explanatory state.
pub struct SelectionPrefillPayload {
    /// The captured text, empty when nothing was captured.
    pub text: String,
    /// Whether `text` is non-empty.
    pub has_text: bool,
    /// The error message when the capture failed outright.
    pub error: Option<String>,
}

/// Builds the prefill payload from a capture result: the text and its
/// presence flag on success, an empty text and the error message otherwise.
pub fn selection_prefill_payload(result: Result<String, CaptureError>) -> (p:
    SelectionPrefillPayload)
    ensures
        result matches Ok(t) ==> p.text@ == t@ && p.has_text == (t@.len() > 0) && p.error is None,
        result matches Err(e) ==> p.text@.len() == 0 && !p.has_text && (p.error matches Some(m)
            && m@ == error_message(e@)),
{
    match result {
        Ok(text) => {
            let has_text = !text.as_str().is_empty();
            SelectionPrefillPayload { text, has_text, error: None }
        },
        Err(e) => SelectionPrefillPayload {
            text: String::new(),
            has_text: false,
            error: Some(e.message()),
        },
    }
}

} // verus!
