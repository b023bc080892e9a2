//! Fail-closed recovery from an unreadable configuration file.
//!
//! The user is asked once. Defaults are used only after the existing file has
//! been backed up; every other path closes without modifying it.

use vstd::prelude::*;

verus! {

/// The answer that closes the application without changes.
pub const CLOSE_WITHOUT_CHANGES: usize = 0;

/// The answer that backs the file up and uses default settings.
pub const BACK_UP_AND_USE_DEFAULTS: usize = 1;

/// An error and what caused it.
#[derive(Debug, PartialEq, Eq)]
pub struct ErrorReport {
    /// What the error says.
    pub message: String,
    /// What its causes say, the nearest first.
    pub causes: Vec<String>,
}

/// The error, then each cause behind a colon.
pub open spec fn chained(message: Seq<char>, causes: Seq<String>) -> Seq<char>
    decreases causes.len(),
{
    if causes.len() == 0 {
        message
    } else {
        chained(message, causes.drop_last()) + seq![':', ' '] + causes.last()@
    }
}

/// The error and its causes in one line.
pub fn error_chain(error: &ErrorReport) -> (line: String)
    ensures
        line@ == chained(error.message@, error.causes@),
{
    let mut line = error.message.clone();
    for i in 0..error.causes.len()
        invariant
            line@ == chained(error.message@, error.causes@.take(i as int)),
    {
        line.push(':');
        line.push(' ');
        line.append(error.causes[i].as_str());
        proof {
            let shown = error.causes@.take(i + 1);
            assert(shown.drop_last() =~= error.causes@.take(i as int));
            assert(line@ =~= chained(error.message@, error.causes@.take(i as int)) + seq![':', ' ']
                + error.causes@[i as int]@);
        }
    }
    assert(error.causes@.take(error.causes@.len() as int) =~= error.causes@);
    line
}

/// How far the recovery has come.
#[derive(Clone, Copy, Debug, PartialEq, Eq, Structural)]
pub enum Recovery {
    /// The user is being asked.
    Asking,
    /// The file is being backed up and replaced by defaults.
    BackingUp,
    /// The user is being told that the backup failed.
    Reporting,
    /// The recovery is over.
    Over,
}

/// What happened to the recovery.
#[derive(Debug, PartialEq, Eq)]
pub enum RecoveryEvent {
    /// The window could not be opened.
    OpenFailed,
    /// The prompt is gone, with the answer that was chosen, if any was.
    Answered(Option<usize>),
    /// The file was backed up, and defaults were written.
    BackedUp,
    /// The file could not be backed up.
    BackUpFailed(ErrorReport),
    /// The report of the failure is gone, or could not be shown.
    Acknowledged,
}

/// What the recovery does next.
#[derive(Debug, PartialEq, Eq)]
pub enum RecoveryAction {
    /// Open a window, and ask in it how to go on: the answers are
    /// [`CLOSE_WITHOUT_CHANGES`] and [`BACK_UP_AND_USE_DEFAULTS`].
    Ask {
        /// Why the file could not be loaded.
        error: String,
    },
    /// Back the file up, and write defaults in its place.
    BackUp,
    /// Tell in the open window that the recovery failed.
    Report {
        /// Why it failed.
        error: String,
    },
    /// Close the window, and start with default settings.
    UseDefaults,
    /// Close without starting.
    Close,
}

impl Recovery {
    /// `event` can happen now.
    pub open spec fn awaits(self, event: RecoveryEvent) -> bool {
        match self {
            Recovery::Asking => event is OpenFailed || event is Answered,
            Recovery::BackingUp => event is BackedUp || event is BackUpFailed,
            Recovery::Reporting => event is Acknowledged,
            Recovery::Over => false,
        }
    }

    /// The recovery after `event`.
    pub open spec fn after(event: RecoveryEvent) -> Recovery {
        match event {
            RecoveryEvent::Answered(answer) => if answer == Some(BACK_UP_AND_USE_DEFAULTS) {
                Recovery::BackingUp
            } else {
                Recovery::Over
            },
            RecoveryEvent::BackUpFailed(_) => Recovery::Reporting,
            _ => Recovery::Over,
        }
    }

    /// `action` is what the recovery does about `event`.
    pub open spec fn reacts(event: RecoveryEvent, action: RecoveryAction) -> bool {
        match event {
            RecoveryEvent::OpenFailed => action is Close,
            RecoveryEvent::Answered(answer) => if answer == Some(BACK_UP_AND_USE_DEFAULTS) {
                action is BackUp
            } else {
                action is Close
            },
            RecoveryEvent::BackedUp => action is UseDefaults,
            RecoveryEvent::BackUpFailed(report) => action matches RecoveryAction::Report { error }
                && error@ == chained(report.message@, report.causes@),
            RecoveryEvent::Acknowledged => action is Close,
        }
    }

    /// Takes the next event, and says what to do about it. Close, Escape and a
    /// cancelled prompt all take the safe path.
    pub fn advance(self, event: RecoveryEvent) -> (next: (Recovery, RecoveryAction))
        requires
            self.awaits(event),
        ensures
            next.0 == Recovery::after(event),
            Recovery::reacts(event, next.1),
    {
        match event {
            RecoveryEvent::Answered(Some(answer)) => {
                if answer == BACK_UP_AND_USE_DEFAULTS {
                    (Recovery::BackingUp, RecoveryAction::BackUp)
                } else {
                    (Recovery::Over, RecoveryAction::Close)
                }
            },
            RecoveryEvent::BackedUp => (Recovery::Over, RecoveryAction::UseDefaults),
            RecoveryEvent::BackUpFailed(report) => (
                Recovery::Reporting,
                RecoveryAction::Report { error: error_chain(&report) },
            ),
            _ => (Recovery::Over, RecoveryAction::Close),
        }
    }
}

/// Starts the recovery from `error`, which kept the configuration from being
/// loaded: the user is asked first.
pub fn resolve(error: &ErrorReport) -> (start: (Recovery, RecoveryAction))
    ensures
        start.0 == Recovery::Asking,
        start.1 matches RecoveryAction::Ask { error: line } && line@ == chained(
            error.message@,
            error.causes@,
        ),
{
    (Recovery::Asking, RecoveryAction::Ask { error: error_chain(error) })
}

/// `events` can happen one after the other, from `recovery` on.
pub open spec fn is_course(recovery: Recovery, events: Seq<RecoveryEvent>) -> bool
    decreases events.len(),
{
    events.len() == 0 || (recovery.awaits(events.first()) && is_course(
        Recovery::after(events.first()),
        events.drop_first(),
    ))
}

/// What a course from the first question on looks like.
proof fn courses(events: Seq<RecoveryEvent>)
    requires
        is_course(Recovery::Asking, events),
    ensures
        events.len() <= 3,
        events.len() > 0 ==> events[0] is OpenFailed || events[0] is Answered,
        events.len() > 1 ==> {
            &&& events[0] == RecoveryEvent::Answered(Some(BACK_UP_AND_USE_DEFAULTS))
            &&& events[1] is BackedUp || events[1] is BackUpFailed
        },
        events.len() > 2 ==> events[1] is BackUpFailed && events[2] is Acknowledged,
{
    if events.len() > 0 {
        let answered = Recovery::after(events[0]);
        let second = events.drop_first();
        if second.len() > 0 {
            assert(second.first() == events[1]);
            let backed_up = Recovery::after(events[1]);
            let third = second.drop_first();
            assert(is_course(answered, second));
            if third.len() > 0 {
                assert(third.first() == events[2]);
                let reported = Recovery::after(events[2]);
                let fourth = third.drop_first();
                assert(is_course(backed_up, third));
                assert(is_course(reported, fourth));
            }
        }
    }
}

/// The course on which the user asks for defaults and the file is backed up.
pub open spec fn backed_up_course() -> Seq<RecoveryEvent> {
    seq![RecoveryEvent::Answered(Some(BACK_UP_AND_USE_DEFAULTS)), RecoveryEvent::BackedUp]
}

/// The reaction to one of `events` is to use default settings.
pub open spec fn uses_defaults(events: Seq<RecoveryEvent>) -> bool {
    exists|at: int, action: RecoveryAction|
        #![trigger Recovery::reacts(events[at], action)]
        0 <= at < events.len() && Recovery::reacts(events[at], action) && action is UseDefaults
}

/// Default settings are used only where the user asked for that and the file was
/// backed up, and they are used there: of all courses a recovery can take, exactly
/// one uses defaults.
pub proof fn defaults_need_a_backup(events: Seq<RecoveryEvent>)
    requires
        is_course(Recovery::Asking, events),
    ensures
        uses_defaults(events) <==> events == backed_up_course(),
{
    courses(events);
    if uses_defaults(events) {
        assert(events.len() == 2);
        assert(events =~= backed_up_course());
    }
    if events == backed_up_course() {
        assert(Recovery::reacts(events[1], RecoveryAction::UseDefaults));
    }
}

/// The course with a backup can be taken, and whatever the reaction to its end is,
/// it is to use default settings.
pub proof fn backup_leads_to_defaults(action: RecoveryAction)
    requires
        Recovery::reacts(backed_up_course().last(), action),
    ensures
        is_course(Recovery::Asking, backed_up_course()),
        action is UseDefaults,
{
    let second = backed_up_course().drop_first();
    assert(second.first() == RecoveryEvent::BackedUp);
    assert(is_course(Recovery::Over, second.drop_first()));
    assert(is_course(Recovery::BackingUp, second));
}

/// The file is touched only where the user asked for that: whatever else becomes
/// of the prompt, the recovery closes without a backup and without a change.
pub proof fn unasked_recovery_changes_nothing(
    events: Seq<RecoveryEvent>,
    at: int,
    action: RecoveryAction,
)
    requires
        is_course(Recovery::Asking, events),
        0 <= at < events.len(),
        Recovery::reacts(events[at], action),
        events[0] != RecoveryEvent::Answered(Some(BACK_UP_AND_USE_DEFAULTS)),
    ensures
        events.len() == 1,
        action is Close,
{
    courses(events);
}

/// A recovery always ends, after three events at most.
pub proof fn recovery_ends(events: Seq<RecoveryEvent>)
    requires
        is_course(Recovery::Asking, events),
    ensures
        events.len() <= 3,
{
    courses(events);
}

/// Only the second of the two answers backs the file up; every other answer, and
/// none, closes.
pub proof fn backup_is_the_second_answer(answer: Option<usize>, action: RecoveryAction)
    requires
        Recovery::reacts(RecoveryEvent::Answered(answer), action),
    ensures
        action is BackUp <==> answer is Some && answer->0 == 1,
        action is Close <==> answer is None || answer->0 != 1,
        Recovery::after(RecoveryEvent::Answered(answer)) is BackingUp <==> action is BackUp,
        Recovery::after(RecoveryEvent::Answered(answer)) is Over <==> action is Close,
{
}

/// A failed backup is reported with all its causes, and once the report is gone the
/// recovery is over, without a start.
pub proof fn failed_backup_is_reported_and_closes(
    report: ErrorReport,
    action: RecoveryAction,
    last: RecoveryAction,
)
    requires
        Recovery::reacts(RecoveryEvent::BackUpFailed(report), action),
        Recovery::reacts(RecoveryEvent::Acknowledged, last),
    ensures
        action matches RecoveryAction::Report { error } && error@ == chained(
            report.message@,
            report.causes@,
        ),
        Recovery::after(RecoveryEvent::BackUpFailed(report)).awaits(RecoveryEvent::Acknowledged),
        last is Close,
        Recovery::after(RecoveryEvent::Acknowledged) is Over,
{
}

/// The chain of an error without causes is its message, a further cause is added
/// at the end behind a colon and a space, and nothing of what stands before it
/// changes.
pub proof fn chain_grows_at_the_end(message: Seq<char>, causes: Seq<String>, cause: String)
    ensures
        chained(message, Seq::empty()) == message,
        chained(message, causes.push(cause)) == chained(message, causes) + seq![':', ' ']
            + cause@,
{
    assert(causes.push(cause).drop_last() =~= causes);
}

/// The causes stand in their order: the nearest comes right behind the message.
pub proof fn nearest_cause_comes_first(message: Seq<char>, cause: String, rest: Seq<String>)
    ensures
        chained(message, seq![cause] + rest) == chained(
            message + seq![':', ' '] + cause@,
            rest,
        ),
    decreases rest.len(),
{
    let all = seq![cause] + rest;
    if rest.len() == 0 {
        assert(all =~= Seq::<String>::empty().push(cause));
        chain_grows_at_the_end(message, Seq::empty(), cause);
    } else {
        nearest_cause_comes_first(message, cause, rest.drop_last());
        assert(all.drop_last() =~= seq![cause] + rest.drop_last());
    }
}

} // verus!
