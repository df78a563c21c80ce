use crate::backend::{detect_backend, detected, process_found, spec_process_found, Backend};
use crate::command::{
    keyboard_command, keyboard_line, keyboard_lines, listing_command, listing_line, probe_command,
    probe_line, rotation, rotation_line, update_sway,
};
use crate::config::{Config, ConfigView};
use crate::error::Error;
use crate::input::{get_keyboards, keyboards_of};
use crate::orientation::{Orientation, OrientationState};
use crate::sensor::Accelerometer;
use vstd::prelude::*;

verus! {

/// Where a poll cycle stands. Each step but the first waits for the outcome
/// of the action that led to it.
#[derive(Debug, PartialEq, Eq)]
pub enum Step {
    /// The sensor sources are being read.
    Reading,
    /// The first reading is being held against the reference orientations.
    Classifying,
    /// The command that rotates the display to `target` is running.
    Rotating { target: OrientationState },
    /// The compositor is listing its input devices.
    Listing { target: OrientationState },
    /// The commands for the first `issued` keyboards were given; the last of
    /// them is running.
    Toggling { target: OrientationState, keyboards: Vec<String>, issued: usize },
    /// The pause before the next poll is running.
    Sleeping,
}

/// The mathematical content of a [`Step`].
pub enum StepView {
    Reading,
    Classifying,
    Rotating { target: OrientationState },
    Listing { target: OrientationState },
    Toggling { target: OrientationState, keyboards: Seq<Seq<char>>, issued: nat },
    Sleeping,
}

impl View for Step {
    type V = StepView;

    open spec fn view(&self) -> StepView {
        match *self {
            Step::Reading => StepView::Reading,
            Step::Classifying => StepView::Classifying,
            Step::Rotating { target } => StepView::Rotating { target },
            Step::Listing { target } => StepView::Listing { target },
            Step::Toggling { target, keyboards, issued } => StepView::Toggling {
                target,
                keyboards: keyboards.deep_view(),
                issued: issued as nat,
            },
            Step::Sleeping => StepView::Sleeping,
        }
    }
}

/// The state of a run of the daemon between two of its actions.
#[derive(Debug, PartialEq, Eq)]
pub enum Session {
    /// Nothing has happened yet.
    Idle,
    /// `pidof sway` is running.
    ProbingSway,
    /// `pidof Xorg` is running.
    ProbingXorg { sway: bool },
    /// `pidof X` is running.
    ProbingX { sway: bool, xorg: bool },
    /// The backend is known and the daemon polls. `applied` is the
    /// orientation that was applied last, and `None` before the first.
    Polling { backend: Backend, applied: Option<OrientationState>, step: Step },
    /// The run is over.
    Done,
}

/// The mathematical content of a [`Session`].
pub enum SessionView {
    Idle,
    ProbingSway,
    ProbingXorg { sway: bool },
    ProbingX { sway: bool, xorg: bool },
    Polling { backend: Backend, applied: Option<OrientationState>, step: StepView },
    Done,
}

impl View for Session {
    type V = SessionView;

    open spec fn view(&self) -> SessionView {
        match *self {
            Session::Idle => SessionView::Idle,
            Session::ProbingSway => SessionView::ProbingSway,
            Session::ProbingXorg { sway } => SessionView::ProbingXorg { sway },
            Session::ProbingX { sway, xorg } => SessionView::ProbingX { sway, xorg },
            Session::Polling { backend, applied, step } => SessionView::Polling {
                backend,
                applied,
                step: step@,
            },
            Session::Done => SessionView::Done,
        }
    }
}

/// What the outside world reports back to the daemon.
#[derive(Debug, PartialEq, Eq)]
pub enum Event {
    /// The daemon was started.
    Launched,
    /// The command ran; this is what it printed.
    Captured(String),
    /// The command ran and ended; this is its exit code, or `None` when it
    /// ended without one, as a command does that a signal stops.
    Exited(Option<i32>),
    /// The command could not be run or could not be waited for.
    Failed,
    /// The contents of the sensor sources, in their order of discovery;
    /// `None` for a source that could not be read.
    Sensors(Vec<Option<String>>),
    /// For each reference orientation of the catalog, whether the reading
    /// lies within the threshold of it.
    Nearness([bool; 4]),
    /// The pause is over.
    Woke,
}

/// The mathematical content of an [`Event`].
pub enum EventView {
    Launched,
    Captured(Seq<char>),
    Exited(Option<i32>),
    Failed,
    Sensors(Seq<Option<Seq<char>>>),
    Nearness(Seq<bool>),
    Woke,
}

impl View for Event {
    type V = EventView;

    open spec fn view(&self) -> EventView {
        match *self {
            Event::Launched => EventView::Launched,
            Event::Captured(text) => EventView::Captured(text@),
            Event::Exited(code) => EventView::Exited(code),
            Event::Failed => EventView::Failed,
            Event::Sensors(sources) => EventView::Sensors(sources.deep_view()),
            Event::Nearness(near) => EventView::Nearness(near@),
            Event::Woke => EventView::Woke,
        }
    }
}

/// What the daemon asks of the outside world next.
#[derive(Debug, PartialEq, Eq)]
pub enum Action {
    /// Run the command line, ignore how it ends, and report what it printed.
    Capture(Vec<String>),
    /// Run the command line, wait for it, and report how it ended.
    Spawn(Vec<String>),
    /// Read the sensor sources and report their contents.
    ReadSensors,
    /// Hold the reading against each reference orientation of the catalog
    /// and report which of them it is near.
    Classify(Accelerometer),
    /// Pause for this many milliseconds.
    Sleep(u64),
    /// End the run with this result.
    Finish(Result<(), Error>),
}

/// The mathematical content of an [`Action`].
pub enum ActionView {
    Capture(Seq<Seq<char>>),
    Spawn(Seq<Seq<char>>),
    ReadSensors,
    Classify(Accelerometer),
    Sleep(u64),
    Finish(Result<(), Error>),
}

impl View for Action {
    type V = ActionView;

    open spec fn view(&self) -> ActionView {
        match *self {
            Action::Capture(line) => ActionView::Capture(line.deep_view()),
            Action::Spawn(line) => ActionView::Spawn(line.deep_view()),
            Action::ReadSensors => ActionView::ReadSensors,
            Action::Classify(reading) => ActionView::Classify(reading),
            Action::Sleep(millis) => ActionView::Sleep(millis),
            Action::Finish(result) => ActionView::Finish(result),
        }
    }
}

/// Whether a command ended well: it did if its exit code is zero. Any other
/// exit code, and an end without one, is a failure.
pub open spec fn ended_well(code: Option<i32>) -> bool {
    code == Some(0i32)
}

/// The run ends with the given error.
pub open spec fn ended(error: Error) -> (SessionView, ActionView) {
    (SessionView::Done, ActionView::Finish(Err(error)))
}

/// The poll found the orientation that is already applied: nothing is
/// issued, and the daemon pauses until the next poll.
pub open spec fn paused(
    config: ConfigView,
    backend: Backend,
    applied: Option<OrientationState>,
) -> (SessionView, ActionView) {
    (
        SessionView::Polling { backend, applied, step: StepView::Sleeping },
        ActionView::Sleep(config.sleep),
    )
}

/// The change to `target` is fully applied: a one-shot run ends well, any
/// other records the orientation and pauses until the next poll.
pub open spec fn settled(config: ConfigView, backend: Backend, target: OrientationState) -> (
    SessionView,
    ActionView,
) {
    if config.oneshot {
        (SessionView::Done, ActionView::Finish(Ok(())))
    } else {
        (
            SessionView::Polling { backend, applied: Some(target), step: StepView::Sleeping },
            ActionView::Sleep(config.sleep),
        )
    }
}

/// The first `issued` keyboards are dealt with: the next one gets its
/// command, and after the last one the change is fully applied.
pub open spec fn toggled(
    config: ConfigView,
    backend: Backend,
    applied: Option<OrientationState>,
    target: OrientationState,
    keyboards: Seq<Seq<char>>,
    issued: nat,
) -> (SessionView, ActionView) {
    if issued < keyboards.len() {
        (
            SessionView::Polling {
                backend,
                applied,
                step: StepView::Toggling { target, keyboards, issued: issued + 1 },
            },
            ActionView::Spawn(keyboard_line(keyboards[issued as int], target)),
        )
    } else {
        settled(config, backend, target)
    }
}

/// The orientation `target` came out of the classification: nothing happens
/// if it is the one applied last, else the rotation command is issued, where
/// the backend has one.
pub open spec fn classified(
    config: ConfigView,
    backend: Backend,
    applied: Option<OrientationState>,
    target: OrientationState,
) -> (SessionView, ActionView) {
    if applied == Some(target) {
        paused(config, backend, applied)
    } else {
        match rotation(backend, config.display, target) {
            Ok(line) => (
                SessionView::Polling { backend, applied, step: StepView::Rotating { target } },
                ActionView::Spawn(line),
            ),
            Err(error) => ended(error),
        }
    }
}

/// The display was rotated to `target`: the keyboards follow if the
/// configuration asks for it, which under the compositor starts with
/// listing them.
pub open spec fn rotated(
    config: ConfigView,
    backend: Backend,
    applied: Option<OrientationState>,
    target: OrientationState,
) -> (SessionView, ActionView) {
    if !config.keyboard {
        settled(config, backend, target)
    } else {
        match backend {
            Backend::Sway => (
                SessionView::Polling { backend, applied, step: StepView::Listing { target } },
                ActionView::Capture(listing_line()),
            ),
            Backend::Xorg => settled(config, backend, target),
        }
    }
}

/// What follows from an event while the daemon polls.
pub open spec fn polled(
    config: ConfigView,
    backend: Backend,
    applied: Option<OrientationState>,
    step: StepView,
    event: EventView,
) -> (SessionView, ActionView) {
    match (step, event) {
        (StepView::Reading, EventView::Sensors(sources)) => match Accelerometer::built(sources) {
            Ok(readings) => (
                SessionView::Polling { backend, applied, step: StepView::Classifying },
                ActionView::Classify(readings[0]),
            ),
            Err(error) => ended(error),
        },
        (StepView::Classifying, EventView::Nearness(near)) => classified(
            config,
            backend,
            applied,
            Orientation::chosen(near).sway_state,
        ),
        (StepView::Rotating { target }, EventView::Exited(code)) => {
            if ended_well(code) {
                rotated(config, backend, applied, target)
            } else {
                ended(Error::ExternalCommandFailure)
            }
        },
        (StepView::Listing { target }, EventView::Captured(listing)) => match keyboards_of(
            backend,
            listing,
        ) {
            Ok(keyboards) => toggled(config, backend, applied, target, keyboards, 0),
            Err(error) => ended(error),
        },
        (StepView::Toggling { target, keyboards, issued }, EventView::Exited(code)) => {
            if ended_well(code) {
                toggled(config, backend, applied, target, keyboards, issued)
            } else {
                ended(Error::ExternalCommandFailure)
            }
        },
        (StepView::Sleeping, EventView::Woke) => (
            SessionView::Polling { backend, applied, step: StepView::Reading },
            ActionView::ReadSensors,
        ),
        _ => ended(Error::ExternalCommandFailure),
    }
}

/// The daemon's transition: the session that follows `session` on `event`,
/// and the action to perform next. An event that does not answer what the
/// session waits for, a failed command among them, ends the run with
/// `ExternalCommandFailure`.
pub open spec fn next(config: ConfigView, session: SessionView, event: EventView) -> (
    SessionView,
    ActionView,
) {
    match (session, event) {
        (SessionView::Idle, EventView::Launched) => (
            SessionView::ProbingSway,
            ActionView::Capture(probe_line("sway"@)),
        ),
        (SessionView::ProbingSway, EventView::Captured(pids)) => (
            SessionView::ProbingXorg { sway: spec_process_found(pids) },
            ActionView::Capture(probe_line("Xorg"@)),
        ),
        (SessionView::ProbingXorg { sway }, EventView::Captured(pids)) => (
            SessionView::ProbingX { sway, xorg: spec_process_found(pids) },
            ActionView::Capture(probe_line("X"@)),
        ),
        (SessionView::ProbingX { sway, xorg }, EventView::Captured(pids)) => match detected(
            sway,
            xorg,
            spec_process_found(pids),
        ) {
            Ok(backend) => (
                SessionView::Polling { backend, applied: None, step: StepView::Reading },
                ActionView::ReadSensors,
            ),
            Err(error) => ended(error),
        },
        (SessionView::Polling { backend, applied, step }, _) => polled(
            config,
            backend,
            applied,
            step,
            event,
        ),
        _ => ended(Error::ExternalCommandFailure),
    }
}

/// The session that a daemon is in after the given events, told one after
/// the other from its start.
pub open spec fn after(config: ConfigView, events: Seq<EventView>) -> SessionView
    decreases events.len(),
{
    if events.len() == 0 {
        SessionView::Idle
    } else {
        next(config, after(config, events.drop_last()), events.last()).0
    }
}

/// The action with which a daemon answers the last of the given events, told
/// one after the other from its start.
pub open spec fn answer(config: ConfigView, events: Seq<EventView>) -> ActionView
    recommends
        events.len() > 0,
{
    next(config, after(config, events.drop_last()), events.last()).1
}

/// Whether the session has neither applied an orientation nor paused.
pub open spec fn unsettled(session: SessionView) -> bool {
    match session {
        SessionView::Polling { applied, step, .. } => applied is None && !(step is Sleeping),
        _ => true,
    }
}

/// How far a session has come on the way from the start to the end of a
/// single poll.
pub open spec fn progress(session: SessionView) -> nat {
    match session {
        SessionView::Idle => 0,
        SessionView::ProbingSway => 1,
        SessionView::ProbingXorg { .. } => 2,
        SessionView::ProbingX { .. } => 3,
        SessionView::Polling { step, .. } => match step {
            StepView::Reading => 4,
            StepView::Classifying => 5,
            StepView::Rotating { .. } => 6,
            StepView::Listing { .. } => 7,
            StepView::Toggling { issued, .. } => 8 + issued,
            StepView::Sleeping => 4,
        },
        SessionView::Done => 0,
    }
}

/// Only the first device is classified: what the second device reads makes
/// no difference to what the daemon does, as long as it reads something.
pub proof fn law_only_the_first_device_is_classified(
    config: ConfigView,
    backend: Backend,
    applied: Option<OrientationState>,
    sources: Seq<Option<Seq<char>>>,
    others: Seq<Option<Seq<char>>>,
)
    requires
        Accelerometer::built(sources) is Ok,
        Accelerometer::built(others) is Ok,
        forall|i: int|
            0 <= i < 3 ==> Accelerometer::source_reading(sources, i)
                == Accelerometer::source_reading(others, i),
    ensures
        ({
            let session = SessionView::Polling { backend, applied, step: StepView::Reading };
            &&& next(config, session, EventView::Sensors(sources)) == next(
                config,
                session,
                EventView::Sensors(others),
            )
            &&& next(config, session, EventView::Sensors(sources)).1 == ActionView::Classify(
                Accelerometer::device(sources, 0),
            )
        }),
{
}

/// A poll that finds the orientation applied last issues no command: the
/// daemon keeps what it has applied and pauses, and when the pause is over it
/// reads the sensors again.
pub proof fn law_same_orientation_issues_nothing(
    config: ConfigView,
    backend: Backend,
    current: OrientationState,
    near: Seq<bool>,
)
    requires
        Orientation::chosen(near).sway_state == current,
    ensures
        next(
            config,
            SessionView::Polling { backend, applied: Some(current), step: StepView::Classifying },
            EventView::Nearness(near),
        ) == (
            SessionView::Polling { backend, applied: Some(current), step: StepView::Sleeping },
            ActionView::Sleep(config.sleep),
        ),
        next(
            config,
            SessionView::Polling { backend, applied: Some(current), step: StepView::Sleeping },
            EventView::Woke,
        ) == (
            SessionView::Polling { backend, applied: Some(current), step: StepView::Reading },
            ActionView::ReadSensors,
        ),
{
}

/// A poll that finds another orientation than the one applied last, or any
/// orientation when none was applied yet, issues the rotation command under
/// the compositor and gives up under any other backend.
pub proof fn law_new_orientation_is_applied(
    config: ConfigView,
    backend: Backend,
    applied: Option<OrientationState>,
    near: Seq<bool>,
)
    requires
        applied != Some(Orientation::chosen(near).sway_state),
    ensures
        ({
            let target = Orientation::chosen(near).sway_state;
            let session = SessionView::Polling { backend, applied, step: StepView::Classifying };
            next(config, session, EventView::Nearness(near)) == if backend == Backend::Sway {
                (
                    SessionView::Polling { backend, applied, step: StepView::Rotating { target } },
                    ActionView::Spawn(rotation_line(config.display, target)),
                )
            } else {
                ended(Error::UnsupportedBackend)
            }
        }),
{
}

/// While the keyboards are brought in line with the orientation `target`,
/// each command that ends with exit code zero is followed by the command for the next
/// keyboard of the list; after the last keyboard the change is fully
/// applied.
pub proof fn law_keyboards_are_toggled_in_order(
    config: ConfigView,
    backend: Backend,
    applied: Option<OrientationState>,
    target: OrientationState,
    keyboards: Seq<Seq<char>>,
    issued: nat,
)
    ensures
        ({
            let step = StepView::Toggling { target, keyboards, issued };
            let session = SessionView::Polling { backend, applied, step };
            next(config, session, EventView::Exited(Some(0))) == if issued < keyboards.len() {
                (
                    SessionView::Polling {
                        backend,
                        applied,
                        step: StepView::Toggling { target, keyboards, issued: issued + 1 },
                    },
                    ActionView::Spawn(keyboard_lines(keyboards, target)[issued as int]),
                )
            } else {
                settled(config, backend, target)
            }
        }),
{
}

/// No failure is retried: a command that cannot be run, or that ends with
/// another exit code than zero or with none, ends the run at once, whatever
/// the daemon was doing.
pub proof fn law_failure_is_fatal(config: ConfigView, session: SessionView, code: Option<i32>)
    ensures
        next(config, session, EventView::Failed) == ended(Error::ExternalCommandFailure),
        !ended_well(code) ==> next(config, session, EventView::Exited(code)) == ended(
            Error::ExternalCommandFailure,
        ),
{
}

/// The run is over exactly when the daemon says so: the session is done if
/// and only if the action is to finish.
pub proof fn law_finish_ends_the_session(
    config: ConfigView,
    session: SessionView,
    event: EventView,
)
    ensures
        next(config, session, event).0 is Done <==> next(config, session, event).1 is Finish,
{
}

/// In one-shot mode the run ends well as soon as one change of orientation
/// is fully applied: with the rotation where the keyboards are left alone,
/// with the listing where it holds no keyboard, and with the command for the
/// last keyboard otherwise.
pub proof fn law_oneshot_ends_with_the_first_change(
    config: ConfigView,
    backend: Backend,
    applied: Option<OrientationState>,
    target: OrientationState,
    listing: Seq<char>,
    keyboards: Seq<Seq<char>>,
    issued: nat,
)
    requires
        config.oneshot,
    ensures
        !config.keyboard ==> next(
            config,
            SessionView::Polling { backend, applied, step: StepView::Rotating { target } },
            EventView::Exited(Some(0)),
        ) == (SessionView::Done, ActionView::Finish(Ok(()))),
        keyboards_of(backend, listing) == Ok::<Seq<Seq<char>>, Error>(Seq::empty()) ==> next(
            config,
            SessionView::Polling { backend, applied, step: StepView::Listing { target } },
            EventView::Captured(listing),
        ) == (SessionView::Done, ActionView::Finish(Ok(()))),
        issued >= keyboards.len() ==> next(
            config,
            SessionView::Polling {
                backend,
                applied,
                step: StepView::Toggling { target, keyboards, issued },
            },
            EventView::Exited(Some(0)),
        ) == (SessionView::Done, ActionView::Finish(Ok(()))),
{
}

/// One step of a one-shot run that has not applied anything yet: it neither
/// pauses nor records an orientation, it moves on or ends, and it asks for
/// the sensors only when the backend has just been found.
pub proof fn lemma_oneshot_step(config: ConfigView, session: SessionView, event: EventView)
    requires
        config.oneshot,
        unsettled(session),
    ensures
        unsettled(next(config, session, event).0),
        !(next(config, session, event).1 is Sleep),
        next(config, session, event).0 is Done || progress(next(config, session, event).0)
            > progress(session),
        next(config, session, event).1 is ReadSensors ==> session is ProbingX,
        session is Done ==> next(config, session, event).0 is Done,
{
}

/// A one-shot run never applies an orientation without ending, and never
/// comes to pause.
pub proof fn lemma_oneshot_unsettled(config: ConfigView, events: Seq<EventView>)
    requires
        config.oneshot,
    ensures
        unsettled(after(config, events)),
    decreases events.len(),
{
    if events.len() > 0 {
        lemma_oneshot_unsettled(config, events.drop_last());
        lemma_oneshot_step(config, after(config, events.drop_last()), events.last());
    }
}

/// A one-shot run only moves forward: after more events it has ended or
/// come further than it was after fewer.
pub proof fn lemma_oneshot_advances(config: ConfigView, events: Seq<EventView>, fewer: int)
    requires
        config.oneshot,
        0 <= fewer < events.len(),
    ensures
        after(config, events) is Done || progress(after(config, events)) > progress(
            after(config, events.take(fewer)),
        ),
    decreases events.len(),
{
    let before = events.drop_last();
    lemma_oneshot_unsettled(config, before);
    lemma_oneshot_step(config, after(config, before), events.last());
    if fewer < before.len() {
        assert(before.take(fewer) =~= events.take(fewer));
        lemma_oneshot_advances(config, before, fewer);
    }
}

/// In one-shot mode the daemon never pauses: whatever it is told, it does
/// not answer with a sleep.
pub proof fn law_oneshot_never_pauses(config: ConfigView, events: Seq<EventView>)
    requires
        config.oneshot,
        events.len() > 0,
    ensures
        !(answer(config, events) is Sleep),
{
    lemma_oneshot_unsettled(config, events.drop_last());
    lemma_oneshot_step(config, after(config, events.drop_last()), events.last());
}

/// In one-shot mode the daemon polls once: when it has asked for the sensors
/// in answer to the first `earlier` events, it does not ask for them again.
pub proof fn law_oneshot_polls_once(config: ConfigView, events: Seq<EventView>, earlier: int)
    requires
        config.oneshot,
        0 < earlier < events.len(),
        answer(config, events.take(earlier)) is ReadSensors,
    ensures
        !(answer(config, events) is ReadSensors),
{
    let first = events.take(earlier);
    let before = events.drop_last();
    lemma_oneshot_unsettled(config, first.drop_last());
    lemma_oneshot_step(config, after(config, first.drop_last()), first.last());
    lemma_oneshot_unsettled(config, before);
    lemma_oneshot_step(config, after(config, before), events.last());
    assert(before.take(earlier - 1) =~= first.drop_last());
    lemma_oneshot_advances(config, before, earlier - 1);
}

/// Tells whether a command ended well, going by its exit code.
fn succeeded(code: Option<i32>) -> (well: bool)
    ensures
        well == ended_well(code),
{
    match code {
        Some(status) => status == 0,
        None => false,
    }
}

/// The run ends with `ExternalCommandFailure`.
fn fail() -> (outcome: (Session, Action))
    ensures
        (outcome.0@, outcome.1@) == ended(Error::ExternalCommandFailure),
{
    (Session::Done, Action::Finish(Err(Error::ExternalCommandFailure)))
}

/// Records that the change to `target` is fully applied.
fn settle(config: &Config, backend: Backend, target: OrientationState) -> (outcome: (
    Session,
    Action,
))
    ensures
        (outcome.0@, outcome.1@) == settled(config@, backend, target),
{
    if config.oneshot {
        (Session::Done, Action::Finish(Ok(())))
    } else {
        (
            Session::Polling { backend, applied: Some(target), step: Step::Sleeping },
            Action::Sleep(config.sleep),
        )
    }
}

/// Issues the command for the keyboard at position `issued`, if there is one.
fn toggle(
    config: &Config,
    backend: Backend,
    applied: Option<OrientationState>,
    target: OrientationState,
    keyboards: Vec<String>,
    issued: usize,
) -> (outcome: (Session, Action))
    ensures
        (outcome.0@, outcome.1@) == toggled(
            config@,
            backend,
            applied,
            target,
            keyboards.deep_view(),
            issued as nat,
        ),
{
    if issued < keyboards.len() {
        let line = keyboard_command(keyboards[issued].as_str(), target);
        (
            Session::Polling {
                backend,
                applied,
                step: Step::Toggling { target, keyboards, issued: issued + 1 },
            },
            Action::Spawn(line),
        )
    } else {
        settle(config, backend, target)
    }
}

/// Compares the classified orientation with the one applied last.
fn classify(
    config: &Config,
    backend: Backend,
    applied: Option<OrientationState>,
    target: OrientationState,
) -> (outcome: (Session, Action))
    ensures
        (outcome.0@, outcome.1@) == classified(config@, backend, applied, target),
{
    let unchanged = match applied {
        Some(current) => current == target,
        None => false,
    };
    if unchanged {
        (Session::Polling { backend, applied, step: Step::Sleeping }, Action::Sleep(config.sleep))
    } else {
        match update_sway(&backend, config.display.as_str(), target) {
            Ok(line) => (
                Session::Polling { backend, applied, step: Step::Rotating { target } },
                Action::Spawn(line),
            ),
            Err(error) => (Session::Done, Action::Finish(Err(error))),
        }
    }
}

/// Decides what follows a finished rotation.
fn rotate_done(
    config: &Config,
    backend: Backend,
    applied: Option<OrientationState>,
    target: OrientationState,
) -> (outcome: (Session, Action))
    ensures
        (outcome.0@, outcome.1@) == rotated(config@, backend, applied, target),
{
    if !config.keyboard {
        settle(config, backend, target)
    } else {
        match backend {
            Backend::Sway => (
                Session::Polling { backend, applied, step: Step::Listing { target } },
                Action::Capture(listing_command()),
            ),
            Backend::Xorg => settle(config, backend, target),
        }
    }
}

/// Handles an event while the daemon polls.
fn poll(
    config: &Config,
    backend: Backend,
    applied: Option<OrientationState>,
    step: Step,
    event: Event,
) -> (outcome: (Session, Action))
    ensures
        (outcome.0@, outcome.1@) == polled(config@, backend, applied, step@, event@),
{
    match step {
        Step::Reading => match event {
            Event::Sensors(sources) => match Accelerometer::build(&sources) {
                Ok(readings) => (
                    Session::Polling { backend, applied, step: Step::Classifying },
                    Action::Classify(readings[0]),
                ),
                Err(error) => (Session::Done, Action::Finish(Err(error))),
            },
            _ => fail(),
        },
        Step::Classifying => match event {
            Event::Nearness(near) => {
                let found = Orientation::search(&near);
                classify(config, backend, applied, found.sway_state)
            },
            _ => fail(),
        },
        Step::Rotating { target } => match event {
            Event::Exited(code) => {
                if succeeded(code) {
                    rotate_done(config, backend, applied, target)
                } else {
                    fail()
                }
            },
            _ => fail(),
        },
        Step::Listing { target } => match event {
            Event::Captured(listing) => match get_keyboards(&backend, listing.as_str()) {
                Ok(keyboards) => toggle(config, backend, applied, target, keyboards, 0),
                Err(error) => (Session::Done, Action::Finish(Err(error))),
            },
            _ => fail(),
        },
        Step::Toggling { target, keyboards, issued } => match event {
            Event::Exited(code) => {
                if succeeded(code) {
                    toggle(config, backend, applied, target, keyboards, issued)
                } else {
                    fail()
                }
            },
            _ => fail(),
        },
        Step::Sleeping => match event {
            Event::Woke => (
                Session::Polling { backend, applied, step: Step::Reading },
                Action::ReadSensors,
            ),
            _ => fail(),
        },
    }
}

impl Session {
    /// The session of a daemon that has not started yet.
    pub fn new() -> (session: Session)
        ensures
            session@ == SessionView::Idle,
    {
        Session::Idle
    }
}

impl Accelerometer {
    /// Runs the daemon one step further: takes what the outside world
    /// reported and returns the session that follows, with the action to
    /// perform next. Start from [`Session::new`] with [`Event::Launched`],
    /// perform each action, and hand its outcome back as the next event,
    /// until the action is [`Action::Finish`].
    pub fn run(config: &Config, session: Session, event: Event) -> (outcome: (Session, Action))
        ensures
            (outcome.0@, outcome.1@) == next(config@, session@, event@),
    {
        match session {
            Session::Idle => match event {
                Event::Launched => (Session::ProbingSway, Action::Capture(probe_command("sway"))),
                _ => fail(),
            },
            Session::ProbingSway => match event {
                Event::Captured(pids) => (
                    Session::ProbingXorg { sway: process_found(pids.as_str()) },
                    Action::Capture(probe_command("Xorg")),
                ),
                _ => fail(),
            },
            Session::ProbingXorg { sway } => match event {
                Event::Captured(pids) => (
                    Session::ProbingX { sway, xorg: process_found(pids.as_str()) },
                    Action::Capture(probe_command("X")),
                ),
                _ => fail(),
            },
            Session::ProbingX { sway, xorg } => match event {
                Event::Captured(pids) => match detect_backend(
                    sway,
                    xorg,
                    process_found(pids.as_str()),
                ) {
                    Ok(backend) => (
                        Session::Polling { backend, applied: None, step: Step::Reading },
                        Action::ReadSensors,
                    ),
                    Err(error) => (Session::Done, Action::Finish(Err(error))),
                },
                _ => fail(),
            },
            Session::Polling { backend, applied, step } => poll(
                config,
                backend,
                applied,
                step,
                event,
            ),
            Session::Done => fail(),
        }
    }
}

} // verus!
