//! The sequencing of a run: fetch the package, extract the font, render the
//! image. The work of each stage is done by whoever drives the run; this
//! module decides, from what came back, what is to be done next. Every
//! stage's failure ends the run and is kept for the report.

use vstd::prelude::*;
use crate::archive::ArchiveError;
use crate::fetch::FetchError;
use crate::render::RenderError;

verus! {

/// A stage of the run in which work is under way.
#[derive(Clone, Copy, Debug, PartialEq, Eq, Structural)]
pub enum Stage {
    Fetching,
    Extracting,
    Rendering,
}

/// What went wrong, by the stage that it went wrong in.
#[derive(Debug)]
pub enum Failure {
    Fetch(FetchError),
    Archive(ArchiveError),
    Render(RenderError),
}

/// Where a run stands.
#[derive(Debug)]
pub enum State {
    /// Nothing has been asked for yet.
    Idle,
    /// The package has been asked for.
    Fetching,
    /// The package is here and is being extracted.
    Extracting,
    /// The font is here and the image is being rendered.
    Rendering,
    /// The image has been written.
    Done,
    /// The run has ended in `stage` with `error`.
    Failed { stage: Stage, error: Failure },
}

/// What the driver of a run reports back.
#[derive(Debug)]
pub enum Event {
    /// The run is to begin.
    Start,
    /// The request has ended, with the package or without.
    Fetched(Result<Vec<u8>, FetchError>),
    /// The extraction has ended, with the font file or without.
    Extracted(Result<Vec<u8>, ArchiveError>),
    /// The rendering has ended.
    Rendered(Result<(), RenderError>),
}

/// What the driver of a run is to do next.
#[derive(Debug)]
pub enum Action {
    /// Ask the provider for the package.
    Fetch,
    /// Extract the font file from `package`.
    Extract { package: Vec<u8> },
    /// Render the image with the font in `font`.
    Render { font: Vec<u8> },
    /// The run has just ended: report how.
    Report,
    /// Nothing: the event did not belong to the state.
    Nothing,
}

impl Failure {
    /// The text that describes this failure to the user: that of the error
    /// it holds.
    pub open spec fn message_of(self) -> Seq<char> {
        match self {
            Failure::Fetch(error) => error.message_of(),
            Failure::Archive(error) => error.message_of(),
            Failure::Render(error) => error.message_of(),
        }
    }

    /// The text that describes this failure to the user.
    pub fn message(&self) -> (text: String)
        ensures
            text@ == self.message_of(),
    {
        match self {
            Failure::Fetch(error) => error.message(),
            Failure::Archive(error) => error.message(),
            Failure::Render(error) => error.message(),
        }
    }
}

impl State {
    /// Whether the run has ended.
    pub open spec fn is_terminal(self) -> bool {
        self is Done || self is Failed
    }

    /// How far a run in this state has come.
    pub open spec fn progress(self) -> nat {
        match self {
            State::Idle => 0,
            State::Fetching => 1,
            State::Extracting => 2,
            State::Rendering => 3,
            State::Done => 4,
            State::Failed { .. } => 4,
        }
    }

    /// Whether `event` is the one that a run in this state waits for.
    pub open spec fn awaits(self, event: Event) -> bool {
        match self {
            State::Idle => event is Start,
            State::Fetching => event is Fetched,
            State::Extracting => event is Extracted,
            State::Rendering => event is Rendered,
            State::Done => false,
            State::Failed { .. } => false,
        }
    }

    /// Whether the run has ended.
    pub fn has_ended(&self) -> (ended: bool)
        ensures
            ended == self.is_terminal(),
    {
        match self {
            State::Done => true,
            State::Failed { .. } => true,
            _ => false,
        }
    }
}

/// The state that follows `state` on `event`, and what is to be done then.
///
/// A run moves on only on the success of the stage it is in. On a failure it
/// ends in `Failed`, with the stage it was in and the error as it came. An
/// event that the state does not wait for changes nothing.
pub open spec fn transition(state: State, event: Event) -> (State, Action) {
    match (state, event) {
        (State::Idle, Event::Start) => (State::Fetching, Action::Fetch),
        (State::Fetching, Event::Fetched(Ok(package))) => (
            State::Extracting,
            Action::Extract { package },
        ),
        (State::Fetching, Event::Fetched(Err(error))) => (
            State::Failed { stage: Stage::Fetching, error: Failure::Fetch(error) },
            Action::Report,
        ),
        (State::Extracting, Event::Extracted(Ok(font))) => (
            State::Rendering,
            Action::Render { font },
        ),
        (State::Extracting, Event::Extracted(Err(error))) => (
            State::Failed { stage: Stage::Extracting, error: Failure::Archive(error) },
            Action::Report,
        ),
        (State::Rendering, Event::Rendered(Ok(_))) => (State::Done, Action::Report),
        (State::Rendering, Event::Rendered(Err(error))) => (
            State::Failed { stage: Stage::Rendering, error: Failure::Render(error) },
            Action::Report,
        ),
        (state, _) => (state, Action::Nothing),
    }
}

/// The state of a run that starts in `state` and meets `events` in order.
pub open spec fn run(state: State, events: Seq<Event>) -> State
    decreases events.len(),
{
    if events.len() == 0 {
        state
    } else {
        run(transition(state, events[0]).0, events.drop_first())
    }
}

/// How a run ends whose three stages give `fetched`, `extracted` and
/// `rendered`: in the first failure among them, or done where there is none.
pub open spec fn ending(
    fetched: Result<Vec<u8>, FetchError>,
    extracted: Result<Vec<u8>, ArchiveError>,
    rendered: Result<(), RenderError>,
) -> State {
    match fetched {
        Err(error) => State::Failed { stage: Stage::Fetching, error: Failure::Fetch(error) },
        Ok(_) => match extracted {
            Err(error) => State::Failed { stage: Stage::Extracting, error: Failure::Archive(error) },
            Ok(_) => match rendered {
                Err(error) => State::Failed { stage: Stage::Rendering, error: Failure::Render(error) },
                Ok(_) => State::Done,
            },
        },
    }
}

/// Moves a run on by one event: returns the state that follows and what is
/// to be done next.
pub fn step(state: State, event: Event) -> (next: (State, Action))
    ensures
        next == transition(state, event),
{
    match (state, event) {
        (State::Idle, Event::Start) => (State::Fetching, Action::Fetch),
        (State::Fetching, Event::Fetched(Ok(package))) => (
            State::Extracting,
            Action::Extract { package },
        ),
        (State::Fetching, Event::Fetched(Err(error))) => (
            State::Failed { stage: Stage::Fetching, error: Failure::Fetch(error) },
            Action::Report,
        ),
        (State::Extracting, Event::Extracted(Ok(font))) => (
            State::Rendering,
            Action::Render { font },
        ),
        (State::Extracting, Event::Extracted(Err(error))) => (
            State::Failed { stage: Stage::Extracting, error: Failure::Archive(error) },
            Action::Report,
        ),
        (State::Rendering, Event::Rendered(Ok(_))) => (State::Done, Action::Report),
        (State::Rendering, Event::Rendered(Err(error))) => (
            State::Failed { stage: Stage::Rendering, error: Failure::Render(error) },
            Action::Report,
        ),
        (state, _) => (state, Action::Nothing),
    }
}

/// A run that has ended stays as it is, whatever is reported to it.
pub proof fn lemma_ended_run_stays(state: State, event: Event)
    requires
        state.is_terminal(),
    ensures
        transition(state, event) == (state, Action::Nothing),
{
}

/// A run never goes back; it moves on exactly on the event it waits for, and
/// is asked to report exactly when it ends.
pub proof fn lemma_run_moves_forward(state: State, event: Event)
    ensures
        transition(state, event).0.progress() >= state.progress(),
        state.awaits(event) <==> transition(state, event).0.progress() > state.progress(),
        !state.awaits(event) ==> transition(state, event) == (state, Action::Nothing),
        transition(state, event).1 is Report <==> !state.is_terminal() && transition(
            state,
            event,
        ).0.is_terminal(),
{
}

/// A run fails in the stage it is in, and only on that stage's failure; it is
/// done only from rendering, on success.
pub proof fn lemma_failure_names_its_stage(state: State, event: Event)
    requires
        !state.is_terminal(),
    ensures
        transition(state, event).0 matches State::Failed { stage, error } ==> {
            &&& stage == Stage::Fetching ==> state is Fetching && event == Event::Fetched(
                Err(error->Fetch_0),
            ) && error is Fetch
            &&& stage == Stage::Extracting ==> state is Extracting && event == Event::Extracted(
                Err(error->Archive_0),
            ) && error is Archive
            &&& stage == Stage::Rendering ==> state is Rendering && event == Event::Rendered(
                Err(error->Render_0),
            ) && error is Render
        },
        transition(state, event).0 is Done ==> state is Rendering && event is Rendered
            && event->Rendered_0 is Ok,
{
}

/// A run that is driven stage by stage ends in the first failure among its
/// stages, and is done exactly where every stage succeeds. What is reported
/// after a failure changes nothing.
pub proof fn lemma_run_ends_in_first_failure(
    fetched: Result<Vec<u8>, FetchError>,
    extracted: Result<Vec<u8>, ArchiveError>,
    rendered: Result<(), RenderError>,
)
    ensures
        run(
            State::Idle,
            seq![
                Event::Start,
                Event::Fetched(fetched),
                Event::Extracted(extracted),
                Event::Rendered(rendered),
            ],
        ) == ending(fetched, extracted, rendered),
        ending(fetched, extracted, rendered).is_terminal(),
        ending(fetched, extracted, rendered) is Done <==> fetched is Ok && extracted is Ok
            && rendered is Ok,
{
    let events = seq![
        Event::Start,
        Event::Fetched(fetched),
        Event::Extracted(extracted),
        Event::Rendered(rendered),
    ];
    let e1 = events.drop_first();
    let e2 = e1.drop_first();
    let e3 = e2.drop_first();
    let e4 = e3.drop_first();
    assert(e4.len() == 0);
    let s1 = transition(State::Idle, events[0]).0;
    let s2 = transition(s1, e1[0]).0;
    let s3 = transition(s2, e2[0]).0;
    let s4 = transition(s3, e3[0]).0;
    assert(run(s4, e4) == s4);
    assert(run(s3, e3) == s4);
    assert(run(s2, e2) == s4);
    assert(run(s1, e1) == s4);
    assert(run(State::Idle, events) == s4);
}

} // verus!
