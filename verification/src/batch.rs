//! A batch run as a state machine.
//!
//! The run itself neither reads lines nor asks the oracle. Whoever drives it
//! does what the last `Request` says and hands back what happened as an
//! `Event`; the run answers with the next request and, where a name was found
//! available, with the line to write out at once. One query is outstanding at
//! most, and names come out in the order in which their lines went in.

use crate::lookup::{needs_oracle, plan_lookup, Lookup, MIN_NAME_LENGTH};
use crate::normalize::canonical;
use vstd::prelude::*;

verus! {

/// Why a run was given up.
#[derive(Clone, Copy, Debug, PartialEq, Eq, Structural)]
pub enum Failure {
    /// A line could not be read from the source.
    Source,
    /// The oracle did not answer a query.
    Oracle,
}

/// Where a batch run stands.
#[derive(Clone, Debug, PartialEq, Eq)]
pub enum BatchRun {
    /// The next line of the source is wanted.
    Reading,
    /// The oracle has been asked about this canonical name and has not answered yet.
    Asking(String),
    /// The source is exhausted; the run has ended well.
    Finished,
    /// The run was given up.
    Failed(Failure),
}

/// What happened outside the run since its last request.
#[derive(Clone, Debug, PartialEq, Eq)]
pub enum Event {
    /// The source gave this line.
    Line(String),
    /// The source has no more lines.
    EndOfInput,
    /// Reading from the source failed.
    ReadFailed,
    /// The oracle answered: the name is available, or it is not.
    Answer(bool),
    /// The oracle failed to answer.
    OracleFailed,
}

/// What the driver is to do next.
#[derive(Clone, Debug, PartialEq, Eq)]
pub enum Request {
    /// Read the next line of the source.
    ReadLine,
    /// Ask the oracle about this canonical name.
    Ask(String),
    /// Stop: the run has ended well.
    Finish,
    /// Stop: the run has failed.
    Abort(Failure),
}

/// The run's answer to one event.
#[derive(Clone, Debug, PartialEq, Eq)]
pub struct Step {
    /// Where the run stands now.
    pub run: BatchRun,
    /// A name found available, to be written out before anything else is done.
    pub output: Option<String>,
    /// What the driver is to do next.
    pub request: Request,
}

/// A `BatchRun` with its name as a sequence of characters.
pub enum BatchRunView {
    Reading,
    Asking(Seq<char>),
    Finished,
    Failed(Failure),
}

/// An `Event` with its line as a sequence of characters.
pub enum EventView {
    Line(Seq<char>),
    EndOfInput,
    ReadFailed,
    Answer(bool),
    OracleFailed,
}

/// A `Request` with its name as a sequence of characters.
pub enum RequestView {
    ReadLine,
    Ask(Seq<char>),
    Finish,
    Abort(Failure),
}

/// A `Step` with its names as sequences of characters.
pub struct StepView {
    pub run: BatchRunView,
    pub output: Option<Seq<char>>,
    pub request: RequestView,
}

impl View for BatchRun {
    type V = BatchRunView;

    open spec fn view(&self) -> BatchRunView {
        match self {
            BatchRun::Reading => BatchRunView::Reading,
            BatchRun::Asking(name) => BatchRunView::Asking(name@),
            BatchRun::Finished => BatchRunView::Finished,
            BatchRun::Failed(failure) => BatchRunView::Failed(*failure),
        }
    }
}

impl View for Event {
    type V = EventView;

    open spec fn view(&self) -> EventView {
        match self {
            Event::Line(raw) => EventView::Line(raw@),
            Event::EndOfInput => EventView::EndOfInput,
            Event::ReadFailed => EventView::ReadFailed,
            Event::Answer(available) => EventView::Answer(*available),
            Event::OracleFailed => EventView::OracleFailed,
        }
    }
}

impl View for Request {
    type V = RequestView;

    open spec fn view(&self) -> RequestView {
        match self {
            Request::ReadLine => RequestView::ReadLine,
            Request::Ask(name) => RequestView::Ask(name@),
            Request::Finish => RequestView::Finish,
            Request::Abort(failure) => RequestView::Abort(*failure),
        }
    }
}

impl View for Step {
    type V = StepView;

    open spec fn view(&self) -> StepView {
        StepView {
            run: self.run@,
            output: match self.output {
                Some(name) => Some(name@),
                None => None,
            },
            request: self.request@,
        }
    }
}

/// The request that a run in the state `run` stands by: what its last step
/// asked for, and what it asks for again when an event is not the one it
/// waits for.
pub open spec fn standing_request(run: BatchRunView) -> RequestView {
    match run {
        BatchRunView::Reading => RequestView::ReadLine,
        BatchRunView::Asking(name) => RequestView::Ask(name),
        BatchRunView::Finished => RequestView::Finish,
        BatchRunView::Failed(failure) => RequestView::Abort(failure),
    }
}

/// The step that leaves the run in the state `run`, writes nothing out and
/// makes the request that this state stands by.
pub open spec fn quiet_step(run: BatchRunView) -> StepView {
    StepView { run, output: None, request: standing_request(run) }
}

/// The run's answer to `event` in the state `run`.
///
/// While reading: a line whose canonical name is too short is passed over; for
/// any other line the oracle is asked about its canonical name; the end of the
/// input ends the run; a read failure fails it. While asking: a yes writes the
/// name out and a no does not, and either way the next line is wanted; a
/// failure of the oracle fails the run. A run that has ended or failed stays
/// so. An event that the run does not wait for changes nothing.
pub open spec fn step_spec(run: BatchRunView, event: EventView) -> StepView {
    match (run, event) {
        (BatchRunView::Reading, EventView::Line(raw)) => {
            if needs_oracle(canonical(raw)) {
                quiet_step(BatchRunView::Asking(canonical(raw)))
            } else {
                quiet_step(run)
            }
        },
        (BatchRunView::Reading, EventView::EndOfInput) => quiet_step(BatchRunView::Finished),
        (BatchRunView::Reading, EventView::ReadFailed) => quiet_step(
            BatchRunView::Failed(Failure::Source),
        ),
        (BatchRunView::Asking(name), EventView::Answer(available)) => StepView {
            run: BatchRunView::Reading,
            output: if available {
                Some(name)
            } else {
                None
            },
            request: RequestView::ReadLine,
        },
        (BatchRunView::Asking(_), EventView::OracleFailed) => quiet_step(
            BatchRunView::Failed(Failure::Oracle),
        ),
        _ => quiet_step(run),
    }
}

/// A line whose canonical name is too short is passed over: the oracle is not
/// asked about it, nothing is written out, and the next line is wanted.
pub proof fn lemma_short_name_is_passed_over(raw: Seq<char>)
    requires
        canonical(raw).len() < MIN_NAME_LENGTH,
    ensures
        step_spec(BatchRunView::Reading, EventView::Line(raw)) == (StepView {
            run: BatchRunView::Reading,
            output: None,
            request: RequestView::ReadLine,
        }),
{
}

/// The oracle is asked about the canonical name of a line, and only where
/// that name is long enough.
pub proof fn lemma_asked_name_is_canonical(raw: Seq<char>, name: Seq<char>)
    requires
        step_spec(BatchRunView::Reading, EventView::Line(raw)).request == RequestView::Ask(name),
    ensures
        name == canonical(raw),
        name.len() >= MIN_NAME_LENGTH,
{
}

/// Nothing is written out but the name that the oracle was asked about, and
/// only on its yes.
pub proof fn lemma_output_is_the_name_found_available(
    run: BatchRunView,
    event: EventView,
    name: Seq<char>,
)
    requires
        step_spec(run, event).output == Some(name),
    ensures
        run == BatchRunView::Asking(name),
        event == EventView::Answer(true),
{
}

/// A run that has ended or failed takes no further part: whatever the event,
/// it stays as it is, writes nothing out and asks for nothing.
pub proof fn lemma_stopped_run_stays(run: BatchRunView, event: EventView)
    requires
        run is Finished || run is Failed,
    ensures
        step_spec(run, event) == quiet_step(run),
        !(step_spec(run, event).request is Ask),
        !(step_spec(run, event).request is ReadLine),
{
}

impl BatchRun {
    /// A run that has read nothing yet. Its first request is `Request::ReadLine`.
    pub fn new() -> (run: BatchRun)
        ensures
            run@ == BatchRunView::Reading,
    {
        BatchRun::Reading
    }

    /// What the driver of this run is to do now.
    pub fn request(&self) -> (request: Request)
        ensures
            request@ == standing_request(self@),
    {
        match self {
            BatchRun::Reading => Request::ReadLine,
            BatchRun::Asking(name) => Request::Ask(name.clone()),
            BatchRun::Finished => Request::Finish,
            BatchRun::Failed(failure) => Request::Abort(*failure),
        }
    }

    /// Takes one event and says where the run stands after it, what is to be
    /// written out, and what is to be done next.
    pub fn step(self, event: Event) -> (next: Step)
        ensures
            next@ == step_spec(self@, event@),
    {
        match self {
            BatchRun::Reading => match event {
                Event::Line(raw) => match plan_lookup(raw.as_str()) {
                    Lookup::Ask(name) => {
                        let asked = name.clone();
                        Step { run: BatchRun::Asking(name), output: None, request: Request::Ask(asked) }
                    },
                    Lookup::Unavailable => Step {
                        run: BatchRun::Reading,
                        output: None,
                        request: Request::ReadLine,
                    },
                },
                Event::EndOfInput => Step {
                    run: BatchRun::Finished,
                    output: None,
                    request: Request::Finish,
                },
                Event::ReadFailed => Step {
                    run: BatchRun::Failed(Failure::Source),
                    output: None,
                    request: Request::Abort(Failure::Source),
                },
                _ => Step { run: BatchRun::Reading, output: None, request: Request::ReadLine },
            },
            BatchRun::Asking(name) => match event {
                Event::Answer(available) => Step {
                    run: BatchRun::Reading,
                    output: if available {
                        Some(name)
                    } else {
                        None
                    },
                    request: Request::ReadLine,
                },
                Event::OracleFailed => Step {
                    run: BatchRun::Failed(Failure::Oracle),
                    output: None,
                    request: Request::Abort(Failure::Oracle),
                },
                _ => {
                    let asked = name.clone();
                    Step { run: BatchRun::Asking(name), output: None, request: Request::Ask(asked) }
                },
            },
            BatchRun::Finished => Step {
                run: BatchRun::Finished,
                output: None,
                request: Request::Finish,
            },
            BatchRun::Failed(failure) => Step {
                run: BatchRun::Failed(failure),
                output: None,
                request: Request::Abort(failure),
            },
        }
    }
}

} // verus!
