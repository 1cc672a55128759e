//! The read-eval-print loop as a state machine, and the session that takes
//! its decisions. A line is read and split into statement and destination;
//! the caller has the statement executed and hands back what that gave; the
//! session has the result rendered and, when asked for, exported; then the
//! next line is read.

use crate::directive::{parse_directive, parsed};
use crate::query::{answer_of, path_view, Answer};
use crate::store::{ResultSet, StatementError};
use vstd::prelude::*;

verus! {

/// Where the loop stands.
#[derive(Debug, Clone, Copy, PartialEq, Eq, Structural)]
pub enum Phase {
    /// Waiting for a line.
    Reading,
    /// A line was read and is being split.
    Dispatching,
    /// The statement runs against the store.
    Executing,
    /// The result is laid out and drawn.
    Rendering,
    /// The table is written as CSV.
    Exporting,
    /// The loop has ended.
    Stopped,
}

/// What happened in a phase.
#[derive(Debug, Clone, Copy, PartialEq, Eq, Structural)]
pub enum Event {
    /// The input source gave a line.
    LineRead,
    /// The input source was interrupted.
    Interrupted,
    /// The input source is at its end.
    EndOfInput,
    /// The input source failed in another way.
    ReadFailed,
    /// The line was split into statement and destination.
    Dispatched,
    /// The engine refused the statement or failed while running it.
    StatementFailed,
    /// The statement ran and its rows were read.
    StatementDone,
    /// The table was drawn; the line asked for no export.
    Rendered,
    /// The table was drawn; the line asked for an export.
    RenderedForExport,
    /// The table was written as CSV.
    Exported,
    /// The table could not be written as CSV.
    ExportFailed,
}

/// The phase that follows `phase` on `event`. An event that a phase does not
/// expect changes nothing; in particular nothing leaves `Stopped`.
pub open spec fn next_phase(phase: Phase, event: Event) -> Phase {
    match (phase, event) {
        (Phase::Reading, Event::LineRead) => Phase::Dispatching,
        (Phase::Reading, Event::Interrupted) => Phase::Stopped,
        (Phase::Reading, Event::EndOfInput) => Phase::Stopped,
        (Phase::Reading, Event::ReadFailed) => Phase::Stopped,
        (Phase::Dispatching, Event::Dispatched) => Phase::Executing,
        (Phase::Executing, Event::StatementFailed) => Phase::Reading,
        (Phase::Executing, Event::StatementDone) => Phase::Rendering,
        (Phase::Rendering, Event::Rendered) => Phase::Reading,
        (Phase::Rendering, Event::RenderedForExport) => Phase::Exporting,
        (Phase::Exporting, Event::Exported) => Phase::Reading,
        (Phase::Exporting, Event::ExportFailed) => Phase::Reading,
        _ => phase,
    }
}

/// The phase reached from `phase` after `events`, in order.
pub open spec fn phase_after(phase: Phase, events: Seq<Event>) -> Phase
    decreases events.len(),
{
    if events.len() == 0 {
        phase
    } else {
        next_phase(phase_after(phase, events.drop_last()), events.last())
    }
}

/// The exit code of the process once the loop is in `phase`: 0 when it has
/// stopped, none while it runs.
pub open spec fn exit_code(phase: Phase) -> Option<i32> {
    match phase {
        Phase::Stopped => Some(0i32),
        _ => None,
    }
}

/// Computes [`next_phase`].
pub fn step(phase: Phase, event: Event) -> (next: Phase)
    ensures
        next == next_phase(phase, event),
{
    match (phase, event) {
        (Phase::Reading, Event::LineRead) => Phase::Dispatching,
        (Phase::Reading, Event::Interrupted) => Phase::Stopped,
        (Phase::Reading, Event::EndOfInput) => Phase::Stopped,
        (Phase::Reading, Event::ReadFailed) => Phase::Stopped,
        (Phase::Dispatching, Event::Dispatched) => Phase::Executing,
        (Phase::Executing, Event::StatementFailed) => Phase::Reading,
        (Phase::Executing, Event::StatementDone) => Phase::Rendering,
        (Phase::Rendering, Event::Rendered) => Phase::Reading,
        (Phase::Rendering, Event::RenderedForExport) => Phase::Exporting,
        (Phase::Exporting, Event::Exported) => Phase::Reading,
        (Phase::Exporting, Event::ExportFailed) => Phase::Reading,
        _ => phase,
    }
}

/// Computes [`exit_code`].
pub fn exit_status(phase: Phase) -> (code: Option<i32>)
    ensures
        code == exit_code(phase),
{
    match phase {
        Phase::Stopped => Some(0i32),
        _ => None,
    }
}

/// What the input source gave when it was asked for a line.
#[derive(Debug)]
pub enum Input {
    Line(String),
    Interrupted,
    EndOfInput,
    Failed,
}

/// What the caller is to do next.
#[derive(Debug)]
pub enum Action {
    /// Execute this statement and hand back what it gave.
    Execute(String),
    /// End the process with this exit code.
    Exit(i32),
    /// Nothing: the session was not waiting for a line.
    Nothing,
}

/// How the execution of a statement ended.
#[derive(Debug)]
pub enum Turn {
    /// The statement ran; here is what to print and to write.
    Answered(Answer),
    /// The statement failed; the line is discarded.
    Rejected(StatementError),
    /// The session was not executing a statement; nothing was done.
    NotExecuting,
}

/// The events of an execution that ended as `turn`.
pub open spec fn events_of(turn: Turn) -> Seq<Event> {
    match turn {
        Turn::Rejected(_) => seq![Event::StatementFailed],
        Turn::Answered(answer) => match answer.export {
            None => seq![Event::StatementDone, Event::Rendered],
            Some(export) => seq![
                Event::StatementDone,
                Event::RenderedForExport,
                if export.content is Ok {
                    Event::Exported
                } else {
                    Event::ExportFailed
                },
            ],
        },
        Turn::NotExecuting => Seq::empty(),
    }
}

/// The state of the loop: its phase, the lines read so far, and the
/// destination that the line being executed asked for.
#[derive(Debug)]
pub struct Session {
    pub phase: Phase,
    pub history: Vec<String>,
    pub destination: Option<String>,
}

impl Session {
    /// Whether `next` is this session after it took `line`: the line is
    /// appended to the history, its destination is kept, and the statement is
    /// being executed.
    pub open spec fn took_line(self, line: String, next: Session) -> bool {
        &&& next.phase == Phase::Executing
        &&& next.phase == phase_after(self.phase, seq![Event::LineRead, Event::Dispatched])
        &&& next.history@ == self.history@.push(line)
        &&& path_view(next.destination) == parsed(line@).destination
    }

    /// Whether `next` is this session after the input source gave no line:
    /// the loop has stopped, with exit code 0, and the history is as it was.
    pub open spec fn stopped(self, next: Session) -> bool {
        &&& next.phase == Phase::Stopped
        &&& exit_code(next.phase) == Some(0i32)
        &&& next.history@ == self.history@
    }

    /// Whether `next` is this session after the execution of its statement
    /// ended: it waits for the next line, the history is as it was, and no
    /// destination is kept.
    pub open spec fn resumed(self, next: Session) -> bool {
        &&& next.phase == Phase::Reading
        &&& exit_code(next.phase) is None
        &&& next.history@ == self.history@
        &&& next.destination is None
    }

    /// A session that waits for its first line.
    pub fn new() -> (session: Session)
        ensures
            session.phase == Phase::Reading,
            session.history@ == Seq::<String>::empty(),
            session.destination is None,
    {
        Session { phase: Phase::Reading, history: Vec::new(), destination: None }
    }

    /// Takes what the input source gave.
    ///
    /// A line is appended to the history, whatever becomes of it, and split:
    /// the statement is handed out to be executed, the destination is kept.
    /// Anything else from the input source stops the loop, with exit code 0.
    /// A session that is not waiting for a line is left as it is.
    pub fn read(&mut self, input: Input) -> (action: Action)
        ensures
            old(self).phase != Phase::Reading ==> action is Nothing && *final(self) == *old(self),
            old(self).phase == Phase::Reading ==> match input {
                Input::Line(line) => {
                    &&& old(self).took_line(line, *final(self))
                    &&& action matches Action::Execute(sql) && sql@ == parsed(line@).sql_text
                },
                _ => {
                    &&& old(self).stopped(*final(self))
                    &&& action matches Action::Exit(code) && exit_code(final(self).phase) == Some(
                        code,
                    )
                },
            },
    {
        if self.phase != Phase::Reading {
            return Action::Nothing;
        }
        reveal_with_fuel(phase_after, 3);
        match input {
            Input::Interrupted => {
                self.phase = step(self.phase, Event::Interrupted);
                Action::Exit(0)
            },
            Input::EndOfInput => {
                self.phase = step(self.phase, Event::EndOfInput);
                Action::Exit(0)
            },
            Input::Failed => {
                self.phase = step(self.phase, Event::ReadFailed);
                Action::Exit(0)
            },
            Input::Line(line) => {
                self.phase = step(self.phase, Event::LineRead);
                let directive = parse_directive(line.as_str());
                self.history.push(line);
                self.destination = directive.destination;
                self.phase = step(self.phase, Event::Dispatched);
                Action::Execute(directive.sql_text)
            },
        }
    }

    /// Takes what executing the statement gave.
    ///
    /// A result set is presented, with the destination that the line asked
    /// for; an error is handed on as it is and the line is discarded. Either
    /// way the session waits for the next line afterwards. A session that is
    /// not executing a statement is left as it is.
    pub fn answer(&mut self, fetched: Result<ResultSet, StatementError>) -> (turn: Turn)
        ensures
            old(self).phase != Phase::Executing ==> turn is NotExecuting && *final(self) == *old(
                self,
            ),
            old(self).phase == Phase::Executing ==> {
                &&& old(self).resumed(*final(self))
                &&& final(self).phase == phase_after(Phase::Executing, events_of(turn))
                &&& match fetched {
                    Ok(result) => turn matches Turn::Answered(answer) && answer.result == result
                        && answer.presents(path_view(old(self).destination)),
                    Err(e) => turn matches Turn::Rejected(cause) && cause == e,
                }
            },
    {
        if self.phase != Phase::Executing {
            return Turn::NotExecuting;
        }
        reveal_with_fuel(phase_after, 4);
        let destination = self.destination.take();
        match answer_of(fetched, destination) {
            Err(e) => {
                self.phase = step(self.phase, Event::StatementFailed);
                Turn::Rejected(e)
            },
            Ok(answer) => {
                self.phase = step(self.phase, Event::StatementDone);
                match &answer.export {
                    None => {
                        self.phase = step(self.phase, Event::Rendered);
                    },
                    Some(export) => {
                        self.phase = step(self.phase, Event::RenderedForExport);
                        if export.content.is_ok() {
                            self.phase = step(self.phase, Event::Exported);
                        } else {
                            self.phase = step(self.phase, Event::ExportFailed);
                        }
                    },
                }
                Turn::Answered(answer)
            },
        }
    }
}

/// A line whose statement fails stays in the history, and the loop waits for
/// the next line: the session that took the line and then learned of the
/// failure has the line as the last of its history, is in `Reading`, and has
/// no exit code.
pub proof fn lemma_failed_line_stays_in_history(
    before: Session,
    line: String,
    executing: Session,
    after: Session,
)
    requires
        before.phase == Phase::Reading,
        before.took_line(line, executing),
        executing.resumed(after),
    ensures
        after.history@ == before.history@.push(line),
        after.history@.last() == line,
        after.phase == Phase::Reading,
        exit_code(after.phase) is None,
        phase_after(
            before.phase,
            seq![Event::LineRead, Event::Dispatched, Event::StatementFailed],
        ) == Phase::Reading,
{
    reveal_with_fuel(phase_after, 4);
}

/// An interrupt while the loop waits for a line stops it, with exit code 0.
/// So do the end of the input and any other failure to read.
pub proof fn lemma_no_line_stops_the_loop(event: Event)
    requires
        event == Event::Interrupted || event == Event::EndOfInput || event == Event::ReadFailed,
    ensures
        next_phase(Phase::Reading, event) == Phase::Stopped,
        exit_code(next_phase(Phase::Reading, event)) == Some(0i32),
{
}

/// A statement that fails does not end the loop: it waits for the next line.
pub proof fn lemma_failed_statement_resumes()
    ensures
        next_phase(Phase::Executing, Event::StatementFailed) == Phase::Reading,
        exit_code(next_phase(Phase::Executing, Event::StatementFailed)) is None,
{
}

/// Only the input source stops the loop: a step into `Stopped` starts in
/// `Reading`, on an event that is not a line.
pub proof fn lemma_only_input_stops(phase: Phase, event: Event)
    requires
        phase != Phase::Stopped,
        next_phase(phase, event) == Phase::Stopped,
    ensures
        phase == Phase::Reading,
        event == Event::Interrupted || event == Event::EndOfInput || event == Event::ReadFailed,
{
}

/// Nothing leaves `Stopped`.
pub proof fn lemma_stopped_is_final(events: Seq<Event>)
    ensures
        phase_after(Phase::Stopped, events) == Phase::Stopped,
    decreases events.len(),
{
    if events.len() > 0 {
        lemma_stopped_is_final(events.drop_last());
    }
}

} // verus!
