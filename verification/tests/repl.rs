use rusqlite::Connection;
use sheet_query::cell::Cell;
use sheet_query::repl::{exit_status, step, Action, Event, Input, Phase, Session, Turn};
use sheet_query::store::{fetch, prepare_statement, ResultSet, StatementError};

fn memory() -> Connection {
    Connection::open_in_memory().expect("an in-memory store")
}

fn execute(connection: &Connection, sql: &str) -> Result<ResultSet, StatementError> {
    let mut statement = prepare_statement(connection, sql)?;
    let names = statement.column_names().into_iter().map(|name| name.to_string()).collect();
    fetch(&mut statement, names)
}

fn turn(session: &mut Session, connection: &Connection, line: &str) -> Turn {
    match session.read(Input::Line(line.to_string())) {
        Action::Execute(sql) => session.answer(execute(connection, &sql)),
        other => panic!("the line was not taken: {:?}", other),
    }
}

#[test]
fn new_session_waits_for_a_line() {
    let session = Session::new();
    assert_eq!(session.phase, Phase::Reading);
    assert!(session.history.is_empty());
    assert_eq!(session.destination, None);
    assert_eq!(exit_status(session.phase), None);
}

#[test]
fn interrupt_while_reading_stops_with_exit_code_0() {
    let mut session = Session::new();
    let action = session.read(Input::Interrupted);
    assert!(matches!(action, Action::Exit(0)));
    assert_eq!(session.phase, Phase::Stopped);
    assert_eq!(exit_status(session.phase), Some(0));
    assert!(session.history.is_empty());
}

#[test]
fn end_of_input_and_read_failure_stop_too() {
    for input in [Input::EndOfInput, Input::Failed] {
        let mut session = Session::new();
        assert!(matches!(session.read(input), Action::Exit(0)));
        assert_eq!(session.phase, Phase::Stopped);
        assert_eq!(exit_status(session.phase), Some(0));
    }
}

#[test]
fn line_is_split_into_statement_and_destination() {
    let mut session = Session::new();
    let action = session.read(Input::Line("SELECT 1 |out= /tmp/a.csv ".to_string()));
    match action {
        Action::Execute(sql) => assert_eq!(sql, "SELECT 1 "),
        other => panic!("the line was not taken: {:?}", other),
    }
    assert_eq!(session.phase, Phase::Executing);
    assert_eq!(session.destination, Some("/tmp/a.csv".to_string()));
    assert_eq!(session.history, vec!["SELECT 1 |out= /tmp/a.csv "]);
}

#[test]
fn failed_statement_stays_in_the_history_and_the_loop_goes_on() {
    let connection = memory();
    let mut session = Session::new();
    let line = "SELECT * FROM no_such_table";
    let rejected = turn(&mut session, &connection, line);
    assert!(matches!(rejected, Turn::Rejected(StatementError::Prepare(_))));
    assert_eq!(session.history, vec![line]);
    assert_eq!(session.phase, Phase::Reading);
    assert_eq!(exit_status(session.phase), None);

    let answered = turn(&mut session, &connection, "SELECT 1");
    assert!(matches!(answered, Turn::Answered(_)));
    assert_eq!(session.history, vec![line, "SELECT 1"]);
    assert_eq!(session.phase, Phase::Reading);
}

#[test]
fn error_of_the_execution_is_handed_on_as_it_is() {
    let mut session = Session::new();
    session.read(Input::Line("anything |out=x.csv".to_string()));
    let rejected = session.answer(Err(StatementError::ColumnNames { columns: 2, names: 0 }));
    assert!(matches!(
        rejected,
        Turn::Rejected(StatementError::ColumnNames { columns: 2, names: 0 })
    ));
    assert_eq!(session.phase, Phase::Reading);
    assert_eq!(session.destination, None);
    assert_eq!(session.history, vec!["anything |out=x.csv"]);
}

#[test]
fn every_line_is_appended_to_the_history() {
    let connection = memory();
    let mut session = Session::new();
    let lines = ["SELECT 1", "SELECT 1", "", " ", "nonsense", "SELECT 2 |out=/tmp/x.csv"];
    for line in lines {
        turn(&mut session, &connection, line);
        assert_eq!(session.phase, Phase::Reading);
    }
    assert_eq!(session.history, lines);
}

#[test]
fn line_with_marker_is_answered_with_an_export() {
    let connection = memory();
    let mut session = Session::new();
    let answer = match turn(&mut session, &connection, "SELECT 1234 AS n |out= /tmp/n.csv") {
        Turn::Answered(answer) => answer,
        other => panic!("no answer: {:?}", other),
    };
    assert_eq!(answer.table.row(1), Some(vec!["1,234".to_string()]));
    let export = answer.export.expect("an export");
    assert_eq!(export.destination, "/tmp/n.csv");
    assert_eq!(export.content.expect("rows of equal width"), b"n\n1234\n".to_vec());
    assert_eq!(session.destination, None);
}

#[test]
fn line_without_marker_is_answered_without_export() {
    let connection = memory();
    let mut session = Session::new();
    let answer = match turn(&mut session, &connection, "SELECT 'a' AS t") {
        Turn::Answered(answer) => answer,
        other => panic!("no answer: {:?}", other),
    };
    assert_eq!(answer.text, "+---+\n| t |\n+---+\n| a |\n+---+\n");
    assert!(answer.export.is_none());
}

#[test]
fn result_set_handed_back_is_the_one_presented() {
    let mut session = Session::new();
    session.read(Input::Line("SELECT n |out=n.csv".to_string()));
    let set = ResultSet { columns: vec!["n".to_string()], rows: vec![vec![Ok(Cell::Integer(7))]] };
    let answer = match session.answer(Ok(set)) {
        Turn::Answered(answer) => answer,
        other => panic!("no answer: {:?}", other),
    };
    assert_eq!(answer.result.rows, vec![vec![Ok(Cell::Integer(7))]]);
    assert_eq!(answer.table.row(0), Some(vec!["n".to_string()]));
    assert_eq!(answer.export.expect("an export").destination, "n.csv");
}

#[test]
fn stopped_session_does_nothing() {
    let connection = memory();
    let mut session = Session::new();
    turn(&mut session, &connection, "SELECT 1");
    session.read(Input::EndOfInput);
    for input in [Input::Line("SELECT 2".to_string()), Input::Interrupted, Input::EndOfInput] {
        assert!(matches!(session.read(input), Action::Nothing));
        assert_eq!(session.phase, Phase::Stopped);
        assert_eq!(session.history, vec!["SELECT 1"]);
    }
    assert!(matches!(session.answer(Err(StatementError::TooManyRows)), Turn::NotExecuting));
    assert_eq!(session.phase, Phase::Stopped);
}

#[test]
fn session_takes_each_thing_in_its_phase_only() {
    let mut session = Session::new();
    assert!(matches!(session.answer(Err(StatementError::TooManyRows)), Turn::NotExecuting));
    assert_eq!(session.phase, Phase::Reading);
    session.read(Input::Line("SELECT 1".to_string()));
    assert!(matches!(session.read(Input::Line("SELECT 2".to_string())), Action::Nothing));
    assert!(matches!(session.read(Input::Interrupted), Action::Nothing));
    assert_eq!(session.phase, Phase::Executing);
    assert_eq!(session.history, vec!["SELECT 1"]);
}

#[test]
fn phases_follow_one_another() {
    assert_eq!(step(Phase::Reading, Event::LineRead), Phase::Dispatching);
    assert_eq!(step(Phase::Reading, Event::Interrupted), Phase::Stopped);
    assert_eq!(step(Phase::Reading, Event::EndOfInput), Phase::Stopped);
    assert_eq!(step(Phase::Reading, Event::ReadFailed), Phase::Stopped);
    assert_eq!(step(Phase::Dispatching, Event::Dispatched), Phase::Executing);
    assert_eq!(step(Phase::Executing, Event::StatementFailed), Phase::Reading);
    assert_eq!(step(Phase::Executing, Event::StatementDone), Phase::Rendering);
    assert_eq!(step(Phase::Rendering, Event::Rendered), Phase::Reading);
    assert_eq!(step(Phase::Rendering, Event::RenderedForExport), Phase::Exporting);
    assert_eq!(step(Phase::Exporting, Event::Exported), Phase::Reading);
    assert_eq!(step(Phase::Exporting, Event::ExportFailed), Phase::Reading);
}

#[test]
fn unexpected_event_changes_nothing() {
    let events = [
        Event::LineRead,
        Event::Interrupted,
        Event::EndOfInput,
        Event::ReadFailed,
        Event::Dispatched,
        Event::StatementFailed,
        Event::StatementDone,
        Event::Rendered,
        Event::RenderedForExport,
        Event::Exported,
        Event::ExportFailed,
    ];
    for event in events {
        assert_eq!(step(Phase::Stopped, event), Phase::Stopped);
    }
    assert_eq!(step(Phase::Executing, Event::Interrupted), Phase::Executing);
    assert_eq!(step(Phase::Rendering, Event::LineRead), Phase::Rendering);
    assert_eq!(step(Phase::Dispatching, Event::StatementDone), Phase::Dispatching);
    assert_eq!(step(Phase::Exporting, Event::Rendered), Phase::Exporting);
}

#[test]
fn exit_code_is_known_only_once_stopped() {
    assert_eq!(exit_status(Phase::Stopped), Some(0));
    for phase in
        [Phase::Reading, Phase::Dispatching, Phase::Executing, Phase::Rendering, Phase::Exporting]
    {
        assert_eq!(exit_status(phase), None);
    }
}
