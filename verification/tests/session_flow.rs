use query_fuse::format::FileFormat;
use query_fuse::repl::{
    process_exit_code, QueryOutcome, ReplAction, ReplDriver, ReplEvent, ReplState, RunOutcome,
    Termination,
};
use query_fuse::session::Session;
use query_fuse::startup::{plan_startup, StartupError};

fn driver_with(names: &[&str]) -> ReplDriver {
    let mut session = Session::new();
    for n in names {
        session.record_registration(n.to_string());
    }
    ReplDriver::new(session)
}

fn printed(action: ReplAction) -> Vec<String> {
    match action {
        ReplAction::Print(lines) => lines,
        other => panic!("expected printed lines, got {:?}", other),
    }
}

#[test]
fn test_repl_startup_and_meta_commands() {
    // A well-formed self-describing columnar file holding the table
    // `sample`: startup plans its registration, then `.tables` lists it and
    // `.exit` terminates with a success outcome.
    let plan = plan_startup("sample.parquet").unwrap();
    assert_eq!(plan.format, FileFormat::Parquet);
    assert_eq!(plan.table_name, "sample");

    let mut session = Session::new();
    session.record_registration(plan.table_name.clone());
    assert_eq!(session.table_names().len(), 1);

    let mut driver = ReplDriver::new(session);
    let lines = printed(driver.on_read(ReplEvent::Line(".tables".to_string())));
    assert_eq!(lines.len(), 2);
    assert_eq!(lines[0], "Registered Tables:");
    assert!(lines[1].contains("sample"));
    assert_eq!(driver.current(), ReplState::AwaitingInput);

    let action = driver.on_read(ReplEvent::Line(".exit".to_string()));
    assert_eq!(action, ReplAction::Quiet);
    assert_eq!(driver.current(), ReplState::Terminated(Termination::UserExit));
    assert_eq!(
        process_exit_code(&RunOutcome::LoopEnded(Termination::UserExit)),
        0
    );
}

#[test]
fn test_sql_execution() {
    // Query text is forwarded to the engine verbatim; a displayed result
    // prints nothing further here, and `.exit` then ends the run cleanly.
    let query = "SELECT city FROM sample WHERE city = 'Lagos';";
    let mut driver = driver_with(&["sample"]);

    let action = driver.on_read(ReplEvent::Line(query.to_string()));
    assert_eq!(action, ReplAction::SubmitQuery(query.to_string()));
    assert_eq!(driver.current(), ReplState::Executing);

    let lines = driver.on_outcome(QueryOutcome::Displayed);
    assert!(lines.is_empty());
    assert_eq!(driver.current(), ReplState::AwaitingInput);

    driver.on_read(ReplEvent::Line(".exit".to_string()));
    assert_eq!(driver.current(), ReplState::Terminated(Termination::UserExit));
    assert_eq!(
        process_exit_code(&RunOutcome::LoopEnded(Termination::UserExit)),
        0
    );
}

#[test]
fn test_invalid_query_keeps_session_alive() {
    // A rejected query is reported under the error marker and the loop goes
    // on: the next valid command is still processed in the same run.
    let mut driver = driver_with(&["sample"]);

    let action = driver.on_read(ReplEvent::Line("SELEKT * FROM sample".to_string()));
    assert_eq!(
        action,
        ReplAction::SubmitQuery("SELEKT * FROM sample".to_string())
    );

    let lines = driver.on_outcome(QueryOutcome::Rejected(
        "sql parser error: Expected an SQL statement".to_string(),
    ));
    assert_eq!(lines.len(), 1);
    assert!(lines[0].starts_with("SQL Error: "));
    assert!(lines[0].contains("sql parser error"));
    assert_eq!(driver.current(), ReplState::AwaitingInput);

    // The session still answers the next command.
    let lines = printed(driver.on_read(ReplEvent::Line(".tables".to_string())));
    assert_eq!(lines[0], "Registered Tables:");
    assert_eq!(lines[1], "  - sample");
    assert_eq!(driver.current(), ReplState::AwaitingInput);
}

#[test]
fn test_exit_directives_terminate_with_success() {
    for directive in [".exit", ".quit", "exit", "quit", "EXIT", "QUIT", "Exit", "qUiT"] {
        let mut driver = driver_with(&["sample"]);
        let action = driver.on_read(ReplEvent::Line(directive.to_string()));
        assert_eq!(action, ReplAction::Quiet, "directive {:?}", directive);
        assert_eq!(
            driver.current(),
            ReplState::Terminated(Termination::UserExit),
            "directive {:?}",
            directive
        );
    }
    assert_eq!(
        process_exit_code(&RunOutcome::LoopEnded(Termination::UserExit)),
        0
    );
}

#[test]
fn test_unsupported_extension_aborts_startup() {
    // The loop is never entered: planning fails, the message names the
    // rejected extension, and the process outcome is a failure.
    let err = plan_startup("sample.xyz").unwrap_err();
    assert_eq!(err, StartupError::FormatUnsupported("xyz".to_string()));
    let code = process_exit_code(&RunOutcome::StartupFailed(err));
    assert_ne!(code, 0);
}

#[test]
fn test_interrupt_and_eof_acknowledgments() {
    let mut driver = driver_with(&["sample"]);
    let lines = printed(driver.on_read(ReplEvent::Interrupted));
    assert_eq!(lines, vec!["CTRL-C".to_string()]);
    assert_eq!(
        driver.current(),
        ReplState::Terminated(Termination::Interrupted)
    );
    assert_eq!(
        process_exit_code(&RunOutcome::LoopEnded(Termination::Interrupted)),
        0
    );

    let mut driver = driver_with(&["sample"]);
    let lines = printed(driver.on_read(ReplEvent::EndOfInput));
    assert_eq!(lines, vec!["CTRL-D".to_string()]);
    assert_eq!(
        driver.current(),
        ReplState::Terminated(Termination::EndOfInput)
    );
    assert_eq!(
        process_exit_code(&RunOutcome::LoopEnded(Termination::EndOfInput)),
        0
    );
}

#[test]
fn test_read_fault_reported() {
    let mut driver = driver_with(&[]);
    let lines = printed(driver.on_read(ReplEvent::ReadFault("device lost".to_string())));
    assert_eq!(lines, vec!["Error: device lost".to_string()]);
    assert_eq!(
        driver.current(),
        ReplState::Terminated(Termination::ReadFault)
    );
    assert_eq!(
        process_exit_code(&RunOutcome::LoopEnded(Termination::ReadFault)),
        0
    );
}

#[test]
fn test_blank_line_no_op() {
    let mut driver = driver_with(&["sample"]);
    let action = driver.on_read(ReplEvent::Line("   ".to_string()));
    assert_eq!(action, ReplAction::Quiet);
    assert_eq!(driver.current(), ReplState::AwaitingInput);
    assert_eq!(driver.registered_tables().len(), 1);
}

#[test]
fn test_unknown_meta_command_notice() {
    let mut driver = driver_with(&["sample"]);
    let lines = printed(driver.on_read(ReplEvent::Line(" .schema ".to_string())));
    assert_eq!(
        lines,
        vec!["Unknown command: '.schema'. Type .help for instructions.".to_string()]
    );
    assert_eq!(driver.current(), ReplState::AwaitingInput);
}

#[test]
fn test_display_failure_reported_not_fatal() {
    let mut driver = driver_with(&["sample"]);
    driver.on_read(ReplEvent::Line("SELECT 1".to_string()));
    let lines = driver.on_outcome(QueryOutcome::DisplayFailed("broken pipe".to_string()));
    assert_eq!(
        lines,
        vec!["Error displaying results: broken pipe".to_string()]
    );
    assert_eq!(driver.current(), ReplState::AwaitingInput);
}

#[test]
fn test_registry_untouched_by_queries() {
    let mut driver = driver_with(&["sample"]);
    driver.on_read(ReplEvent::Line("DROP TABLE sample".to_string()));
    driver.on_outcome(QueryOutcome::Rejected("not allowed".to_string()));
    driver.on_read(ReplEvent::Line("SELECT 1".to_string()));
    driver.on_outcome(QueryOutcome::Displayed);
    let names = driver.registered_tables();
    assert_eq!(names.len(), 1);
    assert_eq!(names[0], "sample");
}

#[test]
fn test_help_meta_command_prints_reference() {
    let mut driver = driver_with(&[]);
    let lines = printed(driver.on_read(ReplEvent::Line(".help".to_string())));
    assert_eq!(lines.len(), 5);
    assert_eq!(lines[0], "Available commands:");
    assert_eq!(driver.current(), ReplState::AwaitingInput);
}
