use calendar::query::{Limit, Window};
use calendar::rows::{assemble_event, assemble_events, written, EventRecord, Payload};
use calendar::event_row::EventRow;
use calendar::session::decide;
use calendar::transaction::{Action, Mutation, Outcome, Progress, Statement, Transaction};
use calendar::{
    Access, ApiError, ApiSettings, Employee, Environment, Event, EventsQuery, LogLevel,
    PostgresError, PsqlSettings, Response, Session, SessionRead, Settings, Team,
};

fn run(mutation: Mutation, outcomes: &[Outcome]) -> (Vec<Action>, Transaction) {
    let mut transaction = Transaction::start(mutation);
    let mut actions = Vec::new();
    for outcome in outcomes {
        actions.push(transaction.action());
        transaction.advance(*outcome);
    }
    (actions, transaction)
}

#[test]
fn update_runs_its_five_statements_in_order() {
    let done = Outcome::Done(1);
    let (actions, end) = run(Mutation::Update, &[done, done, Outcome::Done(3), done, done]);
    assert_eq!(
        actions,
        vec![
            Action::Run(Statement::Begin),
            Action::Run(Statement::WriteEvent),
            Action::Run(Statement::ClearParticipants),
            Action::Run(Statement::WriteParticipants),
            Action::Run(Statement::Commit),
        ]
    );
    assert_eq!(end.progress, Progress::Committed);
    assert_eq!(end.action(), Action::Finish(Ok(())));
}

#[test]
fn create_skips_the_delete_of_participants() {
    let done = Outcome::Done(1);
    let (actions, end) = run(Mutation::Create, &[done, done, Outcome::Done(0), done]);
    assert_eq!(
        actions,
        vec![
            Action::Run(Statement::Begin),
            Action::Run(Statement::WriteEvent),
            Action::Run(Statement::WriteParticipants),
            Action::Run(Statement::Commit),
        ]
    );
    assert_eq!(end.action(), Action::Finish(Ok(())));
}

#[test]
fn failed_participants_roll_the_update_back() {
    let done = Outcome::Done(1);
    let (actions, end) = run(
        Mutation::Update,
        &[done, done, done, Outcome::Failed, Outcome::Done(0), done],
    );
    assert_eq!(actions[4], Action::Rollback);
    assert_eq!(actions[5], Action::Finish(Err(PostgresError::Query)));
    assert_eq!(end.progress, Progress::Aborted(PostgresError::Query));
    assert!(!actions.contains(&Action::Run(Statement::Commit)));
}

#[test]
fn update_that_reaches_no_row_is_rolled_back() {
    let (actions, end) =
        run(Mutation::Update, &[Outcome::Done(0), Outcome::Done(0), Outcome::Done(0)]);
    assert_eq!(actions[2], Action::Rollback);
    assert_eq!(end.action(), Action::Finish(Err(PostgresError::NotFoundOrConflict)));
}

#[test]
fn failed_begin_and_commit_are_transaction_failures() {
    let (_, end) = run(Mutation::Create, &[Outcome::Failed]);
    assert_eq!(end.action(), Action::Finish(Err(PostgresError::Transaction)));

    let done = Outcome::Done(1);
    let (_, end) = run(Mutation::Create, &[done, done, done, Outcome::Failed]);
    assert_eq!(end.action(), Action::Finish(Err(PostgresError::Transaction)));

    let (actions, end) = run(Mutation::Create, &[done, Outcome::Failed, done]);
    assert_eq!(actions[2], Action::Rollback);
    assert_eq!(end.action(), Action::Finish(Err(PostgresError::Query)));
}

#[test]
fn finished_transaction_stays_finished() {
    let done = Outcome::Done(1);
    let (_, mut end) = run(Mutation::Create, &[done, done, done, done]);
    end.advance(Outcome::Failed);
    assert_eq!(end.progress, Progress::Committed);
}

fn row(id: i64) -> EventRow {
    EventRow { id, title: "t".into(), details: "d".into(), start: 1, end: 2, team_id: None }
}

fn some_team() -> Team {
    Team {
        id: 4,
        name: "team".into(),
        primary_color: "black".into(),
        secondary_color: "white".into(),
        disabled: false,
    }
}

fn some_employee() -> Employee {
    Employee { id: 9, name: "e".into(), color: "red".into(), disabled: true }
}

#[test]
fn well_formed_records_become_events() {
    let records = vec![
        EventRecord { row: row(1), team: None, employees: Payload::Parsed(vec![]) },
        EventRecord {
            row: row(2),
            team: Some(Payload::Parsed(some_team())),
            employees: Payload::Parsed(vec![some_employee()]),
        },
    ];
    let events = assemble_events(&records).unwrap();
    assert_eq!(
        events,
        vec![
            Event {
                id: 1,
                title: "t".into(),
                details: "d".into(),
                start: 1,
                end: 2,
                team: None,
                employees: vec![],
            },
            Event {
                id: 2,
                title: "t".into(),
                details: "d".into(),
                start: 1,
                end: 2,
                team: Some(some_team()),
                employees: vec![some_employee()],
            },
        ]
    );
}

#[test]
fn one_malformed_payload_fails_the_listing() {
    let records = vec![
        EventRecord { row: row(1), team: None, employees: Payload::Parsed(vec![]) },
        EventRecord { row: row(2), team: Some(Payload::Malformed), employees: Payload::Parsed(vec![]) },
    ];
    assert_eq!(assemble_events(&records), Err(PostgresError::DataConversion));

    let records =
        vec![EventRecord { row: row(1), team: None, employees: Payload::Malformed }];
    assert_eq!(assemble_events(&records), Err(PostgresError::DataConversion));
    assert_eq!(assemble_event(&records[0]), None);
    assert_eq!(assemble_events(&Vec::new()), Ok(vec![]));
}

#[test]
fn a_write_is_judged_by_the_rows_it_reached() {
    assert_eq!(written(1), Ok(()));
    assert_eq!(written(0), Err(PostgresError::NotFoundOrConflict));
    assert_eq!(written(2), Err(PostgresError::NotFoundOrConflict));
}

#[test]
fn query_without_bounds_has_no_window() {
    assert_eq!(EventsQuery { start: None, end: None }.range(), None);
    assert_eq!(
        EventsQuery { start: Some(5), end: None }.range(),
        Some(Window { start: Limit::Included(5), end: Limit::Unbounded })
    );
    assert_eq!(
        EventsQuery { start: None, end: Some(7) }.range(),
        Some(Window { start: Limit::Unbounded, end: Limit::Included(7) })
    );
    assert_eq!(
        EventsQuery { start: Some(5), end: Some(7) }.range(),
        Some(Window { start: Limit::Included(5), end: Limit::Included(7) })
    );
}

#[test]
fn overlap_is_inclusive() {
    let query = EventsQuery { start: Some(10), end: Some(20) };
    assert!(query.overlaps(20, 30));
    assert!(query.overlaps(0, 10));
    assert!(query.overlaps(0, 100));
    assert!(query.overlaps(12, 13));
    assert!(!query.overlaps(21, 30));
    assert!(!query.overlaps(0, 9));
    assert!(EventsQuery { start: None, end: None }.overlaps(i64::MIN, i64::MAX));
    assert!(EventsQuery { start: Some(i64::MAX), end: None }.overlaps(0, i64::MAX));
    assert!(!EventsQuery { start: None, end: Some(i64::MIN) }.overlaps(i64::MIN + 1, 0));
}

#[test]
fn the_guard_lets_only_a_true_flag_through() {
    assert_eq!(decide(SessionRead::Flag(Some(true))), Access::Granted);
    assert_eq!(decide(SessionRead::Flag(Some(false))), Access::Unauthorized);
    assert_eq!(decide(SessionRead::Flag(None)), Access::Unauthorized);
    assert_eq!(decide(SessionRead::Broken), Access::Failed);

    let mut session = Session::new();
    assert_eq!(session.access(), Access::Unauthorized);
    session.login(false);
    assert_eq!(session, Session::new());
    session.login(true);
    assert_eq!(session.access(), Access::Granted);
    assert!(session.logged_in());
    session.logout();
    assert_eq!(session.access(), Access::Unauthorized);
    assert!(!Session { authenticated: Some(false) }.logged_in());
}

fn api(ip: &str, port: u16, secret_key: Option<&str>) -> ApiSettings {
    ApiSettings {
        ip: ip.into(),
        port,
        num_workers: Some(1),
        secret_key: secret_key.map(|k| k.to_string()),
    }
}

#[test]
fn listener_address_is_ip_colon_port() {
    assert_eq!(api("127.0.0.1", 8080, None).listener_address(), "127.0.0.1:8080");
    assert_eq!(api("127.0.0.1", 0, None).listener_address(), "127.0.0.1:0");
    assert_eq!(api("0.0.0.0", 65535, None).listener_address(), "0.0.0.0:65535");
    assert_eq!(api("::1", 9, None).listener_address(), "::1:9");
    assert_eq!(api("host", 1000, None).listener_address(), "host:1000");
    assert_eq!(calendar::settings::port_text(5200), "5200");
}

#[test]
fn sessions_need_a_secret_key() {
    assert!(api("h", 1, Some("0123456789_0123456789_0123456789")).sessions_enabled());
    assert!(!api("h", 1, None).sessions_enabled());
}

#[test]
fn environments_are_named_and_parsed() {
    let all =
        [Environment::Test, Environment::Local, Environment::Avskjerming, Environment::Td];
    for environment in all {
        assert_eq!(Environment::parse(&environment.name()), Some(environment));
    }
    assert_eq!(Environment::parse("Td"), Some(Environment::Td));
    assert_eq!(Environment::parse("td"), None);
    assert_eq!(Environment::parse(""), None);
    assert_eq!(Environment::Avskjerming.name(), "Avskjerming");
    assert_eq!(Environment::Avskjerming.config_file(), "config/avskjerming");
    assert_eq!(Environment::Test.config_file(), "config/test");
    assert_eq!(Environment::Local.config_file(), "config/local");
    assert_eq!(Environment::Td.config_file(), "config/td");
    assert_eq!(Environment::Td.allowed_origin(), Some("https://calendar.hilbertsen.com"));
    assert_eq!(Environment::Local.allowed_origin(), None);
    assert!(!Environment::Test.migrates());
    assert!(Environment::Local.migrates());
    assert_eq!(LogLevel::Debug.name(), "Debug");
}

fn settings(environment: Environment) -> Settings {
    Settings {
        log_level: LogLevel::Debug,
        environment,
        api: api("127.0.0.1", 0, Some("from file")),
        postgres: PsqlSettings {
            ip: "db".into(),
            port: 5432,
            db_name: Some("template1".into()),
            username: "postgres".into(),
            password: "from file".into(),
            max_connections: 1,
        },
    }
}

#[test]
fn secrets_come_from_the_environment_where_it_says_so() {
    let local = settings(Environment::Local).with_secrets(None, None);
    assert_eq!(local.postgres.password, "from file");
    assert_eq!(local.api.secret_key.as_deref(), Some("from file"));

    let local = settings(Environment::Test)
        .with_secrets(Some("ignored".to_string()), Some("ignored".to_string()));
    assert_eq!(local.postgres.password, "from file");
    assert_eq!(local.api.secret_key.as_deref(), Some("from file"));

    let shielded =
        settings(Environment::Avskjerming).with_secrets(Some("pg".to_string()), None);
    assert_eq!(shielded.postgres.password, "pg");
    assert_eq!(shielded.api.secret_key.as_deref(), Some("from file"));

    let td = settings(Environment::Td)
        .with_secrets(Some("pg".to_string()), Some("key".to_string()));
    assert_eq!(td.postgres.password, "pg");
    assert_eq!(td.api.secret_key.as_deref(), Some("key"));
    assert_eq!(td.postgres.username, "postgres");
    assert_eq!(td.api.port, 0);
}

#[test]
fn envelope_carries_a_result_or_an_error() {
    let ok = Response::success(5i64);
    assert!(ok.success);
    assert_eq!(ok.result, Some(5));
    assert_eq!(ok.error, None);

    let body = Response::new(vec![1, 2]);
    assert!(body.success);
    assert_eq!(body.result, Some(vec![1, 2]));
    assert_eq!(body.error, None);

    let failed = Response::<i64>::error("Could not get events".to_string());
    assert!(!failed.success);
    assert_eq!(failed.result, None);
    assert_eq!(failed.error.as_deref(), Some("Could not get events"));

    let wrapped = Response::from_result(Err::<bool, String>("Unauthorized".to_string()));
    assert!(!wrapped.success);
    assert_eq!(wrapped.error.as_deref(), Some("Unauthorized"));
    let wrapped = Response::from_result(Ok::<bool, String>(true));
    assert_eq!(wrapped.result, Some(true));
}

#[test]
fn clients_see_one_generic_failure() {
    let causes = [
        PostgresError::Connection,
        PostgresError::Transaction,
        PostgresError::Query,
        PostgresError::DataConversion,
        PostgresError::NotFoundOrConflict,
    ];
    for cause in causes {
        let error = ApiError::from_store(cause);
        assert_eq!(error, ApiError::InternalServerError);
        assert_eq!(error.status_code(), 500);
        assert_eq!(error.description(), "an internal server error occured");
        let body = error.error_response();
        assert_eq!(body.error, ApiError::InternalServerError);
        assert_eq!(body.description, "an internal server error occured");
    }
    assert_eq!(PostgresError::Connection.message(), "failed to acquire a database connection");
    assert_eq!(PostgresError::Transaction.message(), "failed to start/commit transaction");
    assert_eq!(PostgresError::Query.message(), "a query related error occured");
    assert_eq!(
        PostgresError::DataConversion.message(),
        "failed to convert data to postgres specific data type"
    );
}
