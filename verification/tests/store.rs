use calendar::{
    CreateEmployee, CreateEvent, CreateTeam, Credential, Database, Employee, Event, EventsQuery,
    PostgresError, Team, UpdateEvent,
};

fn employee(db: &mut Database, name: &str) -> i64 {
    db.create_employee(CreateEmployee { name: name.into(), color: "black".into() }).unwrap()
}

fn team(db: &mut Database, name: &str) -> i64 {
    db.create_team(CreateTeam {
        name: name.into(),
        primary_color: "green".into(),
        secondary_color: "blue".into(),
    })
    .unwrap()
}

fn event_at(start: i64, end: i64, team_id: Option<i64>, employee_ids: Vec<i64>) -> CreateEvent {
    CreateEvent {
        title: "title".into(),
        details: "details".into(),
        start,
        end,
        team_id,
        employee_ids,
    }
}

fn ids(events: &[Event]) -> Vec<i64> {
    events.iter().map(|e| e.id).collect()
}

fn participant_ids(event: &Event) -> Vec<i64> {
    event.employees.iter().map(|e| e.id).collect()
}

fn everything() -> EventsQuery {
    EventsQuery { start: None, end: None }
}

#[test]
fn created_event_reads_back_as_given() {
    let mut db = Database::new();
    let a = employee(&mut db, "a");
    let b = employee(&mut db, "b");
    let t = team(&mut db, "t");
    let given = CreateEvent {
        title: "standup".into(),
        details: "daily".into(),
        start: 1_700_000_000_123,
        end: 1_700_000_900_456,
        team_id: Some(t),
        employee_ids: vec![b, a],
    };
    let id = db.create_event(given.clone()).unwrap();
    assert_eq!(id, 1);

    let listed = db.get_events(EventsQuery {
        start: Some(1_700_000_000_000),
        end: Some(1_700_000_001_000),
    });
    assert_eq!(listed.len(), 1);
    let event = &listed[0];
    assert_eq!(event.id, id);
    assert_eq!(event.title, "standup");
    assert_eq!(event.details, "daily");
    assert_eq!(event.start, 1_700_000_000_123);
    assert_eq!(event.end, 1_700_000_900_456);
    assert_eq!(
        event.team,
        Some(Team {
            id: t,
            name: "t".into(),
            primary_color: "green".into(),
            secondary_color: "blue".into(),
            disabled: false,
        })
    );
    assert_eq!(
        event.employees,
        vec![
            Employee { id: b, name: "b".into(), color: "black".into(), disabled: false },
            Employee { id: a, name: "a".into(), color: "black".into(), disabled: false },
        ]
    );
}

#[test]
fn ids_are_handed_out_in_sequence_and_not_reused() {
    let mut db = Database::new();
    let first = db.create_event(event_at(0, 0, None, vec![])).unwrap();
    let second = db.create_event(event_at(0, 0, None, vec![])).unwrap();
    assert_eq!((first, second), (1, 2));
    db.delete_event(second).unwrap();
    let third = db.create_event(event_at(0, 0, None, vec![])).unwrap();
    assert_eq!(third, 3);
    assert_eq!(ids(&db.get_events(everything())), vec![1, 3]);
}

#[test]
fn update_replaces_participants() {
    let mut db = Database::new();
    let a = employee(&mut db, "a");
    let b = employee(&mut db, "b");
    let c = employee(&mut db, "c");
    let id = db.create_event(event_at(10, 20, None, vec![a, b])).unwrap();

    db.update_event(UpdateEvent {
        id,
        title: "title".into(),
        details: "details".into(),
        start: 10,
        end: 20,
        team_id: None,
        employee_ids: vec![c],
    })
    .unwrap();

    let listed = db.get_events(everything());
    assert_eq!(listed.len(), 1);
    assert_eq!(participant_ids(&listed[0]), vec![c]);
}

#[test]
fn update_with_the_same_participants_succeeds() {
    let mut db = Database::new();
    let a = employee(&mut db, "a");
    let id = db.create_event(event_at(10, 20, None, vec![a])).unwrap();
    let outcome = db.update_event(UpdateEvent {
        id,
        title: "again".into(),
        details: "details".into(),
        start: 11,
        end: 21,
        team_id: None,
        employee_ids: vec![a],
    });
    assert_eq!(outcome, Ok(()));
    let listed = db.get_events(everything());
    assert_eq!(listed[0].title, "again");
    assert_eq!((listed[0].start, listed[0].end), (11, 21));
    assert_eq!(participant_ids(&listed[0]), vec![a]);
}

#[test]
fn update_leaves_other_events_alone() {
    let mut db = Database::new();
    let a = employee(&mut db, "a");
    let b = employee(&mut db, "b");
    let first = db.create_event(event_at(1, 2, None, vec![a, b])).unwrap();
    let second = db.create_event(event_at(3, 4, None, vec![b])).unwrap();
    let before = db.get_events(everything());
    db.update_event(UpdateEvent {
        id: second,
        title: "changed".into(),
        details: "changed".into(),
        start: 5,
        end: 6,
        team_id: None,
        employee_ids: vec![a],
    })
    .unwrap();
    let after = db.get_events(everything());
    assert_eq!(after[0], before[0]);
    assert_eq!(after[0].id, first);
    assert_eq!(participant_ids(&after[1]), vec![a]);
}

#[test]
fn failed_update_keeps_the_event_as_it_was() {
    let mut db = Database::new();
    let a = employee(&mut db, "a");
    let t = team(&mut db, "t");
    let id = db.create_event(event_at(10, 20, Some(t), vec![a])).unwrap();
    let before = db.get_events(everything());

    let outcome = db.update_event(UpdateEvent {
        id,
        title: "new title".into(),
        details: "new details".into(),
        start: 30,
        end: 40,
        team_id: None,
        employee_ids: vec![a, 999],
    });
    assert_eq!(outcome, Err(PostgresError::Query));

    let after = db.get_events(everything());
    assert_eq!(after, before);
    assert_eq!(after[0].title, "title");
    assert_eq!(after[0].details, "details");
    assert_eq!((after[0].start, after[0].end), (10, 20));
    assert_eq!(after[0].team.as_ref().map(|t| t.id), Some(t));
    assert_eq!(participant_ids(&after[0]), vec![a]);
}

#[test]
fn failed_creation_stores_nothing() {
    let mut db = Database::new();
    let a = employee(&mut db, "a");
    assert_eq!(db.create_event(event_at(1, 2, None, vec![a, 42])), Err(PostgresError::Query));
    assert_eq!(db.create_event(event_at(1, 2, Some(5), vec![a])), Err(PostgresError::Query));
    assert_eq!(db.create_event(event_at(1, 2, None, vec![a, a])), Err(PostgresError::Query));
    assert!(db.get_events(everything()).is_empty());
    let id = db.create_event(event_at(1, 2, None, vec![a])).unwrap();
    assert_eq!(id, 1);
}

#[test]
fn update_and_delete_of_an_unknown_event_fail() {
    let mut db = Database::new();
    let outcome = db.update_event(UpdateEvent {
        id: 1,
        title: "t".into(),
        details: "d".into(),
        start: 0,
        end: 0,
        team_id: None,
        employee_ids: vec![],
    });
    assert_eq!(outcome, Err(PostgresError::NotFoundOrConflict));
    assert_eq!(db.delete_event(1), Err(PostgresError::NotFoundOrConflict));
}

#[test]
fn update_with_unknown_team_or_repeated_employee_fails() {
    let mut db = Database::new();
    let a = employee(&mut db, "a");
    let id = db.create_event(event_at(1, 2, None, vec![])).unwrap();
    let attempt = |team_id: Option<i64>, employee_ids: Vec<i64>| UpdateEvent {
        id,
        title: "t".into(),
        details: "d".into(),
        start: 0,
        end: 0,
        team_id,
        employee_ids,
    };
    assert_eq!(db.update_event(attempt(Some(9), vec![])), Err(PostgresError::Query));
    assert_eq!(db.update_event(attempt(None, vec![a, a])), Err(PostgresError::Query));
    assert_eq!(db.get_events(everything())[0].title, "title");
}

#[test]
fn disabling_an_employee_keeps_them_in_their_events() {
    let mut db = Database::new();
    let a = employee(&mut db, "a");
    let b = employee(&mut db, "b");
    let id = db.create_event(event_at(1, 2, None, vec![a, b])).unwrap();
    db.delete_employee(a).unwrap();

    let listed = db.get_events(everything());
    assert_eq!(listed[0].id, id);
    assert_eq!(participant_ids(&listed[0]), vec![a, b]);
    assert!(listed[0].employees[0].disabled);
    assert!(!listed[0].employees[1].disabled);
}

#[test]
fn disabling_a_team_keeps_it_on_its_events() {
    let mut db = Database::new();
    let t = team(&mut db, "t");
    db.create_event(event_at(1, 2, Some(t), vec![])).unwrap();
    db.delete_team(t).unwrap();
    let listed = db.get_events(everything());
    let shown = listed[0].team.as_ref().unwrap();
    assert_eq!(shown.id, t);
    assert!(shown.disabled);
}

#[test]
fn events_may_name_disabled_teams_and_employees() {
    let mut db = Database::new();
    let a = employee(&mut db, "a");
    let t = team(&mut db, "t");
    db.delete_employee(a).unwrap();
    db.delete_team(t).unwrap();
    let id = db.create_event(event_at(1, 2, Some(t), vec![a])).unwrap();
    let listed = db.get_events(everything());
    assert_eq!(listed[0].id, id);
    assert_eq!(participant_ids(&listed[0]), vec![a]);
}

#[test]
fn range_filter_is_inclusive_at_both_ends() {
    let mut db = Database::new();
    let early = db.create_event(event_at(1_000_000, 1_000_000, None, vec![])).unwrap();
    let middle = db.create_event(event_at(2_000_000, 2_000_000, None, vec![])).unwrap();
    let late = db.create_event(event_at(3_000_000, 3_000_000, None, vec![])).unwrap();
    let long = db.create_event(event_at(500_000, 2_500_000, None, vec![])).unwrap();

    let window = |start: Option<i64>, end: Option<i64>| EventsQuery { start, end };

    assert_eq!(
        ids(&db.get_events(window(Some(1_990_000), Some(2_010_000)))),
        vec![middle, long]
    );
    assert_eq!(
        ids(&db.get_events(window(Some(2_000_000), Some(2_000_000)))),
        vec![middle, long]
    );
    assert_eq!(ids(&db.get_events(window(Some(2_500_000), None))), vec![late, long]);
    assert_eq!(ids(&db.get_events(window(Some(2_500_001), None))), vec![late]);
    assert_eq!(ids(&db.get_events(window(None, Some(1_000_000)))), vec![early, long]);
    assert_eq!(ids(&db.get_events(window(None, Some(499_999)))), Vec::<i64>::new());
    assert_eq!(ids(&db.get_events(window(None, None))), vec![early, middle, late, long]);
    assert_eq!(ids(&db.get_events(window(Some(3_000_001), Some(4_000_000)))), Vec::<i64>::new());
}

#[test]
fn inverted_periods_are_stored_as_given() {
    let mut db = Database::new();
    let id = db.create_event(event_at(20, 10, None, vec![])).unwrap();
    let listed = db.get_events(everything());
    assert_eq!(ids(&listed), vec![id]);
    assert_eq!((listed[0].start, listed[0].end), (20, 10));
}

#[test]
fn event_comes_once_however_many_take_part() {
    let mut db = Database::new();
    let a = employee(&mut db, "a");
    let b = employee(&mut db, "b");
    let c = employee(&mut db, "c");
    db.create_event(event_at(1, 2, None, vec![a, b, c])).unwrap();
    let listed = db.get_events(everything());
    assert_eq!(listed.len(), 1);
    assert_eq!(listed[0].employees.len(), 3);
}

#[test]
fn deleting_an_event_removes_its_participations() {
    let mut db = Database::new();
    let a = employee(&mut db, "a");
    let first = db.create_event(event_at(1, 2, None, vec![a])).unwrap();
    let second = db.create_event(event_at(1, 2, None, vec![a])).unwrap();
    db.delete_event(first).unwrap();
    let listed = db.get_events(everything());
    assert_eq!(ids(&listed), vec![second]);
    assert_eq!(participant_ids(&listed[0]), vec![a]);
}

#[test]
fn initial_credential_is_the_digest_of_the_default_password() {
    let credential = Credential::initial();
    assert_eq!(
        credential.hash().as_str(),
        "5e884898da28047151d0e56f8dc6292773603d0d6aabbdd62a11ef721d1542d8"
    );
    assert!(credential.authenticate("password"));
    assert!(!credential.authenticate("Password"));
}

#[test]
fn credential_rotates_only_on_a_matching_digest() {
    let stored = "2cf24dba5fb0a30e26e83b2ac5b9e29e1b161e5c1fa7425e73043362938b9824";
    let mut credential = Credential::from_hash(stored.to_string());
    assert!(credential.authenticate("hello"));
    assert!(credential.accepts(&stored.to_string()));
    assert!(!credential.accepts(&"hello".to_string()));

    assert!(!credential.rotate(&"nope".to_string(), "next".to_string()));
    assert_eq!(credential.hash().as_str(), stored);
    assert!(credential.rotate(&stored.to_string(), "next".to_string()));
    assert_eq!(credential.hash().as_str(), "next");
}

#[test]
fn changed_password_is_stored_as_its_digest() {
    let mut credential = Credential::initial();
    assert!(credential.change_password("password", "hello"));
    assert_eq!(
        credential.hash().as_str(),
        "2cf24dba5fb0a30e26e83b2ac5b9e29e1b161e5c1fa7425e73043362938b9824"
    );
}
