use calendar::{
    handle, CreateEmployee, CreateEvent, CreateTeam, Database, Employee, Event, EventsQuery, Login,
    Reply, Request, Session, Team, UpdateEvent,
};
use chrono::{Duration, TimeZone, Utc};

fn now() -> i64 {
    Utc::now().timestamp_millis()
}

fn logged_in() -> (Database, Session) {
    let mut db = Database::new();
    let mut session = Session::new();
    let reply = handle(&mut db, &mut session, Request::Login(Login { password: "password".into() }));
    assert!(matches!(reply, Reply::Flag(true)));
    (db, session)
}

fn create_employee(db: &mut Database, session: &mut Session, employee: CreateEmployee) -> Employee {
    let id = match handle(db, session, Request::CreateEmployee(employee)) {
        Reply::Id(id) => id,
        other => panic!("expected an id, got {:?}", other),
    };
    match handle(db, session, Request::GetEmployees) {
        Reply::Employees(rows) => rows.into_iter().find(|e| e.id == id).unwrap(),
        other => panic!("expected employees, got {:?}", other),
    }
}

fn create_team(db: &mut Database, session: &mut Session, team: CreateTeam) -> Team {
    let id = match handle(db, session, Request::CreateTeam(team)) {
        Reply::Id(id) => id,
        other => panic!("expected an id, got {:?}", other),
    };
    match handle(db, session, Request::GetTeams) {
        Reply::Teams(rows) => rows.into_iter().find(|e| e.id == id).unwrap(),
        other => panic!("expected teams, got {:?}", other),
    }
}

fn get_events(db: &mut Database, session: &mut Session, query: EventsQuery) -> Vec<Event> {
    match handle(db, session, Request::GetEvents(query)) {
        Reply::Events(events) => events,
        other => panic!("expected events, got {:?}", other),
    }
}

fn get_event(db: &mut Database, session: &mut Session, id: i64) -> Event {
    get_events(db, session, Default::default()).into_iter().find(|e| e.id == id).unwrap()
}

fn create_event(db: &mut Database, session: &mut Session, event: CreateEvent) -> Event {
    let id = match handle(db, session, Request::CreateEvent(event)) {
        Reply::Id(id) => id,
        other => panic!("expected an id, got {:?}", other),
    };
    get_event(db, session, id)
}

fn update_event(db: &mut Database, session: &mut Session, event: UpdateEvent) -> Event {
    let id = event.id;
    let reply = handle(db, session, Request::UpdateEvent(event));
    assert!(matches!(reply, Reply::Empty));
    get_event(db, session, id)
}

fn delete_event(db: &mut Database, session: &mut Session, id: i64) {
    let reply = handle(db, session, Request::DeleteEvent(id));
    assert!(matches!(reply, Reply::Empty));
}

fn two_employees(db: &mut Database, session: &mut Session) -> (Employee, Employee) {
    let create_employee1 = CreateEmployee { name: "employee1".into(), color: "black".into() };
    let create_employee2 = CreateEmployee { name: "employee2".into(), color: "white".into() };
    (
        create_employee(db, session, create_employee1.clone()),
        create_employee(db, session, create_employee2.clone()),
    )
}

fn two_teams(db: &mut Database, session: &mut Session) -> (Team, Team) {
    let create_team1 = CreateTeam {
        name: "team1".into(),
        primary_color: "black".into(),
        secondary_color: "white".into(),
    };
    let create_team2 = CreateTeam {
        name: "team2".into(),
        primary_color: "green".into(),
        secondary_color: "blue".into(),
    };
    (create_team(db, session, create_team1.clone()), create_team(db, session, create_team2.clone()))
}

#[test]
fn test_cant_use_event_endpoints_if_not_logged_in() {
    let mut db = Database::new();
    let mut session = Session::new();

    let create_event = CreateEvent {
        title: "event".into(),
        details: "details".into(),
        start: now(),
        end: now(),
        team_id: None,
        employee_ids: vec![],
    };
    let update_event = UpdateEvent {
        id: 1,
        title: "event".into(),
        details: "details".into(),
        start: now(),
        end: now(),
        team_id: None,
        employee_ids: vec![],
    };

    let reply = handle(&mut db, &mut session, Request::GetEvents(Default::default()));
    assert!(matches!(reply, Reply::Unauthorized));
    let reply = handle(&mut db, &mut session, Request::CreateEvent(create_event));
    assert!(matches!(reply, Reply::Unauthorized));
    let reply = handle(&mut db, &mut session, Request::UpdateEvent(update_event));
    assert!(matches!(reply, Reply::Unauthorized));
    let reply = handle(&mut db, &mut session, Request::DeleteEvent(1));
    assert!(matches!(reply, Reply::Unauthorized));

    assert!(db.get_events(Default::default()).is_empty());
}

#[test]
fn test_create_and_get_events() {
    let (mut db, mut session) = logged_in();

    let (employee1, employee2) = two_employees(&mut db, &mut session);
    let (team1, team2) = two_teams(&mut db, &mut session);

    let create_event1 = CreateEvent {
        title: "event1".into(),
        details: "details1".into(),
        start: now(),
        end: now(),
        team_id: None,
        employee_ids: vec![],
    };
    let create_event2 = CreateEvent {
        title: "event2".into(),
        details: "details2".into(),
        start: now(),
        end: now(),
        team_id: Some(team1.id),
        employee_ids: vec![employee1.id],
    };
    let create_event3 = CreateEvent {
        title: "event3".into(),
        details: "details3".into(),
        start: now(),
        end: now(),
        team_id: Some(team2.id),
        employee_ids: vec![employee1.id, employee2.id],
    };

    let expected = vec![
        create_event(&mut db, &mut session, create_event1.clone()),
        create_event(&mut db, &mut session, create_event2.clone()),
        create_event(&mut db, &mut session, create_event3.clone()),
    ];

    let mut events = get_events(&mut db, &mut session, Default::default());
    events.sort_by_key(|e| e.id);

    assert_eq!(events, expected);

    assert_eq!(
        events[2],
        Event {
            id: 3,
            title: "event3".into(),
            details: "details3".into(),
            start: create_event3.start,
            end: create_event3.end,
            team: Some(team2.clone()),
            employees: vec![employee1.clone(), employee2.clone()],
        }
    );
    assert_eq!(events[0].team, None);
    assert!(events[0].employees.is_empty());
    assert_eq!(events[1].team, Some(team1));
    assert_eq!(events[1].employees, vec![employee1]);
}

#[test]
fn test_get_events_filters_by_range() {
    let (mut db, mut session) = logged_in();

    let at = |seconds: i64| Utc.timestamp_opt(seconds, 0).unwrap();

    let create_event1 = CreateEvent {
        title: "event1".into(),
        details: "details1".into(),
        start: at(1000).timestamp_millis(),
        end: at(1000).timestamp_millis(),
        team_id: None,
        employee_ids: vec![],
    };
    let create_event2 = CreateEvent {
        title: "event2".into(),
        details: "details2".into(),
        start: at(2000).timestamp_millis(),
        end: at(2000).timestamp_millis(),
        team_id: None,
        employee_ids: vec![],
    };
    let create_event3 = CreateEvent {
        title: "event3".into(),
        details: "details3".into(),
        start: at(3000).timestamp_millis(),
        end: at(3000).timestamp_millis(),
        team_id: None,
        employee_ids: vec![],
    };

    create_event(&mut db, &mut session, create_event1.clone());
    let event2 = create_event(&mut db, &mut session, create_event2.clone());
    create_event(&mut db, &mut session, create_event3.clone());

    let query = EventsQuery {
        start: Some((at(2000) - Duration::seconds(10)).timestamp_millis()),
        end: Some((at(2000) + Duration::seconds(10)).timestamp_millis()),
    };

    let events = get_events(&mut db, &mut session, query);
    assert_eq!(events.len(), 1);
    assert_eq!(events[0], event2);
}

#[test]
fn test_update_event() {
    let (mut db, mut session) = logged_in();

    let (employee1, employee2) = two_employees(&mut db, &mut session);
    let (team1, team2) = two_teams(&mut db, &mut session);

    let create = CreateEvent {
        title: "event".into(),
        details: "details".into(),
        start: now(),
        end: now(),
        team_id: Some(team1.id),
        employee_ids: vec![employee1.id],
    };

    let event = create_event(&mut db, &mut session, create.clone());

    let update = UpdateEvent {
        id: event.id,
        title: "new_event".into(),
        details: "new_details".into(),
        start: now(),
        end: now(),
        team_id: Some(team2.id),
        employee_ids: vec![employee2.id],
    };

    let event = update_event(&mut db, &mut session, update.clone());

    assert_eq!(event.to_update_event(), update);
}

#[test]
fn test_delete_event() {
    let (mut db, mut session) = logged_in();

    let (employee1, employee2) = two_employees(&mut db, &mut session);
    let (team1, team2) = two_teams(&mut db, &mut session);

    let create_event1 = CreateEvent {
        title: "event1".into(),
        details: "details1".into(),
        start: now(),
        end: now(),
        team_id: None,
        employee_ids: vec![],
    };
    let create_event2 = CreateEvent {
        title: "event2".into(),
        details: "details2".into(),
        start: now(),
        end: now(),
        team_id: Some(team1.id),
        employee_ids: vec![employee1.id],
    };
    let create_event3 = CreateEvent {
        title: "event3".into(),
        details: "details3".into(),
        start: now(),
        end: now(),
        team_id: Some(team2.id),
        employee_ids: vec![employee1.id, employee2.id],
    };

    let event1 = create_event(&mut db, &mut session, create_event1.clone());

    let expected = vec![
        create_event(&mut db, &mut session, create_event2.clone()),
        create_event(&mut db, &mut session, create_event3.clone()),
    ];

    delete_event(&mut db, &mut session, event1.id);

    let mut events = get_events(&mut db, &mut session, Default::default());
    events.sort_by_key(|e| e.id);

    assert_eq!(events, expected);
}
