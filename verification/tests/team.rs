use calendar::{handle, CreateTeam, Database, Login, PostgresError, Reply, Request, Session, Team};

fn logged_in() -> (Database, Session) {
    let mut db = Database::new();
    let mut session = Session::new();
    let reply = handle(&mut db, &mut session, Request::Login(Login { password: "password".into() }));
    assert!(matches!(reply, Reply::Flag(true)));
    (db, session)
}

fn get_teams(db: &mut Database, session: &mut Session) -> Vec<Team> {
    match handle(db, session, Request::GetTeams) {
        Reply::Teams(rows) => rows,
        other => panic!("expected teams, got {:?}", other),
    }
}

fn get_team(db: &mut Database, session: &mut Session, id: i64) -> Team {
    get_teams(db, session).into_iter().find(|e| e.id == id).unwrap()
}

fn create_team(db: &mut Database, session: &mut Session, team: CreateTeam) -> Team {
    let id = match handle(db, session, Request::CreateTeam(team)) {
        Reply::Id(id) => id,
        other => panic!("expected an id, got {:?}", other),
    };
    get_team(db, session, id)
}

fn update_team(db: &mut Database, session: &mut Session, team: Team) -> Team {
    let id = team.id;
    let reply = handle(db, session, Request::UpdateTeam(team));
    assert!(matches!(reply, Reply::Empty));
    get_team(db, session, id)
}

fn delete_team(db: &mut Database, session: &mut Session, id: i64) -> Team {
    let reply = handle(db, session, Request::DeleteTeam(id));
    assert!(matches!(reply, Reply::Empty));
    get_team(db, session, id)
}

#[test]
fn test_cant_use_team_endpoints_if_not_logged_in() {
    let mut db = Database::new();
    let mut session = Session::new();

    let create_team = CreateTeam {
        name: "team".into(),
        primary_color: "black".into(),
        secondary_color: "white".into(),
    };
    let update_team = Team {
        id: 1,
        name: "team".into(),
        primary_color: "black".into(),
        secondary_color: "white".into(),
        disabled: false,
    };

    let reply = handle(&mut db, &mut session, Request::GetTeams);
    assert!(matches!(reply, Reply::Unauthorized));
    let reply = handle(&mut db, &mut session, Request::CreateTeam(create_team));
    assert!(matches!(reply, Reply::Unauthorized));
    let reply = handle(&mut db, &mut session, Request::UpdateTeam(update_team));
    assert!(matches!(reply, Reply::Unauthorized));
    let reply = handle(&mut db, &mut session, Request::DeleteTeam(1));
    assert!(matches!(reply, Reply::Unauthorized));

    assert!(db.get_teams().is_empty());
}

#[test]
fn test_create_and_get_teams() {
    let (mut db, mut session) = logged_in();

    let team1 = CreateTeam {
        name: "team1".into(),
        primary_color: "black".into(),
        secondary_color: "white".into(),
    };
    let team2 = CreateTeam {
        name: "team2".into(),
        primary_color: "green".into(),
        secondary_color: "blue".into(),
    };
    let team3 = CreateTeam {
        name: "team3".into(),
        primary_color: "red".into(),
        secondary_color: "yellow".into(),
    };

    let expected = vec![
        create_team(&mut db, &mut session, team1.clone()),
        create_team(&mut db, &mut session, team2.clone()),
        create_team(&mut db, &mut session, team3.clone()),
    ];

    let mut teams = get_teams(&mut db, &mut session);
    teams.sort_by_key(|e| e.id);

    assert_eq!(teams, expected);
    assert_eq!(
        teams[2],
        Team {
            id: 3,
            name: "team3".into(),
            primary_color: "red".into(),
            secondary_color: "yellow".into(),
            disabled: false,
        }
    );
}

#[test]
fn test_update_team() {
    let (mut db, mut session) = logged_in();

    let create = CreateTeam {
        name: "team".into(),
        primary_color: "black".into(),
        secondary_color: "white".into(),
    };

    let mut update = create_team(&mut db, &mut session, create.clone());
    update.name = "updated_name".into();
    update.primary_color = "pink".into();
    update.secondary_color = "purple".into();

    let team = update_team(&mut db, &mut session, update.clone());
    assert_eq!(team, update);
}

#[test]
fn test_delete_team() {
    let (mut db, mut session) = logged_in();

    let create = CreateTeam {
        name: "team".into(),
        primary_color: "black".into(),
        secondary_color: "white".into(),
    };

    let team = create_team(&mut db, &mut session, create.clone());

    let deleted_team = delete_team(&mut db, &mut session, team.id);

    assert!(deleted_team.disabled);
}

#[test]
fn disabled_team_leaves_the_active_listing_only() {
    let mut db = Database::new();
    let make = |name: &str| CreateTeam {
        name: name.into(),
        primary_color: "black".into(),
        secondary_color: "white".into(),
    };
    let a = db.create_team(make("a")).unwrap();
    let b = db.create_team(make("b")).unwrap();
    db.delete_team(b).unwrap();
    let active: Vec<i64> = db.active_teams().iter().map(|t| t.id).collect();
    assert_eq!(active, vec![a]);
    assert_eq!(db.get_teams().len(), 2);
}

#[test]
fn unknown_team_is_not_updated_or_disabled() {
    let mut db = Database::new();
    let ghost = Team {
        id: 1,
        name: "x".into(),
        primary_color: "y".into(),
        secondary_color: "z".into(),
        disabled: false,
    };
    assert_eq!(db.update_team(ghost), Err(PostgresError::NotFoundOrConflict));
    assert_eq!(db.delete_team(1), Err(PostgresError::NotFoundOrConflict));
    assert!(db.get_teams().is_empty());
}
