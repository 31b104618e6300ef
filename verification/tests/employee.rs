use calendar::{
    handle, CreateEmployee, Database, Employee, Login, PostgresError, Reply, Request, Session,
};

fn logged_in() -> (Database, Session) {
    let mut db = Database::new();
    let mut session = Session::new();
    let reply = handle(&mut db, &mut session, Request::Login(Login { password: "password".into() }));
    assert!(matches!(reply, Reply::Flag(true)));
    (db, session)
}

fn get_employees(db: &mut Database, session: &mut Session) -> Vec<Employee> {
    match handle(db, session, Request::GetEmployees) {
        Reply::Employees(rows) => rows,
        other => panic!("expected employees, got {:?}", other),
    }
}

fn get_employee(db: &mut Database, session: &mut Session, id: i64) -> Employee {
    get_employees(db, session).into_iter().find(|e| e.id == id).unwrap()
}

fn create_employee(db: &mut Database, session: &mut Session, employee: CreateEmployee) -> Employee {
    let id = match handle(db, session, Request::CreateEmployee(employee)) {
        Reply::Id(id) => id,
        other => panic!("expected an id, got {:?}", other),
    };
    get_employee(db, session, id)
}

fn update_employee(db: &mut Database, session: &mut Session, employee: Employee) -> Employee {
    let id = employee.id;
    let reply = handle(db, session, Request::UpdateEmployee(employee));
    assert!(matches!(reply, Reply::Empty));
    get_employee(db, session, id)
}

fn delete_employee(db: &mut Database, session: &mut Session, id: i64) -> Employee {
    let reply = handle(db, session, Request::DeleteEmployee(id));
    assert!(matches!(reply, Reply::Empty));
    get_employee(db, session, id)
}

#[test]
fn test_cant_use_employee_endpoints_if_not_logged_in() {
    let mut db = Database::new();
    let mut session = Session::new();

    let create_employee = CreateEmployee { name: "employee".into(), color: "black".into() };
    let update_employee =
        Employee { id: 1, name: "employee".into(), color: "black".into(), disabled: false };

    let reply = handle(&mut db, &mut session, Request::GetEmployees);
    assert!(matches!(reply, Reply::Unauthorized));
    let reply = handle(&mut db, &mut session, Request::CreateEmployee(create_employee));
    assert!(matches!(reply, Reply::Unauthorized));
    let reply = handle(&mut db, &mut session, Request::UpdateEmployee(update_employee));
    assert!(matches!(reply, Reply::Unauthorized));
    let reply = handle(&mut db, &mut session, Request::DeleteEmployee(1));
    assert!(matches!(reply, Reply::Unauthorized));

    assert!(db.get_employees().is_empty());
}

#[test]
fn test_create_and_get_employees() {
    let (mut db, mut session) = logged_in();

    let employee1 = CreateEmployee { name: "employee1".into(), color: "black".into() };
    let employee2 = CreateEmployee { name: "employee2".into(), color: "white".into() };
    let employee3 = CreateEmployee { name: "employee3".into(), color: "red".into() };

    let expected = vec![
        create_employee(&mut db, &mut session, employee1.clone()),
        create_employee(&mut db, &mut session, employee2.clone()),
        create_employee(&mut db, &mut session, employee3.clone()),
    ];

    let mut employees = get_employees(&mut db, &mut session);
    employees.sort_by_key(|e| e.id);

    assert_eq!(employees, expected);
    assert_eq!(
        employees[1],
        Employee { id: 2, name: "employee2".into(), color: "white".into(), disabled: false }
    );
}

#[test]
fn test_update_employee() {
    let (mut db, mut session) = logged_in();

    let create = CreateEmployee { name: "employee".into(), color: "black".into() };

    let mut update = create_employee(&mut db, &mut session, create.clone());
    update.name = "updated_name".into();
    update.color = "white".into();

    let employee = update_employee(&mut db, &mut session, update.clone());

    assert_eq!(employee, update);
}

#[test]
fn test_delete_employee() {
    let (mut db, mut session) = logged_in();

    let create = CreateEmployee { name: "employee".into(), color: "black".into() };

    let employee = create_employee(&mut db, &mut session, create.clone());

    let deleted_employee = delete_employee(&mut db, &mut session, employee.id);
    assert!(deleted_employee.disabled);
}

#[test]
fn disabled_employee_leaves_the_active_listing_only() {
    let mut db = Database::new();
    let a = db.create_employee(CreateEmployee { name: "a".into(), color: "red".into() }).unwrap();
    let b = db.create_employee(CreateEmployee { name: "b".into(), color: "blue".into() }).unwrap();
    assert_eq!((a, b), (1, 2));
    db.delete_employee(a).unwrap();

    let active: Vec<i64> = db.active_employees().iter().map(|e| e.id).collect();
    assert_eq!(active, vec![b]);
    let all: Vec<(i64, bool)> = db.get_employees().iter().map(|e| (e.id, e.disabled)).collect();
    assert_eq!(all, vec![(a, true), (b, false)]);
}

#[test]
fn update_can_enable_and_disable() {
    let mut db = Database::new();
    let id = db.create_employee(CreateEmployee { name: "a".into(), color: "red".into() }).unwrap();
    db.update_employee(Employee { id, name: "a".into(), color: "red".into(), disabled: true })
        .unwrap();
    assert!(db.active_employees().is_empty());
    db.update_employee(Employee { id, name: "a2".into(), color: "red".into(), disabled: false })
        .unwrap();
    assert_eq!(
        db.active_employees(),
        vec![Employee { id, name: "a2".into(), color: "red".into(), disabled: false }]
    );
}

#[test]
fn unknown_employee_is_not_updated_or_disabled() {
    let mut db = Database::new();
    let id = db.create_employee(CreateEmployee { name: "a".into(), color: "red".into() }).unwrap();
    let ghost = Employee { id: id + 1, name: "x".into(), color: "y".into(), disabled: false };
    assert_eq!(db.update_employee(ghost), Err(PostgresError::NotFoundOrConflict));
    assert_eq!(db.delete_employee(id + 1), Err(PostgresError::NotFoundOrConflict));
    assert_eq!(
        db.get_employees(),
        vec![Employee { id, name: "a".into(), color: "red".into(), disabled: false }]
    );
}

#[test]
fn unknown_employee_fails_at_the_service() {
    let (mut db, mut session) = logged_in();
    let reply = handle(&mut db, &mut session, Request::DeleteEmployee(7));
    assert!(matches!(reply, Reply::Failure(_)));
}
