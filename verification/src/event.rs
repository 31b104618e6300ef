//! Events, the payloads that create and update them, and the time window
//! that a listing is filtered by.
//!
//! Every instant is a count of milliseconds since the Unix epoch.

use vstd::prelude::*;
use vstd::std_specs::cmp::PartialEqSpecImpl;
use crate::employee::{employee_views, Employee, EmployeeView};
use crate::team::{Team, TeamView};

verus! {

/// The values of a run of events, one for one.
pub open spec fn event_views(events: Seq<Event>) -> Seq<EventView> {
    events.map_values(|e: Event| e@)
}

/// The value of an optional team.
pub open spec fn team_view(team: Option<Team>) -> Option<TeamView> {
    match team {
        Some(t) => Some(t@),
        None => None,
    }
}

/// The mathematical value of an [`Event`].
pub struct EventView {
    pub id: i64,
    pub title: Seq<char>,
    pub details: Seq<char>,
    pub start: i64,
    pub end: i64,
    pub team: Option<TeamView>,
    pub employees: Seq<EmployeeView>,
}

/// The mathematical value of a [`CreateEvent`].
pub struct CreateEventView {
    pub title: Seq<char>,
    pub details: Seq<char>,
    pub start: i64,
    pub end: i64,
    pub team_id: Option<i64>,
    pub employee_ids: Seq<i64>,
}

/// The mathematical value of an [`UpdateEvent`].
pub struct UpdateEventView {
    pub id: i64,
    pub title: Seq<char>,
    pub details: Seq<char>,
    pub start: i64,
    pub end: i64,
    pub team_id: Option<i64>,
    pub employee_ids: Seq<i64>,
}

/// An event as a listing returns it: its own fields, the team it is held
/// for (if any), and the employees that take part.
#[derive(Debug)]
pub struct Event {
    pub id: i64,
    pub title: String,
    pub details: String,
    pub start: i64,
    pub end: i64,
    pub team: Option<Team>,
    pub employees: Vec<Employee>,
}

/// The fields a caller supplies to create an event.
#[derive(Debug)]
pub struct CreateEvent {
    pub title: String,
    pub details: String,
    pub start: i64,
    pub end: i64,
    pub team_id: Option<i64>,
    pub employee_ids: Vec<i64>,
}

/// The fields a caller supplies to replace an event's contents.
#[derive(Debug)]
pub struct UpdateEvent {
    pub id: i64,
    pub title: String,
    pub details: String,
    pub start: i64,
    pub end: i64,
    pub team_id: Option<i64>,
    pub employee_ids: Vec<i64>,
}

impl View for Event {
    type V = EventView;

    open spec fn view(&self) -> EventView {
        EventView {
            id: self.id,
            title: self.title@,
            details: self.details@,
            start: self.start,
            end: self.end,
            team: team_view(self.team),
            employees: employee_views(self.employees@),
        }
    }
}

impl View for CreateEvent {
    type V = CreateEventView;

    open spec fn view(&self) -> CreateEventView {
        CreateEventView {
            title: self.title@,
            details: self.details@,
            start: self.start,
            end: self.end,
            team_id: self.team_id,
            employee_ids: self.employee_ids@,
        }
    }
}

impl View for UpdateEvent {
    type V = UpdateEventView;

    open spec fn view(&self) -> UpdateEventView {
        UpdateEventView {
            id: self.id,
            title: self.title@,
            details: self.details@,
            start: self.start,
            end: self.end,
            team_id: self.team_id,
            employee_ids: self.employee_ids@,
        }
    }
}

impl EventView {
    /// The id of the team, if there is one.
    pub open spec fn team_id(self) -> Option<i64> {
        match self.team {
            Some(t) => Some(t.id),
            None => None,
        }
    }

    /// The ids of the employees, in the order they are listed.
    pub open spec fn employee_ids(self) -> Seq<i64> {
        self.employees.map_values(|e: EmployeeView| e.id)
    }

    /// The update that would store this event as it is.
    pub open spec fn to_update(self) -> UpdateEventView {
        UpdateEventView {
            id: self.id,
            title: self.title,
            details: self.details,
            start: self.start,
            end: self.end,
            team_id: self.team_id(),
            employee_ids: self.employee_ids(),
        }
    }
}

impl UpdateEventView {
    /// The fields of this update without the id.
    pub open spec fn fields(self) -> CreateEventView {
        CreateEventView {
            title: self.title,
            details: self.details,
            start: self.start,
            end: self.end,
            team_id: self.team_id,
            employee_ids: self.employee_ids,
        }
    }
}

/// Copies a list of ids.
pub fn clone_ids(ids: &Vec<i64>) -> (copy: Vec<i64>)
    ensures
        copy@ == ids@,
{
    let mut copy: Vec<i64> = Vec::new();
    let mut i: usize = 0;
    while i < ids.len()
        invariant
            i <= ids.len(),
            copy@ == ids@.take(i as int),
        decreases ids.len() - i,
    {
        copy.push(ids[i]);
        proof {
            assert(ids@.take(i + 1) =~= ids@.take(i as int).push(ids@[i as int]));
        }
        i += 1;
    }
    proof {
        assert(ids@.take(ids.len() as int) =~= ids@);
    }
    copy
}

/// Copies a list of employees.
pub fn clone_employees(employees: &Vec<Employee>) -> (copy: Vec<Employee>)
    ensures
        employee_views(copy@) == employee_views(employees@),
{
    let mut copy: Vec<Employee> = Vec::new();
    let mut i: usize = 0;
    while i < employees.len()
        invariant
            i <= employees.len(),
            copy@.len() == i,
            forall|k: int| 0 <= k < i ==> (#[trigger] copy@[k])@ == employees@[k]@,
        decreases employees.len() - i,
    {
        copy.push(employees[i].clone());
        i += 1;
    }
    proof {
        assert(employee_views(copy@) =~= employee_views(employees@));
    }
    copy
}

/// Copies an optional team.
pub fn clone_team(team: &Option<Team>) -> (copy: Option<Team>)
    ensures
        team_view(copy) == team_view(*team),
{
    match team {
        Some(t) => Some(t.clone()),
        None => None,
    }
}

/// Whether two lists hold the same ids in the same order.
pub fn same_ids(a: &Vec<i64>, b: &Vec<i64>) -> (same: bool)
    ensures
        same == (a@ == b@),
{
    if a.len() != b.len() {
        return false;
    }
    let mut i: usize = 0;
    while i < a.len()
        invariant
            i <= a.len(),
            a.len() == b.len(),
            a@.take(i as int) == b@.take(i as int),
        decreases a.len() - i,
    {
        if a[i] != b[i] {
            proof {
                assert(a@[i as int] != b@[i as int]);
            }
            return false;
        }
        proof {
            assert(a@.take(i + 1) =~= a@.take(i as int).push(a@[i as int]));
            assert(b@.take(i + 1) =~= b@.take(i as int).push(b@[i as int]));
        }
        i += 1;
    }
    proof {
        assert(a@.take(a.len() as int) =~= a@);
        assert(b@.take(b.len() as int) =~= b@);
    }
    true
}

/// Whether two lists hold equal employees in the same order.
pub fn same_employees(a: &Vec<Employee>, b: &Vec<Employee>) -> (same: bool)
    ensures
        same == (employee_views(a@) == employee_views(b@)),
{
    if a.len() != b.len() {
        proof {
            assert(employee_views(a@).len() != employee_views(b@).len());
        }
        return false;
    }
    let mut i: usize = 0;
    while i < a.len()
        invariant
            i <= a.len(),
            a.len() == b.len(),
            forall|k: int| 0 <= k < i ==> (#[trigger] a@[k])@ == b@[k]@,
        decreases a.len() - i,
    {
        if !(a[i] == b[i]) {
            proof {
                assert(employee_views(a@)[i as int] == a@[i as int]@);
                assert(employee_views(b@)[i as int] == b@[i as int]@);
            }
            return false;
        }
        i += 1;
    }
    proof {
        assert(employee_views(a@) =~= employee_views(b@));
    }
    true
}

/// Whether two optional teams are equal.
pub fn same_team(a: &Option<Team>, b: &Option<Team>) -> (same: bool)
    ensures
        same == (team_view(*a) == team_view(*b)),
{
    match (a, b) {
        (Some(x), Some(y)) => x == y,
        (None, None) => true,
        _ => false,
    }
}

/// Whether two optional ids are equal.
pub fn same_id(a: &Option<i64>, b: &Option<i64>) -> (same: bool)
    ensures
        same == (*a == *b),
{
    match (a, b) {
        (Some(x), Some(y)) => *x == *y,
        (None, None) => true,
        _ => false,
    }
}

impl Clone for Event {
    fn clone(&self) -> (copy: Self)
        ensures
            copy@ == self@,
    {
        Event {
            id: self.id,
            title: self.title.clone(),
            details: self.details.clone(),
            start: self.start,
            end: self.end,
            team: clone_team(&self.team),
            employees: clone_employees(&self.employees),
        }
    }
}

impl Clone for CreateEvent {
    fn clone(&self) -> (copy: Self)
        ensures
            copy@ == self@,
    {
        CreateEvent {
            title: self.title.clone(),
            details: self.details.clone(),
            start: self.start,
            end: self.end,
            team_id: self.team_id,
            employee_ids: clone_ids(&self.employee_ids),
        }
    }
}

impl Clone for UpdateEvent {
    fn clone(&self) -> (copy: Self)
        ensures
            copy@ == self@,
    {
        UpdateEvent {
            id: self.id,
            title: self.title.clone(),
            details: self.details.clone(),
            start: self.start,
            end: self.end,
            team_id: self.team_id,
            employee_ids: clone_ids(&self.employee_ids),
        }
    }
}

impl PartialEq for Event {
    fn eq(&self, other: &Self) -> (same: bool) {
        self.id == other.id && self.title == other.title && self.details == other.details
            && self.start == other.start && self.end == other.end && same_team(
            &self.team,
            &other.team,
        ) && same_employees(&self.employees, &other.employees)
    }
}

impl PartialEqSpecImpl for Event {
    open spec fn obeys_eq_spec() -> bool {
        true
    }

    open spec fn eq_spec(&self, other: &Self) -> bool {
        self@ == other@
    }
}

impl PartialEq for CreateEvent {
    fn eq(&self, other: &Self) -> (same: bool) {
        self.title == other.title && self.details == other.details && self.start == other.start
            && self.end == other.end && same_id(&self.team_id, &other.team_id) && same_ids(
            &self.employee_ids,
            &other.employee_ids,
        )
    }
}

impl PartialEqSpecImpl for CreateEvent {
    open spec fn obeys_eq_spec() -> bool {
        true
    }

    open spec fn eq_spec(&self, other: &Self) -> bool {
        self@ == other@
    }
}

impl PartialEq for UpdateEvent {
    fn eq(&self, other: &Self) -> (same: bool) {
        self.id == other.id && self.title == other.title && self.details == other.details
            && self.start == other.start && self.end == other.end && same_id(
            &self.team_id,
            &other.team_id,
        ) && same_ids(&self.employee_ids, &other.employee_ids)
    }
}

impl PartialEqSpecImpl for UpdateEvent {
    open spec fn obeys_eq_spec() -> bool {
        true
    }

    open spec fn eq_spec(&self, other: &Self) -> bool {
        self@ == other@
    }
}

impl Event {
    /// Turns a listed event into the update that would store it unchanged:
    /// the team is named by its id and each employee by theirs.
    pub fn to_update_event(self) -> (update: UpdateEvent)
        ensures
            update@ == self@.to_update(),
    {
        let team_id = match &self.team {
            Some(t) => Some(t.id),
            None => None,
        };
        let mut employee_ids: Vec<i64> = Vec::new();
        let mut i: usize = 0;
        while i < self.employees.len()
            invariant
                i <= self.employees.len(),
                employee_ids@ == self@.employee_ids().take(i as int),
            decreases self.employees.len() - i,
        {
            employee_ids.push(self.employees[i].id);
            proof {
                let all = self@.employee_ids();
                assert(all.take(i + 1) =~= all.take(i as int).push(all[i as int]));
            }
            i += 1;
        }
        proof {
            let all = self@.employee_ids();
            assert(all.take(self.employees.len() as int) =~= all);
        }
        UpdateEvent {
            id: self.id,
            title: self.title,
            details: self.details,
            start: self.start,
            end: self.end,
            team_id,
            employee_ids,
        }
    }
}

} // verus!
