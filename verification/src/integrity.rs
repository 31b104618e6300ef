//! Every operation keeps the integrity rules of the store.

use vstd::prelude::*;
use vstd::seq_lib::lemma_no_dup_in_concat;
use crate::database_view::DatabaseView;
use crate::employee::{disable_employee, has_employee, replace_employee, CreateEmployeeView,
    EmployeeView};
use crate::event::{CreateEventView, UpdateEventView};
use crate::event_row::{has_event, replace_event, without_event_row, EventRowView};
use crate::participation::{links_for, without_event, Participation};
use crate::seq_facts::{filter_keeps_pairwise, filter_membership};
use crate::team::{disable_team, has_team, replace_team, CreateTeamView, TeamView};

verus! {

/// A table that grows by a row still has every id it had.
pub proof fn pushed_employee_keeps_ids(rows: Seq<EmployeeView>, row: EmployeeView, id: i64)
    requires
        has_employee(rows, id),
    ensures
        has_employee(rows.push(row), id),
{
    let i = choose|i: int| 0 <= i < rows.len() && (#[trigger] rows[i]).id == id;
    assert(rows.push(row)[i].id == id);
}

/// Rewriting the fields of a row neither adds nor removes an id.
pub proof fn replaced_employee_keeps_ids(rows: Seq<EmployeeView>, row: EmployeeView, id: i64)
    ensures
        has_employee(replace_employee(rows, row), id) <==> has_employee(rows, id),
{
    let after = replace_employee(rows, row);
    if has_employee(rows, id) {
        let i = choose|i: int| 0 <= i < rows.len() && (#[trigger] rows[i]).id == id;
        assert(after[i].id == id);
    }
    if has_employee(after, id) {
        let i = choose|i: int| 0 <= i < after.len() && (#[trigger] after[i]).id == id;
        assert(rows[i].id == id);
    }
}

/// Disabling a row neither adds nor removes an id.
pub proof fn disabled_employee_keeps_ids(rows: Seq<EmployeeView>, disabled: i64, id: i64)
    ensures
        has_employee(disable_employee(rows, disabled), id) <==> has_employee(rows, id),
{
    let after = disable_employee(rows, disabled);
    if has_employee(rows, id) {
        let i = choose|i: int| 0 <= i < rows.len() && (#[trigger] rows[i]).id == id;
        assert(after[i].id == id);
    }
    if has_employee(after, id) {
        let i = choose|i: int| 0 <= i < after.len() && (#[trigger] after[i]).id == id;
        assert(rows[i].id == id);
    }
}

/// A table that grows by a row still has every id it had.
pub proof fn pushed_team_keeps_ids(rows: Seq<TeamView>, row: TeamView, id: i64)
    requires
        has_team(rows, id),
    ensures
        has_team(rows.push(row), id),
{
    let i = choose|i: int| 0 <= i < rows.len() && (#[trigger] rows[i]).id == id;
    assert(rows.push(row)[i].id == id);
}

/// Rewriting the fields of a row neither adds nor removes an id.
pub proof fn replaced_team_keeps_ids(rows: Seq<TeamView>, row: TeamView, id: i64)
    ensures
        has_team(replace_team(rows, row), id) <==> has_team(rows, id),
{
    let after = replace_team(rows, row);
    if has_team(rows, id) {
        let i = choose|i: int| 0 <= i < rows.len() && (#[trigger] rows[i]).id == id;
        assert(after[i].id == id);
    }
    if has_team(after, id) {
        let i = choose|i: int| 0 <= i < after.len() && (#[trigger] after[i]).id == id;
        assert(rows[i].id == id);
    }
}

/// Disabling a row neither adds nor removes an id.
pub proof fn disabled_team_keeps_ids(rows: Seq<TeamView>, disabled: i64, id: i64)
    ensures
        has_team(disable_team(rows, disabled), id) <==> has_team(rows, id),
{
    let after = disable_team(rows, disabled);
    if has_team(rows, id) {
        let i = choose|i: int| 0 <= i < rows.len() && (#[trigger] rows[i]).id == id;
        assert(after[i].id == id);
    }
    if has_team(after, id) {
        let i = choose|i: int| 0 <= i < after.len() && (#[trigger] after[i]).id == id;
        assert(rows[i].id == id);
    }
}

/// Rewriting the fields of an event row neither adds nor removes an id.
pub proof fn replaced_event_keeps_ids(rows: Seq<EventRowView>, row: EventRowView, id: i64)
    ensures
        has_event(replace_event(rows, row), id) <==> has_event(rows, id),
{
    let after = replace_event(rows, row);
    if has_event(rows, id) {
        let i = choose|i: int| 0 <= i < rows.len() && (#[trigger] rows[i]).id == id;
        assert(after[i].id == id);
    }
    if has_event(after, id) {
        let i = choose|i: int| 0 <= i < after.len() && (#[trigger] after[i]).id == id;
        assert(rows[i].id == id);
    }
}

/// After the rows with one id were removed, the table has exactly the
/// other ids it had.
pub proof fn removed_event_keeps_other_ids(rows: Seq<EventRowView>, removed: i64, id: i64)
    ensures
        has_event(without_event_row(rows, removed), id) <==> (has_event(rows, id) && id
            != removed),
{
    let keep = |r: EventRowView| r.id != removed;
    let after = without_event_row(rows, removed);
    if has_event(rows, id) && id != removed {
        let i = choose|i: int| 0 <= i < rows.len() && (#[trigger] rows[i]).id == id;
        assert(rows.contains(rows[i]));
        filter_membership(rows, keep, rows[i]);
        let k = choose|k: int| 0 <= k < after.len() && after[k] == rows[i];
        assert(after[k].id == id);
    }
    if has_event(after, id) {
        let k = choose|k: int| 0 <= k < after.len() && (#[trigger] after[k]).id == id;
        assert(after.contains(after[k]));
        filter_membership(rows, keep, after[k]);
        let i = choose|i: int| 0 <= i < rows.len() && rows[i] == after[k];
        assert(rows[i].id == id);
    }
}

/// Creating an employee keeps the integrity rules.
pub proof fn create_employee_keeps_integrity(db: DatabaseView, fields: CreateEmployeeView)
    requires
        db.wf(),
        db.can_create_employee(),
    ensures
        db.create_employee(fields).wf(),
{
    let after = db.create_employee(fields);
    let row = EmployeeView::created(db.next_employee_id, fields);
    assert forall|i: int| 0 <= i < after.participations.len() implies has_event(
        after.events,
        (#[trigger] after.participations[i]).event_id,
    ) && has_employee(after.employees, after.participations[i].employee_id) by {
        pushed_employee_keeps_ids(db.employees, row, db.participations[i].employee_id);
    }
}

/// Updating an employee keeps the integrity rules.
pub proof fn update_employee_keeps_integrity(db: DatabaseView, row: EmployeeView)
    requires
        db.wf(),
    ensures
        db.update_employee(row).wf(),
{
    let after = db.update_employee(row);
    assert forall|i: int| 0 <= i < after.employees.len() implies (#[trigger] after.employees[i]).id
        == db.employees[i].id by {}
    assert forall|i: int| 0 <= i < after.employees.len() implies 1 <= (
    #[trigger] after.employees[i]).id < after.next_employee_id by {
        assert(db.employees[i].id == after.employees[i].id);
    }
    assert forall|i: int| 0 <= i < after.participations.len() implies has_event(
        after.events,
        (#[trigger] after.participations[i]).event_id,
    ) && has_employee(after.employees, after.participations[i].employee_id) by {
        replaced_employee_keeps_ids(db.employees, row, db.participations[i].employee_id);
    }
    assert forall|i: int, j: int|
        0 <= i < after.employees.len() && 0 <= j < after.employees.len() && i != j implies (
    #[trigger] after.employees[i]).id != (#[trigger] after.employees[j]).id by {
        assert(db.employees[i].id != db.employees[j].id);
    }
}

/// Disabling an employee keeps the integrity rules.
pub proof fn delete_employee_keeps_integrity(db: DatabaseView, id: i64)
    requires
        db.wf(),
    ensures
        db.delete_employee(id).wf(),
{
    let after = db.delete_employee(id);
    assert forall|i: int| 0 <= i < after.employees.len() implies 1 <= (
    #[trigger] after.employees[i]).id < after.next_employee_id by {
        assert(db.employees[i].id == after.employees[i].id);
    }
    assert forall|i: int| 0 <= i < after.participations.len() implies has_event(
        after.events,
        (#[trigger] after.participations[i]).event_id,
    ) && has_employee(after.employees, after.participations[i].employee_id) by {
        disabled_employee_keeps_ids(db.employees, id, db.participations[i].employee_id);
    }
    assert forall|i: int, j: int|
        0 <= i < after.employees.len() && 0 <= j < after.employees.len() && i != j implies (
    #[trigger] after.employees[i]).id != (#[trigger] after.employees[j]).id by {
        assert(db.employees[i].id != db.employees[j].id);
    }
}

/// Creating a team keeps the integrity rules.
pub proof fn create_team_keeps_integrity(db: DatabaseView, fields: CreateTeamView)
    requires
        db.wf(),
        db.can_create_team(),
    ensures
        db.create_team(fields).wf(),
{
    let after = db.create_team(fields);
    let row = TeamView::created(db.next_team_id, fields);
    assert forall|i: int| 0 <= i < after.events.len() implies after.team_known(
        (#[trigger] after.events[i]).team_id,
    ) by {
        assert(db.team_known(db.events[i].team_id));
        if db.events[i].team_id is Some {
            pushed_team_keeps_ids(db.teams, row, db.events[i].team_id->0);
        }
    }
}

/// Updating a team keeps the integrity rules.
pub proof fn update_team_keeps_integrity(db: DatabaseView, row: TeamView)
    requires
        db.wf(),
    ensures
        db.update_team(row).wf(),
{
    let after = db.update_team(row);
    assert forall|i: int| 0 <= i < after.teams.len() implies 1 <= (#[trigger] after.teams[i]).id
        < after.next_team_id by {
        assert(db.teams[i].id == after.teams[i].id);
    }
    assert forall|i: int| 0 <= i < after.events.len() implies after.team_known(
        (#[trigger] after.events[i]).team_id,
    ) by {
        assert(db.team_known(db.events[i].team_id));
        if db.events[i].team_id is Some {
            replaced_team_keeps_ids(db.teams, row, db.events[i].team_id->0);
        }
    }
    assert forall|i: int, j: int|
        0 <= i < after.teams.len() && 0 <= j < after.teams.len() && i != j implies (
    #[trigger] after.teams[i]).id != (#[trigger] after.teams[j]).id by {
        assert(db.teams[i].id != db.teams[j].id);
    }
}

/// Disabling a team keeps the integrity rules.
pub proof fn delete_team_keeps_integrity(db: DatabaseView, id: i64)
    requires
        db.wf(),
    ensures
        db.delete_team(id).wf(),
{
    let after = db.delete_team(id);
    assert forall|i: int| 0 <= i < after.teams.len() implies 1 <= (#[trigger] after.teams[i]).id
        < after.next_team_id by {
        assert(db.teams[i].id == after.teams[i].id);
    }
    assert forall|i: int| 0 <= i < after.events.len() implies after.team_known(
        (#[trigger] after.events[i]).team_id,
    ) by {
        assert(db.team_known(db.events[i].team_id));
        if db.events[i].team_id is Some {
            disabled_team_keeps_ids(db.teams, id, db.events[i].team_id->0);
        }
    }
    assert forall|i: int, j: int|
        0 <= i < after.teams.len() && 0 <= j < after.teams.len() && i != j implies (
    #[trigger] after.teams[i]).id != (#[trigger] after.teams[j]).id by {
        assert(db.teams[i].id != db.teams[j].id);
    }
}

/// A table that grows by a row still has every id it had.
pub proof fn pushed_event_keeps_ids(rows: Seq<EventRowView>, row: EventRowView, id: i64)
    requires
        has_event(rows, id),
    ensures
        has_event(rows.push(row), id),
{
    let i = choose|i: int| 0 <= i < rows.len() && (#[trigger] rows[i]).id == id;
    assert(rows.push(row)[i].id == id);
}

/// What is left of an association table without one event's rows still
/// has no row twice, and each of its rows was there before.
pub proof fn detached_rows_stay_distinct(links: Seq<Participation>, event_id: i64)
    requires
        links.no_duplicates(),
    ensures
        without_event(links, event_id).no_duplicates(),
{
    let keep = |p: Participation| p.event_id != event_id;
    let differ = |a: Participation, b: Participation| a != b;
    filter_keeps_pairwise(links, keep, differ);
    let kept = links.filter(keep);
    assert forall|a: int, b: int| 0 <= a < kept.len() && 0 <= b < kept.len() && a != b implies kept[a]
        != kept[b] by {
        if a < b {
            assert(differ(kept[a], kept[b]));
        } else {
            assert(differ(kept[b], kept[a]));
        }
    }
}

/// Creating an event keeps the integrity rules, whether the request was
/// taken or refused.
pub proof fn create_event_keeps_integrity(db: DatabaseView, fields: CreateEventView)
    requires
        db.wf(),
    ensures
        db.create_event(fields).wf(),
{
    if db.create_event_outcome(fields) is Ok {
        let after = db.create_event(fields);
        let id = db.next_event_id;
        let row = EventRowView::created(id, fields);
        let added = links_for(id, fields.employee_ids);
        assert(after.events[db.events.len() as int].id == id);
        assert forall|i: int| 0 <= i < after.events.len() implies after.team_known(
            (#[trigger] after.events[i]).team_id,
        ) by {
            if i < db.events.len() {
                assert(db.team_known(db.events[i].team_id));
            }
        }
        assert forall|i: int| 0 <= i < after.participations.len() implies has_event(
            after.events,
            (#[trigger] after.participations[i]).event_id,
        ) && has_employee(after.employees, after.participations[i].employee_id) by {
            if i < db.participations.len() {
                pushed_event_keeps_ids(db.events, row, db.participations[i].event_id);
            } else {
                let k = i - db.participations.len();
                assert(added[k].employee_id == fields.employee_ids[k]);
            }
        }
        assert(added.no_duplicates()) by {
            assert forall|a: int, b: int|
                0 <= a < added.len() && 0 <= b < added.len() && a != b implies added[a]
                != added[b] by {
                assert(fields.employee_ids[a] != fields.employee_ids[b]);
            }
        }
        assert forall|i: int, j: int|
            0 <= i < db.participations.len() && 0 <= j < added.len() implies db.participations[i]
            != added[j] by {
            if db.participations[i] == added[j] {
                let wanted = Participation { event_id: id, employee_id: fields.employee_ids[j] };
                assert(db.participations[i] == wanted);
                assert(db.participations.contains(wanted));
            }
        }
        lemma_no_dup_in_concat(db.participations, added);
    }
}

/// Updating an event keeps the integrity rules, whether the request was
/// taken or refused.
pub proof fn update_event_keeps_integrity(db: DatabaseView, update: UpdateEventView)
    requires
        db.wf(),
    ensures
        db.update_event(update).wf(),
{
    if db.update_event_outcome(update) is Ok {
        let after = db.update_event(update);
        let row = EventRowView::updated(update);
        let keep = |p: Participation| p.event_id != update.id;
        let kept = without_event(db.participations, update.id);
        let added = links_for(update.id, update.employee_ids);
        assert forall|i: int| 0 <= i < after.events.len() implies 1 <= (
        #[trigger] after.events[i]).id < after.next_event_id by {
            assert(db.events[i].id == after.events[i].id);
        }
        assert forall|i: int, j: int|
            0 <= i < after.events.len() && 0 <= j < after.events.len() && i != j implies (
        #[trigger] after.events[i]).id != (#[trigger] after.events[j]).id by {
            assert(db.events[i].id != db.events[j].id);
        }
        assert forall|i: int| 0 <= i < after.events.len() implies after.team_known(
            (#[trigger] after.events[i]).team_id,
        ) by {
            assert(db.team_known(db.events[i].team_id));
        }
        assert forall|i: int| 0 <= i < after.participations.len() implies has_event(
            after.events,
            (#[trigger] after.participations[i]).event_id,
        ) && has_employee(after.employees, after.participations[i].employee_id) by {
            let link = after.participations[i];
            if i < kept.len() {
                assert(kept.contains(kept[i]));
                filter_membership(db.participations, keep, kept[i]);
                let k = choose|k: int|
                    0 <= k < db.participations.len() && db.participations[k] == kept[i];
                assert(has_event(db.events, db.participations[k].event_id));
            } else {
                let k = i - kept.len();
                assert(added[k].employee_id == update.employee_ids[k]);
            }
            replaced_event_keeps_ids(db.events, row, link.event_id);
        }
        detached_rows_stay_distinct(db.participations, update.id);
        assert(added.no_duplicates()) by {
            assert forall|a: int, b: int|
                0 <= a < added.len() && 0 <= b < added.len() && a != b implies added[a]
                != added[b] by {
                assert(update.employee_ids[a] != update.employee_ids[b]);
            }
        }
        assert forall|i: int, j: int| 0 <= i < kept.len() && 0 <= j < added.len() implies kept[i]
            != added[j] by {
            if kept[i] == added[j] {
                let wanted = Participation {
                    event_id: update.id,
                    employee_id: update.employee_ids[j],
                };
                assert(kept[i] == wanted);
                assert(kept.contains(wanted));
            }
        }
        lemma_no_dup_in_concat(kept, added);
    }
}

/// Deleting an event keeps the integrity rules.
pub proof fn delete_event_keeps_integrity(db: DatabaseView, id: i64)
    requires
        db.wf(),
    ensures
        db.delete_event(id).wf(),
{
    let after = db.delete_event(id);
    let keep_row = |r: EventRowView| r.id != id;
    let keep_link = |p: Participation| p.event_id != id;
    let differ = |a: EventRowView, b: EventRowView| a.id != b.id;
    filter_keeps_pairwise(db.events, keep_row, differ);
    assert forall|i: int, j: int|
        0 <= i < after.events.len() && 0 <= j < after.events.len() && i != j implies (
    #[trigger] after.events[i]).id != (#[trigger] after.events[j]).id by {
        if i < j {
            assert(differ(after.events[i], after.events[j]));
        } else {
            assert(differ(after.events[j], after.events[i]));
        }
    }
    assert forall|i: int| 0 <= i < after.events.len() implies 1 <= (#[trigger] after.events[i]).id
        < after.next_event_id && after.team_known(after.events[i].team_id) by {
        assert(after.events.contains(after.events[i]));
        filter_membership(db.events, keep_row, after.events[i]);
        let k = choose|k: int| 0 <= k < db.events.len() && db.events[k] == after.events[i];
        assert(db.team_known(db.events[k].team_id));
    }
    assert forall|i: int| 0 <= i < after.participations.len() implies has_event(
        after.events,
        (#[trigger] after.participations[i]).event_id,
    ) && has_employee(after.employees, after.participations[i].employee_id) by {
        let link = after.participations[i];
        assert(after.participations.contains(link));
        filter_membership(db.participations, keep_link, link);
        let k = choose|k: int| 0 <= k < db.participations.len() && db.participations[k] == link;
        assert(has_event(db.events, db.participations[k].event_id));
        removed_event_keeps_other_ids(db.events, id, link.event_id);
    }
    detached_rows_stay_distinct(db.participations, id);
}

/// Changing the password keeps the integrity rules.
pub proof fn change_password_keeps_integrity(
    db: DatabaseView,
    old_password: Seq<char>,
    new_password: Seq<char>,
)
    requires
        db.wf(),
    ensures
        db.change_password(old_password, new_password).wf(),
{
}

} // verus!
