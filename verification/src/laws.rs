//! What holds of the store across operations.

use vstd::prelude::*;
use crate::database_view::DatabaseView;
use crate::employee::{disable_employee, has_employee, lookup_employee, lookup_employee_finds,
    EmployeeView};
use crate::event::{CreateEventView, UpdateEventView};
use crate::event_row::{has_event, EventRowView};
use crate::integrity::disabled_employee_keeps_ids;
use crate::participants_facts::{attached_links_are_the_participants,
    detaching_spares_other_events, other_links_do_not_count};
use crate::participation::{links_for, participants, without_event, Participation};
use crate::query::EventsQuery;
use crate::seq_facts::{filter_by_agreeing, filter_of_all_passing};
use crate::team::{disable_team, lookup_team, lookup_team_finds, TeamView};

verus! {

/// A listing holds only events that overlap its window, holds every event
/// row that does, and holds no more events than there are event rows.
pub proof fn listing_is_the_overlapping_events(db: DatabaseView, query: EventsQuery)
    ensures
        forall|k: int|
            0 <= k < db.get_events(query).len() ==> query.admits(
                (#[trigger] db.get_events(query)[k]).start,
                db.get_events(query)[k].end,
            ),
        forall|i: int|
            0 <= i < db.events.len() && query.admits(db.events[i].start, db.events[i].end)
                ==> db.get_events(query).contains(db.joined(#[trigger] db.events[i])),
        db.get_events(query).len() <= db.events.len(),
{
    let keep = |r: EventRowView| query.admits(r.start, r.end);
    let join = |r: EventRowView| db.joined(r);
    let kept = db.events.filter(keep);
    let listed = db.get_events(query);
    db.events.lemma_filter_len(keep);
    assert forall|k: int| 0 <= k < listed.len() implies query.admits(
        (#[trigger] listed[k]).start,
        listed[k].end,
    ) by {
        db.events.lemma_filter_pred(keep, k);
        assert(listed[k] == join(kept[k]));
    }
    assert forall|i: int|
        0 <= i < db.events.len() && query.admits(
            db.events[i].start,
            db.events[i].end,
        ) implies listed.contains(db.joined(#[trigger] db.events[i])) by {
        db.events.lemma_filter_contains(keep, i);
        let k = choose|k: int| 0 <= k < kept.len() && kept[k] == db.events[i];
        assert(listed[k] == db.joined(db.events[i]));
    }
}

/// A query without bounds lists every event row.
pub proof fn unbounded_listing_is_every_event(db: DatabaseView)
    ensures
        db.get_events(EventsQuery { start: None, end: None }) == db.events.map_values(
            |r: EventRowView| db.joined(r),
        ),
{
    let query = EventsQuery { start: None, end: None };
    filter_of_all_passing(db.events, |r: EventRowView| query.admits(r.start, r.end));
}

/// An event that was created is listed by every query whose window
/// overlaps its period: the listing is the one from before with one more
/// event, which carries the new id and the fields that were given. No
/// other listed event has that id.
pub proof fn created_event_is_listed(
    db: DatabaseView,
    fields: CreateEventView,
    query: EventsQuery,
)
    requires
        db.wf(),
        db.create_event_outcome(fields) is Ok,
        query.admits(fields.start, fields.end),
    ensures
        ({
            let after = db.create_event(fields);
            let id = db.next_event_id;
            let event = after.joined(EventRowView::created(id, fields));
            &&& after.get_events(query) == db.get_events(query).push(event)
            &&& forall|k: int|
                0 <= k < db.get_events(query).len() ==> (#[trigger] db.get_events(query)[k]).id
                    != id
            &&& event.id == id
            &&& event.title == fields.title
            &&& event.details == fields.details
            &&& event.start == fields.start
            &&& event.end == fields.end
            &&& event.team_id() == fields.team_id
            &&& event.employee_ids() == fields.employee_ids
        }),
{
    let after = db.create_event(fields);
    let id = db.next_event_id;
    let row = EventRowView::created(id, fields);
    let event = after.joined(row);
    let keep = |r: EventRowView| query.admits(r.start, r.end);
    let join_before = |r: EventRowView| db.joined(r);
    let join_after = |r: EventRowView| after.joined(r);
    let added = links_for(id, fields.employee_ids);
    let kept = db.events.filter(keep);

    assert forall|i: int| 0 <= i < db.participations.len() implies (
    #[trigger] db.participations[i]).event_id != id by {
        let e = db.participations[i].event_id;
        assert(has_event(db.events, e));
        let k = choose|k: int| 0 <= k < db.events.len() && (#[trigger] db.events[k]).id == e;
        assert(db.events[k].id < id);
    }
    attached_links_are_the_participants(db.participations, db.employees, id, fields.employee_ids);
    if fields.team_id is Some {
        lookup_team_finds(db.teams, fields.team_id->0);
    }

    db.events.lemma_filter_push(row, keep);
    assert forall|k: int| 0 <= k < kept.len() implies join_after(#[trigger] kept[k])
        == join_before(kept[k]) && kept[k].id != id by {
        assert(kept.contains(kept[k]));
        db.events.lemma_filter_contains_rev(keep, kept[k]);
        let i = choose|i: int| 0 <= i < db.events.len() && db.events[i] == kept[k];
        assert(db.events[i].id < id);
        assert forall|j: int| 0 <= j < added.len() implies (#[trigger] added[j]).event_id
            != kept[k].id by {}
        other_links_do_not_count(db.participations, added, db.employees, kept[k].id);
    }
    assert(after.get_events(query) =~= db.get_events(query).push(event));
}

/// After an update the event carries exactly the fields and the
/// participants that the update gave: the old participants are replaced,
/// none is kept and none is merged in. Every listing that holds the event
/// shows it so.
pub proof fn updated_event_is_replaced(db: DatabaseView, update: UpdateEventView)
    requires
        db.wf(),
        db.update_event_outcome(update) is Ok,
    ensures
        ({
            let after = db.update_event(update);
            let event = after.joined(EventRowView::updated(update));
            &&& event.to_update() == update
            &&& forall|query: EventsQuery, k: int|
                0 <= k < after.get_events(query).len() && (#[trigger] after.get_events(
                    query,
                )[k]).id == update.id ==> after.get_events(query)[k] == event
            &&& forall|query: EventsQuery|
                query.admits(update.start, update.end) ==> (#[trigger] after.get_events(
                    query,
                )).contains(event)
        }),
{
    let after = db.update_event(update);
    let row = EventRowView::updated(update);
    let event = after.joined(row);
    let kept = without_event(db.participations, update.id);
    detaching_spares_other_events(db.participations, db.employees, update.id, update.id);
    attached_links_are_the_participants(kept, db.employees, update.id, update.employee_ids);
    if update.team_id is Some {
        lookup_team_finds(db.teams, update.team_id->0);
    }
    assert(event.to_update() == update);

    let at = choose|i: int| 0 <= i < db.events.len() && (#[trigger] db.events[i]).id == update.id;
    assert(after.events[at] == row);
    assert forall|query: EventsQuery, k: int|
        0 <= k < after.get_events(query).len() && (#[trigger] after.get_events(query)[k]).id
            == update.id implies after.get_events(query)[k] == event by {
        let keep = |r: EventRowView| query.admits(r.start, r.end);
        let rows = after.events.filter(keep);
        assert(rows.contains(rows[k]));
        after.events.lemma_filter_contains_rev(keep, rows[k]);
        let i = choose|i: int| 0 <= i < after.events.len() && after.events[i] == rows[k];
        assert(after.events[i].id == update.id);
        assert(db.events[i].id == update.id);
        assert(after.events[i] == row);
    }
    assert forall|query: EventsQuery| query.admits(update.start, update.end) implies (
    #[trigger] after.get_events(query)).contains(event) by {
        listing_is_the_overlapping_events(after, query);
        assert(after.joined(after.events[at]) == event);
    }
}

/// An update leaves every other event as it was.
pub proof fn update_spares_other_events(
    db: DatabaseView,
    update: UpdateEventView,
    row: EventRowView,
)
    requires
        row.id != update.id,
    ensures
        db.update_event(update).joined(row) == db.joined(row),
{
    if db.update_event_outcome(update) is Ok {
        let added = links_for(update.id, update.employee_ids);
        let kept = without_event(db.participations, update.id);
        assert forall|j: int| 0 <= j < added.len() implies (#[trigger] added[j]).event_id
            != row.id by {}
        other_links_do_not_count(kept, added, db.employees, row.id);
        detaching_spares_other_events(db.participations, db.employees, update.id, row.id);
    }
}

/// An update that fails at any step leaves the store as it was: the
/// event's own fields and its participants read as before.
pub proof fn refused_update_changes_nothing(
    db: DatabaseView,
    update: UpdateEventView,
    query: EventsQuery,
)
    requires
        db.update_event_outcome(update) is Err,
    ensures
        db.update_event(update) == db,
        db.update_event(update).get_events(query) == db.get_events(query),
{
}

/// A creation that fails at any step leaves the store as it was.
pub proof fn refused_creation_changes_nothing(db: DatabaseView, fields: CreateEventView)
    requires
        db.create_event_outcome(fields) is Err,
    ensures
        db.create_event(fields) == db,
{
}

/// Looking an employee up after another was disabled finds the same row,
/// with the flag set if it is the one that was disabled.
pub proof fn lookup_after_disabling(rows: Seq<EmployeeView>, disabled: i64, id: i64)
    ensures
        lookup_employee(disable_employee(rows, disabled), id) == match lookup_employee(rows, id) {
            Some(row) => Some(
                if id == disabled {
                    row.disable()
                } else {
                    row
                },
            ),
            None => None,
        },
    decreases rows.len(),
{
    let after = disable_employee(rows, disabled);
    if rows.len() > 0 {
        assert(after.drop_first() =~= disable_employee(rows.drop_first(), disabled));
        lookup_after_disabling(rows.drop_first(), disabled, id);
    }
}

/// Disabling an employee takes them out of no event: every event lists
/// the same employees, by id and in the same order, as before. Nothing
/// but the flag of the disabled employee reads differently.
pub proof fn disabling_keeps_participants(db: DatabaseView, employee_id: i64, row: EventRowView)
    ensures
        db.delete_employee(employee_id).joined(row).employee_ids() == db.joined(
            row,
        ).employee_ids(),
        db.delete_employee(employee_id).joined(row).employees == disable_employee(
            db.joined(row).employees,
            employee_id,
        ),
        db.delete_employee(employee_id).joined(row).team == db.joined(row).team,
{
    let after = db.delete_employee(employee_id);
    let keep_before = |p: Participation|
        p.event_id == row.id && has_employee(db.employees, p.employee_id);
    let keep_after = |p: Participation|
        p.event_id == row.id && has_employee(after.employees, p.employee_id);
    assert forall|i: int| 0 <= i < db.participations.len() implies keep_after(
        #[trigger] db.participations[i],
    ) == keep_before(db.participations[i]) by {
        disabled_employee_keeps_ids(db.employees, employee_id, db.participations[i].employee_id);
    }
    filter_by_agreeing(db.participations, keep_after, keep_before);
    let links = db.participations.filter(keep_before);
    let before_ids = db.joined(row).employee_ids();
    let after_ids = after.joined(row).employee_ids();
    assert forall|k: int| 0 <= k < links.len() implies after_ids[k] == before_ids[k] by {
        lookup_after_disabling(db.employees, employee_id, links[k].employee_id);
        db.participations.lemma_filter_pred(keep_before, k);
        lookup_employee_finds(db.employees, links[k].employee_id);
    }
    assert(after_ids =~= before_ids);
    let before_list = db.joined(row).employees;
    let after_list = after.joined(row).employees;
    assert(after_list.len() == links.len() && before_list.len() == links.len());
    assert forall|k: int| 0 <= k < links.len() implies after_list[k] == disable_employee(
        before_list,
        employee_id,
    )[k] by {
        lookup_after_disabling(db.employees, employee_id, links[k].employee_id);
        db.participations.lemma_filter_pred(keep_before, k);
        lookup_employee_finds(db.employees, links[k].employee_id);
        assert(before_list[k] == lookup_employee(db.employees, links[k].employee_id)->0);
        assert(after_list[k] == lookup_employee(after.employees, links[k].employee_id)->0);
    }
    assert(after_list =~= disable_employee(before_list, employee_id));
}

/// Looking a team up after another was disabled finds the same row, with
/// the flag set if it is the one that was disabled.
pub proof fn lookup_after_disabling_team(rows: Seq<TeamView>, disabled: i64, id: i64)
    ensures
        lookup_team(disable_team(rows, disabled), id) == match lookup_team(rows, id) {
            Some(row) => Some(
                if id == disabled {
                    row.disable()
                } else {
                    row
                },
            ),
            None => None,
        },
    decreases rows.len(),
{
    let after = disable_team(rows, disabled);
    if rows.len() > 0 {
        assert(after.drop_first() =~= disable_team(rows.drop_first(), disabled));
        lookup_after_disabling_team(rows.drop_first(), disabled, id);
    }
}

/// Disabling a team takes it off no event: every event names the same
/// team and lists the same employees as before.
pub proof fn disabling_keeps_team(db: DatabaseView, team_id: i64, row: EventRowView)
    ensures
        db.delete_team(team_id).joined(row).team_id() == db.joined(row).team_id(),
        db.delete_team(team_id).joined(row).employees == db.joined(row).employees,
{
    if row.team_id is Some {
        lookup_after_disabling_team(db.teams, team_id, row.team_id->0);
    }
}

} // verus!
