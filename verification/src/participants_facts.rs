//! How the participants of an event follow the association table.

use vstd::prelude::*;
use crate::employee::{has_employee, lookup_employee, lookup_employee_finds, EmployeeView};
use crate::participation::{links_for, participants, without_event, Participation};
use crate::seq_facts::{filter_by_agreeing, filter_of_all_passing, filter_of_none_passing};

verus! {

/// The employees that a list of ids names, one for one.
pub open spec fn employees_named(employees: Seq<EmployeeView>, ids: Seq<i64>) -> Seq<
    EmployeeView,
> {
    ids.map_values(|id: i64| lookup_employee(employees, id)->0)
}

/// Rows of other events do not change who takes part in an event.
pub proof fn other_links_do_not_count(
    links: Seq<Participation>,
    added: Seq<Participation>,
    employees: Seq<EmployeeView>,
    event_id: i64,
)
    requires
        forall|i: int| 0 <= i < added.len() ==> (#[trigger] added[i]).event_id != event_id,
    ensures
        participants(links + added, employees, event_id) == participants(
            links,
            employees,
            event_id,
        ),
{
    let keep = |p: Participation|
        p.event_id == event_id && has_employee(employees, p.employee_id);
    Seq::filter_distributes_over_add(links, added, keep);
    filter_of_none_passing(added, keep);
    assert(links.filter(keep) + Seq::<Participation>::empty() =~= links.filter(keep));
}

/// Where the table has no row of an event yet, the rows that attach a
/// list of existing employees make exactly those its participants, in
/// the order of the list.
pub proof fn attached_links_are_the_participants(
    links: Seq<Participation>,
    employees: Seq<EmployeeView>,
    event_id: i64,
    ids: Seq<i64>,
)
    requires
        forall|i: int| 0 <= i < links.len() ==> (#[trigger] links[i]).event_id != event_id,
        forall|i: int| 0 <= i < ids.len() ==> has_employee(employees, #[trigger] ids[i]),
    ensures
        participants(links + links_for(event_id, ids), employees, event_id) == employees_named(
            employees,
            ids,
        ),
        employees_named(employees, ids).map_values(|e: EmployeeView| e.id) == ids,
{
    let keep = |p: Participation|
        p.event_id == event_id && has_employee(employees, p.employee_id);
    let added = links_for(event_id, ids);
    Seq::filter_distributes_over_add(links, added, keep);
    filter_of_none_passing(links, keep);
    assert forall|i: int| 0 <= i < added.len() implies keep(#[trigger] added[i]) by {
        assert(added[i].employee_id == ids[i]);
    }
    filter_of_all_passing(added, keep);
    assert(Seq::<Participation>::empty() + added =~= added);
    assert(participants(links + added, employees, event_id) =~= employees_named(employees, ids));
    assert forall|i: int| 0 <= i < ids.len() implies employees_named(employees, ids)[i].id
        == ids[i] by {
        lookup_employee_finds(employees, ids[i]);
    }
    assert(employees_named(employees, ids).map_values(|e: EmployeeView| e.id) =~= ids);
}

/// Filtering twice keeps what passes both filters.
pub proof fn filter_twice<A>(s: Seq<A>, first: spec_fn(A) -> bool, second: spec_fn(A) -> bool)
    ensures
        s.filter(first).filter(second) == s.filter(|x: A| first(x) && second(x)),
    decreases s.len(),
{
    reveal(Seq::filter);
    let both = |x: A| first(x) && second(x);
    if s.len() > 0 {
        filter_twice(s.drop_last(), first, second);
        if first(s.last()) {
            s.drop_last().filter(first).lemma_filter_push(s.last(), second);
        }
    } else {
        assert(s.filter(first).filter(second) =~= s.filter(both));
    }
}

/// Taking one event's rows out of the table leaves none of them behind
/// and does not change who takes part in another event.
pub proof fn detaching_spares_other_events(
    links: Seq<Participation>,
    employees: Seq<EmployeeView>,
    detached: i64,
    event_id: i64,
)
    ensures
        forall|i: int|
            0 <= i < without_event(links, detached).len() ==> (#[trigger] without_event(
                links,
                detached,
            )[i]).event_id != detached,
        event_id != detached ==> participants(without_event(links, detached), employees, event_id)
            == participants(links, employees, event_id),
{
    let gone = |p: Participation| p.event_id != detached;
    let keep = |p: Participation|
        p.event_id == event_id && has_employee(employees, p.employee_id);
    assert forall|i: int| 0 <= i < links.filter(gone).len() implies (#[trigger] links.filter(
        gone,
    )[i]).event_id != detached by {
        links.lemma_filter_pred(gone, i);
    }
    if event_id != detached {
        filter_twice(links, gone, keep);
        filter_by_agreeing(links, |p: Participation| gone(p) && keep(p), keep);
    }
}

} // verus!
