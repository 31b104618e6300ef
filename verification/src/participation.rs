//! The association between events and the employees that take part.

use vstd::prelude::*;
use crate::employee::{employee_views, find_employee, has_employee, lookup_employee,
    lookup_employee_finds, Employee, EmployeeView};
use crate::error::PostgresError;

verus! {

/// One row of the association table: this employee takes part in this event.
#[derive(Debug, Clone, Copy, PartialEq, Eq, Structural)]
pub struct Participation {
    pub event_id: i64,
    pub employee_id: i64,
}

/// The rows that attach each of `ids`, in order, to the event.
pub open spec fn links_for(event_id: i64, ids: Seq<i64>) -> Seq<Participation> {
    ids.map_values(|id: i64| Participation { event_id, employee_id: id })
}

/// The association table without the rows of this event.
pub open spec fn without_event(links: Seq<Participation>, event_id: i64) -> Seq<Participation> {
    links.filter(|p: Participation| p.event_id != event_id)
}

/// The employees of an event: one for each association row of the event
/// whose employee exists, in the order of the association table. However
/// many rows there are, they end up in this one list.
pub open spec fn participants(
    links: Seq<Participation>,
    employees: Seq<EmployeeView>,
    event_id: i64,
) -> Seq<EmployeeView> {
    links.filter(
        |p: Participation| p.event_id == event_id && has_employee(employees, p.employee_id),
    ).map_values(|p: Participation| lookup_employee(employees, p.employee_id)->0)
}

/// Whether the association table takes the rows that attach `ids` to the
/// event: every id names an existing employee, no such row is there yet,
/// and no id comes twice.
pub open spec fn attachable(
    links: Seq<Participation>,
    employees: Seq<EmployeeView>,
    event_id: i64,
    ids: Seq<i64>,
) -> bool {
    &&& forall|i: int| 0 <= i < ids.len() ==> has_employee(employees, #[trigger] ids[i])
    &&& forall|i: int|
        0 <= i < ids.len() ==> !links.contains(
            Participation { event_id, employee_id: #[trigger] ids[i] },
        )
    &&& ids.no_duplicates()
}

/// Whether the table holds this row.
pub fn holds(links: &Vec<Participation>, row: Participation) -> (found: bool)
    ensures
        found == links@.contains(row),
{
    let mut i: usize = 0;
    while i < links.len()
        invariant
            i <= links.len(),
            forall|k: int| 0 <= k < i ==> links@[k] != row,
        decreases links.len() - i,
    {
        if links[i].event_id == row.event_id && links[i].employee_id == row.employee_id {
            return true;
        }
        i += 1;
    }
    false
}

/// Gathers the employees of one event into a single list.
pub fn collect_participants(
    links: &Vec<Participation>,
    employees: &Vec<Employee>,
    event_id: i64,
) -> (found: Vec<Employee>)
    ensures
        employee_views(found@) == participants(links@, employee_views(employees@), event_id),
{
    let ghost table = employee_views(employees@);
    let ghost keep = |p: Participation| p.event_id == event_id && has_employee(table, p.employee_id);
    let ghost pick = |p: Participation| lookup_employee(table, p.employee_id)->0;
    let mut found: Vec<Employee> = Vec::new();
    let mut i: usize = 0;
    proof {
        assert(links@.take(0).filter(keep) =~= Seq::<Participation>::empty()) by {
            reveal(Seq::filter);
        }
        assert(employee_views(found@) =~= links@.take(0).filter(keep).map_values(pick));
    }
    while i < links.len()
        invariant
            i <= links.len(),
            table == employee_views(employees@),
            keep == |p: Participation|
                p.event_id == event_id && has_employee(table, p.employee_id),
            pick == |p: Participation| lookup_employee(table, p.employee_id)->0,
            employee_views(found@) == links@.take(i as int).filter(keep).map_values(pick),
        decreases links.len() - i,
    {
        let link = links[i];
        proof {
            links@.lemma_take_succ_push(i as int);
            links@.take(i as int).lemma_filter_push(link, keep);
            lookup_employee_finds(table, link.employee_id);
        }
        if link.event_id == event_id {
            match find_employee(employees, link.employee_id) {
                Some(employee) => {
                    let ghost prior = employee_views(found@);
                    found.push(employee);
                    proof {
                        assert(employee_views(found@) =~= prior.push(pick(link)));
                        assert(links@.take(i as int).filter(keep).push(link).map_values(pick)
                            =~= prior.push(pick(link)));
                    }
                },
                None => {},
            }
        }
        i += 1;
    }
    proof {
        assert(links@.take(links.len() as int) =~= links@);
    }
    found
}

/// Copies the association table.
pub fn copy_links(links: &Vec<Participation>) -> (copy: Vec<Participation>)
    ensures
        copy@ == links@,
{
    let mut copy: Vec<Participation> = Vec::new();
    let mut i: usize = 0;
    while i < links.len()
        invariant
            i <= links.len(),
            copy@ == links@.take(i as int),
        decreases links.len() - i,
    {
        copy.push(links[i]);
        proof {
            links@.lemma_take_succ_push(i as int);
        }
        i += 1;
    }
    proof {
        assert(links@.take(links.len() as int) =~= links@);
    }
    copy
}

/// Copies the association table without the rows of this event.
pub fn detach_event(links: &Vec<Participation>, event_id: i64) -> (kept: Vec<Participation>)
    ensures
        kept@ == without_event(links@, event_id),
{
    let ghost keep = |p: Participation| p.event_id != event_id;
    let mut kept: Vec<Participation> = Vec::new();
    let mut i: usize = 0;
    proof {
        assert(links@.take(0).filter(keep) =~= Seq::<Participation>::empty()) by {
            reveal(Seq::filter);
        }
    }
    while i < links.len()
        invariant
            i <= links.len(),
            keep == |p: Participation| p.event_id != event_id,
            kept@ == links@.take(i as int).filter(keep),
        decreases links.len() - i,
    {
        let link = links[i];
        proof {
            links@.lemma_take_succ_push(i as int);
            links@.take(i as int).lemma_filter_push(link, keep);
        }
        if link.event_id != event_id {
            kept.push(link);
        }
        i += 1;
    }
    proof {
        assert(links@.take(links.len() as int) =~= links@);
    }
    kept
}

/// Adds the rows that attach `ids` to the event, all of them or fails.
/// The statement is refused as a whole when an id names no employee or a
/// row would come twice; what `links` then holds is to be thrown away.
pub fn attach(
    links: &mut Vec<Participation>,
    employees: &Vec<Employee>,
    event_id: i64,
    ids: &Vec<i64>,
) -> (outcome: Result<(), PostgresError>)
    ensures
        outcome is Ok <==> attachable(
            old(links)@,
            employee_views(employees@),
            event_id,
            ids@,
        ),
        outcome is Ok ==> final(links)@ == old(links)@ + links_for(event_id, ids@),
        outcome is Err ==> outcome == Err::<(), PostgresError>(PostgresError::Query),
{
    let ghost before = links@;
    let ghost table = employee_views(employees@);
    let mut i: usize = 0;
    proof {
        assert(links@ =~= before + links_for(event_id, ids@.take(0)));
    }
    while i < ids.len()
        invariant
            i <= ids.len(),
            table == employee_views(employees@),
            before == old(links)@,
            links@ == before + links_for(event_id, ids@.take(i as int)),
            attachable(before, table, event_id, ids@.take(i as int)),
        decreases ids.len() - i,
    {
        let id = ids[i];
        let row = Participation { event_id, employee_id: id };
        let ghost seen = ids@.take(i as int);
        proof {
            lookup_employee_finds(table, id);
            ids@.lemma_take_succ_push(i as int);
        }
        let known = find_employee(employees, id).is_some();
        if !known {
            proof {
                assert(ids@[i as int] == id);
            }
            return Err(PostgresError::Query);
        }
        if holds(links, row) {
            proof {
                let k = choose|k: int| 0 <= k < links@.len() && links@[k] == row;
                if k < before.len() {
                    assert(before[k] == row);
                    assert(before.contains(row));
                    assert(ids@[i as int] == id);
                } else {
                    let j = k - before.len();
                    assert(links_for(event_id, seen)[j] == row);
                    assert(seen[j] == id);
                    assert(ids@[j] == ids@[i as int] && j != i);
                }
            }
            return Err(PostgresError::Query);
        }
        links.push(row);
        proof {
            let next = ids@.take(i + 1);
            assert(links@ =~= before + links_for(event_id, next));
            assert(!before.contains(row)) by {
                if before.contains(row) {
                    let k = choose|k: int| 0 <= k < before.len() && before[k] == row;
                    assert((before + links_for(event_id, seen))[k] == row);
                }
            }
            assert(next.no_duplicates()) by {
                assert forall|a: int, b: int|
                    0 <= a < next.len() && 0 <= b < next.len() && a != b implies next[a]
                    != next[b] by {
                    if a == i && b < i {
                        if next[b] == id {
                            assert((before + links_for(event_id, seen))[before.len() + b]
                                == row);
                        }
                    } else if b == i && a < i {
                        if next[a] == id {
                            assert((before + links_for(event_id, seen))[before.len() + a]
                                == row);
                        }
                    } else {
                        assert(seen[a] == next[a] && seen[b] == next[b]);
                    }
                }
            }
            assert forall|k: int| 0 <= k < next.len() implies has_employee(
                table,
                #[trigger] next[k],
            ) && !before.contains(Participation { event_id, employee_id: next[k] }) by {
                if k < i {
                    assert(seen[k] == next[k]);
                }
            }
        }
        i += 1;
    }
    proof {
        assert(ids@.take(ids.len() as int) =~= ids@);
    }
    Ok(())
}

} // verus!
