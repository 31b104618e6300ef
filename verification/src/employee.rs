//! Employees: people who take part in events.

use vstd::prelude::*;
use vstd::std_specs::cmp::PartialEqSpecImpl;

verus! {

/// The mathematical value of an [`Employee`].
pub struct EmployeeView {
    pub id: i64,
    pub name: Seq<char>,
    pub color: Seq<char>,
    pub disabled: bool,
}

/// A stored employee. Disabling one is a soft delete: the row stays
/// addressable by its id and stays valid inside events that name it.
#[derive(Debug)]
pub struct Employee {
    pub id: i64,
    pub name: String,
    pub color: String,
    pub disabled: bool,
}

/// The fields a caller supplies to create an employee.
#[derive(Debug)]
pub struct CreateEmployee {
    pub name: String,
    pub color: String,
}

/// The mathematical value of a [`CreateEmployee`].
pub struct CreateEmployeeView {
    pub name: Seq<char>,
    pub color: Seq<char>,
}

impl View for Employee {
    type V = EmployeeView;

    open spec fn view(&self) -> EmployeeView {
        EmployeeView {
            id: self.id,
            name: self.name@,
            color: self.color@,
            disabled: self.disabled,
        }
    }
}

impl View for CreateEmployee {
    type V = CreateEmployeeView;

    open spec fn view(&self) -> CreateEmployeeView {
        CreateEmployeeView { name: self.name@, color: self.color@ }
    }
}

impl Clone for Employee {
    fn clone(&self) -> (copy: Self)
        ensures
            copy@ == self@,
    {
        Employee {
            id: self.id,
            name: self.name.clone(),
            color: self.color.clone(),
            disabled: self.disabled,
        }
    }
}

impl Clone for CreateEmployee {
    fn clone(&self) -> (copy: Self)
        ensures
            copy@ == self@,
    {
        CreateEmployee { name: self.name.clone(), color: self.color.clone() }
    }
}

impl PartialEq for Employee {
    fn eq(&self, other: &Self) -> (same: bool) {
        self.id == other.id && self.name == other.name && self.color == other.color
            && self.disabled == other.disabled
    }
}

impl PartialEqSpecImpl for Employee {
    open spec fn obeys_eq_spec() -> bool {
        true
    }

    open spec fn eq_spec(&self, other: &Self) -> bool {
        self@ == other@
    }
}

impl Eq for Employee {}

impl PartialEq for CreateEmployee {
    fn eq(&self, other: &Self) -> (same: bool) {
        self.name == other.name && self.color == other.color
    }
}

impl PartialEqSpecImpl for CreateEmployee {
    open spec fn obeys_eq_spec() -> bool {
        true
    }

    open spec fn eq_spec(&self, other: &Self) -> bool {
        self@ == other@
    }
}

impl Eq for CreateEmployee {}

impl EmployeeView {
    /// The row that creating an employee with these fields under `id` stores.
    pub open spec fn created(id: i64, fields: CreateEmployeeView) -> EmployeeView {
        EmployeeView { id, name: fields.name, color: fields.color, disabled: false }
    }

    /// This row with the soft-delete flag set.
    pub open spec fn disable(self) -> EmployeeView {
        EmployeeView { disabled: true, ..self }
    }
}

/// The values of the rows of an employee table, one for one.
pub open spec fn employee_views(rows: Seq<Employee>) -> Seq<EmployeeView> {
    rows.map_values(|e: Employee| e@)
}

/// Whether some row of the table has this id.
pub open spec fn has_employee(rows: Seq<EmployeeView>, id: i64) -> bool {
    exists|i: int| 0 <= i < rows.len() && (#[trigger] rows[i]).id == id
}

/// The first row of the table with this id.
pub open spec fn lookup_employee(rows: Seq<EmployeeView>, id: i64) -> Option<EmployeeView>
    decreases rows.len(),
{
    if rows.len() == 0 {
        None
    } else if rows[0].id == id {
        Some(rows[0])
    } else {
        lookup_employee(rows.drop_first(), id)
    }
}

/// The table after every row with the id of `row` took its other fields.
pub open spec fn replace_employee(rows: Seq<EmployeeView>, row: EmployeeView) -> Seq<
    EmployeeView,
> {
    rows.map_values(
        |r: EmployeeView|
            if r.id == row.id {
                row
            } else {
                r
            },
    )
}

/// The table after every row with this id was disabled.
pub open spec fn disable_employee(rows: Seq<EmployeeView>, id: i64) -> Seq<EmployeeView> {
    rows.map_values(
        |r: EmployeeView|
            if r.id == id {
                r.disable()
            } else {
                r
            },
    )
}

/// The rows that are not disabled, in table order.
pub open spec fn active_employees(rows: Seq<EmployeeView>) -> Seq<EmployeeView> {
    rows.filter(|r: EmployeeView| !r.disabled)
}

/// No two rows share an id.
pub open spec fn distinct_employee_ids(rows: Seq<EmployeeView>) -> bool {
    forall|i: int, j: int|
        0 <= i < rows.len() && 0 <= j < rows.len() && i != j ==> (#[trigger] rows[i]).id != (
        #[trigger] rows[j]).id
}

/// A lookup finds a row exactly when the table has the id, and the row it
/// finds carries that id.
pub proof fn lookup_employee_finds(rows: Seq<EmployeeView>, id: i64)
    ensures
        lookup_employee(rows, id) is Some <==> has_employee(rows, id),
        lookup_employee(rows, id) is Some ==> lookup_employee(rows, id)->0.id == id
            && rows.contains(lookup_employee(rows, id)->0),
    decreases rows.len(),
{
    if rows.len() == 0 {
    } else if rows[0].id == id {
        assert(rows[0].id == id);
    } else {
        let rest = rows.drop_first();
        lookup_employee_finds(rest, id);
        if has_employee(rest, id) {
            let i = choose|i: int| 0 <= i < rest.len() && (#[trigger] rest[i]).id == id;
            assert(rows[i + 1] == rest[i]);
            let found = lookup_employee(rest, id)->0;
            let k = choose|k: int| 0 <= k < rest.len() && rest[k] == found;
            assert(rows[k + 1] == found);
        }
        if has_employee(rows, id) {
            let i = choose|i: int| 0 <= i < rows.len() && (#[trigger] rows[i]).id == id;
            assert(rest[i - 1] == rows[i]);
        }
    }
}

/// Looks a row up by id and hands out a copy of the first match.
pub fn find_employee(rows: &Vec<Employee>, id: i64) -> (found: Option<Employee>)
    ensures
        match found {
            Some(e) => lookup_employee(employee_views(rows@), id) == Some(e@),
            None => lookup_employee(employee_views(rows@), id) is None,
        },
{
    let ghost all = employee_views(rows@);
    let mut i: usize = 0;
    proof {
        assert(all.skip(0) =~= all);
    }
    while i < rows.len()
        invariant
            i <= rows.len(),
            all == employee_views(rows@),
            lookup_employee(all, id) == lookup_employee(all.skip(i as int), id),
        decreases rows.len() - i,
    {
        proof {
            assert(all.skip(i as int)[0] == rows@[i as int]@);
            assert(all.skip(i as int).drop_first() =~= all.skip(i + 1));
        }
        if rows[i].id == id {
            return Some(rows[i].clone());
        }
        i += 1;
    }
    proof {
        assert(all.skip(i as int).len() == 0);
    }
    None
}

/// Writes the fields of `row` into every row that has its id and says
/// whether there was one.
pub fn overwrite_employee(rows: &mut Vec<Employee>, row: &Employee) -> (written: bool)
    ensures
        employee_views(final(rows)@) == replace_employee(employee_views(old(rows)@), row@),
        written == has_employee(employee_views(old(rows)@), row.id),
{
    let ghost before = employee_views(rows@);
    let mut written = false;
    let mut i: usize = 0;
    while i < rows.len()
        invariant
            i <= rows.len(),
            rows@.len() == before.len(),
            forall|k: int| 0 <= k < i ==> (#[trigger] rows@[k])@ == replace_employee(before, row@)[k],
            forall|k: int| i <= k < rows.len() ==> (#[trigger] rows@[k])@ == before[k],
            written == has_employee(before.take(i as int), row.id),
        decreases rows.len() - i,
    {
        proof {
            let seen = before.take(i as int);
            let next = before.take(i + 1);
            if has_employee(seen, row.id) {
                let k = choose|k: int| 0 <= k < seen.len() && (#[trigger] seen[k]).id == row.id;
                assert(next[k].id == row.id);
            }
            if has_employee(next, row.id) && before[i as int].id != row.id {
                let k = choose|k: int| 0 <= k < next.len() && (#[trigger] next[k]).id == row.id;
                assert(seen[k].id == row.id);
            }
            if before[i as int].id == row.id {
                assert(next[i as int].id == row.id);
            }
        }
        if rows[i].id == row.id {
            rows.set(i, row.clone());
            written = true;
        }
        i += 1;
    }
    proof {
        assert(before.take(rows.len() as int) =~= before);
        assert(employee_views(rows@) =~= replace_employee(before, row@));
    }
    written
}

/// Sets the disabled flag of every row that has this id and says whether
/// there was one.
pub fn disable_employee_rows(rows: &mut Vec<Employee>, id: i64) -> (written: bool)
    ensures
        employee_views(final(rows)@) == disable_employee(employee_views(old(rows)@), id),
        written == has_employee(employee_views(old(rows)@), id),
{
    let ghost before = employee_views(rows@);
    let mut written = false;
    let mut i: usize = 0;
    while i < rows.len()
        invariant
            i <= rows.len(),
            rows@.len() == before.len(),
            forall|k: int| 0 <= k < i ==> (#[trigger] rows@[k])@ == disable_employee(before, id)[k],
            forall|k: int| i <= k < rows.len() ==> (#[trigger] rows@[k])@ == before[k],
            written == has_employee(before.take(i as int), id),
        decreases rows.len() - i,
    {
        proof {
            let seen = before.take(i as int);
            let next = before.take(i + 1);
            if has_employee(seen, id) {
                let k = choose|k: int| 0 <= k < seen.len() && (#[trigger] seen[k]).id == id;
                assert(next[k].id == id);
            }
            if has_employee(next, id) && before[i as int].id != id {
                let k = choose|k: int| 0 <= k < next.len() && (#[trigger] next[k]).id == id;
                assert(seen[k].id == id);
            }
            if before[i as int].id == id {
                assert(next[i as int].id == id);
            }
        }
        if rows[i].id == id {
            let mut row = rows[i].clone();
            row.disabled = true;
            rows.set(i, row);
            written = true;
        }
        i += 1;
    }
    proof {
        assert(before.take(rows.len() as int) =~= before);
        assert(employee_views(rows@) =~= disable_employee(before, id));
    }
    written
}

/// Copies out the rows that are not disabled, in table order.
pub fn active_rows(rows: &Vec<Employee>) -> (active: Vec<Employee>)
    ensures
        employee_views(active@) == active_employees(employee_views(rows@)),
{
    let ghost all = employee_views(rows@);
    let ghost keep = |r: EmployeeView| !r.disabled;
    let mut active: Vec<Employee> = Vec::new();
    let mut i: usize = 0;
    proof {
        assert(all.take(0).filter(keep) =~= Seq::<EmployeeView>::empty()) by {
            reveal(Seq::filter);
        }
        assert(employee_views(active@) =~= Seq::<EmployeeView>::empty());
    }
    while i < rows.len()
        invariant
            i <= rows.len(),
            all == employee_views(rows@),
            keep == |r: EmployeeView| !r.disabled,
            employee_views(active@) == all.take(i as int).filter(keep),
        decreases rows.len() - i,
    {
        proof {
            all.lemma_take_succ_push(i as int);
            all.take(i as int).lemma_filter_push(all[i as int], keep);
        }
        if !rows[i].disabled {
            let ghost prior = employee_views(active@);
            active.push(rows[i].clone());
            proof {
                assert(employee_views(active@) =~= prior.push(all[i as int]));
            }
        }
        i += 1;
    }
    proof {
        assert(all.take(rows.len() as int) =~= all);
    }
    active
}

/// Copies out every row, in table order.
pub fn all_rows(rows: &Vec<Employee>) -> (copy: Vec<Employee>)
    ensures
        employee_views(copy@) == employee_views(rows@),
{
    let mut copy: Vec<Employee> = Vec::new();
    let mut i: usize = 0;
    while i < rows.len()
        invariant
            i <= rows.len(),
            copy@.len() == i,
            forall|k: int| 0 <= k < i ==> (#[trigger] copy@[k])@ == rows@[k]@,
        decreases rows.len() - i,
    {
        copy.push(rows[i].clone());
        i += 1;
    }
    proof {
        assert(employee_views(copy@) =~= employee_views(rows@));
    }
    copy
}

} // verus!
