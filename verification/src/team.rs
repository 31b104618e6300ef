//! Teams: the group an event may be held for.

use vstd::prelude::*;
use vstd::std_specs::cmp::PartialEqSpecImpl;

verus! {

/// The mathematical value of a [`Team`].
pub struct TeamView {
    pub id: i64,
    pub name: Seq<char>,
    pub primary_color: Seq<char>,
    pub secondary_color: Seq<char>,
    pub disabled: bool,
}

/// A stored team. Disabling one is a soft delete, as for employees.
#[derive(Debug)]
pub struct Team {
    pub id: i64,
    pub name: String,
    pub primary_color: String,
    pub secondary_color: String,
    pub disabled: bool,
}

/// The fields a caller supplies to create a team.
#[derive(Debug)]
pub struct CreateTeam {
    pub name: String,
    pub primary_color: String,
    pub secondary_color: String,
}

/// The mathematical value of a [`CreateTeam`].
pub struct CreateTeamView {
    pub name: Seq<char>,
    pub primary_color: Seq<char>,
    pub secondary_color: Seq<char>,
}

impl View for Team {
    type V = TeamView;

    open spec fn view(&self) -> TeamView {
        TeamView {
            id: self.id,
            name: self.name@,
            primary_color: self.primary_color@,
            secondary_color: self.secondary_color@,
            disabled: self.disabled,
        }
    }
}

impl View for CreateTeam {
    type V = CreateTeamView;

    open spec fn view(&self) -> CreateTeamView {
        CreateTeamView {
            name: self.name@,
            primary_color: self.primary_color@,
            secondary_color: self.secondary_color@,
        }
    }
}

impl Clone for Team {
    fn clone(&self) -> (copy: Self)
        ensures
            copy@ == self@,
    {
        Team {
            id: self.id,
            name: self.name.clone(),
            primary_color: self.primary_color.clone(),
            secondary_color: self.secondary_color.clone(),
            disabled: self.disabled,
        }
    }
}

impl Clone for CreateTeam {
    fn clone(&self) -> (copy: Self)
        ensures
            copy@ == self@,
    {
        CreateTeam {
            name: self.name.clone(),
            primary_color: self.primary_color.clone(),
            secondary_color: self.secondary_color.clone(),
        }
    }
}

impl PartialEq for Team {
    fn eq(&self, other: &Self) -> (same: bool) {
        self.id == other.id && self.name == other.name && self.primary_color == other.primary_color
            && self.secondary_color == other.secondary_color && self.disabled == other.disabled
    }
}

impl PartialEqSpecImpl for Team {
    open spec fn obeys_eq_spec() -> bool {
        true
    }

    open spec fn eq_spec(&self, other: &Self) -> bool {
        self@ == other@
    }
}

impl Eq for Team {}

impl PartialEq for CreateTeam {
    fn eq(&self, other: &Self) -> (same: bool) {
        self.name == other.name && self.primary_color == other.primary_color
            && self.secondary_color == other.secondary_color
    }
}

impl PartialEqSpecImpl for CreateTeam {
    open spec fn obeys_eq_spec() -> bool {
        true
    }

    open spec fn eq_spec(&self, other: &Self) -> bool {
        self@ == other@
    }
}

impl Eq for CreateTeam {}

impl TeamView {
    /// The row that creating a team with these fields under `id` stores.
    pub open spec fn created(id: i64, fields: CreateTeamView) -> TeamView {
        TeamView {
            id,
            name: fields.name,
            primary_color: fields.primary_color,
            secondary_color: fields.secondary_color,
            disabled: false,
        }
    }

    /// This row with the soft-delete flag set.
    pub open spec fn disable(self) -> TeamView {
        TeamView { disabled: true, ..self }
    }
}

/// The values of the rows of a team table, one for one.
pub open spec fn team_views(rows: Seq<Team>) -> Seq<TeamView> {
    rows.map_values(|e: Team| e@)
}

/// Whether some row of the table has this id.
pub open spec fn has_team(rows: Seq<TeamView>, id: i64) -> bool {
    exists|i: int| 0 <= i < rows.len() && (#[trigger] rows[i]).id == id
}

/// The first row of the table with this id.
pub open spec fn lookup_team(rows: Seq<TeamView>, id: i64) -> Option<TeamView>
    decreases rows.len(),
{
    if rows.len() == 0 {
        None
    } else if rows[0].id == id {
        Some(rows[0])
    } else {
        lookup_team(rows.drop_first(), id)
    }
}

/// The table after every row with the id of `row` took its other fields.
pub open spec fn replace_team(rows: Seq<TeamView>, row: TeamView) -> Seq<
    TeamView,
> {
    rows.map_values(
        |r: TeamView|
            if r.id == row.id {
                row
            } else {
                r
            },
    )
}

/// The table after every row with this id was disabled.
pub open spec fn disable_team(rows: Seq<TeamView>, id: i64) -> Seq<TeamView> {
    rows.map_values(
        |r: TeamView|
            if r.id == id {
                r.disable()
            } else {
                r
            },
    )
}

/// The rows that are not disabled, in table order.
pub open spec fn active_teams(rows: Seq<TeamView>) -> Seq<TeamView> {
    rows.filter(|r: TeamView| !r.disabled)
}

/// No two rows share an id.
pub open spec fn distinct_team_ids(rows: Seq<TeamView>) -> bool {
    forall|i: int, j: int|
        0 <= i < rows.len() && 0 <= j < rows.len() && i != j ==> (#[trigger] rows[i]).id != (
        #[trigger] rows[j]).id
}

/// A lookup finds a row exactly when the table has the id, and the row it
/// finds carries that id.
pub proof fn lookup_team_finds(rows: Seq<TeamView>, id: i64)
    ensures
        lookup_team(rows, id) is Some <==> has_team(rows, id),
        lookup_team(rows, id) is Some ==> lookup_team(rows, id)->0.id == id
            && rows.contains(lookup_team(rows, id)->0),
    decreases rows.len(),
{
    if rows.len() == 0 {
    } else if rows[0].id == id {
        assert(rows[0].id == id);
    } else {
        let rest = rows.drop_first();
        lookup_team_finds(rest, id);
        if has_team(rest, id) {
            let i = choose|i: int| 0 <= i < rest.len() && (#[trigger] rest[i]).id == id;
            assert(rows[i + 1] == rest[i]);
            let found = lookup_team(rest, id)->0;
            let k = choose|k: int| 0 <= k < rest.len() && rest[k] == found;
            assert(rows[k + 1] == found);
        }
        if has_team(rows, id) {
            let i = choose|i: int| 0 <= i < rows.len() && (#[trigger] rows[i]).id == id;
            assert(rest[i - 1] == rows[i]);
        }
    }
}

/// Looks a row up by id and hands out a copy of the first match.
pub fn find_team(rows: &Vec<Team>, id: i64) -> (found: Option<Team>)
    ensures
        match found {
            Some(e) => lookup_team(team_views(rows@), id) == Some(e@),
            None => lookup_team(team_views(rows@), id) is None,
        },
{
    let ghost all = team_views(rows@);
    let mut i: usize = 0;
    proof {
        assert(all.skip(0) =~= all);
    }
    while i < rows.len()
        invariant
            i <= rows.len(),
            all == team_views(rows@),
            lookup_team(all, id) == lookup_team(all.skip(i as int), id),
        decreases rows.len() - i,
    {
        proof {
            assert(all.skip(i as int)[0] == rows@[i as int]@);
            assert(all.skip(i as int).drop_first() =~= all.skip(i + 1));
        }
        if rows[i].id == id {
            return Some(rows[i].clone());
        }
        i += 1;
    }
    proof {
        assert(all.skip(i as int).len() == 0);
    }
    None
}

/// Writes the fields of `row` into every row that has its id and says
/// whether there was one.
pub fn overwrite_team(rows: &mut Vec<Team>, row: &Team) -> (written: bool)
    ensures
        team_views(final(rows)@) == replace_team(team_views(old(rows)@), row@),
        written == has_team(team_views(old(rows)@), row.id),
{
    let ghost before = team_views(rows@);
    let mut written = false;
    let mut i: usize = 0;
    while i < rows.len()
        invariant
            i <= rows.len(),
            rows@.len() == before.len(),
            forall|k: int| 0 <= k < i ==> (#[trigger] rows@[k])@ == replace_team(before, row@)[k],
            forall|k: int| i <= k < rows.len() ==> (#[trigger] rows@[k])@ == before[k],
            written == has_team(before.take(i as int), row.id),
        decreases rows.len() - i,
    {
        proof {
            let seen = before.take(i as int);
            let next = before.take(i + 1);
            if has_team(seen, row.id) {
                let k = choose|k: int| 0 <= k < seen.len() && (#[trigger] seen[k]).id == row.id;
                assert(next[k].id == row.id);
            }
            if has_team(next, row.id) && before[i as int].id != row.id {
                let k = choose|k: int| 0 <= k < next.len() && (#[trigger] next[k]).id == row.id;
                assert(seen[k].id == row.id);
            }
            if before[i as int].id == row.id {
                assert(next[i as int].id == row.id);
            }
        }
        if rows[i].id == row.id {
            rows.set(i, row.clone());
            written = true;
        }
        i += 1;
    }
    proof {
        assert(before.take(rows.len() as int) =~= before);
        assert(team_views(rows@) =~= replace_team(before, row@));
    }
    written
}

/// Sets the disabled flag of every row that has this id and says whether
/// there was one.
pub fn disable_team_rows(rows: &mut Vec<Team>, id: i64) -> (written: bool)
    ensures
        team_views(final(rows)@) == disable_team(team_views(old(rows)@), id),
        written == has_team(team_views(old(rows)@), id),
{
    let ghost before = team_views(rows@);
    let mut written = false;
    let mut i: usize = 0;
    while i < rows.len()
        invariant
            i <= rows.len(),
            rows@.len() == before.len(),
            forall|k: int| 0 <= k < i ==> (#[trigger] rows@[k])@ == disable_team(before, id)[k],
            forall|k: int| i <= k < rows.len() ==> (#[trigger] rows@[k])@ == before[k],
            written == has_team(before.take(i as int), id),
        decreases rows.len() - i,
    {
        proof {
            let seen = before.take(i as int);
            let next = before.take(i + 1);
            if has_team(seen, id) {
                let k = choose|k: int| 0 <= k < seen.len() && (#[trigger] seen[k]).id == id;
                assert(next[k].id == id);
            }
            if has_team(next, id) && before[i as int].id != id {
                let k = choose|k: int| 0 <= k < next.len() && (#[trigger] next[k]).id == id;
                assert(seen[k].id == id);
            }
            if before[i as int].id == id {
                assert(next[i as int].id == id);
            }
        }
        if rows[i].id == id {
            let mut row = rows[i].clone();
            row.disabled = true;
            rows.set(i, row);
            written = true;
        }
        i += 1;
    }
    proof {
        assert(before.take(rows.len() as int) =~= before);
        assert(team_views(rows@) =~= disable_team(before, id));
    }
    written
}

/// Copies out the rows that are not disabled, in table order.
pub fn active_rows(rows: &Vec<Team>) -> (active: Vec<Team>)
    ensures
        team_views(active@) == active_teams(team_views(rows@)),
{
    let ghost all = team_views(rows@);
    let ghost keep = |r: TeamView| !r.disabled;
    let mut active: Vec<Team> = Vec::new();
    let mut i: usize = 0;
    proof {
        assert(all.take(0).filter(keep) =~= Seq::<TeamView>::empty()) by {
            reveal(Seq::filter);
        }
        assert(team_views(active@) =~= Seq::<TeamView>::empty());
    }
    while i < rows.len()
        invariant
            i <= rows.len(),
            all == team_views(rows@),
            keep == |r: TeamView| !r.disabled,
            team_views(active@) == all.take(i as int).filter(keep),
        decreases rows.len() - i,
    {
        proof {
            all.lemma_take_succ_push(i as int);
            all.take(i as int).lemma_filter_push(all[i as int], keep);
        }
        if !rows[i].disabled {
            let ghost prior = team_views(active@);
            active.push(rows[i].clone());
            proof {
                assert(team_views(active@) =~= prior.push(all[i as int]));
            }
        }
        i += 1;
    }
    proof {
        assert(all.take(rows.len() as int) =~= all);
    }
    active
}

/// Copies out every row, in table order.
pub fn all_rows(rows: &Vec<Team>) -> (copy: Vec<Team>)
    ensures
        team_views(copy@) == team_views(rows@),
{
    let mut copy: Vec<Team> = Vec::new();
    let mut i: usize = 0;
    while i < rows.len()
        invariant
            i <= rows.len(),
            copy@.len() == i,
            forall|k: int| 0 <= k < i ==> (#[trigger] copy@[k])@ == rows@[k]@,
        decreases rows.len() - i,
    {
        copy.push(rows[i].clone());
        i += 1;
    }
    proof {
        assert(team_views(copy@) =~= team_views(rows@));
    }
    copy
}

} // verus!
