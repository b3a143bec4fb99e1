//! Lists of destinations grouped by region: filtering them by a query,
//! counting through them, and finding the destination at a place.

use crate::registry::{
    filter_locations, flat, groups_view, lemma_flat_prefix, lemma_flat_take_next, matching,
    name_matches, LocationGroup,
};
use crate::types::Location;
use vstd::prelude::*;

verus! {

/// The groups that a query leaves: of each group the destinations whose name
/// matches, and no group that has none left.
pub open spec fn filter_groups(groups: Seq<(Seq<char>, Seq<Location>)>, query: Seq<char>) -> Seq<
    (Seq<char>, Seq<Location>),
>
    decreases groups.len(),
{
    if groups.len() == 0 {
        Seq::empty()
    } else {
        let before = filter_groups(groups.drop_last(), query);
        let members = groups.last().1.filter(matching(query));
        if members.len() == 0 {
            before
        } else {
            before.push((groups.last().0, members))
        }
    }
}

/// The empty query leaves every group that holds a destination as it is.
pub proof fn lemma_empty_query_keeps_groups(
    groups: Seq<(Seq<char>, Seq<Location>)>,
    query: Seq<char>,
)
    requires
        query.len() == 0,
        forall|g: int| 0 <= g < groups.len() ==> (#[trigger] groups[g]).1.len() > 0,
    ensures
        filter_groups(groups, query) == groups,
    decreases groups.len(),
{
    if groups.len() > 0 {
        lemma_empty_query_keeps_groups(groups.drop_last(), query);
        crate::registry::lemma_empty_query_keeps_all(groups.last().1, query);
        assert(groups.drop_last().push(groups.last()) =~= groups);
    }
}

/// A query leaves no more groups than there were, and no more destinations.
pub proof fn lemma_filter_groups_shrinks(groups: Seq<(Seq<char>, Seq<Location>)>, query: Seq<char>)
    ensures
        filter_groups(groups, query).len() <= groups.len(),
        flat(filter_groups(groups, query)).len() <= flat(groups).len(),
    decreases groups.len(),
{
    if groups.len() > 0 {
        lemma_filter_groups_shrinks(groups.drop_last(), query);
        groups.last().1.lemma_filter_len(matching(query));
        let before = filter_groups(groups.drop_last(), query);
        let members = groups.last().1.filter(matching(query));
        if members.len() > 0 {
            assert(before.push((groups.last().0, members)).drop_last() =~= before);
        }
    }
}

/// A query leaves no empty group: every group left holds a destination, and
/// every destination left matches the query.
pub proof fn law_groups_left_hold_matches(groups: Seq<(Seq<char>, Seq<Location>)>, query: Seq<char>)
    ensures
        forall|g: int|
            0 <= g < filter_groups(groups, query).len() ==> (#[trigger] filter_groups(
                groups,
                query,
            )[g]).1.len() > 0,
        forall|i: int|
            0 <= i < flat(filter_groups(groups, query)).len() ==> name_matches(
                (#[trigger] flat(filter_groups(groups, query))[i]).name@,
                query,
            ),
    decreases groups.len(),
{
    if groups.len() > 0 {
        let rest = groups.drop_last();
        law_groups_left_hold_matches(rest, query);
        let before = filter_groups(rest, query);
        let members = groups.last().1.filter(matching(query));
        if members.len() > 0 {
            let left = filter_groups(groups, query);
            assert(left.drop_last() =~= before);
            assert forall|i: int| 0 <= i < flat(left).len() implies name_matches(
                (#[trigger] flat(left)[i]).name@,
                query,
            ) by {
                if i >= flat(before).len() {
                    let k = i - flat(before).len();
                    groups.last().1.lemma_filter_pred(matching(query), k);
                    assert(matching(query)(members[k]));
                }
            }
        }
    }
}

/// Applies a query to a list of groups: each group keeps the destinations
/// whose name matches, and a group that keeps none is left out.
pub fn filter_group_list(groups: &Vec<LocationGroup>, query: &str) -> (left: Vec<LocationGroup>)
    ensures
        groups_view(left@) == filter_groups(groups_view(groups@), query@),
{
    let mut left: Vec<LocationGroup> = Vec::new();
    let mut g: usize = 0;
    assert(groups_view(groups@).take(0) =~= Seq::empty());
    assert(groups_view(left@) =~= filter_groups(groups_view(groups@).take(0), query@));
    while g < groups.len()
        invariant
            g <= groups@.len(),
            groups_view(left@) == filter_groups(groups_view(groups@).take(g as int), query@),
        decreases groups@.len() - g,
    {
        let members = filter_locations(&groups[g].locations, query);
        proof {
            let all = groups_view(groups@);
            assert(all.take(g + 1).drop_last() =~= all.take(g as int));
            assert(all.take(g + 1).last() == groups@[g as int]@);
        }
        let ghost before = groups_view(left@);
        if members.len() > 0 {
            let region = groups[g].region;
            left.push(LocationGroup { region, locations: members });
            assert(groups_view(left@) =~= before.push((region@, members@)));
        }
        g += 1;
    }
    assert(groups_view(groups@).take(groups@.len() as int) =~= groups_view(groups@));
    left
}

/// Counts the destinations of all groups.
pub fn total_locations(groups: &Vec<LocationGroup>) -> (total: usize)
    requires
        flat(groups_view(groups@)).len() <= usize::MAX,
    ensures
        total == flat(groups_view(groups@)).len(),
{
    let mut total: usize = 0;
    let mut g: usize = 0;
    assert(groups_view(groups@).take(0) =~= Seq::empty());
    while g < groups.len()
        invariant
            g <= groups@.len(),
            flat(groups_view(groups@)).len() <= usize::MAX,
            total == flat(groups_view(groups@).take(g as int)).len(),
        decreases groups@.len() - g,
    {
        proof {
            lemma_flat_take_next(groups_view(groups@), g as int);
            lemma_flat_prefix(groups_view(groups@), g + 1);
        }
        total += groups[g].locations.len();
        g += 1;
    }
    assert(groups_view(groups@).take(groups@.len() as int) =~= groups_view(groups@));
    total
}

/// The destination at `index`, counting through all groups in order.
pub fn location_at(groups: &Vec<LocationGroup>, index: usize) -> (found: Option<Location>)
    ensures
        found == if index < flat(groups_view(groups@)).len() {
            Some(flat(groups_view(groups@))[index as int])
        } else {
            None
        },
{
    let mut base: usize = 0;
    let mut g: usize = 0;
    assert(groups_view(groups@).take(0) =~= Seq::empty());
    while g < groups.len()
        invariant
            g <= groups@.len(),
            base == flat(groups_view(groups@).take(g as int)).len(),
            base <= index,
        decreases groups@.len() - g,
    {
        let size = groups[g].locations.len();
        proof {
            let all = groups_view(groups@);
            lemma_flat_take_next(all, g as int);
            lemma_flat_prefix(all, g + 1);
        }
        if index - base < size {
            let location = groups[g].locations[index - base];
            assert(flat(groups_view(groups@).take(g + 1))[index as int] == location);
            return Some(location);
        }
        base += size;
        g += 1;
    }
    assert(groups_view(groups@).take(groups@.len() as int) =~= groups_view(groups@));
    None
}

} // verus!
