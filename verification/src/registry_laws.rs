//! What holds of every grouping by region, and of the catalog's in particular.

use crate::catalog::{catalog, LocationName, LOCATION_COUNT};
use crate::registry::{flat, grouped, in_region, matching, region_order};
use crate::text::lowercase;
use crate::types::Location;
use vstd::prelude::*;

verus! {

/// Some destination of the list lies in `region`.
pub open spec fn has_region(locations: Seq<Location>, region: Seq<char>) -> bool {
    exists|i: int| 0 <= i < locations.len() && (#[trigger] locations[i]).region@ == region
}

/// There are no more regions than destinations, and every region listed is
/// that of some destination.
pub proof fn lemma_region_order_sound(locations: Seq<Location>)
    ensures
        region_order(locations).len() <= locations.len(),
        forall|g: int|
            0 <= g < region_order(locations).len() ==> has_region(
                locations,
                #[trigger] region_order(locations)[g],
            ),
    decreases locations.len(),
{
    if locations.len() > 0 {
        let rest = locations.drop_last();
        lemma_region_order_sound(rest);
        let order = region_order(locations);
        assert forall|g: int| 0 <= g < order.len() implies has_region(
            locations,
            #[trigger] order[g],
        ) by {
            if g < region_order(rest).len() {
                assert(has_region(rest, region_order(rest)[g]));
                let i = choose|i: int|
                    0 <= i < rest.len() && (#[trigger] rest[i]).region@ == region_order(rest)[g];
                assert(locations[i].region@ == order[g]);
            } else {
                assert(locations[locations.len() - 1].region@ == order[g]);
            }
        }
    }
}

/// Grouping gives no more groups than there are destinations, no group is
/// larger than the list, and none is empty.
pub proof fn lemma_grouped_bounds(locations: Seq<Location>)
    ensures
        grouped(locations).len() <= locations.len(),
        forall|g: int|
            0 <= g < grouped(locations).len() ==> 0 < (#[trigger] grouped(locations)[g]).1.len()
                <= locations.len(),
{
    lemma_region_order_sound(locations);
    assert forall|g: int| 0 <= g < grouped(locations).len() implies 0 < (#[trigger] grouped(
        locations,
    )[g]).1.len() <= locations.len() by {
        let region = region_order(locations)[g];
        let test = in_region(region);
        locations.lemma_filter_len(test);
        assert(has_region(locations, region));
        let i = choose|i: int|
            0 <= i < locations.len() && (#[trigger] locations[i]).region@ == region;
        assert(test(locations[i]));
        locations.lemma_filter_contains(test, i);
        assert(locations.filter(test).contains(locations[i]));
    }
}

/// The destinations of each region stand side by side: between two of one
/// region there is none of another.
#[verifier::opaque]
pub open spec fn contiguous(locations: Seq<Location>) -> bool {
    forall|i: int, j: int, k: int|
        #![trigger locations[i], locations[j], locations[k]]
        0 <= i < j < k < locations.len() && locations[i].region@ == locations[k].region@
            ==> locations[j].region@ == locations[i].region@
}

/// The region of every destination is listed among the regions.
pub proof fn lemma_region_listed(locations: Seq<Location>, i: int)
    requires
        0 <= i < locations.len(),
    ensures
        region_order(locations).contains(locations[i].region@),
    decreases locations.len(),
{
    let rest = locations.drop_last();
    let before = region_order(rest);
    let order = region_order(locations);
    if i == locations.len() - 1 {
        if !before.contains(locations.last().region@) {
            assert(order[order.len() - 1] == locations[i].region@);
        }
    } else {
        lemma_region_listed(rest, i);
        let g = choose|g: int| 0 <= g < before.len() && before[g] == rest[i].region@;
        assert(order[g] == locations[i].region@);
    }
}

/// No region is listed twice.
pub proof fn lemma_region_order_distinct(locations: Seq<Location>)
    ensures
        forall|g: int, h: int|
            0 <= g < h < region_order(locations).len() ==> region_order(locations)[g]
                != region_order(locations)[h],
    decreases locations.len(),
{
    if locations.len() > 0 {
        let before = region_order(locations.drop_last());
        let order = region_order(locations);
        lemma_region_order_distinct(locations.drop_last());
        assert forall|g: int, h: int| 0 <= g < h < order.len() implies order[g] != order[h] by {
            if h == before.len() {
                assert(before[g] == order[g]);
                assert(before.contains(before[g]));
            } else {
                assert(before[g] != before[h]);
            }
        }
    }
}

/// Where regions stand side by side, the region listed last is that of the
/// last destination.
pub proof fn lemma_last_region(locations: Seq<Location>)
    requires
        locations.len() > 0,
        contiguous(locations),
    ensures
        region_order(locations).len() > 0,
        region_order(locations).last() == locations.last().region@,
    decreases locations.len(),
{
    reveal(contiguous);
    let rest = locations.drop_last();
    let before = region_order(rest);
    let region = locations.last().region@;
    if before.contains(region) {
        lemma_region_order_sound(rest);
        let g = choose|g: int| 0 <= g < before.len() && before[g] == region;
        assert(has_region(rest, before[g]));
        let i = choose|i: int| 0 <= i < rest.len() && (#[trigger] rest[i]).region@ == region;
        assert(contiguous(rest)) by {
            lemma_contiguous_prefix(locations);
        }
        lemma_last_region(rest);
        let last = rest.len() - 1;
        if i < last {
            assert(locations[i].region@ == locations[locations.len() - 1].region@);
            assert(locations[last].region@ == locations[i].region@);
        }
    }
}

/// A list without its last destination still has its regions side by side.
pub proof fn lemma_contiguous_prefix(locations: Seq<Location>)
    requires
        locations.len() > 0,
        contiguous(locations),
    ensures
        contiguous(locations.drop_last()),
{
    reveal(contiguous);
    let rest = locations.drop_last();
    assert forall|i: int, j: int, k: int|
        #![trigger rest[i], rest[j], rest[k]]
        0 <= i < j < k < rest.len() && rest[i].region@ == rest[k].region@ implies rest[j].region@
        == rest[i].region@ by {
        assert(locations[i].region@ == locations[k].region@);
        assert(locations[j].region@ == locations[i].region@);
    }
}

/// A list in which no destination lies in `region` has an empty group for it.
pub proof fn lemma_no_member(locations: Seq<Location>, region: Seq<char>)
    requires
        !region_order(locations).contains(region),
    ensures
        locations.filter(in_region(region)).len() == 0,
{
    let members = locations.filter(in_region(region));
    if members.len() > 0 {
        locations.lemma_filter_pred(in_region(region), 0);
        assert(in_region(region)(members[0]));
        assert(members.contains(members[0]));
        locations.lemma_filter_contains_rev(in_region(region), members[0]);
        let i = choose|i: int| 0 <= i < locations.len() && locations[i] == members[0];
        lemma_region_listed(locations, i);
    }
}

/// The groups of a list with one more destination: the group of its region
/// gains it, and every other group is as before.
proof fn lemma_groups_after_push(rest: Seq<Location>, x: Location, g: int)
    requires
        0 <= g < region_order(rest.push(x)).len(),
    ensures
        grouped(rest.push(x))[g].1 == if region_order(rest.push(x))[g] == x.region@ {
            rest.filter(in_region(region_order(rest.push(x))[g])).push(x)
        } else {
            rest.filter(in_region(region_order(rest.push(x))[g]))
        },
{
    rest.lemma_filter_push(x, in_region(region_order(rest.push(x))[g]));
}

/// One more destination of the region listed last joins the last group.
#[verifier::rlimit(50)]
proof fn lemma_grouped_same_region(rest: Seq<Location>, x: Location)
    requires
        rest.len() > 0,
        contiguous(rest.push(x)),
        region_order(rest).contains(x.region@),
    ensures
        flat(grouped(rest.push(x))) == flat(grouped(rest)).push(x),
{
    reveal(contiguous);
    let locations = rest.push(x);
    let region = x.region@;
    let before = region_order(rest);
    assert(locations.drop_last() =~= rest);
    assert(region_order(locations) == before);
    lemma_contiguous_prefix(locations);
    lemma_last_region(rest);
    lemma_region_order_distinct(rest);
    let last = before.len() - 1;
    assert(before[last] == region) by {
        lemma_region_order_sound(rest);
        let i = choose|i: int| 0 <= i < before.len() && before[i] == region;
        assert(has_region(rest, before[i]));
        let m = choose|m: int| 0 <= m < rest.len() && (#[trigger] rest[m]).region@ == region;
        if m < rest.len() - 1 {
            assert(locations[m].region@ == locations[locations.len() - 1].region@);
            assert(locations[rest.len() - 1].region@ == locations[m].region@);
        }
    }
    let groups = grouped(locations);
    let old_groups = grouped(rest);
    assert forall|g: int| 0 <= g < last implies groups[g] == old_groups[g] by {
        lemma_groups_after_push(rest, x, g);
        assert(before[g] != before[last]);
    }
    lemma_groups_after_push(rest, x, last);
    assert(groups.drop_last() =~= old_groups.drop_last());
    assert(groups.last().1 == old_groups.last().1.push(x));
    assert(flat(groups) =~= flat(old_groups).push(x));
}

/// A destination of a region not seen before opens a group of its own.
#[verifier::rlimit(50)]
proof fn lemma_grouped_new_region(rest: Seq<Location>, x: Location)
    requires
        !region_order(rest).contains(x.region@),
    ensures
        flat(grouped(rest.push(x))) == flat(grouped(rest)).push(x),
{
    let locations = rest.push(x);
    let region = x.region@;
    let before = region_order(rest);
    assert(locations.drop_last() =~= rest);
    assert(region_order(locations) == before.push(region));
    lemma_no_member(rest, region);
    let groups = grouped(locations);
    let old_groups = grouped(rest);
    assert forall|g: int| 0 <= g < before.len() implies groups[g] == old_groups[g] by {
        lemma_groups_after_push(rest, x, g);
        assert(before.contains(before[g]));
    }
    lemma_groups_after_push(rest, x, before.len() as int);
    assert(groups.drop_last() =~= old_groups);
    assert(groups.last().1 =~= seq![x]);
    assert(flat(groups) =~= flat(old_groups).push(x));
}

/// Where the destinations of each region stand side by side, grouping only
/// cuts the list into pieces: read group after group it is the list itself.
#[verifier::rlimit(50)]
pub proof fn law_grouping_keeps_order(locations: Seq<Location>)
    requires
        contiguous(locations),
    ensures
        flat(grouped(locations)) == locations,
    decreases locations.len(),
{
    if locations.len() == 0 {
        assert(grouped(locations) =~= Seq::empty());
    } else {
        let rest = locations.drop_last();
        let x = locations.last();
        lemma_contiguous_prefix(locations);
        law_grouping_keeps_order(rest);
        assert(rest.push(x) =~= locations);
        if region_order(rest).contains(x.region@) {
            if rest.len() == 0 {
                assert(region_order(rest) =~= Seq::empty());
            }
            lemma_grouped_same_region(rest, x);
        } else {
            lemma_grouped_new_region(rest, x);
        }
    }
}

/// In the catalog the destinations of each region stand side by side.
pub proof fn law_catalog_is_contiguous()
    ensures
        contiguous(catalog()),
{
    reveal(catalog);
    reveal(contiguous);
    let locations = catalog();
    crate::catalog::law_catalog_order_complete(LocationName::HuntersDream);
    assert forall|i: int, j: int, k: int|
        #![trigger locations[i], locations[j], locations[k]]
        0 <= i < j < k < locations.len() && locations[i].region@ == locations[k].region@ implies locations[j].region@
        == locations[i].region@ by {
        let a = LocationName::catalog_order()[i];
        let b = LocationName::catalog_order()[j];
        let c = LocationName::catalog_order()[k];
        crate::catalog::lemma_catalog_order_index(i);
        crate::catalog::lemma_catalog_order_index(j);
        crate::catalog::lemma_catalog_order_index(k);
        crate::catalog::lemma_region_by_rank(a);
        crate::catalog::lemma_region_by_rank(b);
        crate::catalog::lemma_region_by_rank(c);
        crate::catalog::law_regions_partition_catalog();
        let regions = LocationName::regions();
        if crate::catalog::region_rank(a) < crate::catalog::region_rank(c) {
            assert(regions[crate::catalog::region_rank(a)].0 != regions[crate::catalog::region_rank(
                c,
            )].0);
        }
    }
}

/// The catalog grouped by region and read group after group is the catalog:
/// grouping changes the order of no destination, and loses none.
pub proof fn law_catalog_groups_keep_order()
    ensures
        flat(grouped(catalog())) == catalog(),
        flat(grouped(catalog())).len() == LOCATION_COUNT,
{
    let locations = catalog();
    assert(flat(grouped(locations)) == locations) by {
        law_catalog_is_contiguous();
        law_grouping_keeps_order(locations);
    }
    assert(locations.len() == LOCATION_COUNT) by {
        crate::catalog::law_catalog_entries(LocationName::HuntersDream);
    }
}

/// The search takes no notice of the case of the query: two queries with the
/// same lowercase form pass the same destinations of any list.
pub proof fn law_search_ignores_case(locations: Seq<Location>, query: Seq<char>, other: Seq<char>)
    requires
        query.len() > 0,
        other.len() > 0,
        lowercase(query) == lowercase(other),
    ensures
        locations.filter(matching(query)) == locations.filter(matching(other)),
    decreases locations.len(),
{
    reveal(Seq::filter);
    if locations.len() > 0 {
        law_search_ignores_case(locations.drop_last(), query, other);
        assert(matching(query)(locations.last()) == matching(other)(locations.last()));
    }
}

/// The search takes no notice of the case of a name: of two destinations whose
/// names have the same lowercase form a query passes both or neither.
pub proof fn law_search_ignores_case_of_names(a: Location, b: Location, query: Seq<char>)
    requires
        lowercase(a.name@) == lowercase(b.name@),
    ensures
        matching(query)(a) == matching(query)(b),
{
}

} // verus!
