//! Looking destinations up: the whole catalog, a search by name, and the
//! grouping by region.

use crate::catalog::{catalog, LocationName};
use crate::text::{contains, contains_text, lowercase, same_text, to_lowercase};
use crate::types::Location;
use vstd::prelude::*;

verus! {

/// The destinations of one region, in the order in which they were given.
#[derive(Debug, Clone)]
pub struct LocationGroup {
    /// The region's name.
    pub region: &'static str,
    /// The destinations listed under it.
    pub locations: Vec<Location>,
}

impl View for LocationGroup {
    type V = (Seq<char>, Seq<Location>);

    open spec fn view(&self) -> (Seq<char>, Seq<Location>) {
        (self.region@, self.locations@)
    }
}

/// A list of groups as pairs of a region's name and its destinations.
pub open spec fn groups_view(groups: Seq<LocationGroup>) -> Seq<(Seq<char>, Seq<Location>)> {
    Seq::new(groups.len(), |g: int| groups[g]@)
}

/// A name matches a query when the lowercase query stands somewhere in the
/// lowercase name. The empty query matches every name.
pub open spec fn name_matches(name: Seq<char>, query: Seq<char>) -> bool {
    query.len() == 0 || contains_text(lowercase(name), lowercase(query))
}

/// The test that `search_locations` applies to each destination.
pub open spec fn matching(query: Seq<char>) -> spec_fn(Location) -> bool {
    |location: Location| name_matches(location.name@, query)
}

/// The test for belonging to a region.
pub open spec fn in_region(region: Seq<char>) -> spec_fn(Location) -> bool {
    |location: Location| location.region@ == region
}

/// The regions of a list of destinations, each once, in the order in which
/// they are first seen.
pub open spec fn region_order(locations: Seq<Location>) -> Seq<Seq<char>>
    decreases locations.len(),
{
    if locations.len() == 0 {
        Seq::empty()
    } else {
        let before = region_order(locations.drop_last());
        let region = locations.last().region@;
        if before.contains(region) {
            before
        } else {
            before.push(region)
        }
    }
}

/// A list of destinations grouped by region: one group for each region in
/// first-seen order, holding the destinations of that region in their own
/// order. No group is empty.
pub open spec fn grouped(locations: Seq<Location>) -> Seq<(Seq<char>, Seq<Location>)> {
    Seq::new(
        region_order(locations).len(),
        |g: int| (region_order(locations)[g], locations.filter(in_region(region_order(locations)[g]))),
    )
}

/// The destinations of all groups, group after group.
pub open spec fn flat(groups: Seq<(Seq<char>, Seq<Location>)>) -> Seq<Location>
    decreases groups.len(),
{
    if groups.len() == 0 {
        Seq::empty()
    } else {
        flat(groups.drop_last()) + groups.last().1
    }
}

/// The groups of the prefix lie at the front of `flat`.
pub proof fn lemma_flat_prefix(groups: Seq<(Seq<char>, Seq<Location>)>, upto: int)
    requires
        0 <= upto <= groups.len(),
    ensures
        flat(groups.take(upto)).len() <= flat(groups).len(),
        forall|i: int|
            0 <= i < flat(groups.take(upto)).len() ==> flat(groups)[i] == flat(
                groups.take(upto),
            )[i],
    decreases groups.len(),
{
    if upto == groups.len() {
        assert(groups.take(upto) =~= groups);
    } else {
        assert(groups.drop_last().take(upto) =~= groups.take(upto));
        lemma_flat_prefix(groups.drop_last(), upto);
    }
}

/// One more group adds its destinations at the end.
pub proof fn lemma_flat_take_next(groups: Seq<(Seq<char>, Seq<Location>)>, upto: int)
    requires
        0 <= upto < groups.len(),
    ensures
        flat(groups.take(upto + 1)) == flat(groups.take(upto)) + groups[upto].1,
{
    assert(groups.take(upto + 1).drop_last() =~= groups.take(upto));
}

/// Every destination of the catalog, in catalog order. The first is the
/// Hunter's Dream, the destination taken where none is asked for.
pub fn get_all_locations() -> (locations: Vec<Location>)
    ensures
        locations@ == catalog(),
        locations@.len() == crate::catalog::LOCATION_COUNT,
        locations@[0] == LocationName::HuntersDream.location(),
{
    let names = LocationName::all();
    let mut locations: Vec<Location> = Vec::new();
    let mut i: usize = 0;
    while i < names.len()
        invariant
            i <= names@.len(),
            names@ == LocationName::catalog_order(),
            locations@.len() == i,
            forall|k: int| 0 <= k < i ==> #[trigger] locations@[k] == names@[k].location(),
        decreases names@.len() - i,
    {
        locations.push(names[i].get_location());
        i += 1;
    }
    proof {
        reveal(catalog);
        crate::catalog::law_catalog_order_complete(LocationName::HuntersDream);
    }
    assert(locations@ =~= catalog());
    locations
}

/// A copy of `locations`.
pub fn copy_locations(locations: &Vec<Location>) -> (copy: Vec<Location>)
    ensures
        copy@ == locations@,
{
    let mut copy: Vec<Location> = Vec::new();
    let mut i: usize = 0;
    while i < locations.len()
        invariant
            i <= locations@.len(),
            copy@ == locations@.take(i as int),
        decreases locations@.len() - i,
    {
        copy.push(locations[i]);
        assert(locations@.take(i + 1) =~= locations@.take(i as int).push(locations@[i as int]));
        i += 1;
    }
    assert(locations@.take(locations@.len() as int) =~= locations@);
    copy
}

/// Every destination passes the test of the empty query.
pub proof fn lemma_empty_query_keeps_all(locations: Seq<Location>, query: Seq<char>)
    requires
        query.len() == 0,
    ensures
        locations.filter(matching(query)) == locations,
    decreases locations.len(),
{
    reveal(Seq::filter);
    if locations.len() > 0 {
        lemma_empty_query_keeps_all(locations.drop_last(), query);
        assert(matching(query)(locations.last()));
        assert(locations.drop_last().push(locations.last()) =~= locations);
    }
}

/// The destinations of `locations` whose name matches `query`, in the order
/// of `locations`.
pub fn filter_locations(locations: &Vec<Location>, query: &str) -> (found: Vec<Location>)
    ensures
        found@ == locations@.filter(matching(query@)),
        query@.len() == 0 ==> found@ == locations@,
{
    if query.is_empty() {
        proof {
            lemma_empty_query_keeps_all(locations@, query@);
        }
        return copy_locations(locations);
    }
    let lower_query = to_lowercase(query);
    let mut found: Vec<Location> = Vec::new();
    let mut i: usize = 0;
    proof {
        reveal(Seq::filter);
    }
    while i < locations.len()
        invariant
            i <= locations@.len(),
            query@.len() > 0,
            lower_query@ == lowercase(query@),
            found@ == locations@.take(i as int).filter(matching(query@)),
        decreases locations@.len() - i,
    {
        let location = locations[i];
        let lower_name = to_lowercase(location.name);
        let hit = contains(lower_name.as_str(), lower_query.as_str());
        proof {
            let before = locations@.take(i as int);
            assert(locations@.take(i + 1) =~= before.push(location));
            before.lemma_filter_push(location, matching(query@));
            assert(hit == matching(query@)(location));
        }
        if hit {
            found.push(location);
        }
        i += 1;
    }
    assert(locations@.take(locations@.len() as int) =~= locations@);
    found
}

/// Searches the catalog by name: every destination whose name holds the query,
/// whatever the case of either, in catalog order. The empty query finds the
/// whole catalog.
pub fn search_locations(query: &str) -> (found: Vec<Location>)
    ensures
        found@ == catalog().filter(matching(query@)),
        query@.len() == 0 ==> found@ == catalog(),
{
    let locations = get_all_locations();
    filter_locations(&locations, query)
}

/// A list of region names as texts.
pub open spec fn names_view(regions: Seq<&'static str>) -> Seq<Seq<char>> {
    Seq::new(regions.len(), |k: int| regions[k]@)
}

/// Tells whether `region` is among `regions`.
fn knows_region(regions: &Vec<&'static str>, region: &str) -> (known: bool)
    ensures
        known == names_view(regions@).contains(region@),
{
    let mut k: usize = 0;
    while k < regions.len()
        invariant
            k <= regions@.len(),
            forall|j: int| 0 <= j < k ==> names_view(regions@)[j] != region@,
        decreases regions@.len() - k,
    {
        if same_text(regions[k], region) {
            assert(names_view(regions@)[k as int] == region@);
            return true;
        }
        k += 1;
    }
    false
}

/// The regions of `locations`, each once, in first-seen order.
fn regions_in_order(locations: &Vec<Location>) -> (regions: Vec<&'static str>)
    ensures
        names_view(regions@) == region_order(locations@),
{
    let mut regions: Vec<&'static str> = Vec::new();
    let mut i: usize = 0;
    assert(names_view(regions@) =~= region_order(locations@.take(0)));
    while i < locations.len()
        invariant
            i <= locations@.len(),
            names_view(regions@) == region_order(locations@.take(i as int)),
        decreases locations@.len() - i,
    {
        let region = locations[i].region;
        let known = knows_region(&regions, region);
        proof {
            let upto = locations@.take(i + 1);
            assert(upto.drop_last() =~= locations@.take(i as int));
            assert(upto.last() == locations@[i as int]);
        }
        let ghost before = names_view(regions@);
        if !known {
            regions.push(region);
            assert(names_view(regions@) =~= before.push(region@));
        }
        i += 1;
    }
    assert(locations@.take(locations@.len() as int) =~= locations@);
    regions
}

/// The destinations of `locations` that lie in `region`, in their own order.
fn locations_in_region(locations: &Vec<Location>, region: &str) -> (members: Vec<Location>)
    ensures
        members@ == locations@.filter(in_region(region@)),
{
    let mut members: Vec<Location> = Vec::new();
    let mut i: usize = 0;
    proof {
        reveal(Seq::filter);
    }
    while i < locations.len()
        invariant
            i <= locations@.len(),
            members@ == locations@.take(i as int).filter(in_region(region@)),
        decreases locations@.len() - i,
    {
        let location = locations[i];
        let hit = same_text(location.region, region);
        proof {
            let before = locations@.take(i as int);
            assert(locations@.take(i + 1) =~= before.push(location));
            before.lemma_filter_push(location, in_region(region@));
            assert(hit == in_region(region@)(location));
        }
        if hit {
            members.push(location);
        }
        i += 1;
    }
    assert(locations@.take(locations@.len() as int) =~= locations@);
    members
}

/// Groups destinations by region. Regions come in the order in which they are
/// first seen, and the destinations of a region keep their order.
pub fn group_locations_by_region(locations: &Vec<Location>) -> (groups: Vec<LocationGroup>)
    ensures
        groups_view(groups@) == grouped(locations@),
{
    let regions = regions_in_order(locations);
    let mut groups: Vec<LocationGroup> = Vec::new();
    let mut g: usize = 0;
    while g < regions.len()
        invariant
            g <= regions@.len(),
            names_view(regions@) == region_order(locations@),
            groups@.len() == g,
            forall|k: int| 0 <= k < g ==> #[trigger] groups@[k]@ == grouped(locations@)[k],
        decreases regions@.len() - g,
    {
        let region = regions[g];
        let members = locations_in_region(locations, region);
        assert(names_view(regions@)[g as int] == region@);
        groups.push(LocationGroup { region, locations: members });
        g += 1;
    }
    assert(names_view(regions@).len() == regions@.len());
    assert(groups_view(groups@) =~= grouped(locations@));
    groups
}

/// The test for a name that is the query but for the case of its letters.
pub open spec fn named_exactly(query: Seq<char>) -> spec_fn(Location) -> bool {
    |location: Location| lowercase(location.name@) == lowercase(query)
}

/// The destinations of `locations` whose name is `query` but for case.
fn exact_matches(locations: &Vec<Location>, query: &str) -> (found: Vec<Location>)
    ensures
        found@ == locations@.filter(named_exactly(query@)),
{
    let lower_query = to_lowercase(query);
    let mut found: Vec<Location> = Vec::new();
    let mut i: usize = 0;
    proof {
        reveal(Seq::filter);
    }
    while i < locations.len()
        invariant
            i <= locations@.len(),
            lower_query@ == lowercase(query@),
            found@ == locations@.take(i as int).filter(named_exactly(query@)),
        decreases locations@.len() - i,
    {
        let location = locations[i];
        let lower_name = to_lowercase(location.name);
        let hit = same_text(lower_name.as_str(), lower_query.as_str());
        proof {
            let before = locations@.take(i as int);
            assert(locations@.take(i + 1) =~= before.push(location));
            before.lemma_filter_push(location, named_exactly(query@));
            assert(hit == named_exactly(query@)(location));
        }
        if hit {
            found.push(location);
        }
        i += 1;
    }
    assert(locations@.take(locations@.len() as int) =~= locations@);
    found
}

/// The destination that a name stands for: the first of the catalog whose
/// name is the query but for case, or else the first whose name holds it.
pub open spec fn found_location(query: Seq<char>) -> Option<Location> {
    let exact = catalog().filter(named_exactly(query));
    let partial = catalog().filter(matching(query));
    if exact.len() > 0 {
        Some(exact[0])
    } else if partial.len() > 0 {
        Some(partial[0])
    } else {
        None
    }
}

/// Finds the destination that a name stands for. A name that is given in
/// full wins over names that merely hold the query; among equals the first
/// in catalog order wins.
pub fn find_location(query: &str) -> (found: Option<Location>)
    ensures
        found == found_location(query@),
{
    let locations = get_all_locations();
    let exact = exact_matches(&locations, query);
    if exact.len() > 0 {
        return Some(exact[0]);
    }
    let partial = filter_locations(&locations, query);
    if partial.len() > 0 {
        return Some(partial[0]);
    }
    None
}

/// Why a query does not name a destination.
#[derive(Debug, Clone, Copy, PartialEq, Eq)]
pub enum SearchError {
    /// The query is empty.
    EmptyQuery,
    /// No destination matches.
    NoMatch,
    /// More than one destination matches.
    Ambiguous,
}

/// The one destination of a search result; a result with none or with more
/// than one names no destination.
pub fn handle_search_results(matches: &Vec<Location>) -> (picked: Result<Location, SearchError>)
    ensures
        picked == if matches@.len() == 0 {
            Err::<Location, SearchError>(SearchError::NoMatch)
        } else if matches@.len() > 1 {
            Err::<Location, SearchError>(SearchError::Ambiguous)
        } else {
            Ok::<Location, SearchError>(matches@[0])
        },
{
    if matches.len() == 0 {
        return Err(SearchError::NoMatch);
    }
    if matches.len() > 1 {
        return Err(SearchError::Ambiguous);
    }
    Ok(matches[0])
}

/// The destination that a one-shot teleport goes to.
pub open spec fn chosen_destination(query: Option<Seq<char>>) -> Result<Location, SearchError> {
    match query {
        None => Ok(catalog()[0]),
        Some(text) => {
            let matches = catalog().filter(matching(text));
            if text.len() == 0 {
                Err(SearchError::EmptyQuery)
            } else if matches.len() == 0 {
                Err(SearchError::NoMatch)
            } else if matches.len() > 1 {
                Err(SearchError::Ambiguous)
            } else {
                Ok(matches[0])
            }
        },
    }
}

/// Chooses the destination of a one-shot teleport: without a query the first
/// destination of the catalog, with one the single destination that it
/// matches. An empty query is refused, and so is one that matches no
/// destination or several.
pub fn choose_destination(query: Option<&str>) -> (chosen: Result<Location, SearchError>)
    ensures
        chosen == chosen_destination(
            match query {
                Some(text) => Some(text@),
                None => None,
            },
        ),
{
    match query {
        None => {
            let locations = get_all_locations();
            Ok(locations[0])
        },
        Some(text) => {
            if text.is_empty() {
                return Err(SearchError::EmptyQuery);
            }
            let matches = search_locations(text);
            handle_search_results(&matches)
        },
    }
}

} // verus!
