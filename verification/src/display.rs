//! What the destination list shows, as plain values: its rows, the row under
//! the selection, and the counter in its title.

use crate::registry::{flat, groups_view, lemma_flat_take_next, LocationGroup};
use crate::types::Location;
use vstd::prelude::*;

verus! {

/// A row of the destination list.
#[derive(Debug, Clone, Copy, PartialEq, Eq)]
pub enum Row {
    /// The name of a region, above its destinations.
    Header(&'static str),
    /// The line under a region's name.
    Separator,
    /// A destination.
    Entry(Location),
    /// The empty line after a region's destinations.
    Blank,
}

/// The rows of one group: its header, the separator, its destinations, and
/// an empty line.
pub open spec fn group_rows(group: LocationGroup) -> Seq<Row> {
    seq![Row::Header(group.region), Row::Separator] + Seq::new(
        group.locations@.len(),
        |k: int| Row::Entry(group.locations@[k]),
    ) + seq![Row::Blank]
}

/// The rows of the whole list, group after group.
pub open spec fn list_rows(groups: Seq<LocationGroup>) -> Seq<Row>
    decreases groups.len(),
{
    if groups.len() == 0 {
        Seq::empty()
    } else {
        list_rows(groups.drop_last()) + group_rows(groups.last())
    }
}

/// The row that shows the destination at `selected`, counted through all
/// groups: each group in front of it adds three rows that hold no
/// destination, and its own group two. Where the selection lies beyond the
/// last destination the row is 0.
pub open spec fn display_row(groups: Seq<LocationGroup>, selected: int) -> int
    decreases groups.len(),
{
    if groups.len() == 0 {
        0
    } else {
        let before = flat(groups_view(groups.drop_last())).len();
        if selected < before {
            display_row(groups.drop_last(), selected)
        } else if selected < before + groups.last().locations@.len() {
            list_rows(groups.drop_last()).len() + 2 + (selected - before)
        } else {
            0
        }
    }
}

/// The list has three rows for each group besides those of the destinations.
pub proof fn lemma_list_rows_len(groups: Seq<LocationGroup>)
    ensures
        list_rows(groups).len() == flat(groups_view(groups)).len() + 3 * groups.len(),
    decreases groups.len(),
{
    if groups.len() > 0 {
        lemma_list_rows_len(groups.drop_last());
        assert(groups_view(groups).drop_last() =~= groups_view(groups.drop_last()));
    }
}

/// A selection beyond the last destination has row 0.
pub proof fn lemma_display_row_beyond(groups: Seq<LocationGroup>, selected: int)
    requires
        selected >= flat(groups_view(groups)).len(),
    ensures
        display_row(groups, selected) == 0,
{
    if groups.len() > 0 {
        assert(groups_view(groups).drop_last() =~= groups_view(groups.drop_last()));
    }
}

/// The row under a selection inside the list shows the selected destination.
pub proof fn law_display_row_shows_selection(groups: Seq<LocationGroup>, selected: int)
    requires
        0 <= selected < flat(groups_view(groups)).len(),
    ensures
        0 <= display_row(groups, selected) < list_rows(groups).len(),
        list_rows(groups)[display_row(groups, selected)] == Row::Entry(
            flat(groups_view(groups))[selected],
        ),
    decreases groups.len(),
{
    assert(groups.len() > 0);
    let rest = groups.drop_last();
    assert(groups_view(groups).drop_last() =~= groups_view(rest));
    let before = flat(groups_view(rest)).len();
    lemma_list_rows_len(rest);
    if selected < before {
        law_display_row_shows_selection(rest, selected);
    } else {
        let k = selected - before;
        assert(group_rows(groups.last())[2 + k] == Row::Entry(groups.last().locations@[k]));
    }
}

/// Lays the groups out as the rows of the destination list and finds the row
/// under the selection.
pub fn build_location_items_with_selection(groups: &Vec<LocationGroup>, selected: usize) -> (shown:
    (Vec<Row>, usize))
    ensures
        shown.0@ == list_rows(groups@),
        shown.1 == display_row(groups@, selected as int),
{
    let mut items: Vec<Row> = Vec::new();
    let mut current_location_idx: usize = 0;
    let mut selected_display_idx: usize = 0;
    let mut g: usize = 0;
    assert(groups@.take(0) =~= Seq::empty());
    assert(groups_view(groups@.take(0)) =~= Seq::empty());
    while g < groups.len()
        invariant
            g <= groups@.len(),
            items@ == list_rows(groups@.take(g as int)),
            current_location_idx == flat(groups_view(groups@.take(g as int))).len(),
            items@.len() == current_location_idx + 3 * g,
            selected_display_idx == display_row(groups@.take(g as int), selected as int),
        decreases groups@.len() - g,
    {
        let group = &groups[g];
        let ghost upto = groups@.take(g as int);
        let ghost next = groups@.take(g + 1);
        proof {
            assert(next.drop_last() =~= upto);
            assert(next.last() == *group);
            assert(groups_view(next).drop_last() =~= groups_view(upto));
            assert(groups_view(next) =~= groups_view(groups@).take(g + 1));
            assert(groups_view(upto) =~= groups_view(groups@).take(g as int));
            lemma_flat_take_next(groups_view(groups@), g as int);
            if selected >= current_location_idx {
                lemma_display_row_beyond(upto, selected as int);
            }
        }
        let size = group.locations.len();
        let first = items.len();
        items.push(Row::Header(group.region));
        items.push(Row::Separator);
        let ghost head = items@;
        let mut k: usize = 0;
        while k < size
            invariant
                k <= size,
                size == group.locations@.len(),
                items@ == head + Seq::new(k as nat, |j: int| Row::Entry(group.locations@[j])),
            decreases size - k,
        {
            items.push(Row::Entry(group.locations[k]));
            assert(items@ =~= head + Seq::new(
                (k + 1) as nat,
                |j: int| Row::Entry(group.locations@[j]),
            ));
            k += 1;
        }
        items.push(Row::Blank);
        assert(items@ =~= list_rows(upto) + group_rows(*group));
        let _rows = items.len();
        if current_location_idx <= selected && selected - current_location_idx < size {
            selected_display_idx = first + 2 + (selected - current_location_idx);
        }
        current_location_idx += size;
        g += 1;
    }
    assert(groups@.take(groups@.len() as int) =~= groups@);
    (items, selected_display_idx)
}

/// The number shown for the selection in the title of a list of `total`
/// entries: the selection counted from one, and no more than `total`.
pub fn position_counter(selected: usize, total: usize) -> (shown: usize)
    ensures
        shown == if selected + 1 <= total {
            selected + 1
        } else {
            total as int
        },
{
    if selected < total {
        selected + 1
    } else {
        total
    }
}

} // verus!
