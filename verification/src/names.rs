//! Names of destinations as text: every destination has a name of its own.

use crate::catalog::{law_catalog_order_complete, LocationName};
use crate::text::same_text;
use vstd::prelude::*;

verus! {

/// What is known of every name of the catalog: how long it is.
proof fn lemma_name_lengths()
    ensures
        "Hunter's Dream"@.len() == 14,
        "1st Floor Sickroom"@.len() == 18,
        "Central Yharnam"@.len() == 15,
        "Great Bridge"@.len() == 12,
        "Tomb of Oedon"@.len() == 13,
        "Cathedral Ward"@.len() == 14,
        "Grand Cathedral Ward"@.len() == 20,
        "Upper Cathedral Ward"@.len() == 20,
        "Lumenflower Gardens"@.len() == 19,
        "Altar of Despair"@.len() == 16,
        "Old Yharnam"@.len() == 11,
        "Church of the Good Chalice"@.len() == 26,
        "Graveyard of the Darkbeast"@.len() == 26,
        "Hemwick Charnel Lane"@.len() == 20,
        "Witch's Abode"@.len() == 13,
        "Forbidden Woods"@.len() == 15,
        "Forbidden Grave"@.len() == 15,
        "Byrgenwerth"@.len() == 11,
        "Moonside Lake"@.len() == 13,
        "Yahar'gul, Unseen Village"@.len() == 25,
        "Yahar'gul Chapel"@.len() == 16,
        "Advent Plaza"@.len() == 12,
        "Hypogean Gaol"@.len() == 13,
        "Forsaken Castle Cainhurst"@.len() == 25,
        "Logarius' Seat"@.len() == 14,
        "Vileblood Queen's Chamber"@.len() == 25,
        "Abandoned Old Workshop"@.len() == 22,
        "Lecture Building"@.len() == 16,
        "Lecture Building 2nd Floor"@.len() == 26,
        "Nightmare Frontier"@.len() == 18,
        "Nightmare of Mensis"@.len() == 19,
        "Mergo's Loft: Base"@.len() == 18,
        "Mergo's Loft: Middle"@.len() == 20,
        "Wet Nurse's Lunarium"@.len() == 20,
        "Hunter's Nightmare"@.len() == 18,
        "Nightmare Church"@.len() == 16,
        "Nightmare Grand Cathedral"@.len() == 25,
        "Underground Corpse Pile"@.len() == 23,
        "Research Hall"@.len() == 13,
        "Lumenwood Garden"@.len() == 16,
        "Astral Clocktower"@.len() == 17,
        "Fishing Hamlet"@.len() == 14,
        "Lighthouse Hut"@.len() == 14,
        "Coast"@.len() == 5,
{
    reveal_strlit("Hunter's Dream");
    reveal_strlit("1st Floor Sickroom");
    reveal_strlit("Central Yharnam");
    reveal_strlit("Great Bridge");
    reveal_strlit("Tomb of Oedon");
    reveal_strlit("Cathedral Ward");
    reveal_strlit("Grand Cathedral Ward");
    reveal_strlit("Upper Cathedral Ward");
    reveal_strlit("Lumenflower Gardens");
    reveal_strlit("Altar of Despair");
    reveal_strlit("Old Yharnam");
    reveal_strlit("Church of the Good Chalice");
    reveal_strlit("Graveyard of the Darkbeast");
    reveal_strlit("Hemwick Charnel Lane");
    reveal_strlit("Witch's Abode");
    reveal_strlit("Forbidden Woods");
    reveal_strlit("Forbidden Grave");
    reveal_strlit("Byrgenwerth");
    reveal_strlit("Moonside Lake");
    reveal_strlit("Yahar'gul, Unseen Village");
    reveal_strlit("Yahar'gul Chapel");
    reveal_strlit("Advent Plaza");
    reveal_strlit("Hypogean Gaol");
    reveal_strlit("Forsaken Castle Cainhurst");
    reveal_strlit("Logarius' Seat");
    reveal_strlit("Vileblood Queen's Chamber");
    reveal_strlit("Abandoned Old Workshop");
    reveal_strlit("Lecture Building");
    reveal_strlit("Lecture Building 2nd Floor");
    reveal_strlit("Nightmare Frontier");
    reveal_strlit("Nightmare of Mensis");
    reveal_strlit("Mergo's Loft: Base");
    reveal_strlit("Mergo's Loft: Middle");
    reveal_strlit("Wet Nurse's Lunarium");
    reveal_strlit("Hunter's Nightmare");
    reveal_strlit("Nightmare Church");
    reveal_strlit("Nightmare Grand Cathedral");
    reveal_strlit("Underground Corpse Pile");
    reveal_strlit("Research Hall");
    reveal_strlit("Lumenwood Garden");
    reveal_strlit("Astral Clocktower");
    reveal_strlit("Fishing Hamlet");
    reveal_strlit("Lighthouse Hut");
    reveal_strlit("Coast");
}

/// The names of 11 characters differ from one another.
proof fn lemma_names_of_11_differ()
    ensures
        "Old Yharnam"@ != "Byrgenwerth"@,
{
    reveal_strlit("Old Yharnam");
    reveal_strlit("Byrgenwerth");
    assert("Old Yharnam"@[0] != "Byrgenwerth"@[0]);
}

/// The names of 12 characters differ from one another.
proof fn lemma_names_of_12_differ()
    ensures
        "Great Bridge"@ != "Advent Plaza"@,
{
    reveal_strlit("Great Bridge");
    reveal_strlit("Advent Plaza");
    assert("Great Bridge"@[0] != "Advent Plaza"@[0]);
}

/// The names of 13 characters differ from one another.
proof fn lemma_names_of_13_differ()
    ensures
        "Tomb of Oedon"@ != "Witch's Abode"@,
        "Tomb of Oedon"@ != "Moonside Lake"@,
        "Tomb of Oedon"@ != "Hypogean Gaol"@,
        "Tomb of Oedon"@ != "Research Hall"@,
        "Witch's Abode"@ != "Moonside Lake"@,
        "Witch's Abode"@ != "Hypogean Gaol"@,
        "Witch's Abode"@ != "Research Hall"@,
        "Moonside Lake"@ != "Hypogean Gaol"@,
        "Moonside Lake"@ != "Research Hall"@,
        "Hypogean Gaol"@ != "Research Hall"@,
{
    reveal_strlit("Tomb of Oedon");
    reveal_strlit("Witch's Abode");
    reveal_strlit("Moonside Lake");
    reveal_strlit("Hypogean Gaol");
    reveal_strlit("Research Hall");
    assert("Tomb of Oedon"@[0] != "Witch's Abode"@[0]);
    assert("Tomb of Oedon"@[0] != "Moonside Lake"@[0]);
    assert("Tomb of Oedon"@[0] != "Hypogean Gaol"@[0]);
    assert("Tomb of Oedon"@[0] != "Research Hall"@[0]);
    assert("Witch's Abode"@[0] != "Moonside Lake"@[0]);
    assert("Witch's Abode"@[0] != "Hypogean Gaol"@[0]);
    assert("Witch's Abode"@[0] != "Research Hall"@[0]);
    assert("Moonside Lake"@[0] != "Hypogean Gaol"@[0]);
    assert("Moonside Lake"@[0] != "Research Hall"@[0]);
    assert("Hypogean Gaol"@[0] != "Research Hall"@[0]);
}

/// The names of 14 characters differ from one another.
proof fn lemma_names_of_14_differ()
    ensures
        "Hunter's Dream"@ != "Cathedral Ward"@,
        "Hunter's Dream"@ != "Logarius' Seat"@,
        "Hunter's Dream"@ != "Fishing Hamlet"@,
        "Hunter's Dream"@ != "Lighthouse Hut"@,
        "Cathedral Ward"@ != "Logarius' Seat"@,
        "Cathedral Ward"@ != "Fishing Hamlet"@,
        "Cathedral Ward"@ != "Lighthouse Hut"@,
        "Logarius' Seat"@ != "Fishing Hamlet"@,
        "Logarius' Seat"@ != "Lighthouse Hut"@,
        "Fishing Hamlet"@ != "Lighthouse Hut"@,
{
    reveal_strlit("Hunter's Dream");
    reveal_strlit("Cathedral Ward");
    reveal_strlit("Logarius' Seat");
    reveal_strlit("Fishing Hamlet");
    reveal_strlit("Lighthouse Hut");
    assert("Hunter's Dream"@[0] != "Cathedral Ward"@[0]);
    assert("Hunter's Dream"@[0] != "Logarius' Seat"@[0]);
    assert("Hunter's Dream"@[0] != "Fishing Hamlet"@[0]);
    assert("Hunter's Dream"@[0] != "Lighthouse Hut"@[0]);
    assert("Cathedral Ward"@[0] != "Logarius' Seat"@[0]);
    assert("Cathedral Ward"@[0] != "Fishing Hamlet"@[0]);
    assert("Cathedral Ward"@[0] != "Lighthouse Hut"@[0]);
    assert("Logarius' Seat"@[0] != "Fishing Hamlet"@[0]);
    assert("Logarius' Seat"@[1] != "Lighthouse Hut"@[1]);
    assert("Fishing Hamlet"@[0] != "Lighthouse Hut"@[0]);
}

/// The names of 15 characters differ from one another.
proof fn lemma_names_of_15_differ()
    ensures
        "Central Yharnam"@ != "Forbidden Woods"@,
        "Central Yharnam"@ != "Forbidden Grave"@,
        "Forbidden Woods"@ != "Forbidden Grave"@,
{
    reveal_strlit("Central Yharnam");
    reveal_strlit("Forbidden Woods");
    reveal_strlit("Forbidden Grave");
    assert("Central Yharnam"@[0] != "Forbidden Woods"@[0]);
    assert("Central Yharnam"@[0] != "Forbidden Grave"@[0]);
    assert("Forbidden Woods"@[10] != "Forbidden Grave"@[10]);
}

/// The names of 16 characters differ from one another.
proof fn lemma_names_of_16_differ()
    ensures
        "Altar of Despair"@ != "Yahar'gul Chapel"@,
        "Altar of Despair"@ != "Lecture Building"@,
        "Altar of Despair"@ != "Nightmare Church"@,
        "Altar of Despair"@ != "Lumenwood Garden"@,
        "Yahar'gul Chapel"@ != "Lecture Building"@,
        "Yahar'gul Chapel"@ != "Nightmare Church"@,
        "Yahar'gul Chapel"@ != "Lumenwood Garden"@,
        "Lecture Building"@ != "Nightmare Church"@,
        "Lecture Building"@ != "Lumenwood Garden"@,
        "Nightmare Church"@ != "Lumenwood Garden"@,
{
    reveal_strlit("Altar of Despair");
    reveal_strlit("Yahar'gul Chapel");
    reveal_strlit("Lecture Building");
    reveal_strlit("Nightmare Church");
    reveal_strlit("Lumenwood Garden");
    assert("Altar of Despair"@[0] != "Yahar'gul Chapel"@[0]);
    assert("Altar of Despair"@[0] != "Lecture Building"@[0]);
    assert("Altar of Despair"@[0] != "Nightmare Church"@[0]);
    assert("Altar of Despair"@[0] != "Lumenwood Garden"@[0]);
    assert("Yahar'gul Chapel"@[0] != "Lecture Building"@[0]);
    assert("Yahar'gul Chapel"@[0] != "Nightmare Church"@[0]);
    assert("Yahar'gul Chapel"@[0] != "Lumenwood Garden"@[0]);
    assert("Lecture Building"@[0] != "Nightmare Church"@[0]);
    assert("Lecture Building"@[1] != "Lumenwood Garden"@[1]);
    assert("Nightmare Church"@[0] != "Lumenwood Garden"@[0]);
}

/// The names of 18 characters differ from one another.
proof fn lemma_names_of_18_differ()
    ensures
        "1st Floor Sickroom"@ != "Nightmare Frontier"@,
        "1st Floor Sickroom"@ != "Mergo's Loft: Base"@,
        "1st Floor Sickroom"@ != "Hunter's Nightmare"@,
        "Nightmare Frontier"@ != "Mergo's Loft: Base"@,
        "Nightmare Frontier"@ != "Hunter's Nightmare"@,
        "Mergo's Loft: Base"@ != "Hunter's Nightmare"@,
{
    reveal_strlit("1st Floor Sickroom");
    reveal_strlit("Nightmare Frontier");
    reveal_strlit("Mergo's Loft: Base");
    reveal_strlit("Hunter's Nightmare");
    assert("1st Floor Sickroom"@[0] != "Nightmare Frontier"@[0]);
    assert("1st Floor Sickroom"@[0] != "Mergo's Loft: Base"@[0]);
    assert("1st Floor Sickroom"@[0] != "Hunter's Nightmare"@[0]);
    assert("Nightmare Frontier"@[0] != "Mergo's Loft: Base"@[0]);
    assert("Nightmare Frontier"@[0] != "Hunter's Nightmare"@[0]);
    assert("Mergo's Loft: Base"@[0] != "Hunter's Nightmare"@[0]);
}

/// The names of 19 characters differ from one another.
proof fn lemma_names_of_19_differ()
    ensures
        "Lumenflower Gardens"@ != "Nightmare of Mensis"@,
{
    reveal_strlit("Lumenflower Gardens");
    reveal_strlit("Nightmare of Mensis");
    assert("Lumenflower Gardens"@[0] != "Nightmare of Mensis"@[0]);
}

/// The names of 20 characters differ from one another.
proof fn lemma_names_of_20_differ()
    ensures
        "Grand Cathedral Ward"@ != "Upper Cathedral Ward"@,
        "Grand Cathedral Ward"@ != "Hemwick Charnel Lane"@,
        "Grand Cathedral Ward"@ != "Mergo's Loft: Middle"@,
        "Grand Cathedral Ward"@ != "Wet Nurse's Lunarium"@,
        "Upper Cathedral Ward"@ != "Hemwick Charnel Lane"@,
        "Upper Cathedral Ward"@ != "Mergo's Loft: Middle"@,
        "Upper Cathedral Ward"@ != "Wet Nurse's Lunarium"@,
        "Hemwick Charnel Lane"@ != "Mergo's Loft: Middle"@,
        "Hemwick Charnel Lane"@ != "Wet Nurse's Lunarium"@,
        "Mergo's Loft: Middle"@ != "Wet Nurse's Lunarium"@,
{
    reveal_strlit("Grand Cathedral Ward");
    reveal_strlit("Upper Cathedral Ward");
    reveal_strlit("Hemwick Charnel Lane");
    reveal_strlit("Mergo's Loft: Middle");
    reveal_strlit("Wet Nurse's Lunarium");
    assert("Grand Cathedral Ward"@[0] != "Upper Cathedral Ward"@[0]);
    assert("Grand Cathedral Ward"@[0] != "Hemwick Charnel Lane"@[0]);
    assert("Grand Cathedral Ward"@[0] != "Mergo's Loft: Middle"@[0]);
    assert("Grand Cathedral Ward"@[0] != "Wet Nurse's Lunarium"@[0]);
    assert("Upper Cathedral Ward"@[0] != "Hemwick Charnel Lane"@[0]);
    assert("Upper Cathedral Ward"@[0] != "Mergo's Loft: Middle"@[0]);
    assert("Upper Cathedral Ward"@[0] != "Wet Nurse's Lunarium"@[0]);
    assert("Hemwick Charnel Lane"@[0] != "Mergo's Loft: Middle"@[0]);
    assert("Hemwick Charnel Lane"@[0] != "Wet Nurse's Lunarium"@[0]);
    assert("Mergo's Loft: Middle"@[0] != "Wet Nurse's Lunarium"@[0]);
}

/// The names of 25 characters differ from one another.
proof fn lemma_names_of_25_differ()
    ensures
        "Yahar'gul, Unseen Village"@ != "Forsaken Castle Cainhurst"@,
        "Yahar'gul, Unseen Village"@ != "Vileblood Queen's Chamber"@,
        "Yahar'gul, Unseen Village"@ != "Nightmare Grand Cathedral"@,
        "Forsaken Castle Cainhurst"@ != "Vileblood Queen's Chamber"@,
        "Forsaken Castle Cainhurst"@ != "Nightmare Grand Cathedral"@,
        "Vileblood Queen's Chamber"@ != "Nightmare Grand Cathedral"@,
{
    reveal_strlit("Yahar'gul, Unseen Village");
    reveal_strlit("Forsaken Castle Cainhurst");
    reveal_strlit("Vileblood Queen's Chamber");
    reveal_strlit("Nightmare Grand Cathedral");
    assert("Yahar'gul, Unseen Village"@[0] != "Forsaken Castle Cainhurst"@[0]);
    assert("Yahar'gul, Unseen Village"@[0] != "Vileblood Queen's Chamber"@[0]);
    assert("Yahar'gul, Unseen Village"@[0] != "Nightmare Grand Cathedral"@[0]);
    assert("Forsaken Castle Cainhurst"@[0] != "Vileblood Queen's Chamber"@[0]);
    assert("Forsaken Castle Cainhurst"@[0] != "Nightmare Grand Cathedral"@[0]);
    assert("Vileblood Queen's Chamber"@[0] != "Nightmare Grand Cathedral"@[0]);
}

/// The names of 26 characters differ from one another.
proof fn lemma_names_of_26_differ()
    ensures
        "Church of the Good Chalice"@ != "Graveyard of the Darkbeast"@,
        "Church of the Good Chalice"@ != "Lecture Building 2nd Floor"@,
        "Graveyard of the Darkbeast"@ != "Lecture Building 2nd Floor"@,
{
    reveal_strlit("Church of the Good Chalice");
    reveal_strlit("Graveyard of the Darkbeast");
    reveal_strlit("Lecture Building 2nd Floor");
    assert("Church of the Good Chalice"@[0] != "Graveyard of the Darkbeast"@[0]);
    assert("Church of the Good Chalice"@[0] != "Lecture Building 2nd Floor"@[0]);
    assert("Graveyard of the Darkbeast"@[0] != "Lecture Building 2nd Floor"@[0]);
}

/// No two destinations share a name.
pub proof fn law_names_are_unique(a: LocationName, b: LocationName)
    requires
        a.location().name@ == b.location().name@,
    ensures
        a == b,
{
    lemma_name_lengths();
    lemma_names_of_11_differ();
    lemma_names_of_12_differ();
    lemma_names_of_13_differ();
    lemma_names_of_14_differ();
    lemma_names_of_15_differ();
    lemma_names_of_16_differ();
    lemma_names_of_18_differ();
    lemma_names_of_19_differ();
    lemma_names_of_20_differ();
    lemma_names_of_25_differ();
    lemma_names_of_26_differ();
}

impl LocationName {
    /// The name shown for this destination.
    pub fn name(self) -> (text: &'static str)
        ensures
            text@ == self.location().name@,
    {
        self.get_location().name
    }

    /// The destination whose name is `text`, letter for letter.
    pub fn from_name(text: &str) -> (found: Option<LocationName>)
        ensures
            match found {
                Some(name) => name.location().name@ == text@,
                None => forall|name: LocationName| name.location().name@ != text@,
            },
    {
        let names = LocationName::all();
        let mut i: usize = 0;
        while i < names.len()
            invariant
                i <= names@.len(),
                names@ == LocationName::catalog_order(),
                forall|k: int| 0 <= k < i ==> (#[trigger] names@[k]).location().name@ != text@,
            decreases names@.len() - i,
        {
            if same_text(names[i].name(), text) {
                return Some(names[i]);
            }
            i += 1;
        }
        assert forall|name: LocationName| name.location().name@ != text@ by {
            law_catalog_order_complete(name);
            assert(names@[name.index()] == name);
        }
        None
    }
}

} // verus!
