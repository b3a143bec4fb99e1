//! The interactive session: which screen is shown, what is selected, and how
//! each key and each finished operation moves the session on.
//!
//! The session does no input or output of its own. Whoever drives it lists
//! directories, reads and writes the save file, and hands the results in.

use crate::catalog::{catalog, LOCATION_COUNT};
use crate::listing::{arrange_listing, entries_view, listing, FileEntry};
use crate::groups::{
    filter_group_list, filter_groups, lemma_empty_query_keeps_groups,
    lemma_filter_groups_shrinks, location_at, total_locations,
};
use crate::registry::{
    flat, get_all_locations, group_locations_by_region, grouped, groups_view, LocationGroup,
};
use crate::registry_laws::lemma_grouped_bounds;
use crate::types::{CurrentPosition, Location};
use std::path::PathBuf;
use vstd::prelude::*;

verus! {

/// The screen that the session shows.
#[derive(Debug, Clone, PartialEq, Eq)]
pub enum AppMode {
    /// Browsing for the save file.
    FileBrowser,
    /// The chosen file is being validated; no key is taken.
    Validating,
    /// The file is a save file; its position is shown.
    ValidationSuccess(CurrentPosition),
    /// The file was refused, for the reason given.
    ValidationError(String),
    /// Choosing a destination.
    LocationSelection,
    /// Typing the text that filters the destinations.
    LocationSearch,
    /// Asking whether to go to the destination selected at this index.
    Confirmation(usize),
    /// The save file is being rewritten; no key is taken.
    Teleporting,
    /// The save file was rewritten.
    TeleportSuccess,
    /// The save file was not rewritten, for the reason given.
    TeleportError(String),
}

/// The selection after a step up: one less, and unchanged at the top.
pub open spec fn step_up(selected: usize) -> usize {
    if selected > 0 {
        (selected - 1) as usize
    } else {
        selected
    }
}

/// The selection after a step down in a list of `total` entries: one more,
/// and unchanged at the last entry or in an empty list.
pub open spec fn step_down(selected: usize, total: nat) -> usize {
    if selected + 1 < total {
        (selected + 1) as usize
    } else {
        selected
    }
}

/// The selection brought back into a list of `total` entries: unchanged where
/// it is inside, the last entry where it is beyond, and 0 in an empty list.
pub open spec fn clamped(selected: usize, total: nat) -> usize {
    if total == 0 {
        0
    } else if selected >= total {
        (total - 1) as usize
    } else {
        selected
    }
}

/// The state of a session.
pub struct App {
    /// The screen shown.
    pub mode: AppMode,
    /// The directory that the file browser shows.
    pub current_path: PathBuf,
    /// The entries of that directory.
    pub file_list: Vec<FileEntry>,
    /// The entry selected in the file browser.
    pub selected_file: usize,
    /// How far the file list is scrolled.
    pub file_scroll_offset: usize,
    /// The whole catalog, grouped by region.
    pub location_groups: Vec<LocationGroup>,
    /// What the search text leaves of it.
    pub filtered_location_groups: Vec<LocationGroup>,
    /// The destination selected, counted through the filtered groups in order.
    pub selected_location: usize,
    /// How far the destination list is scrolled.
    pub location_scroll_offset: usize,
    /// The search text.
    pub search_query: String,
    /// The save file that was chosen.
    pub save_file_path: Option<PathBuf>,
    /// The position found when the save file was validated.
    pub current_position: Option<CurrentPosition>,
    /// The destination that awaits confirmation or was travelled to.
    pub selected_destination: Option<Location>,
    /// The side of the confirmation choice: `true` is confirm, `false` cancel.
    pub confirm_selection: bool,
    /// Whether the session is over.
    pub should_quit: bool,
}

impl App {
    /// How many destinations the search text leaves.
    pub open spec fn total(&self) -> nat {
        flat(groups_view(self.filtered_location_groups@)).len()
    }

    /// The destination under the selection, if the list is not empty.
    pub open spec fn selected(&self) -> Option<Location> {
        if self.selected_location < self.total() {
            Some(flat(groups_view(self.filtered_location_groups@))[self.selected_location as int])
        } else {
            None
        }
    }

    /// The state is sound: the groups are the catalog grouped by region, the
    /// filtered groups are what the search text leaves of them, and both
    /// selections point into their lists (or are 0 where a list is empty).
    pub open spec fn wf(&self) -> bool {
        &&& groups_view(self.location_groups@) == grouped(catalog())
        &&& groups_view(self.filtered_location_groups@) == filter_groups(
            groups_view(self.location_groups@),
            self.search_query@,
        )
        &&& self.selected_location == clamped(self.selected_location, self.total())
        &&& self.selected_file == clamped(self.selected_file, self.file_list@.len())
    }

    /// A session that begins in the file browser at `current_path`, with an
    /// empty file list, the whole catalog on offer and nothing selected.
    pub fn new(current_path: PathBuf) -> (app: App)
        ensures
            app.wf(),
            app.mode == AppMode::FileBrowser,
            app.current_path == current_path,
            app.file_list@.len() == 0,
            app.selected_file == 0,
            app.file_scroll_offset == 0,
            app.selected_location == 0,
            app.location_scroll_offset == 0,
            app.search_query@.len() == 0,
            groups_view(app.filtered_location_groups@) == grouped(catalog()),
            flat(groups_view(app.filtered_location_groups@)) == catalog(),
            app.total() == LOCATION_COUNT,
            app.save_file_path is None,
            app.current_position is None,
            app.selected_destination is None,
            !app.confirm_selection,
            !app.should_quit,
    {
        let location_groups = Self::group_locations_by_region();
        let search_query = String::new();
        let filtered_location_groups = filter_group_list(&location_groups, search_query.as_str());
        proof {
            lemma_grouped_bounds(catalog());
            assert forall|g: int| 0 <= g < groups_view(location_groups@).len() implies (
            #[trigger] groups_view(location_groups@)[g]).1.len() > 0 by {
                assert(groups_view(location_groups@)[g] == grouped(catalog())[g]);
            }
            lemma_empty_query_keeps_groups(groups_view(location_groups@), search_query@);
            crate::registry_laws::law_catalog_groups_keep_order();
        }
        App {
            mode: AppMode::FileBrowser,
            current_path,
            file_list: Vec::new(),
            selected_file: 0,
            file_scroll_offset: 0,
            location_groups,
            filtered_location_groups,
            selected_location: 0,
            location_scroll_offset: 0,
            search_query,
            save_file_path: None,
            current_position: None,
            selected_destination: None,
            confirm_selection: false,
            should_quit: false,
        }
    }

    /// The whole catalog grouped by region.
    fn group_locations_by_region() -> (groups: Vec<LocationGroup>)
        ensures
            groups_view(groups@) == grouped(catalog()),
    {
        let locations = get_all_locations();
        group_locations_by_region(&locations)
    }

    /// The search text leaves no more destinations than the catalog holds.
    pub proof fn lemma_total_within_catalog(&self)
        requires
            self.wf(),
        ensures
            self.total() <= LOCATION_COUNT,
    {
        lemma_filter_groups_shrinks(grouped(catalog()), self.search_query@);
        crate::registry_laws::law_catalog_groups_keep_order();
    }

    /// Moves the file selection one entry up; at the first entry it stays.
    pub fn move_file_up(&mut self)
        requires
            old(self).wf(),
        ensures
            final(self).wf(),
            *final(self) == (App { selected_file: step_up(old(self).selected_file), ..*old(self) }),
    {
        if self.selected_file > 0 {
            self.selected_file -= 1;
        }
    }

    /// Moves the file selection one entry down; at the last entry it stays.
    pub fn move_file_down(&mut self)
        requires
            old(self).wf(),
        ensures
            final(self).wf(),
            *final(self) == (App {
                selected_file: step_down(old(self).selected_file, old(self).file_list@.len()),
                ..*old(self)
            }),
    {
        let count = self.file_list.len();
        if count > 0 && self.selected_file < count - 1 {
            self.selected_file += 1;
        }
    }

    /// Moves the destination selection one entry up; at the first it stays.
    pub fn move_location_up(&mut self)
        requires
            old(self).wf(),
        ensures
            final(self).wf(),
            *final(self) == (App {
                selected_location: step_up(old(self).selected_location),
                ..*old(self)
            }),
    {
        if self.selected_location > 0 {
            self.selected_location -= 1;
        }
    }

    /// Moves the destination selection one entry down; at the last entry of
    /// the filtered list it stays, and it never leaves the list.
    pub fn move_location_down(&mut self)
        requires
            old(self).wf(),
        ensures
            old(self).selected_location + 1 >= old(self).total() ==> final(self).selected_location
                == old(self).selected_location,
            final(self).total() > 0 ==> final(self).selected_location < final(self).total(),
            final(self).wf(),
            *final(self) == (App {
                selected_location: step_down(old(self).selected_location, old(self).total()),
                ..*old(self)
            }),
    {
        let total = self.get_total_filtered_locations();
        if total > 0 && self.selected_location < total - 1 {
            self.selected_location += 1;
        }
    }

    /// Counts the destinations that the search text leaves.
    pub fn get_total_filtered_locations(&self) -> (total: usize)
        requires
            self.wf(),
        ensures
            total == self.total(),
    {
        proof {
            self.lemma_total_within_catalog();
        }
        total_locations(&self.filtered_location_groups)
    }

    /// The destination under the selection; none where the list is empty.
    pub fn get_selected_location(&self) -> (found: Option<Location>)
        requires
            self.wf(),
        ensures
            found == self.selected(),
    {
        location_at(&self.filtered_location_groups, self.selected_location)
    }

    /// Filters the destinations by the search text again and brings the
    /// selection back into the list: beyond the end it snaps to the last
    /// entry, and in an empty list it is 0.
    pub fn apply_search_filter(&mut self)
        requires
            groups_view(old(self).location_groups@) == grouped(catalog()),
        ensures
            refiltered(*old(self), old(self).search_query@, *final(self)),
            groups_view(final(self).filtered_location_groups@) == filter_groups(
                grouped(catalog()),
                old(self).search_query@,
            ),
            final(self).selected_location == clamped(
                old(self).selected_location,
                final(self).total(),
            ),
            final(self).search_query@.len() == 0 ==> groups_view(
                final(self).filtered_location_groups@,
            ) == grouped(catalog()),
            *final(self) == (App {
                filtered_location_groups: final(self).filtered_location_groups,
                selected_location: final(self).selected_location,
                ..*old(self)
            }),
    {
        self.filtered_location_groups =
        filter_group_list(&self.location_groups, self.search_query.as_str());
        proof {
            if self.search_query@.len() == 0 {
                lemma_grouped_bounds(catalog());
                lemma_empty_query_keeps_groups(grouped(catalog()), self.search_query@);
            }
            lemma_filter_groups_shrinks(grouped(catalog()), self.search_query@);
            crate::registry_laws::law_catalog_groups_keep_order();
        }
        let total = total_locations(&self.filtered_location_groups);
        if total == 0 {
            self.selected_location = 0;
        } else if self.selected_location >= total {
            self.selected_location = total - 1;
        }
    }

    /// Moves the confirmation choice to the left, the cancel side.
    pub fn move_confirm_left(&mut self)
        ensures
            *final(self) == (App { confirm_selection: false, ..*old(self) }),
    {
        self.confirm_selection = false;
    }

    /// Moves the confirmation choice to the right, the confirm side.
    pub fn move_confirm_right(&mut self)
        ensures
            *final(self) == (App { confirm_selection: true, ..*old(self) }),
    {
        self.confirm_selection = true;
    }

    /// Ends the session.
    pub fn quit(&mut self)
        ensures
            *final(self) == (App { should_quit: true, ..*old(self) }),
    {
        self.should_quit = true;
    }
}

/// What whoever drives the session has to do before the next key is taken.
#[derive(Debug, Clone, Copy, PartialEq, Eq)]
pub enum Request {
    /// Nothing: wait for the next event.
    Nothing,
    /// List the directory `current_path` and hand the listing to
    /// `refresh_file_list`.
    ListDirectory,
    /// Read the file `save_file_path` and hand it to `validate_save_file`.
    ReadForValidation,
    /// Read the file `save_file_path` and hand it to `execute_teleport`.
    ReadForTeleport,
}

impl App {
    /// Takes a new directory listing: `parent` is the path of the directory
    /// above, if there is one, and `entries` what the directory holds. The
    /// selection goes back to the first entry.
    pub fn refresh_file_list(&mut self, parent: Option<PathBuf>, entries: &Vec<FileEntry>)
        requires
            old(self).wf(),
        ensures
            final(self).wf(),
            entries_view(final(self).file_list@) == listing(parent, entries_view(entries@)),
            *final(self) == (App {
                file_list: final(self).file_list,
                selected_file: 0,
                file_scroll_offset: 0,
                ..*old(self)
            }),
    {
        let shown = arrange_listing(parent, entries);
        self.file_list = shown;
        self.selected_file = 0;
        self.file_scroll_offset = 0;
    }

    /// Opens the selected entry: a directory becomes the directory shown, and
    /// a file becomes the save file to validate. In an empty list nothing
    /// happens.
    pub fn navigate_to_selected(&mut self) -> (request: Request)
        requires
            old(self).wf(),
        ensures
            final(self).wf(),
            old(self).file_list@.len() == 0 ==> request == Request::Nothing && *final(self) == *old(
                self,
            ),
            old(self).file_list@.len() > 0 && old(self).file_list@[old(
                self,
            ).selected_file as int].is_dir ==> {
                &&& request == Request::ListDirectory
                &&& *final(self) == (App {
                    current_path: old(self).file_list@[old(self).selected_file as int].path,
                    ..*old(self)
                })
            },
            old(self).file_list@.len() > 0 && !old(self).file_list@[old(
                self,
            ).selected_file as int].is_dir ==> {
                &&& request == Request::ReadForValidation
                &&& *final(self) == (App {
                    save_file_path: Some(old(self).file_list@[old(self).selected_file as int].path),
                    mode: AppMode::Validating,
                    ..*old(self)
                })
            },
    {
        if self.selected_file < self.file_list.len() {
            let is_dir = self.file_list[self.selected_file].is_dir;
            let path = self.file_list[self.selected_file].path.clone();
            if is_dir {
                self.current_path = path;
                Request::ListDirectory
            } else {
                self.save_file_path = Some(path);
                self.mode = AppMode::Validating;
                Request::ReadForValidation
            }
        } else {
            Request::Nothing
        }
    }

    /// Empties the search text, which brings every destination back, and
    /// returns to choosing a destination.
    pub fn clear_search(&mut self)
        requires
            old(self).wf(),
        ensures
            old(self).total() == 0 ==> final(self).selected_location == 0,
            refiltered(
                App { mode: AppMode::LocationSelection, ..*old(self) },
                Seq::empty(),
                *final(self),
            ),
            final(self).wf(),
            final(self).mode == AppMode::LocationSelection,
            final(self).search_query@.len() == 0,
            groups_view(final(self).filtered_location_groups@) == grouped(catalog()),
            final(self).selected_location == clamped(
                old(self).selected_location,
                final(self).total(),
            ),
            *final(self) == (App {
                mode: final(self).mode,
                search_query: final(self).search_query,
                filtered_location_groups: final(self).filtered_location_groups,
                selected_location: final(self).selected_location,
                ..*old(self)
            }),
    {
        self.search_query = String::new();
        self.apply_search_filter();
        self.mode = AppMode::LocationSelection;
    }

    /// Adds a character to the search text and filters again.
    pub fn push_search_char(&mut self, c: char)
        requires
            old(self).wf(),
        ensures
            refiltered(*old(self), old(self).search_query@.push(c), *final(self)),
            final(self).wf(),
            final(self).search_query@ == old(self).search_query@.push(c),
            final(self).selected_location == clamped(
                old(self).selected_location,
                final(self).total(),
            ),
            *final(self) == (App {
                search_query: final(self).search_query,
                filtered_location_groups: final(self).filtered_location_groups,
                selected_location: final(self).selected_location,
                ..*old(self)
            }),
    {
        crate::text::push_char(&mut self.search_query, c);
        self.apply_search_filter();
    }

    /// Deletes the last character of the search text, if it has one, and
    /// filters again.
    pub fn pop_search_char(&mut self)
        requires
            old(self).wf(),
        ensures
            refiltered(
                *old(self),
                if old(self).search_query@.len() > 0 {
                    old(self).search_query@.drop_last()
                } else {
                    old(self).search_query@
                },
                *final(self),
            ),
            final(self).wf(),
            final(self).search_query@ == if old(self).search_query@.len() > 0 {
                old(self).search_query@.drop_last()
            } else {
                old(self).search_query@
            },
            final(self).selected_location == clamped(
                old(self).selected_location,
                final(self).total(),
            ),
            *final(self) == (App {
                search_query: final(self).search_query,
                filtered_location_groups: final(self).filtered_location_groups,
                selected_location: final(self).selected_location,
                ..*old(self)
            }),
    {
        let _ = crate::text::pop_char(&mut self.search_query);
        self.apply_search_filter();
    }

    /// Takes the destination under the selection and asks for confirmation,
    /// the choice standing on the cancel side. Where the list is empty nothing
    /// happens.
    pub fn select_location(&mut self)
        requires
            old(self).wf(),
        ensures
            final(self).wf(),
            match old(self).selected() {
                Some(location) => *final(self) == (App {
                    selected_destination: Some(location),
                    confirm_selection: false,
                    mode: AppMode::Confirmation(old(self).selected_location),
                    ..*old(self)
                }),
                None => *final(self) == *old(self),
            },
    {
        if let Some(location) = self.get_selected_location() {
            self.selected_destination = Some(location);
            self.confirm_selection = false;
            self.mode = AppMode::Confirmation(self.selected_location);
        }
    }

    /// Returns to the file browser and forgets the save file, its position,
    /// the destination, the search text and the selection.
    pub fn go_back_to_file_browser(&mut self)
        requires
            old(self).wf(),
        ensures
            went_back(*old(self), *final(self)),
            final(self).wf(),
            final(self).mode == AppMode::FileBrowser,
            final(self).save_file_path is None,
            final(self).current_position is None,
            final(self).selected_destination is None,
            final(self).search_query@.len() == 0,
            final(self).selected_location == 0,
            groups_view(final(self).filtered_location_groups@) == grouped(catalog()),
            *final(self) == (App {
                mode: final(self).mode,
                save_file_path: None,
                current_position: None,
                selected_destination: None,
                search_query: final(self).search_query,
                selected_location: 0,
                filtered_location_groups: final(self).filtered_location_groups,
                ..*old(self)
            }),
    {
        self.mode = AppMode::FileBrowser;
        self.save_file_path = None;
        self.current_position = None;
        self.selected_destination = None;
        self.search_query = String::new();
        self.selected_location = 0;
        self.apply_search_filter();
    }
}

/// `after` is `before` with the search text `query` and the destinations
/// filtered by it: the filtered groups are what the query leaves of the
/// catalog, the selection is brought back into them, and nothing else differs.
pub open spec fn refiltered(before: App, query: Seq<char>, after: App) -> bool {
    &&& after == (App {
        search_query: after.search_query,
        filtered_location_groups: after.filtered_location_groups,
        selected_location: after.selected_location,
        ..before
    })
    &&& after.search_query@ == query
    &&& groups_view(after.filtered_location_groups@) == filter_groups(grouped(catalog()), query)
    &&& after.selected_location == clamped(before.selected_location, after.total())
    &&& (query.len() == 0 ==> groups_view(after.filtered_location_groups@) == grouped(catalog()))
}

/// `after` is `before` back in the file browser, with the save file, its
/// position, the destination, the search text and the selection forgotten.
pub open spec fn went_back(before: App, after: App) -> bool {
    refiltered(
        App {
            mode: AppMode::FileBrowser,
            save_file_path: None,
            current_position: None,
            selected_destination: None,
            selected_location: 0,
            ..before
        },
        Seq::empty(),
        after,
    )
}

/// `after` shows the error `told` on the screen for a refused save file
/// (`teleporting` unset) or for a failed teleport (`teleporting` set), and
/// differs from `before` in nothing else.
pub open spec fn shows_error(before: App, teleporting: bool, told: Seq<char>, after: App) -> bool {
    &&& after == (App { mode: after.mode, ..before })
    &&& if teleporting {
        after.mode matches AppMode::TeleportError(text) && text@ == told
    } else {
        after.mode matches AppMode::ValidationError(text) && text@ == told
    }
}

/// What `validate_save_file` makes of a session that has a save file, given
/// what reading the file gave.
pub open spec fn validated(before: App, read: Result<Vec<u8>, String>, after: App) -> bool {
    match read {
        Ok(bytes) => match crate::save::coordinate_block(bytes@) {
            Ok(coord) => {
                &&& after.mode matches AppMode::ValidationSuccess(position)
                &&& crate::save::is_position_at(bytes@, coord, position)
                &&& after.current_position == Some(position)
                &&& after == (App {
                    mode: after.mode,
                    current_position: after.current_position,
                    ..before
                })
            },
            Err(e) => shows_error(before, false, e.text(), after),
        },
        Err(reason) => shows_error(
            before,
            false,
            crate::types::TeleportError::ReadError(reason).text(),
            after,
        ),
    }
}

/// What `execute_teleport` makes of a session that is confirmed and has a
/// save file and the destination `location`, given what reading the file gave:
/// the bytes to write and the session goes on teleporting, or an error shown.
pub open spec fn teleport_prepared(
    before: App,
    location: Location,
    read: Result<Vec<u8>, String>,
    after: App,
    write: Option<Vec<u8>>,
) -> bool {
    match read {
        Ok(bytes) => match crate::save::coordinate_block(bytes@) {
            Ok(coord) => {
                &&& write matches Some(rewritten)
                &&& rewritten@ == crate::save::teleported(bytes@, location, coord)
                &&& after == (App { mode: AppMode::Teleporting, ..before })
            },
            Err(e) => write is None && shows_error(before, true, e.text(), after),
        },
        Err(reason) => write is None && shows_error(
            before,
            true,
            crate::types::TeleportError::ReadError(reason).text(),
            after,
        ),
    }
}

impl App {
    /// Takes what reading the chosen save file gave and validates it: a
    /// buffer that holds a position leads to the success screen with that
    /// position, anything else to the error screen with the reason. Where no
    /// save file was chosen nothing happens.
    pub fn validate_save_file(&mut self, read: Result<Vec<u8>, String>)
        requires
            old(self).wf(),
        ensures
            final(self).wf(),
            old(self).save_file_path is None ==> *final(self) == *old(self),
            old(self).save_file_path is Some ==> validated(*old(self), read, *final(self)),
    {
        if self.save_file_path.is_none() {
            return ;
        }
        let checked = match read {
            Ok(bytes) => crate::save::validate_save_file(bytes.as_slice()),
            Err(reason) => Err(crate::types::TeleportError::ReadError(reason)),
        };
        match checked {
            Ok(position) => {
                self.current_position = Some(position);
                self.mode = AppMode::ValidationSuccess(position);
            },
            Err(e) => {
                self.mode = AppMode::ValidationError(e.message());
            },
        }
    }

    /// Carries out the confirmation. On the cancel side the session returns
    /// to choosing a destination. On the confirm side the buffer that was read
    /// from the save file is rewritten for the destination and returned for
    /// writing, the session teleporting meanwhile; where the file could not be
    /// read or holds no position, the error is shown and nothing is to be
    /// written. Without a save file or a destination nothing happens.
    pub fn execute_teleport(&mut self, read: Result<Vec<u8>, String>) -> (write: Option<Vec<u8>>)
        requires
            old(self).wf(),
        ensures
            final(self).wf(),
            !old(self).confirm_selection ==> write is None && *final(self) == (App {
                mode: AppMode::LocationSelection,
                ..*old(self)
            }),
            old(self).confirm_selection && (old(self).save_file_path is None || old(
                self,
            ).selected_destination is None) ==> write is None && *final(self) == *old(self),
            old(self).confirm_selection && old(self).save_file_path is Some && old(
                self,
            ).selected_destination is Some ==> teleport_prepared(
                *old(self),
                old(self).selected_destination->0,
                read,
                *final(self),
                write,
            ),
    {
        if !self.confirm_selection {
            self.mode = AppMode::LocationSelection;
            return None;
        }
        if self.save_file_path.is_none() {
            return None;
        }
        let location = match self.selected_destination {
            Some(location) => location,
            None => {
                return None;
            },
        };
        self.mode = AppMode::Teleporting;
        let mut bytes = match read {
            Ok(bytes) => bytes,
            Err(reason) => {
                self.mode = AppMode::TeleportError(
                    crate::types::TeleportError::ReadError(reason).message(),
                );
                return None;
            },
        };
        match crate::save::teleport(&mut bytes, &location) {
            Ok(()) => Some(bytes),
            Err(e) => {
                self.mode = AppMode::TeleportError(e.message());
                None
            },
        }
    }

    /// Takes what writing the rewritten save file gave: success leads to the
    /// success screen, a failure to the error screen with the reason.
    pub fn finish_teleport(&mut self, written: Result<(), String>)
        requires
            old(self).wf(),
        ensures
            final(self).wf(),
            match written {
                Ok(_) => *final(self) == (App { mode: AppMode::TeleportSuccess, ..*old(self) }),
                Err(reason) => shows_error(
                    *old(self),
                    true,
                    crate::types::TeleportError::WriteError(reason).text(),
                    *final(self),
                ),
            },
    {
        match written {
            Ok(_) => {
                self.mode = AppMode::TeleportSuccess;
            },
            Err(reason) => {
                self.mode = AppMode::TeleportError(
                    crate::types::TeleportError::WriteError(reason).message(),
                );
            },
        }
    }
}

/// With an empty search text the session offers the whole catalog in catalog
/// order: whatever was typed before, once the text is empty again the list
/// read group after group is the catalog, and the selection counts through it.
pub proof fn law_empty_search_shows_catalog(app: App)
    requires
        app.wf(),
        app.search_query@.len() == 0,
    ensures
        groups_view(app.filtered_location_groups@) == grouped(catalog()),
        flat(groups_view(app.filtered_location_groups@)) == catalog(),
        app.total() == LOCATION_COUNT,
        app.selected() == Some(catalog()[app.selected_location as int]),
{
    lemma_grouped_bounds(catalog());
    lemma_empty_query_keeps_groups(grouped(catalog()), app.search_query@);
    crate::registry_laws::law_catalog_groups_keep_order();
}

/// A search text that matches no destination leaves an empty list, the
/// selection at 0 and nothing selected.
pub proof fn law_empty_list_selects_nothing(app: App)
    requires
        app.wf(),
        app.total() == 0,
    ensures
        app.selected_location == 0,
        app.selected() is None,
{
}

} // verus!
