//! Keys: what each key does on each screen of the session.

use crate::event::{KeyAction, KeyEvent, TerminalEvent};
use crate::session::{refiltered, step_down, step_up, went_back, App, AppMode, Request};
use vstd::prelude::*;

verus! {

/// What a key makes of the file browser: up and down move the selection,
/// enter opens the selected entry, and every other key changes nothing.
pub open spec fn file_browser_step(
    before: App,
    action: Option<KeyAction>,
    after: App,
    request: Request,
) -> bool {
    match action {
        Some(KeyAction::Up) => request == Request::Nothing && after == (App {
            selected_file: step_up(before.selected_file),
            ..before
        }),
        Some(KeyAction::Down) => request == Request::Nothing && after == (App {
            selected_file: step_down(before.selected_file, before.file_list@.len()),
            ..before
        }),
        Some(KeyAction::Enter) => if before.file_list@.len() == 0 {
            request == Request::Nothing && after == before
        } else if before.file_list@[before.selected_file as int].is_dir {
            request == Request::ListDirectory && after == (App {
                current_path: before.file_list@[before.selected_file as int].path,
                ..before
            })
        } else {
            request == Request::ReadForValidation && after == (App {
                save_file_path: Some(before.file_list@[before.selected_file as int].path),
                mode: AppMode::Validating,
                ..before
            })
        },
        _ => request == Request::Nothing && after == before,
    }
}

/// What a key makes of the screen of a valid save file: enter goes on to
/// the destinations, escape back to the file browser.
pub open spec fn validation_success_step(
    before: App,
    action: Option<KeyAction>,
    after: App,
    request: Request,
) -> bool {
    request == Request::Nothing && match action {
        Some(KeyAction::Enter) => after == (App { mode: AppMode::LocationSelection, ..before }),
        Some(KeyAction::Escape) => went_back(before, after),
        _ => after == before,
    }
}

/// What a key makes of the screen of a refused save file: enter and escape
/// go back to the file browser.
pub open spec fn validation_error_step(
    before: App,
    action: Option<KeyAction>,
    after: App,
    request: Request,
) -> bool {
    request == Request::Nothing && match action {
        Some(KeyAction::Enter) | Some(KeyAction::Escape) => went_back(before, after),
        _ => after == before,
    }
}

/// What a key makes of the destination list: up and down move the
/// selection, enter asks for confirmation, escape goes back to the file
/// browser, and the search key starts typing.
pub open spec fn location_selection_step(
    before: App,
    action: Option<KeyAction>,
    after: App,
    request: Request,
) -> bool {
    request == Request::Nothing && match action {
        Some(KeyAction::Up) => after == (App {
            selected_location: step_up(before.selected_location),
            ..before
        }),
        Some(KeyAction::Down) => after == (App {
            selected_location: step_down(before.selected_location, before.total()),
            ..before
        }),
        Some(KeyAction::Enter) => match before.selected() {
            Some(location) => after == (App {
                selected_destination: Some(location),
                confirm_selection: false,
                mode: AppMode::Confirmation(before.selected_location),
                ..before
            }),
            None => after == before,
        },
        Some(KeyAction::Escape) => went_back(before, after),
        Some(KeyAction::Search) => after == (App { mode: AppMode::LocationSearch, ..before }),
        _ => after == before,
    }
}

/// What a key makes of the destination list while the search text is typed:
/// characters and backspace edit the text, enter keeps the filter, escape
/// clears it, and up and down move the selection.
pub open spec fn location_search_step(
    before: App,
    action: Option<KeyAction>,
    after: App,
    request: Request,
) -> bool {
    request == Request::Nothing && match action {
        Some(KeyAction::Enter) => after == (App { mode: AppMode::LocationSelection, ..before }),
        Some(KeyAction::Escape) => refiltered(
            App { mode: AppMode::LocationSelection, ..before },
            Seq::empty(),
            after,
        ),
        Some(KeyAction::Backspace) => refiltered(
            before,
            if before.search_query@.len() > 0 {
                before.search_query@.drop_last()
            } else {
                before.search_query@
            },
            after,
        ),
        Some(KeyAction::Char(c)) => refiltered(before, before.search_query@.push(c), after),
        Some(KeyAction::Up) => after == (App {
            selected_location: step_up(before.selected_location),
            ..before
        }),
        Some(KeyAction::Down) => after == (App {
            selected_location: step_down(before.selected_location, before.total()),
            ..before
        }),
        _ => after == before,
    }
}

/// What a key makes of the confirmation: left and right move the choice,
/// escape cancels, and enter does what the choice says.
pub open spec fn confirmation_step(
    before: App,
    action: Option<KeyAction>,
    after: App,
    request: Request,
) -> bool {
    match action {
        Some(KeyAction::Left) => request == Request::Nothing && after == (App {
            confirm_selection: false,
            ..before
        }),
        Some(KeyAction::Right) => request == Request::Nothing && after == (App {
            confirm_selection: true,
            ..before
        }),
        Some(KeyAction::Enter) => if before.confirm_selection {
            request == Request::ReadForTeleport && after == (App {
                mode: AppMode::Teleporting,
                ..before
            })
        } else {
            request == Request::Nothing && after == (App {
                mode: AppMode::LocationSelection,
                ..before
            })
        },
        Some(KeyAction::Escape) => request == Request::Nothing && after == (App {
            mode: AppMode::LocationSelection,
            ..before
        }),
        _ => request == Request::Nothing && after == before,
    }
}

/// What a key makes of the screen of a finished teleport: enter returns to
/// the destinations, escape to the file browser.
pub open spec fn teleport_success_step(
    before: App,
    action: Option<KeyAction>,
    after: App,
    request: Request,
) -> bool {
    request == Request::Nothing && match action {
        Some(KeyAction::Enter) => after == (App {
            mode: AppMode::LocationSelection,
            selected_destination: None,
            ..before
        }),
        Some(KeyAction::Escape) => went_back(before, after),
        _ => after == before,
    }
}

/// What a key makes of the screen of a failed teleport: enter and escape
/// return to the destinations.
pub open spec fn teleport_error_step(
    before: App,
    action: Option<KeyAction>,
    after: App,
    request: Request,
) -> bool {
    request == Request::Nothing && match action {
        Some(KeyAction::Enter) | Some(KeyAction::Escape) => after == (App {
            mode: AppMode::LocationSelection,
            ..before
        }),
        _ => after == before,
    }
}

/// What the key `action` makes of the session `before`, by the screen that
/// `before` shows: `after` is the session that results, and `request` what is
/// to be done for it before the next key. While a file is validated or a
/// teleport is under way no key changes anything. A quit key is no concern of
/// this relation, which leaves the session as it is.
pub open spec fn key_step(before: App, action: Option<KeyAction>, after: App, request: Request) -> bool {
    match before.mode {
        AppMode::FileBrowser => file_browser_step(before, action, after, request),
        AppMode::Validating => request == Request::ReadForValidation && after == before,
        AppMode::ValidationSuccess(_) => validation_success_step(before, action, after, request),
        AppMode::ValidationError(_) => validation_error_step(before, action, after, request),
        AppMode::LocationSelection => location_selection_step(before, action, after, request),
        AppMode::LocationSearch => location_search_step(before, action, after, request),
        AppMode::Confirmation(_) => confirmation_step(before, action, after, request),
        AppMode::Teleporting => request == Request::ReadForTeleport && after == before,
        AppMode::TeleportSuccess => teleport_success_step(before, action, after, request),
        AppMode::TeleportError(_) => teleport_error_step(before, action, after, request),
    }
}

/// The file browser: up and down move the selection, enter opens the entry.
pub fn handle_file_browser_input(app: &mut App, action: Option<KeyAction>) -> (request: Request)
    requires
        old(app).wf(),
    ensures
        final(app).wf(),
        file_browser_step(*old(app), action, *final(app), request),
{
    match action {
        Some(KeyAction::Up) => {
            app.move_file_up();
            Request::Nothing
        },
        Some(KeyAction::Down) => {
            app.move_file_down();
            Request::Nothing
        },
        Some(KeyAction::Enter) => app.navigate_to_selected(),
        _ => Request::Nothing,
    }
}

/// The screen of a valid save file: enter goes on to the destinations,
/// escape back to the file browser.
pub fn handle_validation_success_input(app: &mut App, action: Option<KeyAction>) -> (request:
    Request)
    requires
        old(app).wf(),
    ensures
        final(app).wf(),
        validation_success_step(*old(app), action, *final(app), request),
{
    match action {
        Some(KeyAction::Enter) => {
            app.mode = AppMode::LocationSelection;
        },
        Some(KeyAction::Escape) => {
            app.go_back_to_file_browser();
        },
        _ => {},
    }
    Request::Nothing
}

/// The screen of a refused save file: enter and escape go back to the file
/// browser, and nothing else leaves it.
pub fn handle_validation_error_input(app: &mut App, action: Option<KeyAction>) -> (request: Request)
    requires
        old(app).wf(),
    ensures
        final(app).wf(),
        validation_error_step(*old(app), action, *final(app), request),
{
    match action {
        Some(KeyAction::Enter) | Some(KeyAction::Escape) => {
            app.go_back_to_file_browser();
        },
        _ => {},
    }
    Request::Nothing
}

/// Choosing a destination: up and down move the selection, enter asks for
/// confirmation, escape goes back to the file browser, and the search key
/// starts typing; the filter stays as it is.
#[verifier::rlimit(50)]
pub fn handle_location_selection_input(app: &mut App, action: Option<KeyAction>) -> (request:
    Request)
    requires
        old(app).wf(),
    ensures
        final(app).wf(),
        location_selection_step(*old(app), action, *final(app), request),
{
    match action {
        Some(KeyAction::Up) => {
            app.move_location_up();
        },
        Some(KeyAction::Down) => {
            app.move_location_down();
        },
        Some(KeyAction::Enter) => {
            app.select_location();
        },
        Some(KeyAction::Escape) => {
            app.go_back_to_file_browser();
        },
        Some(KeyAction::Search) => {
            app.mode = AppMode::LocationSearch;
        },
        _ => {},
    }
    Request::Nothing
}

/// Typing the search text: characters and backspace edit it, enter keeps the
/// filter and returns to choosing, escape clears it, up and down move the
/// selection.
#[verifier::rlimit(50)]
pub fn handle_location_search_input(app: &mut App, action: Option<KeyAction>) -> (request: Request)
    requires
        old(app).wf(),
    ensures
        final(app).wf(),
        location_search_step(*old(app), action, *final(app), request),
{
    match action {
        Some(KeyAction::Enter) => {
            app.mode = AppMode::LocationSelection;
        },
        Some(KeyAction::Escape) => {
            app.clear_search();
        },
        Some(KeyAction::Backspace) => {
            app.pop_search_char();
        },
        Some(KeyAction::Char(c)) => {
            app.push_search_char(c);
        },
        Some(KeyAction::Up) => {
            app.move_location_up();
        },
        Some(KeyAction::Down) => {
            app.move_location_down();
        },
        _ => {},
    }
    Request::Nothing
}

/// The confirmation: left and right move the choice, escape cancels, and
/// enter does what the choice says: on the confirm side the teleport begins,
/// on the cancel side the session returns to choosing a destination.
pub fn handle_confirmation_input(app: &mut App, action: Option<KeyAction>) -> (request: Request)
    requires
        old(app).wf(),
    ensures
        final(app).wf(),
        confirmation_step(*old(app), action, *final(app), request),
{
    match action {
        Some(KeyAction::Left) => {
            app.move_confirm_left();
            Request::Nothing
        },
        Some(KeyAction::Right) => {
            app.move_confirm_right();
            Request::Nothing
        },
        Some(KeyAction::Enter) => {
            if app.confirm_selection {
                app.mode = AppMode::Teleporting;
                Request::ReadForTeleport
            } else {
                app.mode = AppMode::LocationSelection;
                Request::Nothing
            }
        },
        Some(KeyAction::Escape) => {
            app.mode = AppMode::LocationSelection;
            Request::Nothing
        },
        _ => Request::Nothing,
    }
}

/// The screen of a finished teleport: enter returns to the destinations for
/// another one, escape to the file browser.
#[verifier::rlimit(50)]
pub fn handle_teleport_success_input(app: &mut App, action: Option<KeyAction>) -> (request: Request)
    requires
        old(app).wf(),
    ensures
        final(app).wf(),
        teleport_success_step(*old(app), action, *final(app), request),
{
    match action {
        Some(KeyAction::Enter) => {
            app.mode = AppMode::LocationSelection;
            app.selected_destination = None;
        },
        Some(KeyAction::Escape) => {
            app.go_back_to_file_browser();
        },
        _ => {},
    }
    Request::Nothing
}

/// The screen of a failed teleport: enter and escape return to the
/// destinations, and nothing else leaves it.
pub fn handle_teleport_error_input(app: &mut App, action: Option<KeyAction>) -> (request: Request)
    requires
        old(app).wf(),
    ensures
        final(app).wf(),
        teleport_error_step(*old(app), action, *final(app), request),
{
    match action {
        Some(KeyAction::Enter) | Some(KeyAction::Escape) => {
            app.mode = AppMode::LocationSelection;
        },
        _ => {},
    }
    Request::Nothing
}

/// What is to be done for a session that shows `mode`, whatever the event:
/// a file being validated is to be read for validation, a teleport under way
/// is to be carried out, and every other screen waits for a key.
pub open spec fn pending(mode: AppMode) -> Request {
    match mode {
        AppMode::Validating => Request::ReadForValidation,
        AppMode::Teleporting => Request::ReadForTeleport,
        _ => Request::Nothing,
    }
}

/// What a key asks for on the screen `mode`: while the search text is typed
/// the key is read as text where it types a character, elsewhere as a command.
pub open spec fn key_action(mode: AppMode, key: KeyEvent) -> Option<KeyAction> {
    if mode is LocationSearch {
        KeyAction::of_search_key(key)
    } else {
        KeyAction::of_key(key)
    }
}

impl App {
    /// What is to be done for the session before the next event is taken.
    pub fn pending_request(&self) -> (request: Request)
        ensures
            request == pending(self.mode),
    {
        match self.mode {
            AppMode::Validating => Request::ReadForValidation,
            AppMode::Teleporting => Request::ReadForTeleport,
            _ => Request::Nothing,
        }
    }

    /// Takes one event. A key is read for the screen shown; a quit key ends
    /// the session, on every screen, and any other key does what the screen
    /// makes of it. Events other than keys change nothing. The request
    /// returned is what is to be done before the next event: in particular a
    /// validation or a teleport that has begun is carried out at once, with no
    /// key taken in between.
    #[verifier::rlimit(50)]
    pub fn handle_event(&mut self, event: TerminalEvent) -> (request: Request)
        requires
            old(self).wf(),
        ensures
            final(self).wf(),
            match event {
                TerminalEvent::Key(key) => {
                    let action = key_action(old(self).mode, key);
                    key_step(
                        App {
                            should_quit: old(self).should_quit || action == Some(KeyAction::Quit),
                            ..*old(self)
                        },
                        action,
                        *final(self),
                        request,
                    )
                },
                _ => *final(self) == *old(self) && request == pending(old(self).mode),
            },
            final(self).mode is Validating ==> request == Request::ReadForValidation,
            final(self).mode is Teleporting ==> request == Request::ReadForTeleport,
            old(self).should_quit ==> final(self).should_quit,
    {
        let key = match event {
            TerminalEvent::Key(key) => key,
            _ => {
                return self.pending_request();
            },
        };
        let searching = match self.mode {
            AppMode::LocationSearch => true,
            _ => false,
        };
        let action = if searching {
            KeyAction::from_search_key_event(key)
        } else {
            KeyAction::from_key_event(key)
        };
        match action {
            Some(KeyAction::Quit) => {
                self.quit();
            },
            _ => {},
        }
        match self.mode {
            AppMode::FileBrowser => handle_file_browser_input(self, action),
            AppMode::Validating => Request::ReadForValidation,
            AppMode::ValidationSuccess(_) => handle_validation_success_input(self, action),
            AppMode::ValidationError(_) => handle_validation_error_input(self, action),
            AppMode::LocationSelection => handle_location_selection_input(self, action),
            AppMode::LocationSearch => handle_location_search_input(self, action),
            AppMode::Confirmation(_) => handle_confirmation_input(self, action),
            AppMode::Teleporting => Request::ReadForTeleport,
            AppMode::TeleportSuccess => handle_teleport_success_input(self, action),
            AppMode::TeleportError(_) => handle_teleport_error_input(self, action),
        }
    }
}

} // verus!
