use std::path::{Path, PathBuf};

use lantern_teleport::catalog::LocationName;
use lantern_teleport::event::{KeyAction, KeyCode, KeyEvent, TerminalEvent, MODIFIER_CONTROL, MODIFIER_NONE};
use lantern_teleport::registry::get_all_locations;
use lantern_teleport::listing::{arrange_listing, sort_entries, FileEntry};
use lantern_teleport::controls::{
    handle_confirmation_input, handle_file_browser_input, handle_location_search_input,
    handle_location_selection_input, handle_teleport_error_input, handle_teleport_success_input,
    handle_validation_error_input, handle_validation_success_input,
};
use lantern_teleport::groups::{filter_group_list, location_at, total_locations};
use lantern_teleport::session::{App, AppMode, Request};
use lantern_teleport::types::Location;

fn press(code: KeyCode) -> TerminalEvent {
    TerminalEvent::Key(KeyEvent { code, modifiers: MODIFIER_NONE })
}

fn typed(app: &mut App, text: &str) {
    for c in text.chars() {
        assert_eq!(app.handle_event(press(KeyCode::Char(c))), Request::Nothing);
    }
}

fn entry(name: &str, is_dir: bool) -> FileEntry {
    FileEntry { name: name.to_string(), path: Path::new("/saves").join(name), is_dir }
}

fn save_buffer() -> Vec<u8> {
    let mut bytes = vec![0x55u8; 128];
    bytes[0..4].copy_from_slice(&[0x4C, 0x43, 0x45, 0x44]);
    bytes[40..52].copy_from_slice(&[0xFF, 0xFF, 0xFF, 0xFF, 0, 0, 0, 0, 0, 0, 0, 0]);
    bytes
}

fn flat(app: &App) -> Vec<Location> {
    let mut all = Vec::new();
    for group in &app.filtered_location_groups {
        all.extend(group.locations.iter().copied());
    }
    all
}

fn selecting() -> App {
    let mut app = App::new(PathBuf::from("/saves"));
    app.refresh_file_list(None, &vec![entry("userdata0000", false)]);
    assert_eq!(app.handle_event(press(KeyCode::Enter)), Request::ReadForValidation);
    app.validate_save_file(Ok(save_buffer()));
    assert!(matches!(app.mode, AppMode::ValidationSuccess(_)));
    assert_eq!(app.handle_event(press(KeyCode::Enter)), Request::Nothing);
    assert_eq!(app.mode, AppMode::LocationSelection);
    app
}

#[test]
fn a_new_session_browses_files() {
    let app = App::new(PathBuf::from("/home"));
    assert_eq!(app.mode, AppMode::FileBrowser);
    assert_eq!(app.current_path, PathBuf::from("/home"));
    assert!(app.file_list.is_empty());
    assert_eq!(app.selected_file, 0);
    assert_eq!(app.selected_location, 0);
    assert_eq!(app.search_query, "");
    assert_eq!(app.save_file_path, None);
    assert_eq!(app.current_position, None);
    assert_eq!(app.selected_destination, None);
    assert!(!app.confirm_selection);
    assert!(!app.should_quit);
    assert_eq!(app.location_groups.len(), 6);
    assert_eq!(flat(&app), get_all_locations());
    assert_eq!(app.get_total_filtered_locations(), 44);
    assert_eq!(app.pending_request(), Request::Nothing);
}

#[test]
fn listing_shows_the_way_up_then_directories_then_files() {
    let mut app = App::new(PathBuf::from("/saves"));
    app.selected_file = 0;
    let entries = vec![
        entry("b.txt", false),
        entry("docs", true),
        entry(".", true),
        entry("a.txt", false),
        entry("..", true),
        entry("apps", true),
        entry("..", false),
    ];
    app.refresh_file_list(Some(PathBuf::from("/")), &entries);
    let names: Vec<&str> = app.file_list.iter().map(|e| e.name.as_str()).collect();
    assert_eq!(names, vec!["..", "apps", "docs", "a.txt", "b.txt"]);
    assert_eq!(app.file_list[0].path, PathBuf::from("/"));
    assert!(app.file_list[0].is_dir);
    assert_eq!(app.file_list[1].path, PathBuf::from("/saves/apps"));
    assert_eq!(app.selected_file, 0);
    app.refresh_file_list(None, &entries);
    let names: Vec<&str> = app.file_list.iter().map(|e| e.name.as_str()).collect();
    assert_eq!(names, vec!["apps", "docs", "a.txt", "b.txt"]);
    assert_eq!(arrange_listing(None, &entries), app.file_list);
}

#[test]
fn listing_is_ordered_without_regard_to_case() {
    let given = vec![
        entry("beta", false),
        entry("Alpha", false),
        entry("alpha", false),
        entry("BETA", false),
        entry("b", false),
        entry("", false),
        entry("Zeta", false),
        entry("alphabet", false),
        entry("ALPHA", false),
    ];
    let names: Vec<String> = sort_entries(&given).into_iter().map(|e| e.name).collect();
    assert_eq!(
        names,
        vec!["", "Alpha", "alpha", "ALPHA", "alphabet", "b", "beta", "BETA", "Zeta"]
    );
    assert!(sort_entries(&Vec::new()).is_empty());
    let mixed = vec![entry("b", true), entry("a", false), entry("A", true), entry("c", true)];
    let names: Vec<String> =
        arrange_listing(None, &mixed).into_iter().map(|e| e.name).collect();
    assert_eq!(names, vec!["A", "b", "c", "a"]);
}

#[test]
fn file_selection_stays_inside_the_list() {
    let mut app = App::new(PathBuf::from("/saves"));
    app.move_file_down();
    assert_eq!(app.selected_file, 0);
    app.move_file_up();
    assert_eq!(app.selected_file, 0);
    app.refresh_file_list(None, &vec![entry("a", false), entry("b", false), entry("c", false)]);
    app.move_file_down();
    app.move_file_down();
    assert_eq!(app.selected_file, 2);
    app.move_file_down();
    assert_eq!(app.selected_file, 2);
    app.move_file_up();
    assert_eq!(app.selected_file, 1);
    app.refresh_file_list(None, &vec![entry("a", false)]);
    assert_eq!(app.selected_file, 0);
}

#[test]
fn opening_a_directory_asks_for_its_listing() {
    let mut app = App::new(PathBuf::from("/saves"));
    assert_eq!(app.navigate_to_selected(), Request::Nothing);
    app.refresh_file_list(Some(PathBuf::from("/")), &vec![entry("slot", true), entry("file", false)]);
    app.move_file_down();
    assert_eq!(app.navigate_to_selected(), Request::ListDirectory);
    assert_eq!(app.current_path, PathBuf::from("/saves/slot"));
    assert_eq!(app.mode, AppMode::FileBrowser);
    assert_eq!(app.save_file_path, None);
    app.move_file_down();
    assert_eq!(app.handle_event(press(KeyCode::Enter)), Request::ReadForValidation);
    assert_eq!(app.mode, AppMode::Validating);
    assert_eq!(app.save_file_path, Some(PathBuf::from("/saves/file")));
    assert_eq!(app.pending_request(), Request::ReadForValidation);
}

#[test]
fn validating_takes_no_key_but_quit() {
    let mut app = App::new(PathBuf::from("/saves"));
    app.refresh_file_list(None, &vec![entry("file", false)]);
    app.navigate_to_selected();
    let before = app.save_file_path.clone();
    assert_eq!(app.handle_event(press(KeyCode::Esc)), Request::ReadForValidation);
    assert_eq!(app.handle_event(TerminalEvent::Tick), Request::ReadForValidation);
    assert_eq!(app.handle_event(TerminalEvent::Resize(10, 10)), Request::ReadForValidation);
    assert_eq!(app.mode, AppMode::Validating);
    assert_eq!(app.save_file_path, before);
    assert!(!app.should_quit);
    app.handle_event(press(KeyCode::Char('q')));
    assert!(app.should_quit);
    assert_eq!(app.mode, AppMode::Validating);
}

#[test]
fn validation_shows_the_position_or_the_reason() {
    let mut app = App::new(PathBuf::from("/saves"));
    app.validate_save_file(Ok(save_buffer()));
    assert_eq!(app.mode, AppMode::FileBrowser);
    app.refresh_file_list(None, &vec![entry("file", false)]);
    app.navigate_to_selected();
    let mut bytes = save_buffer();
    bytes[52..56].copy_from_slice(&2.5f32.to_le_bytes());
    bytes[4..8].copy_from_slice(&[1, 2, 3, 4]);
    app.validate_save_file(Ok(bytes));
    let position = app.current_position.expect("a position");
    assert_eq!(app.mode, AppMode::ValidationSuccess(position));
    assert_eq!(f32::from_bits(position.x), 2.5);
    assert_eq!(position.map_id, [1, 2, 3, 4]);

    app.mode = AppMode::Validating;
    app.validate_save_file(Ok(vec![0u8; 64]));
    assert_eq!(
        app.mode,
        AppMode::ValidationError("Could not find the LCED marker in the save file".to_string())
    );
    app.mode = AppMode::Validating;
    app.validate_save_file(Err("permission denied".to_string()));
    assert_eq!(
        app.mode,
        AppMode::ValidationError("Failed to read the save file: permission denied".to_string())
    );
    assert_eq!(app.handle_event(press(KeyCode::Char('x'))), Request::Nothing);
    assert!(matches!(app.mode, AppMode::ValidationError(_)));
    app.handle_event(press(KeyCode::Enter));
    assert_eq!(app.mode, AppMode::FileBrowser);
    assert_eq!(app.save_file_path, None);
    assert_eq!(app.current_position, None);
}

#[test]
fn down_at_the_last_entry_stays() {
    let mut app = selecting();
    for _ in 0..43 {
        app.move_location_down();
    }
    assert_eq!(app.selected_location, 43);
    app.move_location_down();
    assert_eq!(app.selected_location, 43);
    assert_eq!(app.handle_event(press(KeyCode::Down)), Request::Nothing);
    assert_eq!(app.selected_location, 43);
    assert_eq!(app.get_selected_location(), Some(LocationName::Coast.get_location()));

    app.handle_event(press(KeyCode::Char('/')));
    typed(&mut app, "cathedral");
    assert_eq!(app.get_total_filtered_locations(), 4);
    assert_eq!(app.selected_location, 3);
    app.handle_event(press(KeyCode::Down));
    assert_eq!(app.selected_location, 3);
    app.handle_event(press(KeyCode::Enter));
    assert_eq!(app.mode, AppMode::LocationSelection);
    app.handle_event(press(KeyCode::Down));
    assert_eq!(app.selected_location, 3);
    assert_eq!(
        app.get_selected_location(),
        Some(LocationName::NightmareGrandCathedral.get_location())
    );
}

#[test]
fn up_at_the_first_entry_stays() {
    let mut app = selecting();
    app.move_location_up();
    assert_eq!(app.selected_location, 0);
    app.handle_event(press(KeyCode::Char('k')));
    assert_eq!(app.selected_location, 0);
    app.handle_event(press(KeyCode::Char('j')));
    assert_eq!(app.selected_location, 1);
    app.handle_event(press(KeyCode::Up));
    assert_eq!(app.selected_location, 0);
}

#[test]
fn escape_after_a_search_without_matches_restores_the_catalog() {
    let mut app = selecting();
    for _ in 0..5 {
        app.handle_event(press(KeyCode::Down));
    }
    assert_eq!(app.selected_location, 5);
    app.handle_event(press(KeyCode::Char('/')));
    assert_eq!(app.mode, AppMode::LocationSearch);
    assert_eq!(app.get_total_filtered_locations(), 44);
    assert_eq!(app.selected_location, 5);
    typed(&mut app, "qzj");
    assert_eq!(app.search_query, "qzj");
    assert_eq!(app.mode, AppMode::LocationSearch);
    assert!(app.filtered_location_groups.is_empty());
    assert_eq!(app.get_total_filtered_locations(), 0);
    assert_eq!(app.selected_location, 0);
    assert_eq!(app.get_selected_location(), None);
    app.handle_event(press(KeyCode::Down));
    assert_eq!(app.selected_location, 0);
    app.handle_event(press(KeyCode::Esc));
    assert_eq!(app.mode, AppMode::LocationSelection);
    assert_eq!(app.search_query, "");
    assert_eq!(app.selected_location, 0);
    assert_eq!(flat(&app), get_all_locations());
    let regions: Vec<&str> = app.filtered_location_groups.iter().map(|g| g.region).collect();
    let expected: Vec<&str> = LocationName::by_region().iter().map(|g| g.0).collect();
    assert_eq!(regions, expected);
}

#[test]
fn an_empty_list_selects_nothing() {
    let mut app = selecting();
    app.handle_event(press(KeyCode::Char('/')));
    typed(&mut app, "zzz");
    app.handle_event(press(KeyCode::Enter));
    assert_eq!(app.mode, AppMode::LocationSelection);
    assert_eq!(app.search_query, "zzz");
    app.handle_event(press(KeyCode::Enter));
    assert_eq!(app.mode, AppMode::LocationSelection);
    assert_eq!(app.selected_destination, None);
    app.select_location();
    assert_eq!(app.mode, AppMode::LocationSelection);
}

#[test]
fn search_text_is_edited_and_filters_at_once() {
    let mut app = selecting();
    app.handle_event(press(KeyCode::Char('/')));
    typed(&mut app, "Lum");
    assert_eq!(app.search_query, "Lum");
    let names: Vec<&str> = flat(&app).iter().map(|l| l.name).collect();
    assert_eq!(names, vec!["Lumenflower Gardens", "Lumenwood Garden"]);
    let regions: Vec<&str> = app.filtered_location_groups.iter().map(|g| g.region).collect();
    assert_eq!(regions, vec!["Yharnam Headstone", "Hunter's Nightmare Headstone"]);
    typed(&mut app, "enw");
    assert_eq!(flat(&app).len(), 1);
    app.handle_event(press(KeyCode::Backspace));
    app.handle_event(press(KeyCode::Backspace));
    app.handle_event(press(KeyCode::Backspace));
    assert_eq!(app.search_query, "Lum");
    assert_eq!(flat(&app).len(), 2);
    for _ in 0..5 {
        app.handle_event(press(KeyCode::Backspace));
    }
    assert_eq!(app.search_query, "");
    assert_eq!(flat(&app).len(), 44);
    app.push_search_char('W');
    app.push_search_char('e');
    app.push_search_char('t');
    assert_eq!(flat(&app).len(), 1);
    app.pop_search_char();
    assert_eq!(app.search_query, "We");
    app.clear_search();
    assert_eq!(app.search_query, "");
    assert_eq!(app.mode, AppMode::LocationSelection);
}

#[test]
fn selection_snaps_to_the_last_entry_left() {
    let mut app = selecting();
    for _ in 0..40 {
        app.move_location_down();
    }
    app.search_query = "ward".to_string();
    app.apply_search_filter();
    assert_eq!(app.get_total_filtered_locations(), 3);
    assert_eq!(app.selected_location, 2);
    assert_eq!(
        app.get_selected_location(),
        Some(LocationName::UpperCathedralWard.get_location())
    );
    app.search_query = "".to_string();
    app.apply_search_filter();
    assert_eq!(app.selected_location, 2);
    assert_eq!(app.get_selected_location(), Some(LocationName::CentralYharnam.get_location()));
}

#[test]
fn keeping_the_filter_on_enter() {
    let mut app = selecting();
    app.handle_event(press(KeyCode::Char('/')));
    typed(&mut app, "hamlet");
    app.handle_event(press(KeyCode::Enter));
    assert_eq!(app.mode, AppMode::LocationSelection);
    assert_eq!(app.search_query, "hamlet");
    assert_eq!(flat(&app), vec![LocationName::FishingHamlet.get_location()]);
    app.handle_event(press(KeyCode::Char('/')));
    assert_eq!(app.mode, AppMode::LocationSearch);
    assert_eq!(app.search_query, "hamlet");
    assert_eq!(flat(&app).len(), 1);
}

#[test]
fn confirmation_starts_on_cancel_and_enter_follows_the_choice() {
    let mut app = selecting();
    app.handle_event(press(KeyCode::Down));
    app.handle_event(press(KeyCode::Down));
    app.handle_event(press(KeyCode::Enter));
    assert_eq!(app.mode, AppMode::Confirmation(2));
    assert_eq!(app.selected_destination, Some(LocationName::CentralYharnam.get_location()));
    assert!(!app.confirm_selection);
    assert_eq!(app.handle_event(press(KeyCode::Enter)), Request::Nothing);
    assert_eq!(app.mode, AppMode::LocationSelection);

    app.handle_event(press(KeyCode::Enter));
    assert_eq!(app.mode, AppMode::Confirmation(2));
    app.handle_event(press(KeyCode::Right));
    assert!(app.confirm_selection);
    app.handle_event(press(KeyCode::Left));
    assert!(!app.confirm_selection);
    app.handle_event(press(KeyCode::Char('l')));
    assert!(app.confirm_selection);
    app.handle_event(press(KeyCode::Esc));
    assert_eq!(app.mode, AppMode::LocationSelection);

    app.handle_event(press(KeyCode::Enter));
    assert!(!app.confirm_selection);
    app.move_confirm_right();
    assert_eq!(app.handle_event(press(KeyCode::Enter)), Request::ReadForTeleport);
    assert_eq!(app.mode, AppMode::Teleporting);
    assert_eq!(app.pending_request(), Request::ReadForTeleport);
    assert_eq!(app.handle_event(press(KeyCode::Esc)), Request::ReadForTeleport);
    assert_eq!(app.mode, AppMode::Teleporting);
}

#[test]
fn teleport_rewrites_the_buffer_and_reports() {
    let mut app = selecting();
    app.handle_event(press(KeyCode::Enter));
    app.handle_event(press(KeyCode::Right));
    app.handle_event(press(KeyCode::Enter));
    let write = app.execute_teleport(Ok(save_buffer())).expect("bytes to write");
    assert_eq!(app.mode, AppMode::Teleporting);
    let mut expected = save_buffer();
    expected[4..8].copy_from_slice(&[0x00, 0x00, 0x15, 0x00]);
    expected[52..56].copy_from_slice(&(-8.0f32).to_le_bytes());
    expected[56..60].copy_from_slice(&(-6.0f32).to_le_bytes());
    expected[60..64].copy_from_slice(&(-18.0f32).to_le_bytes());
    assert_eq!(write, expected);
    app.finish_teleport(Ok(()));
    assert_eq!(app.mode, AppMode::TeleportSuccess);
    assert_eq!(app.handle_event(press(KeyCode::Char('x'))), Request::Nothing);
    assert_eq!(app.mode, AppMode::TeleportSuccess);
    app.handle_event(press(KeyCode::Enter));
    assert_eq!(app.mode, AppMode::LocationSelection);
    assert_eq!(app.selected_destination, None);
    assert!(app.save_file_path.is_some());
}

#[test]
fn teleport_failures_are_shown() {
    let mut app = selecting();
    app.handle_event(press(KeyCode::Enter));
    app.move_confirm_right();
    app.handle_event(press(KeyCode::Enter));
    assert_eq!(app.execute_teleport(Ok(vec![1u8; 64])), None);
    assert_eq!(
        app.mode,
        AppMode::TeleportError("Could not find the LCED marker in the save file".to_string())
    );
    app.handle_event(press(KeyCode::Esc));
    assert_eq!(app.mode, AppMode::LocationSelection);

    app.handle_event(press(KeyCode::Enter));
    app.move_confirm_right();
    app.handle_event(press(KeyCode::Enter));
    assert_eq!(app.execute_teleport(Err("gone".to_string())), None);
    assert_eq!(app.mode, AppMode::TeleportError("Failed to read the save file: gone".to_string()));
    app.handle_event(press(KeyCode::Enter));
    assert_eq!(app.mode, AppMode::LocationSelection);

    app.handle_event(press(KeyCode::Enter));
    app.move_confirm_right();
    app.handle_event(press(KeyCode::Enter));
    assert!(app.execute_teleport(Ok(save_buffer())).is_some());
    app.finish_teleport(Err("disk full".to_string()));
    assert_eq!(
        app.mode,
        AppMode::TeleportError("Failed to write the save file: disk full".to_string())
    );
}

#[test]
fn teleport_on_the_cancel_side_writes_nothing() {
    let mut app = selecting();
    app.select_location();
    assert_eq!(app.execute_teleport(Ok(save_buffer())), None);
    assert_eq!(app.mode, AppMode::LocationSelection);
    let mut fresh = App::new(PathBuf::from("/"));
    fresh.confirm_selection = true;
    assert_eq!(fresh.execute_teleport(Ok(save_buffer())), None);
    assert_eq!(fresh.mode, AppMode::FileBrowser);
}

#[test]
fn quit_is_taken_on_every_screen() {
    let modes = vec![
        AppMode::FileBrowser,
        AppMode::Validating,
        AppMode::ValidationError("x".to_string()),
        AppMode::LocationSelection,
        AppMode::LocationSearch,
        AppMode::Confirmation(0),
        AppMode::Teleporting,
        AppMode::TeleportSuccess,
        AppMode::TeleportError("x".to_string()),
    ];
    for mode in modes {
        let mut app = selecting();
        app.mode = mode.clone();
        let quit = TerminalEvent::Key(KeyEvent { code: KeyCode::Char('c'), modifiers: MODIFIER_CONTROL });
        app.handle_event(quit);
        assert!(app.should_quit);
        assert_eq!(app.mode, mode);
        assert_eq!(app.search_query, "");
    }
    let mut app = selecting();
    app.handle_event(press(KeyCode::Char('q')));
    assert!(app.should_quit);
    let mut searching = selecting();
    searching.handle_event(press(KeyCode::Char('/')));
    searching.handle_event(press(KeyCode::Char('q')));
    assert!(!searching.should_quit);
    assert_eq!(searching.search_query, "q");
    let mut quitting = App::new(PathBuf::from("/"));
    quitting.quit();
    assert!(quitting.should_quit);
}

#[test]
fn going_back_forgets_the_save_file() {
    let mut app = selecting();
    app.handle_event(press(KeyCode::Char('/')));
    typed(&mut app, "old");
    app.handle_event(press(KeyCode::Enter));
    app.handle_event(press(KeyCode::Enter));
    assert!(matches!(app.mode, AppMode::Confirmation(_)));
    app.handle_event(press(KeyCode::Esc));
    app.handle_event(press(KeyCode::Esc));
    assert_eq!(app.mode, AppMode::FileBrowser);
    assert_eq!(app.save_file_path, None);
    assert_eq!(app.current_position, None);
    assert_eq!(app.selected_destination, None);
    assert_eq!(app.search_query, "");
    assert_eq!(app.selected_location, 0);
    assert_eq!(flat(&app).len(), 44);
    assert_eq!(app.file_list.len(), 1);
}

#[test]
fn handlers_by_screen() {
    let mut app = App::new(PathBuf::from("/"));
    assert_eq!(handle_file_browser_input(&mut app, Some(KeyAction::Enter)), Request::Nothing);
    assert_eq!(handle_file_browser_input(&mut app, None), Request::Nothing);
    app.mode = AppMode::ValidationError("no".to_string());
    handle_validation_error_input(&mut app, Some(KeyAction::Escape));
    assert_eq!(app.mode, AppMode::FileBrowser);
    let mut app = selecting();
    app.mode = AppMode::ValidationSuccess(app.current_position.unwrap());
    handle_validation_success_input(&mut app, Some(KeyAction::Escape));
    assert_eq!(app.mode, AppMode::FileBrowser);
    let mut app = selecting();
    handle_location_selection_input(&mut app, Some(KeyAction::Search));
    assert_eq!(app.mode, AppMode::LocationSearch);
    handle_location_search_input(&mut app, Some(KeyAction::Char('a')));
    assert_eq!(app.search_query, "a");
    handle_location_search_input(&mut app, Some(KeyAction::Escape));
    handle_location_selection_input(&mut app, Some(KeyAction::Escape));
    assert_eq!(app.mode, AppMode::FileBrowser);
    let mut app = selecting();
    app.select_location();
    handle_confirmation_input(&mut app, Some(KeyAction::Right));
    assert_eq!(handle_confirmation_input(&mut app, Some(KeyAction::Enter)), Request::ReadForTeleport);
    app.mode = AppMode::TeleportSuccess;
    handle_teleport_success_input(&mut app, Some(KeyAction::Escape));
    assert_eq!(app.mode, AppMode::FileBrowser);
    app.mode = AppMode::TeleportError("no".to_string());
    handle_teleport_error_input(&mut app, Some(KeyAction::Up));
    assert!(matches!(app.mode, AppMode::TeleportError(_)));
    handle_teleport_error_input(&mut app, Some(KeyAction::Enter));
    assert_eq!(app.mode, AppMode::LocationSelection);
}

#[test]
fn counting_through_the_groups() {
    let app = App::new(PathBuf::from("/"));
    let all = get_all_locations();
    assert_eq!(total_locations(&app.location_groups), 44);
    for i in 0..44 {
        assert_eq!(location_at(&app.location_groups, i), Some(all[i]));
    }
    assert_eq!(location_at(&app.location_groups, 44), None);
    assert_eq!(location_at(&app.location_groups, usize::MAX), None);
    let left = filter_group_list(&app.location_groups, "NIGHTMARE");
    assert_eq!(left.len(), 2);
    assert_eq!(total_locations(&left), 5);
    assert_eq!(location_at(&left, 2).unwrap().name, "Hunter's Nightmare");
    assert_eq!(total_locations(&Vec::new()), 0);
    assert_eq!(location_at(&Vec::new(), 0), None);
}
