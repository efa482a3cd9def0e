use pcli2_tui::app::App;
use pcli2_tui::clock::Moment;
use pcli2_tui::input::{KeyCode, KeyInput, MouseInput};
use pcli2_tui::model::{
    ActivePane, AppState, AssetDetails, Metadata, PcliAsset, PcliFolder, PcliMatch,
    SearchModalFocus,
};
use pcli2_tui::protocol::{Request, Response};
use pcli2_tui::screen::Overlay;

fn at(seconds: i64) -> Moment {
    Moment { epoch_millis: seconds * 1_000, stamp: "12:00:00".to_string() }
}

fn folder(path: &str) -> PcliFolder {
    let name = path.rsplit('/').next().unwrap().to_string();
    PcliFolder {
        id: format!("id-{}", name),
        name,
        path: path.to_string(),
        assets_count: 1,
        folders_count: 0,
    }
}

fn asset(path: &str) -> PcliAsset {
    let name = path.rsplit('/').next().unwrap().to_string();
    PcliAsset {
        uuid: format!("uuid-{}", name),
        name,
        path: path.to_string(),
        file_type: "model".to_string(),
        file_size: Some(10),
        processing_status: "done".to_string(),
        created_at: "then".to_string(),
        updated_at: "now".to_string(),
        metadata: Metadata { entries: Vec::new() },
        is_assembly: false,
    }
}

fn details(uuid: &str) -> AssetDetails {
    AssetDetails {
        uuid: uuid.to_string(),
        name: "part.stl".to_string(),
        path: "p1/part.stl".to_string(),
        file_type: "model".to_string(),
        file_size: None,
        processing_status: "done".to_string(),
        created_at: "then".to_string(),
        updated_at: "now".to_string(),
        is_assembly: false,
        tenant_id: "t".to_string(),
        folder_id: "f".to_string(),
        state: "ready".to_string(),
        metadata: Metadata { entries: Vec::new() },
    }
}

/// A backend with the folders p1 and p2 at the root, a/b and a/c below a,
/// and one asset in every folder.
fn respond(request: &Request) -> Response {
    match request {
        Request::ListFolders => Response::Folders(vec![
            folder("p1"),
            folder("p1/deep"),
            folder("p2"),
            folder("a"),
        ]),
        Request::ListSubfolders { path } => match path.as_str() {
            "a" => Response::Folders(vec![folder("a/b"), folder("a/c")]),
            "p1" => Response::Folders(vec![folder("p1/deep")]),
            "broken" => Response::Failed("no such folder".to_string()),
            _ => Response::Folders(Vec::new()),
        },
        Request::ListAssets { path } => match path.as_str() {
            "broken" => Response::Failed("no assets".to_string()),
            _ => Response::Assets(vec![asset(&format!("{}/part.stl", path))]),
        },
        Request::AssetDetails { uuid } => Response::Details(details(uuid)),
        Request::SearchAssets { query } => match query.as_str() {
            "fail" => Response::Failed("search broke".to_string()),
            _ => Response::Assets(vec![asset("p1/part.stl"), asset("p2/sub/gear.stl")]),
        },
        Request::GeometricMatch { .. } => Response::Matches(vec![
            PcliMatch { asset: asset("p1/part.stl"), similarity_bits: 99.5f64.to_bits() },
            PcliMatch { asset: asset("p2/gear.stl"), similarity_bits: 80.25f64.to_bits() },
            PcliMatch { asset: asset("a/b/nut.stl"), similarity_bits: 10.0f64.to_bits() },
        ]),
        Request::DownloadAsset { uuid } => match uuid.as_str() {
            "bad" => Response::Failed("disk full".to_string()),
            _ => Response::Done,
        },
        Request::UploadAsset { .. } => Response::Done,
        Request::CopyText { .. } => Response::Done,
    }
}

/// Answers every request of the browser, and returns the commands of those
/// that went to the backend.
fn drive(app: &mut App, first: Option<Request>, now: &Moment) -> Vec<String> {
    let mut calls = Vec::new();
    let mut next = first;
    while let Some(request) = next {
        calls.push(request.command());
        next = app.resume(respond(&request), now);
    }
    assert!(!app.is_waiting());
    assert!(app.tasks.is_empty());
    assert!(app.is_well_formed());
    calls
}

fn press(app: &mut App, code: KeyCode, now: &Moment) -> Vec<String> {
    let first = app.handle_key_event(KeyInput::plain(code), now);
    drive(app, first, now)
}

fn started(now: &Moment) -> App {
    let mut app = App::new();
    let first = app.start_up(now);
    drive(&mut app, first, now);
    app
}

fn names(app: &App) -> Vec<String> {
    app.folders.iter().map(|f| f.name.clone()).collect()
}

fn last_log(app: &App) -> String {
    app.log.log_entries.last().cloned().unwrap_or_default()
}

#[test]
fn a_new_browser_is_at_the_root_and_shows_nothing() {
    let app = App::new();
    assert_eq!(app.current_state, AppState::Folders);
    assert_eq!(app.active_pane, ActivePane::Folders);
    assert_eq!(app.status_message, "Ready");
    assert_eq!(app.current_folder, None);
    assert!(app.folders.is_empty());
    assert!(app.assets.is_empty());
    assert!(app.log.log_entries.is_empty());
    assert!(!app.should_quit);
    assert!(!app.modal_open());
    assert!(!app.is_waiting());
    assert!(app.is_well_formed());
}

#[test]
fn starting_up_lists_the_root_and_the_assets_of_its_first_folder() {
    let now = at(100);
    let mut app = App::new();
    let first = app.start_up(&now);
    assert!(matches!(first, Some(Request::ListFolders)));
    assert!(app.command_in_progress);
    assert_eq!(app.status_message, "Loading all folders...");
    let calls = drive(&mut app, first, &now);
    assert_eq!(
        calls,
        vec![
            "pcli2 folder list --format json".to_string(),
            "pcli2 asset list --folder-path \"p1\" --format json --metadata".to_string(),
        ]
    );
    assert_eq!(names(&app), vec!["p1", "p2", "a"]);
    assert_eq!(app.selected_folder_index, 0);
    assert_eq!(app.assets.len(), 1);
    assert_eq!(app.assets[0].name, "part.stl");
    assert_eq!(app.assets[0].folder_uuid, "p1");
    assert_eq!(app.status_message, "Loaded 1 assets for p1");
    assert!(!app.command_in_progress);
    assert!(!app.assets_loading_for_selection);
    assert_eq!(
        app.log.log_entries,
        vec![
            "[12:00:00] ✓ SUCCESS: pcli2 folder list --format json".to_string(),
            "[12:00:00] ✓ SUCCESS: pcli2 asset list --folder-path \"p1\" --format json --metadata"
                .to_string(),
        ]
    );
    assert_eq!(app.log.command_history.len(), 2);
}

#[test]
fn the_root_shows_top_level_folders_only_and_no_way_up() {
    let app = started(&at(0));
    assert!(app.folders.iter().all(|f| !f.path.contains('/')));
    assert!(app.folders.iter().all(|f| f.uuid != ".."));
    assert_eq!(app.folders[0].uuid, "id-p1");
    assert_eq!(app.folders[0].parent_uuid, None);
}

#[test]
fn selecting_p2_entering_it_and_going_back_selects_p2_at_the_root() {
    let now = at(0);
    let mut app = started(&now);
    press(&mut app, KeyCode::Down, &now);
    assert_eq!(app.selected_folder_index, 1);
    assert_eq!(app.folders[1].name, "p2");
    press(&mut app, KeyCode::Enter, &now);
    assert_eq!(app.current_folder.as_deref(), Some("p2"));
    assert_eq!(names(&app), vec![".."]);
    assert_eq!(app.selected_folder_index, 0);
    let calls = press(&mut app, KeyCode::Backspace, &now);
    assert!(calls.iter().all(|c| !c.starts_with("pcli2 folder list")));
    assert_eq!(app.current_folder, None);
    assert_eq!(names(&app), vec!["p1", "p2", "a"]);
    assert_eq!(app.selected_folder_index, 1);
    assert_eq!(app.folders[app.selected_folder_index].name, "p2");
}

#[test]
fn a_cached_listing_is_shown_again_without_a_call() {
    let mut app = started(&at(0));
    let logged = app.log.log_entries.len();
    let request = app.load_folders_for_current_context(&at(299));
    assert!(request.is_none());
    assert!(!app.is_waiting());
    assert_eq!(names(&app), vec!["p1", "p2", "a"]);
    assert_eq!(app.status_message, "Loaded 3 top-level folders from cache");
    assert_eq!(app.log.log_entries.len(), logged + 1);
    assert_eq!(last_log(&app), "[12:00:00] ✓ CACHED: pcli2 folder list --format json");
    assert_eq!(app.log.last_executed_command, "pcli2 folder list --format json");
}

#[test]
fn a_listing_older_than_300_seconds_is_fetched_once_and_cached_anew() {
    let mut app = started(&at(0));
    let late = at(300);
    let request = app.load_folders_for_current_context(&late);
    assert!(matches!(request, Some(Request::ListFolders)));
    let calls = drive(&mut app, request, &late);
    assert_eq!(calls, vec!["pcli2 folder list --format json".to_string()]);
    assert_eq!(last_log(&app), "[12:00:00] ✓ SUCCESS: pcli2 folder list --format json");
    assert_eq!(app.folder_cache.get("", 300_000).map(|e| e.folders_timestamp), Some(300_000));
    let again = app.load_folders_for_current_context(&at(599));
    assert!(again.is_none());
    assert_eq!(last_log(&app), "[12:00:00] ✓ CACHED: pcli2 folder list --format json");
}

#[test]
fn hovering_over_a_folder_lists_its_assets_once_while_they_are_fresh() {
    let now = at(0);
    let mut app = started(&now);
    let calls = press(&mut app, KeyCode::Down, &now);
    assert_eq!(
        calls,
        vec!["pcli2 asset list --folder-path \"p2\" --format json --metadata".to_string()]
    );
    assert_eq!(app.assets[0].folder_uuid, "p2");
    let calls = press(&mut app, KeyCode::Up, &at(10));
    assert!(calls.is_empty());
    assert_eq!(app.assets[0].folder_uuid, "p1");
    assert_eq!(app.status_message, "Loaded 1 assets from cache for p1");
    assert_eq!(
        last_log(&app),
        "[12:00:00] ✓ CACHED: pcli2 asset list --folder-path \"p1\" --format json --metadata"
    );
    let calls = press(&mut app, KeyCode::Down, &at(400));
    assert_eq!(calls.len(), 1);
}

#[test]
fn entering_a_folder_never_uses_its_cache_entry() {
    let now = at(0);
    let mut app = started(&now);
    let first = app.enter_folder("a".to_string(), &now);
    drive(&mut app, first, &now);
    assert!(app.folder_cache.get("a", 0).is_some());
    let logged = app.log.log_entries.len();
    let again = app.enter_folder("a".to_string(), &at(1));
    match &again {
        Some(Request::ListSubfolders { path }) => assert_eq!(path, "a"),
        other => panic!("expected a listing request, got {:?}", other),
    }
    assert!(!app.folder_cache.contains("a"));
    assert_eq!(app.log.log_entries.len(), logged);
    assert_eq!(app.status_message, "Loading subfolders for a...");
    let calls = drive(&mut app, again, &at(1));
    assert_eq!(
        calls,
        vec![
            "pcli2 folder list --folder-path \"a\" --format json".to_string(),
            "pcli2 asset list --folder-path \"a\" --format json --metadata".to_string(),
        ]
    );
    assert!(app.log.log_entries.iter().all(|e| !e.contains("CACHED")));
    assert!(app.folder_cache.get("", 1_000).is_some());
}

#[test]
fn entering_a_folder_puts_the_way_up_first_and_the_cursor_after_it() {
    let now = at(0);
    let mut app = started(&now);
    let first = app.enter_folder("a".to_string(), &now);
    drive(&mut app, first, &now);
    assert_eq!(names(&app), vec!["..", "b", "c"]);
    assert_eq!(app.folders[0].uuid, "..");
    assert_eq!(app.folders[0].path, "");
    assert_eq!(app.folders[0].folders_count, 0);
    assert_eq!(app.selected_folder_index, 1);
    assert_eq!(app.selected_asset_index, 0);
    assert_eq!(app.last_entered_folder_path.as_deref(), Some("a"));
    assert_eq!(app.assets[0].path, "a/part.stl");
    assert_eq!(app.status_message, "Loaded 1 assets");
}

#[test]
fn the_way_up_from_a_nested_folder_leads_to_its_parent() {
    let now = at(0);
    let mut app = started(&now);
    let first = app.enter_folder("a/b".to_string(), &now);
    drive(&mut app, first, &now);
    assert_eq!(names(&app), vec![".."]);
    assert_eq!(app.folders[0].path, "a");
    assert_eq!(app.selected_folder_index, 0);
    assert_eq!(app.last_entered_folder_path.as_deref(), Some("b"));
}

#[test]
fn going_back_from_a_nested_folder_selects_it_by_name() {
    let now = at(0);
    let mut app = started(&now);
    let first = app.enter_folder("a/b".to_string(), &now);
    drive(&mut app, first, &now);
    let back = app.go_back_to_parent_folder(&now);
    drive(&mut app, back, &now);
    assert_eq!(app.current_folder.as_deref(), Some("a"));
    assert_eq!(names(&app), vec!["..", "b", "c"]);
    assert_eq!(app.selected_folder_index, 1);
    assert_eq!(app.folders[app.selected_folder_index].name, "b");
    let first = app.enter_folder("a/c".to_string(), &now);
    drive(&mut app, first, &now);
    let back = app.go_back_to_parent_folder(&now);
    drive(&mut app, back, &now);
    assert_eq!(app.selected_folder_index, 2);
}

#[test]
fn going_back_selects_by_id_where_no_folder_has_the_name() {
    let now = at(0);
    let mut app = started(&now);
    let first = app.enter_folder("a/id-c".to_string(), &now);
    drive(&mut app, first, &now);
    let back = app.go_back_to_parent_folder(&now);
    drive(&mut app, back, &now);
    assert_eq!(names(&app), vec!["..", "b", "c"]);
    assert_eq!(app.selected_folder_index, 2);
    assert_eq!(app.folders[2].uuid, "id-c");
}

#[test]
fn going_back_selects_the_start_where_the_folder_is_gone() {
    let now = at(0);
    let mut app = started(&now);
    let first = app.enter_folder("a/gone".to_string(), &now);
    drive(&mut app, first, &now);
    let back = app.go_back_to_parent_folder(&now);
    drive(&mut app, back, &now);
    assert_eq!(app.selected_folder_index, 1);
    let first = app.enter_folder("zzz".to_string(), &now);
    drive(&mut app, first, &now);
    let back = app.go_back_to_parent_folder(&now);
    drive(&mut app, back, &now);
    assert_eq!(app.current_folder, None);
    assert_eq!(app.selected_folder_index, 0);
}

#[test]
fn going_back_at_the_root_only_says_so() {
    let now = at(0);
    let mut app = started(&now);
    let logged = app.log.log_entries.len();
    let back = app.go_back_to_parent_folder(&now);
    assert!(back.is_none());
    assert_eq!(app.status_message, "Already at root folder");
    assert_eq!(app.current_folder, None);
    assert_eq!(app.log.log_entries.len(), logged);
    assert_eq!(names(&app), vec!["p1", "p2", "a"]);
}

#[test]
fn enter_on_the_way_up_goes_to_the_parent_and_lists_its_assets() {
    let now = at(0);
    let mut app = started(&now);
    let first = app.enter_folder("a/b".to_string(), &now);
    drive(&mut app, first, &now);
    assert_eq!(app.folders[app.selected_folder_index].uuid, "..");
    let calls = press(&mut app, KeyCode::Enter, &now);
    assert_eq!(app.current_folder.as_deref(), Some("a"));
    assert_eq!(app.folders[app.selected_folder_index].name, "b");
    assert_eq!(
        calls,
        vec![
            "pcli2 folder list --folder-path \"a\" --format json".to_string(),
            "pcli2 asset list --folder-path \"a\" --format json --metadata".to_string(),
        ]
    );
    assert_eq!(app.assets[0].path, "a/part.stl");
}

#[test]
fn a_failed_listing_keeps_what_was_shown_and_is_not_cached() {
    let now = at(0);
    let mut app = started(&now);
    let before = names(&app);
    let first = app.enter_folder("broken".to_string(), &now);
    let calls = drive(&mut app, first, &now);
    assert_eq!(calls.len(), 2);
    assert_eq!(names(&app), before);
    assert!(app.assets.is_empty());
    assert!(!app.folder_cache.contains("broken"));
    assert_eq!(app.status_message, "Error loading assets: no assets");
    let n = app.log.log_entries.len();
    assert_eq!(
        app.log.log_entries[n - 2],
        "[12:00:00] ✗ ERROR: pcli2 folder list --folder-path \"broken\" --format json - no such folder"
    );
    assert_eq!(
        app.log.log_entries[n - 1],
        "[12:00:00] ✗ ERROR: pcli2 asset list --folder-path \"broken\" --format json --metadata - no assets"
    );
    assert!(!app.command_in_progress);
}

#[test]
fn a_response_of_the_wrong_kind_counts_as_a_failure() {
    let now = at(0);
    let mut app = App::new();
    let first = app.load_folders_for_current_context(&now);
    assert!(first.is_some());
    let next = app.resume(Response::Done, &now);
    assert!(next.is_none());
    assert_eq!(app.status_message, "Error loading folders: unexpected response");
    assert_eq!(
        last_log(&app),
        "[12:00:00] ✗ ERROR: pcli2 folder list --format json - unexpected response"
    );
    assert!(app.folders.is_empty());
}

#[test]
fn a_response_that_nothing_waits_for_changes_nothing() {
    let now = at(0);
    let mut app = started(&now);
    let status = app.status_message.clone();
    let logged = app.log.log_entries.len();
    let next = app.resume(Response::Folders(vec![folder("x")]), &now);
    assert!(next.is_none());
    assert_eq!(app.status_message, status);
    assert_eq!(app.log.log_entries.len(), logged);
    assert_eq!(names(&app), vec!["p1", "p2", "a"]);
}

#[test]
fn selections_stay_on_their_lists_when_the_lists_shrink() {
    let now = at(0);
    let mut app = started(&now);
    app.selected_folder_index = 2;
    app.selected_asset_index = 0;
    let first = app.enter_folder("p1".to_string(), &now);
    drive(&mut app, first, &now);
    assert_eq!(names(&app), vec!["..", "deep"]);
    assert!(app.selected_folder_index < app.folders.len());
    let first = app.enter_folder("p2".to_string(), &now);
    drive(&mut app, first, &now);
    assert_eq!(names(&app), vec![".."]);
    assert_eq!(app.selected_folder_index, 0);
    assert_eq!(app.selected_asset_index, 0);
}

#[test]
fn moving_the_selection_stops_at_both_ends() {
    let now = at(0);
    let mut app = started(&now);
    press(&mut app, KeyCode::Up, &now);
    assert_eq!(app.selected_folder_index, 0);
    for _ in 0..10 {
        press(&mut app, KeyCode::Char('j'), &now);
    }
    assert_eq!(app.selected_folder_index, 2);
    press(&mut app, KeyCode::Char('k'), &now);
    assert_eq!(app.selected_folder_index, 1);
    for _ in 0..10 {
        let first = app.handle_mouse_event(MouseInput::ScrollUp, &now);
        drive(&mut app, first, &now);
    }
    assert_eq!(app.selected_folder_index, 0);
    let first = app.handle_mouse_event(MouseInput::ScrollDown, &now);
    drive(&mut app, first, &now);
    assert_eq!(app.selected_folder_index, 1);
    let first = app.handle_mouse_event(MouseInput::Other, &now);
    assert!(first.is_none());
    assert_eq!(app.selected_folder_index, 1);
}

#[test]
fn the_way_up_has_no_assets() {
    let now = at(0);
    let mut app = started(&now);
    let first = app.enter_folder("a".to_string(), &now);
    drive(&mut app, first, &now);
    assert_eq!(app.assets.len(), 1);
    let calls = press(&mut app, KeyCode::Up, &now);
    assert!(calls.is_empty());
    assert_eq!(app.selected_folder_index, 0);
    assert!(app.assets.is_empty());
    assert_eq!(app.selected_asset_index, 0);
}

#[test]
fn tab_goes_round_the_panes_and_shift_tab_goes_back() {
    let now = at(0);
    let mut app = started(&now);
    press(&mut app, KeyCode::Tab, &now);
    assert_eq!(app.active_pane, ActivePane::Assets);
    press(&mut app, KeyCode::Tab, &now);
    assert_eq!(app.active_pane, ActivePane::Log);
    press(&mut app, KeyCode::Tab, &now);
    assert_eq!(app.active_pane, ActivePane::Folders);
    press(&mut app, KeyCode::BackTab, &now);
    assert_eq!(app.active_pane, ActivePane::Log);
    let shift_tab = KeyInput { code: KeyCode::Tab, shift: true, control: false, alt: false };
    let first = app.handle_key_event(shift_tab, &now);
    drive(&mut app, first, &now);
    assert_eq!(app.active_pane, ActivePane::Assets);
    let alt_tab = KeyInput { code: KeyCode::Tab, shift: false, control: false, alt: true };
    let first = app.handle_key_event(alt_tab, &now);
    drive(&mut app, first, &now);
    assert_eq!(app.active_pane, ActivePane::Assets);
}

#[test]
fn the_keys_of_the_active_pane_move_only_its_selection() {
    let now = at(0);
    let mut app = started(&now);
    let first = app.enter_folder("a".to_string(), &now);
    drive(&mut app, first, &now);
    press(&mut app, KeyCode::Tab, &now);
    let calls = press(&mut app, KeyCode::Down, &now);
    assert!(calls.is_empty());
    assert_eq!(app.selected_folder_index, 1);
    assert_eq!(app.selected_asset_index, 0);
    press(&mut app, KeyCode::Tab, &now);
    let scroll = app.log.log_scroll_position;
    press(&mut app, KeyCode::Up, &now);
    assert_eq!(app.log.log_scroll_position, scroll - 1);
    assert_eq!(app.selected_folder_index, 1);
}

#[test]
fn global_keys_open_help_history_log_and_resize() {
    let now = at(0);
    let mut app = started(&now);
    press(&mut app, KeyCode::Char('h'), &now);
    assert_eq!(app.current_state, AppState::Help);
    press(&mut app, KeyCode::Esc, &now);
    assert_eq!(app.current_state, AppState::Folders);
    press(&mut app, KeyCode::Char('c'), &now);
    assert_eq!(app.current_state, AppState::CommandHistory);
    press(&mut app, KeyCode::Char('x'), &now);
    assert_eq!(app.current_state, AppState::CommandHistory);
    press(&mut app, KeyCode::Char('l'), &now);
    assert_eq!(app.current_state, AppState::Log);
    let ctrl_n = KeyInput { code: KeyCode::Char('n'), shift: false, control: true, alt: false };
    let first = app.handle_key_event(ctrl_n, &now);
    drive(&mut app, first, &now);
    assert_eq!(app.current_state, AppState::PaneResize);
    assert!(app.resize_mode_active);
    assert_eq!(
        app.status_message,
        "Resize mode: Use arrow keys to resize, Enter to confirm, Esc to cancel"
    );
}

#[test]
fn resizing_gathers_deltas_and_keeps_them_on_enter() {
    let now = at(0);
    let mut app = started(&now);
    let ctrl_n = KeyInput { code: KeyCode::Char('n'), shift: false, control: true, alt: false };
    app.handle_key_event(ctrl_n, &now);
    press(&mut app, KeyCode::Up, &now);
    assert_eq!(app.status_message, "Resize: Adjusting vertically (-1)");
    press(&mut app, KeyCode::Up, &now);
    press(&mut app, KeyCode::Down, &now);
    press(&mut app, KeyCode::Right, &now);
    press(&mut app, KeyCode::Right, &now);
    assert_eq!(app.status_message, "Resize: Adjusting horizontally (2)");
    press(&mut app, KeyCode::Left, &now);
    assert_eq!((app.resize_delta_x, app.resize_delta_y), (1, -1));
    press(&mut app, KeyCode::Enter, &now);
    assert_eq!(app.status_message, "Resize applied: dx=1, dy=-1");
    assert_eq!((app.resize_delta_x, app.resize_delta_y), (1, -1));
    assert_eq!(app.current_state, AppState::Folders);
    assert!(!app.resize_mode_active);
}

#[test]
fn cancelling_a_resize_sets_the_deltas_back_to_zero() {
    let now = at(0);
    let mut app = started(&now);
    let ctrl_n = KeyInput { code: KeyCode::Char('n'), shift: false, control: true, alt: false };
    app.handle_key_event(ctrl_n, &now);
    press(&mut app, KeyCode::Down, &now);
    press(&mut app, KeyCode::Left, &now);
    press(&mut app, KeyCode::Esc, &now);
    assert_eq!((app.resize_delta_x, app.resize_delta_y), (0, 0));
    assert_eq!(app.status_message, "Resize cancelled");
    assert_eq!(app.current_state, AppState::Folders);
    assert!(!app.resize_mode_active);
}

#[test]
fn resize_deltas_stop_at_the_ends_of_their_type() {
    let now = at(0);
    let mut app = started(&now);
    app.current_state = AppState::PaneResize;
    app.resize_delta_x = i32::MAX;
    app.resize_delta_y = i32::MIN;
    press(&mut app, KeyCode::Right, &now);
    press(&mut app, KeyCode::Up, &now);
    assert_eq!((app.resize_delta_x, app.resize_delta_y), (i32::MAX, i32::MIN));
    assert_eq!(app.status_message, "Resize: Adjusting vertically (-2147483648)");
}

#[test]
fn the_search_modal_takes_every_key() {
    let now = at(0);
    let mut app = started(&now);
    press(&mut app, KeyCode::Char('/'), &now);
    assert!(app.show_search_modal);
    assert!(app.modal_open());
    for c in ['h', 'l', 'c', 'j', '/', 'q'] {
        press(&mut app, KeyCode::Char(c), &now);
    }
    assert_eq!(app.search_input_buffer, "hlcj/q");
    assert_eq!(app.current_state, AppState::Folders);
    assert_eq!(app.selected_folder_index, 0);
    press(&mut app, KeyCode::Backspace, &now);
    assert_eq!(app.search_input_buffer, "hlcj/");
    assert_eq!(app.current_folder, None);
    let first = app.handle_mouse_event(MouseInput::ScrollDown, &now);
    assert!(first.is_none());
    assert_eq!(app.selected_folder_index, 0);
    press(&mut app, KeyCode::Esc, &now);
    assert!(!app.show_search_modal);
    assert_eq!(app.search_input_buffer, "");
    assert_eq!(app.search_modal_focus, SearchModalFocus::Input);
}

#[test]
fn erasing_an_empty_search_input_does_nothing() {
    let now = at(0);
    let mut app = started(&now);
    press(&mut app, KeyCode::Char('/'), &now);
    press(&mut app, KeyCode::Backspace, &now);
    assert_eq!(app.search_input_buffer, "");
    press(&mut app, KeyCode::Char('\n'), &now);
    assert_eq!(app.search_input_buffer, "");
    press(&mut app, KeyCode::Char('a'), &now);
    press(&mut app, KeyCode::Backspace, &now);
    press(&mut app, KeyCode::Backspace, &now);
    assert_eq!(app.search_input_buffer, "");
}

#[test]
fn opening_the_search_modal_empties_its_input() {
    let now = at(0);
    let mut app = started(&now);
    app.search_input_buffer = "old".to_string();
    press(&mut app, KeyCode::Char('/'), &now);
    assert_eq!(app.search_input_buffer, "");
}

#[test]
fn a_search_shows_what_was_found_and_moves_the_focus_to_it() {
    let now = at(0);
    let mut app = started(&now);
    press(&mut app, KeyCode::Char('/'), &now);
    for c in "gear".chars() {
        press(&mut app, KeyCode::Char(c), &now);
    }
    let calls = press(&mut app, KeyCode::Enter, &now);
    assert_eq!(
        calls,
        vec!["pcli2 asset text-match --text \"gear\" --format json --metadata".to_string()]
    );
    assert_eq!(app.search_query, "gear");
    assert_eq!(app.search_results.len(), 2);
    assert_eq!(app.search_results[0].folder_uuid, "p1");
    assert_eq!(app.search_results[1].folder_uuid, "p2");
    assert_eq!(app.search_results[1].name, "gear.stl");
    assert_eq!(app.search_modal_focus, SearchModalFocus::Results);
    assert_eq!(app.status_message, "Found 2 assets");
    assert_eq!(
        last_log(&app),
        "[12:00:00] ✓ SUCCESS: pcli2 asset text-match --text \"gear\" --format json --metadata"
    );
    assert_eq!(app.assets.len(), 1);
}

#[test]
fn a_blank_search_asks_nothing_and_keeps_the_results() {
    let now = at(0);
    let mut app = started(&now);
    press(&mut app, KeyCode::Char('/'), &now);
    press(&mut app, KeyCode::Char('x'), &now);
    press(&mut app, KeyCode::Enter, &now);
    assert_eq!(app.search_results.len(), 2);
    press(&mut app, KeyCode::Enter, &now);
    assert_eq!(app.search_modal_focus, SearchModalFocus::Input);
    press(&mut app, KeyCode::Backspace, &now);
    for query in ["", " ", " \t "] {
        app.search_input_buffer = query.to_string();
        let logged = app.log.log_entries.len();
        let history = app.log.command_history.len();
        let calls = press(&mut app, KeyCode::Enter, &now);
        assert!(calls.is_empty());
        assert_eq!(app.status_message, "Empty search query");
        assert_eq!(app.search_results.len(), 2);
        assert_eq!(app.search_results[1].name, "gear.stl");
        assert_eq!(app.log.log_entries.len(), logged);
        assert_eq!(app.log.command_history.len(), history);
        assert_eq!(app.search_modal_focus, SearchModalFocus::Input);
    }
}

#[test]
fn a_failed_search_keeps_the_focus_on_the_input() {
    let now = at(0);
    let mut app = started(&now);
    press(&mut app, KeyCode::Char('/'), &now);
    app.search_input_buffer = "fail".to_string();
    press(&mut app, KeyCode::Enter, &now);
    assert_eq!(app.status_message, "Search failed: search broke");
    assert_eq!(app.search_modal_focus, SearchModalFocus::Input);
    assert!(app.search_results.is_empty());
    assert_eq!(
        last_log(&app),
        "[12:00:00] ✗ ERROR: pcli2 asset text-match --text \"fail\" --format json --metadata - search broke"
    );
}

#[test]
fn the_search_results_have_a_selection_of_their_own() {
    let now = at(0);
    let mut app = started(&now);
    press(&mut app, KeyCode::Char('/'), &now);
    press(&mut app, KeyCode::Char('x'), &now);
    press(&mut app, KeyCode::Enter, &now);
    press(&mut app, KeyCode::Down, &now);
    press(&mut app, KeyCode::Down, &now);
    assert_eq!(app.selected_search_result_index, 1);
    assert_eq!(app.selected_asset_index, 0);
    assert_eq!(app.selected_folder_index, 0);
    press(&mut app, KeyCode::Up, &now);
    press(&mut app, KeyCode::Up, &now);
    assert_eq!(app.selected_search_result_index, 0);
    press(&mut app, KeyCode::Tab, &now);
    assert_eq!(app.search_modal_focus, SearchModalFocus::Input);
    press(&mut app, KeyCode::Down, &now);
    assert_eq!(app.selected_search_result_index, 0);
    press(&mut app, KeyCode::BackTab, &now);
    assert_eq!(app.search_modal_focus, SearchModalFocus::Results);
}

#[test]
fn d_downloads_the_selected_search_result() {
    let now = at(0);
    let mut app = started(&now);
    press(&mut app, KeyCode::Char('/'), &now);
    press(&mut app, KeyCode::Char('x'), &now);
    press(&mut app, KeyCode::Enter, &now);
    press(&mut app, KeyCode::Down, &now);
    let calls = press(&mut app, KeyCode::Char('d'), &now);
    assert_eq!(calls, vec!["pcli2 asset download --uuid \"uuid-gear.stl\"".to_string()]);
    assert_eq!(app.status_message, "Successfully downloaded: gear.stl");
    assert_eq!(app.search_input_buffer, "x");
    assert_eq!(
        last_log(&app),
        "[12:00:00] ✓ SUCCESS: pcli2 asset download --uuid \"uuid-gear.stl\""
    );
}

#[test]
fn a_failed_download_is_reported_and_logged() {
    let now = at(0);
    let mut app = started(&now);
    let first = app.download_asset_by_uuid("bad", "thing", &now);
    assert_eq!(app.status_message, "Downloading asset: thing...");
    drive(&mut app, first, &now);
    assert_eq!(app.status_message, "Download failed: disk full");
    assert_eq!(
        last_log(&app),
        "[12:00:00] ✗ ERROR: pcli2 asset download --uuid \"bad\" - disk full"
    );
}

#[test]
fn g_matches_the_selected_asset_when_the_assets_pane_is_active() {
    let now = at(0);
    let mut app = started(&now);
    let calls = press(&mut app, KeyCode::Char('g'), &now);
    assert!(calls.is_empty());
    assert!(!app.show_geometric_match_modal);
    press(&mut app, KeyCode::Tab, &now);
    let calls = press(&mut app, KeyCode::Char('g'), &now);
    assert_eq!(
        calls,
        vec![
            "pcli2 asset geometric-match --uuid \"uuid-part.stl\" --format json --metadata"
                .to_string()
        ]
    );
    assert!(app.show_geometric_match_modal);
    assert_eq!(app.geometric_match_results.len(), 3);
    assert_eq!(app.geometric_match_results[0].similarity_bits, 99.5f64.to_bits());
    assert_eq!(app.geometric_match_results[2].asset.folder_uuid, "a");
    assert_eq!(app.status_message, "Geometric match performed on: part.stl");
}

#[test]
fn the_match_cursor_stays_on_a_row_and_panning_has_no_end() {
    let now = at(0);
    let mut app = started(&now);
    press(&mut app, KeyCode::Tab, &now);
    press(&mut app, KeyCode::Char('g'), &now);
    press(&mut app, KeyCode::Up, &now);
    assert_eq!(app.geometric_match_scroll_position, 0);
    for _ in 0..10 {
        press(&mut app, KeyCode::Down, &now);
        assert!(app.geometric_match_scroll_position <= 2);
    }
    assert_eq!(app.geometric_match_scroll_position, 2);
    press(&mut app, KeyCode::Up, &now);
    assert_eq!(app.geometric_match_scroll_position, 1);
    press(&mut app, KeyCode::Left, &now);
    assert_eq!(app.geometric_match_horizontal_scroll, 0);
    for _ in 0..500 {
        press(&mut app, KeyCode::Right, &now);
    }
    assert_eq!(app.geometric_match_horizontal_scroll, 500);
    press(&mut app, KeyCode::Left, &now);
    assert_eq!(app.geometric_match_horizontal_scroll, 499);
    assert_eq!(app.selected_folder_index, 0);
    assert_eq!(app.selected_asset_index, 0);
    press(&mut app, KeyCode::Char('h'), &now);
    assert_eq!(app.current_state, AppState::Folders);
    press(&mut app, KeyCode::Char('q'), &now);
    assert!(!app.show_geometric_match_modal);
}

#[test]
fn the_match_cursor_is_put_back_on_a_row_when_the_rows_get_fewer() {
    let now = at(0);
    let mut app = started(&now);
    app.geometric_match_scroll_position = 7;
    let first = app.perform_geometric_match("u", &now);
    assert_eq!(app.status_message, "Performing geometric match on asset: u");
    drive(&mut app, first, &now);
    assert_eq!(app.geometric_match_scroll_position, 2);
    assert_eq!(app.status_message, "Found 3 geometric matches");
    assert!(!app.show_geometric_match_modal);
}

#[test]
fn enter_on_an_asset_opens_its_details() {
    let now = at(0);
    let mut app = started(&now);
    press(&mut app, KeyCode::Tab, &now);
    let calls = press(&mut app, KeyCode::Enter, &now);
    assert_eq!(
        calls,
        vec!["pcli2 asset get --uuid \"uuid-part.stl\" --format json --metadata".to_string()]
    );
    assert!(app.show_asset_details_modal);
    assert_eq!(app.selected_asset_details.as_ref().map(|d| d.uuid.as_str()), Some("uuid-part.stl"));
    assert_eq!(app.status_message, "Loaded details for part.stl");
    for code in [KeyCode::Char('h'), KeyCode::Down, KeyCode::Tab, KeyCode::Enter] {
        let calls = press(&mut app, code, &now);
        assert!(calls.is_empty());
    }
    assert!(app.show_asset_details_modal);
    assert_eq!(app.current_state, AppState::Folders);
    assert_eq!(app.active_pane, ActivePane::Assets);
    press(&mut app, KeyCode::Esc, &now);
    assert!(!app.show_asset_details_modal);
    assert_eq!(app.current_folder, None);
}

#[test]
fn details_of_nothing_ask_nothing() {
    let now = at(0);
    let mut app = App::new();
    assert!(app.show_asset_details(&now).is_none());
    assert!(!app.show_asset_details_modal);
    assert!(app.log.command_history.is_empty());
}

#[test]
fn the_assets_view_is_reached_below_the_root_only() {
    let now = at(0);
    let mut app = started(&now);
    press(&mut app, KeyCode::Char('a'), &now);
    assert_eq!(app.current_state, AppState::Folders);
    let first = app.enter_folder("a".to_string(), &now);
    drive(&mut app, first, &now);
    let calls = press(&mut app, KeyCode::Char('a'), &now);
    assert!(calls.is_empty());
    assert_eq!(app.status_message, "Loaded 1 assets from cache");
    assert_eq!(app.current_state, AppState::Assets);
    press(&mut app, KeyCode::Char('q'), &now);
    let calls = press(&mut app, KeyCode::Char('a'), &at(300));
    assert_eq!(
        calls,
        vec!["pcli2 asset list --folder-path \"a\" --format json --metadata".to_string()]
    );
    assert_eq!(app.current_state, AppState::Assets);
    let calls = press(&mut app, KeyCode::Char('d'), &now);
    assert_eq!(calls, vec!["pcli2 asset download --uuid \"uuid-part.stl\"".to_string()]);
    assert_eq!(app.current_state, AppState::Assets);
    press(&mut app, KeyCode::Char('q'), &now);
    assert_eq!(app.current_state, AppState::Folders);
}

#[test]
fn d_and_u_in_the_folders_view_switch_to_the_transfer_modes() {
    let now = at(0);
    let mut app = started(&now);
    press(&mut app, KeyCode::Char('d'), &now);
    assert_eq!(app.current_state, AppState::Downloading);
    assert_eq!(app.status_message, "Download mode activated. Press 'q' to return.");
    press(&mut app, KeyCode::Esc, &now);
    assert_eq!(app.current_state, AppState::Folders);
    assert_eq!(app.status_message, "Download mode exited");
    press(&mut app, KeyCode::Char('u'), &now);
    assert_eq!(app.current_state, AppState::Uploading);
    assert_eq!(app.status_message, "Upload mode activated. Press 'q' to return.");
    press(&mut app, KeyCode::Char('u'), &now);
    assert_eq!(app.current_state, AppState::Uploading);
    press(&mut app, KeyCode::Char('q'), &now);
    assert_eq!(app.current_state, AppState::Folders);
    assert_eq!(app.status_message, "Upload mode exited");
}

#[test]
fn an_upload_needs_a_folder_and_lists_its_assets_afterwards() {
    let now = at(0);
    let mut app = started(&now);
    assert!(app.upload_asset_to_current_folder("/tmp/x.stl", &now).is_none());
    assert_eq!(app.status_message, "No folder selected for upload");
    let first = app.enter_folder("a".to_string(), &now);
    drive(&mut app, first, &now);
    let first = app.upload_asset_to_current_folder("/tmp/x.stl", &now);
    assert_eq!(app.status_message, "Uploading asset: /tmp/x.stl...");
    let calls = drive(&mut app, first, &now);
    assert_eq!(
        calls,
        vec![
            "pcli2 asset create --file \"/tmp/x.stl\" --folder \"a\"".to_string(),
            "pcli2 asset list --folder-path \"a\" --format json --metadata".to_string(),
        ]
    );
    assert_eq!(app.status_message, "Loaded 1 assets");
}

#[test]
fn the_log_view_scrolls_and_copies() {
    let now = at(0);
    let mut app = started(&now);
    let failed = app.download_asset_by_uuid("bad", "thing", &now);
    drive(&mut app, failed, &now);
    press(&mut app, KeyCode::Char('l'), &now);
    assert_eq!(app.log.log_scroll_position, 2);
    press(&mut app, KeyCode::Right, &now);
    press(&mut app, KeyCode::Right, &now);
    press(&mut app, KeyCode::Left, &now);
    assert_eq!(app.log.log_horizontal_scroll, 1);
    let request = app.handle_key_event(KeyInput::plain(KeyCode::Char('C')), &now);
    match &request {
        Some(Request::CopyText { text }) => {
            assert_eq!(text, "pcli2 asset download --uuid \"bad\"")
        }
        other => panic!("expected a copy, got {:?}", other),
    }
    let logged = app.log.log_entries.len();
    assert!(app.resume(Response::Done, &now).is_none());
    assert_eq!(app.status_message, "Command copied to clipboard");
    assert_eq!(app.log.log_entries.len(), logged);
    press(&mut app, KeyCode::Up, &now);
    press(&mut app, KeyCode::Up, &now);
    press(&mut app, KeyCode::Up, &now);
    assert_eq!(app.log.log_scroll_position, 0);
    let request = app.copy_selected_log_entry_to_clipboard(&now);
    match &request {
        Some(Request::CopyText { text }) => {
            assert_eq!(text, "[12:00:00] ✓ SUCCESS: pcli2 folder list --format json")
        }
        other => panic!("expected a copy, got {:?}", other),
    }
    assert!(app.resume(Response::Failed("locked".to_string()), &now).is_none());
    assert_eq!(app.status_message, "Failed to copy to clipboard: locked");
    let request = app.copy_command_from_selected_log_entry_to_clipboard(&now);
    assert!(request.is_some());
    app.resume(Response::Unavailable, &now);
    assert_eq!(app.status_message, "Clipboard not available");
    let request = app.copy_command_from_selected_log_entry_to_clipboard(&now);
    assert!(request.is_some());
    app.resume(Response::Failed("locked".to_string()), &now);
    assert_eq!(app.status_message, "Failed to copy command to clipboard: locked");
    let request = app.copy_selected_log_entry_to_clipboard(&now);
    assert!(request.is_some());
    app.resume(Response::Done, &now);
    assert_eq!(app.status_message, "Log entry copied to clipboard");
    press(&mut app, KeyCode::Esc, &now);
    assert_eq!(app.current_state, AppState::Folders);
}

#[test]
fn copying_from_an_empty_log_asks_nothing() {
    let now = at(0);
    let mut app = App::new();
    assert!(app.copy_selected_log_entry_to_clipboard(&now).is_none());
    assert!(app.copy_command_from_selected_log_entry_to_clipboard(&now).is_none());
    assert_eq!(app.status_message, "Ready");
}

#[test]
fn q_ends_the_program_unless_a_modal_takes_it() {
    let now = at(0);
    let mut app = started(&now);
    let q = KeyInput::plain(KeyCode::Char('q'));
    assert!(app.quits(q));
    assert!(!app.quits(KeyInput::plain(KeyCode::Esc)));
    assert!(!app.quits(KeyInput::plain(KeyCode::Char('Q'))));
    press(&mut app, KeyCode::Char('/'), &now);
    assert!(!app.quits(q));
    press(&mut app, KeyCode::Esc, &now);
    assert!(app.quits(q));
    app.show_asset_details_modal = true;
    assert!(!app.quits(q));
    app.show_asset_details_modal = false;
    app.show_geometric_match_modal = true;
    assert!(!app.quits(q));
}

#[test]
fn the_match_modal_comes_before_the_other_modals() {
    let now = at(0);
    let mut app = started(&now);
    app.show_geometric_match_modal = true;
    app.show_asset_details_modal = true;
    app.show_search_modal = true;
    press(&mut app, KeyCode::Esc, &now);
    assert!(!app.show_geometric_match_modal);
    assert!(app.show_asset_details_modal);
    assert!(app.show_search_modal);
    press(&mut app, KeyCode::Esc, &now);
    assert!(!app.show_asset_details_modal);
    assert!(app.show_search_modal);
    press(&mut app, KeyCode::Esc, &now);
    assert!(!app.modal_open());
}

#[test]
fn every_call_of_the_backend_is_logged_once() {
    let now = at(0);
    let mut app = App::new();
    let mut calls = 0;
    let first = app.start_up(&now);
    calls += drive(&mut app, first, &now).len();
    for code in [KeyCode::Down, KeyCode::Enter, KeyCode::Backspace, KeyCode::Down, KeyCode::Enter] {
        calls += press(&mut app, code, &now).len();
    }
    let failed = app.download_asset_by_uuid("bad", "thing", &now);
    calls += drive(&mut app, failed, &now).len();
    let backend_lines = app
        .log
        .log_entries
        .iter()
        .filter(|e| e.contains("SUCCESS") || e.contains("ERROR"))
        .count();
    assert_eq!(backend_lines, calls);
    assert_eq!(app.log.command_history.len(), app.log.log_entries.len());
}

#[test]
fn a_damaged_selection_is_told_from_a_sound_one() {
    let now = at(0);
    let mut app = started(&now);
    assert!(app.is_well_formed());
    app.selected_folder_index = 3;
    assert!(!app.is_well_formed());
    app.clamp_selections();
    assert_eq!(app.selected_folder_index, 2);
    assert!(app.is_well_formed());
    app.selected_search_result_index = 1;
    assert!(!app.is_well_formed());
}

#[test]
fn the_assets_of_the_current_folder_come_from_the_cache_while_fresh() {
    let now = at(0);
    let mut app = started(&now);
    assert!(app.load_assets_for_current_folder(&now).is_none());
    assert_eq!(app.status_message, "No folder selected");
    let first = app.enter_folder("a".to_string(), &now);
    drive(&mut app, first, &now);
    let logged = app.log.log_entries.len();
    app.assets.clear();
    let again = app.load_assets_for_current_folder(&at(299));
    assert!(again.is_none());
    assert!(app.is_at_rest());
    assert_eq!(app.assets.len(), 1);
    assert_eq!(app.assets[0].path, "a/part.stl");
    assert_eq!(app.status_message, "Loaded 1 assets from cache");
    assert_eq!(app.log.log_entries.len(), logged + 1);
    assert_eq!(
        last_log(&app),
        "[12:00:00] ✓ CACHED: pcli2 asset list --folder-path \"a\" --format json --metadata"
    );
    assert_eq!(app.folder_cache.get("a", 299_000).map(|e| e.assets_timestamp), Some(0));
}

#[test]
fn the_assets_of_the_current_folder_are_fetched_once_they_are_stale() {
    let now = at(0);
    let mut app = started(&now);
    let first = app.enter_folder("a".to_string(), &now);
    drive(&mut app, first, &now);
    let late = at(300);
    let again = app.load_assets_for_current_folder(&late);
    assert_eq!(app.status_message, "Loading assets...");
    assert!(app.command_in_progress);
    assert!(!app.is_at_rest());
    let calls = drive(&mut app, again, &late);
    assert_eq!(
        calls,
        vec!["pcli2 asset list --folder-path \"a\" --format json --metadata".to_string()]
    );
    assert_eq!(
        last_log(&app),
        "[12:00:00] ✓ SUCCESS: pcli2 asset list --folder-path \"a\" --format json --metadata"
    );
    let entry = app.folder_cache.get("a", 300_000).unwrap();
    assert_eq!(entry.assets_timestamp, 300_000);
    assert_eq!(entry.assets.as_ref().map(|a| a.len()), Some(1));
    assert!(entry.folders.is_none());
}

#[test]
fn entering_a_folder_caches_both_of_its_listings() {
    let now = at(0);
    let mut app = started(&now);
    let first = app.enter_folder("a".to_string(), &now);
    drive(&mut app, first, &at(7));
    let entry = app.folder_cache.get("a", 7_000).unwrap();
    assert_eq!(entry.folders.as_ref().map(|f| f.len()), Some(3));
    assert_eq!(entry.assets.as_ref().map(|a| a.len()), Some(1));
    assert_eq!(entry.assets.as_ref().unwrap()[0].path, "a/part.stl");
    assert_eq!(entry.folders.as_ref().unwrap()[1].path, "a/b");
}

#[test]
fn going_back_to_a_parent_that_is_cached_costs_no_call() {
    let now = at(0);
    let mut app = started(&now);
    let first = app.enter_folder("a".to_string(), &now);
    drive(&mut app, first, &now);
    let first = app.enter_folder("a/b".to_string(), &at(1));
    drive(&mut app, first, &at(1));
    let logged = app.log.log_entries.len();
    let back = app.go_back_to_parent_folder(&at(2));
    assert!(back.is_none());
    assert!(app.is_at_rest());
    assert_eq!(app.current_folder.as_deref(), Some("a"));
    assert_eq!(names(&app), vec!["..", "b", "c"]);
    assert_eq!(app.assets[0].path, "a/part.stl");
    assert_eq!(app.selected_folder_index, 1);
    assert_eq!(app.log.log_entries.len(), logged + 2);
    assert!(app.log.log_entries[logged].contains("✓ CACHED: pcli2 folder list"));
    assert!(app.log.log_entries[logged + 1].contains("✓ CACHED: pcli2 asset list"));
}

#[test]
fn a_cache_entry_never_holds_the_listing_of_another_folder() {
    let now = at(0);
    let mut app = started(&now);
    let first = app.enter_folder("a".to_string(), &now);
    drive(&mut app, first, &now);
    // Hovering over a/b caches its assets while the listing of a is shown.
    assert_eq!(app.folders[app.selected_folder_index].path, "a/b");
    let calls = press(&mut app, KeyCode::Down, &now);
    assert_eq!(calls.len(), 1);
    let calls = press(&mut app, KeyCode::Up, &now);
    assert_eq!(calls.len(), 1);
    let hovered = app.folder_cache.get("a/b", 0).unwrap();
    assert!(hovered.folders.is_none());
    assert_eq!(hovered.assets.as_ref().unwrap()[0].path, "a/b/part.stl");
    // Going down two levels and back shows what was listed for each folder.
    let first = app.enter_folder("a/b".to_string(), &now);
    drive(&mut app, first, &now);
    let first = app.enter_folder("a/b/x".to_string(), &now);
    drive(&mut app, first, &now);
    let back = app.go_back_to_parent_folder(&now);
    drive(&mut app, back, &now);
    assert_eq!(app.current_folder.as_deref(), Some("a/b"));
    assert_eq!(names(&app), vec![".."]);
    assert_eq!(app.folders[0].path, "a");
    assert_eq!(app.assets[0].path, "a/b/part.stl");
    let back = app.go_back_to_parent_folder(&now);
    drive(&mut app, back, &now);
    assert_eq!(names(&app), vec!["..", "b", "c"]);
    assert_eq!(app.assets[0].path, "a/part.stl");
}

#[test]
fn listing_folders_alone_caches_the_folders_alone() {
    let now = at(0);
    let mut app = started(&now);
    app.current_folder = Some("a".to_string());
    let first = app.load_folders_for_current_context(&at(400));
    let calls = drive(&mut app, first, &at(400));
    assert_eq!(calls, vec!["pcli2 folder list --folder-path \"a\" --format json".to_string()]);
    let entry = app.folder_cache.get("a", 400_000).unwrap();
    assert_eq!(entry.folders_timestamp, 400_000);
    assert_eq!(entry.folders.as_ref().map(|f| f.len()), Some(3));
    assert!(entry.assets.is_none());
    assert_eq!(names(&app), vec!["..", "b", "c"]);
    assert_eq!(app.assets[0].path, "p1/part.stl");
    let again = app.load_assets_for_current_folder(&at(401));
    assert!(again.is_some());
    drive(&mut app, again, &at(401));
    let entry = app.folder_cache.get("a", 401_000).unwrap();
    assert_eq!(entry.folders_timestamp, 400_000);
    assert_eq!(entry.assets_timestamp, 401_000);
    assert!(entry.folders.is_some() && entry.assets.is_some());
}

#[test]
fn folders_that_came_late_are_not_fetched_again_while_they_are_fresh() {
    let now = at(0);
    let mut app = started(&now);
    // Hovering caches the assets of p2 at 0; its folders come at 250 s.
    press(&mut app, KeyCode::Down, &now);
    assert!(app.folder_cache.assets("p2", 0).is_some());
    app.current_folder = Some("p2".to_string());
    let first = app.load_folders_for_current_context(&at(250));
    let calls = drive(&mut app, first, &at(250));
    assert_eq!(calls.len(), 1);
    let again = app.load_folders_for_current_context(&at(310));
    assert!(again.is_none());
    assert!(last_log(&app).contains("✓ CACHED: pcli2 folder list --folder-path \"p2\""));
    let again = app.load_folders_for_current_context(&at(549));
    assert!(again.is_none());
    let late = app.load_folders_for_current_context(&at(550));
    assert!(late.is_some());
    drive(&mut app, late, &at(550));
    // The assets, captured at 0, are stale at 310 s whatever came after.
    let assets = app.load_assets_for_current_folder(&at(551));
    assert!(assets.is_some());
    drive(&mut app, assets, &at(551));
}

#[test]
fn a_blank_search_leaves_no_call_marked_as_in_progress() {
    let now = at(0);
    let mut app = started(&now);
    assert!(!app.command_in_progress);
    app.search_query = "  ".to_string();
    assert!(app.perform_search(&now).is_none());
    assert!(!app.command_in_progress);
    assert!(app.is_at_rest());
    app.command_in_progress = true;
    assert!(!app.is_at_rest());
}

#[test]
fn the_overlay_is_the_modal_that_takes_the_keys() {
    let now = at(0);
    let mut app = started(&now);
    assert_eq!(app.overlay(), None);
    press(&mut app, KeyCode::Char('h'), &now);
    assert_eq!(app.overlay(), Some(Overlay::Help));
    app.show_search_modal = true;
    assert_eq!(app.overlay(), Some(Overlay::Search));
    app.show_asset_details_modal = true;
    assert_eq!(app.overlay(), Some(Overlay::AssetDetails));
    app.show_geometric_match_modal = true;
    assert_eq!(app.overlay(), Some(Overlay::GeometricMatch));
    press(&mut app, KeyCode::Esc, &now);
    assert_eq!(app.overlay(), Some(Overlay::AssetDetails));
}

#[test]
fn the_arguments_of_a_request_are_what_its_command_shows() {
    let requests = vec![
        Request::ListFolders,
        Request::ListSubfolders { path: "a/b c".to_string() },
        Request::ListAssets { path: "a".to_string() },
        Request::AssetDetails { uuid: "u-1".to_string() },
        Request::SearchAssets { query: "two words".to_string() },
        Request::GeometricMatch { uuid: "u-2".to_string() },
        Request::DownloadAsset { uuid: "u-3".to_string() },
        Request::UploadAsset { file_path: "/tmp/x.stl".to_string(), folder: "a".to_string() },
    ];
    for request in &requests {
        let arguments = request.arguments().unwrap();
        let mut shown = String::from("pcli2");
        for argument in &arguments {
            shown.push(' ');
            if argument.is_value {
                shown.push_str(&format!("\"{}\"", argument.text));
            } else {
                shown.push_str(&argument.text);
            }
        }
        assert_eq!(shown, request.command());
    }
    let texts: Vec<String> = Request::ListAssets { path: "a b".to_string() }
        .arguments()
        .unwrap()
        .into_iter()
        .map(|a| a.text)
        .collect();
    assert_eq!(
        texts,
        vec!["asset", "list", "--folder-path", "a b", "--format", "json", "--metadata"]
    );
    assert!(Request::CopyText { text: "x".to_string() }.arguments().is_none());
    assert_eq!(Request::CopyText { text: "x".to_string() }.command(), "");
}

#[test]
fn the_browser_is_at_rest_between_its_operations() {
    let now = at(0);
    let mut app = App::new();
    assert!(app.is_at_rest());
    let first = app.start_up(&now);
    assert!(first.is_some());
    assert!(!app.is_at_rest());
    assert!(app.is_waiting());
    let next = app.resume(respond(first.as_ref().unwrap()), &now);
    assert!(next.is_some());
    assert!(!app.is_at_rest());
    let last = app.resume(respond(next.as_ref().unwrap()), &now);
    assert!(last.is_none());
    assert!(app.is_at_rest());
    assert!(app.handle_key_event(KeyInput::plain(KeyCode::Char('x')), &now).is_none());
    assert!(app.is_at_rest());
}

#[test]
fn the_assets_of_the_selected_folder_come_from_the_cache_while_fresh() {
    let now = at(0);
    let mut app = started(&now);
    let request = app.load_assets_for_selected_folder(&at(5));
    assert!(request.is_none());
    assert_eq!(app.status_message, "Loaded 1 assets from cache for p1");
    let request = app.load_assets_for_selected_folder(&at(300));
    assert_eq!(app.status_message, "Loading assets for p1...");
    assert!(app.assets_loading_for_selection);
    match &request {
        Some(Request::ListAssets { path }) => assert_eq!(path, "p1"),
        other => panic!("expected a listing request, got {:?}", other),
    }
    let next = app.resume(Response::Failed("timeout".to_string()), &at(300));
    assert!(next.is_none());
    assert!(!app.assets_loading_for_selection);
    assert_eq!(app.status_message, "Error loading assets for p1: timeout");
    assert_eq!(app.assets.len(), 1);
    let mut empty = App::new();
    assert!(empty.load_assets_for_selected_folder(&now).is_none());
    assert_eq!(empty.status_message, "Ready");
}
