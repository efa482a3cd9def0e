//! What holds of the browser whatever it is asked to do.

use crate::cache::{fresh_assets, fresh_folders, with_assets, with_folders};
use crate::clock::{is_fresh, MomentView};
use crate::input::{in_range, KeyCode, KeyInput, MouseInput};
use crate::listing::{asset_listing, root_listing, subfolder_listing};
use crate::log::{cached_text, CommandLogView};
use crate::model::{AppState, FolderView, PcliAssetView, PcliFolderView};
use crate::protocol::{RequestView, ResponseView};
use crate::state::{
    default_index, is_first_named, is_first_with_id, position_by_id, position_by_name, reselected,
    AppView, AwaitingView, TaskView,
};
use crate::text::{is_blank, leaf_name};
use vstd::prelude::*;

verus! {

/// Appending a line to a log leaves a well-formed log with the cursor on
/// the new line.
pub proof fn law_logging_moves_the_cursor(log: CommandLogView, entry: Seq<char>)
    ensures
        log.with_entry(entry).wf(),
        log.with_entry(entry).entries.last() == entry,
        log.with_entry(entry).scroll_position == log.with_entry(entry).entries.len() - 1,
{
}

proof fn lemma_begin_load_folders_keeps_wf(s: AppView, now: MomentView)
    requires
        s.wf(),
    ensures
        s.begin_load_folders(now).0.wf(),
{
    reveal(AppView::begin_load_folders);
}

proof fn lemma_begin_load_assets_keeps_wf(s: AppView, now: MomentView)
    requires
        s.wf(),
    ensures
        s.begin_load_assets(now).0.wf(),
{
    reveal(AppView::begin_load_assets);
}

proof fn lemma_begin_prefetch_keeps_wf(s: AppView, now: MomentView)
    requires
        s.wf(),
    ensures
        s.begin_prefetch(now).0.wf(),
{
    reveal(AppView::begin_prefetch);
}

proof fn lemma_begin_search_keeps_wf(s: AppView)
    requires
        s.wf(),
    ensures
        s.begin_search().0.wf(),
{
    reveal(AppView::begin_search);
}

proof fn lemma_begin_match_keeps_wf(s: AppView, uuid: Seq<char>)
    requires
        s.wf(),
    ensures
        s.begin_match(uuid).0.wf(),
{
    reveal(AppView::begin_match);
}

proof fn lemma_begin_details_keeps_wf(s: AppView)
    requires
        s.wf(),
    ensures
        s.begin_details().0.wf(),
{
    reveal(AppView::begin_details);
}

proof fn lemma_begin_download_keeps_wf(s: AppView, uuid: Seq<char>, name: Seq<char>)
    requires
        s.wf(),
    ensures
        s.begin_download(uuid, name).0.wf(),
{
    reveal(AppView::begin_download);
}

proof fn lemma_begin_upload_keeps_wf(s: AppView, file_path: Seq<char>)
    requires
        s.wf(),
    ensures
        s.begin_upload(file_path).0.wf(),
{
    reveal(AppView::begin_upload);
}

proof fn lemma_begin_copy_keeps_wf(s: AppView, command_only: bool)
    requires
        s.wf(),
    ensures
        s.begin_copy(command_only).0.wf(),
{
    reveal(AppView::begin_copy);
}

/// No step of work moves a selection off its list.
pub proof fn law_steps_keep_selections_in_range(s: AppView, task: TaskView, now: MomentView)
    requires
        s.wf(),
    ensures
        s.begin(task, now).0.wf(),
{
    match task {
        TaskView::LoadFolders => lemma_begin_load_folders_keeps_wf(s, now),
        TaskView::LoadAssets => lemma_begin_load_assets_keeps_wf(s, now),
        TaskView::Prefetch => lemma_begin_prefetch_keeps_wf(s, now),
        TaskView::PrefetchIfMoved(_) => lemma_begin_prefetch_keeps_wf(s, now),
        TaskView::Reselect(came_from) => lemma_reselected_in_range(s.folders, came_from),
        TaskView::Search => lemma_begin_search_keeps_wf(s),
        TaskView::Match(uuid) => lemma_begin_match_keeps_wf(s, uuid),
        TaskView::Details => lemma_begin_details_keeps_wf(s),
        TaskView::Download { uuid, name } => lemma_begin_download_keeps_wf(s, uuid, name),
        TaskView::Upload(file_path) => lemma_begin_upload_keeps_wf(s, file_path),
        TaskView::Copy(command_only) => lemma_begin_copy_keeps_wf(s, command_only),
        _ => {},
    }
}

/// Coming back selects an entry of the listing.
pub proof fn lemma_reselected_in_range(folders: Seq<FolderView>, came_from: Seq<char>)
    ensures
        in_range(reselected(folders, came_from), folders.len()),
{
    match position_by_name(folders, came_from) {
        Some(i) => {
            assert(is_first_named(folders, came_from, i));
        },
        None => match position_by_id(folders, came_from) {
            Some(i) => {
                assert(is_first_with_id(folders, came_from, i));
            },
            None => {},
        },
    }
}

proof fn lemma_complete_folders_keeps_wf(
    s: AppView,
    path: Option<Seq<char>>,
    response: ResponseView,
    now: MomentView,
)
    requires
        s.wf(),
    ensures
        s.complete_folders(path, response, now).wf(),
{
    reveal(AppView::complete_folders);
}

proof fn lemma_complete_current_assets_keeps_wf(
    s: AppView,
    path: Seq<char>,
    response: ResponseView,
    now: MomentView,
)
    requires
        s.wf(),
    ensures
        s.complete_current_assets(path, response, now).wf(),
{
    reveal(AppView::complete_current_assets);
}

proof fn lemma_complete_selected_assets_keeps_wf(
    s: AppView,
    path: Seq<char>,
    name: Seq<char>,
    response: ResponseView,
    now: MomentView,
)
    requires
        s.wf(),
    ensures
        s.complete_selected_assets(path, name, response, now).wf(),
{
    reveal(AppView::complete_selected_assets);
}

proof fn lemma_complete_search_keeps_wf(s: AppView, response: ResponseView, now: MomentView)
    requires
        s.wf(),
    ensures
        s.complete_search(response, now).wf(),
{
    reveal(AppView::complete_search);
}

proof fn lemma_complete_match_keeps_wf(s: AppView, response: ResponseView, now: MomentView)
    requires
        s.wf(),
    ensures
        s.complete_match(response, now).wf(),
{
    reveal(AppView::complete_match);
}

proof fn lemma_complete_details_keeps_wf(
    s: AppView,
    name: Seq<char>,
    response: ResponseView,
    now: MomentView,
)
    requires
        s.wf(),
    ensures
        s.complete_details(name, response, now).wf(),
{
    reveal(AppView::complete_details);
}

proof fn lemma_complete_download_keeps_wf(
    s: AppView,
    name: Seq<char>,
    response: ResponseView,
    now: MomentView,
)
    requires
        s.wf(),
    ensures
        s.complete_download(name, response, now).wf(),
{
    reveal(AppView::complete_download);
}

proof fn lemma_complete_upload_keeps_wf(
    s: AppView,
    file_path: Seq<char>,
    response: ResponseView,
    now: MomentView,
)
    requires
        s.wf(),
    ensures
        s.complete_upload(file_path, response, now).wf(),
{
    reveal(AppView::complete_upload);
}

/// No response moves a selection off its list, whatever lists it brings.
pub proof fn law_responses_keep_selections_in_range(
    s: AppView,
    awaiting: AwaitingView,
    response: ResponseView,
    now: MomentView,
)
    requires
        s.wf(),
    ensures
        s.complete(awaiting, response, now).wf(),
{
    match awaiting {
        AwaitingView::Folders(path) => lemma_complete_folders_keeps_wf(s, path, response, now),
        AwaitingView::CurrentAssets(path) => lemma_complete_current_assets_keeps_wf(
            s,
            path,
            response,
            now,
        ),
        AwaitingView::SelectedAssets { path, name } => lemma_complete_selected_assets_keeps_wf(
            s,
            path,
            name,
            response,
            now,
        ),
        AwaitingView::Details(name) => lemma_complete_details_keeps_wf(s, name, response, now),
        AwaitingView::Search => lemma_complete_search_keeps_wf(s, response, now),
        AwaitingView::Matches => lemma_complete_match_keeps_wf(s, response, now),
        AwaitingView::Download(name) => lemma_complete_download_keeps_wf(s, name, response, now),
        AwaitingView::Upload(file_path) => lemma_complete_upload_keeps_wf(
            s,
            file_path,
            response,
            now,
        ),
        AwaitingView::Copy(command_only) => {
            reveal(AppView::complete_copy);
        },
    }
}

/// Doing the planned work moves no selection off its list.
pub proof fn law_work_keeps_selections_in_range(s: AppView, now: MomentView)
    requires
        s.wf(),
    ensures
        s.run(now).0.wf(),
    decreases s.tasks.len(),
{
    if s.awaiting.is_some() || s.tasks.len() == 0 {
    } else {
        let rest = s.tasks.drop_first();
        law_steps_keep_selections_in_range(s.with_tasks(rest), s.tasks[0], now);
        let (next, request) = s.with_tasks(rest).begin(s.tasks[0], now);
        let next = next.with_tasks(rest);
        if request.is_none() {
            law_work_keeps_selections_in_range(next, now);
        }
    }
}

proof fn lemma_going_back_keeps_wf(s: AppView)
    requires
        s.wf(),
    ensures
        s.went_back().wf(),
{
    reveal(AppView::went_back);
}

proof fn lemma_opening_keeps_wf(s: AppView)
    requires
        s.wf(),
    ensures
        s.opened().wf(),
{
    reveal(AppView::opened);
    reveal(AppView::entered);
    lemma_going_back_keeps_wf(s);
}

proof fn lemma_choosing_keeps_wf(s: AppView)
    requires
        s.wf(),
    ensures
        s.matching_selected().wf(),
        s.downloading_selected().wf(),
        s.downloading_found().wf(),
        s.moved_down().wf(),
        s.moved_up().wf(),
        s.switched_to_assets().wf(),
{
    reveal(AppView::matching_selected);
    reveal(AppView::downloading_selected);
    reveal(AppView::downloading_found);
}

proof fn lemma_browse_choice_keeps_wf(s: AppView, key: KeyInput)
    requires
        s.wf(),
    ensures
        s.browse_choice(key).wf(),
{
    reveal(AppView::browse_choice);
    lemma_going_back_keeps_wf(s);
    lemma_choosing_keeps_wf(s);
}

proof fn lemma_browsing_keeps_wf(s: AppView, key: KeyInput)
    requires
        s.wf(),
    ensures
        s.after_browse_key(key).wf(),
{
    lemma_browse_choice_keeps_wf(s, key);
    lemma_opening_keeps_wf(s);
}

proof fn lemma_searching_keeps_wf(s: AppView, key: KeyInput)
    requires
        s.wf(),
    ensures
        s.after_search_key(key).wf(),
{
    reveal(AppView::after_search_key);
    lemma_choosing_keeps_wf(s);
}

proof fn lemma_view_keys_keep_wf(s: AppView, key: KeyInput)
    requires
        s.wf(),
    ensures
        s.after_view_key(key).wf(),
{
    reveal(AppView::after_view_key);
    reveal(AppView::after_resize_key);
    reveal(AppView::after_log_key);
    lemma_browsing_keeps_wf(s, key);
    lemma_searching_keeps_wf(s, key);
}

/// No key press moves a selection off its list.
pub proof fn law_keys_keep_selections_in_range(s: AppView, key: KeyInput, now: MomentView)
    requires
        s.wf(),
    ensures
        s.after_key(key).wf(),
        s.handle_key(key, now).0.wf(),
{
    assert(s.after_key(key).wf()) by {
        reveal(AppView::after_match_key);
        reveal(AppView::after_global_key);
        lemma_searching_keeps_wf(s, key);
        lemma_view_keys_keep_wf(s, key);
    }
    law_work_keeps_selections_in_range(s.after_key(key), now);
}

/// No mouse event moves a selection off its list.
pub proof fn law_mouse_keeps_selections_in_range(s: AppView, mouse: MouseInput, now: MomentView)
    requires
        s.wf(),
    ensures
        s.handle_mouse(mouse, now).0.wf(),
{
    law_work_keeps_selections_in_range(s.after_mouse(mouse), now);
}

/// Taking in a response and going on with the work moves no selection off
/// its list.
pub proof fn law_resuming_keeps_selections_in_range(
    s: AppView,
    response: ResponseView,
    now: MomentView,
)
    requires
        s.wf(),
    ensures
        s.resume(response, now).0.wf(),
{
    match s.awaiting {
        Some(awaiting) => {
            let idle = AppView { awaiting: None, ..s };
            law_responses_keep_selections_in_range(idle, awaiting, response, now);
            law_work_keeps_selections_in_range(idle.complete(awaiting, response, now), now);
        },
        None => {},
    }
}

/// An operation asked for by name moves no selection off its list.
pub proof fn law_operations_keep_selections_in_range(s: AppView, task: TaskView, now: MomentView)
    requires
        s.wf(),
    ensures
        s.perform(task, now).0.wf(),
        s.start_up(now).0.wf(),
        s.go_back_to_parent_folder(now).0.wf(),
        s.switch_to_assets_view(now).0.wf(),
{
    lemma_going_back_keeps_wf(s);
    law_work_keeps_selections_in_range(s.planning(seq![task]), now);
    law_work_keeps_selections_in_range(
        s.planning(seq![TaskView::LoadFolders, TaskView::ResetSelection, TaskView::Prefetch]),
        now,
    );
    law_work_keeps_selections_in_range(s.went_back(), now);
    law_work_keeps_selections_in_range(s.switched_to_assets(), now);
}

/// Entering a folder moves no selection off its list.
pub proof fn law_entering_keeps_selections_in_range(s: AppView, path: Seq<char>, now: MomentView)
    requires
        s.wf(),
    ensures
        s.enter_folder(path, now).0.wf(),
{
    reveal(AppView::entered);
    law_work_keeps_selections_in_range(s.entered(path), now);
}

/// While the cache holds the folders of the current directory fresh, they
/// are listed without a call of the backend: the cached folders are shown
/// (and below the root the assets that are held fresh with them), the one
/// log line that is appended says CACHED with the command that was not
/// executed, the cursor stands on it, and the cache stays as it is.
pub proof fn law_fresh_folders_are_reused(s: AppView, now: MomentView)
    requires
        fresh_folders(s.cache, s.cache_key(), now.epoch_millis).is_some(),
    ensures
        ({
            let (next, request) = s.begin_load_folders(now);
            let key = s.cache_key();
            let line = cached_text(now.stamp, s.folders_request().command());
            &&& request.is_none()
            &&& next.awaiting == s.awaiting
            &&& next.folders == fresh_folders(s.cache, key, now.epoch_millis).unwrap()
            &&& s.current_folder.is_some() && fresh_assets(s.cache, key, now.epoch_millis).is_some()
                ==> next.assets == fresh_assets(s.cache, key, now.epoch_millis).unwrap()
            &&& next.cache == s.cache
            &&& next.log.entries == crate::log::capped(s.log.entries.push(line))
            &&& next.log.entries.last() == line
            &&& next.log.scroll_position == next.log.entries.len() - 1
        }),
{
    reveal(AppView::begin_load_folders);
}

/// Where the cache holds no fresh folders of the current directory, listing
/// them sends out one request and writes no log line yet. Once the records
/// have come, the listing is shown and the cache holds it under the path of
/// the directory, with the time of the coming; what the cache holds of the
/// assets of that path stays as it is. So the listing is fresh for the five
/// minutes after its coming, and for no longer.
pub proof fn law_stale_folders_are_fetched(
    s: AppView,
    now: MomentView,
    records: Seq<PcliFolderView>,
    later: MomentView,
    after: i64,
)
    requires
        fresh_folders(s.cache, s.cache_key(), now.epoch_millis).is_none(),
    ensures
        ({
            let (next, request) = s.begin_load_folders(now);
            let done = next.complete(
                next.awaiting.unwrap(),
                ResponseView::Folders(records),
                later,
            );
            let key = s.cache_key();
            let listing = match s.current_folder {
                Some(path) => subfolder_listing(path, records),
                None => root_listing(records),
            };
            &&& request == Some(s.folders_request())
            &&& next.awaiting == Some(AwaitingView::Folders(s.current_folder))
            &&& next.log.entries == s.log.entries
            &&& next.cache == s.cache
            &&& done.awaiting.is_none()
            &&& done.folders == listing
            &&& done.cache == with_folders(s.cache, key, listing, later.epoch_millis)
            &&& done.cache[key].folders == Some(listing)
            &&& done.cache[key].folders_timestamp == later.epoch_millis
            &&& fresh_assets(done.cache, key, after) == fresh_assets(s.cache, key, after)
            &&& fresh_folders(done.cache, key, after) == if is_fresh(later.epoch_millis, after) {
                Some(listing)
            } else {
                None
            }
            &&& done.log.entries.last() == crate::log::success_text(
                later.stamp,
                s.folders_request().command(),
            )
        }),
{
    reveal(AppView::begin_load_folders);
    reveal(AppView::complete_folders);
}

/// While the cache holds the assets of the current directory fresh, they
/// are listed without a call of the backend: the cached assets are shown,
/// the one log line that is appended says CACHED, and the cache stays as it
/// is.
pub proof fn law_fresh_current_assets_are_reused(s: AppView, path: Seq<char>, now: MomentView)
    requires
        s.current_folder == Some(path),
        fresh_assets(s.cache, path, now.epoch_millis).is_some(),
    ensures
        ({
            let (next, request) = s.begin_load_assets(now);
            let line = cached_text(now.stamp, RequestView::ListAssets { path }.command());
            &&& request.is_none()
            &&& next.awaiting == s.awaiting
            &&& next.assets == fresh_assets(s.cache, path, now.epoch_millis).unwrap()
            &&& next.folders == s.folders
            &&& next.cache == s.cache
            &&& next.log.entries == crate::log::capped(s.log.entries.push(line))
            &&& next.log.entries.last() == line
        }),
{
    reveal(AppView::begin_load_assets);
}

/// Where the cache holds no fresh assets of the current directory, listing
/// them sends out one request; once the records have come, they are shown
/// and the cache holds them under the path of the directory, with the time
/// of the coming; what the cache holds of the folders of that path stays as
/// it is. So the assets are fresh for the five minutes after their coming,
/// and for no longer.
pub proof fn law_stale_current_assets_are_fetched(
    s: AppView,
    path: Seq<char>,
    now: MomentView,
    records: Seq<PcliAssetView>,
    later: MomentView,
    after: i64,
)
    requires
        s.current_folder == Some(path),
        fresh_assets(s.cache, path, now.epoch_millis).is_none(),
    ensures
        ({
            let (next, request) = s.begin_load_assets(now);
            let done = next.complete(next.awaiting.unwrap(), ResponseView::Assets(records), later);
            let listing = asset_listing(records, path);
            &&& request == Some(RequestView::ListAssets { path })
            &&& next.log.entries == s.log.entries
            &&& next.cache == s.cache
            &&& done.awaiting.is_none()
            &&& done.assets == listing
            &&& done.cache == with_assets(s.cache, path, listing, later.epoch_millis)
            &&& done.cache[path].assets == Some(listing)
            &&& done.cache[path].assets_timestamp == later.epoch_millis
            &&& fresh_folders(done.cache, path, after) == fresh_folders(s.cache, path, after)
            &&& fresh_assets(done.cache, path, after) == if is_fresh(later.epoch_millis, after) {
                Some(listing)
            } else {
                None
            }
        }),
{
    reveal(AppView::begin_load_assets);
    reveal(AppView::complete_current_assets);
}

/// While the cache holds the assets of the selected folder fresh, they are
/// listed without a call of the backend: they are shown, the folders and
/// the cache stay as they are, and the one log line that is appended says
/// CACHED.
pub proof fn law_fresh_assets_are_reused(s: AppView, now: MomentView)
    requires
        s.selected_folder_index < s.folders.len(),
        !s.folders[s.selected_folder_index as int].is_sentinel(),
        fresh_assets(
            s.cache,
            s.folders[s.selected_folder_index as int].path,
            now.epoch_millis,
        ).is_some(),
    ensures
        ({
            let (next, request) = s.begin_prefetch(now);
            let path = s.folders[s.selected_folder_index as int].path;
            let line = cached_text(now.stamp, RequestView::ListAssets { path }.command());
            &&& request.is_none()
            &&& next.awaiting == s.awaiting
            &&& next.assets == fresh_assets(s.cache, path, now.epoch_millis).unwrap()
            &&& next.folders == s.folders
            &&& next.cache == s.cache
            &&& next.log.entries == crate::log::capped(s.log.entries.push(line))
            &&& next.log.entries.last() == line
        }),
{
    reveal(AppView::begin_prefetch);
}

/// Where the cache holds no fresh assets of the selected folder, listing
/// them sends out one request; once the records have come, the cache holds
/// them under the path of that folder, with the time of the coming, and
/// what it holds of the folders of that path stays as it is.
pub proof fn law_stale_assets_are_fetched(
    s: AppView,
    now: MomentView,
    records: Seq<PcliAssetView>,
    later: MomentView,
    after: i64,
)
    requires
        s.selected_folder_index < s.folders.len(),
        !s.folders[s.selected_folder_index as int].is_sentinel(),
        fresh_assets(
            s.cache,
            s.folders[s.selected_folder_index as int].path,
            now.epoch_millis,
        ).is_none(),
    ensures
        ({
            let (next, request) = s.begin_prefetch(now);
            let path = s.folders[s.selected_folder_index as int].path;
            let done = next.complete(next.awaiting.unwrap(), ResponseView::Assets(records), later);
            let listing = asset_listing(records, path);
            &&& request == Some(RequestView::ListAssets { path })
            &&& next.log.entries == s.log.entries
            &&& next.cache == s.cache
            &&& done.awaiting.is_none()
            &&& done.assets == listing
            &&& done.folders == s.folders
            &&& done.cache == with_assets(s.cache, path, listing, later.epoch_millis)
            &&& done.cache[path].assets == Some(listing)
            &&& done.cache[path].assets_timestamp == later.epoch_millis
            &&& fresh_folders(done.cache, path, after) == fresh_folders(s.cache, path, after)
            &&& fresh_assets(done.cache, path, after) == if is_fresh(later.epoch_millis, after) {
                Some(listing)
            } else {
                None
            }
        }),
{
    reveal(AppView::begin_prefetch);
    reveal(AppView::complete_selected_assets);
}

/// A cache entry holds only what was listed for its own path. A response
/// writes at most the entry of the path that was asked for, and leaves
/// every other entry as it is; what is shown never finds its way into the
/// entry of another path. (An upload writes no entry: it drops the one of
/// the directory that it changed.)
pub proof fn law_responses_write_their_own_entry(
    s: AppView,
    awaiting: AwaitingView,
    response: ResponseView,
    now: MomentView,
    other: Seq<char>,
)
    requires
        !(awaiting is Upload),
        other != (match awaiting {
            AwaitingView::Folders(Some(path)) => path,
            AwaitingView::CurrentAssets(path) => path,
            AwaitingView::SelectedAssets { path, name } => path,
            _ => Seq::empty(),
        }),
    ensures
        s.complete(awaiting, response, now).cache.contains_key(other) == s.cache.contains_key(
            other,
        ),
        s.cache.contains_key(other) ==> s.complete(awaiting, response, now).cache[other]
            == s.cache[other],
{
    reveal(AppView::complete_folders);
    reveal(AppView::complete_current_assets);
    reveal(AppView::complete_selected_assets);
    reveal(AppView::complete_search);
    reveal(AppView::complete_match);
    reveal(AppView::complete_details);
    reveal(AppView::complete_download);
    reveal(AppView::complete_upload);
    reveal(AppView::complete_copy);
}

/// Coming back from the folder `came_from` selects the first folder of
/// that name; where none has the name, the first folder with that id;
/// where none has either, the start of the listing.
pub proof fn law_coming_back_reselects(folders: Seq<FolderView>, came_from: Seq<char>)
    requires
        folders.len() <= usize::MAX,
    ensures
        ({
            let chosen = reselected(folders, came_from) as int;
            let named = exists|i: int| 0 <= i < folders.len() && folders[i].name == came_from;
            let known = exists|i: int| 0 <= i < folders.len() && folders[i].uuid == came_from;
            &&& named ==> is_first_named(folders, came_from, chosen)
            &&& !named && known ==> is_first_with_id(folders, came_from, chosen)
            &&& !named && !known ==> chosen == default_index(folders)
        }),
{
    let named = exists|i: int| 0 <= i < folders.len() && folders[i].name == came_from;
    let known = exists|i: int| 0 <= i < folders.len() && folders[i].uuid == came_from;
    if named {
        let w = choose|i: int| 0 <= i < folders.len() && folders[i].name == came_from;
        lemma_has_first_named(folders, came_from, w);
    } else {
        assert forall|i: int| !is_first_named(folders, came_from, i) by {}
        if known {
            let w = choose|i: int| 0 <= i < folders.len() && folders[i].uuid == came_from;
            lemma_has_first_with_id(folders, came_from, w);
        } else {
            assert forall|i: int| !is_first_with_id(folders, came_from, i) by {}
        }
    }
}

/// A listing with a folder of a name has a first folder of that name.
pub proof fn lemma_has_first_named(folders: Seq<FolderView>, name: Seq<char>, w: int)
    requires
        0 <= w < folders.len(),
        folders[w].name == name,
    ensures
        position_by_name(folders, name).is_some(),
        is_first_named(folders, name, position_by_name(folders, name).unwrap()),
    decreases w,
{
    if exists|j: int| 0 <= j < w && folders[j].name == name {
        let j = choose|j: int| 0 <= j < w && folders[j].name == name;
        lemma_has_first_named(folders, name, j);
    } else {
        assert(is_first_named(folders, name, w));
        let k = choose|k: int| is_first_named(folders, name, k);
        assert(is_first_named(folders, name, k));
    }
}

/// A listing with a folder of an id has a first folder with that id.
pub proof fn lemma_has_first_with_id(folders: Seq<FolderView>, id: Seq<char>, w: int)
    requires
        0 <= w < folders.len(),
        folders[w].uuid == id,
    ensures
        position_by_id(folders, id).is_some(),
        is_first_with_id(folders, id, position_by_id(folders, id).unwrap()),
    decreases w,
{
    if exists|j: int| 0 <= j < w && folders[j].uuid == id {
        let j = choose|j: int| 0 <= j < w && folders[j].uuid == id;
        lemma_has_first_with_id(folders, id, j);
    } else {
        assert(is_first_with_id(folders, id, w));
        let k = choose|k: int| is_first_with_id(folders, id, k);
        assert(is_first_with_id(folders, id, k));
    }
}

/// Going to the parent of the directory `path` plans, as its last step, to
/// select the folder named by the last segment of `path` again.
pub proof fn law_going_back_remembers_the_folder(s: AppView, path: Seq<char>)
    requires
        s.current_folder == Some(path),
    ensures
        s.went_back().tasks == s.tasks + seq![
            TaskView::LoadFolders,
            TaskView::LoadAssets,
            TaskView::Reselect(leaf_name(path)),
        ],
        s.begin(TaskView::Reselect(leaf_name(path)), MomentView {
            epoch_millis: 0,
            stamp: Seq::empty(),
        }).0.selected_folder_index == reselected(s.folders, leaf_name(path)),
{
    reveal(AppView::went_back);
}

/// Entering a folder always asks the backend for its folders: whatever the
/// cache held for the folder is gone, the request goes out, and no log line
/// says CACHED.
pub proof fn law_entering_asks_the_backend(s: AppView, path: Seq<char>, now: MomentView)
    requires
        s.awaiting.is_none(),
        s.tasks.len() == 0,
    ensures
        ({
            let (next, request) = s.enter_folder(path, now);
            &&& request == Some(RequestView::ListSubfolders { path })
            &&& !next.cache.contains_key(path)
            &&& next.current_folder == Some(path)
            &&& next.log.entries == s.log.entries
            &&& next.awaiting == Some(AwaitingView::Folders(Some(path)))
        }),
{
    reveal(AppView::entered);
    reveal(AppView::begin_load_folders);
    let e = s.entered(path);
    let rest = e.tasks.drop_first();
    assert(e.tasks[0] == TaskView::LoadFolders);
    assert(fresh_folders(e.cache, path, now.epoch_millis).is_none());
}

/// A search for a blank query asks nothing of the backend: only the status
/// changes, and the results stay as they were.
pub proof fn law_blank_search_asks_nothing(s: AppView)
    requires
        is_blank(s.search_query),
    ensures
        s.begin_search() == (s.with_status("Empty search query"@), None::<RequestView>),
{
    reveal(AppView::begin_search);
}

/// In the geometric-match modal the cursor stays on a row, and each press
/// of the right arrow pans one column further: nothing but the largest
/// number that the offset can hold stops it.
pub proof fn law_match_modal_bounds(s: AppView, key: KeyInput)
    requires
        in_range(s.geometric_match_scroll_position, s.geometric_match_results.len()),
    ensures
        in_range(
            s.after_match_key(key).geometric_match_scroll_position,
            s.geometric_match_results.len(),
        ),
        s.after_match_key(key).geometric_match_results == s.geometric_match_results,
        key.code == KeyCode::Right && s.geometric_match_horizontal_scroll < u16::MAX
            ==> s.after_match_key(key).geometric_match_horizontal_scroll
            == s.geometric_match_horizontal_scroll + 1,
{
    reveal(AppView::after_match_key);
}

/// While a modal is open, no key reaches the listing behind it: the
/// directory, its folders and assets and their selections stay as they
/// are.
pub proof fn law_modals_take_every_key(s: AppView, key: KeyInput)
    requires
        s.modal_open(),
    ensures
        ({
            let next = s.after_key(key);
            &&& next.current_folder == s.current_folder
            &&& next.folders == s.folders
            &&& next.assets == s.assets
            &&& next.selected_folder_index == s.selected_folder_index
            &&& next.selected_asset_index == s.selected_asset_index
            &&& next.current_state == s.current_state
            &&& next.active_pane == s.active_pane
            &&& next.cache == s.cache
        }),
{
    reveal(AppView::after_match_key);
    reveal(AppView::after_search_key);
    reveal(AppView::downloading_found);
}

proof fn lemma_step_waits_for_its_request(s: AppView, task: TaskView, now: MomentView)
    requires
        s.awaiting.is_none(),
    ensures
        s.begin(task, now).1.is_some() <==> s.begin(task, now).0.awaiting.is_some(),
        !s.command_in_progress ==> s.begin(task, now).0.quiet(),
{
    reveal(AppView::begin_load_folders);
    reveal(AppView::begin_load_assets);
    reveal(AppView::begin_prefetch);
    reveal(AppView::begin_search);
    reveal(AppView::begin_match);
    reveal(AppView::begin_details);
    reveal(AppView::begin_download);
    reveal(AppView::begin_upload);
    reveal(AppView::begin_copy);
}

/// At most one request is out at a time. Work hands out a request exactly
/// when the browser then waits for its response; and where it hands out
/// none, nothing is left to do.
pub proof fn law_one_request_at_a_time(s: AppView, now: MomentView)
    requires
        s.awaiting.is_none(),
    ensures
        s.run(now).1.is_some() <==> s.run(now).0.awaiting.is_some(),
        s.run(now).1.is_none() ==> s.run(now).0.tasks.len() == 0,
        !s.command_in_progress ==> s.run(now).0.answers(s.run(now).1),
    decreases s.tasks.len(),
{
    if s.tasks.len() > 0 {
        let rest = s.tasks.drop_first();
        lemma_step_waits_for_its_request(s.with_tasks(rest), s.tasks[0], now);
        let (next, request) = s.with_tasks(rest).begin(s.tasks[0], now);
        let next = next.with_tasks(rest);
        if request.is_none() {
            law_one_request_at_a_time(next, now);
        }
    }
}

/// Every response ends the waiting, whatever it brings.
pub proof fn law_responses_end_the_waiting(
    s: AppView,
    awaiting: AwaitingView,
    response: ResponseView,
    now: MomentView,
)
    ensures
        s.complete(awaiting, response, now).awaiting.is_none(),
        !s.complete(awaiting, response, now).command_in_progress || awaiting is Copy,
        awaiting is Copy ==> s.complete(awaiting, response, now).command_in_progress
            == s.command_in_progress,
{
    reveal(AppView::complete_folders);
    reveal(AppView::complete_current_assets);
    reveal(AppView::complete_selected_assets);
    reveal(AppView::complete_search);
    reveal(AppView::complete_match);
    reveal(AppView::complete_details);
    reveal(AppView::complete_download);
    reveal(AppView::complete_upload);
    reveal(AppView::complete_copy);
}

/// Every call of the backend is logged once: the response to a request of
/// the backend appends one line to the log, and the line says SUCCESS or
/// ERROR with the command that was noted last.
pub proof fn law_backend_responses_are_logged(
    s: AppView,
    awaiting: AwaitingView,
    response: ResponseView,
    now: MomentView,
)
    requires
        !(awaiting is Copy),
    ensures
        ({
            let done = s.complete(awaiting, response, now);
            let command = s.log.last_command;
            ||| done.log == s.log.with_entry(crate::log::success_text(now.stamp, command))
            ||| done.log == s.log.with_entry(
                crate::log::error_text(now.stamp, command, response.failure()),
            )
        }),
{
    reveal(AppView::complete_folders);
    reveal(AppView::complete_current_assets);
    reveal(AppView::complete_selected_assets);
    reveal(AppView::complete_search);
    reveal(AppView::complete_match);
    reveal(AppView::complete_details);
    reveal(AppView::complete_download);
    reveal(AppView::complete_upload);
}

/// Whether the work that is planned ends with selecting the folder
/// `came_from` again.
pub open spec fn ends_with_return(tasks: Seq<TaskView>, came_from: Seq<char>) -> bool {
    tasks.len() > 0 && tasks.last() == TaskView::Reselect(came_from)
}

proof fn lemma_responses_keep_the_last_step(
    s: AppView,
    awaiting: AwaitingView,
    response: ResponseView,
    now: MomentView,
)
    requires
        s.tasks.len() > 0,
    ensures
        s.complete(awaiting, response, now).tasks.len() > 0,
        s.complete(awaiting, response, now).tasks.last() == s.tasks.last(),
{
    reveal(AppView::complete_folders);
    reveal(AppView::complete_current_assets);
    reveal(AppView::complete_selected_assets);
    reveal(AppView::complete_search);
    reveal(AppView::complete_match);
    reveal(AppView::complete_details);
    reveal(AppView::complete_download);
    reveal(AppView::complete_upload);
    reveal(AppView::complete_copy);
}

/// Work that ends with a return to a folder either comes to its end with
/// that folder selected (by its name, else by its id, else the start of the
/// listing that is then shown), or hands out a request and still ends with
/// the return.
pub proof fn law_work_ends_on_the_folder_left(s: AppView, came_from: Seq<char>, now: MomentView)
    requires
        s.awaiting.is_none(),
        ends_with_return(s.tasks, came_from),
    ensures
        ({
            let (done, request) = s.run(now);
            &&& request.is_none() ==> done.selected_folder_index == reselected(
                done.folders,
                came_from,
            )
            &&& request.is_some() ==> ends_with_return(done.tasks, came_from)
        }),
    decreases s.tasks.len(),
{
    let rest = s.tasks.drop_first();
    let first = s.tasks[0];
    lemma_step_waits_for_its_request(s.with_tasks(rest), first, now);
    let (next, request) = s.with_tasks(rest).begin(first, now);
    let next = next.with_tasks(rest);
    if s.tasks.len() == 1 {
        assert(first == TaskView::Reselect(came_from));
        assert(next.run(now) == (next, None::<RequestView>));
    } else {
        assert(rest.last() == s.tasks.last());
        if request.is_none() {
            law_work_ends_on_the_folder_left(next, came_from, now);
        }
    }
}

/// The same holds across every response that comes while the work waits:
/// going back to the parent ends with the folder that was left selected
/// again, however many calls of the backend it takes.
pub proof fn law_return_survives_responses(
    s: AppView,
    came_from: Seq<char>,
    response: ResponseView,
    now: MomentView,
)
    requires
        s.awaiting.is_some(),
        ends_with_return(s.tasks, came_from),
    ensures
        ({
            let (done, request) = s.resume(response, now);
            &&& request.is_none() ==> done.selected_folder_index == reselected(
                done.folders,
                came_from,
            )
            &&& request.is_some() ==> ends_with_return(done.tasks, came_from)
        }),
{
    let idle = AppView { awaiting: None, ..s };
    let awaiting = s.awaiting.unwrap();
    lemma_responses_keep_the_last_step(idle, awaiting, response, now);
    law_responses_end_the_waiting(idle, awaiting, response, now);
    law_work_ends_on_the_folder_left(idle.complete(awaiting, response, now), came_from, now);
}

/// Going back from the directory `path` is work that ends with the return
/// to the folder named by the last segment of `path`.
pub proof fn law_going_back_ends_on_the_folder_left(s: AppView, path: Seq<char>, now: MomentView)
    requires
        s.awaiting.is_none(),
        s.current_folder == Some(path),
    ensures
        ({
            let (done, request) = s.go_back_to_parent_folder(now);
            &&& request.is_none() ==> done.selected_folder_index == reselected(
                done.folders,
                leaf_name(path),
            )
            &&& request.is_some() ==> ends_with_return(done.tasks, leaf_name(path))
        }),
{
    law_going_back_remembers_the_folder(s, path);
    reveal(AppView::went_back);
    law_work_ends_on_the_folder_left(s.went_back(), leaf_name(path), now);
}

/// An operation asked for while nothing is planned and no request is out
/// is its one step of work, done at once.
pub proof fn law_an_operation_is_its_step(s: AppView, task: TaskView, now: MomentView)
    requires
        s.awaiting.is_none(),
        s.tasks.len() == 0,
    ensures
        s.perform(task, now) == s.begin(task, now),
{
    let planned = s.planning(seq![task]);
    let rest = planned.tasks.drop_first();
    assert(planned.tasks[0] == task);
    assert(rest =~= Seq::<TaskView>::empty());
    assert(planned.with_tasks(rest) == s) by {
        assert(s.tasks =~= Seq::<TaskView>::empty());
    }
    lemma_step_waits_for_its_request(s, task, now);
    crate::steps::lemma_begin_keeps_tasks(s, task, now);
    let (next, request) = s.begin(task, now);
    assert(next.with_tasks(rest) == next) by {
        assert(next.tasks =~= rest);
    }
    if request.is_none() {
        assert(next.run(now) == (next, None::<RequestView>));
    }
}

/// While the asset-details modal is open (and the match modal is not),
/// a key either closes it or does nothing at all.
pub proof fn law_details_modal_swallows_keys(s: AppView, key: KeyInput)
    requires
        s.show_asset_details_modal,
        !s.show_geometric_match_modal,
    ensures
        key.is_close() ==> s.after_key(key) == (AppView { show_asset_details_modal: false, ..s }),
        !key.is_close() ==> s.after_key(key) == s,
{
}

/// With no modal open, the global bindings do the same in every view: the
/// view that was shown has no say in what they do.
pub proof fn law_global_keys_hold_in_every_view(s: AppView, t: AppView, key: KeyInput)
    requires
        !s.modal_open(),
        !t.modal_open(),
        s.after_global_key(key).is_some(),
    ensures
        s.after_key(key) == s.after_global_key(key).unwrap(),
        t.after_global_key(key).is_some(),
        key.is_char('h') ==> s.after_key(key).current_state == AppState::Help,
        key.is_char('c') ==> s.after_key(key).current_state == AppState::CommandHistory,
        key.is_char('l') ==> s.after_key(key).current_state == AppState::Log,
        key.is_char('/') ==> s.after_key(key).show_search_modal
            && s.after_key(key).search_input_buffer.len() == 0,
        key.is_char('n') && key.control ==> s.after_key(key).current_state
            == AppState::PaneResize,
        key.is_tab() ==> s.after_key(key).active_pane == crate::keys::next_pane(s.active_pane),
        key.is_back_tab() ==> s.after_key(key).active_pane == crate::keys::previous_pane(
            s.active_pane,
        ),
{
    reveal(AppView::after_global_key);
}

/// Going forward round the panes three times, or forward and back once,
/// leads to the pane one started from.
pub proof fn law_panes_go_round(pane: crate::model::ActivePane)
    ensures
        crate::keys::next_pane(crate::keys::next_pane(crate::keys::next_pane(pane))) == pane,
        crate::keys::previous_pane(crate::keys::next_pane(pane)) == pane,
        crate::keys::next_pane(crate::keys::previous_pane(pane)) == pane,
{
}

/// From end to end: where the folders of the current directory are not
/// held fresh, asking for them sends out one request; once its records
/// have come, asking again within five minutes of their coming sends out
/// none, shows the same listing and writes a CACHED line; the cache is what
/// answered.
pub proof fn law_a_fetched_listing_is_reused_while_fresh(
    s: AppView,
    now: MomentView,
    records: Seq<PcliFolderView>,
    came: MomentView,
    again: MomentView,
)
    requires
        s.at_rest(),
        fresh_folders(s.cache, s.cache_key(), now.epoch_millis).is_none(),
        is_fresh(came.epoch_millis, again.epoch_millis),
    ensures
        ({
            let (asked, first) = s.perform(TaskView::LoadFolders, now);
            let (shown, second) = asked.resume(ResponseView::Folders(records), came);
            let (reshown, third) = shown.perform(TaskView::LoadFolders, again);
            &&& first == Some(s.folders_request())
            &&& second.is_none()
            &&& third.is_none()
            &&& reshown.folders == shown.folders
            &&& reshown.cache == shown.cache
            &&& reshown.log.entries.last() == cached_text(
                again.stamp,
                s.folders_request().command(),
            )
        }),
{
    reveal(AppView::begin_load_folders);
    reveal(AppView::complete_folders);
    law_an_operation_is_its_step(s, TaskView::LoadFolders, now);
    let (asked, first) = s.perform(TaskView::LoadFolders, now);
    crate::steps::lemma_begin_keeps_tasks(s, TaskView::LoadFolders, now);
    assert(asked.tasks =~= Seq::<TaskView>::empty());
    let idle = AppView { awaiting: None, ..asked };
    let done = idle.complete(asked.awaiting.unwrap(), ResponseView::Folders(records), came);
    assert(done.tasks =~= Seq::<TaskView>::empty());
    assert(done.run(came) == (done, None::<RequestView>));
    law_an_operation_is_its_step(done, TaskView::LoadFolders, again);
    law_fresh_folders_are_reused(done, again);
}

/// Whether `next` has the request out, and the mark of a call in progress,
/// that `s` has.
pub open spec fn waits_as(next: AppView, s: AppView) -> bool {
    next.awaiting == s.awaiting && next.command_in_progress == s.command_in_progress
}

proof fn lemma_plans_start_no_request(s: AppView, path: Seq<char>)
    ensures
        waits_as(s.went_back(), s),
        waits_as(s.entered(path), s),
        waits_as(s.opened(), s),
        waits_as(s.matching_selected(), s),
        waits_as(s.downloading_selected(), s),
        waits_as(s.downloading_found(), s),
{
    reveal(AppView::went_back);
    reveal(AppView::entered);
    reveal(AppView::opened);
    reveal(AppView::matching_selected);
    reveal(AppView::downloading_selected);
    reveal(AppView::downloading_found);
}

proof fn lemma_browsing_starts_no_request(s: AppView, key: KeyInput)
    ensures
        waits_as(s.after_browse_key(key), s),
{
    reveal(AppView::browse_choice);
    lemma_plans_start_no_request(s, Seq::empty());
}

proof fn lemma_searching_starts_no_request(s: AppView, key: KeyInput)
    ensures
        waits_as(s.after_search_key(key), s),
{
    reveal(AppView::after_search_key);
    lemma_plans_start_no_request(s, Seq::empty());
}

proof fn lemma_view_keys_start_no_request(s: AppView, key: KeyInput)
    ensures
        waits_as(s.after_view_key(key), s),
{
    reveal(AppView::after_view_key);
    reveal(AppView::after_resize_key);
    reveal(AppView::after_log_key);
    lemma_browsing_starts_no_request(s, key);
    lemma_searching_starts_no_request(s, key);
}

/// No input sends out a request by itself: what a key press or a mouse
/// event does at once leaves the waiting as it is. Requests come from the
/// work that the input plans.
pub proof fn law_input_starts_no_request(s: AppView, key: KeyInput, mouse: MouseInput)
    ensures
        waits_as(s.after_key(key), s),
        waits_as(s.after_mouse(mouse), s),
{
    reveal(AppView::after_match_key);
    reveal(AppView::after_global_key);
    lemma_searching_starts_no_request(s, key);
    lemma_view_keys_start_no_request(s, key);
}

/// Input that is taken at rest hands out a request and leaves the browser
/// waiting for its response, or hands out none and leaves it at rest.
pub proof fn law_input_is_answered(s: AppView, key: KeyInput, mouse: MouseInput, now: MomentView)
    requires
        s.at_rest(),
    ensures
        s.handle_key(key, now).0.answers(s.handle_key(key, now).1),
        s.handle_mouse(mouse, now).0.answers(s.handle_mouse(mouse, now).1),
{
    law_input_starts_no_request(s, key, mouse);
    law_one_request_at_a_time(s.after_key(key), now);
    law_one_request_at_a_time(s.after_mouse(mouse), now);
}

/// An operation that is begun at rest hands out a request and leaves the
/// browser waiting for its response, or hands out none and leaves it at
/// rest.
pub proof fn law_operations_are_answered(
    s: AppView,
    task: TaskView,
    path: Seq<char>,
    now: MomentView,
)
    requires
        s.at_rest(),
    ensures
        s.perform(task, now).0.answers(s.perform(task, now).1),
        s.start_up(now).0.answers(s.start_up(now).1),
        s.enter_folder(path, now).0.answers(s.enter_folder(path, now).1),
        s.go_back_to_parent_folder(now).0.answers(s.go_back_to_parent_folder(now).1),
        s.switch_to_assets_view(now).0.answers(s.switch_to_assets_view(now).1),
{
    lemma_plans_start_no_request(s, path);
    law_one_request_at_a_time(s.planning(seq![task]), now);
    law_one_request_at_a_time(
        s.planning(seq![TaskView::LoadFolders, TaskView::ResetSelection, TaskView::Prefetch]),
        now,
    );
    law_one_request_at_a_time(s.entered(path), now);
    law_one_request_at_a_time(s.went_back(), now);
    law_one_request_at_a_time(s.switched_to_assets(), now);
}

/// A response that the browser waits for is answered with the next request
/// and more waiting, or with none and rest.
pub proof fn law_responses_are_answered(s: AppView, response: ResponseView, now: MomentView)
    requires
        s.waiting(),
    ensures
        s.resume(response, now).0.answers(s.resume(response, now).1),
{
    let idle = AppView { awaiting: None, ..s };
    law_responses_end_the_waiting(idle, s.awaiting.unwrap(), response, now);
    law_one_request_at_a_time(idle.complete(s.awaiting.unwrap(), response, now), now);
}

/// Whether the log `after` is the log `before` with one line more, and
/// that line reports a call of the backend: it says SUCCESS or ERROR, never
/// CACHED.
pub open spec fn reports_a_call(
    before: CommandLogView,
    after: CommandLogView,
    stamp: Seq<char>,
    command: Seq<char>,
    response: ResponseView,
) -> bool {
    ||| after.entries == crate::log::capped(
        before.entries.push(crate::log::success_text(stamp, command)),
    )
    ||| after.entries == crate::log::capped(
        before.entries.push(crate::log::error_text(stamp, command, response.failure())),
    )
}

/// Whether the browser, entering the folder `path`, waits for its folders.
pub open spec fn waits_for_folders_of(a: AppView, path: Seq<char>) -> bool {
    &&& a.awaiting == Some(AwaitingView::Folders(Some(path)))
    &&& a.tasks == seq![TaskView::ClearAssets, TaskView::LoadAssets, TaskView::ResetSelection]
    &&& a.current_folder == Some(path)
    &&& a.log.last_command == crate::protocol::list_subfolders_command(path)
    &&& !a.cache.contains_key(path)
}

/// Whether the browser, entering the folder `path`, waits for its assets.
pub open spec fn waits_for_assets_of(b: AppView, path: Seq<char>) -> bool {
    &&& b.awaiting == Some(AwaitingView::CurrentAssets(path))
    &&& b.tasks == seq![TaskView::ResetSelection]
    &&& b.current_folder == Some(path)
    &&& b.log.last_command == crate::protocol::list_assets_command(path)
    &&& b.assets.len() == 0
}

proof fn lemma_entering_first_leg(s: AppView, path: Seq<char>, now: MomentView)
    requires
        s.at_rest(),
    ensures
        ({
            let (asked, r1) = s.enter_folder(path, now);
            &&& r1 == Some(RequestView::ListSubfolders { path })
            &&& waits_for_folders_of(asked, path)
            &&& asked.folders == s.folders
            &&& asked.log.entries == s.log.entries
        }),
{
    reveal(AppView::entered);
    reveal(AppView::begin_load_folders);
    let e = s.entered(path);
    let plan = seq![
        TaskView::LoadFolders,
        TaskView::ClearAssets,
        TaskView::LoadAssets,
        TaskView::ResetSelection,
    ];
    assert(e.tasks =~= plan);
    assert(plan.drop_first() =~= seq![
        TaskView::ClearAssets,
        TaskView::LoadAssets,
        TaskView::ResetSelection,
    ]);
    assert(fresh_folders(e.cache, path, now.epoch_millis).is_none());
}

proof fn lemma_folders_taken_while_entering(
    a: AppView,
    path: Seq<char>,
    first: ResponseView,
    later: MomentView,
)
    requires
        waits_for_folders_of(a, path),
    ensures
        ({
            let idle = AppView { awaiting: None, ..a };
            let took = idle.complete(AwaitingView::Folders(Some(path)), first, later);
            &&& took.awaiting.is_none()
            &&& took.tasks == a.tasks
            &&& took.current_folder == Some(path)
            &&& fresh_assets(took.cache, path, later.epoch_millis).is_none()
            &&& reports_a_call(
                a.log,
                took.log,
                later.stamp,
                crate::protocol::list_subfolders_command(path),
                first,
            )
            &&& first matches ResponseView::Folders(records) ==> took.folders
                == subfolder_listing(path, records)
            &&& !(first is Folders) ==> took.folders == a.folders && took.cache == a.cache
        }),
{
    reveal(AppView::complete_folders);
}

proof fn lemma_assets_asked_while_entering(t: AppView, path: Seq<char>, now: MomentView)
    requires
        t.awaiting.is_none(),
        t.tasks == seq![TaskView::ClearAssets, TaskView::LoadAssets, TaskView::ResetSelection],
        t.current_folder == Some(path),
        fresh_assets(t.cache, path, now.epoch_millis).is_none(),
    ensures
        ({
            let (asked, request) = t.run(now);
            &&& request == Some(RequestView::ListAssets { path })
            &&& waits_for_assets_of(asked, path)
            &&& asked.log.entries == t.log.entries
            &&& asked.folders == t.folders
            &&& asked.cache == t.cache
        }),
{
    reveal(AppView::begin_load_assets);
    reveal_with_fuel(AppView::run, 3);
    let rest = t.tasks.drop_first();
    assert(rest =~= seq![TaskView::LoadAssets, TaskView::ResetSelection]);
    assert(rest.drop_first() =~= seq![TaskView::ResetSelection]);
}

proof fn lemma_entering_second_leg(
    a: AppView,
    path: Seq<char>,
    first: ResponseView,
    later: MomentView,
)
    requires
        waits_for_folders_of(a, path),
    ensures
        ({
            let (again, r2) = a.resume(first, later);
            &&& r2 == Some(RequestView::ListAssets { path })
            &&& waits_for_assets_of(again, path)
            &&& reports_a_call(
                a.log,
                again.log,
                later.stamp,
                crate::protocol::list_subfolders_command(path),
                first,
            )
            &&& first matches ResponseView::Folders(records) ==> again.folders
                == subfolder_listing(path, records)
            &&& !(first is Folders) ==> again.folders == a.folders && !again.cache.contains_key(
                path,
            )
        }),
{
    lemma_folders_taken_while_entering(a, path, first, later);
    let idle = AppView { awaiting: None, ..a };
    let took = idle.complete(AwaitingView::Folders(Some(path)), first, later);
    lemma_assets_asked_while_entering(took, path, later);
}

proof fn lemma_entering_third_leg(
    b: AppView,
    path: Seq<char>,
    second: ResponseView,
    last: MomentView,
)
    requires
        waits_for_assets_of(b, path),
    ensures
        ({
            let (done, r3) = b.resume(second, last);
            &&& r3.is_none()
            &&& done.at_rest()
            &&& done.current_folder == b.current_folder
            &&& done.folders == b.folders
            &&& reports_a_call(
                b.log,
                done.log,
                last.stamp,
                crate::protocol::list_assets_command(path),
                second,
            )
            &&& second matches ResponseView::Assets(records) ==> done.assets == asset_listing(
                records,
                path,
            )
            &&& !(second is Assets) ==> done.assets.len() == 0 && done.cache == b.cache
            &&& done.selected_folder_index == default_index(done.folders)
            &&& done.selected_asset_index == 0
        }),
{
    reveal(AppView::complete_current_assets);
    reveal_with_fuel(AppView::run, 2);
    let idle = AppView { awaiting: None, ..b };
    let took = idle.complete(AwaitingView::CurrentAssets(path), second, last);
    assert(took.tasks == b.tasks);
    assert(b.tasks.drop_first() =~= Seq::<TaskView>::empty());
    if !(second is Assets) {
        assert(took.assets =~= b.assets);
    }
}

/// Entering a folder lists it anew, whatever the cache held for it and
/// whatever the backend answers. The folders are asked for once and then the
/// assets once; each response appends one line that reports the call, and no
/// line says CACHED; what is shown is what the backend answered; the
/// selections end at the start of the listing. When both calls fail, the
/// cache holds nothing for the folder: the old entry is gone, not passed by.
pub proof fn law_entering_lists_the_folder_anew(
    s: AppView,
    path: Seq<char>,
    now: MomentView,
    first: ResponseView,
    later: MomentView,
    second: ResponseView,
    last: MomentView,
)
    requires
        s.at_rest(),
    ensures
        ({
            let (asked, r1) = s.enter_folder(path, now);
            let (again, r2) = asked.resume(first, later);
            let (done, r3) = again.resume(second, last);
            let folders_command = RequestView::ListSubfolders { path }.command();
            let assets_command = RequestView::ListAssets { path }.command();
            &&& r1 == Some(RequestView::ListSubfolders { path })
            &&& r2 == Some(RequestView::ListAssets { path })
            &&& r3.is_none()
            &&& done.at_rest()
            &&& done.current_folder == Some(path)
            &&& asked.log.entries == s.log.entries
            &&& reports_a_call(asked.log, again.log, later.stamp, folders_command, first)
            &&& reports_a_call(again.log, done.log, last.stamp, assets_command, second)
            &&& first matches ResponseView::Folders(records) ==> done.folders
                == subfolder_listing(path, records)
            &&& !(first is Folders) ==> done.folders == s.folders
            &&& second matches ResponseView::Assets(records) ==> done.assets == asset_listing(
                records,
                path,
            )
            &&& !(second is Assets) ==> done.assets.len() == 0
            &&& !(first is Folders) && !(second is Assets) ==> !done.cache.contains_key(path)
            &&& done.selected_folder_index == default_index(done.folders)
            &&& done.selected_asset_index == 0
        }),
{
    lemma_entering_first_leg(s, path, now);
    let (asked, r1) = s.enter_folder(path, now);
    lemma_entering_second_leg(asked, path, first, later);
    let (again, r2) = asked.resume(first, later);
    lemma_entering_third_leg(again, path, second, last);
}

/// Asking for the assets of the current directory while the cache holds
/// them fresh costs no call: no request goes out, the cached assets are
/// shown, one line is appended and it says CACHED, and the browser is at
/// rest again.
pub proof fn law_cached_assets_cost_no_call(s: AppView, path: Seq<char>, now: MomentView)
    requires
        s.at_rest(),
        s.current_folder == Some(path),
        fresh_assets(s.cache, path, now.epoch_millis).is_some(),
    ensures
        ({
            let (next, request) = s.perform(TaskView::LoadAssets, now);
            let line = cached_text(now.stamp, crate::protocol::list_assets_command(path));
            &&& request.is_none()
            &&& next.at_rest()
            &&& next.assets == fresh_assets(s.cache, path, now.epoch_millis).unwrap()
            &&& next.folders == s.folders
            &&& next.cache == s.cache
            &&& next.log.entries == crate::log::capped(s.log.entries.push(line))
        }),
{
    law_an_operation_is_its_step(s, TaskView::LoadAssets, now);
    law_fresh_current_assets_are_reused(s, path, now);
    law_operations_are_answered(s, TaskView::LoadAssets, path, now);
}

/// Asking for the folders of the current directory while the cache holds
/// them fresh costs no call: no request goes out, the cached folders are
/// shown, one line is appended and it says CACHED, the cache is not written,
/// and the browser is at rest again.
pub proof fn law_cached_folders_cost_no_call(s: AppView, now: MomentView)
    requires
        s.at_rest(),
        fresh_folders(s.cache, s.cache_key(), now.epoch_millis).is_some(),
    ensures
        ({
            let (next, request) = s.perform(TaskView::LoadFolders, now);
            let line = cached_text(now.stamp, s.folders_request().command());
            &&& request.is_none()
            &&& next.at_rest()
            &&& next.folders == fresh_folders(s.cache, s.cache_key(), now.epoch_millis).unwrap()
            &&& next.cache == s.cache
            &&& next.log.entries == crate::log::capped(s.log.entries.push(line))
            &&& next.log.scroll_position == next.log.entries.len() - 1
        }),
{
    law_an_operation_is_its_step(s, TaskView::LoadFolders, now);
    law_fresh_folders_are_reused(s, now);
    law_operations_are_answered(s, TaskView::LoadFolders, Seq::empty(), now);
}

/// A search for a blank query changes the status and nothing else: no
/// request goes out, and the results, the log and the history stay as they
/// were.
pub proof fn law_blank_search_changes_the_status_only(s: AppView, now: MomentView)
    requires
        s.at_rest(),
        is_blank(s.search_query),
    ensures
        s.perform(TaskView::Search, now) == (
            s.with_status("Empty search query"@),
            None::<RequestView>,
        ),
        ({
            let next = s.perform(TaskView::Search, now).0;
            &&& next.at_rest()
            &&& !next.command_in_progress
            &&& next.log == s.log
            &&& next.search_results == s.search_results
        }),
{
    law_an_operation_is_its_step(s, TaskView::Search, now);
    law_blank_search_asks_nothing(s);
}

/// The mouse wheel moves the selection of the active pane by the rules of
/// the keys: one entry down or up, never off the list; the selections of
/// the other panes stay where they are. What follows a move in the Folders
/// pane, the listing of the assets of the folder now selected, is work that
/// is planned, not part of the move. An open modal takes the wheel too, and
/// does nothing with it.
pub proof fn law_the_wheel_moves_the_active_selection(s: AppView, mouse: MouseInput)
    ensures
        ({
            let next = s.after_mouse(mouse);
            let folders = s.active_pane == crate::model::ActivePane::Folders;
            let assets = s.active_pane == crate::model::ActivePane::Assets;
            let log = s.active_pane == crate::model::ActivePane::Log;
            &&& s.modal_open() || mouse == MouseInput::Other ==> next == s
            &&& !s.modal_open() && mouse == MouseInput::ScrollDown ==> {
                &&& next.selected_folder_index == if folders {
                    crate::input::stepped_down(s.selected_folder_index, s.folders.len())
                } else {
                    s.selected_folder_index
                }
                &&& next.selected_asset_index == if assets {
                    crate::input::stepped_down(s.selected_asset_index, s.assets.len())
                } else {
                    s.selected_asset_index
                }
                &&& next.log == if log {
                    s.log.scrolled_down()
                } else {
                    s.log
                }
            }
            &&& !s.modal_open() && mouse == MouseInput::ScrollUp ==> {
                &&& next.selected_folder_index == if folders {
                    crate::input::stepped_up(s.selected_folder_index)
                } else {
                    s.selected_folder_index
                }
                &&& next.selected_asset_index == if assets {
                    crate::input::stepped_up(s.selected_asset_index)
                } else {
                    s.selected_asset_index
                }
                &&& next.log == if log {
                    s.log.scrolled_up()
                } else {
                    s.log
                }
            }
            &&& next.folders == s.folders
            &&& next.assets == s.assets
            &&& next.cache == s.cache
        }),
{
}

/// Whether the folders view or the assets view is shown, with no modal
/// over it.
pub open spec fn browsing(s: AppView) -> bool {
    &&& !s.modal_open()
    &&& s.current_state == AppState::Folders || s.current_state == AppState::Assets
}

/// While browsing, Enter on a folder of the Folders pane is the entering of
/// that folder, Enter on the entry that leads up is the way to the parent,
/// and Backspace and Esc are the way to the parent too, followed by a look
/// whether the selection has moved. So what holds of entering and of going
/// back holds of the keys.
pub proof fn law_enter_and_backspace_are_the_operations(s: AppView, key: KeyInput)
    requires
        browsing(s),
    ensures
        ({
            let on_folder = s.active_pane == crate::model::ActivePane::Folders
                && s.selected_folder_index < s.folders.len();
            let folder = s.folders[s.selected_folder_index as int];
            let watch = seq![TaskView::PrefetchIfMoved(s.selected_folder_index)];
            &&& key.code == KeyCode::Enter && on_folder && !folder.is_sentinel() ==> s.after_key(
                key,
            ) == s.entered(folder.path)
            &&& key.code == KeyCode::Enter && on_folder && folder.is_sentinel() ==> s.after_key(
                key,
            ) == s.went_back()
            &&& key.is_back() ==> s.after_key(key) == s.went_back().planning(watch)
        }),
{
    reveal(AppView::after_global_key);
    reveal(AppView::after_view_key);
    reveal(AppView::browse_choice);
    reveal(AppView::opened);
}

/// Whether the work that is planned ends with selecting the folder
/// `came_from` again and a look whether the selection has moved.
pub open spec fn ends_with_watched_return(tasks: Seq<TaskView>, came_from: Seq<char>) -> bool {
    &&& tasks.len() >= 2
    &&& tasks[tasks.len() - 2] == TaskView::Reselect(came_from)
    &&& tasks.last() is PrefetchIfMoved
}

/// Whether the folder `came_from` is selected again.
pub open spec fn returned_to(s: AppView, came_from: Seq<char>) -> bool {
    s.selected_folder_index == reselected(s.folders, came_from)
}

/// Whether the way back to the folder `came_from` is still under way or has
/// reached it: the return is still planned; or the folder is selected, and
/// all that is out is the listing of the assets of a selected folder.
pub open spec fn on_the_way_back(s: AppView, came_from: Seq<char>) -> bool {
    ||| ends_with_watched_return(s.tasks, came_from)
    ||| {
        &&& s.tasks.len() == 0
        &&& returned_to(s, came_from)
        &&& s.awaiting is Some ==> s.awaiting->0 is SelectedAssets
    }
}

proof fn lemma_prefetch_keeps_the_folder(s: AppView, came_from: Seq<char>, now: MomentView)
    requires
        returned_to(s, came_from),
        s.awaiting.is_none(),
    ensures
        returned_to(s.begin_prefetch(now).0, came_from),
        s.begin_prefetch(now).0.awaiting is Some ==> s.begin_prefetch(now).0.awaiting->0
            is SelectedAssets,
{
    reveal(AppView::begin_prefetch);
    lemma_reselected_in_range(s.folders, came_from);
}

proof fn lemma_prefetched_assets_keep_the_folder(
    s: AppView,
    came_from: Seq<char>,
    path: Seq<char>,
    name: Seq<char>,
    response: ResponseView,
    now: MomentView,
)
    requires
        returned_to(s, came_from),
    ensures
        returned_to(s.complete_selected_assets(path, name, response, now), came_from),
        s.complete_selected_assets(path, name, response, now).tasks == s.tasks,
        s.complete_selected_assets(path, name, response, now).awaiting.is_none(),
{
    reveal(AppView::complete_selected_assets);
    lemma_reselected_in_range(s.folders, came_from);
}

proof fn lemma_the_watch_keeps_the_folder(t: AppView, came_from: Seq<char>, now: MomentView)
    requires
        t.awaiting.is_none(),
        !t.command_in_progress,
        t.tasks.len() == 1,
        t.tasks[0] is PrefetchIfMoved,
        returned_to(t, came_from),
    ensures
        ({
            let (done, request) = t.run(now);
            &&& request.is_none() ==> done.at_rest() && returned_to(done, came_from)
            &&& request.is_some() ==> done.waiting() && on_the_way_back(done, came_from)
        }),
{
    let none = t.tasks.drop_first();
    assert(none =~= Seq::<TaskView>::empty());
    let start = t.with_tasks(none);
    lemma_prefetch_keeps_the_folder(start, came_from, now);
    lemma_step_waits_for_its_request(start, t.tasks[0], now);
    crate::steps::lemma_begin_keeps_tasks(start, t.tasks[0], now);
    let (end, asked) = start.begin(t.tasks[0], now);
    assert(end.tasks == none);
    assert(end.with_tasks(none) == end);
    if asked.is_none() {
        assert(end.run(now) == (end, None::<RequestView>));
    }
}

proof fn lemma_the_return_selects_the_folder(s: AppView, came_from: Seq<char>, now: MomentView)
    ensures
        ({
            let (next, request) = s.begin(TaskView::Reselect(came_from), now);
            &&& request.is_none()
            &&& waits_as(next, s)
            &&& next.tasks == s.tasks
            &&& returned_to(next, came_from)
        }),
{
}

/// Work that ends with a watched return to a folder comes to rest with that
/// folder selected, or hands out a request and is still on the way back.
pub proof fn law_watched_work_ends_on_the_folder_left(
    s: AppView,
    came_from: Seq<char>,
    now: MomentView,
)
    requires
        s.awaiting.is_none(),
        !s.command_in_progress,
        ends_with_watched_return(s.tasks, came_from),
    ensures
        ({
            let (done, request) = s.run(now);
            &&& request.is_none() ==> done.at_rest() && returned_to(done, came_from)
            &&& request.is_some() ==> done.waiting() && on_the_way_back(done, came_from)
        }),
    decreases s.tasks.len(),
{
    let rest = s.tasks.drop_first();
    let first = s.tasks[0];
    let start = s.with_tasks(rest);
    if s.tasks.len() == 2 {
        lemma_the_return_selects_the_folder(start, came_from, now);
        let next = start.begin(first, now).0.with_tasks(rest);
        assert(rest.len() == 1);
        assert(rest[0] == s.tasks[1]);
        assert(returned_to(next, came_from));
        lemma_the_watch_keeps_the_folder(next, came_from, now);
    } else {
        lemma_step_waits_for_its_request(start, first, now);
        let (next, request) = start.begin(first, now);
        let next = next.with_tasks(rest);
        assert(rest.len() == s.tasks.len() - 1);
        assert(rest[rest.len() - 2] == s.tasks[s.tasks.len() - 2]);
        assert(rest.last() == s.tasks.last());
        if request.is_none() {
            law_watched_work_ends_on_the_folder_left(next, came_from, now);
        }
    }
}

proof fn lemma_responses_keep_the_plan(
    s: AppView,
    awaiting: AwaitingView,
    response: ResponseView,
    now: MomentView,
)
    requires
        s.tasks.len() >= 2,
    ensures
        ({
            let done = s.complete(awaiting, response, now);
            &&& done.tasks.len() >= 2
            &&& done.tasks[done.tasks.len() - 2] == s.tasks[s.tasks.len() - 2]
            &&& done.tasks.last() == s.tasks.last()
        }),
{
    reveal(AppView::complete_folders);
    reveal(AppView::complete_current_assets);
    reveal(AppView::complete_selected_assets);
    reveal(AppView::complete_search);
    reveal(AppView::complete_match);
    reveal(AppView::complete_details);
    reveal(AppView::complete_download);
    reveal(AppView::complete_upload);
    reveal(AppView::complete_copy);
}

/// The way back survives every response: while the browser waits on its way
/// back to a folder, whatever comes leaves it still on the way, or at rest
/// with that folder selected.
pub proof fn law_the_way_back_survives_responses(
    s: AppView,
    came_from: Seq<char>,
    response: ResponseView,
    now: MomentView,
)
    requires
        s.waiting(),
        on_the_way_back(s, came_from),
    ensures
        ({
            let (done, request) = s.resume(response, now);
            &&& request.is_none() ==> done.at_rest() && returned_to(done, came_from)
            &&& request.is_some() ==> done.waiting() && on_the_way_back(done, came_from)
        }),
{
    let idle = AppView { awaiting: None, ..s };
    let awaiting = s.awaiting.unwrap();
    law_responses_end_the_waiting(idle, awaiting, response, now);
    if ends_with_watched_return(s.tasks, came_from) {
        lemma_responses_keep_the_plan(idle, awaiting, response, now);
        law_watched_work_ends_on_the_folder_left(
            idle.complete(awaiting, response, now),
            came_from,
            now,
        );
    } else {
        match awaiting {
            AwaitingView::SelectedAssets { path, name } => {
                lemma_prefetched_assets_keep_the_folder(idle, came_from, path, name, response, now);
            },
            _ => {},
        }
    }
}

/// Backspace in a browsing view leads back to the folder that was left:
/// at once where the cache holds the parent, or after the responses to the
/// requests that it takes. Entering the selected folder and pressing
/// Backspace ends with that folder selected in the listing of its parent,
/// as far as the parent still lists it.
pub proof fn law_backspace_ends_on_the_folder_left(
    s: AppView,
    key: KeyInput,
    path: Seq<char>,
    now: MomentView,
)
    requires
        s.at_rest(),
        browsing(s),
        key.is_back(),
        s.current_folder == Some(path),
    ensures
        ({
            let (done, request) = s.handle_key(key, now);
            let came_from = leaf_name(path);
            &&& request.is_none() ==> done.at_rest() && returned_to(done, came_from)
            &&& request.is_some() ==> done.waiting() && on_the_way_back(done, came_from)
        }),
{
    law_enter_and_backspace_are_the_operations(s, key);
    law_going_back_remembers_the_folder(s, path);
    lemma_plans_start_no_request(s, path);
    let planned = s.after_key(key);
    assert(planned.tasks =~= seq![
        TaskView::LoadFolders,
        TaskView::LoadAssets,
        TaskView::Reselect(leaf_name(path)),
        TaskView::PrefetchIfMoved(s.selected_folder_index),
    ]);
    law_watched_work_ends_on_the_folder_left(planned, leaf_name(path), now);
}

/// From end to end, for the assets as for the folders: where the assets of
/// the current directory are not held fresh, asking for them sends out one
/// request; once its records have come, asking again within five minutes of
/// their coming sends out none, whatever else the cache holds for the
/// directory and whenever that was captured.
pub proof fn law_fetched_assets_are_reused_while_fresh(
    s: AppView,
    path: Seq<char>,
    now: MomentView,
    records: Seq<PcliAssetView>,
    came: MomentView,
    again: MomentView,
)
    requires
        s.at_rest(),
        s.current_folder == Some(path),
        fresh_assets(s.cache, path, now.epoch_millis).is_none(),
        is_fresh(came.epoch_millis, again.epoch_millis),
    ensures
        ({
            let (asked, first) = s.perform(TaskView::LoadAssets, now);
            let (shown, second) = asked.resume(ResponseView::Assets(records), came);
            let (reshown, third) = shown.perform(TaskView::LoadAssets, again);
            &&& first == Some(RequestView::ListAssets { path })
            &&& second.is_none()
            &&& third.is_none()
            &&& reshown.assets == asset_listing(records, path)
            &&& reshown.cache == shown.cache
            &&& reshown.log.entries.last() == cached_text(
                again.stamp,
                crate::protocol::list_assets_command(path),
            )
        }),
{
    reveal(AppView::begin_load_assets);
    reveal(AppView::complete_current_assets);
    law_an_operation_is_its_step(s, TaskView::LoadAssets, now);
    let (asked, first) = s.perform(TaskView::LoadAssets, now);
    crate::steps::lemma_begin_keeps_tasks(s, TaskView::LoadAssets, now);
    assert(asked.tasks =~= Seq::<TaskView>::empty());
    let idle = AppView { awaiting: None, ..asked };
    let done = idle.complete(asked.awaiting.unwrap(), ResponseView::Assets(records), came);
    assert(done.tasks =~= Seq::<TaskView>::empty());
    assert(done.run(came) == (done, None::<RequestView>));
    law_an_operation_is_its_step(done, TaskView::LoadAssets, again);
    law_fresh_current_assets_are_reused(done, path, again);
}

} // verus!
