//! The state of the browser as a mathematical value, and every transition
//! of it as a function: what a step of work does, what a response does, and
//! how work goes on until the outside world is needed.

use crate::cache::{fresh_assets, fresh_folders, with_assets, with_folders};
use crate::clock::MomentView;
use crate::input::{clamped, in_range};
use crate::listing::{
    asset_listing, found_listing, match_listing, root_listing, subfolder_listing,
};
use crate::log::{cached_text, command_of_entry, error_text, success_text, CommandLogView};
use crate::model::{
    ActivePane, AppState, AssetDetailsView, AssetView, FolderCacheView, FolderView,
    GeometricMatchView, SearchModalFocus,
};
use crate::protocol::{RequestView, ResponseView};
use crate::text::{decimal, is_blank};
use vstd::prelude::*;

verus! {

/// One step of work that is still to be done.
#[derive(Debug)]
pub enum Task {
    /// List the folders of the current directory.
    LoadFolders,
    /// List the assets of the current directory.
    LoadAssets,
    /// Show no assets.
    ClearAssets,
    /// List the assets of the selected folder.
    Prefetch,
    /// List the assets of the selected folder, if the Folders pane is active
    /// and its selection is no longer at the given place.
    PrefetchIfMoved(usize),
    /// Put the selections at the start of a directory just entered.
    ResetSelection,
    /// Select the folder of the given name again.
    Reselect(String),
    /// Show the assets view.
    ShowAssets,
    /// Search for the query.
    Search,
    /// Match the asset of the given id geometrically.
    Match(String),
    /// Open the match modal for the asset of the given name.
    ShowMatches(String),
    /// Fetch the details of the selected asset.
    Details,
    /// Download an asset.
    Download { uuid: String, name: String },
    /// Upload a file to the current directory.
    Upload(String),
    /// Copy the selected log line, or only its command.
    Copy(bool),
}

/// The mathematical view of a `Task`.
pub enum TaskView {
    LoadFolders,
    LoadAssets,
    ClearAssets,
    Prefetch,
    PrefetchIfMoved(usize),
    ResetSelection,
    Reselect(Seq<char>),
    ShowAssets,
    Search,
    Match(Seq<char>),
    ShowMatches(Seq<char>),
    Details,
    Download { uuid: Seq<char>, name: Seq<char> },
    Upload(Seq<char>),
    Copy(bool),
}

impl View for Task {
    type V = TaskView;

    open spec fn view(&self) -> TaskView {
        match self {
            Task::LoadFolders => TaskView::LoadFolders,
            Task::LoadAssets => TaskView::LoadAssets,
            Task::ClearAssets => TaskView::ClearAssets,
            Task::Prefetch => TaskView::Prefetch,
            Task::PrefetchIfMoved(previous) => TaskView::PrefetchIfMoved(*previous),
            Task::ResetSelection => TaskView::ResetSelection,
            Task::Reselect(name) => TaskView::Reselect(name@),
            Task::ShowAssets => TaskView::ShowAssets,
            Task::Search => TaskView::Search,
            Task::Match(uuid) => TaskView::Match(uuid@),
            Task::ShowMatches(name) => TaskView::ShowMatches(name@),
            Task::Details => TaskView::Details,
            Task::Download { uuid, name } => TaskView::Download { uuid: uuid@, name: name@ },
            Task::Upload(file_path) => TaskView::Upload(file_path@),
            Task::Copy(command_only) => TaskView::Copy(*command_only),
        }
    }
}

impl DeepView for Task {
    type V = TaskView;

    open spec fn deep_view(&self) -> TaskView {
        self@
    }
}

/// The request that is out, with what is needed to take in its response.
#[derive(Debug)]
pub enum Awaiting {
    /// The folders of the directory of the given path, or of the root.
    Folders(Option<String>),
    /// The assets of the current directory, of the given path.
    CurrentAssets(String),
    /// The assets of the selected folder.
    SelectedAssets { path: String, name: String },
    /// The details of the asset of the given name.
    Details(String),
    Search,
    Matches,
    /// The download of the asset of the given name.
    Download(String),
    /// The upload of the given file.
    Upload(String),
    /// The copy of a log line, or only of its command.
    Copy(bool),
}

/// The mathematical view of an `Awaiting`.
pub enum AwaitingView {
    Folders(Option<Seq<char>>),
    CurrentAssets(Seq<char>),
    SelectedAssets { path: Seq<char>, name: Seq<char> },
    Details(Seq<char>),
    Search,
    Matches,
    Download(Seq<char>),
    Upload(Seq<char>),
    Copy(bool),
}

impl View for Awaiting {
    type V = AwaitingView;

    open spec fn view(&self) -> AwaitingView {
        match self {
            Awaiting::Folders(path) => AwaitingView::Folders(
                match path {
                    Some(p) => Some(p@),
                    None => None,
                },
            ),
            Awaiting::CurrentAssets(path) => AwaitingView::CurrentAssets(path@),
            Awaiting::SelectedAssets { path, name } => AwaitingView::SelectedAssets {
                path: path@,
                name: name@,
            },
            Awaiting::Details(name) => AwaitingView::Details(name@),
            Awaiting::Search => AwaitingView::Search,
            Awaiting::Matches => AwaitingView::Matches,
            Awaiting::Download(name) => AwaitingView::Download(name@),
            Awaiting::Upload(file_path) => AwaitingView::Upload(file_path@),
            Awaiting::Copy(command_only) => AwaitingView::Copy(*command_only),
        }
    }
}

/// `head`, the number `n` in decimal, and `tail`.
pub open spec fn counted(head: Seq<char>, n: nat, tail: Seq<char>) -> Seq<char> {
    head + decimal(n) + tail
}

/// Whether `i` is the place of the first folder named `name`.
pub open spec fn is_first_named(folders: Seq<FolderView>, name: Seq<char>, i: int) -> bool {
    &&& 0 <= i < folders.len()
    &&& folders[i].name == name
    &&& forall|j: int| 0 <= j < i ==> folders[j].name != name
}

/// Whether `i` is the place of the first folder with the id `id`.
pub open spec fn is_first_with_id(folders: Seq<FolderView>, id: Seq<char>, i: int) -> bool {
    &&& 0 <= i < folders.len()
    &&& folders[i].uuid == id
    &&& forall|j: int| 0 <= j < i ==> folders[j].uuid != id
}

/// The place of the first folder named `name`.
pub open spec fn position_by_name(folders: Seq<FolderView>, name: Seq<char>) -> Option<int> {
    if exists|i: int| is_first_named(folders, name, i) {
        Some(choose|i: int| is_first_named(folders, name, i))
    } else {
        None
    }
}

/// The place of the first folder with the id `id`.
pub open spec fn position_by_id(folders: Seq<FolderView>, id: Seq<char>) -> Option<int> {
    if exists|i: int| is_first_with_id(folders, id, i) {
        Some(choose|i: int| is_first_with_id(folders, id, i))
    } else {
        None
    }
}

/// Where the folder selection starts in a listing: on the first entry after
/// the one that leads to the parent, if there is such an entry and another
/// after it; else on the first entry.
pub open spec fn default_index(folders: Seq<FolderView>) -> usize {
    if folders.len() > 1 && folders[0].is_sentinel() {
        1
    } else {
        0
    }
}

/// Where the folder selection stands after coming back from the folder
/// `came_from`: on the first folder of that name; failing that, on the
/// first folder with that id; failing that, at the start.
pub open spec fn reselected(folders: Seq<FolderView>, came_from: Seq<char>) -> usize {
    match position_by_name(folders, came_from) {
        Some(i) => i as usize,
        None => match position_by_id(folders, came_from) {
            Some(i) => i as usize,
            None => default_index(folders),
        },
    }
}

/// The whole state of the browser.
pub struct AppView {
    pub current_state: AppState,
    pub active_pane: ActivePane,
    pub status_message: Seq<char>,
    pub should_quit: bool,
    pub command_in_progress: bool,
    pub assets_loading_for_selection: bool,
    pub current_folder: Option<Seq<char>>,
    pub folders: Seq<FolderView>,
    pub assets: Seq<AssetView>,
    pub selected_folder_index: usize,
    pub selected_asset_index: usize,
    pub last_entered_folder_path: Option<Seq<char>>,
    pub cache: Map<Seq<char>, FolderCacheView>,
    pub log: CommandLogView,
    pub show_search_modal: bool,
    pub search_query: Seq<char>,
    pub search_input_buffer: Seq<char>,
    pub search_results: Seq<AssetView>,
    pub search_modal_focus: SearchModalFocus,
    pub selected_search_result_index: usize,
    pub geometric_match_results: Seq<GeometricMatchView>,
    pub show_geometric_match_modal: bool,
    pub geometric_match_scroll_position: usize,
    pub geometric_match_horizontal_scroll: u16,
    pub show_asset_details_modal: bool,
    pub selected_asset_details: Option<AssetDetailsView>,
    pub resize_mode_active: bool,
    pub resize_delta_x: i32,
    pub resize_delta_y: i32,
    pub tasks: Seq<TaskView>,
    pub awaiting: Option<AwaitingView>,
}

impl AppView {
    /// Every selection stands on an entry of its list (at 0 where the list
    /// is empty), and the log is well formed.
    pub open spec fn wf(self) -> bool {
        &&& in_range(self.selected_folder_index, self.folders.len())
        &&& in_range(self.selected_asset_index, self.assets.len())
        &&& in_range(self.selected_search_result_index, self.search_results.len())
        &&& in_range(self.geometric_match_scroll_position, self.geometric_match_results.len())
        &&& self.log.wf()
    }

    /// Whether the mark of a call in progress is up only while a call of the
    /// backend is out. (A text on its way to the clipboard is no such call.)
    pub open spec fn quiet(self) -> bool {
        self.command_in_progress ==> (self.awaiting matches Some(awaiting) && !(awaiting is Copy))
    }

    /// Whether the browser is at rest: no request is out, no work is
    /// planned, and no call is marked as in progress. The browser does one
    /// thing at a time, and takes input and begins operations only at rest.
    pub open spec fn at_rest(self) -> bool {
        self.awaiting.is_none() && self.tasks.len() == 0 && !self.command_in_progress
    }

    /// Whether the browser waits for a response, with the mark of a call in
    /// progress up only for a call of the backend.
    pub open spec fn waiting(self) -> bool {
        self.awaiting.is_some() && self.quiet()
    }

    /// Whether the state is the one that `request` leaves behind: with a
    /// request the browser waits for its response, without one it is at
    /// rest.
    pub open spec fn answers(self, request: Option<RequestView>) -> bool {
        match request {
            Some(_) => self.waiting(),
            None => self.at_rest(),
        }
    }

    /// Whether a modal is open.
    pub open spec fn modal_open(self) -> bool {
        self.show_geometric_match_modal || self.show_asset_details_modal
            || self.show_search_modal
    }

    /// The state with every selection moved to the nearest entry of its list.
    pub open spec fn clamped(self) -> AppView {
        AppView {
            selected_folder_index: clamped(self.selected_folder_index, self.folders.len()),
            selected_asset_index: clamped(self.selected_asset_index, self.assets.len()),
            selected_search_result_index: clamped(
                self.selected_search_result_index,
                self.search_results.len(),
            ),
            geometric_match_scroll_position: clamped(
                self.geometric_match_scroll_position,
                self.geometric_match_results.len(),
            ),
            ..self
        }
    }

    /// The state with `status` as its status message.
    pub open spec fn with_status(self, status: Seq<char>) -> AppView {
        AppView { status_message: status, ..self }
    }

    /// The state with `tasks` as the work that is planned.
    pub open spec fn with_tasks(self, tasks: Seq<TaskView>) -> AppView {
        AppView { tasks, ..self }
    }

    /// The state after `more` was added to the work that is to be done.
    pub open spec fn planning(self, more: Seq<TaskView>) -> AppView {
        AppView { tasks: self.tasks + more, ..self }
    }

    /// The state after a request went out: its command is noted, and the
    /// response is awaited.
    pub open spec fn started(
        self,
        request: RequestView,
        status: Seq<char>,
        awaiting: AwaitingView,
    ) -> AppView {
        AppView {
            log: self.log.with_command(request.command()),
            command_in_progress: true,
            status_message: status,
            awaiting: Some(awaiting),
            ..self
        }
    }

    /// The state after the cache answered in place of the backend: the
    /// command is noted, and a line says that it was not executed.
    pub open spec fn reused(self, request: RequestView, status: Seq<char>, stamp: Seq<char>) -> AppView {
        AppView {
            log: self.log.with_command(request.command()).with_entry(
                cached_text(stamp, request.command()),
            ),
            status_message: status,
            ..self
        }
    }

    /// The state after the awaited call succeeded.
    pub open spec fn succeeded(self, status: Seq<char>, stamp: Seq<char>) -> AppView {
        AppView {
            log: self.log.with_entry(success_text(stamp, self.log.last_command)),
            command_in_progress: false,
            status_message: status,
            awaiting: None,
            ..self
        }
    }

    /// The state after the awaited call failed: what is shown stays as it
    /// was, and the status and a log line report the failure.
    pub open spec fn failed(self, head: Seq<char>, message: Seq<char>, stamp: Seq<char>) -> AppView {
        AppView {
            log: self.log.with_entry(error_text(stamp, self.log.last_command, message)),
            command_in_progress: false,
            status_message: head + message,
            awaiting: None,
            ..self
        }
    }

    /// The key of the current directory in the cache.
    pub open spec fn cache_key(self) -> Seq<char> {
        match self.current_folder {
            Some(path) => path,
            None => Seq::empty(),
        }
    }

    /// The request that lists the folders of the current directory.
    pub open spec fn folders_request(self) -> RequestView {
        match self.current_folder {
            Some(path) => RequestView::ListSubfolders { path },
            None => RequestView::ListFolders,
        }
    }

    /// The state with `assets` shown.
    pub open spec fn listing_assets(self, assets: Seq<AssetView>) -> AppView {
        AppView { assets, ..self }
    }

    /// The state with `folders` shown.
    pub open spec fn listing_folders(self, folders: Seq<FolderView>) -> AppView {
        AppView { folders, ..self }
    }

    /// The state with the mark that the assets of the selected folder are
    /// being listed.
    pub open spec fn marked_loading(self, loading: bool) -> AppView {
        AppView { assets_loading_for_selection: loading, ..self }
    }

    /// The state with `cache` as its cache.
    pub open spec fn caching(self, cache: Map<Seq<char>, FolderCacheView>) -> AppView {
        AppView { cache, ..self }
    }

    /// The state after the folders that were listed for the directory `key`
    /// have come: they are shown and written to the cache under `key`.
    pub open spec fn took_folders(
        self,
        key: Seq<char>,
        folders: Seq<FolderView>,
        status: Seq<char>,
        now: MomentView,
    ) -> AppView {
        self.listing_folders(folders).caching(
            with_folders(self.cache, key, folders, now.epoch_millis),
        ).succeeded(status, now.stamp).clamped()
    }

    /// The state after the assets that were listed for the directory `path`
    /// have come: they are shown and written to the cache under `path`.
    pub open spec fn took_assets(
        self,
        path: Seq<char>,
        assets: Seq<AssetView>,
        status: Seq<char>,
        now: MomentView,
    ) -> AppView {
        self.listing_assets(assets).caching(
            with_assets(self.cache, path, assets, now.epoch_millis),
        ).succeeded(status, now.stamp).clamped()
    }

    /// Listing the folders of the current directory: where the cache holds
    /// them fresh, they are adopted without a call, and below the root the
    /// assets that it holds fresh for the directory with them; else the call
    /// goes out.
    #[verifier::opaque]
    pub open spec fn begin_load_folders(self, now: MomentView) -> (AppView, Option<RequestView>) {
        let request = self.folders_request();
        match fresh_folders(self.cache, self.cache_key(), now.epoch_millis) {
            Some(folders) => {
                let shown = self.listing_folders(folders);
                let adopted = match self.current_folder {
                    Some(path) => match fresh_assets(self.cache, path, now.epoch_millis) {
                        Some(assets) => shown.listing_assets(assets),
                        None => shown,
                    },
                    None => shown,
                };
                let status = match self.current_folder {
                    Some(_) => counted("Loaded "@, folders.len(), " subfolders from cache"@),
                    None => counted("Loaded "@, folders.len(), " top-level folders from cache"@),
                };
                (adopted.reused(request, status, now.stamp).clamped(), None)
            },
            None => {
                let status = match self.current_folder {
                    Some(path) => "Loading subfolders for "@ + path + "..."@,
                    None => "Loading all folders..."@,
                };
                (
                    self.started(request, status, AwaitingView::Folders(self.current_folder)),
                    Some(request),
                )
            },
        }
    }

    /// Taking in the folders of the directory `path` (of the root, where
    /// there is no path): they are shown, and written to the cache under
    /// their own path.
    #[verifier::opaque]
    pub open spec fn complete_folders(
        self,
        path: Option<Seq<char>>,
        response: ResponseView,
        now: MomentView,
    ) -> AppView {
        match response {
            ResponseView::Folders(records) => {
                let folders = match path {
                    Some(p) => subfolder_listing(p, records),
                    None => root_listing(records),
                };
                let key = match path {
                    Some(p) => p,
                    None => Seq::empty(),
                };
                let status = match path {
                    Some(_) => counted("Loaded "@, folders.len(), " subfolders"@),
                    None => counted("Loaded "@, folders.len(), " top-level folders"@),
                };
                self.took_folders(key, folders, status, now)
            },
            _ => {
                let head = match path {
                    Some(_) => "Error loading subfolders: "@,
                    None => "Error loading folders: "@,
                };
                self.failed(head, response.failure(), now.stamp)
            },
        }
    }

    /// Listing the assets of the current directory: where the cache holds
    /// them fresh, they are adopted without a call; else the call goes out.
    #[verifier::opaque]
    pub open spec fn begin_load_assets(self, now: MomentView) -> (AppView, Option<RequestView>) {
        match self.current_folder {
            Some(path) => {
                let request = RequestView::ListAssets { path };
                match fresh_assets(self.cache, path, now.epoch_millis) {
                    Some(assets) => (
                        self.listing_assets(assets).reused(
                            request,
                            counted("Loaded "@, assets.len(), " assets from cache"@),
                            now.stamp,
                        ).clamped(),
                        None,
                    ),
                    None => (
                        self.started(
                            request,
                            "Loading assets..."@,
                            AwaitingView::CurrentAssets(path),
                        ),
                        Some(request),
                    ),
                }
            },
            None => (self.with_status("No folder selected"@), None),
        }
    }

    /// Taking in the assets of the current directory `path`: they are shown,
    /// and written to the cache under their own path.
    #[verifier::opaque]
    pub open spec fn complete_current_assets(
        self,
        path: Seq<char>,
        response: ResponseView,
        now: MomentView,
    ) -> AppView {
        match response {
            ResponseView::Assets(records) => {
                let assets = asset_listing(records, path);
                self.took_assets(path, assets, counted("Loaded "@, assets.len(), " assets"@), now)
            },
            _ => self.failed("Error loading assets: "@, response.failure(), now.stamp),
        }
    }

    /// Listing the assets of the selected folder. The entry that leads to
    /// the parent has none; where the cache holds the assets of the folder
    /// fresh, they are adopted without a call.
    #[verifier::opaque]
    pub open spec fn begin_prefetch(self, now: MomentView) -> (AppView, Option<RequestView>) {
        if self.selected_folder_index >= self.folders.len() {
            (self, None)
        } else {
            let folder = self.folders[self.selected_folder_index as int];
            if folder.is_sentinel() {
                (self.listing_assets(Seq::empty()).clamped(), None)
            } else {
                let request = RequestView::ListAssets { path: folder.path };
                match fresh_assets(self.cache, folder.path, now.epoch_millis) {
                    Some(assets) => {
                        let status = counted("Loaded "@, assets.len(), " assets from cache for "@)
                            + folder.name;
                        (
                            self.listing_assets(assets).reused(request, status, now.stamp).clamped(),
                            None,
                        )
                    },
                    None => {
                        let status = "Loading assets for "@ + folder.name + "..."@;
                        let awaiting = AwaitingView::SelectedAssets {
                            path: folder.path,
                            name: folder.name,
                        };
                        (
                            self.started(request, status, awaiting).marked_loading(true),
                            Some(request),
                        )
                    },
                }
            }
        }
    }

    /// Taking in the assets of the selected folder: they are shown, and
    /// written to the cache under the path of that folder.
    #[verifier::opaque]
    pub open spec fn complete_selected_assets(
        self,
        path: Seq<char>,
        name: Seq<char>,
        response: ResponseView,
        now: MomentView,
    ) -> AppView {
        let settled = self.marked_loading(false);
        match response {
            ResponseView::Assets(records) => {
                let assets = asset_listing(records, path);
                settled.took_assets(
                    path,
                    assets,
                    counted("Loaded "@, assets.len(), " assets for "@) + name,
                    now,
                )
            },
            _ => settled.failed(
                "Error loading assets for "@ + name + ": "@,
                response.failure(),
                now.stamp,
            ),
        }
    }

    /// Searching for the query: a blank query is turned down without a call.
    #[verifier::opaque]
    pub open spec fn begin_search(self) -> (AppView, Option<RequestView>) {
        if is_blank(self.search_query) {
            (self.with_status("Empty search query"@), None)
        } else {
            let request = RequestView::SearchAssets { query: self.search_query };
            (
                self.started(
                    request,
                    "Searching for: "@ + self.search_query,
                    AwaitingView::Search,
                ),
                Some(request),
            )
        }
    }

    /// Taking in what a search found: the focus goes to the results.
    #[verifier::opaque]
    pub open spec fn complete_search(self, response: ResponseView, now: MomentView) -> AppView {
        match response {
            ResponseView::Assets(records) => {
                let results = found_listing(records);
                AppView {
                    search_results: results,
                    search_modal_focus: SearchModalFocus::Results,
                    ..self
                }.succeeded(counted("Found "@, results.len(), " assets"@), now.stamp).clamped()
            },
            _ => self.failed("Search failed: "@, response.failure(), now.stamp),
        }
    }

    /// Matching the asset `uuid` geometrically.
    #[verifier::opaque]
    pub open spec fn begin_match(self, uuid: Seq<char>) -> (AppView, Option<RequestView>) {
        let request = RequestView::GeometricMatch { uuid };
        (
            self.started(
                request,
                "Performing geometric match on asset: "@ + uuid,
                AwaitingView::Matches,
            ),
            Some(request),
        )
    }

    /// Taking in the results of a geometric match.
    #[verifier::opaque]
    pub open spec fn complete_match(self, response: ResponseView, now: MomentView) -> AppView {
        match response {
            ResponseView::Matches(records) => {
                let results = match_listing(records);
                AppView { geometric_match_results: results, ..self }.succeeded(
                    counted("Found "@, results.len(), " geometric matches"@),
                    now.stamp,
                ).clamped()
            },
            _ => self.failed("Geometric match failed: "@, response.failure(), now.stamp),
        }
    }

    /// Fetching the details of the selected asset, if there is one.
    #[verifier::opaque]
    pub open spec fn begin_details(self) -> (AppView, Option<RequestView>) {
        if self.selected_asset_index >= self.assets.len() {
            (self, None)
        } else {
            let asset = self.assets[self.selected_asset_index as int];
            let request = RequestView::AssetDetails { uuid: asset.uuid };
            (
                self.started(
                    request,
                    "Loading details for asset: "@ + asset.name,
                    AwaitingView::Details(asset.name),
                ),
                Some(request),
            )
        }
    }

    /// Taking in the details of the asset `name`: the modal opens on them.
    #[verifier::opaque]
    pub open spec fn complete_details(
        self,
        name: Seq<char>,
        response: ResponseView,
        now: MomentView,
    ) -> AppView {
        match response {
            ResponseView::Details(details) => AppView {
                selected_asset_details: Some(details),
                show_asset_details_modal: true,
                ..self
            }.succeeded("Loaded details for "@ + name, now.stamp),
            _ => self.failed("Failed to load asset details: "@, response.failure(), now.stamp),
        }
    }

    /// Downloading the asset `uuid`, named `name`.
    #[verifier::opaque]
    pub open spec fn begin_download(self, uuid: Seq<char>, name: Seq<char>) -> (
        AppView,
        Option<RequestView>,
    ) {
        let request = RequestView::DownloadAsset { uuid };
        (
            self.started(
                request,
                "Downloading asset: "@ + name + "..."@,
                AwaitingView::Download(name),
            ),
            Some(request),
        )
    }

    /// Taking in what came of the download of the asset `name`.
    #[verifier::opaque]
    pub open spec fn complete_download(
        self,
        name: Seq<char>,
        response: ResponseView,
        now: MomentView,
    ) -> AppView {
        match response {
            ResponseView::Done => self.succeeded("Successfully downloaded: "@ + name, now.stamp),
            _ => self.failed("Download failed: "@, response.failure(), now.stamp),
        }
    }

    /// Uploading the file `file_path` to the current directory, if there is
    /// one.
    #[verifier::opaque]
    pub open spec fn begin_upload(self, file_path: Seq<char>) -> (AppView, Option<RequestView>) {
        match self.current_folder {
            Some(folder) => {
                let request = RequestView::UploadAsset { file_path, folder };
                (
                    self.started(
                        request,
                        "Uploading asset: "@ + file_path + "..."@,
                        AwaitingView::Upload(file_path),
                    ),
                    Some(request),
                )
            },
            None => (self.with_status("No folder selected for upload"@), None),
        }
    }

    /// The cache without what it holds for the current directory.
    pub open spec fn forgetting_current(self) -> AppView {
        match self.current_folder {
            Some(folder) => self.caching(self.cache.remove(folder)),
            None => self,
        }
    }

    /// After an upload the current directory is no longer what the cache
    /// holds for it: its entry is dropped, and its assets are listed anew
    /// before any other work.
    #[verifier::opaque]
    pub open spec fn complete_upload(
        self,
        file_path: Seq<char>,
        response: ResponseView,
        now: MomentView,
    ) -> AppView {
        match response {
            ResponseView::Done => AppView {
                tasks: seq![TaskView::LoadAssets] + self.tasks,
                ..self.forgetting_current().succeeded(
                    "Successfully uploaded: "@ + file_path,
                    now.stamp,
                )
            },
            _ => self.failed("Upload failed: "@, response.failure(), now.stamp),
        }
    }

    /// Copying the selected log line, or only its command, if a line is
    /// selected.
    #[verifier::opaque]
    pub open spec fn begin_copy(self, command_only: bool) -> (AppView, Option<RequestView>) {
        match self.log.selected() {
            Some(entry) => {
                let text = if command_only {
                    command_of_entry(entry)
                } else {
                    entry
                };
                (
                    AppView { awaiting: Some(AwaitingView::Copy(command_only)), ..self },
                    Some(RequestView::CopyText { text }),
                )
            },
            None => (self, None),
        }
    }

    /// The clipboard is no backend: only the status says what came of it.
    #[verifier::opaque]
    pub open spec fn complete_copy(self, command_only: bool, response: ResponseView) -> AppView {
        let status = match response {
            ResponseView::Done => if command_only {
                "Command copied to clipboard"@
            } else {
                "Log entry copied to clipboard"@
            },
            ResponseView::Unavailable => "Clipboard not available"@,
            _ => if command_only {
                "Failed to copy command to clipboard: "@ + response.failure()
            } else {
                "Failed to copy to clipboard: "@ + response.failure()
            },
        };
        AppView { status_message: status, awaiting: None, ..self }
    }

    /// One step of work: the state after it, and the request that it sends
    /// out, if any.
    pub open spec fn begin(self, task: TaskView, now: MomentView) -> (AppView, Option<RequestView>) {
        match task {
            TaskView::LoadFolders => self.begin_load_folders(now),
            TaskView::LoadAssets => self.begin_load_assets(now),
            TaskView::ClearAssets => (
                AppView { assets: Seq::empty(), selected_asset_index: 0, ..self },
                None,
            ),
            TaskView::Prefetch => self.begin_prefetch(now),
            TaskView::PrefetchIfMoved(previous) => {
                if self.active_pane == ActivePane::Folders && previous
                    != self.selected_folder_index {
                    self.begin_prefetch(now)
                } else {
                    (self, None)
                }
            },
            TaskView::ResetSelection => (
                AppView {
                    selected_folder_index: default_index(self.folders),
                    selected_asset_index: 0,
                    ..self
                },
                None,
            ),
            TaskView::Reselect(came_from) => (
                AppView { selected_folder_index: reselected(self.folders, came_from), ..self },
                None,
            ),
            TaskView::ShowAssets => (AppView { current_state: AppState::Assets, ..self }, None),
            TaskView::Search => self.begin_search(),
            TaskView::Match(uuid) => self.begin_match(uuid),
            TaskView::ShowMatches(name) => (
                AppView {
                    show_geometric_match_modal: true,
                    status_message: "Geometric match performed on: "@ + name,
                    ..self
                },
                None,
            ),
            TaskView::Details => self.begin_details(),
            TaskView::Download { uuid, name } => self.begin_download(uuid, name),
            TaskView::Upload(file_path) => self.begin_upload(file_path),
            TaskView::Copy(command_only) => self.begin_copy(command_only),
        }
    }

    /// Taking in the response to the request that is out.
    pub open spec fn complete(
        self,
        awaiting: AwaitingView,
        response: ResponseView,
        now: MomentView,
    ) -> AppView {
        match awaiting {
            AwaitingView::Folders(path) => self.complete_folders(path, response, now),
            AwaitingView::CurrentAssets(path) => self.complete_current_assets(path, response, now),
            AwaitingView::SelectedAssets { path, name } => self.complete_selected_assets(
                path,
                name,
                response,
                now,
            ),
            AwaitingView::Details(name) => self.complete_details(name, response, now),
            AwaitingView::Search => self.complete_search(response, now),
            AwaitingView::Matches => self.complete_match(response, now),
            AwaitingView::Download(name) => self.complete_download(name, response, now),
            AwaitingView::Upload(file_path) => self.complete_upload(file_path, response, now),
            AwaitingView::Copy(command_only) => self.complete_copy(command_only, response),
        }
    }

    /// Doing the work that is planned, step by step, until a step sends out
    /// a request or nothing is left to do. While a request is out, this work
    /// waits.
    pub open spec fn run(self, now: MomentView) -> (AppView, Option<RequestView>)
        decreases self.tasks.len(),
    {
        if self.awaiting.is_some() || self.tasks.len() == 0 {
            (self, None)
        } else {
            let rest = self.tasks.drop_first();
            let (next, request) = self.with_tasks(rest).begin(self.tasks[0], now);
            let next = next.with_tasks(rest);
            match request {
                Some(r) => (next, Some(r)),
                None => next.run(now),
            }
        }
    }

    /// Taking in a response, and going on with the work. A response that
    /// nothing waits for changes nothing.
    pub open spec fn resume(self, response: ResponseView, now: MomentView) -> (
        AppView,
        Option<RequestView>,
    ) {
        match self.awaiting {
            Some(awaiting) => AppView { awaiting: None, ..self }.complete(
                awaiting,
                response,
                now,
            ).run(now),
            None => (self, None),
        }
    }
}

} // verus!
