//! The steps of work and the taking in of responses, as the browser carries
//! them out. Each function does what the function of the same name does to
//! the mathematical state.

use crate::app::{count_message, join, join3, text_view, App};
use crate::clock::Moment;
use crate::listing::{assets_of_folder, found_assets, match_rows, root_folders, subfolders};
use crate::log::extract_command_from_log_entry;
use crate::model::{
    copy_assets, copy_folders, ActivePane, AppState, Folder, FolderView, SearchModalFocus,
};
use crate::protocol::{request_view, Request, Response};
use crate::state::{
    default_index, is_first_named, is_first_with_id, position_by_id, position_by_name, reselected,
    AppView, Awaiting, Task, TaskView,
};
use crate::text::{is_blank_text, same_text};
use vstd::prelude::*;

verus! {

/// At most one place is the place of the first folder of a name.
pub proof fn lemma_first_named_unique(folders: Seq<FolderView>, name: Seq<char>, i: int)
    requires
        is_first_named(folders, name, i),
    ensures
        position_by_name(folders, name) == Some(i),
{
    let k = choose|k: int| is_first_named(folders, name, k);
    assert(is_first_named(folders, name, k));
    if k < i {
        assert(folders[k].name != name);
    } else if i < k {
        assert(folders[i].name != name);
    }
}

/// At most one place is the place of the first folder with an id.
pub proof fn lemma_first_with_id_unique(folders: Seq<FolderView>, id: Seq<char>, i: int)
    requires
        is_first_with_id(folders, id, i),
    ensures
        position_by_id(folders, id) == Some(i),
{
    let k = choose|k: int| is_first_with_id(folders, id, k);
    assert(is_first_with_id(folders, id, k));
    if k < i {
        assert(folders[k].uuid != id);
    } else if i < k {
        assert(folders[i].uuid != id);
    }
}

/// The place of the first folder named `name`.
pub fn find_by_name(folders: &Vec<Folder>, name: &str) -> (r: Option<usize>)
    ensures
        match r {
            Some(i) => position_by_name(folders.deep_view(), name@) == Some(i as int) && i
                < folders.len(),
            None => position_by_name(folders.deep_view(), name@).is_none(),
        },
{
    let mut i: usize = 0;
    while i < folders.len()
        invariant
            i <= folders.len(),
            forall|j: int| 0 <= j < i ==> folders.deep_view()[j].name != name@,
        decreases folders.len() - i,
    {
        if same_text(folders[i].name.as_str(), name) {
            proof {
                lemma_first_named_unique(folders.deep_view(), name@, i as int);
            }
            return Some(i);
        }
        i += 1;
    }
    assert forall|k: int| !is_first_named(folders.deep_view(), name@, k) by {}
    None
}

/// The place of the first folder with the id `id`.
pub fn find_by_id(folders: &Vec<Folder>, id: &str) -> (r: Option<usize>)
    ensures
        match r {
            Some(i) => position_by_id(folders.deep_view(), id@) == Some(i as int) && i
                < folders.len(),
            None => position_by_id(folders.deep_view(), id@).is_none(),
        },
{
    let mut i: usize = 0;
    while i < folders.len()
        invariant
            i <= folders.len(),
            forall|j: int| 0 <= j < i ==> folders.deep_view()[j].uuid != id@,
        decreases folders.len() - i,
    {
        if same_text(folders[i].uuid.as_str(), id) {
            proof {
                lemma_first_with_id_unique(folders.deep_view(), id@, i as int);
            }
            return Some(i);
        }
        i += 1;
    }
    assert forall|k: int| !is_first_with_id(folders.deep_view(), id@, k) by {}
    None
}

/// Where the folder selection starts in a listing.
pub fn start_index(folders: &Vec<Folder>) -> (r: usize)
    ensures
        r == default_index(folders.deep_view()),
{
    if folders.len() > 1 && folders[0].is_sentinel() {
        1
    } else {
        0
    }
}

/// Where the folder selection stands after coming back from `came_from`.
pub fn reselect_index(folders: &Vec<Folder>, came_from: &str) -> (r: usize)
    ensures
        r == reselected(folders.deep_view(), came_from@),
{
    match find_by_name(folders, came_from) {
        Some(i) => i,
        None => match find_by_id(folders, came_from) {
            Some(i) => i,
            None => start_index(folders),
        },
    }
}

/// No step of work changes the work that is planned.
pub proof fn lemma_begin_keeps_tasks(s: AppView, task: TaskView, now: crate::clock::MomentView)
    ensures
        s.begin(task, now).0.tasks == s.tasks,
{
    reveal(AppView::begin_load_folders);
    reveal(AppView::begin_load_assets);
    reveal(AppView::begin_prefetch);
    reveal(AppView::begin_search);
    reveal(AppView::begin_match);
    reveal(AppView::begin_details);
    reveal(AppView::begin_download);
    reveal(AppView::begin_upload);
    reveal(AppView::begin_copy);
}

impl App {
    pub(crate) fn list_assets(&mut self, assets: Vec<crate::model::Asset>)
        ensures
            final(self)@ == old(self)@.listing_assets(assets.deep_view()),
    {
        self.assets = assets;
    }

    pub(crate) fn list_folders(&mut self, folders: Vec<Folder>)
        ensures
            final(self)@ == old(self)@.listing_folders(folders.deep_view()),
    {
        self.folders = folders;
    }

    pub(crate) fn mark_loading(&mut self, loading: bool)
        ensures
            final(self)@ == old(self)@.marked_loading(loading),
    {
        self.assets_loading_for_selection = loading;
    }

    pub(crate) fn cache_folders(&mut self, path: String, folders: Vec<Folder>, now: i64)
        ensures
            final(self)@ == old(self)@.caching(
                crate::cache::with_folders(old(self)@.cache, path@, folders.deep_view(), now),
            ),
    {
        self.folder_cache.put_folders(path, folders, now);
    }

    pub(crate) fn cache_assets(&mut self, path: String, assets: Vec<crate::model::Asset>, now: i64)
        ensures
            final(self)@ == old(self)@.caching(
                crate::cache::with_assets(old(self)@.cache, path@, assets.deep_view(), now),
            ),
    {
        self.folder_cache.put_assets(path, assets, now);
    }

    pub(crate) fn take_folders(
        &mut self,
        key: String,
        folders: Vec<Folder>,
        status: String,
        now: &Moment,
    )
        ensures
            final(self)@ == old(self)@.took_folders(key@, folders.deep_view(), status@, now@),
    {
        let copy = copy_folders(&folders);
        self.list_folders(folders);
        self.cache_folders(key, copy, now.epoch_millis);
        self.succeed(status, now.stamp.as_str());
        self.clamp_selections();
    }

    pub(crate) fn take_assets(
        &mut self,
        path: String,
        assets: Vec<crate::model::Asset>,
        status: String,
        now: &Moment,
    )
        ensures
            final(self)@ == old(self)@.took_assets(path@, assets.deep_view(), status@, now@),
    {
        let copy = copy_assets(&assets);
        self.list_assets(assets);
        self.cache_assets(path, copy, now.epoch_millis);
        self.succeed(status, now.stamp.as_str());
        self.clamp_selections();
    }

    pub(crate) fn forget_current(&mut self)
        ensures
            final(self)@ == old(self)@.forgetting_current(),
    {
        let folder = match &self.current_folder {
            Some(folder) => Some(folder.clone()),
            None => None,
        };
        match folder {
            Some(folder) => self.folder_cache.invalidate(folder.as_str()),
            None => {},
        }
    }

    /// Lists the folders of the current directory, from the cache where it
    /// holds them fresh.
    pub fn begin_load_folders(&mut self, now: &Moment) -> (r: Option<Request>)
        ensures
            (final(self)@, request_view(r)) == old(self)@.begin_load_folders(now@),
    {
        reveal(AppView::begin_load_folders);
        let request = match &self.current_folder {
            Some(path) => Request::ListSubfolders { path: path.clone() },
            None => Request::ListFolders,
        };
        let key = match &self.current_folder {
            Some(path) => path.clone(),
            None => String::new(),
        };
        let below_root = self.current_folder.is_some();
        match self.folder_cache.folders(key.as_str(), now.epoch_millis) {
            Some(folders) => {
                let status = if below_root {
                    count_message("Loaded ", folders.len(), " subfolders from cache")
                } else {
                    count_message("Loaded ", folders.len(), " top-level folders from cache")
                };
                let assets = if below_root {
                    self.folder_cache.assets(key.as_str(), now.epoch_millis)
                } else {
                    None
                };
                self.list_folders(folders);
                match assets {
                    Some(assets) => self.list_assets(assets),
                    None => {},
                }
                self.reuse(&request, status, now.stamp.as_str());
                self.clamp_selections();
                None
            },
            None => {
                let status = match &self.current_folder {
                    Some(path) => join3("Loading subfolders for ", path.as_str(), "..."),
                    None => "Loading all folders...".to_owned(),
                };
                let awaiting = Awaiting::Folders(
                    match &self.current_folder {
                        Some(path) => Some(path.clone()),
                        None => None,
                    },
                );
                self.start(&request, status, awaiting);
                Some(request)
            },
        }
    }

    /// Takes in the folders of the directory `path`, or of the root.
    pub fn complete_folders(&mut self, path: Option<String>, response: Response, now: &Moment)
        ensures
            final(self)@ == old(self)@.complete_folders(text_view(path), response@, now@),
    {
        reveal(AppView::complete_folders);
        match response {
            Response::Folders(records) => {
                let folders = match &path {
                    Some(p) => subfolders(p.as_str(), records),
                    None => root_folders(records),
                };
                let status = if path.is_some() {
                    count_message("Loaded ", folders.len(), " subfolders")
                } else {
                    count_message("Loaded ", folders.len(), " top-level folders")
                };
                let key = match path {
                    Some(p) => p,
                    None => String::new(),
                };
                self.take_folders(key, folders, status, now);
            },
            other => {
                let message = other.failure();
                if path.is_some() {
                    self.fail("Error loading subfolders: ", message.as_str(), now.stamp.as_str());
                } else {
                    self.fail("Error loading folders: ", message.as_str(), now.stamp.as_str());
                }
            },
        }
    }

    /// Lists the assets of the current directory, from the cache where it
    /// holds them fresh.
    pub fn begin_load_assets(&mut self, now: &Moment) -> (r: Option<Request>)
        ensures
            (final(self)@, request_view(r)) == old(self)@.begin_load_assets(now@),
    {
        reveal(AppView::begin_load_assets);
        let path = match &self.current_folder {
            Some(path) => path.clone(),
            None => {
                self.set_status("No folder selected".to_owned());
                return None;
            },
        };
        let request = Request::ListAssets { path: path.clone() };
        match self.folder_cache.assets(path.as_str(), now.epoch_millis) {
            Some(assets) => {
                let status = count_message("Loaded ", assets.len(), " assets from cache");
                self.list_assets(assets);
                self.reuse(&request, status, now.stamp.as_str());
                self.clamp_selections();
                None
            },
            None => {
                self.start(
                    &request,
                    "Loading assets...".to_owned(),
                    Awaiting::CurrentAssets(path),
                );
                Some(request)
            },
        }
    }

    /// Takes in the assets of the current directory `path`.
    pub fn complete_current_assets(&mut self, path: String, response: Response, now: &Moment)
        ensures
            final(self)@ == old(self)@.complete_current_assets(path@, response@, now@),
    {
        reveal(AppView::complete_current_assets);
        match response {
            Response::Assets(records) => {
                let assets = assets_of_folder(records, path.as_str());
                let status = count_message("Loaded ", assets.len(), " assets");
                self.take_assets(path, assets, status, now);
            },
            other => {
                let message = other.failure();
                self.fail("Error loading assets: ", message.as_str(), now.stamp.as_str());
            },
        }
    }

    /// Lists the assets of the selected folder, from the cache where it holds
    /// them fresh.
    pub fn begin_prefetch(&mut self, now: &Moment) -> (r: Option<Request>)
        ensures
            (final(self)@, request_view(r)) == old(self)@.begin_prefetch(now@),
    {
        reveal(AppView::begin_prefetch);
        if self.selected_folder_index >= self.folders.len() {
            return None;
        }
        let folder = &self.folders[self.selected_folder_index];
        if folder.is_sentinel() {
            let none: Vec<crate::model::Asset> = Vec::new();
            assert(none.deep_view() =~= Seq::empty());
            self.list_assets(none);
            self.clamp_selections();
            return None;
        }
        let path = folder.path.clone();
        let name = folder.name.clone();
        let request = Request::ListAssets { path: path.clone() };
        match self.folder_cache.assets(path.as_str(), now.epoch_millis) {
            Some(assets) => {
                let head = count_message("Loaded ", assets.len(), " assets from cache for ");
                let status = join(head.as_str(), name.as_str());
                self.list_assets(assets);
                self.reuse(&request, status, now.stamp.as_str());
                self.clamp_selections();
                None
            },
            None => {
                let status = join3("Loading assets for ", name.as_str(), "...");
                self.start(&request, status, Awaiting::SelectedAssets { path, name });
                self.mark_loading(true);
                Some(request)
            },
        }
    }

    /// Takes in the assets of the selected folder.
    pub fn complete_selected_assets(
        &mut self,
        path: String,
        name: String,
        response: Response,
        now: &Moment,
    )
        ensures
            final(self)@ == old(self)@.complete_selected_assets(path@, name@, response@, now@),
    {
        reveal(AppView::complete_selected_assets);
        self.mark_loading(false);
        match response {
            Response::Assets(records) => {
                let assets = assets_of_folder(records, path.as_str());
                let head = count_message("Loaded ", assets.len(), " assets for ");
                let status = join(head.as_str(), name.as_str());
                self.take_assets(path, assets, status, now);
            },
            other => {
                let message = other.failure();
                let head = join3("Error loading assets for ", name.as_str(), ": ");
                self.fail(head.as_str(), message.as_str(), now.stamp.as_str());
            },
        }
    }

    /// Searches for the query, unless it is blank.
    pub fn begin_search(&mut self) -> (r: Option<Request>)
        ensures
            (final(self)@, request_view(r)) == old(self)@.begin_search(),
    {
        reveal(AppView::begin_search);
        if is_blank_text(self.search_query.as_str()) {
            self.set_status("Empty search query".to_owned());
            return None;
        }
        let request = Request::SearchAssets { query: self.search_query.clone() };
        let status = join("Searching for: ", self.search_query.as_str());
        self.start(&request, status, Awaiting::Search);
        Some(request)
    }

    /// Takes in what a search found.
    pub fn complete_search(&mut self, response: Response, now: &Moment)
        ensures
            final(self)@ == old(self)@.complete_search(response@, now@),
    {
        reveal(AppView::complete_search);
        match response {
            Response::Assets(records) => {
                let results = found_assets(records);
                let status = count_message("Found ", results.len(), " assets");
                self.search_results = results;
                self.search_modal_focus = SearchModalFocus::Results;
                self.succeed(status, now.stamp.as_str());
                self.clamp_selections();
            },
            other => {
                let message = other.failure();
                self.fail("Search failed: ", message.as_str(), now.stamp.as_str());
            },
        }
    }

    /// Matches the asset `uuid` geometrically.
    pub fn begin_match(&mut self, uuid: String) -> (r: Option<Request>)
        ensures
            (final(self)@, request_view(r)) == old(self)@.begin_match(uuid@),
    {
        reveal(AppView::begin_match);
        let status = join("Performing geometric match on asset: ", uuid.as_str());
        let request = Request::GeometricMatch { uuid };
        self.start(&request, status, Awaiting::Matches);
        Some(request)
    }

    /// Takes in the results of a geometric match.
    pub fn complete_match(&mut self, response: Response, now: &Moment)
        ensures
            final(self)@ == old(self)@.complete_match(response@, now@),
    {
        reveal(AppView::complete_match);
        match response {
            Response::Matches(records) => {
                let results = match_rows(records);
                let status = count_message("Found ", results.len(), " geometric matches");
                self.geometric_match_results = results;
                self.succeed(status, now.stamp.as_str());
                self.clamp_selections();
            },
            other => {
                let message = other.failure();
                self.fail("Geometric match failed: ", message.as_str(), now.stamp.as_str());
            },
        }
    }

    /// Fetches the details of the selected asset, if there is one.
    pub fn begin_details(&mut self) -> (r: Option<Request>)
        ensures
            (final(self)@, request_view(r)) == old(self)@.begin_details(),
    {
        reveal(AppView::begin_details);
        if self.selected_asset_index >= self.assets.len() {
            return None;
        }
        let asset = &self.assets[self.selected_asset_index];
        let name = asset.name.clone();
        let request = Request::AssetDetails { uuid: asset.uuid.clone() };
        let status = join("Loading details for asset: ", name.as_str());
        self.start(&request, status, Awaiting::Details(name));
        Some(request)
    }

    /// Takes in the details of the asset `name`.
    pub fn complete_details(&mut self, name: String, response: Response, now: &Moment)
        ensures
            final(self)@ == old(self)@.complete_details(name@, response@, now@),
    {
        reveal(AppView::complete_details);
        match response {
            Response::Details(details) => {
                self.selected_asset_details = Some(details);
                self.show_asset_details_modal = true;
                let status = join("Loaded details for ", name.as_str());
                self.succeed(status, now.stamp.as_str());
            },
            other => {
                let message = other.failure();
                self.fail("Failed to load asset details: ", message.as_str(), now.stamp.as_str());
            },
        }
    }

    /// Downloads the asset `uuid`, named `name`.
    pub fn begin_download(&mut self, uuid: String, name: String) -> (r: Option<Request>)
        ensures
            (final(self)@, request_view(r)) == old(self)@.begin_download(uuid@, name@),
    {
        reveal(AppView::begin_download);
        let status = join3("Downloading asset: ", name.as_str(), "...");
        let request = Request::DownloadAsset { uuid };
        self.start(&request, status, Awaiting::Download(name));
        Some(request)
    }

    /// Takes in what came of the download of the asset `name`.
    pub fn complete_download(&mut self, name: String, response: Response, now: &Moment)
        ensures
            final(self)@ == old(self)@.complete_download(name@, response@, now@),
    {
        reveal(AppView::complete_download);
        match response {
            Response::Done => {
                let status = join("Successfully downloaded: ", name.as_str());
                self.succeed(status, now.stamp.as_str());
            },
            other => {
                let message = other.failure();
                self.fail("Download failed: ", message.as_str(), now.stamp.as_str());
            },
        }
    }

    /// Uploads the file `file_path` to the current directory, if there is one.
    pub fn begin_upload(&mut self, file_path: String) -> (r: Option<Request>)
        ensures
            (final(self)@, request_view(r)) == old(self)@.begin_upload(file_path@),
    {
        reveal(AppView::begin_upload);
        let folder = match &self.current_folder {
            Some(folder) => folder.clone(),
            None => {
                self.set_status("No folder selected for upload".to_owned());
                return None;
            },
        };
        let status = join3("Uploading asset: ", file_path.as_str(), "...");
        let request = Request::UploadAsset { file_path: file_path.clone(), folder };
        self.start(&request, status, Awaiting::Upload(file_path));
        Some(request)
    }

    /// Takes in what came of the upload of the file `file_path`.
    pub fn complete_upload(&mut self, file_path: String, response: Response, now: &Moment)
        ensures
            final(self)@ == old(self)@.complete_upload(file_path@, response@, now@),
    {
        reveal(AppView::complete_upload);
        match response {
            Response::Done => {
                let status = join("Successfully uploaded: ", file_path.as_str());
                self.forget_current();
                self.succeed(status, now.stamp.as_str());
                self.tasks.insert(0, Task::LoadAssets);
                assert(self.tasks.deep_view() =~= seq![TaskView::LoadAssets] + old(
                    self,
                ).tasks.deep_view());
            },
            other => {
                let message = other.failure();
                self.fail("Upload failed: ", message.as_str(), now.stamp.as_str());
            },
        }
    }

    /// Copies the selected log line, or only its command, if a line is
    /// selected.
    pub fn begin_copy(&mut self, command_only: bool) -> (r: Option<Request>)
        ensures
            (final(self)@, request_view(r)) == old(self)@.begin_copy(command_only),
    {
        reveal(AppView::begin_copy);
        match self.log.selected_entry() {
            Some(entry) => {
                let text = if command_only {
                    extract_command_from_log_entry(entry.as_str())
                } else {
                    entry
                };
                self.awaiting = Some(Awaiting::Copy(command_only));
                Some(Request::CopyText { text })
            },
            None => None,
        }
    }

    /// Takes in what came of a copy to the clipboard.
    pub fn complete_copy(&mut self, command_only: bool, response: Response)
        ensures
            final(self)@ == old(self)@.complete_copy(command_only, response@),
    {
        reveal(AppView::complete_copy);
        let status = match response {
            Response::Done => if command_only {
                "Command copied to clipboard".to_owned()
            } else {
                "Log entry copied to clipboard".to_owned()
            },
            Response::Unavailable => "Clipboard not available".to_owned(),
            other => {
                let message = other.failure();
                if command_only {
                    join("Failed to copy command to clipboard: ", message.as_str())
                } else {
                    join("Failed to copy to clipboard: ", message.as_str())
                }
            },
        };
        self.status_message = status;
        self.awaiting = None;
    }

    /// Carries out one step of work.
    pub fn begin(&mut self, task: Task, now: &Moment) -> (r: Option<Request>)
        ensures
            (final(self)@, request_view(r)) == old(self)@.begin(task@, now@),
            final(self)@.tasks == old(self)@.tasks,
    {
        proof {
            lemma_begin_keeps_tasks(old(self)@, task@, now@);
        }
        match task {
            Task::LoadFolders => self.begin_load_folders(now),
            Task::LoadAssets => self.begin_load_assets(now),
            Task::ClearAssets => {
                self.assets = Vec::new();
                self.selected_asset_index = 0;
                assert(self.assets.deep_view() =~= Seq::empty());
                None
            },
            Task::Prefetch => self.begin_prefetch(now),
            Task::PrefetchIfMoved(previous) => {
                if self.active_pane == ActivePane::Folders && previous
                    != self.selected_folder_index {
                    self.begin_prefetch(now)
                } else {
                    None
                }
            },
            Task::ResetSelection => {
                self.selected_folder_index = start_index(&self.folders);
                self.selected_asset_index = 0;
                None
            },
            Task::Reselect(came_from) => {
                self.selected_folder_index = reselect_index(&self.folders, came_from.as_str());
                None
            },
            Task::ShowAssets => {
                self.current_state = AppState::Assets;
                None
            },
            Task::Search => self.begin_search(),
            Task::Match(uuid) => self.begin_match(uuid),
            Task::ShowMatches(name) => {
                self.show_geometric_match_modal = true;
                self.status_message = join("Geometric match performed on: ", name.as_str());
                None
            },
            Task::Details => self.begin_details(),
            Task::Download { uuid, name } => self.begin_download(uuid, name),
            Task::Upload(file_path) => self.begin_upload(file_path),
            Task::Copy(command_only) => self.begin_copy(command_only),
        }
    }

    /// Takes in the response to the request that is out.
    pub fn complete(&mut self, awaiting: Awaiting, response: Response, now: &Moment)
        ensures
            final(self)@ == old(self)@.complete(awaiting@, response@, now@),
    {
        match awaiting {
            Awaiting::Folders(path) => self.complete_folders(path, response, now),
            Awaiting::CurrentAssets(path) => self.complete_current_assets(path, response, now),
            Awaiting::SelectedAssets { path, name } => self.complete_selected_assets(
                path,
                name,
                response,
                now,
            ),
            Awaiting::Details(name) => self.complete_details(name, response, now),
            Awaiting::Search => self.complete_search(response, now),
            Awaiting::Matches => self.complete_match(response, now),
            Awaiting::Download(name) => self.complete_download(name, response, now),
            Awaiting::Upload(file_path) => self.complete_upload(file_path, response, now),
            Awaiting::Copy(command_only) => self.complete_copy(command_only, response),
        }
    }

    /// Does the work that is planned, step by step, until a step sends out
    /// a request or nothing is left to do.
    pub fn run(&mut self, now: &Moment) -> (r: Option<Request>)
        ensures
            (final(self)@, request_view(r)) == old(self)@.run(now@),
            old(self).wf() ==> final(self).wf(),
    {
        proof {
            if old(self).wf() {
                crate::laws::law_work_keeps_selections_in_range(old(self)@, now@);
            }
        }
        loop
            invariant
                self@.run(now@) == old(self)@.run(now@),
                old(self).wf() ==> old(self)@.run(now@).0.wf(),
            decreases self.tasks.len(),
        {
            if self.awaiting.is_some() || self.tasks.len() == 0 {
                return None;
            }
            let ghost before = self@;
            let task = self.tasks.remove(0);
            assert(self.tasks.deep_view() =~= before.tasks.drop_first());
            assert(self@ == before.with_tasks(before.tasks.drop_first()));
            let request = self.begin(task, now);
            assert(self@ == self@.with_tasks(before.tasks.drop_first()));
            if request.is_some() {
                return request;
            }
        }
    }

    /// Takes in a response and goes on with the work. The result is the
    /// next request, if the work needs one.
    pub fn resume(&mut self, response: Response, now: &Moment) -> (r: Option<Request>)
        ensures
            (final(self)@, request_view(r)) == old(self)@.resume(response@, now@),
            old(self)@.waiting() ==> final(self)@.answers(request_view(r)),
            old(self).wf() ==> final(self).wf(),
    {
        proof {
            if old(self)@.waiting() {
                crate::laws::law_responses_are_answered(old(self)@, response@, now@);
            }
            if old(self).wf() {
                crate::laws::law_resuming_keeps_selections_in_range(old(self)@, response@, now@);
            }
        }
        match self.awaiting.take() {
            Some(awaiting) => {
                self.complete(awaiting, response, now);
                self.run(now)
            },
            None => None,
        }
    }
}

} // verus!
