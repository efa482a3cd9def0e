//! The browser: everything it shows, and the bookkeeping of the work it
//! has planned and of the one request it may have out.

use crate::cache::CacheManager;
use crate::input::clamp;
use crate::log::{cached_entry, error_entry, success_entry, CommandLog, CommandLogView};
use crate::model::{
    ActivePane, AppState, Asset, AssetDetails, Folder, GeometricMatch, SearchModalFocus,
};
use crate::protocol::Request;
use crate::state::{AppView, Awaiting, Task};
use crate::text::{push_decimal, push_text};
use vstd::prelude::*;

verus! {

/// The view of an optional text.
pub open spec fn text_view(text: Option<String>) -> Option<Seq<char>> {
    match text {
        Some(t) => Some(t@),
        None => None,
    }
}

/// The state of the browser.
pub struct App {
    pub current_state: AppState,
    pub active_pane: ActivePane,
    pub status_message: String,
    pub should_quit: bool,
    /// Whether a call of the backend is out.
    pub command_in_progress: bool,
    /// Whether the assets of the selected folder are being listed.
    pub assets_loading_for_selection: bool,
    /// The path of the directory that is shown; `None` at the root.
    pub current_folder: Option<String>,
    /// The folders of the directory, after the entry that leads to its
    /// parent where it has one.
    pub folders: Vec<Folder>,
    pub assets: Vec<Asset>,
    pub selected_folder_index: usize,
    pub selected_asset_index: usize,
    /// The name of the folder that was entered last.
    pub last_entered_folder_path: Option<String>,
    pub folder_cache: CacheManager,
    pub log: CommandLog,
    pub show_search_modal: bool,
    pub search_query: String,
    pub search_input_buffer: String,
    pub search_results: Vec<Asset>,
    pub search_modal_focus: SearchModalFocus,
    pub selected_search_result_index: usize,
    pub geometric_match_results: Vec<GeometricMatch>,
    pub show_geometric_match_modal: bool,
    pub geometric_match_scroll_position: usize,
    pub geometric_match_horizontal_scroll: u16,
    pub show_asset_details_modal: bool,
    pub selected_asset_details: Option<AssetDetails>,
    pub resize_mode_active: bool,
    pub resize_delta_x: i32,
    pub resize_delta_y: i32,
    /// The work that is planned, in its order.
    pub tasks: Vec<Task>,
    /// The request that is out, if one is.
    pub awaiting: Option<Awaiting>,
}

impl View for App {
    type V = AppView;

    open spec fn view(&self) -> AppView {
        AppView {
            current_state: self.current_state,
            active_pane: self.active_pane,
            status_message: self.status_message@,
            should_quit: self.should_quit,
            command_in_progress: self.command_in_progress,
            assets_loading_for_selection: self.assets_loading_for_selection,
            current_folder: text_view(self.current_folder),
            folders: self.folders.deep_view(),
            assets: self.assets.deep_view(),
            selected_folder_index: self.selected_folder_index,
            selected_asset_index: self.selected_asset_index,
            last_entered_folder_path: text_view(self.last_entered_folder_path),
            cache: self.folder_cache@,
            log: self.log@,
            show_search_modal: self.show_search_modal,
            search_query: self.search_query@,
            search_input_buffer: self.search_input_buffer@,
            search_results: self.search_results.deep_view(),
            search_modal_focus: self.search_modal_focus,
            selected_search_result_index: self.selected_search_result_index,
            geometric_match_results: self.geometric_match_results.deep_view(),
            show_geometric_match_modal: self.show_geometric_match_modal,
            geometric_match_scroll_position: self.geometric_match_scroll_position,
            geometric_match_horizontal_scroll: self.geometric_match_horizontal_scroll,
            show_asset_details_modal: self.show_asset_details_modal,
            selected_asset_details: match self.selected_asset_details {
                Some(details) => Some(details@),
                None => None,
            },
            resize_mode_active: self.resize_mode_active,
            resize_delta_x: self.resize_delta_x,
            resize_delta_y: self.resize_delta_y,
            tasks: self.tasks.deep_view(),
            awaiting: match self.awaiting {
                Some(awaiting) => Some(awaiting@),
                None => None,
            },
        }
    }
}

/// The browser as it starts: at the root, with nothing listed yet.
pub open spec fn initial_view() -> AppView {
    AppView {
        current_state: AppState::Folders,
        active_pane: ActivePane::Folders,
        status_message: "Ready"@,
        should_quit: false,
        command_in_progress: false,
        assets_loading_for_selection: false,
        current_folder: None,
        folders: Seq::empty(),
        assets: Seq::empty(),
        selected_folder_index: 0,
        selected_asset_index: 0,
        last_entered_folder_path: None,
        cache: Map::empty(),
        log: CommandLogView::fresh(),
        show_search_modal: false,
        search_query: Seq::empty(),
        search_input_buffer: Seq::empty(),
        search_results: Seq::empty(),
        search_modal_focus: SearchModalFocus::Input,
        selected_search_result_index: 0,
        geometric_match_results: Seq::empty(),
        show_geometric_match_modal: false,
        geometric_match_scroll_position: 0,
        geometric_match_horizontal_scroll: 0,
        show_asset_details_modal: false,
        selected_asset_details: None,
        resize_mode_active: false,
        resize_delta_x: 0,
        resize_delta_y: 0,
        tasks: Seq::empty(),
        awaiting: None,
    }
}

/// `head`, the number `n` in decimal, and `tail`.
pub fn count_message(head: &str, n: usize, tail: &str) -> (r: String)
    ensures
        r@ == crate::state::counted(head@, n as nat, tail@),
{
    let mut r = String::new();
    push_text(&mut r, head);
    push_decimal(&mut r, n as u64);
    push_text(&mut r, tail);
    assert(r@ =~= crate::state::counted(head@, n as nat, tail@));
    r
}

/// Two texts, one after the other.
pub fn join(a: &str, b: &str) -> (r: String)
    ensures
        r@ == a@ + b@,
{
    let mut r = String::new();
    push_text(&mut r, a);
    push_text(&mut r, b);
    assert(r@ =~= a@ + b@);
    r
}

/// Three texts, one after the other.
pub fn join3(a: &str, b: &str, c: &str) -> (r: String)
    ensures
        r@ == a@ + b@ + c@,
{
    let mut r = String::new();
    push_text(&mut r, a);
    push_text(&mut r, b);
    push_text(&mut r, c);
    assert(r@ =~= a@ + b@ + c@);
    r
}

impl App {
    /// Whether every selection stands on an entry of its list and the log is
    /// well formed.
    pub open spec fn wf(&self) -> bool {
        self@.wf()
    }

    /// The browser as it starts.
    pub fn new() -> (r: App)
        ensures
            r@ == initial_view(),
            r.wf(),
    {
        let r = App {
            current_state: AppState::Folders,
            active_pane: ActivePane::Folders,
            status_message: "Ready".to_owned(),
            should_quit: false,
            command_in_progress: false,
            assets_loading_for_selection: false,
            current_folder: None,
            folders: Vec::new(),
            assets: Vec::new(),
            selected_folder_index: 0,
            selected_asset_index: 0,
            last_entered_folder_path: None,
            folder_cache: CacheManager::new(),
            log: CommandLog::new(),
            show_search_modal: false,
            search_query: String::new(),
            search_input_buffer: String::new(),
            search_results: Vec::new(),
            search_modal_focus: SearchModalFocus::Input,
            selected_search_result_index: 0,
            geometric_match_results: Vec::new(),
            show_geometric_match_modal: false,
            geometric_match_scroll_position: 0,
            geometric_match_horizontal_scroll: 0,
            show_asset_details_modal: false,
            selected_asset_details: None,
            resize_mode_active: false,
            resize_delta_x: 0,
            resize_delta_y: 0,
            tasks: Vec::new(),
            awaiting: None,
        };
        assert(r.folders.deep_view() =~= Seq::empty());
        assert(r.assets.deep_view() =~= Seq::empty());
        assert(r.search_results.deep_view() =~= Seq::empty());
        assert(r.geometric_match_results.deep_view() =~= Seq::empty());
        assert(r.tasks.deep_view() =~= Seq::empty());
        r
    }

    /// Whether every selection stands on an entry of its list and the log
    /// is well formed.
    pub fn is_well_formed(&self) -> (r: bool)
        ensures
            r == self.wf(),
    {
        let folders = self.folders.len();
        let assets = self.assets.len();
        let results = self.search_results.len();
        let matches = self.geometric_match_results.len();
        (self.selected_folder_index < folders || (folders == 0 && self.selected_folder_index == 0))
            && (self.selected_asset_index < assets || (assets == 0 && self.selected_asset_index
            == 0)) && (self.selected_search_result_index < results || (results == 0
            && self.selected_search_result_index == 0)) && (self.geometric_match_scroll_position
            < matches || (matches == 0 && self.geometric_match_scroll_position == 0))
            && self.log.is_well_formed()
    }

    /// Whether a modal is open.
    pub fn modal_open(&self) -> (r: bool)
        ensures
            r == self@.modal_open(),
    {
        self.show_geometric_match_modal || self.show_asset_details_modal
            || self.show_search_modal
    }

    /// Whether no request is out, no work is planned, and no call is marked
    /// as in progress.
    pub fn is_at_rest(&self) -> (r: bool)
        ensures
            r == self@.at_rest(),
    {
        self.awaiting.is_none() && self.tasks.len() == 0 && !self.command_in_progress
    }

    /// Whether a request is out.
    pub fn is_waiting(&self) -> (r: bool)
        ensures
            r == self@.awaiting.is_some(),
    {
        self.awaiting.is_some()
    }

    /// Moves every selection to the nearest entry of its list.
    pub fn clamp_selections(&mut self)
        ensures
            final(self)@ == old(self)@.clamped(),
    {
        self.selected_folder_index = clamp(self.selected_folder_index, self.folders.len());
        self.selected_asset_index = clamp(self.selected_asset_index, self.assets.len());
        self.selected_search_result_index = clamp(
            self.selected_search_result_index,
            self.search_results.len(),
        );
        self.geometric_match_scroll_position = clamp(
            self.geometric_match_scroll_position,
            self.geometric_match_results.len(),
        );
    }

    pub(crate) fn set_status(&mut self, status: String)
        ensures
            final(self)@ == old(self)@.with_status(status@),
    {
        self.status_message = status;
    }

    /// Adds one step to the work that is planned.
    pub(crate) fn plan(&mut self, task: Task)
        ensures
            final(self)@ == old(self)@.planning(seq![task@]),
    {
        self.tasks.push(task);
        assert(self.tasks.deep_view() =~= old(self).tasks.deep_view() + seq![task@]);
    }

    /// Sends `request` out: its command is noted, and the response is
    /// awaited.
    pub(crate) fn start(&mut self, request: &Request, status: String, awaiting: Awaiting)
        ensures
            final(self)@ == old(self)@.started(request@, status@, awaiting@),
    {
        self.log.record_command(request.command());
        self.command_in_progress = true;
        self.status_message = status;
        self.awaiting = Some(awaiting);
    }

    /// Notes that the cache answered in place of `request`.
    pub(crate) fn reuse(&mut self, request: &Request, status: String, stamp: &str)
        ensures
            final(self)@ == old(self)@.reused(request@, status@, stamp@),
    {
        let command = request.command();
        let entry = cached_entry(stamp, command.as_str());
        self.log.record_command(command);
        self.log.add_log_entry(entry);
        self.status_message = status;
    }

    /// Notes that the awaited call succeeded.
    pub(crate) fn succeed(&mut self, status: String, stamp: &str)
        ensures
            final(self)@ == old(self)@.succeeded(status@, stamp@),
    {
        let entry = success_entry(stamp, self.log.last_executed_command.as_str());
        self.log.add_log_entry(entry);
        self.command_in_progress = false;
        self.status_message = status;
        self.awaiting = None;
    }

    /// Notes that the awaited call failed.
    pub(crate) fn fail(&mut self, head: &str, message: &str, stamp: &str)
        ensures
            final(self)@ == old(self)@.failed(head@, message@, stamp@),
    {
        let entry = error_entry(stamp, self.log.last_executed_command.as_str(), message);
        self.log.add_log_entry(entry);
        self.command_in_progress = false;
        self.status_message = join(head, message);
        self.awaiting = None;
    }
}

} // verus!
