//! The input dispatcher: which part of the browser a key press or a mouse
//! event goes to, and what it does there. An open modal takes every input;
//! then come the bindings that hold in every view; then those of the view.

use crate::app::App;
use crate::clock::{Moment, MomentView};
use crate::input::{step_down, step_up, stepped_down, stepped_up, KeyCode, KeyInput, MouseInput};
use crate::model::{ActivePane, AppState, SearchModalFocus};
use crate::protocol::{request_view, Request, RequestView};
use crate::state::{AppView, Task, TaskView};
use crate::text::{
    has_separator, leaf_name, leaf_of, parent_of, parent_path, push_signed_decimal, push_text,
    signed_decimal, contains_separator,
};
use vstd::prelude::*;

verus! {

/// One more, up to the largest number.
pub open spec fn raised(delta: i32) -> i32 {
    if delta < i32::MAX {
        (delta + 1) as i32
    } else {
        delta
    }
}

/// One less, down to the smallest number.
pub open spec fn lowered(delta: i32) -> i32 {
    if delta > i32::MIN {
        (delta - 1) as i32
    } else {
        delta
    }
}

/// What the status says while a pane is resized along `axis`.
pub open spec fn resize_status(axis: Seq<char>, delta: i32) -> Seq<char> {
    "Resize: Adjusting "@ + axis + " ("@ + signed_decimal(delta as int) + ")"@
}

/// What the status says when a resize is applied.
pub open spec fn applied_status(dx: i32, dy: i32) -> Seq<char> {
    "Resize applied: dx="@ + signed_decimal(dx as int) + ", dy="@ + signed_decimal(dy as int)
}

impl KeyInput {
    /// `j` or the down arrow.
    pub open spec fn is_down(self) -> bool {
        self.code == KeyCode::Down || self.code == KeyCode::Char('j')
    }

    /// `k` or the up arrow.
    pub open spec fn is_up(self) -> bool {
        self.code == KeyCode::Up || self.code == KeyCode::Char('k')
    }

    /// `q` or Esc.
    pub open spec fn is_close(self) -> bool {
        self.code == KeyCode::Esc || self.code == KeyCode::Char('q')
    }

    /// Esc or Backspace.
    pub open spec fn is_back(self) -> bool {
        self.code == KeyCode::Esc || self.code == KeyCode::Backspace
    }

    /// Shift+Tab, however the terminal reports it.
    pub open spec fn is_back_tab(self) -> bool {
        self.code == KeyCode::BackTab || (self.code == KeyCode::Tab && self.shift)
    }

    /// Tab alone.
    pub open spec fn is_tab(self) -> bool {
        self.code == KeyCode::Tab && !self.shift && !self.alt
    }

    /// Whether the key is `j` or the down arrow.
    pub fn down(&self) -> (r: bool)
        ensures
            r == self.is_down(),
    {
        self.code == KeyCode::Down || self.has_char('j')
    }

    /// Whether the key is `k` or the up arrow.
    pub fn up(&self) -> (r: bool)
        ensures
            r == self.is_up(),
    {
        self.code == KeyCode::Up || self.has_char('k')
    }

    /// Whether the key is `q` or Esc.
    pub fn close(&self) -> (r: bool)
        ensures
            r == self.is_close(),
    {
        self.code == KeyCode::Esc || self.has_char('q')
    }

    /// Whether the key is Esc or Backspace.
    pub fn back(&self) -> (r: bool)
        ensures
            r == self.is_back(),
    {
        self.code == KeyCode::Esc || self.code == KeyCode::Backspace
    }

    /// Whether the key is Shift+Tab.
    pub fn back_tab(&self) -> (r: bool)
        ensures
            r == self.is_back_tab(),
    {
        self.code == KeyCode::BackTab || (self.code == KeyCode::Tab && self.shift)
    }

    /// Whether the key is Tab alone.
    pub fn tab(&self) -> (r: bool)
        ensures
            r == self.is_tab(),
    {
        self.code == KeyCode::Tab && !self.shift && !self.alt
    }
}

/// The pane after the given one.
pub open spec fn next_pane(pane: ActivePane) -> ActivePane {
    match pane {
        ActivePane::Folders => ActivePane::Assets,
        ActivePane::Assets => ActivePane::Log,
        ActivePane::Log => ActivePane::Folders,
    }
}

/// The pane before the given one.
pub open spec fn previous_pane(pane: ActivePane) -> ActivePane {
    match pane {
        ActivePane::Folders => ActivePane::Log,
        ActivePane::Assets => ActivePane::Folders,
        ActivePane::Log => ActivePane::Assets,
    }
}

/// The other element of the search modal.
pub open spec fn other_focus(focus: SearchModalFocus) -> SearchModalFocus {
    match focus {
        SearchModalFocus::Input => SearchModalFocus::Results,
        SearchModalFocus::Results => SearchModalFocus::Input,
    }
}

impl AppView {
    /// Entering the folder `path`: its name is remembered for the way
    /// back, its cache entry is dropped, and its folders and assets are
    /// listed anew before the selections are put at its start.
    #[verifier::opaque]
    pub open spec fn entered(self, path: Seq<char>) -> AppView {
        AppView {
            last_entered_folder_path: Some(leaf_name(path)),
            current_folder: Some(path),
            cache: self.cache.remove(path),
            ..self
        }.planning(
            seq![
                TaskView::LoadFolders,
                TaskView::ClearAssets,
                TaskView::LoadAssets,
                TaskView::ResetSelection,
            ],
        )
    }

    /// Going to the parent: the directory before the last separator, or the
    /// root where the path has none. Its listings are loaded, and then the
    /// folder that was left is selected again. At the root only the status
    /// changes.
    #[verifier::opaque]
    pub open spec fn went_back(self) -> AppView {
        match self.current_folder {
            Some(path) => AppView {
                current_folder: if has_separator(path) {
                    Some(parent_path(path))
                } else {
                    None
                },
                ..self
            }.planning(
                seq![
                    TaskView::LoadFolders,
                    TaskView::LoadAssets,
                    TaskView::Reselect(leaf_name(path)),
                ],
            ),
            None => self.with_status("Already at root folder"@),
        }
    }

    /// Switching to the assets view, below the root: the assets are listed
    /// first.
    pub open spec fn switched_to_assets(self) -> AppView {
        if self.current_folder.is_some() {
            self.planning(seq![TaskView::LoadAssets, TaskView::ShowAssets])
        } else {
            self
        }
    }

    /// One step down in the active pane.
    pub open spec fn moved_down(self) -> AppView {
        match self.active_pane {
            ActivePane::Folders => AppView {
                selected_folder_index: stepped_down(
                    self.selected_folder_index,
                    self.folders.len(),
                ),
                ..self
            },
            ActivePane::Assets => AppView {
                selected_asset_index: stepped_down(self.selected_asset_index, self.assets.len()),
                ..self
            },
            ActivePane::Log => AppView { log: self.log.scrolled_down(), ..self },
        }
    }

    /// One step up in the active pane.
    pub open spec fn moved_up(self) -> AppView {
        match self.active_pane {
            ActivePane::Folders => AppView {
                selected_folder_index: stepped_up(self.selected_folder_index),
                ..self
            },
            ActivePane::Assets => AppView {
                selected_asset_index: stepped_up(self.selected_asset_index),
                ..self
            },
            ActivePane::Log => AppView { log: self.log.scrolled_up(), ..self },
        }
    }

    /// Enter in a browsing view: in the Folders pane the selected folder is
    /// entered, or the parent where the selected entry leads there; in the
    /// Assets pane the details of the selected asset are fetched.
    #[verifier::opaque]
    pub open spec fn opened(self) -> AppView {
        match self.active_pane {
            ActivePane::Folders => {
                if self.selected_folder_index < self.folders.len() {
                    let folder = self.folders[self.selected_folder_index as int];
                    if folder.is_sentinel() {
                        self.went_back()
                    } else {
                        self.entered(folder.path)
                    }
                } else {
                    self
                }
            },
            ActivePane::Assets => {
                if self.selected_asset_index < self.assets.len() {
                    self.planning(seq![TaskView::Details])
                } else {
                    self
                }
            },
            ActivePane::Log => self,
        }
    }

    /// `g`: the selected asset is matched geometrically, where the Assets
    /// pane is active and an asset is selected.
    #[verifier::opaque]
    pub open spec fn matching_selected(self) -> AppView {
        if self.active_pane == ActivePane::Assets && self.selected_asset_index
            < self.assets.len() {
            let asset = self.assets[self.selected_asset_index as int];
            self.planning(seq![TaskView::Match(asset.uuid), TaskView::ShowMatches(asset.name)])
        } else {
            self
        }
    }

    /// The selected asset is downloaded, where one is selected.
    #[verifier::opaque]
    pub open spec fn downloading_selected(self) -> AppView {
        if self.selected_asset_index < self.assets.len() {
            let asset = self.assets[self.selected_asset_index as int];
            self.planning(seq![TaskView::Download { uuid: asset.uuid, name: asset.name }])
        } else {
            self
        }
    }

    /// The selected search result is downloaded, where one is selected.
    #[verifier::opaque]
    pub open spec fn downloading_found(self) -> AppView {
        if self.selected_search_result_index < self.search_results.len() {
            let asset = self.search_results[self.selected_search_result_index as int];
            self.planning(seq![TaskView::Download { uuid: asset.uuid, name: asset.name }])
        } else {
            self
        }
    }

    /// The match modal with the cursor on the row `position`.
    pub open spec fn match_row(self, position: usize) -> AppView {
        AppView { geometric_match_scroll_position: position, ..self }
    }

    /// The match modal panned to the column `offset`.
    pub open spec fn match_panned(self, offset: u16) -> AppView {
        AppView { geometric_match_horizontal_scroll: offset, ..self }
    }

    /// The match modal closed.
    pub open spec fn match_closed(self) -> AppView {
        AppView { show_geometric_match_modal: false, ..self }
    }

    /// A key in the geometric-match modal: `q` or Esc closes it, the
    /// vertical arrows move the cursor within the rows, the horizontal
    /// arrows pan. Panning to the right has no limit but the largest number
    /// that the offset can hold.
    #[verifier::opaque]
    pub open spec fn after_match_key(self, key: KeyInput) -> AppView {
        if key.is_close() {
            self.match_closed()
        } else if key.code == KeyCode::Up {
            self.match_row(stepped_up(self.geometric_match_scroll_position))
        } else if key.code == KeyCode::Down {
            self.match_row(
                stepped_down(
                    self.geometric_match_scroll_position,
                    self.geometric_match_results.len(),
                ),
            )
        } else if key.code == KeyCode::Left {
            self.match_panned(
                if self.geometric_match_horizontal_scroll > 0 {
                    (self.geometric_match_horizontal_scroll - 1) as u16
                } else {
                    0
                },
            )
        } else if key.code == KeyCode::Right {
            self.match_panned(
                if self.geometric_match_horizontal_scroll < u16::MAX {
                    (self.geometric_match_horizontal_scroll + 1) as u16
                } else {
                    self.geometric_match_horizontal_scroll
                },
            )
        } else {
            self
        }
    }

    /// A key in the asset-details modal: `q` or Esc closes it, and nothing
    /// else does anything.
    pub open spec fn after_details_key(self, key: KeyInput) -> AppView {
        if key.is_close() {
            AppView { show_asset_details_modal: false, ..self }
        } else {
            self
        }
    }

    /// The search input with `c` typed at its end.
    pub open spec fn typed(self, c: char) -> AppView {
        AppView { search_input_buffer: self.search_input_buffer.push(c), ..self }
    }

    /// The search input without its last character.
    pub open spec fn erased(self) -> AppView {
        if self.search_input_buffer.len() > 0 {
            AppView { search_input_buffer: self.search_input_buffer.drop_last(), ..self }
        } else {
            self
        }
    }

    /// The search modal with the focus on `focus`.
    pub open spec fn focused(self, focus: SearchModalFocus) -> AppView {
        AppView { search_modal_focus: focus, ..self }
    }

    /// Enter in the search input: the input becomes the query, and the
    /// search is planned.
    pub open spec fn submitted(self) -> AppView {
        AppView { search_query: self.search_input_buffer, ..self }.planning(
            seq![TaskView::Search],
        )
    }

    /// The search modal closed: the input is emptied and has the focus
    /// again.
    pub open spec fn search_closed(self) -> AppView {
        AppView {
            show_search_modal: false,
            search_input_buffer: Seq::empty(),
            search_modal_focus: SearchModalFocus::Input,
            ..self
        }
    }

    /// One step down the search results.
    pub open spec fn result_down(self) -> AppView {
        AppView {
            selected_search_result_index: stepped_down(
                self.selected_search_result_index,
                self.search_results.len(),
            ),
            ..self
        }
    }

    /// One step up the search results.
    pub open spec fn result_up(self) -> AppView {
        AppView {
            selected_search_result_index: stepped_up(self.selected_search_result_index),
            ..self
        }
    }

    /// A key in the search modal or the search view. With the focus on the
    /// input, characters are typed and Backspace erases; with the focus on
    /// the results, the arrows move the selection and `d` downloads. Tab
    /// moves the focus, Enter searches or goes back to the input, Esc closes.
    #[verifier::opaque]
    pub open spec fn after_search_key(self, key: KeyInput) -> AppView {
        let in_results = self.search_modal_focus == SearchModalFocus::Results;
        match key.code {
            KeyCode::Char(c) => {
                if in_results {
                    if c == 'd' {
                        self.downloading_found()
                    } else {
                        self
                    }
                } else if c != '\n' {
                    self.typed(c)
                } else {
                    self
                }
            },
            KeyCode::Tab | KeyCode::BackTab => self.focused(other_focus(self.search_modal_focus)),
            KeyCode::Backspace => {
                if in_results {
                    self
                } else {
                    self.erased()
                }
            },
            KeyCode::Enter => {
                if in_results {
                    self.focused(SearchModalFocus::Input)
                } else {
                    self.submitted()
                }
            },
            KeyCode::Esc => self.search_closed(),
            KeyCode::Down => {
                if in_results {
                    self.result_down()
                } else {
                    self
                }
            },
            KeyCode::Up => {
                if in_results {
                    self.result_up()
                } else {
                    self
                }
            },
            _ => self,
        }
    }

    /// The panes resized to the vertical delta `dy`.
    pub open spec fn resized_vertically(self, dy: i32) -> AppView {
        AppView { resize_delta_y: dy, status_message: resize_status("vertically"@, dy), ..self }
    }

    /// The panes resized to the horizontal delta `dx`.
    pub open spec fn resized_horizontally(self, dx: i32) -> AppView {
        AppView { resize_delta_x: dx, status_message: resize_status("horizontally"@, dx), ..self }
    }

    /// The resize applied: the deltas stay, and the folders view is shown.
    pub open spec fn resize_applied(self) -> AppView {
        AppView {
            resize_mode_active: false,
            current_state: AppState::Folders,
            status_message: applied_status(self.resize_delta_x, self.resize_delta_y),
            ..self
        }
    }

    /// The resize cancelled: the deltas are zero again, and the folders view
    /// is shown.
    pub open spec fn resize_cancelled(self) -> AppView {
        AppView {
            resize_mode_active: false,
            resize_delta_x: 0,
            resize_delta_y: 0,
            current_state: AppState::Folders,
            status_message: "Resize cancelled"@,
            ..self
        }
    }

    /// A key while the panes are resized: the arrows change the two
    /// deltas, Enter keeps them, Esc and `q` set them back to zero; both
    /// lead back to the folders view.
    #[verifier::opaque]
    pub open spec fn after_resize_key(self, key: KeyInput) -> AppView {
        if key.code == KeyCode::Up {
            self.resized_vertically(lowered(self.resize_delta_y))
        } else if key.code == KeyCode::Down {
            self.resized_vertically(raised(self.resize_delta_y))
        } else if key.code == KeyCode::Left {
            self.resized_horizontally(lowered(self.resize_delta_x))
        } else if key.code == KeyCode::Right {
            self.resized_horizontally(raised(self.resize_delta_x))
        } else if key.code == KeyCode::Enter {
            self.resize_applied()
        } else if key.is_close() {
            self.resize_cancelled()
        } else {
            self
        }
    }

    /// A key in the log view.
    #[verifier::opaque]
    pub open spec fn after_log_key(self, key: KeyInput) -> AppView {
        if key.is_close() {
            AppView { current_state: AppState::Folders, ..self }
        } else if key.code == KeyCode::Up {
            AppView { log: self.log.scrolled_up(), ..self }
        } else if key.code == KeyCode::Down {
            AppView { log: self.log.scrolled_down(), ..self }
        } else if key.code == KeyCode::Left {
            AppView { log: self.log.scrolled_left(), ..self }
        } else if key.code == KeyCode::Right {
            AppView { log: self.log.scrolled_right(), ..self }
        } else if key.is_char('c') {
            self.planning(seq![TaskView::Copy(false)])
        } else if key.is_char('C') {
            self.planning(seq![TaskView::Copy(true)])
        } else {
            self
        }
    }

    /// The view `state` shown.
    pub open spec fn showing(self, state: AppState) -> AppView {
        AppView { current_state: state, ..self }
    }

    /// The view `state` shown, with a word in the status.
    pub open spec fn showing_with(self, state: AppState, status: Seq<char>) -> AppView {
        AppView { current_state: state, status_message: status, ..self }
    }

    /// What a key but Enter does in the folders view or the assets view.
    #[verifier::opaque]
    pub open spec fn browse_choice(self, key: KeyInput) -> AppView {
        let in_assets = self.current_state == AppState::Assets;
        if key.is_down() {
            self.moved_down()
        } else if key.is_up() {
            self.moved_up()
        } else if key.is_char('g') {
            self.matching_selected()
        } else if key.is_back() {
            self.went_back()
        } else if in_assets && key.is_char('d') {
            self.downloading_selected()
        } else if in_assets && key.is_char('q') {
            self.showing(AppState::Folders)
        } else if !in_assets && key.is_char('a') {
            self.switched_to_assets()
        } else if !in_assets && key.is_char('/') {
            self.showing(AppState::Search)
        } else if !in_assets && key.is_char('u') {
            self.showing_with(AppState::Uploading, "Upload mode activated. Press 'q' to return."@)
        } else if !in_assets && key.is_char('d') {
            self.showing_with(
                AppState::Downloading,
                "Download mode activated. Press 'q' to return."@,
            )
        } else {
            self
        }
    }

    /// A key in the folders view or the assets view. After every key but
    /// Enter, the assets of the selected folder are listed if the Folders
    /// pane is active and its selection has moved.
    pub open spec fn after_browse_key(self, key: KeyInput) -> AppView {
        if key.code == KeyCode::Enter {
            self.opened()
        } else {
            self.browse_choice(key).planning(
                seq![TaskView::PrefetchIfMoved(self.selected_folder_index)],
            )
        }
    }

    /// A key that no modal and no global binding took: it goes to the view
    /// that is shown.
    #[verifier::opaque]
    pub open spec fn after_view_key(self, key: KeyInput) -> AppView {
        match self.current_state {
            AppState::Folders | AppState::Assets => self.after_browse_key(key),
            AppState::Search => self.after_search_key(key),
            AppState::Uploading => {
                if key.is_close() {
                    self.showing_with(AppState::Folders, "Upload mode exited"@)
                } else if key.is_char('u') {
                    self.with_status("Upload: no file picker is available"@)
                } else {
                    self
                }
            },
            AppState::Downloading => {
                if key.is_close() {
                    self.showing_with(AppState::Folders, "Download mode exited"@)
                } else {
                    self
                }
            },
            AppState::Help | AppState::CommandHistory => {
                if key.is_close() {
                    self.showing(AppState::Folders)
                } else {
                    self
                }
            },
            AppState::Log => self.after_log_key(key),
            AppState::PaneResize => self.after_resize_key(key),
        }
    }

    /// The pane `pane` made the active one.
    pub open spec fn activated(self, pane: ActivePane) -> AppView {
        AppView { active_pane: pane, ..self }
    }

    /// The resizing of the panes begun.
    pub open spec fn resize_begun(self) -> AppView {
        AppView {
            resize_mode_active: true,
            current_state: AppState::PaneResize,
            status_message: "Resize mode: Use arrow keys to resize, Enter to confirm, Esc to cancel"@,
            ..self
        }
    }

    /// The search modal opened, with an empty input.
    pub open spec fn search_opened(self) -> AppView {
        AppView { show_search_modal: true, search_input_buffer: Seq::empty(), ..self }
    }

    /// The bindings that hold in every view: what the key does if it is one
    /// of them. Tab and Shift+Tab go round the panes, Ctrl+N begins a
    /// resize, `h`, `c` and `l` show the help, the history and the log, and
    /// `/` opens the search modal.
    #[verifier::opaque]
    pub open spec fn after_global_key(self, key: KeyInput) -> Option<AppView> {
        if key.is_back_tab() {
            Some(self.activated(previous_pane(self.active_pane)))
        } else if key.is_tab() {
            Some(self.activated(next_pane(self.active_pane)))
        } else if key.is_char('n') && key.control {
            Some(self.resize_begun())
        } else if key.is_char('h') {
            Some(self.showing(AppState::Help))
        } else if key.is_char('c') {
            Some(self.showing(AppState::CommandHistory))
        } else if key.is_char('/') {
            Some(self.search_opened())
        } else if key.is_char('l') {
            Some(self.showing(AppState::Log))
        } else {
            None
        }
    }

    /// What a key press does at once. The order is fixed: the
    /// geometric-match modal, the asset-details modal, the search modal, the
    /// global bindings, the view.
    pub open spec fn after_key(self, key: KeyInput) -> AppView {
        if self.show_geometric_match_modal {
            self.after_match_key(key)
        } else if self.show_asset_details_modal {
            self.after_details_key(key)
        } else if self.show_search_modal {
            self.after_search_key(key)
        } else {
            match self.after_global_key(key) {
                Some(next) => next,
                None => self.after_view_key(key),
            }
        }
    }

    /// A key press: what it does at once, and then the work it has planned.
    /// Input is taken at rest only.
    pub open spec fn handle_key(self, key: KeyInput, now: MomentView) -> (
        AppView,
        Option<RequestView>,
    ) {
        self.after_key(key).run(now)
    }

    /// What a mouse event does at once: the wheel moves the selection of the
    /// active pane by the rules of the keys. An open modal takes every
    /// input, and has no use for the mouse.
    pub open spec fn after_mouse(self, mouse: MouseInput) -> AppView {
        let watch = seq![TaskView::PrefetchIfMoved(self.selected_folder_index)];
        if self.modal_open() {
            self
        } else {
            match mouse {
                MouseInput::ScrollDown => self.moved_down().planning(watch),
                MouseInput::ScrollUp => self.moved_up().planning(watch),
                MouseInput::Other => self,
            }
        }
    }

    /// A mouse event: what it does at once, and then the work it has
    /// planned.
    pub open spec fn handle_mouse(self, mouse: MouseInput, now: MomentView) -> (
        AppView,
        Option<RequestView>,
    ) {
        self.after_mouse(mouse).run(now)
    }

    /// One operation asked for from outside, at rest: it is planned and the
    /// work is done.
    pub open spec fn perform(self, task: TaskView, now: MomentView) -> (
        AppView,
        Option<RequestView>,
    ) {
        self.planning(seq![task]).run(now)
    }

    /// Whether the key ends the program: `q`, unless a modal is open and
    /// takes it.
    pub open spec fn quits(self, key: KeyInput) -> bool {
        key.is_char('q') && !self.modal_open()
    }
}

/// What the status says while a pane is resized along `axis`.
pub fn resize_message(axis: &str, delta: i32) -> (r: String)
    ensures
        r@ == resize_status(axis@, delta),
{
    let mut r = String::new();
    push_text(&mut r, "Resize: Adjusting ");
    push_text(&mut r, axis);
    push_text(&mut r, " (");
    push_signed_decimal(&mut r, delta);
    push_text(&mut r, ")");
    assert(r@ =~= resize_status(axis@, delta));
    r
}

/// What the status says when a resize is applied.
pub fn applied_message(dx: i32, dy: i32) -> (r: String)
    ensures
        r@ == applied_status(dx, dy),
{
    let mut r = String::new();
    push_text(&mut r, "Resize applied: dx=");
    push_signed_decimal(&mut r, dx);
    push_text(&mut r, ", dy=");
    push_signed_decimal(&mut r, dy);
    assert(r@ =~= applied_status(dx, dy));
    r
}

/// One more, up to the largest number.
pub fn raise(delta: i32) -> (r: i32)
    ensures
        r == raised(delta),
{
    if delta < i32::MAX {
        delta + 1
    } else {
        delta
    }
}

/// One less, down to the smallest number.
pub fn lower(delta: i32) -> (r: i32)
    ensures
        r == lowered(delta),
{
    if delta > i32::MIN {
        delta - 1
    } else {
        delta
    }
}

impl App {
    /// Adds steps to the work that is planned.
    pub(crate) fn plan2(&mut self, first: Task, second: Task)
        ensures
            final(self)@ == old(self)@.planning(seq![first@, second@]),
    {
        self.tasks.push(first);
        self.tasks.push(second);
        assert(self.tasks.deep_view() =~= old(self).tasks.deep_view() + seq![first@, second@]);
    }

    /// Plans the entering of the folder `path`.
    pub(crate) fn enter(&mut self, path: String)
        ensures
            final(self)@ == old(self)@.entered(path@),
    {
        reveal(AppView::entered);
        self.last_entered_folder_path = Some(leaf_of(path.as_str()));
        self.folder_cache.invalidate(path.as_str());
        self.current_folder = Some(path);
        self.tasks.push(Task::LoadFolders);
        self.tasks.push(Task::ClearAssets);
        self.tasks.push(Task::LoadAssets);
        self.tasks.push(Task::ResetSelection);
        assert(self.tasks.deep_view() =~= old(self).tasks.deep_view() + seq![
            TaskView::LoadFolders,
            TaskView::ClearAssets,
            TaskView::LoadAssets,
            TaskView::ResetSelection,
        ]);
    }

    /// Plans the way to the parent.
    pub(crate) fn go_back(&mut self)
        ensures
            final(self)@ == old(self)@.went_back(),
    {
        reveal(AppView::went_back);
        let path = match &self.current_folder {
            Some(path) => path.clone(),
            None => {
                self.set_status("Already at root folder".to_owned());
                return ;
            },
        };
        let came_from = leaf_of(path.as_str());
        if contains_separator(path.as_str()) {
            self.current_folder = Some(parent_of(path.as_str()));
        } else {
            self.current_folder = None;
        }
        self.tasks.push(Task::LoadFolders);
        self.tasks.push(Task::LoadAssets);
        self.tasks.push(Task::Reselect(came_from));
        assert(self.tasks.deep_view() =~= old(self).tasks.deep_view() + seq![
            TaskView::LoadFolders,
            TaskView::LoadAssets,
            TaskView::Reselect(leaf_name(path@)),
        ]);
    }

    pub(crate) fn move_down(&mut self)
        ensures
            final(self)@ == old(self)@.moved_down(),
    {
        match self.active_pane {
            ActivePane::Folders => {
                self.selected_folder_index = step_down(
                    self.selected_folder_index,
                    self.folders.len(),
                );
            },
            ActivePane::Assets => {
                self.selected_asset_index = step_down(self.selected_asset_index, self.assets.len());
            },
            ActivePane::Log => {
                self.log.scroll_down();
            },
        }
    }

    pub(crate) fn move_up(&mut self)
        ensures
            final(self)@ == old(self)@.moved_up(),
    {
        match self.active_pane {
            ActivePane::Folders => {
                self.selected_folder_index = step_up(self.selected_folder_index);
            },
            ActivePane::Assets => {
                self.selected_asset_index = step_up(self.selected_asset_index);
            },
            ActivePane::Log => {
                self.log.scroll_up();
            },
        }
    }

    pub(crate) fn open_selected(&mut self)
        ensures
            final(self)@ == old(self)@.opened(),
    {
        reveal(AppView::opened);
        match self.active_pane {
            ActivePane::Folders => {
                if self.selected_folder_index < self.folders.len() {
                    let folder = &self.folders[self.selected_folder_index];
                    if folder.is_sentinel() {
                        self.go_back();
                    } else {
                        let path = folder.path.clone();
                        self.enter(path);
                    }
                }
            },
            ActivePane::Assets => {
                if self.selected_asset_index < self.assets.len() {
                    self.plan(Task::Details);
                }
            },
            ActivePane::Log => {},
        }
    }

    pub(crate) fn match_selected(&mut self)
        ensures
            final(self)@ == old(self)@.matching_selected(),
    {
        reveal(AppView::matching_selected);
        if self.active_pane == ActivePane::Assets && self.selected_asset_index
            < self.assets.len() {
            let asset = &self.assets[self.selected_asset_index];
            let uuid = asset.uuid.clone();
            let name = asset.name.clone();
            self.plan2(Task::Match(uuid), Task::ShowMatches(name));
        }
    }

    pub(crate) fn download_selected(&mut self)
        ensures
            final(self)@ == old(self)@.downloading_selected(),
    {
        reveal(AppView::downloading_selected);
        if self.selected_asset_index < self.assets.len() {
            let asset = &self.assets[self.selected_asset_index];
            let uuid = asset.uuid.clone();
            let name = asset.name.clone();
            self.plan(Task::Download { uuid, name });
        }
    }

    pub(crate) fn download_found(&mut self)
        ensures
            final(self)@ == old(self)@.downloading_found(),
    {
        reveal(AppView::downloading_found);
        if self.selected_search_result_index < self.search_results.len() {
            let asset = &self.search_results[self.selected_search_result_index];
            let uuid = asset.uuid.clone();
            let name = asset.name.clone();
            self.plan(Task::Download { uuid, name });
        }
    }

    pub(crate) fn set_match_row(&mut self, position: usize)
        ensures
            final(self)@ == old(self)@.match_row(position),
    {
        self.geometric_match_scroll_position = position;
    }

    pub(crate) fn pan_matches(&mut self, offset: u16)
        ensures
            final(self)@ == old(self)@.match_panned(offset),
    {
        self.geometric_match_horizontal_scroll = offset;
    }

    pub(crate) fn close_matches(&mut self)
        ensures
            final(self)@ == old(self)@.match_closed(),
    {
        self.show_geometric_match_modal = false;
    }

    /// A key in the geometric-match modal.
    pub fn handle_geometric_match_keys(&mut self, key: KeyInput)
        ensures
            final(self)@ == old(self)@.after_match_key(key),
    {
        reveal(AppView::after_match_key);
        let offset = self.geometric_match_horizontal_scroll;
        if key.close() {
            self.close_matches();
        } else if key.code == KeyCode::Up {
            self.set_match_row(step_up(self.geometric_match_scroll_position));
        } else if key.code == KeyCode::Down {
            self.set_match_row(
                step_down(self.geometric_match_scroll_position, self.geometric_match_results.len()),
            );
        } else if key.code == KeyCode::Left {
            self.pan_matches(
                if offset > 0 {
                    offset - 1
                } else {
                    0
                },
            );
        } else if key.code == KeyCode::Right {
            self.pan_matches(
                if offset < u16::MAX {
                    offset + 1
                } else {
                    offset
                },
            );
        }
    }

    pub(crate) fn type_char(&mut self, c: char)
        ensures
            final(self)@ == old(self)@.typed(c),
    {
        self.search_input_buffer.push(c);
    }

    pub(crate) fn erase_char(&mut self)
        ensures
            final(self)@ == old(self)@.erased(),
    {
        self.search_input_buffer.pop();
    }

    pub(crate) fn focus(&mut self, focus: SearchModalFocus)
        ensures
            final(self)@ == old(self)@.focused(focus),
    {
        self.search_modal_focus = focus;
    }

    pub(crate) fn submit_search(&mut self)
        ensures
            final(self)@ == old(self)@.submitted(),
    {
        self.search_query = self.search_input_buffer.clone();
        self.plan(Task::Search);
    }

    pub(crate) fn close_search(&mut self)
        ensures
            final(self)@ == old(self)@.search_closed(),
    {
        self.show_search_modal = false;
        self.search_input_buffer.clear();
        self.search_modal_focus = SearchModalFocus::Input;
    }

    pub(crate) fn move_result_down(&mut self)
        ensures
            final(self)@ == old(self)@.result_down(),
    {
        self.selected_search_result_index = step_down(
            self.selected_search_result_index,
            self.search_results.len(),
        );
    }

    pub(crate) fn move_result_up(&mut self)
        ensures
            final(self)@ == old(self)@.result_up(),
    {
        self.selected_search_result_index = step_up(self.selected_search_result_index);
    }

    /// A key in the search modal or the search view.
    pub fn handle_search_keys(&mut self, key: KeyInput)
        ensures
            final(self)@ == old(self)@.after_search_key(key),
    {
        reveal(AppView::after_search_key);
        let in_results = self.search_modal_focus == SearchModalFocus::Results;
        match key.code {
            KeyCode::Char(c) => {
                if in_results {
                    if c == 'd' {
                        self.download_found();
                    }
                } else if c != '\n' {
                    self.type_char(c);
                }
            },
            KeyCode::Tab | KeyCode::BackTab => {
                let other = match self.search_modal_focus {
                    SearchModalFocus::Input => SearchModalFocus::Results,
                    SearchModalFocus::Results => SearchModalFocus::Input,
                };
                self.focus(other);
            },
            KeyCode::Backspace => {
                if !in_results {
                    self.erase_char();
                }
            },
            KeyCode::Enter => {
                if in_results {
                    self.focus(SearchModalFocus::Input);
                } else {
                    self.submit_search();
                }
            },
            KeyCode::Esc => {
                self.close_search();
            },
            KeyCode::Down => {
                if in_results {
                    self.move_result_down();
                }
            },
            KeyCode::Up => {
                if in_results {
                    self.move_result_up();
                }
            },
            _ => {},
        }
    }

    pub(crate) fn resize_vertically(&mut self, dy: i32)
        ensures
            final(self)@ == old(self)@.resized_vertically(dy),
    {
        self.resize_delta_y = dy;
        self.status_message = resize_message("vertically", dy);
    }

    pub(crate) fn resize_horizontally(&mut self, dx: i32)
        ensures
            final(self)@ == old(self)@.resized_horizontally(dx),
    {
        self.resize_delta_x = dx;
        self.status_message = resize_message("horizontally", dx);
    }

    pub(crate) fn apply_resize(&mut self)
        ensures
            final(self)@ == old(self)@.resize_applied(),
    {
        self.resize_mode_active = false;
        self.current_state = AppState::Folders;
        self.status_message = applied_message(self.resize_delta_x, self.resize_delta_y);
    }

    pub(crate) fn cancel_resize(&mut self)
        ensures
            final(self)@ == old(self)@.resize_cancelled(),
    {
        self.resize_mode_active = false;
        self.resize_delta_x = 0;
        self.resize_delta_y = 0;
        self.current_state = AppState::Folders;
        self.status_message = "Resize cancelled".to_owned();
    }

    /// A key while the panes are resized.
    pub fn handle_resize_keys(&mut self, key: KeyInput)
        ensures
            final(self)@ == old(self)@.after_resize_key(key),
    {
        reveal(AppView::after_resize_key);
        if key.code == KeyCode::Up {
            self.resize_vertically(lower(self.resize_delta_y));
        } else if key.code == KeyCode::Down {
            self.resize_vertically(raise(self.resize_delta_y));
        } else if key.code == KeyCode::Left {
            self.resize_horizontally(lower(self.resize_delta_x));
        } else if key.code == KeyCode::Right {
            self.resize_horizontally(raise(self.resize_delta_x));
        } else if key.code == KeyCode::Enter {
            self.apply_resize();
        } else if key.close() {
            self.cancel_resize();
        }
    }

    /// A key in the log view.
    pub fn handle_log_keys(&mut self, key: KeyInput)
        ensures
            final(self)@ == old(self)@.after_log_key(key),
    {
        reveal(AppView::after_log_key);
        if key.close() {
            self.current_state = AppState::Folders;
        } else if key.code == KeyCode::Up {
            self.log.scroll_up();
        } else if key.code == KeyCode::Down {
            self.log.scroll_down();
        } else if key.code == KeyCode::Left {
            self.log.scroll_left();
        } else if key.code == KeyCode::Right {
            self.log.scroll_right();
        } else if key.has_char('c') {
            self.plan(Task::Copy(false));
        } else if key.has_char('C') {
            self.plan(Task::Copy(true));
        }
    }

    pub(crate) fn show(&mut self, state: AppState)
        ensures
            final(self)@ == old(self)@.showing(state),
    {
        self.current_state = state;
    }

    pub(crate) fn show_with(&mut self, state: AppState, status: String)
        ensures
            final(self)@ == old(self)@.showing_with(state, status@),
    {
        self.current_state = state;
        self.status_message = status;
    }

    pub(crate) fn plan_assets_view(&mut self)
        ensures
            final(self)@ == old(self)@.switched_to_assets(),
    {
        if self.current_folder.is_some() {
            self.plan2(Task::LoadAssets, Task::ShowAssets);
        }
    }

    /// What a key but Enter does in the folders view or the assets view.
    pub(crate) fn browse(&mut self, key: KeyInput)
        ensures
            final(self)@ == old(self)@.browse_choice(key),
    {
        reveal(AppView::browse_choice);
        let in_assets = self.current_state == AppState::Assets;
        if key.down() {
            self.move_down();
        } else if key.up() {
            self.move_up();
        } else if key.has_char('g') {
            self.match_selected();
        } else if key.back() {
            self.go_back();
        } else if in_assets && key.has_char('d') {
            self.download_selected();
        } else if in_assets && key.has_char('q') {
            self.show(AppState::Folders);
        } else if !in_assets && key.has_char('a') {
            self.plan_assets_view();
        } else if !in_assets && key.has_char('/') {
            self.show(AppState::Search);
        } else if !in_assets && key.has_char('u') {
            self.show_with(
                AppState::Uploading,
                "Upload mode activated. Press 'q' to return.".to_owned(),
            );
        } else if !in_assets && key.has_char('d') {
            self.show_with(
                AppState::Downloading,
                "Download mode activated. Press 'q' to return.".to_owned(),
            );
        }
    }

    /// A key in the folders view or the assets view.
    pub fn handle_browse_keys(&mut self, key: KeyInput)
        ensures
            final(self)@ == old(self)@.after_browse_key(key),
    {
        if key.code == KeyCode::Enter {
            self.open_selected();
        } else {
            let previous = self.selected_folder_index;
            self.browse(key);
            self.plan(Task::PrefetchIfMoved(previous));
        }
    }

    /// The file picker that an upload would start with is not part of the
    /// browser: only the status says so.
    pub fn upload_asset_interactive(&mut self)
        ensures
            final(self)@ == old(self)@.with_status("Upload: no file picker is available"@),
    {
        self.set_status("Upload: no file picker is available".to_owned());
    }

    /// A key that no modal and no global binding took.
    pub fn handle_view_keys(&mut self, key: KeyInput)
        ensures
            final(self)@ == old(self)@.after_view_key(key),
    {
        reveal(AppView::after_view_key);
        match self.current_state {
            AppState::Folders | AppState::Assets => self.handle_browse_keys(key),
            AppState::Search => self.handle_search_keys(key),
            AppState::Uploading => {
                if key.close() {
                    self.show_with(AppState::Folders, "Upload mode exited".to_owned());
                } else if key.has_char('u') {
                    self.upload_asset_interactive();
                }
            },
            AppState::Downloading => {
                if key.close() {
                    self.show_with(AppState::Folders, "Download mode exited".to_owned());
                }
            },
            AppState::Help | AppState::CommandHistory => {
                if key.close() {
                    self.show(AppState::Folders);
                }
            },
            AppState::Log => self.handle_log_keys(key),
            AppState::PaneResize => self.handle_resize_keys(key),
        }
    }

    pub(crate) fn activate(&mut self, pane: ActivePane)
        ensures
            final(self)@ == old(self)@.activated(pane),
    {
        self.active_pane = pane;
    }

    pub(crate) fn begin_resize(&mut self)
        ensures
            final(self)@ == old(self)@.resize_begun(),
    {
        self.resize_mode_active = true;
        self.current_state = AppState::PaneResize;
        self.status_message =
        "Resize mode: Use arrow keys to resize, Enter to confirm, Esc to cancel".to_owned();
    }

    pub(crate) fn open_search(&mut self)
        ensures
            final(self)@ == old(self)@.search_opened(),
    {
        self.show_search_modal = true;
        self.search_input_buffer.clear();
    }

    /// The bindings that hold in every view. The result says whether the
    /// key was one of them.
    pub fn handle_global_keys(&mut self, key: KeyInput) -> (taken: bool)
        ensures
            match old(self)@.after_global_key(key) {
                Some(next) => taken && final(self)@ == next,
                None => !taken && final(self)@ == old(self)@,
            },
    {
        reveal(AppView::after_global_key);
        if key.back_tab() {
            let pane = match self.active_pane {
                ActivePane::Folders => ActivePane::Log,
                ActivePane::Assets => ActivePane::Folders,
                ActivePane::Log => ActivePane::Assets,
            };
            self.activate(pane);
            true
        } else if key.tab() {
            let pane = match self.active_pane {
                ActivePane::Folders => ActivePane::Assets,
                ActivePane::Assets => ActivePane::Log,
                ActivePane::Log => ActivePane::Folders,
            };
            self.activate(pane);
            true
        } else if key.has_char('n') && key.control {
            self.begin_resize();
            true
        } else if key.has_char('h') {
            self.show(AppState::Help);
            true
        } else if key.has_char('c') {
            self.show(AppState::CommandHistory);
            true
        } else if key.has_char('/') {
            self.open_search();
            true
        } else if key.has_char('l') {
            self.show(AppState::Log);
            true
        } else {
            false
        }
    }

    /// What a key press does at once.
    pub fn dispatch_key(&mut self, key: KeyInput)
        ensures
            final(self)@ == old(self)@.after_key(key),
    {
        if self.show_geometric_match_modal {
            self.handle_geometric_match_keys(key);
        } else if self.show_asset_details_modal {
            if key.close() {
                self.show_asset_details_modal = false;
            }
        } else if self.show_search_modal {
            self.handle_search_keys(key);
        } else {
            let taken = self.handle_global_keys(key);
            if !taken {
                self.handle_view_keys(key);
            }
        }
    }

    /// Takes a key press: does what it asks for at once, and then the work
    /// it has planned. The result is the request that the work needs next,
    /// if it needs one; its response goes to `resume`. The browser does one
    /// thing at a time: input is taken at rest, after the last request was
    /// answered.
    pub fn handle_key_event(&mut self, key: KeyInput, now: &Moment) -> (r: Option<Request>)
        requires
            old(self)@.at_rest(),
        ensures
            (final(self)@, request_view(r)) == old(self)@.handle_key(key, now@),
            final(self)@.answers(request_view(r)),
            old(self).wf() ==> final(self).wf(),
    {
        proof {
            crate::laws::law_input_is_answered(old(self)@, key, MouseInput::Other, now@);
            if old(self).wf() {
                crate::laws::law_keys_keep_selections_in_range(old(self)@, key, now@);
            }
        }
        self.dispatch_key(key);
        self.run(now)
    }

    /// Takes a mouse event, as a key press is taken.
    pub fn handle_mouse_event(&mut self, mouse: MouseInput, now: &Moment) -> (r: Option<Request>)
        requires
            old(self)@.at_rest(),
        ensures
            (final(self)@, request_view(r)) == old(self)@.handle_mouse(mouse, now@),
            final(self)@.answers(request_view(r)),
            old(self).wf() ==> final(self).wf(),
    {
        proof {
            crate::laws::law_input_is_answered(
                old(self)@,
                KeyInput { code: KeyCode::Other, shift: false, control: false, alt: false },
                mouse,
                now@,
            );
            if old(self).wf() {
                crate::laws::law_mouse_keeps_selections_in_range(old(self)@, mouse, now@);
            }
        }
        if !self.modal_open() {
            let previous = self.selected_folder_index;
            match mouse {
                MouseInput::ScrollDown => {
                    self.move_down();
                    self.plan(Task::PrefetchIfMoved(previous));
                },
                MouseInput::ScrollUp => {
                    self.move_up();
                    self.plan(Task::PrefetchIfMoved(previous));
                },
                MouseInput::Other => {},
            }
        }
        self.run(now)
    }

    /// Plans one operation and does the work. Operations are begun at rest,
    /// as input is taken.
    pub fn perform(&mut self, task: Task, now: &Moment) -> (r: Option<Request>)
        requires
            old(self)@.at_rest(),
        ensures
            (final(self)@, request_view(r)) == old(self)@.perform(task@, now@),
            final(self)@.answers(request_view(r)),
            old(self).wf() ==> final(self).wf(),
    {
        proof {
            crate::laws::law_operations_are_answered(old(self)@, task@, Seq::empty(), now@);
            if old(self).wf() {
                crate::laws::law_operations_keep_selections_in_range(old(self)@, task@, now@);
            }
        }
        self.plan(task);
        self.run(now)
    }

    /// Whether the key ends the program.
    pub fn quits(&self, key: KeyInput) -> (r: bool)
        ensures
            r == self@.quits(key),
    {
        key.has_char('q') && !self.modal_open()
    }
}

} // verus!
