//! The operations of the browser by name. Each plans its work and does it
//! as far as it goes without the outside world; the result is the request
//! that the work needs next, if it needs one.

use crate::app::App;
use crate::clock::{Moment, MomentView};
use crate::model::Asset;
use crate::protocol::{request_view, Request, RequestView};
use crate::state::{AppView, Task, TaskView};
use vstd::prelude::*;

verus! {

impl AppView {
    /// Entering the folder `path`, at rest.
    pub open spec fn enter_folder(self, path: Seq<char>, now: MomentView) -> (
        AppView,
        Option<RequestView>,
    ) {
        self.entered(path).run(now)
    }

    /// Going to the parent, at rest.
    pub open spec fn go_back_to_parent_folder(self, now: MomentView) -> (
        AppView,
        Option<RequestView>,
    ) {
        self.went_back().run(now)
    }

    /// Switching to the assets view, at rest.
    pub open spec fn switch_to_assets_view(self, now: MomentView) -> (
        AppView,
        Option<RequestView>,
    ) {
        self.switched_to_assets().run(now)
    }

    /// What the browser does first: the folders of the root are listed, the
    /// selection is put at the start, and the assets of the selected folder
    /// are listed.
    pub open spec fn start_up(self, now: MomentView) -> (AppView, Option<RequestView>) {
        self.planning(
            seq![TaskView::LoadFolders, TaskView::ResetSelection, TaskView::Prefetch],
        ).run(now)
    }
}

impl App {
    /// What the browser does first.
    pub fn start_up(&mut self, now: &Moment) -> (r: Option<Request>)
        requires
            old(self)@.at_rest(),
        ensures
            (final(self)@, request_view(r)) == old(self)@.start_up(now@),
            final(self)@.answers(request_view(r)),
            old(self).wf() ==> final(self).wf(),
    {
        proof {
            crate::laws::law_operations_are_answered(
                old(self)@,
                TaskView::Prefetch,
                Seq::empty(),
                now@,
            );
            if old(self).wf() {
                crate::laws::law_operations_keep_selections_in_range(
                    old(self)@,
                    TaskView::Prefetch,
                    now@,
                );
            }
        }
        self.tasks.push(Task::LoadFolders);
        self.tasks.push(Task::ResetSelection);
        self.tasks.push(Task::Prefetch);
        assert(self.tasks.deep_view() =~= old(self).tasks.deep_view() + seq![
            TaskView::LoadFolders,
            TaskView::ResetSelection,
            TaskView::Prefetch,
        ]);
        self.run(now)
    }

    /// Enters the folder `folder_path`.
    pub fn enter_folder(&mut self, folder_path: String, now: &Moment) -> (r: Option<Request>)
        requires
            old(self)@.at_rest(),
        ensures
            (final(self)@, request_view(r)) == old(self)@.enter_folder(folder_path@, now@),
            final(self)@.answers(request_view(r)),
            old(self).wf() ==> final(self).wf(),
    {
        proof {
            crate::laws::law_operations_are_answered(
                old(self)@,
                TaskView::Prefetch,
                folder_path@,
                now@,
            );
            if old(self).wf() {
                crate::laws::law_entering_keeps_selections_in_range(
                    old(self)@,
                    folder_path@,
                    now@,
                );
            }
        }
        self.enter(folder_path);
        self.run(now)
    }

    /// Goes to the parent of the current directory.
    pub fn go_back_to_parent_folder(&mut self, now: &Moment) -> (r: Option<Request>)
        requires
            old(self)@.at_rest(),
        ensures
            (final(self)@, request_view(r)) == old(self)@.go_back_to_parent_folder(now@),
            final(self)@.answers(request_view(r)),
            old(self).wf() ==> final(self).wf(),
    {
        proof {
            crate::laws::law_operations_are_answered(
                old(self)@,
                TaskView::Prefetch,
                Seq::empty(),
                now@,
            );
            if old(self).wf() {
                crate::laws::law_operations_keep_selections_in_range(
                    old(self)@,
                    TaskView::Prefetch,
                    now@,
                );
            }
        }
        self.go_back();
        self.run(now)
    }

    /// Lists the assets of the current directory, from the cache where it
    /// holds them fresh, and shows the assets view.
    pub fn switch_to_assets_view(&mut self, now: &Moment) -> (r: Option<Request>)
        requires
            old(self)@.at_rest(),
        ensures
            (final(self)@, request_view(r)) == old(self)@.switch_to_assets_view(now@),
            final(self)@.answers(request_view(r)),
            old(self).wf() ==> final(self).wf(),
    {
        proof {
            crate::laws::law_operations_are_answered(
                old(self)@,
                TaskView::Prefetch,
                Seq::empty(),
                now@,
            );
            if old(self).wf() {
                crate::laws::law_operations_keep_selections_in_range(
                    old(self)@,
                    TaskView::Prefetch,
                    now@,
                );
            }
        }
        self.plan_assets_view();
        self.run(now)
    }

    /// Lists the folders of the current directory, from the cache where it
    /// holds them fresh.
    pub fn load_folders_for_current_context(&mut self, now: &Moment) -> (r: Option<Request>)
        requires
            old(self)@.at_rest(),
        ensures
            (final(self)@, request_view(r)) == old(self)@.perform(TaskView::LoadFolders, now@),
            final(self)@.answers(request_view(r)),
            old(self).wf() ==> final(self).wf(),
    {
        self.perform(Task::LoadFolders, now)
    }

    /// Lists the assets of the current directory, from the cache where it
    /// holds them fresh.
    pub fn load_assets_for_current_folder(&mut self, now: &Moment) -> (r: Option<Request>)
        requires
            old(self)@.at_rest(),
        ensures
            (final(self)@, request_view(r)) == old(self)@.perform(TaskView::LoadAssets, now@),
            final(self)@.answers(request_view(r)),
            old(self).wf() ==> final(self).wf(),
    {
        self.perform(Task::LoadAssets, now)
    }

    /// Lists the assets of the selected folder, from the cache where it
    /// holds them fresh.
    pub fn load_assets_for_selected_folder(&mut self, now: &Moment) -> (r: Option<Request>)
        requires
            old(self)@.at_rest(),
        ensures
            (final(self)@, request_view(r)) == old(self)@.perform(TaskView::Prefetch, now@),
            final(self)@.answers(request_view(r)),
            old(self).wf() ==> final(self).wf(),
    {
        self.perform(Task::Prefetch, now)
    }

    /// Downloads `asset`.
    pub fn download_asset(&mut self, asset: &Asset, now: &Moment) -> (r: Option<Request>)
        requires
            old(self)@.at_rest(),
        ensures
            (final(self)@, request_view(r)) == old(self)@.perform(
                TaskView::Download { uuid: asset@.uuid, name: asset@.name },
                now@,
            ),
            final(self)@.answers(request_view(r)),
            old(self).wf() ==> final(self).wf(),
    {
        self.perform(Task::Download { uuid: asset.uuid.clone(), name: asset.name.clone() }, now)
    }

    /// Downloads the asset with the id `asset_uuid`, shown as `asset_name`.
    pub fn download_asset_by_uuid(
        &mut self,
        asset_uuid: &str,
        asset_name: &str,
        now: &Moment,
    ) -> (r: Option<Request>)
        requires
            old(self)@.at_rest(),
        ensures
            (final(self)@, request_view(r)) == old(self)@.perform(
                TaskView::Download { uuid: asset_uuid@, name: asset_name@ },
                now@,
            ),
            final(self)@.answers(request_view(r)),
            old(self).wf() ==> final(self).wf(),
    {
        self.perform(
            Task::Download { uuid: asset_uuid.to_owned(), name: asset_name.to_owned() },
            now,
        )
    }

    /// Searches for the query.
    pub fn perform_search(&mut self, now: &Moment) -> (r: Option<Request>)
        requires
            old(self)@.at_rest(),
        ensures
            (final(self)@, request_view(r)) == old(self)@.perform(TaskView::Search, now@),
            final(self)@.answers(request_view(r)),
            old(self).wf() ==> final(self).wf(),
    {
        self.perform(Task::Search, now)
    }

    /// Uploads the file `file_path` to the current directory.
    pub fn upload_asset_to_current_folder(
        &mut self,
        file_path: &str,
        now: &Moment,
    ) -> (r: Option<Request>)
        requires
            old(self)@.at_rest(),
        ensures
            (final(self)@, request_view(r)) == old(self)@.perform(
                TaskView::Upload(file_path@),
                now@,
            ),
            final(self)@.answers(request_view(r)),
            old(self).wf() ==> final(self).wf(),
    {
        self.perform(Task::Upload(file_path.to_owned()), now)
    }

    /// Fetches the details of the selected asset.
    pub fn show_asset_details(&mut self, now: &Moment) -> (r: Option<Request>)
        requires
            old(self)@.at_rest(),
        ensures
            (final(self)@, request_view(r)) == old(self)@.perform(TaskView::Details, now@),
            final(self)@.answers(request_view(r)),
            old(self).wf() ==> final(self).wf(),
    {
        self.perform(Task::Details, now)
    }

    /// Matches the asset with the id `asset_uuid` geometrically.
    pub fn perform_geometric_match(
        &mut self,
        asset_uuid: &str,
        now: &Moment,
    ) -> (r: Option<Request>)
        requires
            old(self)@.at_rest(),
        ensures
            (final(self)@, request_view(r)) == old(self)@.perform(
                TaskView::Match(asset_uuid@),
                now@,
            ),
            final(self)@.answers(request_view(r)),
            old(self).wf() ==> final(self).wf(),
    {
        self.perform(Task::Match(asset_uuid.to_owned()), now)
    }

    /// Copies the selected log line to the clipboard.
    pub fn copy_selected_log_entry_to_clipboard(&mut self, now: &Moment) -> (r: Option<Request>)
        requires
            old(self)@.at_rest(),
        ensures
            (final(self)@, request_view(r)) == old(self)@.perform(TaskView::Copy(false), now@),
            final(self)@.answers(request_view(r)),
            old(self).wf() ==> final(self).wf(),
    {
        self.perform(Task::Copy(false), now)
    }

    /// Copies the command of the selected log line to the clipboard.
    pub fn copy_command_from_selected_log_entry_to_clipboard(
        &mut self,
        now: &Moment,
    ) -> (r: Option<Request>)
        requires
            old(self)@.at_rest(),
        ensures
            (final(self)@, request_view(r)) == old(self)@.perform(TaskView::Copy(true), now@),
            final(self)@.answers(request_view(r)),
            old(self).wf() ==> final(self).wf(),
    {
        self.perform(Task::Copy(true), now)
    }
}

} // verus!
