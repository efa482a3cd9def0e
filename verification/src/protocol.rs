//! What the browser asks of the outside world, and what it is told in
//! return. The browser never talks to the backend itself: it hands out one
//! request at a time and waits for the response.

use crate::model::{
    AssetDetails, AssetDetailsView, PcliAsset, PcliAssetView, PcliFolder, PcliFolderView,
    PcliMatch, PcliMatchView,
};
use crate::text::push_text;
use vstd::prelude::*;

verus! {

/// One operation of the backend, or a text for the clipboard.
#[derive(Debug)]
pub enum Request {
    ListFolders,
    ListSubfolders { path: String },
    ListAssets { path: String },
    AssetDetails { uuid: String },
    SearchAssets { query: String },
    GeometricMatch { uuid: String },
    DownloadAsset { uuid: String },
    UploadAsset { file_path: String, folder: String },
    CopyText { text: String },
}

/// The mathematical view of a `Request`.
pub enum RequestView {
    ListFolders,
    ListSubfolders { path: Seq<char> },
    ListAssets { path: Seq<char> },
    AssetDetails { uuid: Seq<char> },
    SearchAssets { query: Seq<char> },
    GeometricMatch { uuid: Seq<char> },
    DownloadAsset { uuid: Seq<char> },
    UploadAsset { file_path: Seq<char>, folder: Seq<char> },
    CopyText { text: Seq<char> },
}

impl View for Request {
    type V = RequestView;

    open spec fn view(&self) -> RequestView {
        match self {
            Request::ListFolders => RequestView::ListFolders,
            Request::ListSubfolders { path } => RequestView::ListSubfolders { path: path@ },
            Request::ListAssets { path } => RequestView::ListAssets { path: path@ },
            Request::AssetDetails { uuid } => RequestView::AssetDetails { uuid: uuid@ },
            Request::SearchAssets { query } => RequestView::SearchAssets { query: query@ },
            Request::GeometricMatch { uuid } => RequestView::GeometricMatch { uuid: uuid@ },
            Request::DownloadAsset { uuid } => RequestView::DownloadAsset { uuid: uuid@ },
            Request::UploadAsset { file_path, folder } => RequestView::UploadAsset {
                file_path: file_path@,
                folder: folder@,
            },
            Request::CopyText { text } => RequestView::CopyText { text: text@ },
        }
    }
}

/// The view of an optional request.
pub open spec fn request_view(request: Option<Request>) -> Option<RequestView> {
    match request {
        Some(r) => Some(r@),
        None => None,
    }
}

/// `head`, then `middle` between quotes, then `tail`.
pub open spec fn quoted(head: Seq<char>, middle: Seq<char>, tail: Seq<char>) -> Seq<char> {
    head + seq!['"'] + middle + seq!['"'] + tail
}

/// The command that lists the folders of the root.
pub open spec fn list_folders_command() -> Seq<char> {
    "pcli2 folder list --format json"@
}

/// The command that lists the folders of the directory `path`.
pub open spec fn list_subfolders_command(path: Seq<char>) -> Seq<char> {
    quoted("pcli2 folder list --folder-path "@, path, " --format json"@)
}

/// The command that lists the assets of the directory `path`.
pub open spec fn list_assets_command(path: Seq<char>) -> Seq<char> {
    quoted("pcli2 asset list --folder-path "@, path, " --format json --metadata"@)
}

/// The command that fetches the details of the asset `uuid`.
pub open spec fn asset_details_command(uuid: Seq<char>) -> Seq<char> {
    quoted("pcli2 asset get --uuid "@, uuid, " --format json --metadata"@)
}

/// The command that searches for `query`.
pub open spec fn search_command(query: Seq<char>) -> Seq<char> {
    quoted("pcli2 asset text-match --text "@, query, " --format json --metadata"@)
}

/// The command that matches the asset `uuid` geometrically.
pub open spec fn geometric_match_command(uuid: Seq<char>) -> Seq<char> {
    quoted("pcli2 asset geometric-match --uuid "@, uuid, " --format json --metadata"@)
}

/// The command that downloads the asset `uuid`.
pub open spec fn download_command(uuid: Seq<char>) -> Seq<char> {
    quoted("pcli2 asset download --uuid "@, uuid, ""@)
}

/// The command that uploads the file `file_path` to `folder`.
pub open spec fn upload_command(file_path: Seq<char>, folder: Seq<char>) -> Seq<char> {
    quoted(quoted("pcli2 asset create --file "@, file_path, " --folder "@), folder, ""@)
}

impl RequestView {
    /// The invocation of the backend that the request stands for, as it is
    /// written to the log and to the history. A text for the clipboard is
    /// no such invocation and has the empty command.
    pub open spec fn command(self) -> Seq<char> {
        match self {
            RequestView::ListFolders => list_folders_command(),
            RequestView::ListSubfolders { path } => list_subfolders_command(path),
            RequestView::ListAssets { path } => list_assets_command(path),
            RequestView::AssetDetails { uuid } => asset_details_command(uuid),
            RequestView::SearchAssets { query } => search_command(query),
            RequestView::GeometricMatch { uuid } => geometric_match_command(uuid),
            RequestView::DownloadAsset { uuid } => download_command(uuid),
            RequestView::UploadAsset { file_path, folder } => upload_command(file_path, folder),
            RequestView::CopyText { text } => Seq::empty(),
        }
    }
}

/// `head`, then `middle` between quotes, then `tail`.
pub fn quote(head: &str, middle: &str, tail: &str) -> (r: String)
    ensures
        r@ == quoted(head@, middle@, tail@),
{
    let mut r = String::new();
    push_text(&mut r, head);
    r.push('"');
    push_text(&mut r, middle);
    r.push('"');
    push_text(&mut r, tail);
    assert(r@ =~= quoted(head@, middle@, tail@));
    r
}

impl Request {
    /// The invocation of the backend that the request stands for.
    pub fn command(&self) -> (r: String)
        ensures
            r@ == self@.command(),
    {
        match self {
            Request::ListFolders => "pcli2 folder list --format json".to_owned(),
            Request::ListSubfolders { path } => quote(
                "pcli2 folder list --folder-path ",
                path.as_str(),
                " --format json",
            ),
            Request::ListAssets { path } => quote(
                "pcli2 asset list --folder-path ",
                path.as_str(),
                " --format json --metadata",
            ),
            Request::AssetDetails { uuid } => quote(
                "pcli2 asset get --uuid ",
                uuid.as_str(),
                " --format json --metadata",
            ),
            Request::SearchAssets { query } => quote(
                "pcli2 asset text-match --text ",
                query.as_str(),
                " --format json --metadata",
            ),
            Request::GeometricMatch { uuid } => quote(
                "pcli2 asset geometric-match --uuid ",
                uuid.as_str(),
                " --format json --metadata",
            ),
            Request::DownloadAsset { uuid } => quote(
                "pcli2 asset download --uuid ",
                uuid.as_str(),
                "",
            ),
            Request::UploadAsset { file_path, folder } => {
                let head = quote("pcli2 asset create --file ", file_path.as_str(), " --folder ");
                quote(head.as_str(), folder.as_str(), "")
            },
            Request::CopyText { text } => String::new(),
        }
    }
}

/// What came of a request.
#[derive(Debug)]
pub enum Response {
    /// The folder records of a listing.
    Folders(Vec<PcliFolder>),
    /// The asset records of a listing or of a search.
    Assets(Vec<PcliAsset>),
    /// The full record of one asset.
    Details(AssetDetails),
    /// The results of a geometric match.
    Matches(Vec<PcliMatch>),
    /// The operation was carried out and has nothing to report.
    Done,
    /// The operation failed; the text says how.
    Failed(String),
    /// There is no clipboard.
    Unavailable,
}

/// The mathematical view of a `Response`.
pub enum ResponseView {
    Folders(Seq<PcliFolderView>),
    Assets(Seq<PcliAssetView>),
    Details(AssetDetailsView),
    Matches(Seq<PcliMatchView>),
    Done,
    Failed(Seq<char>),
    Unavailable,
}

impl View for Response {
    type V = ResponseView;

    open spec fn view(&self) -> ResponseView {
        match self {
            Response::Folders(records) => ResponseView::Folders(records.deep_view()),
            Response::Assets(records) => ResponseView::Assets(records.deep_view()),
            Response::Details(details) => ResponseView::Details(details@),
            Response::Matches(records) => ResponseView::Matches(records.deep_view()),
            Response::Done => ResponseView::Done,
            Response::Failed(message) => ResponseView::Failed(message@),
            Response::Unavailable => ResponseView::Unavailable,
        }
    }
}

/// What is reported where a response is not of the kind that was asked for.
pub open spec fn unexpected_text() -> Seq<char> {
    "unexpected response"@
}

impl ResponseView {
    /// The text of the failure, for a response that is none of the expected
    /// kind.
    pub open spec fn failure(self) -> Seq<char> {
        match self {
            ResponseView::Failed(message) => message,
            _ => unexpected_text(),
        }
    }
}

impl Response {
    /// The text of the failure.
    pub fn failure(&self) -> (r: String)
        ensures
            r@ == self@.failure(),
    {
        match self {
            Response::Failed(message) => message.clone(),
            _ => "unexpected response".to_owned(),
        }
    }
}

/// One argument of an invocation of the backend tool: a word of the tool's
/// own, or a value that is handed to it.
#[derive(Debug)]
pub struct Argument {
    pub text: String,
    /// Whether the argument is a value; the command shows values in quotes.
    pub is_value: bool,
}

/// The mathematical view of an `Argument`.
pub struct ArgumentView {
    pub text: Seq<char>,
    pub is_value: bool,
}

impl View for Argument {
    type V = ArgumentView;

    open spec fn view(&self) -> ArgumentView {
        ArgumentView { text: self.text@, is_value: self.is_value }
    }
}

impl DeepView for Argument {
    type V = ArgumentView;

    open spec fn deep_view(&self) -> ArgumentView {
        self@
    }
}

/// A word of the tool's own.
pub open spec fn word(text: Seq<char>) -> ArgumentView {
    ArgumentView { text, is_value: false }
}

/// A value that is handed to the tool.
pub open spec fn value(text: Seq<char>) -> ArgumentView {
    ArgumentView { text, is_value: true }
}

/// An argument as the command shows it: a value stands between quotes.
pub open spec fn shown_argument(argument: ArgumentView) -> Seq<char> {
    if argument.is_value {
        seq!['"'] + argument.text + seq!['"']
    } else {
        argument.text
    }
}

/// The command for an invocation with the arguments `arguments`: the name of
/// the tool, and after it each argument behind a blank.
pub open spec fn command_line(arguments: Seq<ArgumentView>) -> Seq<char>
    decreases arguments.len(),
{
    if arguments.len() == 0 {
        seq!['p', 'c', 'l', 'i', '2']
    } else {
        command_line(arguments.drop_last()) + seq![' '] + shown_argument(arguments.last())
    }
}

impl RequestView {
    /// The arguments that the backend tool is invoked with for the request.
    /// A text for the clipboard is no invocation and has none.
    pub open spec fn arguments(self) -> Option<Seq<ArgumentView>> {
        match self {
            RequestView::ListFolders => Some(
                seq![word("folder"@), word("list"@), word("--format"@), word("json"@)],
            ),
            RequestView::ListSubfolders { path } => Some(
                seq![
                    word("folder"@),
                    word("list"@),
                    word("--folder-path"@),
                    value(path),
                    word("--format"@),
                    word("json"@),
                ],
            ),
            RequestView::ListAssets { path } => Some(
                seq![
                    word("asset"@),
                    word("list"@),
                    word("--folder-path"@),
                    value(path),
                    word("--format"@),
                    word("json"@),
                    word("--metadata"@),
                ],
            ),
            RequestView::AssetDetails { uuid } => Some(
                seq![
                    word("asset"@),
                    word("get"@),
                    word("--uuid"@),
                    value(uuid),
                    word("--format"@),
                    word("json"@),
                    word("--metadata"@),
                ],
            ),
            RequestView::SearchAssets { query } => Some(
                seq![
                    word("asset"@),
                    word("text-match"@),
                    word("--text"@),
                    value(query),
                    word("--format"@),
                    word("json"@),
                    word("--metadata"@),
                ],
            ),
            RequestView::GeometricMatch { uuid } => Some(
                seq![
                    word("asset"@),
                    word("geometric-match"@),
                    word("--uuid"@),
                    value(uuid),
                    word("--format"@),
                    word("json"@),
                    word("--metadata"@),
                ],
            ),
            RequestView::DownloadAsset { uuid } => Some(
                seq![word("asset"@), word("download"@), word("--uuid"@), value(uuid)],
            ),
            RequestView::UploadAsset { file_path, folder } => Some(
                seq![
                    word("asset"@),
                    word("create"@),
                    word("--file"@),
                    value(file_path),
                    word("--folder"@),
                    value(folder),
                ],
            ),
            RequestView::CopyText { text } => None,
        }
    }
}

/// A word of the tool's own.
pub fn word_of(text: &str) -> (r: Argument)
    ensures
        r@ == word(text@),
{
    Argument { text: text.to_owned(), is_value: false }
}

/// A value that is handed to the tool.
pub fn value_of(text: &str) -> (r: Argument)
    ensures
        r@ == value(text@),
{
    Argument { text: text.to_owned(), is_value: true }
}

/// The arguments `head`, the value `middle`, and the arguments `tail`.
fn around(head: Vec<Argument>, middle: &str, tail: Vec<Argument>) -> (r: Vec<Argument>)
    ensures
        r.deep_view() == head.deep_view().push(value(middle@)) + tail.deep_view(),
{
    let ghost before = head.deep_view();
    let ghost after = tail.deep_view();
    let mut r = head;
    r.push(value_of(middle));
    assert(r.deep_view() =~= before.push(value(middle@)));
    for argument in it: tail
        invariant
            it.seq().len() == after.len(),
            forall|k: int| 0 <= k < after.len() ==> (#[trigger] it.seq()[k])@ == after[k],
            r.deep_view() == before.push(value(middle@)) + after.take(it.index()),
    {
        let ghost so_far = r.deep_view();
        r.push(argument);
        assert(r.deep_view() =~= so_far.push(after[it.index()]));
        assert(after.take(it.index() + 1) =~= after.take(it.index()).push(after[it.index()]));
    }
    assert(after.take(after.len() as int) =~= after);
    r
}

/// The texts `texts`, as words of the tool's own.
fn words(texts: Vec<&'static str>) -> (r: Vec<Argument>)
    ensures
        r.len() == texts.len(),
        forall|k: int| 0 <= k < texts.len() ==> (#[trigger] r[k])@ == word(texts[k]@),
{
    let mut r: Vec<Argument> = Vec::new();
    let mut i: usize = 0;
    while i < texts.len()
        invariant
            i <= texts.len(),
            r.len() == i,
            forall|k: int| 0 <= k < i ==> (#[trigger] r[k])@ == word(texts[k]@),
        decreases texts.len() - i,
    {
        r.push(word_of(texts[i]));
        i += 1;
    }
    r
}

impl Request {
    /// The arguments that the backend tool is invoked with for the request:
    /// the very ones that its command shows.
    pub fn arguments(&self) -> (r: Option<Vec<Argument>>)
        ensures
            match r {
                Some(arguments) => self@.arguments() == Some(arguments.deep_view())
                    && command_line(arguments.deep_view()) == self@.command(),
                None => self@.arguments().is_none(),
            },
    {
        proof {
            crate::invocation::law_the_command_shows_the_invocation(self@);
        }
        match self {
            Request::ListFolders => {
                let r = words(vec!["folder", "list", "--format", "json"]);
                assert(r.deep_view() =~= self@.arguments().unwrap());
                Some(r)
            },
            Request::ListSubfolders { path } => {
                let r = around(
                    words(vec!["folder", "list", "--folder-path"]),
                    path.as_str(),
                    words(vec!["--format", "json"]),
                );
                assert(r.deep_view() =~= self@.arguments().unwrap());
                Some(r)
            },
            Request::ListAssets { path } => {
                let r = around(
                    words(vec!["asset", "list", "--folder-path"]),
                    path.as_str(),
                    words(vec!["--format", "json", "--metadata"]),
                );
                assert(r.deep_view() =~= self@.arguments().unwrap());
                Some(r)
            },
            Request::AssetDetails { uuid } => {
                let r = around(
                    words(vec!["asset", "get", "--uuid"]),
                    uuid.as_str(),
                    words(vec!["--format", "json", "--metadata"]),
                );
                assert(r.deep_view() =~= self@.arguments().unwrap());
                Some(r)
            },
            Request::SearchAssets { query } => {
                let r = around(
                    words(vec!["asset", "text-match", "--text"]),
                    query.as_str(),
                    words(vec!["--format", "json", "--metadata"]),
                );
                assert(r.deep_view() =~= self@.arguments().unwrap());
                Some(r)
            },
            Request::GeometricMatch { uuid } => {
                let r = around(
                    words(vec!["asset", "geometric-match", "--uuid"]),
                    uuid.as_str(),
                    words(vec!["--format", "json", "--metadata"]),
                );
                assert(r.deep_view() =~= self@.arguments().unwrap());
                Some(r)
            },
            Request::DownloadAsset { uuid } => {
                let r = around(
                    words(vec!["asset", "download", "--uuid"]),
                    uuid.as_str(),
                    Vec::new(),
                );
                assert(r.deep_view() =~= self@.arguments().unwrap());
                Some(r)
            },
            Request::UploadAsset { file_path, folder } => {
                let head = around(
                    words(vec!["asset", "create", "--file"]),
                    file_path.as_str(),
                    words(vec!["--folder"]),
                );
                let r = around(head, folder.as_str(), Vec::new());
                assert(r.deep_view() =~= self@.arguments().unwrap());
                Some(r)
            },
            Request::CopyText { text } => None,
        }
    }
}

} // verus!
