//! The command that is logged for a request is the invocation that the
//! request is carried out with: the name of the tool and its arguments, the
//! values among them in quotes.

use crate::protocol::{command_line, RequestView};
use vstd::prelude::*;

verus! {

proof fn lemma_list_folders_command()
    ensures
        command_line(RequestView::ListFolders.arguments().unwrap())
            == RequestView::ListFolders.command(),
{
    reveal_with_fuel(command_line, 5);
    reveal_strlit("folder");
    reveal_strlit("list");
    reveal_strlit("--format");
    reveal_strlit("json");
    reveal_strlit("pcli2 folder list --format json");
    assert(command_line(RequestView::ListFolders.arguments().unwrap())
        =~= RequestView::ListFolders.command());
}

proof fn lemma_list_subfolders_command(path: Seq<char>)
    ensures
        command_line((RequestView::ListSubfolders { path }).arguments().unwrap())
            == (RequestView::ListSubfolders { path }).command(),
{
    reveal_with_fuel(command_line, 7);
    reveal_strlit("folder");
    reveal_strlit("list");
    reveal_strlit("--folder-path");
    reveal_strlit("--format");
    reveal_strlit("json");
    reveal_strlit("pcli2 folder list --folder-path ");
    reveal_strlit(" --format json");
    let request = RequestView::ListSubfolders { path };
    assert(command_line(request.arguments().unwrap()) =~= request.command());
}

proof fn lemma_list_assets_command(path: Seq<char>)
    ensures
        command_line((RequestView::ListAssets { path }).arguments().unwrap())
            == (RequestView::ListAssets { path }).command(),
{
    reveal_with_fuel(command_line, 8);
    reveal_strlit("asset");
    reveal_strlit("list");
    reveal_strlit("--folder-path");
    reveal_strlit("--format");
    reveal_strlit("json");
    reveal_strlit("--metadata");
    reveal_strlit("pcli2 asset list --folder-path ");
    reveal_strlit(" --format json --metadata");
    let request = RequestView::ListAssets { path };
    assert(command_line(request.arguments().unwrap()) =~= request.command());
}

proof fn lemma_asset_details_command(uuid: Seq<char>)
    ensures
        command_line((RequestView::AssetDetails { uuid }).arguments().unwrap())
            == (RequestView::AssetDetails { uuid }).command(),
{
    reveal_with_fuel(command_line, 8);
    reveal_strlit("asset");
    reveal_strlit("get");
    reveal_strlit("--uuid");
    reveal_strlit("--format");
    reveal_strlit("json");
    reveal_strlit("--metadata");
    reveal_strlit("pcli2 asset get --uuid ");
    reveal_strlit(" --format json --metadata");
    let request = RequestView::AssetDetails { uuid };
    assert(command_line(request.arguments().unwrap()) =~= request.command());
}

proof fn lemma_search_command(query: Seq<char>)
    ensures
        command_line((RequestView::SearchAssets { query }).arguments().unwrap())
            == (RequestView::SearchAssets { query }).command(),
{
    reveal_with_fuel(command_line, 8);
    reveal_strlit("asset");
    reveal_strlit("text-match");
    reveal_strlit("--text");
    reveal_strlit("--format");
    reveal_strlit("json");
    reveal_strlit("--metadata");
    reveal_strlit("pcli2 asset text-match --text ");
    reveal_strlit(" --format json --metadata");
    let request = RequestView::SearchAssets { query };
    assert(command_line(request.arguments().unwrap()) =~= request.command());
}

proof fn lemma_geometric_match_command(uuid: Seq<char>)
    ensures
        command_line((RequestView::GeometricMatch { uuid }).arguments().unwrap())
            == (RequestView::GeometricMatch { uuid }).command(),
{
    reveal_with_fuel(command_line, 8);
    reveal_strlit("asset");
    reveal_strlit("geometric-match");
    reveal_strlit("--uuid");
    reveal_strlit("--format");
    reveal_strlit("json");
    reveal_strlit("--metadata");
    reveal_strlit("pcli2 asset geometric-match --uuid ");
    reveal_strlit(" --format json --metadata");
    let request = RequestView::GeometricMatch { uuid };
    assert(command_line(request.arguments().unwrap()) =~= request.command());
}

proof fn lemma_download_command(uuid: Seq<char>)
    ensures
        command_line((RequestView::DownloadAsset { uuid }).arguments().unwrap())
            == (RequestView::DownloadAsset { uuid }).command(),
{
    reveal_with_fuel(command_line, 5);
    reveal_strlit("asset");
    reveal_strlit("download");
    reveal_strlit("--uuid");
    reveal_strlit("pcli2 asset download --uuid ");
    reveal_strlit("");
    let request = RequestView::DownloadAsset { uuid };
    assert(command_line(request.arguments().unwrap()) =~= request.command());
}

proof fn lemma_upload_command(file_path: Seq<char>, folder: Seq<char>)
    ensures
        command_line((RequestView::UploadAsset { file_path, folder }).arguments().unwrap())
            == (RequestView::UploadAsset { file_path, folder }).command(),
{
    reveal_with_fuel(command_line, 7);
    reveal_strlit("asset");
    reveal_strlit("create");
    reveal_strlit("--file");
    reveal_strlit("--folder");
    reveal_strlit("pcli2 asset create --file ");
    reveal_strlit(" --folder ");
    reveal_strlit("");
    let request = RequestView::UploadAsset { file_path, folder };
    assert(command_line(request.arguments().unwrap()) =~= request.command());
}

/// The command of a request is its invocation written out: the name of the
/// tool, then each argument behind a blank, the values in quotes. What the
/// log and the history show is what is run.
pub proof fn law_the_command_shows_the_invocation(request: RequestView)
    ensures
        match request.arguments() {
            Some(arguments) => command_line(arguments) == request.command(),
            None => request.command() == Seq::<char>::empty(),
        },
{
    match request {
        RequestView::ListFolders => lemma_list_folders_command(),
        RequestView::ListSubfolders { path } => lemma_list_subfolders_command(path),
        RequestView::ListAssets { path } => lemma_list_assets_command(path),
        RequestView::AssetDetails { uuid } => lemma_asset_details_command(uuid),
        RequestView::SearchAssets { query } => lemma_search_command(query),
        RequestView::GeometricMatch { uuid } => lemma_geometric_match_command(uuid),
        RequestView::DownloadAsset { uuid } => lemma_download_command(uuid),
        RequestView::UploadAsset { file_path, folder } => lemma_upload_command(file_path, folder),
        RequestView::CopyText { text } => {},
    }
}

} // verus!
