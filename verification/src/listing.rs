//! From the backend's records to the listings that are shown: the folders
//! of a directory with the entry that leads back to its parent, and the
//! assets of a directory or of a result list.

use crate::model::{
    sentinel_view, Asset, AssetView, Folder, FolderView, GeometricMatch, GeometricMatchView,
    Metadata, MetadataEntryView, PcliAsset, PcliAssetView, PcliFolder, PcliFolderView, PcliMatch,
    PcliMatchView,
};
use crate::text::{
    contains_separator, first_segment, first_segment_of, has_separator, leaf_name, leaf_of,
    parent_of, parent_path,
};
use vstd::prelude::*;

verus! {

/// The folder that is shown for a record of the backend.
pub open spec fn folder_of(record: PcliFolderView) -> FolderView {
    FolderView {
        uuid: record.id,
        name: record.name,
        path: record.path,
        folders_count: record.folders_count,
        assets_count: record.assets_count,
        parent_uuid: None,
        children: Seq::empty(),
    }
}

/// The asset that is shown for a record of the backend, listed under `folder`.
pub open spec fn asset_of(record: PcliAssetView, folder: Seq<char>) -> AssetView {
    AssetView {
        uuid: record.uuid,
        name: record.name,
        folder_uuid: folder,
        file_type: record.file_type,
        size: record.file_size,
        path: record.path,
        metadata: record.metadata,
    }
}

/// The asset that is shown for a record found by a search or a match: it is
/// listed under the first segment of its own path.
pub open spec fn found_asset_of(record: PcliAssetView) -> AssetView {
    asset_of(record, first_segment(record.path))
}

/// The row that is shown for one result of a geometric match.
pub open spec fn match_of(record: PcliMatchView) -> GeometricMatchView {
    GeometricMatchView {
        asset: found_asset_of(record.asset),
        similarity_bits: record.similarity_bits,
    }
}

/// Whether a record stands directly below the root.
pub open spec fn is_top_level(record: PcliFolderView) -> bool {
    !has_separator(record.path)
}

/// The listing of the root: the records directly below it, in their order.
pub open spec fn root_listing(records: Seq<PcliFolderView>) -> Seq<FolderView> {
    records.filter(|r: PcliFolderView| is_top_level(r)).map_values(
        |r: PcliFolderView| folder_of(r),
    )
}

/// The listing of the directory `path`: every record in its order, after
/// the entry that leads to the parent. Only the directory with the empty
/// path has no parent and no such entry.
pub open spec fn subfolder_listing(path: Seq<char>, records: Seq<PcliFolderView>) -> Seq<
    FolderView,
> {
    let folders = records.map_values(|r: PcliFolderView| folder_of(r));
    if path.len() > 0 {
        seq![sentinel_view(parent_path(path))] + folders
    } else {
        folders
    }
}

/// The assets of the directory `folder`.
pub open spec fn asset_listing(records: Seq<PcliAssetView>, folder: Seq<char>) -> Seq<AssetView> {
    records.map_values(|r: PcliAssetView| asset_of(r, folder))
}

/// The assets that a search found.
pub open spec fn found_listing(records: Seq<PcliAssetView>) -> Seq<AssetView> {
    records.map_values(|r: PcliAssetView| found_asset_of(r))
}

/// The rows of a geometric match.
pub open spec fn match_listing(records: Seq<PcliMatchView>) -> Seq<GeometricMatchView> {
    records.map_values(|r: PcliMatchView| match_of(r))
}

impl Folder {
    /// The folder that is shown for a record of the backend.
    pub fn from_record(record: PcliFolder) -> (r: Folder)
        ensures
            r@ == folder_of(record@),
    {
        let r = Folder {
            uuid: record.id,
            name: record.name,
            path: record.path,
            folders_count: record.folders_count,
            assets_count: record.assets_count,
            parent_uuid: None,
            children: Vec::new(),
        };
        assert(r@.children =~= Seq::empty());
        r
    }
}

impl Asset {
    /// The asset that is shown for a record of the backend, listed under
    /// `folder`.
    pub fn from_record(record: PcliAsset, folder: String) -> (r: Asset)
        ensures
            r@ == asset_of(record@, folder@),
    {
        Asset {
            uuid: record.uuid,
            name: record.name,
            folder_uuid: folder,
            file_type: record.file_type,
            size: record.file_size,
            path: record.path,
            metadata: record.metadata,
        }
    }

    /// The asset that is shown for a record found by a search or a match.
    pub fn from_found(record: PcliAsset) -> (r: Asset)
        ensures
            r@ == found_asset_of(record@),
    {
        let folder = first_segment_of(record.path.as_str());
        Asset::from_record(record, folder)
    }
}

impl GeometricMatch {
    /// The row that is shown for one result of a geometric match.
    pub fn from_record(record: PcliMatch) -> (r: GeometricMatch)
        ensures
            r@ == match_of(record@),
    {
        GeometricMatch {
            asset: Asset::from_found(record.asset),
            similarity_bits: record.similarity_bits,
        }
    }
}

/// The listing of the root.
pub fn root_folders(records: Vec<PcliFolder>) -> (r: Vec<Folder>)
    ensures
        r.deep_view() == root_listing(records.deep_view()),
{
    let ghost all = records.deep_view();
    let ghost keep = |r: PcliFolderView| is_top_level(r);
    let ghost conv = |r: PcliFolderView| folder_of(r);
    let mut out: Vec<Folder> = Vec::new();
    assert(out.deep_view() =~= all.take(0).filter(keep).map_values(conv));
    for record in it: records
        invariant
            it.seq().len() == all.len(),
            forall|k: int| 0 <= k < all.len() ==> (#[trigger] it.seq()[k])@ == all[k],
            keep == |r: PcliFolderView| is_top_level(r),
            conv == |r: PcliFolderView| folder_of(r),
            out.deep_view() == all.take(it.index()).filter(keep).map_values(conv),
    {
        let ghost i = it.index();
        let ghost before = out.deep_view();
        proof {
            all.lemma_take_succ_push(i);
            all.take(i).lemma_filter_push(all[i], keep);
        }
        if !contains_separator(record.path.as_str()) {
            out.push(Folder::from_record(record));
            assert(out.deep_view() =~= before.push(folder_of(all[i])));
            assert(all.take(i + 1).filter(keep).map_values(conv) =~= all.take(i).filter(
                keep,
            ).map_values(conv).push(folder_of(all[i])));
        }
    }
    assert(all.take(all.len() as int) =~= all);
    out
}

/// The listing of the directory `path`.
pub fn subfolders(path: &str, records: Vec<PcliFolder>) -> (r: Vec<Folder>)
    ensures
        r.deep_view() == subfolder_listing(path@, records.deep_view()),
{
    let ghost all = records.deep_view();
    let mut out: Vec<Folder> = Vec::new();
    let lead: usize = if path.is_empty() {
        0
    } else {
        out.push(Folder::sentinel(parent_of(path)));
        1
    };
    for record in it: records
        invariant
            it.seq().len() == all.len(),
            forall|k: int| 0 <= k < all.len() ==> (#[trigger] it.seq()[k])@ == all[k],
            lead == if path@.len() > 0 {
                1int
            } else {
                0int
            },
            out.len() == lead + it.index(),
            lead == 1 ==> out[0]@ == sentinel_view(parent_path(path@)),
            forall|k: int| 0 <= k < it.index() ==> (#[trigger] out[lead + k])@ == folder_of(all[k]),
    {
        out.push(Folder::from_record(record));
    }
    proof {
        let want = subfolder_listing(path@, all);
        assert(out.len() == want.len());
        assert forall|j: int| 0 <= j < out.len() implies out.deep_view()[j] == want[j] by {
            if j >= lead {
                let k = j - lead;
                assert(out[lead + k]@ == folder_of(all[k]));
            }
        }
        assert(out.deep_view() =~= want);
    }
    out
}

/// The assets of the directory `folder`.
pub fn assets_of_folder(records: Vec<PcliAsset>, folder: &str) -> (r: Vec<Asset>)
    ensures
        r.deep_view() == asset_listing(records.deep_view(), folder@),
{
    let ghost all = records.deep_view();
    let mut out: Vec<Asset> = Vec::new();
    for record in it: records
        invariant
            it.seq().len() == all.len(),
            forall|k: int| 0 <= k < all.len() ==> (#[trigger] it.seq()[k])@ == all[k],
            out.len() == it.index(),
            forall|k: int| 0 <= k < it.index() ==> (#[trigger] out[k])@ == asset_of(all[k], folder@),
    {
        out.push(Asset::from_record(record, folder.to_owned()));
    }
    assert(out.deep_view() =~= asset_listing(all, folder@));
    out
}

/// The assets that a search found.
pub fn found_assets(records: Vec<PcliAsset>) -> (r: Vec<Asset>)
    ensures
        r.deep_view() == found_listing(records.deep_view()),
{
    let ghost all = records.deep_view();
    let mut out: Vec<Asset> = Vec::new();
    for record in it: records
        invariant
            it.seq().len() == all.len(),
            forall|k: int| 0 <= k < all.len() ==> (#[trigger] it.seq()[k])@ == all[k],
            out.len() == it.index(),
            forall|k: int| 0 <= k < it.index() ==> (#[trigger] out[k])@ == found_asset_of(all[k]),
    {
        out.push(Asset::from_found(record));
    }
    assert(out.deep_view() =~= found_listing(all));
    out
}

/// The rows of a geometric match.
pub fn match_rows(records: Vec<PcliMatch>) -> (r: Vec<GeometricMatch>)
    ensures
        r.deep_view() == match_listing(records.deep_view()),
{
    let ghost all = records.deep_view();
    let mut out: Vec<GeometricMatch> = Vec::new();
    for record in it: records
        invariant
            it.seq().len() == all.len(),
            forall|k: int| 0 <= k < all.len() ==> (#[trigger] it.seq()[k])@ == all[k],
            out.len() == it.index(),
            forall|k: int| 0 <= k < it.index() ==> (#[trigger] out[k])@ == match_of(all[k]),
    {
        out.push(GeometricMatch::from_record(record));
    }
    assert(out.deep_view() =~= match_listing(all));
    out
}

/// One match of a text search, as the backend reports it: several fields
/// may be missing, and dates come under either of two names.
#[derive(Debug)]
pub struct SearchResultAsset {
    pub uuid: String,
    pub path: String,
    pub file_type: String,
    pub file_size: Option<u64>,
    pub state: Option<String>,
    pub created_at: Option<String>,
    pub created_at_legacy: Option<String>,
    pub updated_at: Option<String>,
    pub updated_at_legacy: Option<String>,
    pub metadata: Option<Metadata>,
    pub is_assembly: Option<bool>,
}

/// The text that stands for a missing field.
pub open spec fn unknown_text() -> Seq<char> {
    "unknown"@
}

/// The first of two optional texts that is there, else "unknown".
pub open spec fn first_known(a: Option<String>, b: Option<String>) -> Seq<char> {
    match a {
        Some(s) => s@,
        None => match b {
            Some(s) => s@,
            None => unknown_text(),
        },
    }
}

/// The first of two optional texts that is there, else "unknown".
pub fn first_known_of(a: Option<String>, b: Option<String>) -> (r: String)
    ensures
        r@ == first_known(a, b),
{
    match a {
        Some(s) => s,
        None => match b {
            Some(s) => s,
            None => "unknown".to_owned(),
        },
    }
}

impl SearchResultAsset {
    /// The record for this match: it is named by the last segment of its
    /// path, and what is missing is filled in.
    pub open spec fn record(self) -> PcliAssetView {
        PcliAssetView {
            uuid: self.uuid@,
            name: leaf_name(self.path@),
            path: self.path@,
            file_type: self.file_type@,
            file_size: self.file_size,
            processing_status: first_known(self.state, None),
            created_at: first_known(self.created_at, self.created_at_legacy),
            updated_at: first_known(self.updated_at, self.updated_at_legacy),
            metadata: match self.metadata {
                Some(m) => m@,
                None => Seq::<MetadataEntryView>::empty(),
            },
            is_assembly: match self.is_assembly {
                Some(b) => b,
                None => false,
            },
        }
    }

    /// The record for this match.
    pub fn into_record(self) -> (r: PcliAsset)
        ensures
            r@ == self.record(),
    {
        let name = leaf_of(self.path.as_str());
        let metadata = match self.metadata {
            Some(m) => m,
            None => {
                let m = Metadata { entries: Vec::new() };
                assert(m@ =~= Seq::<MetadataEntryView>::empty());
                m
            },
        };
        PcliAsset {
            uuid: self.uuid,
            name,
            path: self.path,
            file_type: self.file_type,
            file_size: self.file_size,
            processing_status: first_known_of(self.state, None),
            created_at: first_known_of(self.created_at, self.created_at_legacy),
            updated_at: first_known_of(self.updated_at, self.updated_at_legacy),
            metadata,
            is_assembly: match self.is_assembly {
                Some(b) => b,
                None => false,
            },
        }
    }
}

} // verus!
