//! The records the browser shows and caches, each with the mathematical view
//! that the contracts of this crate are written over.

use vstd::prelude::*;

verus! {

/// The identifier and name of the synthetic entry that stands for "go to parent".
pub open spec fn sentinel_id() -> Seq<char> {
    seq!['.', '.']
}

/// The main view that is shown.
#[derive(Clone, Copy, Debug, PartialEq, Eq, Structural)]
pub enum AppState {
    Folders,
    Assets,
    Search,
    Uploading,
    Downloading,
    Help,
    CommandHistory,
    Log,
    PaneResize,
}

/// The pane that selection keys and the mouse wheel act on.
#[derive(Clone, Copy, Debug, PartialEq, Eq, Structural)]
pub enum ActivePane {
    Folders,
    Assets,
    Log,
}

/// The element of the search modal that has the focus.
#[derive(Clone, Copy, Debug, PartialEq, Eq, Structural)]
pub enum SearchModalFocus {
    Input,
    Results,
}

/// One folder of a listing.
#[derive(Debug)]
pub struct Folder {
    pub uuid: String,
    pub name: String,
    /// Full path, separated by `/`; the key of the folder.
    pub path: String,
    pub folders_count: u32,
    pub assets_count: u32,
    /// Informational only.
    pub parent_uuid: Option<String>,
    /// The folders below this one; listings leave it empty.
    pub children: Vec<Folder>,
}

/// The mathematical view of a `Folder`.
pub struct FolderView {
    pub uuid: Seq<char>,
    pub name: Seq<char>,
    pub path: Seq<char>,
    pub folders_count: u32,
    pub assets_count: u32,
    pub parent_uuid: Option<Seq<char>>,
    pub children: Seq<FolderView>,
}

/// The view of a folder: the texts of its fields, and the views of the
/// folders below it.
pub open spec fn folder_view(folder: Folder) -> FolderView
    decreases folder,
{
    FolderView {
        uuid: folder.uuid@,
        name: folder.name@,
        path: folder.path@,
        folders_count: folder.folders_count,
        assets_count: folder.assets_count,
        parent_uuid: match folder.parent_uuid {
            Some(p) => Some(p@),
            None => None,
        },
        children: Seq::new(
            folder.children@.len(),
            |i: int|
                if 0 <= i < folder.children@.len() {
                    folder_view(folder.children@[i])
                } else {
                    arbitrary()
                },
        ),
    }
}

impl View for Folder {
    type V = FolderView;

    open spec fn view(&self) -> FolderView {
        folder_view(*self)
    }
}

impl DeepView for Folder {
    type V = FolderView;

    open spec fn deep_view(&self) -> FolderView {
        self@
    }
}

impl FolderView {
    /// Whether this is the entry that stands for "go to parent".
    pub open spec fn is_sentinel(self) -> bool {
        self.uuid == sentinel_id()
    }
}

/// The sentinel entry of a listing whose parent is `parent`.
pub open spec fn sentinel_view(parent: Seq<char>) -> FolderView {
    FolderView {
        uuid: sentinel_id(),
        name: sentinel_id(),
        path: parent,
        folders_count: 0,
        assets_count: 0,
        parent_uuid: None,
        children: Seq::empty(),
    }
}

/// A copy of a folder, with copies of the folders below it.
pub fn copy_folder(folder: &Folder) -> (r: Folder)
    ensures
        r@ == folder@,
    decreases folder,
{
    let mut children: Vec<Folder> = Vec::new();
    let mut i: usize = 0;
    while i < folder.children.len()
        invariant
            i <= folder.children.len(),
            children.len() == i,
            forall|k: int| 0 <= k < i ==> children@[k]@ == folder.children@[k]@,
        decreases folder.children.len() - i,
    {
        let child = copy_folder(&folder.children[i]);
        children.push(child);
        i += 1;
    }
    let r = Folder {
        uuid: folder.uuid.clone(),
        name: folder.name.clone(),
        path: folder.path.clone(),
        folders_count: folder.folders_count,
        assets_count: folder.assets_count,
        parent_uuid: match &folder.parent_uuid {
            Some(p) => Some(p.clone()),
            None => None,
        },
        children,
    };
    assert(r@.children =~= folder@.children);
    r
}

impl Clone for Folder {
    fn clone(&self) -> (r: Self)
        ensures
            r@ == self@,
    {
        copy_folder(self)
    }
}

impl Folder {
    /// The synthetic first entry of a listing below the root; it carries the
    /// parent's path.
    pub fn sentinel(parent: String) -> (r: Folder)
        ensures
            r@ == sentinel_view(parent@),
    {
        proof {
            reveal_strlit("..");
        }
        let r = Folder {
            uuid: "..".to_owned(),
            name: "..".to_owned(),
            path: parent,
            folders_count: 0,
            assets_count: 0,
            parent_uuid: None,
            children: Vec::new(),
        };
        assert(r.uuid@ =~= sentinel_id());
        assert(r.name@ =~= sentinel_id());
        assert(r@.children =~= Seq::empty());
        r
    }

    /// Whether this is the entry that stands for "go to parent".
    pub fn is_sentinel(&self) -> (r: bool)
        ensures
            r == self@.is_sentinel(),
    {
        proof {
            reveal_strlit("..");
        }
        let dots = "..";
        assert(dots@ =~= sentinel_id());
        crate::text::same_text(self.uuid.as_str(), dots)
    }
}

/// One key of a metadata object, with the text that is shown for its value.
#[derive(Debug)]
pub struct MetadataField {
    pub key: String,
    pub value: String,
}

/// The mathematical view of a `MetadataField`.
pub struct MetadataFieldView {
    pub key: Seq<char>,
    pub value: Seq<char>,
}

impl View for MetadataField {
    type V = MetadataFieldView;

    open spec fn view(&self) -> MetadataFieldView {
        MetadataFieldView { key: self.key@, value: self.value@ }
    }
}

impl DeepView for MetadataField {
    type V = MetadataFieldView;

    open spec fn deep_view(&self) -> MetadataFieldView {
        self@
    }
}

impl Clone for MetadataField {
    fn clone(&self) -> (r: Self)
        ensures
            r@ == self@,
    {
        MetadataField { key: self.key.clone(), value: self.value.clone() }
    }
}

/// One top-level key of an asset's metadata.
#[derive(Debug)]
pub struct MetadataEntry {
    pub key: String,
    /// The text that is shown for the value.
    pub text: String,
    /// Where the value is itself an object: its keys, one level deep.
    pub nested: Option<Vec<MetadataField>>,
}

/// The mathematical view of a `MetadataEntry`.
pub struct MetadataEntryView {
    pub key: Seq<char>,
    pub text: Seq<char>,
    pub nested: Option<Seq<MetadataFieldView>>,
}

impl View for MetadataEntry {
    type V = MetadataEntryView;

    open spec fn view(&self) -> MetadataEntryView {
        MetadataEntryView {
            key: self.key@,
            text: self.text@,
            nested: match self.nested {
                Some(fields) => Some(fields.deep_view()),
                None => None,
            },
        }
    }
}

impl DeepView for MetadataEntry {
    type V = MetadataEntryView;

    open spec fn deep_view(&self) -> MetadataEntryView {
        self@
    }
}

impl Clone for MetadataEntry {
    fn clone(&self) -> (r: Self)
        ensures
            r@ == self@,
    {
        let nested = match &self.nested {
            Some(fields) => {
                let copy = fields.clone();
                assert(copy.deep_view() =~= fields.deep_view());
                Some(copy)
            },
            None => None,
        };
        MetadataEntry { key: self.key.clone(), text: self.text.clone(), nested }
    }
}

/// The free-form metadata of an asset: the keys of its object in their order,
/// or nothing where the backend sent no object.
#[derive(Debug)]
pub struct Metadata {
    pub entries: Vec<MetadataEntry>,
}

impl View for Metadata {
    type V = Seq<MetadataEntryView>;

    open spec fn view(&self) -> Seq<MetadataEntryView> {
        self.entries.deep_view()
    }
}

impl DeepView for Metadata {
    type V = Seq<MetadataEntryView>;

    open spec fn deep_view(&self) -> Seq<MetadataEntryView> {
        self@
    }
}

impl Clone for Metadata {
    fn clone(&self) -> (r: Self)
        ensures
            r@ == self@,
    {
        let entries = self.entries.clone();
        assert(entries.deep_view() =~= self.entries.deep_view());
        Metadata { entries }
    }
}

/// One asset of a listing or of a result list.
#[derive(Debug)]
pub struct Asset {
    pub uuid: String,
    pub name: String,
    /// The path of the folder the asset was listed under.
    pub folder_uuid: String,
    /// Free-form tag; it only selects an icon.
    pub file_type: String,
    pub size: Option<u64>,
    pub path: String,
    pub metadata: Metadata,
}

/// The mathematical view of an `Asset`.
pub struct AssetView {
    pub uuid: Seq<char>,
    pub name: Seq<char>,
    pub folder_uuid: Seq<char>,
    pub file_type: Seq<char>,
    pub size: Option<u64>,
    pub path: Seq<char>,
    pub metadata: Seq<MetadataEntryView>,
}

impl View for Asset {
    type V = AssetView;

    open spec fn view(&self) -> AssetView {
        AssetView {
            uuid: self.uuid@,
            name: self.name@,
            folder_uuid: self.folder_uuid@,
            file_type: self.file_type@,
            size: self.size,
            path: self.path@,
            metadata: self.metadata@,
        }
    }
}

impl DeepView for Asset {
    type V = AssetView;

    open spec fn deep_view(&self) -> AssetView {
        self@
    }
}

impl Clone for Asset {
    fn clone(&self) -> (r: Self)
        ensures
            r@ == self@,
    {
        Asset {
            uuid: self.uuid.clone(),
            name: self.name.clone(),
            folder_uuid: self.folder_uuid.clone(),
            file_type: self.file_type.clone(),
            size: self.size,
            path: self.path.clone(),
            metadata: self.metadata.clone(),
        }
    }
}

/// A folder record as the backend lists it.
#[derive(Debug)]
pub struct PcliFolder {
    pub id: String,
    pub name: String,
    pub path: String,
    pub assets_count: u32,
    pub folders_count: u32,
}

/// The mathematical view of a `PcliFolder`.
pub struct PcliFolderView {
    pub id: Seq<char>,
    pub name: Seq<char>,
    pub path: Seq<char>,
    pub assets_count: u32,
    pub folders_count: u32,
}

impl View for PcliFolder {
    type V = PcliFolderView;

    open spec fn view(&self) -> PcliFolderView {
        PcliFolderView {
            id: self.id@,
            name: self.name@,
            path: self.path@,
            assets_count: self.assets_count,
            folders_count: self.folders_count,
        }
    }
}

impl DeepView for PcliFolder {
    type V = PcliFolderView;

    open spec fn deep_view(&self) -> PcliFolderView {
        self@
    }
}

/// An asset record as the backend lists it.
#[derive(Debug)]
pub struct PcliAsset {
    pub uuid: String,
    pub name: String,
    pub path: String,
    pub file_type: String,
    pub file_size: Option<u64>,
    pub processing_status: String,
    pub created_at: String,
    pub updated_at: String,
    pub metadata: Metadata,
    pub is_assembly: bool,
}

/// The mathematical view of a `PcliAsset`.
pub struct PcliAssetView {
    pub uuid: Seq<char>,
    pub name: Seq<char>,
    pub path: Seq<char>,
    pub file_type: Seq<char>,
    pub file_size: Option<u64>,
    pub processing_status: Seq<char>,
    pub created_at: Seq<char>,
    pub updated_at: Seq<char>,
    pub metadata: Seq<MetadataEntryView>,
    pub is_assembly: bool,
}

impl View for PcliAsset {
    type V = PcliAssetView;

    open spec fn view(&self) -> PcliAssetView {
        PcliAssetView {
            uuid: self.uuid@,
            name: self.name@,
            path: self.path@,
            file_type: self.file_type@,
            file_size: self.file_size,
            processing_status: self.processing_status@,
            created_at: self.created_at@,
            updated_at: self.updated_at@,
            metadata: self.metadata@,
            is_assembly: self.is_assembly,
        }
    }
}

impl DeepView for PcliAsset {
    type V = PcliAssetView;

    open spec fn deep_view(&self) -> PcliAssetView {
        self@
    }
}

/// One result of a geometric match as the backend reports it. The similarity
/// score is carried as the bit pattern of the backend's number and never
/// interpreted here.
#[derive(Debug)]
pub struct PcliMatch {
    pub asset: PcliAsset,
    pub similarity_bits: u64,
}

/// The mathematical view of a `PcliMatch`.
pub struct PcliMatchView {
    pub asset: PcliAssetView,
    pub similarity_bits: u64,
}

impl View for PcliMatch {
    type V = PcliMatchView;

    open spec fn view(&self) -> PcliMatchView {
        PcliMatchView { asset: self.asset@, similarity_bits: self.similarity_bits }
    }
}

impl DeepView for PcliMatch {
    type V = PcliMatchView;

    open spec fn deep_view(&self) -> PcliMatchView {
        self@
    }
}

/// One row of the geometric-match modal.
#[derive(Debug)]
pub struct GeometricMatch {
    pub asset: Asset,
    pub similarity_bits: u64,
}

/// The mathematical view of a `GeometricMatch`.
pub struct GeometricMatchView {
    pub asset: AssetView,
    pub similarity_bits: u64,
}

impl View for GeometricMatch {
    type V = GeometricMatchView;

    open spec fn view(&self) -> GeometricMatchView {
        GeometricMatchView { asset: self.asset@, similarity_bits: self.similarity_bits }
    }
}

impl DeepView for GeometricMatch {
    type V = GeometricMatchView;

    open spec fn deep_view(&self) -> GeometricMatchView {
        self@
    }
}

/// The full record of one asset, as the details modal shows it.
#[derive(Debug)]
pub struct AssetDetails {
    pub uuid: String,
    pub name: String,
    pub path: String,
    pub file_type: String,
    pub file_size: Option<u64>,
    pub processing_status: String,
    pub created_at: String,
    pub updated_at: String,
    pub is_assembly: bool,
    pub tenant_id: String,
    pub folder_id: String,
    pub state: String,
    pub metadata: Metadata,
}

/// The mathematical view of an `AssetDetails`.
pub struct AssetDetailsView {
    pub uuid: Seq<char>,
    pub name: Seq<char>,
    pub path: Seq<char>,
    pub file_type: Seq<char>,
    pub file_size: Option<u64>,
    pub processing_status: Seq<char>,
    pub created_at: Seq<char>,
    pub updated_at: Seq<char>,
    pub is_assembly: bool,
    pub tenant_id: Seq<char>,
    pub folder_id: Seq<char>,
    pub state: Seq<char>,
    pub metadata: Seq<MetadataEntryView>,
}

impl View for AssetDetails {
    type V = AssetDetailsView;

    open spec fn view(&self) -> AssetDetailsView {
        AssetDetailsView {
            uuid: self.uuid@,
            name: self.name@,
            path: self.path@,
            file_type: self.file_type@,
            file_size: self.file_size,
            processing_status: self.processing_status@,
            created_at: self.created_at@,
            updated_at: self.updated_at@,
            is_assembly: self.is_assembly,
            tenant_id: self.tenant_id@,
            folder_id: self.folder_id@,
            state: self.state@,
            metadata: self.metadata@,
        }
    }
}

/// What the cache holds for one directory: the folders and the assets that
/// were listed for that directory itself, each as far as it was listed and
/// each with the time it was captured at. Each part ages by its own time.
#[derive(Debug)]
pub struct FolderCache {
    /// The folders listed for the directory, if they were listed.
    pub folders: Option<Vec<Folder>>,
    /// When the folders were captured, in milliseconds since the Unix epoch.
    pub folders_timestamp: i64,
    /// The assets listed for the directory, if they were listed.
    pub assets: Option<Vec<Asset>>,
    /// When the assets were captured, in milliseconds since the Unix epoch.
    pub assets_timestamp: i64,
}

/// The mathematical view of a `FolderCache`.
pub struct FolderCacheView {
    pub folders: Option<Seq<FolderView>>,
    pub folders_timestamp: i64,
    pub assets: Option<Seq<AssetView>>,
    pub assets_timestamp: i64,
}

impl View for FolderCache {
    type V = FolderCacheView;

    open spec fn view(&self) -> FolderCacheView {
        FolderCacheView {
            folders: match self.folders {
                Some(folders) => Some(folders.deep_view()),
                None => None,
            },
            folders_timestamp: self.folders_timestamp,
            assets: match self.assets {
                Some(assets) => Some(assets.deep_view()),
                None => None,
            },
            assets_timestamp: self.assets_timestamp,
        }
    }
}

/// A copy of a listing's folders.
pub fn copy_folders(folders: &Vec<Folder>) -> (r: Vec<Folder>)
    ensures
        r.deep_view() == folders.deep_view(),
{
    let r = folders.clone();
    assert(r.deep_view() =~= folders.deep_view());
    r
}

/// A copy of a listing's assets.
pub fn copy_assets(assets: &Vec<Asset>) -> (r: Vec<Asset>)
    ensures
        r.deep_view() == assets.deep_view(),
{
    let r = assets.clone();
    assert(r.deep_view() =~= assets.deep_view());
    r
}

} // verus!
