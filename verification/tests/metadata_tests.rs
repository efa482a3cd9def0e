use pcli2_tui::listing::{
    assets_of_folder, found_assets, match_rows, root_folders, subfolders, SearchResultAsset,
};
use pcli2_tui::metadata::{cell, column_keys, insert_key, shown_columns, text_before};
use pcli2_tui::model::{
    Asset, Folder, Metadata, MetadataEntry, MetadataField, PcliAsset, PcliFolder, PcliMatch,
};

fn field(key: &str, value: &str) -> MetadataField {
    MetadataField { key: key.to_string(), value: value.to_string() }
}

fn plain(key: &str, text: &str) -> MetadataEntry {
    MetadataEntry { key: key.to_string(), text: text.to_string(), nested: None }
}

fn object(key: &str, fields: Vec<MetadataField>) -> MetadataEntry {
    MetadataEntry { key: key.to_string(), text: "{..}".to_string(), nested: Some(fields) }
}

fn asset_with(entries: Vec<MetadataEntry>) -> Asset {
    Asset {
        uuid: "u".to_string(),
        name: "n".to_string(),
        folder_uuid: "f".to_string(),
        file_type: "model".to_string(),
        size: None,
        path: "f/n".to_string(),
        metadata: Metadata { entries },
    }
}

fn pairs(fields: &[MetadataField]) -> Vec<(String, String)> {
    fields.iter().map(|f| (f.key.clone(), f.value.clone())).collect()
}

fn record(path: &str) -> PcliAsset {
    PcliAsset {
        uuid: "u".to_string(),
        name: "n".to_string(),
        path: path.to_string(),
        file_type: "model".to_string(),
        file_size: Some(3),
        processing_status: "done".to_string(),
        created_at: "c".to_string(),
        updated_at: "u".to_string(),
        metadata: Metadata { entries: vec![plain("k", "v")] },
        is_assembly: true,
    }
}

fn folder_record(path: &str) -> PcliFolder {
    PcliFolder {
        id: format!("id:{}", path),
        name: format!("name:{}", path),
        path: path.to_string(),
        assets_count: 2,
        folders_count: 3,
    }
}

#[test]
fn the_keys_under_meta_stand_as_if_at_the_top() {
    let metadata = Metadata {
        entries: vec![
            plain("color", "red"),
            object("meta", vec![field("mass", "12"), field("maker", "acme")]),
            plain("zone", "7"),
        ],
    };
    assert_eq!(
        pairs(&metadata.flat()),
        vec![
            ("color".to_string(), "red".to_string()),
            ("mass".to_string(), "12".to_string()),
            ("maker".to_string(), "acme".to_string()),
            ("zone".to_string(), "7".to_string()),
        ]
    );
}

#[test]
fn a_meta_that_is_no_object_is_a_key_like_any_other() {
    let metadata = Metadata { entries: vec![plain("meta", "just text")] };
    assert_eq!(pairs(&metadata.flat()), vec![("meta".to_string(), "just text".to_string())]);
}

#[test]
fn an_object_under_another_key_is_not_taken_apart() {
    let metadata = Metadata { entries: vec![object("dims", vec![field("x", "1")])] };
    assert_eq!(pairs(&metadata.flat()), vec![("dims".to_string(), "{..}".to_string())]);
}

#[test]
fn metadata_without_entries_is_flat_already() {
    assert!(Metadata { entries: Vec::new() }.flat().is_empty());
    assert!(Metadata { entries: vec![object("meta", Vec::new())] }.flat().is_empty());
}

#[test]
fn a_cell_holds_the_first_value_of_its_key_or_nothing() {
    let fields = vec![field("a", "1"), field("b", "2"), field("a", "3")];
    assert_eq!(cell(&fields, "a"), "1");
    assert_eq!(cell(&fields, "b"), "2");
    assert_eq!(cell(&fields, "c"), "");
    assert_eq!(cell(&Vec::new(), "a"), "");
}

#[test]
fn the_columns_are_all_keys_once_and_in_order() {
    let assets = vec![
        asset_with(vec![plain("zone", "1"), plain("color", "red")]),
        asset_with(vec![object("meta", vec![field("mass", "3"), field("color", "blue")])]),
        asset_with(Vec::new()),
        asset_with(vec![plain("Zone", "2"), plain("meta", "flat")]),
    ];
    assert_eq!(column_keys(&assets), vec!["Zone", "color", "mass", "meta", "zone"]);
    assert!(column_keys(&Vec::new()).is_empty());
}

#[test]
fn the_columns_come_in_the_order_of_sorted_strings() {
    let names = ["b", "a", "ab", "", "B", "é", "z", "aa", "a", "~", "0", "ab"];
    let assets: Vec<Asset> = names.iter().map(|n| asset_with(vec![plain(n, "x")])).collect();
    let mut expected: Vec<String> = names.iter().map(|n| n.to_string()).collect();
    expected.sort();
    expected.dedup();
    assert_eq!(column_keys(&assets), expected);
}

#[test]
fn a_key_is_put_at_its_place_once() {
    let mut keys: Vec<String> = Vec::new();
    for key in ["m", "a", "z", "m", "b", "a"] {
        insert_key(&mut keys, key);
    }
    assert_eq!(keys, vec!["a", "b", "m", "z"]);
}

#[test]
fn texts_are_ordered_like_strings() {
    let texts = ["", "a", "ab", "b", "B", "é", "aé", "z"];
    for a in texts {
        for b in texts {
            let x: Vec<char> = a.chars().collect();
            let y: Vec<char> = b.chars().collect();
            assert_eq!(text_before(&x, &y), a < b, "{:?} before {:?}", a, b);
        }
    }
}

#[test]
fn the_root_listing_keeps_the_top_level_records_in_their_order() {
    let listing = root_folders(vec![
        folder_record("b"),
        folder_record("a/x"),
        folder_record("a"),
        folder_record("c/d/e"),
    ]);
    let paths: Vec<&str> = listing.iter().map(|f| f.path.as_str()).collect();
    assert_eq!(paths, vec!["b", "a"]);
    assert_eq!(listing[0].uuid, "id:b");
    assert_eq!(listing[0].name, "name:b");
    assert_eq!(listing[0].folders_count, 3);
    assert_eq!(listing[0].assets_count, 2);
    assert_eq!(listing[0].parent_uuid, None);
    assert!(root_folders(Vec::new()).is_empty());
}

#[test]
fn a_listing_below_the_root_starts_with_the_way_up() {
    let listing = subfolders("a/b", vec![folder_record("a/b/c"), folder_record("a/b/d")]);
    assert_eq!(listing.len(), 3);
    assert!(listing[0].is_sentinel());
    assert_eq!(listing[0].uuid, "..");
    assert_eq!(listing[0].name, "..");
    assert_eq!(listing[0].path, "a");
    assert_eq!(listing[0].assets_count, 0);
    assert!(!listing[1].is_sentinel());
    assert_eq!(listing[1].path, "a/b/c");
    assert_eq!(listing[2].path, "a/b/d");
    let top = subfolders("a", Vec::new());
    assert_eq!(top.len(), 1);
    assert_eq!(top[0].path, "");
}

#[test]
fn the_directory_with_the_empty_path_has_no_way_up() {
    let listing = subfolders("", vec![folder_record("x/y")]);
    assert_eq!(listing.len(), 1);
    assert_eq!(listing[0].path, "x/y");
}

#[test]
fn the_way_up_is_built_with_the_parent_path() {
    let up = Folder::sentinel("p/q".to_string());
    assert!(up.is_sentinel());
    assert_eq!(up.path, "p/q");
    assert_eq!(up.parent_uuid, None);
}

#[test]
fn listed_assets_are_filed_under_their_folder() {
    let assets = assets_of_folder(vec![record("a/b/x.stl"), record("elsewhere/y.stl")], "a/b");
    assert_eq!(assets.len(), 2);
    assert_eq!(assets[0].folder_uuid, "a/b");
    assert_eq!(assets[1].folder_uuid, "a/b");
    assert_eq!(assets[1].path, "elsewhere/y.stl");
    assert_eq!(assets[0].size, Some(3));
    assert_eq!(assets[0].metadata.entries[0].key, "k");
}

#[test]
fn found_assets_are_filed_under_the_first_segment_of_their_path() {
    let assets = found_assets(vec![record("a/b/x.stl"), record("y.stl")]);
    assert_eq!(assets[0].folder_uuid, "a");
    assert_eq!(assets[1].folder_uuid, "y.stl");
    let rows = match_rows(vec![PcliMatch { asset: record("p/q/r"), similarity_bits: 7 }]);
    assert_eq!(rows[0].asset.folder_uuid, "p");
    assert_eq!(rows[0].similarity_bits, 7);
}

#[test]
fn a_search_match_is_named_by_the_last_segment_of_its_path() {
    let found = SearchResultAsset {
        uuid: "u1".to_string(),
        path: "proj/sub/gear.stl".to_string(),
        file_type: "model".to_string(),
        file_size: Some(9),
        state: Some("ready".to_string()),
        created_at: None,
        created_at_legacy: Some("2020".to_string()),
        updated_at: Some("2022".to_string()),
        updated_at_legacy: Some("2021".to_string()),
        metadata: None,
        is_assembly: None,
    };
    let record = found.into_record();
    assert_eq!(record.uuid, "u1");
    assert_eq!(record.name, "gear.stl");
    assert_eq!(record.path, "proj/sub/gear.stl");
    assert_eq!(record.processing_status, "ready");
    assert_eq!(record.created_at, "2020");
    assert_eq!(record.updated_at, "2022");
    assert!(record.metadata.entries.is_empty());
    assert!(!record.is_assembly);
    assert_eq!(record.file_size, Some(9));
}

#[test]
fn what_a_search_match_lacks_is_unknown() {
    let found = SearchResultAsset {
        uuid: "u".to_string(),
        path: "lonely".to_string(),
        file_type: "t".to_string(),
        file_size: None,
        state: None,
        created_at: None,
        created_at_legacy: None,
        updated_at: None,
        updated_at_legacy: None,
        metadata: Some(Metadata { entries: vec![plain("k", "v")] }),
        is_assembly: Some(true),
    };
    let record = found.into_record();
    assert_eq!(record.name, "lonely");
    assert_eq!(record.processing_status, "unknown");
    assert_eq!(record.created_at, "unknown");
    assert_eq!(record.updated_at, "unknown");
    assert_eq!(record.metadata.entries.len(), 1);
    assert!(record.is_assembly);
}

#[test]
fn copies_of_records_hold_the_same_values() {
    let asset = asset_with(vec![plain("a", "1"), object("meta", vec![field("b", "2")])]);
    let copy = asset.clone();
    assert_eq!(copy.uuid, asset.uuid);
    assert_eq!(copy.path, asset.path);
    assert_eq!(pairs(&copy.metadata.flat()), pairs(&asset.metadata.flat()));
    let folder = Folder::sentinel("x".to_string());
    let copy = folder.clone();
    assert_eq!(copy.path, "x");
    assert_eq!(copy.uuid, "..");
}

#[test]
fn a_copy_of_a_folder_holds_copies_of_the_folders_below_it() {
    let mut top = Folder::sentinel("x".to_string());
    let mut middle = Folder::sentinel("x/y".to_string());
    middle.children.push(Folder::sentinel("x/y/z".to_string()));
    top.children.push(middle);
    top.children.push(Folder::sentinel("x/w".to_string()));
    let copy = top.clone();
    assert_eq!(copy.children.len(), 2);
    assert_eq!(copy.children[0].path, "x/y");
    assert_eq!(copy.children[0].children.len(), 1);
    assert_eq!(copy.children[0].children[0].path, "x/y/z");
    assert_eq!(copy.children[1].path, "x/w");
    assert!(copy.children[1].children.is_empty());
}

#[test]
fn listed_folders_have_no_folders_below_them() {
    let listing = subfolders("a", vec![folder_record("a/b")]);
    assert!(listing.iter().all(|f| f.children.is_empty()));
    let listing = root_folders(vec![folder_record("a")]);
    assert!(listing.iter().all(|f| f.children.is_empty()));
}

#[test]
fn a_panned_table_shows_the_columns_from_its_offset_on() {
    let keys: Vec<String> = ["a", "b", "c"].iter().map(|k| k.to_string()).collect();
    assert_eq!(shown_columns(&keys, 0), vec!["a", "b", "c"]);
    assert_eq!(shown_columns(&keys, 1), vec!["b", "c"]);
    assert_eq!(shown_columns(&keys, 2), vec!["c"]);
    assert!(shown_columns(&keys, 3).is_empty());
    assert!(shown_columns(&keys, u16::MAX).is_empty());
    assert!(shown_columns(&Vec::new(), 0).is_empty());
}
