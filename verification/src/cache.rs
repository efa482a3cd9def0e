//! The cache of listings, one entry for each directory path. An entry holds
//! only what was listed for its own path: the folders, the assets, or both,
//! each with the time it was captured at. A part is handed out only while
//! it is fresh; nothing removes a stale part but a later write or an
//! invalidation.

use crate::clock::{fresh, is_fresh};
use crate::model::{
    copy_assets, copy_folders, Asset, AssetView, Folder, FolderCache, FolderCacheView, FolderView,
};
use vstd::hash_map::StringHashMap;
use vstd::prelude::*;

verus! {

/// The folders that the cache holds fresh for `path` at the time `now`.
pub open spec fn fresh_folders(
    cache: Map<Seq<char>, FolderCacheView>,
    path: Seq<char>,
    now: i64,
) -> Option<Seq<FolderView>> {
    if cache.contains_key(path) && is_fresh(cache[path].folders_timestamp, now) {
        cache[path].folders
    } else {
        None
    }
}

/// The assets that the cache holds fresh for `path` at the time `now`.
pub open spec fn fresh_assets(
    cache: Map<Seq<char>, FolderCacheView>,
    path: Seq<char>,
    now: i64,
) -> Option<Seq<AssetView>> {
    if cache.contains_key(path) && is_fresh(cache[path].assets_timestamp, now) {
        cache[path].assets
    } else {
        None
    }
}

/// The entry that is handed out for `path` at the time `now`: what the
/// cache holds fresh for the path, if it holds anything fresh.
pub open spec fn fresh_entry(
    cache: Map<Seq<char>, FolderCacheView>,
    path: Seq<char>,
    now: i64,
) -> Option<FolderCacheView> {
    if fresh_folders(cache, path, now).is_some() || fresh_assets(cache, path, now).is_some() {
        Some(
            FolderCacheView {
                folders: fresh_folders(cache, path, now),
                folders_timestamp: cache[path].folders_timestamp,
                assets: fresh_assets(cache, path, now),
                assets_timestamp: cache[path].assets_timestamp,
            },
        )
    } else {
        None
    }
}

/// The entry for `path` once the folders listed for it at `now` are written:
/// they bear the time `now`, and what the entry holds of assets stays as it
/// is.
pub open spec fn entry_with_folders(
    cache: Map<Seq<char>, FolderCacheView>,
    path: Seq<char>,
    folders: Seq<FolderView>,
    now: i64,
) -> FolderCacheView {
    if cache.contains_key(path) {
        FolderCacheView { folders: Some(folders), folders_timestamp: now, ..cache[path] }
    } else {
        FolderCacheView {
            folders: Some(folders),
            folders_timestamp: now,
            assets: None,
            assets_timestamp: now,
        }
    }
}

/// The entry for `path` once the assets listed for it at `now` are written:
/// they bear the time `now`, and what the entry holds of folders stays as it
/// is.
pub open spec fn entry_with_assets(
    cache: Map<Seq<char>, FolderCacheView>,
    path: Seq<char>,
    assets: Seq<AssetView>,
    now: i64,
) -> FolderCacheView {
    if cache.contains_key(path) {
        FolderCacheView { assets: Some(assets), assets_timestamp: now, ..cache[path] }
    } else {
        FolderCacheView {
            folders: None,
            folders_timestamp: now,
            assets: Some(assets),
            assets_timestamp: now,
        }
    }
}

/// The cache after the folders listed for `path` at `now` were written.
pub open spec fn with_folders(
    cache: Map<Seq<char>, FolderCacheView>,
    path: Seq<char>,
    folders: Seq<FolderView>,
    now: i64,
) -> Map<Seq<char>, FolderCacheView> {
    cache.insert(path, entry_with_folders(cache, path, folders, now))
}

/// The cache after the assets listed for `path` at `now` were written.
pub open spec fn with_assets(
    cache: Map<Seq<char>, FolderCacheView>,
    path: Seq<char>,
    assets: Seq<AssetView>,
    now: i64,
) -> Map<Seq<char>, FolderCacheView> {
    cache.insert(path, entry_with_assets(cache, path, assets, now))
}

/// The cache of listings.
pub struct CacheManager {
    entries: StringHashMap<FolderCache>,
}

impl View for CacheManager {
    type V = Map<Seq<char>, FolderCacheView>;

    closed spec fn view(&self) -> Map<Seq<char>, FolderCacheView> {
        Map::new(
            |path: Seq<char>| self.entries@.contains_key(path),
            |path: Seq<char>| self.entries@[path]@,
        )
    }
}

impl CacheManager {
    /// An empty cache.
    pub fn new() -> (r: CacheManager)
        ensures
            r@ == Map::<Seq<char>, FolderCacheView>::empty(),
    {
        let r = CacheManager { entries: StringHashMap::new() };
        assert(r@ =~= Map::<Seq<char>, FolderCacheView>::empty());
        r
    }

    /// A copy of the folders that are held fresh for `path` at `now`.
    pub fn folders(&self, path: &str, now: i64) -> (r: Option<Vec<Folder>>)
        ensures
            match r {
                Some(folders) => fresh_folders(self@, path@, now) == Some(folders.deep_view()),
                None => fresh_folders(self@, path@, now).is_none(),
            },
    {
        match self.entries.get(path) {
            Some(entry) => match &entry.folders {
                Some(folders) => if fresh(entry.folders_timestamp, now) {
                    Some(copy_folders(folders))
                } else {
                    None
                },
                None => None,
            },
            None => None,
        }
    }

    /// A copy of the assets that are held fresh for `path` at `now`.
    pub fn assets(&self, path: &str, now: i64) -> (r: Option<Vec<Asset>>)
        ensures
            match r {
                Some(assets) => fresh_assets(self@, path@, now) == Some(assets.deep_view()),
                None => fresh_assets(self@, path@, now).is_none(),
            },
    {
        match self.entries.get(path) {
            Some(entry) => match &entry.assets {
                Some(assets) => if fresh(entry.assets_timestamp, now) {
                    Some(copy_assets(assets))
                } else {
                    None
                },
                None => None,
            },
            None => None,
        }
    }

    /// What is held fresh for `path` at `now`, if anything is: the parts that
    /// are fresh, each with its time.
    pub fn get(&self, path: &str, now: i64) -> (r: Option<FolderCache>)
        ensures
            match r {
                Some(entry) => fresh_entry(self@, path@, now) == Some(entry@),
                None => fresh_entry(self@, path@, now).is_none(),
            },
    {
        let folders = self.folders(path, now);
        let assets = self.assets(path, now);
        if folders.is_none() && assets.is_none() {
            return None;
        }
        match self.entries.get(path) {
            Some(entry) => Some(
                FolderCache {
                    folders,
                    folders_timestamp: entry.folders_timestamp,
                    assets,
                    assets_timestamp: entry.assets_timestamp,
                },
            ),
            None => None,
        }
    }

    /// Whether there is an entry for `path`, fresh or not.
    pub fn contains(&self, path: &str) -> (r: bool)
        ensures
            r == self@.contains_key(path@),
    {
        self.entries.contains_key(path)
    }

    /// Writes the entry for `path`, over any that was there.
    pub fn put(&mut self, path: String, entry: FolderCache)
        ensures
            final(self)@ == old(self)@.insert(path@, entry@),
    {
        self.entries.insert(path, entry);
        assert(self@ =~= old(self)@.insert(path@, entry@));
    }

    /// Writes the folders that were listed for `path` at `now`.
    pub fn put_folders(&mut self, path: String, folders: Vec<Folder>, now: i64)
        ensures
            final(self)@ == with_folders(old(self)@, path@, folders.deep_view(), now),
    {
        let entry = match self.entries.get(path.as_str()) {
            Some(entry) => FolderCache {
                folders: Some(folders),
                folders_timestamp: now,
                assets: match &entry.assets {
                    Some(assets) => Some(copy_assets(assets)),
                    None => None,
                },
                assets_timestamp: entry.assets_timestamp,
            },
            None => FolderCache {
                folders: Some(folders),
                folders_timestamp: now,
                assets: None,
                assets_timestamp: now,
            },
        };
        self.put(path, entry);
    }

    /// Writes the assets that were listed for `path` at `now`.
    pub fn put_assets(&mut self, path: String, assets: Vec<Asset>, now: i64)
        ensures
            final(self)@ == with_assets(old(self)@, path@, assets.deep_view(), now),
    {
        let entry = match self.entries.get(path.as_str()) {
            Some(entry) => FolderCache {
                folders: match &entry.folders {
                    Some(folders) => Some(copy_folders(folders)),
                    None => None,
                },
                folders_timestamp: entry.folders_timestamp,
                assets: Some(assets),
                assets_timestamp: now,
            },
            None => FolderCache {
                folders: None,
                folders_timestamp: now,
                assets: Some(assets),
                assets_timestamp: now,
            },
        };
        self.put(path, entry);
    }

    /// Removes the entry for `path`, if there is one.
    pub fn invalidate(&mut self, path: &str)
        ensures
            final(self)@ == old(self)@.remove(path@),
    {
        self.entries.remove(path);
        assert(self@ =~= old(self)@.remove(path@));
    }
}

} // verus!
