//! File query: listing, searching, information and metadata of files.
use vstd::prelude::*;

use crate::errors::{
    api_error_message, is_api_error, unknown_after, NetDiskError, NetDiskResult,
};
use crate::encoding::{comma_decimals, json_encode_u64s, json_error_text, percent_encode, url_encode};
use crate::text::{
    chars_of, clone_opt_string, i32_to_string, int_decimal, owned, pair, pairs_view, str_eq,
    string_from_chars, strings_view, u32_to_string, u64_to_string,
};

verus! {

/// Options for listing directory contents
#[derive(Debug)]
pub struct ListOptions {
    /// Sort order field (default: "name")
    pub order: String,
    /// Sort order descending (default: true)
    pub desc: i32,
    /// Start offset (default: 0)
    pub start: i32,
    /// Limit per page (default: 100)
    pub limit: i32,
    /// Web mode flag (default: true)
    pub web: i32,
    /// Show only folders (default: false)
    pub folder: i32,
    /// Show empty folders (default: false)
    pub showempty: i32,
}

impl Default for ListOptions {
    fn default() -> (r: Self)
        ensures
            r.order@ == "name"@,
            r.desc == 1,
            r.start == 0,
            r.limit == 100,
            r.web == 1,
            r.folder == 0,
            r.showempty == 0,
    {
        ListOptions {
            order: owned("name"),
            desc: 1,
            start: 0,
            limit: 100,
            web: 1,
            folder: 0,
            showempty: 0,
        }
    }
}

impl ListOptions {
    /// Create new ListOptions with defaults
    pub fn new() -> (r: Self)
        ensures
            r.order@ == "name"@,
            r.desc == 1,
            r.start == 0,
            r.limit == 100,
            r.web == 1,
            r.folder == 0,
            r.showempty == 0,
    {
        Self::default()
    }

    /// Set sort order field
    pub fn order(self, order: &str) -> (r: Self)
        ensures
            r.order@ == order@,
            r == (ListOptions { order: r.order, ..self }),
    {
        let mut s = self;
        s.order = order.to_string();
        s
    }

    /// Set sort order (descending if true)
    pub fn desc(self, desc: bool) -> (r: Self)
        ensures
            r == (ListOptions { desc: if desc { 1i32 } else { 0i32 }, ..self }),
    {
        let mut s = self;
        s.desc = if desc { 1 } else { 0 };
        s
    }

    /// Set start offset
    pub fn start(self, start: i32) -> (r: Self)
        ensures
            r == (ListOptions { start: start, ..self }),
    {
        let mut s = self;
        s.start = start;
        s
    }

    /// Set limit per page
    pub fn limit(self, limit: i32) -> (r: Self)
        ensures
            r == (ListOptions { limit: limit, ..self }),
    {
        let mut s = self;
        s.limit = limit;
        s
    }

    /// Set web mode flag
    pub fn web(self, web: bool) -> (r: Self)
        ensures
            r == (ListOptions { web: if web { 1i32 } else { 0i32 }, ..self }),
    {
        let mut s = self;
        s.web = if web { 1 } else { 0 };
        s
    }

    /// Set show only folders flag
    pub fn folder(self, folder: bool) -> (r: Self)
        ensures
            r == (ListOptions { folder: if folder { 1i32 } else { 0i32 }, ..self }),
    {
        let mut s = self;
        s.folder = if folder { 1 } else { 0 };
        s
    }

    /// Set show empty folders flag
    pub fn showempty(self, showempty: bool) -> (r: Self)
        ensures
            r == (ListOptions { showempty: if showempty { 1i32 } else { 0i32 }, ..self }),
    {
        let mut s = self;
        s.showempty = if showempty { 1 } else { 0 };
        s
    }

}

/// Options for listing all files recursively
#[derive(Debug, Clone)]
pub struct ListAllOptions {
    /// Recursive listing (default: false)
    pub recursion: i32,
    /// Sort order field (default: "name")
    pub order: String,
    /// Sort order descending (default: false)
    pub desc: i32,
    /// Start offset (default: 0)
    pub start: i32,
    /// Limit per page (default: 1000)
    pub limit: i32,
    /// Filter by creation time
    pub ctime: Option<u64>,
    /// Filter by modification time
    pub mtime: Option<u64>,
    /// Web mode flag (default: false)
    pub web: i32,
    /// Device ID
    pub device_id: String,
}

impl Default for ListAllOptions {
    fn default() -> (r: Self)
        ensures
            r.recursion == 0,
            r.order@ == "name"@,
            r.desc == 0,
            r.start == 0,
            r.limit == 1000,
            r.ctime is None,
            r.mtime is None,
            r.web == 0,
            r.device_id@ == Seq::<char>::empty(),
    {
        ListAllOptions {
            recursion: 0,
            order: owned("name"),
            desc: 0,
            start: 0,
            limit: 1000,
            ctime: None,
            mtime: None,
            web: 0,
            device_id: String::new(),
        }
    }
}

impl ListAllOptions {
    /// Create new ListAllOptions with defaults
    pub fn new() -> (r: Self)
        ensures
            r.recursion == 0,
            r.order@ == "name"@,
            r.desc == 0,
            r.start == 0,
            r.limit == 1000,
            r.ctime is None,
            r.mtime is None,
            r.web == 0,
            r.device_id@ == Seq::<char>::empty(),
    {
        Self::default()
    }

    /// Set recursive mode
    pub fn recursion(self, recursion: bool) -> (r: Self)
        ensures
            r == (ListAllOptions { recursion: if recursion { 1i32 } else { 0i32 }, ..self }),
    {
        let mut s = self;
        s.recursion = if recursion { 1 } else { 0 };
        s
    }

    /// Set sort order field
    pub fn order(self, order: &str) -> (r: Self)
        ensures
            r.order@ == order@,
            r == (ListAllOptions { order: r.order, ..self }),
    {
        let mut s = self;
        s.order = order.to_string();
        s
    }

    /// Set sort order (descending if true)
    pub fn desc(self, desc: bool) -> (r: Self)
        ensures
            r == (ListAllOptions { desc: if desc { 1i32 } else { 0i32 }, ..self }),
    {
        let mut s = self;
        s.desc = if desc { 1 } else { 0 };
        s
    }

    /// Set start offset
    pub fn start(self, start: i32) -> (r: Self)
        ensures
            r == (ListAllOptions { start: start, ..self }),
    {
        let mut s = self;
        s.start = start;
        s
    }

    /// Set limit per page (max 1000)
    pub fn limit(self, limit: i32) -> (r: Self)
        ensures
            r == (ListAllOptions { limit: if limit < 1000 { limit } else { 1000i32 }, ..self }),
    {
        let mut s = self;
        s.limit = if limit < 1000 { limit } else { 1000 };
        s
    }

    /// Set creation time filter
    pub fn ctime(self, ctime: u64) -> (r: Self)
        ensures
            r == (ListAllOptions { ctime: Some(ctime), ..self }),
    {
        let mut s = self;
        s.ctime = Some(ctime);
        s
    }

    /// Set modification time filter
    pub fn mtime(self, mtime: u64) -> (r: Self)
        ensures
            r == (ListAllOptions { mtime: Some(mtime), ..self }),
    {
        let mut s = self;
        s.mtime = Some(mtime);
        s
    }

    /// Set web mode flag
    pub fn web(self, web: bool) -> (r: Self)
        ensures
            r == (ListAllOptions { web: if web { 1i32 } else { 0i32 }, ..self }),
    {
        let mut s = self;
        s.web = if web { 1 } else { 0 };
        s
    }

    /// Set device ID
    pub fn device_id(self, device_id: &str) -> (r: Self)
        ensures
            r.device_id@ == device_id@,
            r == (ListAllOptions { device_id: r.device_id, ..self }),
    {
        let mut s = self;
        s.device_id = device_id.to_string();
        s
    }

}

/// Options for keyword search
#[derive(Debug, Clone)]
pub struct SearchOptions {
    /// Directory to search in
    pub dir: String,
    /// File category filter
    pub category: Option<u32>,
    /// Recursive search flag
    pub recursion: bool,
    /// Web mode flag
    pub web: bool,
    /// Device ID
    pub device_id: String,
}

impl Default for SearchOptions {
    fn default() -> (r: Self)
        ensures
            r.dir@ == Seq::<char>::empty(),
            r.category is None,
            !r.recursion,
            !r.web,
            r.device_id@ == Seq::<char>::empty(),
    {
        SearchOptions {
            dir: String::new(),
            category: None,
            recursion: false,
            web: false,
            device_id: String::new(),
        }
    }
}

impl SearchOptions {
    /// Create new SearchOptions with directory
    pub fn new(dir: &str) -> (r: Self)
        ensures
            r.dir@ == dir@,
            r.category is None,
            !r.recursion,
            !r.web,
            r.device_id@ == Seq::<char>::empty(),
    {
        Self { dir: dir.to_string(), category: None, recursion: false, web: false, device_id: String::new() }
    }

    /// Set file category filter
    pub fn category(self, category: u32) -> (r: Self)
        ensures
            r == (SearchOptions { category: Some(category), ..self }),
    {
        let mut s = self;
        s.category = Some(category);
        s
    }

    /// Set recursive search flag
    pub fn recursion(self, recursion: bool) -> (r: Self)
        ensures
            r == (SearchOptions { recursion: recursion, ..self }),
    {
        let mut s = self;
        s.recursion = recursion;
        s
    }

    /// Set web mode flag
    pub fn web(self, web: bool) -> (r: Self)
        ensures
            r == (SearchOptions { web: web, ..self }),
    {
        let mut s = self;
        s.web = web;
        s
    }

    /// Set device ID
    pub fn device_id(self, device_id: &str) -> (r: Self)
        ensures
            r.device_id@ == device_id@,
            r == (SearchOptions { device_id: r.device_id, ..self }),
    {
        let mut s = self;
        s.device_id = device_id.to_string();
        s
    }

}

/// Options for semantic search
#[derive(Debug, Clone)]
pub struct SemanticSearchOptions {
    /// Directories to search in
    pub dirs: Vec<String>,
    /// File categories to search
    pub categories: Vec<u32>,
    /// Max number of results to return (default: 50)
    pub num: i32,
    /// Stream flag (default: 1)
    pub stream: i32,
    /// Search type (default: 0)
    pub search_type: i32,
    /// Sources to search from
    pub sources: Vec<i32>,
}

impl Default for SemanticSearchOptions {
    fn default() -> (r: Self)
        ensures
            r.dirs@ == Seq::<String>::empty(),
            r.categories@ == Seq::<u32>::empty(),
            r.num == 50,
            r.stream == 1,
            r.search_type == 0,
            r.sources@ == Seq::<i32>::empty(),
    {
        SemanticSearchOptions {
            dirs: Vec::new(),
            categories: Vec::new(),
            num: 50,
            stream: 1,
            search_type: 0,
            sources: Vec::new(),
        }
    }
}

impl SemanticSearchOptions {
    /// Create new SemanticSearchOptions with defaults
    pub fn new() -> (r: Self)
        ensures
            r.dirs@ == Seq::<String>::empty(),
            r.categories@ == Seq::<u32>::empty(),
            r.num == 50,
            r.stream == 1,
            r.search_type == 0,
            r.sources@ == Seq::<i32>::empty(),
    {
        Self::default()
    }

    /// Set file categories to search
    pub fn categories(self, categories: Vec<u32>) -> (r: Self)
        ensures
            r == (SemanticSearchOptions { categories: categories, ..self }),
    {
        let mut s = self;
        s.categories = categories;
        s
    }

    /// Set max number of results
    pub fn num(self, num: i32) -> (r: Self)
        ensures
            r == (SemanticSearchOptions { num: num, ..self }),
    {
        let mut s = self;
        s.num = num;
        s
    }

    /// Set stream flag
    pub fn stream(self, stream: i32) -> (r: Self)
        ensures
            r == (SemanticSearchOptions { stream: stream, ..self }),
    {
        let mut s = self;
        s.stream = stream;
        s
    }

    /// Set search type
    pub fn search_type(self, search_type: i32) -> (r: Self)
        ensures
            r == (SemanticSearchOptions { search_type: search_type, ..self }),
    {
        let mut s = self;
        s.search_type = search_type;
        s
    }

    /// Set sources to search from
    pub fn sources(self, sources: Vec<i32>) -> (r: Self)
        ensures
            r == (SemanticSearchOptions { sources: sources, ..self }),
    {
        let mut s = self;
        s.sources = sources;
        s
    }

}

impl SemanticSearchOptions {
    /// Set directories to search in
    pub fn dirs(self, dirs: Vec<&str>) -> (r: Self)
        ensures
            strings_view(r.dirs@) == dirs@.map_values(|s: &str| s@),
            r == (SemanticSearchOptions { dirs: r.dirs, ..self }),
    {
        let mut v: Vec<String> = Vec::new();
        let mut i: usize = 0;
        while i < dirs.len()
            invariant
                i <= dirs@.len(),
                strings_view(v@) == dirs@.subrange(0, i as int).map_values(|s: &str| s@),
            decreases dirs@.len() - i,
        {
            v.push(dirs[i].to_string());
            assert(dirs@.subrange(0, i + 1).map_values(|s: &str| s@) =~= dirs@.subrange(0, i as int).map_values(|s: &str| s@).push(dirs@[i as int]@));
            assert(strings_view(v@) =~= strings_view(v@.drop_last()).push(v@.last()@));
            i = i + 1;
        }
        assert(dirs@.subrange(0, dirs@.len() as int) =~= dirs@);
        let mut s = self;
        s.dirs = v;
        s
    }
}

/// File or folder information
#[derive(Debug)]
pub struct FileInfo {
    /// File server ID
    pub fs_id: Option<u64>,
    /// File full path
    pub path: String,
    /// File size in bytes
    pub size: Option<u64>,
    /// Creation time (timestamp)
    pub ctime: Option<u64>,
    /// Modification time (timestamp)
    pub mtime: Option<u64>,
    /// Is directory (1=directory, 0=file)
    pub isdir: Option<i32>,
    /// File name
    pub name: String,
    /// MD5 hash
    pub md5: Option<String>,
    /// File category
    pub category: Option<u32>,
    /// Operator ID
    pub oper_id: Option<u64>,
    /// Owner ID
    pub owner_id: Option<u64>,
    /// Owner type
    pub owner_type: Option<u32>,
    /// Server access time
    pub server_atime: Option<u64>,
    /// Server creation time
    pub server_ctime: Option<u64>,
    /// Server modification time
    pub server_mtime: Option<u64>,
}

impl Clone for FileInfo {
    fn clone(&self) -> (r: Self)
        ensures
            r == *self,
    {
        FileInfo {
            fs_id: self.fs_id,
            path: self.path.clone(),
            size: self.size,
            ctime: self.ctime,
            mtime: self.mtime,
            isdir: self.isdir,
            name: self.name.clone(),
            md5: clone_opt_string(&self.md5),
            category: self.category,
            oper_id: self.oper_id,
            owner_id: self.owner_id,
            owner_type: self.owner_type,
            server_atime: self.server_atime,
            server_ctime: self.server_ctime,
            server_mtime: self.server_mtime,
        }
    }
}

/// File metadata containing download link
#[derive(Debug)]
pub struct FileMeta {
    /// File server ID
    pub fs_id: Option<u64>,
    /// File path
    pub path: String,
    /// File size in bytes
    pub size: Option<u64>,
    /// File name
    pub name: String,
    /// Download link (dlink)
    pub dlink: Option<String>,
}

impl Clone for FileMeta {
    fn clone(&self) -> (r: Self)
        ensures
            r == *self,
    {
        FileMeta {
            fs_id: self.fs_id,
            path: self.path.clone(),
            size: self.size,
            name: self.name.clone(),
            dlink: clone_opt_string(&self.dlink),
        }
    }
}

} // verus!

verus! {

/// The message of an API error: the response's message, or "Unknown error"
/// when it has none.
pub open spec fn message_or_unknown(errmsg: Option<String>) -> Seq<char> {
    match errmsg {
        Some(m) => m@,
        None => "Unknown error"@,
    }
}

/// The API error of a failed response: its code, and its message or
/// "Unknown error".
pub fn response_error(errno: i32, errmsg: &Option<String>) -> (e: NetDiskError)
    ensures
        is_api_error(e, errno, api_error_message(errno, message_or_unknown(*errmsg))),
{
    match errmsg {
        Some(m) => NetDiskError::api_error(errno, m.as_str()),
        None => NetDiskError::api_error(errno, "Unknown error"),
    }
}

/// An item of a directory listing (and of a category search).
pub struct ListItem {
    pub fs_id: Option<u64>,
    pub path: String,
    pub size: Option<u64>,
    pub ctime: Option<u64>,
    pub mtime: Option<u64>,
    pub isdir: Option<i32>,
    pub server_filename: String,
    pub md5: Option<String>,
    pub category: Option<u32>,
    pub oper_id: Option<u64>,
    pub owner_id: Option<u64>,
    pub owner_type: Option<u32>,
    pub server_atime: Option<u64>,
    pub server_ctime: Option<u64>,
    pub server_mtime: Option<u64>,
}

/// The file information of a listing item: all its fields, its server file
/// name as the name.
pub open spec fn list_item_info(i: ListItem) -> FileInfo {
    FileInfo {
        fs_id: i.fs_id,
        path: i.path,
        size: i.size,
        ctime: i.ctime,
        mtime: i.mtime,
        isdir: i.isdir,
        name: i.server_filename,
        md5: i.md5,
        category: i.category,
        oper_id: i.oper_id,
        owner_id: i.owner_id,
        owner_type: i.owner_type,
        server_atime: i.server_atime,
        server_ctime: i.server_ctime,
        server_mtime: i.server_mtime,
    }
}

/// The file information of each listing item, in order.
pub fn list_items_info(items: &Vec<ListItem>) -> (r: Vec<FileInfo>)
    ensures
        r@ == items@.map_values(|i: ListItem| list_item_info(i)),
{
    let mut r: Vec<FileInfo> = Vec::new();
    let mut k: usize = 0;
    while k < items.len()
        invariant
            k <= items@.len(),
            r@ == items@.subrange(0, k as int).map_values(|i: ListItem| list_item_info(i)),
        decreases items@.len() - k,
    {
        let i = &items[k];
        let info = FileInfo {
            fs_id: i.fs_id,
            path: i.path.clone(),
            size: i.size,
            ctime: i.ctime,
            mtime: i.mtime,
            isdir: i.isdir,
            name: i.server_filename.clone(),
            md5: clone_opt_string(&i.md5),
            category: i.category,
            oper_id: i.oper_id,
            owner_id: i.owner_id,
            owner_type: i.owner_type,
            server_atime: i.server_atime,
            server_ctime: i.server_ctime,
            server_mtime: i.server_mtime,
        };
        r.push(info);
        assert(items@.subrange(0, k + 1).map_values(|i: ListItem| list_item_info(i))
            =~= items@.subrange(0, k as int).map_values(|i: ListItem| list_item_info(i)).push(
            list_item_info(items@[k as int]),
        ));
        k = k + 1;
    }
    assert(items@.subrange(0, items@.len() as int) =~= items@);
    r
}

/// An item of a recursive listing, a keyword search or a category list: its
/// times are the local ones.
pub struct MediaItem {
    pub category: Option<u32>,
    pub fs_id: Option<u64>,
    pub isdir: Option<i32>,
    pub local_ctime: Option<u64>,
    pub local_mtime: Option<u64>,
    pub md5: Option<String>,
    pub path: String,
    pub server_filename: String,
    pub server_ctime: Option<u64>,
    pub server_mtime: Option<u64>,
    pub size: Option<u64>,
}

/// The file information of such an item: its local times as the times, no
/// operator, owner or access time.
pub open spec fn media_item_info(i: MediaItem) -> FileInfo {
    FileInfo {
        fs_id: i.fs_id,
        path: i.path,
        size: i.size,
        ctime: i.local_ctime,
        mtime: i.local_mtime,
        isdir: i.isdir,
        name: i.server_filename,
        md5: i.md5,
        category: i.category,
        oper_id: None,
        owner_id: None,
        owner_type: None,
        server_atime: None,
        server_ctime: i.server_ctime,
        server_mtime: i.server_mtime,
    }
}

/// The file information of each such item, in order.
pub fn media_items_info(items: &Vec<MediaItem>) -> (r: Vec<FileInfo>)
    ensures
        r@ == items@.map_values(|i: MediaItem| media_item_info(i)),
{
    let mut r: Vec<FileInfo> = Vec::new();
    let mut k: usize = 0;
    while k < items.len()
        invariant
            k <= items@.len(),
            r@ == items@.subrange(0, k as int).map_values(|i: MediaItem| media_item_info(i)),
        decreases items@.len() - k,
    {
        let i = &items[k];
        let info = FileInfo {
            fs_id: i.fs_id,
            path: i.path.clone(),
            size: i.size,
            ctime: i.local_ctime,
            mtime: i.local_mtime,
            isdir: i.isdir,
            name: i.server_filename.clone(),
            md5: clone_opt_string(&i.md5),
            category: i.category,
            oper_id: None,
            owner_id: None,
            owner_type: None,
            server_atime: None,
            server_ctime: i.server_ctime,
            server_mtime: i.server_mtime,
        };
        r.push(info);
        assert(items@.subrange(0, k + 1).map_values(|i: MediaItem| media_item_info(i))
            =~= items@.subrange(0, k as int).map_values(|i: MediaItem| media_item_info(i)).push(
            media_item_info(items@[k as int]),
        ));
        k = k + 1;
    }
    assert(items@.subrange(0, items@.len() as int) =~= items@);
    r
}

/// Each file information of a directory listing carries its own item's
/// data: the server file name as the name, the item's path, identifier, size
/// and kind, its creation time as the creation time and its modification time
/// as the modification time.
pub proof fn lemma_listing_keeps_item_fields(items: Seq<ListItem>, k: int)
    requires
        0 <= k < items.len(),
    ensures
        ({
            let info = items.map_values(|i: ListItem| list_item_info(i))[k];
            let item = items[k];
            &&& info.name == item.server_filename
            &&& info.path == item.path
            &&& info.fs_id == item.fs_id
            &&& info.size == item.size
            &&& info.isdir == item.isdir
            &&& info.ctime == item.ctime
            &&& info.mtime == item.mtime
            &&& info.md5 == item.md5
            &&& info.category == item.category
            &&& info.oper_id == item.oper_id
            &&& info.owner_id == item.owner_id
            &&& info.owner_type == item.owner_type
            &&& info.server_atime == item.server_atime
            &&& info.server_ctime == item.server_ctime
            &&& info.server_mtime == item.server_mtime
        }),
        items.map_values(|i: ListItem| list_item_info(i)).len() == items.len(),
{
}

/// Each file information of a recursive listing or a keyword search carries
/// its own item's data: the server file name as the name, the item's path,
/// identifier, size and kind, its local creation and modification times as
/// the creation and modification times, and its server times.
pub proof fn lemma_search_keeps_item_fields(items: Seq<MediaItem>, k: int)
    requires
        0 <= k < items.len(),
    ensures
        ({
            let info = items.map_values(|i: MediaItem| media_item_info(i))[k];
            let item = items[k];
            &&& info.name == item.server_filename
            &&& info.path == item.path
            &&& info.fs_id == item.fs_id
            &&& info.size == item.size
            &&& info.isdir == item.isdir
            &&& info.ctime == item.local_ctime
            &&& info.mtime == item.local_mtime
            &&& info.server_ctime == item.server_ctime
            &&& info.server_mtime == item.server_mtime
            &&& info.md5 == item.md5
            &&& info.category == item.category
        }),
        items.map_values(|i: MediaItem| media_item_info(i)).len() == items.len(),
{
}

/// The items of an optional list, or none.
pub open spec fn items_or_empty<T>(list: Option<Vec<T>>) -> Seq<T> {
    match list {
        Some(v) => v@,
        None => Seq::<T>::empty(),
    }
}

/// Directory listing response
pub struct ListResponse {
    pub errno: i32,
    pub errmsg: Option<String>,
    pub list: Option<Vec<ListItem>>,
}

/// Recursive listing response
pub struct ListAllResponse {
    pub errno: i32,
    pub errmsg: Option<String>,
    pub cursor: Option<u64>,
    pub has_more: Option<i32>,
    pub list: Option<Vec<MediaItem>>,
}

/// Keyword search response
pub struct SearchResponse {
    pub errno: i32,
    pub errmsg: Option<String>,
    pub list: Option<Vec<MediaItem>>,
    pub has_more: i32,
}

/// An item of the file metadata response
pub struct FileMetaItem {
    pub category: Option<u32>,
    pub dlink: Option<String>,
    pub server_filename: String,
    pub fs_id: u64,
    pub isdir: Option<u32>,
    pub local_ctime: Option<u64>,
    pub local_mtime: Option<u64>,
    pub md5: Option<String>,
    pub oper_id: Option<u64>,
    pub path: String,
    pub server_ctime: Option<u64>,
    pub server_mtime: Option<u64>,
    pub size: Option<u64>,
}

/// File metadata response
pub struct FileMetaResponse {
    pub errno: i32,
    pub errmsg: Option<String>,
    pub list: Option<Vec<FileMetaItem>>,
}

/// An item of the semantic search response
pub struct SemanticSearchItem {
    pub category: i32,
    pub filename: String,
    pub fsid: u64,
    pub isdir: Option<i32>,
    pub local_createtime: Option<u64>,
    pub local_mtime: Option<u64>,
    pub md5: Option<String>,
    pub path: String,
    pub server_ctime: Option<u64>,
    pub server_mtime: Option<u64>,
    pub size: Option<u64>,
}

/// A group of the semantic search response
pub struct SemanticSearchDataItem {
    pub list: Option<Vec<SemanticSearchItem>>,
    pub source: i32,
}

/// Semantic search response
pub struct SemanticSearchResponse {
    pub error_no: i32,
    pub error_msg: Option<String>,
    pub data: Option<Vec<SemanticSearchDataItem>>,
    pub is_end: bool,
}

/// The file information of a semantic search item.
pub open spec fn semantic_item_info(i: SemanticSearchItem) -> FileInfo {
    FileInfo {
        fs_id: Some(i.fsid),
        path: i.path,
        size: i.size,
        ctime: i.local_createtime,
        mtime: i.local_mtime,
        isdir: i.isdir,
        name: i.filename,
        md5: i.md5,
        category: Some(i.category as u32),
        oper_id: None,
        owner_id: None,
        owner_type: None,
        server_atime: None,
        server_ctime: i.server_ctime,
        server_mtime: i.server_mtime,
    }
}

/// The file information of every item of every group, in order.
pub open spec fn semantic_infos(groups: Seq<SemanticSearchDataItem>) -> Seq<FileInfo>
    decreases groups.len(),
{
    if groups.len() == 0 {
        seq![]
    } else {
        semantic_infos(groups.drop_last()) + items_or_empty(groups.last().list).map_values(
            |i: SemanticSearchItem| semantic_item_info(i),
        )
    }
}

/// The outcome of a directory listing: the file information of its items, or
/// the API error of a failed response.
pub fn list_directory_result(response: &ListResponse) -> (r: NetDiskResult<Vec<FileInfo>>)
    ensures
        response.errno != 0 ==> (r matches Err(e) && is_api_error(
            e,
            response.errno,
            api_error_message(response.errno, message_or_unknown(response.errmsg)),
        )),
        response.errno == 0 ==> (r matches Ok(v) && v@ == items_or_empty(response.list).map_values(
            |i: ListItem| list_item_info(i),
        )),
{
    if response.errno != 0 {
        return Err(response_error(response.errno, &response.errmsg));
    }
    match &response.list {
        Some(items) => Ok(list_items_info(items)),
        None => {
            let v: Vec<FileInfo> = Vec::new();
            assert(v@ =~= Seq::<ListItem>::empty().map_values(|i: ListItem| list_item_info(i)));
            Ok(v)
        },
    }
}

/// The file information of optional media items, in order.
fn media_list_info(list: &Option<Vec<MediaItem>>) -> (r: Vec<FileInfo>)
    ensures
        r@ == items_or_empty(*list).map_values(|i: MediaItem| media_item_info(i)),
{
    match list {
        Some(items) => media_items_info(items),
        None => {
            let v: Vec<FileInfo> = Vec::new();
            assert(v@ =~= Seq::<MediaItem>::empty().map_values(|i: MediaItem| media_item_info(i)));
            v
        },
    }
}

/// The outcome of a recursive listing: the file information of its items and
/// whether more remain (`has_more` is 1), or the API error of a failed
/// response.
pub fn list_all_result(response: &ListAllResponse) -> (r: NetDiskResult<(Vec<FileInfo>, bool)>)
    ensures
        response.errno != 0 ==> (r matches Err(e) && is_api_error(
            e,
            response.errno,
            api_error_message(response.errno, message_or_unknown(response.errmsg)),
        )),
        response.errno == 0 ==> (r matches Ok((v, more)) && v@ == items_or_empty(
            response.list,
        ).map_values(|i: MediaItem| media_item_info(i)) && more == (response.has_more == Some(
            1i32,
        ))),
{
    if response.errno != 0 {
        return Err(response_error(response.errno, &response.errmsg));
    }
    let infos = media_list_info(&response.list);
    let more = match response.has_more {
        Some(h) => h == 1,
        None => false,
    };
    Ok((infos, more))
}

/// The outcome of a keyword search: the file information of its items and
/// whether more remain (`has_more` is 1), or the API error of a failed
/// response.
pub fn search_result(response: &SearchResponse) -> (r: NetDiskResult<(Vec<FileInfo>, bool)>)
    ensures
        response.errno != 0 ==> (r matches Err(e) && is_api_error(
            e,
            response.errno,
            api_error_message(response.errno, message_or_unknown(response.errmsg)),
        )),
        response.errno == 0 ==> (r matches Ok((v, more)) && v@ == items_or_empty(
            response.list,
        ).map_values(|i: MediaItem| media_item_info(i)) && more == (response.has_more == 1)),
{
    if response.errno != 0 {
        return Err(response_error(response.errno, &response.errmsg));
    }
    let infos = media_list_info(&response.list);
    Ok((infos, response.has_more == 1))
}

/// The outcome of a semantic search: the file information of every item of
/// every group, in order, or the API error of a failed response.
pub fn semantic_search_result(response: &SemanticSearchResponse) -> (r: NetDiskResult<
    Vec<FileInfo>,
>)
    ensures
        response.error_no != 0 ==> (r matches Err(e) && is_api_error(
            e,
            response.error_no,
            api_error_message(response.error_no, message_or_unknown(response.error_msg)),
        )),
        response.error_no == 0 ==> (r matches Ok(v) && v@ == semantic_infos(
            items_or_empty(response.data),
        )),
{
    if response.error_no != 0 {
        return Err(response_error(response.error_no, &response.error_msg));
    }
    let mut r: Vec<FileInfo> = Vec::new();
    match &response.data {
        None => {
            assert(r@ =~= semantic_infos(Seq::<SemanticSearchDataItem>::empty()));
        },
        Some(groups) => {
            let mut g: usize = 0;
            while g < groups.len()
                invariant
                    g <= groups@.len(),
                    r@ == semantic_infos(groups@.subrange(0, g as int)),
                decreases groups@.len() - g,
            {
                assert(groups@.subrange(0, g + 1).drop_last() =~= groups@.subrange(0, g as int));
                let ghost before = r@;
                let empty: Vec<SemanticSearchItem> = Vec::new();
                let items = match &groups[g].list {
                    Some(items) => items,
                    None => &empty,
                };
                assert(items@ == items_or_empty(groups@[g as int].list));
                let mut k: usize = 0;
                while k < items.len()
                    invariant
                        k <= items@.len(),
                        r@ == before + items@.subrange(0, k as int).map_values(
                            |i: SemanticSearchItem| semantic_item_info(i),
                        ),
                    decreases items@.len() - k,
                {
                    let i = &items[k];
                    let info = FileInfo {
                        fs_id: Some(i.fsid),
                        path: i.path.clone(),
                        size: i.size,
                        ctime: i.local_createtime,
                        mtime: i.local_mtime,
                        isdir: i.isdir,
                        name: i.filename.clone(),
                        md5: clone_opt_string(&i.md5),
                        category: Some(i.category as u32),
                        oper_id: None,
                        owner_id: None,
                        owner_type: None,
                        server_atime: None,
                        server_ctime: i.server_ctime,
                        server_mtime: i.server_mtime,
                    };
                    r.push(info);
                    assert(items@.subrange(0, k + 1).map_values(
                        |i: SemanticSearchItem| semantic_item_info(i),
                    ) =~= items@.subrange(0, k as int).map_values(
                        |i: SemanticSearchItem| semantic_item_info(i),
                    ).push(semantic_item_info(items@[k as int])));
                    k = k + 1;
                }
                assert(items@.subrange(0, items@.len() as int) =~= items@);
                g = g + 1;
            }
            assert(groups@.subrange(0, groups@.len() as int) =~= groups@);
        },
    }
    Ok(r)
}

/// The metadata of the first item of a file metadata response; the API
/// error of a failed response; the API error -1 "File not found or no
/// download link available" when the list is missing or empty.
pub fn file_meta_result(response: &FileMetaResponse) -> (r: NetDiskResult<FileMeta>)
    ensures
        response.errno != 0 ==> (r matches Err(e) && is_api_error(
            e,
            response.errno,
            api_error_message(response.errno, message_or_unknown(response.errmsg)),
        )),
        response.errno == 0 && items_or_empty(response.list).len() == 0 ==> (r matches Err(e)
            && is_api_error(
            e,
            -1i32,
            api_error_message(-1i32, "File not found or no download link available"@),
        )),
        response.errno == 0 && items_or_empty(response.list).len() > 0 ==> (r matches Ok(m) && ({
            let first = items_or_empty(response.list)[0];
            m == (FileMeta {
                fs_id: Some(first.fs_id),
                path: first.path,
                size: first.size,
                name: first.server_filename,
                dlink: first.dlink,
            })
        })),
{
    if response.errno != 0 {
        return Err(response_error(response.errno, &response.errmsg));
    }
    match &response.list {
        Some(list) => {
            if list.len() == 0 {
                return Err(
                    NetDiskError::api_error(-1, "File not found or no download link available"),
                );
            }
            let first = &list[0];
            Ok(
                FileMeta {
                    fs_id: Some(first.fs_id),
                    path: first.path.clone(),
                    size: first.size,
                    name: first.server_filename.clone(),
                    dlink: clone_opt_string(&first.dlink),
                },
            )
        },
        None => Err(NetDiskError::api_error(-1, "File not found or no download link available")),
    }
}

} // verus!

verus! {

/// The decimal text of an `i32` parameter.
pub open spec fn dec(n: i32) -> Seq<char> {
    int_decimal(n as int)
}

/// The query of a directory listing.
pub open spec fn list_directory_query(access_token: Seq<char>, dir: Seq<char>, o: ListOptions) -> Seq<
    (Seq<char>, Seq<char>),
> {
    seq![
        ("method"@, "list"@),
        ("dir"@, dir),
        ("order"@, o.order@),
        ("desc"@, dec(o.desc)),
        ("start"@, dec(o.start)),
        ("limit"@, dec(o.limit)),
        ("web"@, dec(o.web)),
        ("folder"@, dec(o.folder)),
        ("showempty"@, dec(o.showempty)),
        ("access_token"@, access_token),
    ]
}

/// The query that lists a directory with the given options.
pub fn list_directory_params(access_token: &str, dir: &str, options: &ListOptions) -> (r: Vec<
    (String, String),
>)
    ensures
        pairs_view(r@) == list_directory_query(access_token@, dir@, *options),
{
    let mut p: Vec<(String, String)> = Vec::new();
    p.push(pair("method", owned("list")));
    p.push(pair("dir", owned(dir)));
    p.push(pair("order", options.order.clone()));
    p.push(pair("desc", i32_to_string(options.desc)));
    p.push(pair("start", i32_to_string(options.start)));
    p.push(pair("limit", i32_to_string(options.limit)));
    p.push(pair("web", i32_to_string(options.web)));
    p.push(pair("folder", i32_to_string(options.folder)));
    p.push(pair("showempty", i32_to_string(options.showempty)));
    p.push(pair("access_token", owned(access_token)));
    assert(pairs_view(p@) =~= list_directory_query(access_token@, dir@, *options));
    p
}

/// The query of a recursive listing: the fixed parameters, then the time
/// filters when given and the device when not empty.
pub open spec fn list_all_query(access_token: Seq<char>, path: Seq<char>, o: ListAllOptions) -> Seq<
    (Seq<char>, Seq<char>),
> {
    let base = seq![
        ("method"@, "listall"@),
        ("access_token"@, access_token),
        ("path"@, path),
        ("recursion"@, dec(o.recursion)),
        ("order"@, o.order@),
        ("desc"@, dec(o.desc)),
        ("start"@, dec(o.start)),
        ("limit"@, dec(o.limit)),
        ("web"@, dec(o.web)),
    ];
    let with_ctime = match o.ctime {
        Some(c) => base.push(("ctime"@, int_decimal(c as int))),
        None => base,
    };
    let with_mtime = match o.mtime {
        Some(m) => with_ctime.push(("mtime"@, int_decimal(m as int))),
        None => with_ctime,
    };
    if o.device_id@.len() > 0 {
        with_mtime.push(("device_id"@, o.device_id@))
    } else {
        with_mtime
    }
}

/// The query that lists all files under a path with the given options.
pub fn list_all_params(access_token: &str, path: &str, options: &ListAllOptions) -> (r: Vec<
    (String, String),
>)
    ensures
        pairs_view(r@) == list_all_query(access_token@, path@, *options),
{
    let mut p: Vec<(String, String)> = Vec::new();
    p.push(pair("method", owned("listall")));
    p.push(pair("access_token", owned(access_token)));
    p.push(pair("path", owned(path)));
    p.push(pair("recursion", i32_to_string(options.recursion)));
    p.push(pair("order", options.order.clone()));
    p.push(pair("desc", i32_to_string(options.desc)));
    p.push(pair("start", i32_to_string(options.start)));
    p.push(pair("limit", i32_to_string(options.limit)));
    p.push(pair("web", i32_to_string(options.web)));
    if let Some(c) = options.ctime {
        p.push(pair("ctime", u64_to_string(c)));
    }
    if let Some(m) = options.mtime {
        p.push(pair("mtime", u64_to_string(m)));
    }
    if !options.device_id.as_str().is_empty() {
        p.push(pair("device_id", options.device_id.clone()));
    }
    assert(pairs_view(p@) =~= list_all_query(access_token@, path@, *options));
    p
}

/// The query of a keyword search: the fixed parameters (at most 500
/// results), then the category, the recursion and web flags when set and the
/// device when not empty.
pub open spec fn search_query(access_token: Seq<char>, key: Seq<char>, o: SearchOptions) -> Seq<
    (Seq<char>, Seq<char>),
> {
    let base = seq![
        ("method"@, "search"@),
        ("access_token"@, access_token),
        ("key"@, key),
        ("dir"@, o.dir@),
        ("num"@, "500"@),
    ];
    let with_category = match o.category {
        Some(c) => base.push(("category"@, int_decimal(c as int))),
        None => base,
    };
    let with_recursion = if o.recursion {
        with_category.push(("recursion"@, "1"@))
    } else {
        with_category
    };
    let with_web = if o.web {
        with_recursion.push(("web"@, "1"@))
    } else {
        with_recursion
    };
    if o.device_id@.len() > 0 {
        with_web.push(("device_id"@, o.device_id@))
    } else {
        with_web
    }
}

/// The query that searches files by keyword with the given options.
pub fn search_params(access_token: &str, key: &str, options: &SearchOptions) -> (r: Vec<
    (String, String),
>)
    ensures
        pairs_view(r@) == search_query(access_token@, key@, *options),
{
    let mut p: Vec<(String, String)> = Vec::new();
    p.push(pair("method", owned("search")));
    p.push(pair("access_token", owned(access_token)));
    p.push(pair("key", owned(key)));
    p.push(pair("dir", options.dir.clone()));
    p.push(pair("num", owned("500")));
    if let Some(c) = options.category {
        p.push(pair("category", u32_to_string(c)));
    }
    if options.recursion {
        p.push(pair("recursion", owned("1")));
    }
    if options.web {
        p.push(pair("web", owned("1")));
    }
    if !options.device_id.as_str().is_empty() {
        p.push(pair("device_id", options.device_id.clone()));
    }
    assert(pairs_view(p@) =~= search_query(access_token@, key@, *options));
    p
}

/// The query of a file metadata request, with the IDs as JSON.
pub open spec fn file_meta_query(access_token: Seq<char>, fsids: Seq<char>) -> Seq<
    (Seq<char>, Seq<char>),
> {
    seq![
        ("method"@, "filemetas"@),
        ("access_token"@, access_token),
        ("fsids"@, fsids),
        ("dlink"@, "1"@),
    ]
}

/// The query that asks for the metadata, with its download link, of a file:
/// its ID as a one-element JSON array, which always renders.
pub fn file_meta_params(access_token: &str, fs_id: u64) -> (r: NetDiskResult<Vec<(String, String)>>)
    ensures
        r matches Ok(p) ==> pairs_view(p@) == file_meta_query(
            access_token@,
            seq!['['] + int_decimal(fs_id as int) + seq![']'],
        ),
        r is Ok,
{
    let ids: [u64; 1] = [fs_id];
    let fsids = match json_encode_u64s(&ids) {
        Ok(s) => s,
        Err(e) => {
            let text = json_error_text(&e);
            return Err(unknown_after("Failed to serialize fsids: ", text.as_str()));
        },
    };
    assert(ids@ =~= seq![fs_id]);
    assert(comma_decimals(seq![fs_id]) == int_decimal(fs_id as int));
    let mut p: Vec<(String, String)> = Vec::new();
    p.push(pair("method", owned("filemetas")));
    p.push(pair("access_token", owned(access_token)));
    p.push(pair("fsids", fsids));
    p.push(pair("dlink", owned("1")));
    assert(pairs_view(p@) =~= file_meta_query(
        access_token@,
        seq!['['] + int_decimal(fs_id as int) + seq![']'],
    ));
    Ok(p)
}

/// The URL of a semantic search.
pub open spec fn semantic_search_url(access_token: Seq<char>, query: Seq<char>, o: SemanticSearchOptions) -> Seq<
    char,
> {
    "https://pan.baidu.com/xpan/unisearch?access_token="@ + percent_encode(access_token)
        + "&scene=mcpserver&query="@ + percent_encode(query) + "&num="@ + dec(o.num) + "&stream="@
        + dec(o.stream) + "&search_type="@ + dec(o.search_type)
}

/// The URL that runs a semantic search with the given options: the access
/// token and the query percent-encoded, the number, stream and search type.
pub fn semantic_search_request(access_token: &str, query: &str, options: &SemanticSearchOptions) -> (r:
    String)
    ensures
        r@ == semantic_search_url(access_token@, query@, *options),
{
    let mut url = owned("https://pan.baidu.com/xpan/unisearch?access_token=");
    url.append(url_encode(access_token).as_str());
    url.append("&scene=mcpserver&query=");
    url.append(url_encode(query).as_str());
    url.append("&num=");
    url.append(i32_to_string(options.num).as_str());
    url.append("&stream=");
    url.append(i32_to_string(options.stream).as_str());
    url.append("&search_type=");
    url.append(i32_to_string(options.search_type).as_str());
    url
}

/// The index of the last `/` of a path, or -1 when there is none.
pub open spec fn last_slash(p: Seq<char>) -> int
    decreases p.len(),
{
    if p.len() == 0 {
        -1
    } else if p.last() == '/' {
        p.len() - 1
    } else {
        last_slash(p.drop_last())
    }
}

/// The last `/` lies in the path.
proof fn lemma_last_slash_bounds(p: Seq<char>)
    ensures
        -1 <= last_slash(p) < p.len(),
        (slash_count(p) > 0) == (last_slash(p) >= 0),
    decreases p.len(),
{
    if p.len() > 0 {
        lemma_last_slash_bounds(p.drop_last());
    }
}

/// The number of `/` in a path.
pub open spec fn slash_count(p: Seq<char>) -> nat
    decreases p.len(),
{
    if p.len() == 0 {
        0
    } else if p.last() == '/' {
        slash_count(p.drop_last()) + 1
    } else {
        slash_count(p.drop_last())
    }
}

/// A path as it is looked up: the root when empty.
pub open spec fn normalized_path(path: Seq<char>) -> Seq<char> {
    if path.len() == 0 {
        "/"@
    } else {
        path
    }
}

/// The directory whose listing holds a path: the root for the root and for
/// paths with at most one `/`, otherwise everything before the last `/`
/// (the root if that is empty).
pub open spec fn parent_dir(p: Seq<char>) -> Seq<char> {
    if p == "/"@ || slash_count(p) <= 1 {
        "/"@
    } else {
        let before = p.subrange(0, last_slash(p));
        if before.len() == 0 {
            "/"@
        } else {
            before
        }
    }
}

/// The last component of a path: everything after the last `/`, or the
/// whole path when it has none.
pub open spec fn base_name(p: Seq<char>) -> Seq<char> {
    if last_slash(p) < 0 {
        p
    } else {
        p.subrange(last_slash(p) + 1, p.len() as int)
    }
}

/// The last `/` and the number of `/` of a path, scanning its characters.
fn scan_slashes(p: &Vec<char>) -> (r: (Option<usize>, usize))
    ensures
        match r.0 {
            Some(i) => last_slash(p@) == i && i < p@.len(),
            None => last_slash(p@) == -1,
        },
        r.1 == slash_count(p@),
{
    proof {
        lemma_last_slash_bounds(p@);
    }
    let mut last: Option<usize> = None;
    let mut count: usize = 0;
    let mut i: usize = 0;
    while i < p.len()
        invariant
            i <= p@.len(),
            count <= i,
            match last {
                Some(k) => last_slash(p@.subrange(0, i as int)) == k,
                None => last_slash(p@.subrange(0, i as int)) == -1,
            },
            count == slash_count(p@.subrange(0, i as int)),
        decreases p@.len() - i,
    {
        assert(p@.subrange(0, i + 1).drop_last() =~= p@.subrange(0, i as int));
        if p[i] == '/' {
            last = Some(i);
            count = count + 1;
        }
        i = i + 1;
    }
    assert(p@.subrange(0, p@.len() as int) =~= p@);
    (last, count)
}

/// Where a path is looked up: the normalized path, the directory to list and
/// the name to look for.
pub fn file_lookup(path: &str) -> (r: (String, String, String))
    ensures
        r.0@ == normalized_path(path@),
        r.1@ == parent_dir(normalized_path(path@)),
        r.2@ == base_name(normalized_path(path@)),
{
    let normalized = if path.is_empty() {
        owned("/")
    } else {
        owned(path)
    };
    let chars = chars_of(normalized.as_str());
    let (last, count) = scan_slashes(&chars);
    proof {
        lemma_last_slash_bounds(chars@);
    }
    let root = str_eq(normalized.as_str(), "/");
    let parent = if root || count <= 1 {
        owned("/")
    } else {
        match last {
            Some(k) => {
                let before = string_from_chars(&chars, 0, k);
                if before.as_str().is_empty() {
                    owned("/")
                } else {
                    before
                }
            },
            None => owned("/"),
        }
    };
    let name = match last {
        Some(k) => {
            assert(k < chars@.len());
            let n = chars.len();
            string_from_chars(&chars, k + 1, n)
        },
        None => normalized.clone(),
    };
    proof {
        if last is None {
            assert(chars@.subrange(0, chars@.len() as int) =~= chars@);
        }
    }
    (normalized, parent, name)
}

/// A listed file is the one looked up: same path, or same name.
pub open spec fn is_looked_up(f: FileInfo, path: Seq<char>, name: Seq<char>) -> bool {
    f.path@ == path || f.name@ == name
}

/// The first listed file that is the one looked up, or the API error -6
/// "File or folder not found" when none is.
pub fn find_file_info(files: &Vec<FileInfo>, path: &str, name: &str) -> (r: NetDiskResult<FileInfo>)
    ensures
        match r {
            Ok(f) => exists|i: int|
                0 <= i < files@.len() && files@[i] == f && is_looked_up(files@[i], path@, name@)
                    && forall|j: int| 0 <= j < i ==> !is_looked_up(#[trigger] files@[j], path@, name@),
            Err(e) => (forall|i: int|
                0 <= i < files@.len() ==> !is_looked_up(#[trigger] files@[i], path@, name@))
                && is_api_error(e, -6i32, api_error_message(-6i32, "File or folder not found"@)),
        },
{
    let mut i: usize = 0;
    while i < files.len()
        invariant
            i <= files@.len(),
            forall|j: int| 0 <= j < i ==> !is_looked_up(#[trigger] files@[j], path@, name@),
        decreases files@.len() - i,
    {
        let f = &files[i];
        if str_eq(f.path.as_str(), path) || str_eq(f.name.as_str(), name) {
            let found = f.clone();
            assert(files@[i as int] == found);
            return Ok(found);
        }
        i = i + 1;
    }
    Err(NetDiskError::api_error(-6, "File or folder not found"))
}

} // verus!
