//! File categories: counting and searching files by category, and the
//! fixed category listings (documents, images, videos, torrents).
use vstd::prelude::*;

use super::query::{
    dec, items_or_empty, list_item_info, list_items_info, media_item_info, media_items_info,
    message_or_unknown, response_error, FileInfo, ListItem, MediaItem,
};
use crate::errors::{api_error_message, is_api_error, NetDiskError, NetDiskResult};
use crate::text::{i32_to_string, int_decimal, owned, pair, pairs_view, u32_to_string};

verus! {

/// Options for category file count
#[derive(Debug, Clone)]
pub struct CategoryCountOptions {
    pub parent_path: String,
    pub recursion: i32,
}

impl Default for CategoryCountOptions {
    fn default() -> (r: Self)
        ensures
            r.parent_path@ == Seq::<char>::empty(),
            r.recursion == 0,
    {
        CategoryCountOptions {
            parent_path: String::new(),
            recursion: 0,
        }
    }
}

impl CategoryCountOptions {
    /// Options that count from the root, recursively
    pub fn new() -> (r: Self)
        ensures
            r.parent_path@ == "/"@,
            r.recursion == 1,
    {
        Self { parent_path: owned("/"), recursion: 1 }
    }

    /// Set parent directory path
    pub fn parent_path(self, parent_path: &str) -> (r: Self)
        ensures
            r.parent_path@ == parent_path@,
            r == (CategoryCountOptions { parent_path: r.parent_path, ..self }),
    {
        let mut s = self;
        s.parent_path = parent_path.to_string();
        s
    }

    /// Set recursion mode (0: no recursion, 1: recursion)
    pub fn recursion(self, recursion: i32) -> (r: Self)
        ensures
            r == (CategoryCountOptions { recursion: recursion, ..self }),
    {
        let mut s = self;
        s.recursion = recursion;
        s
    }

}

/// Options for category file search
#[derive(Debug, Clone)]
pub struct CategorySearchOptions {
    pub show_dir: i32,
    pub parent_path: String,
    pub recursion: i32,
    pub ext: String,
    pub start: i32,
    pub limit: i32,
    pub order: String,
    pub desc: i32,
    pub device_id: String,
}

impl Default for CategorySearchOptions {
    fn default() -> (r: Self)
        ensures
            r.show_dir == 0,
            r.parent_path@ == Seq::<char>::empty(),
            r.recursion == 0,
            r.ext@ == Seq::<char>::empty(),
            r.start == 0,
            r.limit == 0,
            r.order@ == Seq::<char>::empty(),
            r.desc == 0,
            r.device_id@ == Seq::<char>::empty(),
    {
        CategorySearchOptions {
            show_dir: 0,
            parent_path: String::new(),
            recursion: 0,
            ext: String::new(),
            start: 0,
            limit: 0,
            order: String::new(),
            desc: 0,
            device_id: String::new(),
        }
    }
}

impl CategorySearchOptions {
    /// Options that search from the root, recursively, newest first, up to 1000 files
    pub fn new() -> (r: Self)
        ensures
            r.show_dir == 0,
            r.parent_path@ == "/"@,
            r.recursion == 1,
            r.ext@ == Seq::<char>::empty(),
            r.start == 0,
            r.limit == 1000,
            r.order@ == "time"@,
            r.desc == 1,
            r.device_id@ == Seq::<char>::empty(),
    {
        Self { show_dir: 0, parent_path: owned("/"), recursion: 1, ext: String::new(), start: 0, limit: 1000, order: owned("time"), desc: 1, device_id: String::new() }
    }

    /// Set whether to show directories (0: no, 1: yes)
    pub fn show_dir(self, show_dir: i32) -> (r: Self)
        ensures
            r == (CategorySearchOptions { show_dir: show_dir, ..self }),
    {
        let mut s = self;
        s.show_dir = show_dir;
        s
    }

    /// Set parent directory path
    pub fn parent_path(self, parent_path: &str) -> (r: Self)
        ensures
            r.parent_path@ == parent_path@,
            r == (CategorySearchOptions { parent_path: r.parent_path, ..self }),
    {
        let mut s = self;
        s.parent_path = parent_path.to_string();
        s
    }

    /// Set recursion mode (0: no recursion, 1: recursion)
    pub fn recursion(self, recursion: i32) -> (r: Self)
        ensures
            r == (CategorySearchOptions { recursion: recursion, ..self }),
    {
        let mut s = self;
        s.recursion = recursion;
        s
    }

    /// Set file extensions (e.g., "mp3,txt")
    pub fn ext(self, ext: &str) -> (r: Self)
        ensures
            r.ext@ == ext@,
            r == (CategorySearchOptions { ext: r.ext, ..self }),
    {
        let mut s = self;
        s.ext = ext.to_string();
        s
    }

    /// Set start index for pagination
    pub fn start(self, start: i32) -> (r: Self)
        ensures
            r == (CategorySearchOptions { start: start, ..self }),
    {
        let mut s = self;
        s.start = start;
        s
    }

    /// Set limit for pagination (max 1000)
    pub fn limit(self, limit: i32) -> (r: Self)
        ensures
            r == (CategorySearchOptions { limit: if limit < 1000 { limit } else { 1000i32 }, ..self }),
    {
        let mut s = self;
        s.limit = if limit < 1000 { limit } else { 1000 };
        s
    }

    /// Set order field ("time", "name", "size")
    pub fn order(self, order: &str) -> (r: Self)
        ensures
            r.order@ == order@,
            r == (CategorySearchOptions { order: r.order, ..self }),
    {
        let mut s = self;
        s.order = order.to_string();
        s
    }

    /// Set sort direction (0: ascending, 1: descending)
    pub fn desc(self, desc: i32) -> (r: Self)
        ensures
            r == (CategorySearchOptions { desc: desc, ..self }),
    {
        let mut s = self;
        s.desc = desc;
        s
    }

    /// Set device ID
    pub fn device_id(self, device_id: &str) -> (r: Self)
        ensures
            r.device_id@ == device_id@,
            r == (CategorySearchOptions { device_id: r.device_id, ..self }),
    {
        let mut s = self;
        s.device_id = device_id.to_string();
        s
    }

}

/// Options for listing documents
#[derive(Debug, Clone)]
pub struct DocumentListOptions {
    pub parent_path: String,
    pub page: i32,
    pub num: i32,
    pub order: String,
    pub desc: i32,
    pub recursion: i32,
    pub web: i32,
}

impl Default for DocumentListOptions {
    fn default() -> (r: Self)
        ensures
            r.parent_path@ == Seq::<char>::empty(),
            r.page == 0,
            r.num == 0,
            r.order@ == Seq::<char>::empty(),
            r.desc == 0,
            r.recursion == 0,
            r.web == 0,
    {
        DocumentListOptions {
            parent_path: String::new(),
            page: 0,
            num: 0,
            order: String::new(),
            desc: 0,
            recursion: 0,
            web: 0,
        }
    }
}

impl DocumentListOptions {
    /// Options for a directory: first page of 100, newest first, not recursive
    pub fn new(parent_path: &str) -> (r: Self)
        ensures
            r.parent_path@ == parent_path@,
            r.page == 1,
            r.num == 100,
            r.order@ == "time"@,
            r.desc == 1,
            r.recursion == 0,
            r.web == 0,
    {
        Self { parent_path: parent_path.to_string(), page: 1, num: 100, order: owned("time"), desc: 1, recursion: 0, web: 0 }
    }

    /// Set the page number
    pub fn page(self, page: i32) -> (r: Self)
        ensures
            r == (DocumentListOptions { page: page, ..self }),
    {
        let mut s = self;
        s.page = page;
        s
    }

    /// Set the page size (max 1000)
    pub fn num(self, num: i32) -> (r: Self)
        ensures
            r == (DocumentListOptions { num: if num < 1000 { num } else { 1000i32 }, ..self }),
    {
        let mut s = self;
        s.num = if num < 1000 { num } else { 1000 };
        s
    }

    /// Set the order field
    pub fn order(self, order: &str) -> (r: Self)
        ensures
            r.order@ == order@,
            r == (DocumentListOptions { order: r.order, ..self }),
    {
        let mut s = self;
        s.order = order.to_string();
        s
    }

    /// Set sort direction (0: ascending, 1: descending)
    pub fn desc(self, desc: i32) -> (r: Self)
        ensures
            r == (DocumentListOptions { desc: desc, ..self }),
    {
        let mut s = self;
        s.desc = desc;
        s
    }

    /// Set recursion mode (0: no recursion, 1: recursion)
    pub fn recursion(self, recursion: i32) -> (r: Self)
        ensures
            r == (DocumentListOptions { recursion: recursion, ..self }),
    {
        let mut s = self;
        s.recursion = recursion;
        s
    }

    /// Set the web flag
    pub fn web(self, web: i32) -> (r: Self)
        ensures
            r == (DocumentListOptions { web: web, ..self }),
    {
        let mut s = self;
        s.web = web;
        s
    }

}

/// Options for listing images
#[derive(Debug, Clone)]
pub struct ImageListOptions {
    pub parent_path: String,
    pub page: i32,
    pub num: i32,
    pub order: String,
    pub desc: i32,
    pub recursion: i32,
    pub web: i32,
}

impl Default for ImageListOptions {
    fn default() -> (r: Self)
        ensures
            r.parent_path@ == Seq::<char>::empty(),
            r.page == 0,
            r.num == 0,
            r.order@ == Seq::<char>::empty(),
            r.desc == 0,
            r.recursion == 0,
            r.web == 0,
    {
        ImageListOptions {
            parent_path: String::new(),
            page: 0,
            num: 0,
            order: String::new(),
            desc: 0,
            recursion: 0,
            web: 0,
        }
    }
}

impl ImageListOptions {
    /// Options for a directory: first page of 100, newest first, not recursive
    pub fn new(parent_path: &str) -> (r: Self)
        ensures
            r.parent_path@ == parent_path@,
            r.page == 1,
            r.num == 100,
            r.order@ == "time"@,
            r.desc == 1,
            r.recursion == 0,
            r.web == 0,
    {
        Self { parent_path: parent_path.to_string(), page: 1, num: 100, order: owned("time"), desc: 1, recursion: 0, web: 0 }
    }

    /// Set the page number
    pub fn page(self, page: i32) -> (r: Self)
        ensures
            r == (ImageListOptions { page: page, ..self }),
    {
        let mut s = self;
        s.page = page;
        s
    }

    /// Set the page size (max 1000)
    pub fn num(self, num: i32) -> (r: Self)
        ensures
            r == (ImageListOptions { num: if num < 1000 { num } else { 1000i32 }, ..self }),
    {
        let mut s = self;
        s.num = if num < 1000 { num } else { 1000 };
        s
    }

    /// Set the order field
    pub fn order(self, order: &str) -> (r: Self)
        ensures
            r.order@ == order@,
            r == (ImageListOptions { order: r.order, ..self }),
    {
        let mut s = self;
        s.order = order.to_string();
        s
    }

    /// Set sort direction (0: ascending, 1: descending)
    pub fn desc(self, desc: i32) -> (r: Self)
        ensures
            r == (ImageListOptions { desc: desc, ..self }),
    {
        let mut s = self;
        s.desc = desc;
        s
    }

    /// Set recursion mode (0: no recursion, 1: recursion)
    pub fn recursion(self, recursion: i32) -> (r: Self)
        ensures
            r == (ImageListOptions { recursion: recursion, ..self }),
    {
        let mut s = self;
        s.recursion = recursion;
        s
    }

    /// Set the web flag
    pub fn web(self, web: i32) -> (r: Self)
        ensures
            r == (ImageListOptions { web: web, ..self }),
    {
        let mut s = self;
        s.web = web;
        s
    }

}

/// Options for listing videos
#[derive(Debug, Clone)]
pub struct VideoListOptions {
    pub parent_path: String,
    pub page: i32,
    pub num: i32,
    pub order: String,
    pub desc: i32,
    pub recursion: i32,
    pub web: i32,
}

impl Default for VideoListOptions {
    fn default() -> (r: Self)
        ensures
            r.parent_path@ == Seq::<char>::empty(),
            r.page == 0,
            r.num == 0,
            r.order@ == Seq::<char>::empty(),
            r.desc == 0,
            r.recursion == 0,
            r.web == 0,
    {
        VideoListOptions {
            parent_path: String::new(),
            page: 0,
            num: 0,
            order: String::new(),
            desc: 0,
            recursion: 0,
            web: 0,
        }
    }
}

impl VideoListOptions {
    /// Options for a directory: first page of 100, newest first, not recursive
    pub fn new(parent_path: &str) -> (r: Self)
        ensures
            r.parent_path@ == parent_path@,
            r.page == 1,
            r.num == 100,
            r.order@ == "time"@,
            r.desc == 1,
            r.recursion == 0,
            r.web == 0,
    {
        Self { parent_path: parent_path.to_string(), page: 1, num: 100, order: owned("time"), desc: 1, recursion: 0, web: 0 }
    }

    /// Set the page number
    pub fn page(self, page: i32) -> (r: Self)
        ensures
            r == (VideoListOptions { page: page, ..self }),
    {
        let mut s = self;
        s.page = page;
        s
    }

    /// Set the page size (max 1000)
    pub fn num(self, num: i32) -> (r: Self)
        ensures
            r == (VideoListOptions { num: if num < 1000 { num } else { 1000i32 }, ..self }),
    {
        let mut s = self;
        s.num = if num < 1000 { num } else { 1000 };
        s
    }

    /// Set the order field
    pub fn order(self, order: &str) -> (r: Self)
        ensures
            r.order@ == order@,
            r == (VideoListOptions { order: r.order, ..self }),
    {
        let mut s = self;
        s.order = order.to_string();
        s
    }

    /// Set sort direction (0: ascending, 1: descending)
    pub fn desc(self, desc: i32) -> (r: Self)
        ensures
            r == (VideoListOptions { desc: desc, ..self }),
    {
        let mut s = self;
        s.desc = desc;
        s
    }

    /// Set recursion mode (0: no recursion, 1: recursion)
    pub fn recursion(self, recursion: i32) -> (r: Self)
        ensures
            r == (VideoListOptions { recursion: recursion, ..self }),
    {
        let mut s = self;
        s.recursion = recursion;
        s
    }

    /// Set the web flag
    pub fn web(self, web: i32) -> (r: Self)
        ensures
            r == (VideoListOptions { web: web, ..self }),
    {
        let mut s = self;
        s.web = web;
        s
    }

}

/// Options for listing torrents
#[derive(Debug, Clone)]
pub struct BtListOptions {
    pub parent_path: String,
    pub page: i32,
    pub num: i32,
    pub order: String,
    pub desc: i32,
    pub recursion: i32,
}

impl Default for BtListOptions {
    fn default() -> (r: Self)
        ensures
            r.parent_path@ == Seq::<char>::empty(),
            r.page == 0,
            r.num == 0,
            r.order@ == Seq::<char>::empty(),
            r.desc == 0,
            r.recursion == 0,
    {
        BtListOptions {
            parent_path: String::new(),
            page: 0,
            num: 0,
            order: String::new(),
            desc: 0,
            recursion: 0,
        }
    }
}

impl BtListOptions {
    /// Options for a directory: first page of 100, newest first, not recursive
    pub fn new(parent_path: &str) -> (r: Self)
        ensures
            r.parent_path@ == parent_path@,
            r.page == 1,
            r.num == 100,
            r.order@ == "time"@,
            r.desc == 1,
            r.recursion == 0,
    {
        Self { parent_path: parent_path.to_string(), page: 1, num: 100, order: owned("time"), desc: 1, recursion: 0 }
    }

    /// Set the page number
    pub fn page(self, page: i32) -> (r: Self)
        ensures
            r == (BtListOptions { page: page, ..self }),
    {
        let mut s = self;
        s.page = page;
        s
    }

    /// Set the page size (max 1000)
    pub fn num(self, num: i32) -> (r: Self)
        ensures
            r == (BtListOptions { num: if num < 1000 { num } else { 1000i32 }, ..self }),
    {
        let mut s = self;
        s.num = if num < 1000 { num } else { 1000 };
        s
    }

    /// Set the order field
    pub fn order(self, order: &str) -> (r: Self)
        ensures
            r.order@ == order@,
            r == (BtListOptions { order: r.order, ..self }),
    {
        let mut s = self;
        s.order = order.to_string();
        s
    }

    /// Set sort direction (0: ascending, 1: descending)
    pub fn desc(self, desc: i32) -> (r: Self)
        ensures
            r == (BtListOptions { desc: desc, ..self }),
    {
        let mut s = self;
        s.desc = desc;
        s
    }

    /// Set recursion mode (0: no recursion, 1: recursion)
    pub fn recursion(self, recursion: i32) -> (r: Self)
        ensures
            r == (BtListOptions { recursion: recursion, ..self }),
    {
        let mut s = self;
        s.recursion = recursion;
        s
    }

}

/// File category enum for type-safe category selection
#[derive(Debug, Clone, Copy, PartialEq, Eq, Structural)]
pub enum Category {
    Video,
    Music,
    Image,
    Document,
    Application,
    Other,
    Torrent,
}

impl Category {
    /// The API's number of a category: 1 for video to 7 for torrent.
    pub open spec fn number(self) -> u32 {
        match self {
            Category::Video => 1,
            Category::Music => 2,
            Category::Image => 3,
            Category::Document => 4,
            Category::Application => 5,
            Category::Other => 6,
            Category::Torrent => 7,
        }
    }

    /// The API's number of the category
    pub fn as_u32(&self) -> (r: u32)
        ensures
            r == self.number(),
    {
        match self {
            Category::Video => 1,
            Category::Music => 2,
            Category::Image => 3,
            Category::Document => 4,
            Category::Application => 5,
            Category::Other => 6,
            Category::Torrent => 7,
        }
    }
}

/// Distinct categories have distinct numbers, from 1 to 7.
pub proof fn lemma_category_numbers(a: Category, b: Category)
    ensures
        1 <= a.number() <= 7,
        a != b ==> a.number() != b.number(),
{
}

} // verus!

verus! {

/// Category search response
pub struct CategorySearchResponse {
    pub errno: i32,
    pub errmsg: Option<String>,
    pub list: Option<Vec<ListItem>>,
    pub cursor: Option<u64>,
    pub has_more: Option<i32>,
}

/// Category count response
pub struct CategoryInfoResponse {
    pub errno: i32,
    pub errmsg: Option<String>,
    pub total: Option<u64>,
}

/// Fixed category listing response
pub struct FixedCategoryListResponse {
    pub errno: i32,
    pub errmsg: Option<String>,
    pub guid_info: Option<String>,
    pub info: Option<Vec<MediaItem>>,
}

/// The query of a category count.
pub open spec fn category_count_query(access_token: Seq<char>, category: u32, o: CategoryCountOptions) -> Seq<
    (Seq<char>, Seq<char>),
> {
    seq![
        ("access_token"@, access_token),
        ("category"@, int_decimal(category as int)),
        ("parent_path"@, o.parent_path@),
        ("recursion"@, dec(o.recursion)),
    ]
}

/// The query that counts the files of a category with the given options.
pub fn category_count_params(access_token: &str, category: u32, options: &CategoryCountOptions) -> (r:
    Vec<(String, String)>)
    ensures
        pairs_view(r@) == category_count_query(access_token@, category, *options),
{
    let mut p: Vec<(String, String)> = Vec::new();
    p.push(pair("access_token", owned(access_token)));
    p.push(pair("category", u32_to_string(category)));
    p.push(pair("parent_path", options.parent_path.clone()));
    p.push(pair("recursion", i32_to_string(options.recursion)));
    assert(pairs_view(p@) =~= category_count_query(access_token@, category, *options));
    p
}

/// The outcome of a category count: the total (0 when absent), or the API
/// error of a failed response.
pub fn category_count_result(response: &CategoryInfoResponse) -> (r: NetDiskResult<u64>)
    ensures
        response.errno != 0 ==> (r matches Err(e) && is_api_error(
            e,
            response.errno,
            api_error_message(response.errno, message_or_unknown(response.errmsg)),
        )),
        response.errno == 0 ==> r == Ok::<u64, NetDiskError>(
            match response.total {
                Some(t) => t,
                None => 0,
            },
        ),
{
    if response.errno != 0 {
        return Err(response_error(response.errno, &response.errmsg));
    }
    match response.total {
        Some(t) => Ok(t),
        None => Ok(0),
    }
}

/// The query of a category search.
pub open spec fn category_search_query(access_token: Seq<char>, category: Seq<char>, o: CategorySearchOptions) -> Seq<
    (Seq<char>, Seq<char>),
> {
    seq![
        ("method"@, "categorylist"@),
        ("access_token"@, access_token),
        ("category"@, category),
        ("show_dir"@, dec(o.show_dir)),
        ("parent_path"@, o.parent_path@),
        ("recursion"@, dec(o.recursion)),
        ("ext"@, o.ext@),
        ("start"@, dec(o.start)),
        ("limit"@, dec(o.limit)),
        ("order"@, o.order@),
        ("desc"@, dec(o.desc)),
        ("device_id"@, o.device_id@),
    ]
}

/// The query that searches the files of one or more categories (separated
/// by commas) with the given options.
pub fn category_search_params(access_token: &str, category: &str, options: &CategorySearchOptions) -> (r:
    Vec<(String, String)>)
    ensures
        pairs_view(r@) == category_search_query(access_token@, category@, *options),
{
    let mut p: Vec<(String, String)> = Vec::new();
    p.push(pair("method", owned("categorylist")));
    p.push(pair("access_token", owned(access_token)));
    p.push(pair("category", owned(category)));
    p.push(pair("show_dir", i32_to_string(options.show_dir)));
    p.push(pair("parent_path", options.parent_path.clone()));
    p.push(pair("recursion", i32_to_string(options.recursion)));
    p.push(pair("ext", options.ext.clone()));
    p.push(pair("start", i32_to_string(options.start)));
    p.push(pair("limit", i32_to_string(options.limit)));
    p.push(pair("order", options.order.clone()));
    p.push(pair("desc", i32_to_string(options.desc)));
    p.push(pair("device_id", options.device_id.clone()));
    assert(pairs_view(p@) =~= category_search_query(access_token@, category@, *options));
    p
}

/// The simple category search: one category, with the default search
/// options but the given start and limit (at most 1000).
pub fn simple_category_search(category: u32, start: i32, limit: i32) -> (r: (String, CategorySearchOptions))
    ensures
        r.0@ == int_decimal(category as int),
        r.1.start == start,
        r.1.limit == (if limit < 1000 {
            limit
        } else {
            1000i32
        }),
        r.1.show_dir == 0,
        r.1.parent_path@ == "/"@,
        r.1.recursion == 1,
        r.1.ext@ == Seq::<char>::empty(),
        r.1.order@ == "time"@,
        r.1.desc == 1,
        r.1.device_id@ == Seq::<char>::empty(),
{
    let options = CategorySearchOptions::new().start(start).limit(limit);
    (u32_to_string(category), options)
}

/// The outcome of a category search: the file information of its items and
/// their number, or the API error of a failed response.
pub fn category_search_result(response: &CategorySearchResponse) -> (r: NetDiskResult<(Vec<FileInfo>, u64)>)
    ensures
        response.errno != 0 ==> (r matches Err(e) && is_api_error(
            e,
            response.errno,
            api_error_message(response.errno, message_or_unknown(response.errmsg)),
        )),
        response.errno == 0 ==> (r matches Ok((v, total)) && v@ == items_or_empty(
            response.list,
        ).map_values(|i: ListItem| list_item_info(i)) && total == v@.len()),
{
    if response.errno != 0 {
        return Err(response_error(response.errno, &response.errmsg));
    }
    let infos = match &response.list {
        Some(items) => list_items_info(items),
        None => {
            let v: Vec<FileInfo> = Vec::new();
            assert(v@ =~= Seq::<ListItem>::empty().map_values(|i: ListItem| list_item_info(i)));
            v
        },
    };
    let total = infos.len() as u64;
    Ok((infos, total))
}

/// The query of a fixed category listing.
pub open spec fn fixed_list_query(
    method: Seq<char>,
    access_token: Seq<char>,
    parent_path: Seq<char>,
    page: i32,
    num: i32,
    order: Seq<char>,
    desc: i32,
    recursion: i32,
    web: Option<i32>,
) -> Seq<(Seq<char>, Seq<char>)> {
    let base = seq![
        ("method"@, method),
        ("access_token"@, access_token),
        ("parent_path"@, parent_path),
        ("page"@, dec(page)),
        ("num"@, dec(num)),
        ("order"@, order),
        ("desc"@, dec(desc)),
        ("recursion"@, dec(recursion)),
    ];
    match web {
        Some(w) => base.push(("web"@, dec(w))),
        None => base,
    }
}

/// The query of a fixed category listing, from its parts.
fn fixed_list_params(
    method: &str,
    access_token: &str,
    parent_path: &String,
    page: i32,
    num: i32,
    order: &String,
    desc: i32,
    recursion: i32,
    web: Option<i32>,
) -> (r: Vec<(String, String)>)
    ensures
        pairs_view(r@) == fixed_list_query(
            method@,
            access_token@,
            parent_path@,
            page,
            num,
            order@,
            desc,
            recursion,
            web,
        ),
{
    let mut p: Vec<(String, String)> = Vec::new();
    p.push(pair("method", owned(method)));
    p.push(pair("access_token", owned(access_token)));
    p.push(pair("parent_path", parent_path.clone()));
    p.push(pair("page", i32_to_string(page)));
    p.push(pair("num", i32_to_string(num)));
    p.push(pair("order", order.clone()));
    p.push(pair("desc", i32_to_string(desc)));
    p.push(pair("recursion", i32_to_string(recursion)));
    if let Some(w) = web {
        p.push(pair("web", i32_to_string(w)));
    }
    assert(pairs_view(p@) =~= fixed_list_query(
        method@,
        access_token@,
        parent_path@,
        page,
        num,
        order@,
        desc,
        recursion,
        web,
    ));
    p
}

/// The query that lists documents.
pub fn document_list_params(access_token: &str, o: &DocumentListOptions) -> (r: Vec<(String, String)>)
    ensures
        pairs_view(r@) == fixed_list_query(
            "doclist"@,
            access_token@,
            o.parent_path@,
            o.page,
            o.num,
            o.order@,
            o.desc,
            o.recursion,
            Some(o.web),
        ),
{
    fixed_list_params("doclist", access_token, &o.parent_path, o.page, o.num, &o.order, o.desc, o.recursion, Some(o.web))
}

/// The query that lists images.
pub fn image_list_params(access_token: &str, o: &ImageListOptions) -> (r: Vec<(String, String)>)
    ensures
        pairs_view(r@) == fixed_list_query(
            "imagelist"@,
            access_token@,
            o.parent_path@,
            o.page,
            o.num,
            o.order@,
            o.desc,
            o.recursion,
            Some(o.web),
        ),
{
    fixed_list_params("imagelist", access_token, &o.parent_path, o.page, o.num, &o.order, o.desc, o.recursion, Some(o.web))
}

/// The query that lists videos.
pub fn video_list_params(access_token: &str, o: &VideoListOptions) -> (r: Vec<(String, String)>)
    ensures
        pairs_view(r@) == fixed_list_query(
            "videolist"@,
            access_token@,
            o.parent_path@,
            o.page,
            o.num,
            o.order@,
            o.desc,
            o.recursion,
            Some(o.web),
        ),
{
    fixed_list_params("videolist", access_token, &o.parent_path, o.page, o.num, &o.order, o.desc, o.recursion, Some(o.web))
}

/// The query that lists torrents (it has no web flag).
pub fn torrent_list_params(access_token: &str, o: &BtListOptions) -> (r: Vec<(String, String)>)
    ensures
        pairs_view(r@) == fixed_list_query(
            "btlist"@,
            access_token@,
            o.parent_path@,
            o.page,
            o.num,
            o.order@,
            o.desc,
            o.recursion,
            None,
        ),
{
    fixed_list_params("btlist", access_token, &o.parent_path, o.page, o.num, &o.order, o.desc, o.recursion, None)
}

/// The outcome of a fixed category listing: the file information of its
/// items, or the API error of a failed response.
pub fn fixed_list_result(response: &FixedCategoryListResponse) -> (r: NetDiskResult<Vec<FileInfo>>)
    ensures
        response.errno != 0 ==> (r matches Err(e) && is_api_error(
            e,
            response.errno,
            api_error_message(response.errno, message_or_unknown(response.errmsg)),
        )),
        response.errno == 0 ==> (r matches Ok(v) && v@ == items_or_empty(response.info).map_values(
            |i: MediaItem| media_item_info(i),
        )),
{
    if response.errno != 0 {
        return Err(response_error(response.errno, &response.errmsg));
    }
    match &response.info {
        Some(items) => Ok(media_items_info(items)),
        None => {
            let v: Vec<FileInfo> = Vec::new();
            assert(v@ =~= Seq::<MediaItem>::empty().map_values(|i: MediaItem| media_item_info(i)));
            Ok(v)
        },
    }
}

} // verus!
