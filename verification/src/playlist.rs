//! Playlists and media playback: quality levels, the playlist requests and
//! their responses, and the streaming requests.
use vstd::prelude::*;

use crate::errors::{api_error_message, is_api_error, NetDiskError, NetDiskResult};
use crate::file::query::{items_or_empty, message_or_unknown, response_error};
use crate::http::{url_outcome, url_with_params, url_with_query};
use crate::text::{
    contains_seq, i32_to_string, int_decimal, owned, pair, pairs_view, str_contains,
    u64_to_string,
};

verus! {

/// Video quality levels for m3u8 streaming
#[derive(Debug, Clone, Copy, PartialEq, Eq, Structural)]
pub enum VideoQuality {
    /// 480P quality - available to all users
    Quality480P,
    /// 720P quality - highest for regular users
    Quality720P,
    /// 1080P quality - usually requires super VIP
    Quality1080P,
}

/// The API's media type of a video quality.
pub open spec fn video_media_type(q: VideoQuality) -> &'static str {
    match q {
        VideoQuality::Quality480P => "M3U8_AUTO_480",
        VideoQuality::Quality720P => "M3U8_AUTO_720",
        VideoQuality::Quality1080P => "M3U8_AUTO_1080",
    }
}

/// The highest video quality of a VIP level: 480P for levels 0 and 1,
/// 1080P from level 2.
pub open spec fn highest_video_quality(vip_level: u32) -> VideoQuality {
    if vip_level <= 1 {
        VideoQuality::Quality480P
    } else {
        VideoQuality::Quality1080P
    }
}

/// The video qualities of a VIP level, from lowest to highest.
pub open spec fn available_video_qualities(vip_level: u32) -> Seq<VideoQuality> {
    if vip_level <= 1 {
        seq![VideoQuality::Quality480P]
    } else {
        seq![VideoQuality::Quality480P, VideoQuality::Quality720P, VideoQuality::Quality1080P]
    }
}

/// Each video quality asks for the media type that names its own
/// resolution: 480P for `M3U8_AUTO_480`, 720P for `M3U8_AUTO_720`, 1080P for
/// `M3U8_AUTO_1080`; so different qualities ask for different media types.
pub proof fn lemma_media_type_names_resolution(q: VideoQuality, other: VideoQuality)
    ensures
        q == VideoQuality::Quality480P ==> video_media_type(q)@ == "M3U8_AUTO_480"@,
        q == VideoQuality::Quality720P ==> video_media_type(q)@ == "M3U8_AUTO_720"@,
        q == VideoQuality::Quality1080P ==> video_media_type(q)@ == "M3U8_AUTO_1080"@,
        q != other ==> video_media_type(q)@ != video_media_type(other)@,
{
    reveal_strlit("M3U8_AUTO_480");
    reveal_strlit("M3U8_AUTO_720");
    reveal_strlit("M3U8_AUTO_1080");
    assert("M3U8_AUTO_480"@[11] != "M3U8_AUTO_720"@[11]);
    assert("M3U8_AUTO_480"@.len() != "M3U8_AUTO_1080"@.len());
    assert("M3U8_AUTO_720"@.len() != "M3U8_AUTO_1080"@.len());
}

impl VideoQuality {
    /// Get the corresponding media_type string for API
    pub fn to_media_type(self) -> (r: &'static str)
        ensures
            r == video_media_type(self),
    {
        match self {
            VideoQuality::Quality480P => "M3U8_AUTO_480",
            VideoQuality::Quality720P => "M3U8_AUTO_720",
            VideoQuality::Quality1080P => "M3U8_AUTO_1080",
        }
    }

    /// Get the highest quality available for a given VIP level
    ///
    /// - **VIP 0-1**: Max 480P
    /// - **VIP 2+**: Max 1080P (includes 720P)
    pub fn highest_for_vip_level(vip_level: u32) -> (r: Self)
        ensures
            r == highest_video_quality(vip_level),
    {
        if vip_level <= 1 {
            VideoQuality::Quality480P
        } else {
            VideoQuality::Quality1080P
        }
    }

    /// Get all qualities available for a given VIP level (from lowest to highest)
    pub fn available_for_vip_level(vip_level: u32) -> (r: Vec<Self>)
        ensures
            r@ == available_video_qualities(vip_level),
    {
        let mut v: Vec<VideoQuality> = Vec::new();
        if vip_level <= 1 {
            v.push(VideoQuality::Quality480P);
        } else {
            v.push(VideoQuality::Quality480P);
            v.push(VideoQuality::Quality720P);
            v.push(VideoQuality::Quality1080P);
        }
        assert(v@ =~= available_video_qualities(vip_level));
        v
    }
}

/// The highest quality of a VIP level is the last of its available
/// qualities, and the lowest available quality is always 480P.
pub proof fn lemma_highest_is_last_available(vip_level: u32)
    ensures
        available_video_qualities(vip_level).last() == highest_video_quality(vip_level),
        available_video_qualities(vip_level)[0] == VideoQuality::Quality480P,
{
}

/// Audio quality levels for m3u8 streaming
#[derive(Debug, Clone, Copy, PartialEq, Eq, Structural)]
pub enum AudioQuality {
    /// 128kbps MP3
    Quality128K,
}

impl AudioQuality {
    /// Get the corresponding media_type string for API
    pub fn to_media_type(self) -> (r: &'static str)
        ensures
            r == "M3U8_MP3_128",
    {
        match self {
            AudioQuality::Quality128K => "M3U8_MP3_128",
        }
    }
}

/// Options for get_playlist_list
#[derive(Debug, Clone, Copy)]
pub struct PlaylistListOptions {
    /// Current page number (default 1)
    pub page: Option<i32>,
    /// Number of items per page (default 20)
    pub psize: Option<i32>,
}

impl Default for PlaylistListOptions {
    fn default() -> (r: Self)
        ensures
            r.page is None,
            r.psize is None,
    {
        PlaylistListOptions {
            page: None,
            psize: None,
        }
    }
}

impl PlaylistListOptions {
    /// Create a new PlaylistListOptions with default values
    pub fn new() -> (r: Self)
        ensures
            r.page is None,
            r.psize is None,
    {
        Self::default()
    }

    /// Set page number
    pub fn page(self, page: i32) -> (r: Self)
        ensures
            r == (PlaylistListOptions { page: Some(page), ..self }),
    {
        let mut s = self;
        s.page = Some(page);
        s
    }

    /// Set page size
    pub fn psize(self, psize: i32) -> (r: Self)
        ensures
            r == (PlaylistListOptions { psize: Some(psize), ..self }),
    {
        let mut s = self;
        s.psize = Some(psize);
        s
    }

}

/// Options for get_playlist_file_list
#[derive(Debug, Clone, Copy)]
pub struct PlaylistFileListOptions {
    /// Show file details (1 or 0)
    pub showmeta: Option<i32>,
    /// Current page number (default 1)
    pub page: Option<i32>,
    /// Number of items per page (default 20)
    pub psize: Option<i32>,
}

impl Default for PlaylistFileListOptions {
    fn default() -> (r: Self)
        ensures
            r.showmeta is None,
            r.page is None,
            r.psize is None,
    {
        PlaylistFileListOptions {
            showmeta: None,
            page: None,
            psize: None,
        }
    }
}

impl PlaylistFileListOptions {
    /// Create a new PlaylistFileListOptions with default values
    pub fn new() -> (r: Self)
        ensures
            r.showmeta is None,
            r.page is None,
            r.psize is None,
    {
        Self::default()
    }

    /// Set showmeta flag (1 to show details, 0 otherwise)
    pub fn showmeta(self, showmeta: i32) -> (r: Self)
        ensures
            r == (PlaylistFileListOptions { showmeta: Some(showmeta), ..self }),
    {
        let mut s = self;
        s.showmeta = Some(showmeta);
        s
    }

    /// Set page number
    pub fn page(self, page: i32) -> (r: Self)
        ensures
            r == (PlaylistFileListOptions { page: Some(page), ..self }),
    {
        let mut s = self;
        s.page = Some(page);
        s
    }

    /// Set page size
    pub fn psize(self, psize: i32) -> (r: Self)
        ensures
            r == (PlaylistFileListOptions { psize: Some(psize), ..self }),
    {
        let mut s = self;
        s.psize = Some(psize);
        s
    }

}

/// Playlist information
#[derive(Debug)]
pub struct PlaylistInfo {
    /// Playlist name
    pub name: String,
    /// Playlist ID
    pub mb_id: u64,
    /// File count in playlist
    pub file_count: u32,
    /// Creation time (timestamp)
    pub ctime: u32,
    /// Modification time (timestamp)
    pub mtime: u32,
    /// Broadcast type (0: audio)
    pub btype: u32,
    /// Broadcast sub-type (0: normal, 1: music, 2: course)
    pub bstype: u32,
}

/// List of playlists
#[derive(Debug)]
pub struct PlaylistList {
    pub has_more: u32,
    pub list: Vec<PlaylistInfo>,
}

/// Playlist file information
#[derive(Debug)]
pub struct PlaylistFileInfo {
    /// File server ID
    pub fs_id: String,
    /// File path
    pub path: String,
    /// Broadcast file modification time
    pub broadcast_file_mtime: u64,
    /// Server creation time (optional)
    pub server_ctime: Option<String>,
    /// Server modification time (optional)
    pub server_mtime: Option<String>,
    /// Local creation time (optional)
    pub local_ctime: Option<String>,
    /// Local modification time (optional)
    pub local_mtime: Option<String>,
    /// Is directory (optional)
    pub isdir: Option<String>,
    /// File size (optional)
    pub size: Option<String>,
    /// File category (optional)
    pub category: Option<String>,
    /// Server MD5 hash (optional)
    pub md5: Option<String>,
    /// Privacy level (optional)
    pub privacy: Option<String>,
    /// File name (optional)
    pub server_filename: Option<String>,
}

/// List of playlist files
#[derive(Debug)]
pub struct PlaylistFileList {
    pub has_more: u32,
    pub list: Vec<PlaylistFileInfo>,
}

/// Playlist listing response
pub struct PlaylistListResponse {
    pub has_more: u32,
    pub list: Option<Vec<PlaylistInfo>>,
    pub errno: i32,
    pub errmsg: Option<String>,
}

/// Playlist file listing response
pub struct PlaylistFileListResponse {
    pub has_more: u32,
    pub list: Option<Vec<PlaylistFileInfo>>,
    pub errno: i32,
    pub errmsg: Option<String>,
}

/// The query of a playlist listing: the page and page size when given.
pub open spec fn playlist_list_query(access_token: Seq<char>, o: PlaylistListOptions) -> Seq<
    (Seq<char>, Seq<char>),
> {
    let base = seq![("method"@, "list"@), ("access_token"@, access_token)];
    let with_page = match o.page {
        Some(p) => base.push(("page"@, int_decimal(p as int))),
        None => base,
    };
    match o.psize {
        Some(s) => with_page.push(("psize"@, int_decimal(s as int))),
        None => with_page,
    }
}

/// The query that lists playlists.
pub fn playlist_list_params(access_token: &str, options: &PlaylistListOptions) -> (r: Vec<
    (String, String),
>)
    ensures
        pairs_view(r@) == playlist_list_query(access_token@, *options),
{
    let mut p: Vec<(String, String)> = Vec::new();
    p.push(pair("method", owned("list")));
    p.push(pair("access_token", owned(access_token)));
    if let Some(page) = options.page {
        p.push(pair("page", i32_to_string(page)));
    }
    if let Some(psize) = options.psize {
        p.push(pair("psize", i32_to_string(psize)));
    }
    assert(pairs_view(p@) =~= playlist_list_query(access_token@, *options));
    p
}

/// The outcome of a playlist listing: whether more remain and the playlists
/// (none when absent), or the API error of a failed response.
pub fn playlist_list_result(response: PlaylistListResponse) -> (r: NetDiskResult<PlaylistList>)
    ensures
        response.errno != 0 ==> (r matches Err(e) && is_api_error(
            e,
            response.errno,
            api_error_message(response.errno, message_or_unknown(response.errmsg)),
        )),
        response.errno == 0 ==> (r matches Ok(l) && l.has_more == response.has_more && l.list@
            == items_or_empty(response.list)),
{
    if response.errno != 0 {
        return Err(response_error(response.errno, &response.errmsg));
    }
    let list = match response.list {
        Some(v) => v,
        None => Vec::new(),
    };
    Ok(PlaylistList { has_more: response.has_more, list })
}

/// The query of a playlist file listing: the flags when given.
pub open spec fn playlist_file_list_query(access_token: Seq<char>, mb_id: u64, o: PlaylistFileListOptions) -> Seq<
    (Seq<char>, Seq<char>),
> {
    let base = seq![("access_token"@, access_token), ("mb_id"@, int_decimal(mb_id as int))];
    let with_meta = match o.showmeta {
        Some(m) => base.push(("showmeta"@, int_decimal(m as int))),
        None => base,
    };
    let with_page = match o.page {
        Some(p) => with_meta.push(("page"@, int_decimal(p as int))),
        None => with_meta,
    };
    match o.psize {
        Some(s) => with_page.push(("psize"@, int_decimal(s as int))),
        None => with_page,
    }
}

/// The query that lists the files of a playlist.
pub fn playlist_file_list_params(access_token: &str, mb_id: u64, options: &PlaylistFileListOptions) -> (r:
    Vec<(String, String)>)
    ensures
        pairs_view(r@) == playlist_file_list_query(access_token@, mb_id, *options),
{
    let mut p: Vec<(String, String)> = Vec::new();
    p.push(pair("access_token", owned(access_token)));
    p.push(pair("mb_id", u64_to_string(mb_id)));
    if let Some(m) = options.showmeta {
        p.push(pair("showmeta", i32_to_string(m)));
    }
    if let Some(page) = options.page {
        p.push(pair("page", i32_to_string(page)));
    }
    if let Some(psize) = options.psize {
        p.push(pair("psize", i32_to_string(psize)));
    }
    assert(pairs_view(p@) =~= playlist_file_list_query(access_token@, mb_id, *options));
    p
}

/// The outcome of a playlist file listing: whether more remain and the
/// files (none when absent), or the API error of a failed response.
pub fn playlist_file_list_result(response: PlaylistFileListResponse) -> (r: NetDiskResult<
    PlaylistFileList,
>)
    ensures
        response.errno != 0 ==> (r matches Err(e) && is_api_error(
            e,
            response.errno,
            api_error_message(response.errno, message_or_unknown(response.errmsg)),
        )),
        response.errno == 0 ==> (r matches Ok(l) && l.has_more == response.has_more && l.list@
            == items_or_empty(response.list)),
{
    if response.errno != 0 {
        return Err(response_error(response.errno, &response.errmsg));
    }
    let list = match response.list {
        Some(v) => v,
        None => Vec::new(),
    };
    Ok(PlaylistFileList { has_more: response.has_more, list })
}

/// The query of a media play information request: the streaming method and
/// type, the file by ID and/or path, and the application ID when known.
pub open spec fn media_play_query(
    access_token: Seq<char>,
    fsid: Option<u64>,
    path: Option<Seq<char>>,
    media_type: Seq<char>,
    app_id: Option<Seq<char>>,
) -> Seq<(Seq<char>, Seq<char>)> {
    let base = seq![("method"@, "streaming"@), ("access_token"@, access_token), ("type"@, media_type)];
    let with_fid = match fsid {
        Some(f) => base.push(("fid"@, int_decimal(f as int))),
        None => base,
    };
    let with_path = match path {
        Some(p) => with_fid.push(("path"@, p)),
        None => with_fid,
    };
    match app_id {
        Some(a) => with_path.push(("app_id"@, a)),
        None => with_path,
    }
}

/// The optional view of an optional string.
pub open spec fn opt_view(o: Option<&str>) -> Option<Seq<char>> {
    match o {
        Some(s) => Some(s@),
        None => None,
    }
}

/// The optional view of an optional owned string.
pub open spec fn opt_string_view(o: Option<String>) -> Option<Seq<char>> {
    match o {
        Some(s) => Some(s@),
        None => None,
    }
}

/// The query that asks how to play a media file.
pub fn media_play_params(
    access_token: &str,
    fsid: Option<u64>,
    path: Option<&str>,
    media_type: &str,
    app_id: &Option<String>,
) -> (r: Vec<(String, String)>)
    ensures
        pairs_view(r@) == media_play_query(
            access_token@,
            fsid,
            opt_view(path),
            media_type@,
            opt_string_view(*app_id),
        ),
{
    let mut p: Vec<(String, String)> = Vec::new();
    p.push(pair("method", owned("streaming")));
    p.push(pair("access_token", owned(access_token)));
    p.push(pair("type", owned(media_type)));
    if let Some(f) = fsid {
        p.push(pair("fid", u64_to_string(f)));
    }
    if let Some(pa) = path {
        p.push(pair("path", owned(pa)));
    }
    if let Some(a) = app_id {
        p.push(pair("app_id", a.clone()));
    }
    assert(pairs_view(p@) =~= media_play_query(
        access_token@,
        fsid,
        opt_view(path),
        media_type@,
        opt_string_view(*app_id),
    ));
    p
}

/// The query of a raw m3u8 request for a path.
pub open spec fn m3u8_query(
    access_token: Seq<char>,
    path: Seq<char>,
    media_type: Seq<char>,
    app_id: Option<Seq<char>>,
) -> Seq<(Seq<char>, Seq<char>)> {
    let base = seq![
        ("method"@, "streaming"@),
        ("access_token"@, access_token),
        ("path"@, path),
        ("type"@, media_type),
    ];
    match app_id {
        Some(a) => base.push(("app_id"@, a)),
        None => base,
    }
}

/// The query that asks for the raw m3u8 playlist of a media file.
pub fn m3u8_params(access_token: &str, path: &str, media_type: &str, app_id: &Option<String>) -> (r:
    Vec<(String, String)>)
    ensures
        pairs_view(r@) == m3u8_query(access_token@, path@, media_type@, opt_string_view(*app_id)),
{
    let mut p: Vec<(String, String)> = Vec::new();
    p.push(pair("method", owned("streaming")));
    p.push(pair("access_token", owned(access_token)));
    p.push(pair("path", owned(path)));
    p.push(pair("type", owned(media_type)));
    if let Some(a) = app_id {
        p.push(pair("app_id", a.clone()));
    }
    assert(pairs_view(p@) =~= m3u8_query(access_token@, path@, media_type@, opt_string_view(*app_id)));
    p
}

/// An m3u8 playlist is complete, so the media fully transcoded, when it holds
/// the end-of-list tag.
pub open spec fn is_fully_transcoded(content: Seq<char>) -> bool {
    contains_seq(content, "#EXT-X-ENDLIST"@)
}

/// The URL that fetches the m3u8 content of a media: the file endpoint with
/// the streaming query, or the URL parsing error.
pub fn m3u8_url(access_token: &str, path: &str, media_type: &str, app_id: &Option<String>) -> (r:
    NetDiskResult<String>)
    ensures
        url_outcome(
            url_with_query(
                "https://pan.baidu.com/rest/2.0/xpan/file"@,
                m3u8_query(access_token@, path@, media_type@, opt_string_view(*app_id)),
            ),
            r,
        ),
{
    let params = m3u8_params(access_token, path, media_type, app_id);
    url_with_params("https://pan.baidu.com/rest/2.0/xpan/file", &params)
}

/// Whether m3u8 content shows a fully transcoded media: it contains
/// `#EXT-X-ENDLIST`.
pub fn m3u8_is_complete(content: &str) -> (r: bool)
    ensures
        r == is_fully_transcoded(content@),
{
    str_contains(content, "#EXT-X-ENDLIST")
}

} // verus!
