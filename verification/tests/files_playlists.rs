use baidu_netdisk_sdk::errors::NetDiskError;
use baidu_netdisk_sdk::file::query::{
    file_lookup, file_meta_params, find_file_info, list_directory_params, list_directory_result,
    semantic_search_request, ListItem, ListResponse,
};
use baidu_netdisk_sdk::file::{Category, FileInfo, ListOptions, SemanticSearchOptions};
use baidu_netdisk_sdk::playlist::{
    m3u8_is_complete, m3u8_url, playlist_list_params, PlaylistListOptions, VideoQuality,
};

fn pairs(v: &[(String, String)]) -> Vec<(&str, &str)> {
    v.iter().map(|(k, x)| (k.as_str(), x.as_str())).collect()
}

fn file(path: &str, name: &str, id: u64) -> FileInfo {
    FileInfo {
        fs_id: Some(id),
        path: path.to_string(),
        size: None,
        ctime: None,
        mtime: None,
        isdir: None,
        name: name.to_string(),
        md5: None,
        category: None,
        oper_id: None,
        owner_id: None,
        owner_type: None,
        server_atime: None,
        server_ctime: None,
        server_mtime: None,
    }
}

#[test]
fn lookup_splits_paths() {
    let (n, parent, name) = file_lookup("/apps/test/file.txt");
    assert_eq!((n.as_str(), parent.as_str(), name.as_str()), ("/apps/test/file.txt", "/apps/test", "file.txt"));
    let (n, parent, name) = file_lookup("/file.txt");
    assert_eq!((n.as_str(), parent.as_str(), name.as_str()), ("/file.txt", "/", "file.txt"));
    let (n, parent, name) = file_lookup("");
    assert_eq!((n.as_str(), parent.as_str(), name.as_str()), ("/", "/", ""));
    let (_, parent, name) = file_lookup("plain");
    assert_eq!((parent.as_str(), name.as_str()), ("/", "plain"));
}

#[test]
fn find_file_info_takes_the_first_match() {
    let files = vec![file("/a/x", "x", 1), file("/a/y", "y", 2), file("/b/y", "y", 3)];
    assert_eq!(find_file_info(&files, "/a/y", "zzz").unwrap().fs_id, Some(2));
    assert_eq!(find_file_info(&files, "/nope", "y").unwrap().fs_id, Some(2));
    match find_file_info(&files, "/nope", "nope") {
        Err(NetDiskError::ApiError { errno, errmsg }) => {
            assert_eq!(errno, -6);
            assert_eq!(errmsg, "文件不存在");
        }
        _ => panic!("expected an API error"),
    }
}

#[test]
fn list_directory_query_order() {
    let p = list_directory_params("tok", "/dir", &ListOptions::new());
    assert_eq!(
        pairs(&p),
        vec![
            ("method", "list"),
            ("dir", "/dir"),
            ("order", "name"),
            ("desc", "1"),
            ("start", "0"),
            ("limit", "100"),
            ("web", "1"),
            ("folder", "0"),
            ("showempty", "0"),
            ("access_token", "tok"),
        ]
    );
}

#[test]
fn file_meta_query_holds_a_json_array() {
    let p = file_meta_params("tok", 123456789).unwrap();
    assert_eq!(
        pairs(&p),
        vec![("method", "filemetas"), ("access_token", "tok"), ("fsids", "[123456789]"), ("dlink", "1")]
    );
}

#[test]
fn semantic_search_url_is_percent_encoded() {
    let url = semantic_search_request("a b", "猫&狗", &SemanticSearchOptions::new());
    assert_eq!(
        url,
        "https://pan.baidu.com/xpan/unisearch?access_token=a%20b&scene=mcpserver&query=%E7%8C%AB%26%E7%8B%97&num=50&stream=1&search_type=0"
    );
}

fn item(name: &str) -> ListItem {
    ListItem {
        fs_id: Some(9),
        path: format!("/d/{}", name),
        size: Some(3),
        ctime: None,
        mtime: None,
        isdir: Some(0),
        server_filename: name.to_string(),
        md5: None,
        category: Some(4),
        oper_id: None,
        owner_id: None,
        owner_type: None,
        server_atime: None,
        server_ctime: None,
        server_mtime: None,
    }
}

#[test]
fn list_directory_results() {
    let r = list_directory_result(&ListResponse {
        errno: 0,
        errmsg: None,
        list: Some(vec![item("a"), item("b")]),
    })
    .unwrap();
    assert_eq!(r.len(), 2);
    assert_eq!(r[1].name, "b");
    assert_eq!(r[1].path, "/d/b");
    let empty = list_directory_result(&ListResponse { errno: 0, errmsg: None, list: None }).unwrap();
    assert!(empty.is_empty());
    match list_directory_result(&ListResponse { errno: 55555, errmsg: None, list: None }) {
        Err(NetDiskError::ApiError { errno, errmsg }) => {
            assert_eq!(errno, 55555);
            assert_eq!(errmsg, "Unknown error");
        }
        _ => panic!("expected an API error"),
    }
}

#[test]
fn video_qualities_by_vip_level() {
    assert_eq!(VideoQuality::highest_for_vip_level(0), VideoQuality::Quality480P);
    assert_eq!(VideoQuality::highest_for_vip_level(2), VideoQuality::Quality1080P);
    let all = VideoQuality::available_for_vip_level(2);
    assert_eq!(*all.last().unwrap(), VideoQuality::highest_for_vip_level(2));
    assert_eq!(VideoQuality::Quality720P.to_media_type(), "M3U8_AUTO_720");
}

#[test]
fn m3u8_completion() {
    assert!(m3u8_is_complete("#EXTM3U\n#EXTINF:1,\nx.ts\n#EXT-X-ENDLIST\n"));
    assert!(!m3u8_is_complete("#EXTM3U\n#EXTINF:1,\nx.ts\n"));
}

#[test]
fn playlist_query_with_and_without_paging() {
    let p = playlist_list_params("t", &PlaylistListOptions { page: None, psize: None });
    assert_eq!(pairs(&p)[..2], [("method", "list"), ("access_token", "t")]);
    let p = playlist_list_params("t", &PlaylistListOptions { page: Some(2), psize: Some(5) });
    assert!(pairs(&p).contains(&("page", "2")));
    assert!(pairs(&p).contains(&("psize", "5")));
}

#[test]
fn category_numbers_are_distinct() {
    let all = [
        Category::Video,
        Category::Music,
        Category::Image,
        Category::Document,
        Category::Application,
        Category::Other,
        Category::Torrent,
    ];
    let numbers: Vec<u32> = all.iter().map(|c| c.as_u32()).collect();
    assert_eq!(numbers, vec![1, 2, 3, 4, 5, 6, 7]);
}

#[test]
fn m3u8_url_carries_the_streaming_query() {
    let url = m3u8_url("tok", "/v/a.mp4", "M3U8_AUTO_720", &Some("250528".to_string())).unwrap();
    assert!(url.starts_with("https://pan.baidu.com/rest/2.0/xpan/file?"));
    assert!(url.contains("access_token=tok"));
    assert!(url.contains("path=%2Fv%2Fa.mp4"));
    assert!(url.contains("type=M3U8_AUTO_720"));
    assert!(url.contains("app_id=250528"));
}
