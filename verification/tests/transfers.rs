use baidu_netdisk_sdk::download::{
    auto_strategy, chunk_ranges, chunk_status_ok, download_link, download_url, fs_id_of,
    parallel_concurrency, range_header, DownloadStrategy, CHUNK_SIZE,
};
use baidu_netdisk_sdk::errors::NetDiskError;
use baidu_netdisk_sdk::file::{FileInfo, FileMeta};
use baidu_netdisk_sdk::upload::{
    block_list_of, chunks_to_upload, get_create_error_message, get_error_message,
    final_block_list, merged_block_list, sort_chunk_results, BlockListBuilder, LocateUploadResponse,
    LocateUploadServer, PrecreateOptions, ReaderUploadPlan,
};
use baidu_netdisk_sdk::upload::precreate_request;

fn meta(size: Option<u64>, dlink: Option<&str>) -> FileMeta {
    FileMeta {
        fs_id: Some(1),
        path: "/a".to_string(),
        size,
        name: "a".to_string(),
        dlink: dlink.map(String::from),
    }
}

fn info(fs_id: Option<u64>) -> FileInfo {
    FileInfo {
        fs_id,
        path: "/p".to_string(),
        size: None,
        ctime: None,
        mtime: None,
        isdir: None,
        name: "p".to_string(),
        md5: None,
        category: None,
        oper_id: None,
        owner_id: None,
        owner_type: None,
        server_atime: None,
        server_ctime: None,
        server_mtime: None,
    }
}

#[test]
fn download_url_appends_the_token() {
    assert_eq!(download_url("https://d/x", "tk"), "https://d/x?access_token=tk");
    assert_eq!(download_url("https://d/x?a=1", "tk"), "https://d/x?a=1&access_token=tk");
}

#[test]
fn download_link_and_fs_id_errors() {
    assert_eq!(download_link(&meta(None, Some("L"))).unwrap(), "L");
    match download_link(&meta(None, None)) {
        Err(NetDiskError::ApiError { errno, errmsg }) => {
            assert_eq!(errno, -1);
            assert_eq!(errmsg, "系统错误");
        }
        _ => panic!("expected an API error"),
    }
    assert_eq!(fs_id_of(&info(Some(77))).unwrap(), 77);
    assert!(matches!(fs_id_of(&info(None)), Err(NetDiskError::ApiError { errno: -1, .. })));
}

#[test]
fn chunk_ranges_tile_the_file() {
    assert!(chunk_ranges(0).is_empty());
    assert_eq!(chunk_ranges(1), vec![(0, 0, 0)]);
    assert_eq!(chunk_ranges(CHUNK_SIZE), vec![(0, 0, CHUNK_SIZE - 1)]);
    assert_eq!(
        chunk_ranges(CHUNK_SIZE + 1),
        vec![(0, 0, CHUNK_SIZE - 1), (1, CHUNK_SIZE, CHUNK_SIZE)]
    );
    for size in [3 * CHUNK_SIZE - 1, 3 * CHUNK_SIZE, 10 * CHUNK_SIZE + 17] {
        let r = chunk_ranges(size);
        assert_eq!(r[0].1, 0);
        assert_eq!(r.last().unwrap().2, size - 1);
        for w in r.windows(2) {
            assert_eq!(w[0].2 + 1, w[1].1);
        }
        for (i, c) in r.iter().enumerate() {
            assert_eq!(c.0, i);
            assert!(c.1 <= c.2 && c.2 - c.1 < CHUNK_SIZE);
        }
    }
}

#[test]
fn range_headers_and_statuses() {
    assert_eq!(range_header(0, 4194303), "bytes=0-4194303");
    assert!(chunk_status_ok(200) && chunk_status_ok(206) && chunk_status_ok(299));
    assert!(!chunk_status_ok(199) && !chunk_status_ok(300) && !chunk_status_ok(416));
}

#[test]
fn strategy_follows_size() {
    assert_eq!(auto_strategy(&meta(Some(10 * 1024 * 1024 - 1), None)), DownloadStrategy::Single);
    assert_eq!(
        auto_strategy(&meta(Some(10 * 1024 * 1024), None)),
        DownloadStrategy::Streaming { max_concurrency: 4 }
    );
    assert_eq!(auto_strategy(&meta(None, None)), DownloadStrategy::Single);
    assert_eq!(parallel_concurrency(None), (4, 12));
    assert_eq!(parallel_concurrency(Some(2)), (2, 6));
}

#[test]
fn block_list_is_md5_per_piece() {
    assert!(block_list_of(&[], 4).is_empty());
    assert_eq!(
        block_list_of(b"abc", 4),
        vec!["900150983cd24fb0d6963f7d28e17f72".to_string()]
    );
    let r = block_list_of(b"abcabcab", 3);
    assert_eq!(
        r,
        vec![
            "900150983cd24fb0d6963f7d28e17f72".to_string(),
            "900150983cd24fb0d6963f7d28e17f72".to_string(),
            format!("{:x}", md5::compute(b"ab")),
        ]
    );
    let mut b = BlockListBuilder::new();
    b.add_chunk(b"abc");
    b.add_chunk(b"");
    assert_eq!(b.len(), 2);
    assert_eq!(
        b.into_blocks(),
        vec![
            "900150983cd24fb0d6963f7d28e17f72".to_string(),
            "d41d8cd98f00b204e9800998ecf8427e".to_string()
        ]
    );
}

#[test]
fn chunks_to_upload_keeps_missing_pieces() {
    let data: Vec<u8> = (0u8..10).collect();
    let r = chunks_to_upload(&data, 4, &vec![2, 0, 7]);
    assert_eq!(r, vec![(0, vec![0, 1, 2, 3]), (2, vec![8, 9])]);
    assert!(chunks_to_upload(&data, 4, &vec![]).is_empty());
}

#[test]
fn chunk_results_sort_stably_by_index() {
    let results = vec![
        (2u32, "c".to_string()),
        (0, "a".to_string()),
        (2, "c2".to_string()),
        (1, "b".to_string()),
    ];
    let sorted = sort_chunk_results(&results);
    assert_eq!(
        sorted,
        vec![
            (0, "a".to_string()),
            (1, "b".to_string()),
            (2, "c".to_string()),
            (2, "c2".to_string())
        ]
    );
    assert_eq!(
        merged_block_list(&results),
        vec!["a".to_string(), "b".to_string(), "c".to_string(), "c2".to_string()]
    );
}

#[test]
fn reader_plan_batches_missing_chunks() {
    let mut plan = ReaderUploadPlan::new(vec![0, 2], 1, 3);
    assert!(plan.on_chunk(b"zero".to_vec()).is_none());
    assert!(plan.on_chunk(b"abc".to_vec()).is_none());
    let batch = plan.on_chunk(b"two".to_vec()).unwrap();
    assert_eq!(batch, vec![(0, b"zero".to_vec()), (2, b"two".to_vec())]);
    plan.on_uploaded(vec![(2, "md5-two".to_string()), (0, "md5-zero".to_string())]);
    assert_eq!(
        plan.block_list(),
        vec![
            "md5-zero".to_string(),
            "900150983cd24fb0d6963f7d28e17f72".to_string(),
            "md5-two".to_string()
        ]
    );
}

#[test]
fn reader_plan_flushes_full_batches() {
    let mut plan = ReaderUploadPlan::new(vec![0, 1, 2, 3], 1, 4);
    assert!(plan.on_chunk(vec![1]).is_none());
    assert_eq!(plan.on_chunk(vec![2]).unwrap(), vec![(0, vec![1]), (1, vec![2])]);
    assert!(plan.on_chunk(vec![3]).is_none());
    assert_eq!(plan.on_chunk(vec![4]).unwrap(), vec![(2, vec![3]), (3, vec![4])]);
}

fn server(s: &str) -> LocateUploadServer {
    LocateUploadServer { server: s.to_string() }
}

#[test]
fn https_servers_are_filtered_in_order() {
    let r = LocateUploadResponse {
        bak_server: vec![],
        bak_servers: vec![],
        client_ip: String::new(),
        error_code: 0,
        error_msg: String::new(),
        expire: 0,
        host: String::new(),
        newno: String::new(),
        quic_server: vec![],
        quic_servers: vec![],
        request_id: 0,
        server: vec![],
        server_time: 0,
        servers: vec![server("http://a"), server("https://b"), server("https://c")],
        sl: 0,
    };
    assert_eq!(r.get_https_servers(), vec!["https://b".to_string(), "https://c".to_string()]);
    assert_eq!(r.get_first_https_server(), Some("https://b".to_string()));
}

#[test]
fn upload_error_messages() {
    assert_eq!(get_create_error_message(-8), "File or directory already exists");
    assert_eq!(get_create_error_message(31365), "Total file size limit exceeded");
    assert_eq!(get_create_error_message(5), "Unknown error: 5");
    assert_eq!(get_error_message(-10), "Insufficient capacity");
    assert_eq!(get_error_message(-3), "Unknown error: -3");
}

#[test]
fn reader_plan_batches_hold_only_missing_chunks() {
    let missing = vec![1u32, 2, 5, 6, 7, 9];
    let total = 12usize;
    let mut plan = ReaderUploadPlan::new(missing.clone(), 1, total);
    let mut uploaded: Vec<u32> = Vec::new();
    for i in 0..total {
        if let Some(batch) = plan.on_chunk(vec![i as u8]) {
            assert!(batch.len() <= 2);
            for (seq, data) in &batch {
                assert!(missing.contains(seq));
                assert_eq!(data, &vec![*seq as u8]);
                uploaded.push(*seq);
            }
            let results = batch.iter().map(|(s, _)| (*s, format!("srv{}", s))).collect();
            plan.on_uploaded(results);
        }
    }
    assert_eq!(uploaded, missing);
    let blocks = plan.block_list();
    assert_eq!(blocks.len(), total);
    assert_eq!(blocks[1], "srv1");
    assert_eq!(blocks[0], format!("{:x}", md5::compute([0u8])));
}

#[test]
fn byte_upload_block_list_keeps_every_chunk() {
    let local = vec!["l0".to_string(), "l1".to_string(), "l2".to_string(), "l3".to_string()];
    let results = vec![(2u32, "s2".to_string()), (0, "s0".to_string())];
    assert_eq!(
        final_block_list(&local, &results),
        vec!["s0".to_string(), "l1".to_string(), "s2".to_string(), "l3".to_string()]
    );
    assert_eq!(final_block_list(&local, &Vec::new()), local);
}

#[test]
fn precreate_form_holds_the_block_list_as_json() {
    let options = PrecreateOptions::new(
        "/apps/a.txt",
        5,
        vec!["abc".to_string(), "q\"b\\s\n\u{1}\u{e9}".to_string()],
    );
    let (query, form) = precreate_request(&options, "tok").unwrap();
    assert_eq!(query[0], ("method".to_string(), "precreate".to_string()));
    let block_list = form.iter().find(|(k, _)| k == "block_list").unwrap().1.clone();
    assert_eq!(block_list, "[\"abc\",\"q\\\"b\\\\s\\n\\u0001\u{e9}\"]");
    assert_eq!(block_list, serde_json::to_string(&options.block_list).unwrap());
    let empty = PrecreateOptions::new("/apps/a.txt", 0, Vec::new());
    let (_, form) = precreate_request(&empty, "tok").unwrap();
    assert_eq!(form.iter().find(|(k, _)| k == "block_list").unwrap().1, "[]");
}
