use baidu_netdisk_sdk::errors::NetDiskError;
use baidu_netdisk_sdk::quota::{
    capacity_params, capacity_result, quota_params, quota_result, CapacityInfo, CapacityResponse,
    QuotaResponse,
};
use baidu_netdisk_sdk::user::{user_info_params, user_info_result, UserInfoResponse};

fn pairs(v: &[(String, String)]) -> Vec<(&str, &str)> {
    v.iter().map(|(k, x)| (k.as_str(), x.as_str())).collect()
}

fn float_format(b: u64) -> String {
    const KB: u64 = 1024;
    const MB: u64 = KB * 1024;
    const GB: u64 = MB * 1024;
    const TB: u64 = GB * 1024;
    match b {
        b if b < KB => format!("{} B", b),
        b if b < MB => format!("{:.2} KB", b as f64 / KB as f64),
        b if b < GB => format!("{:.2} MB", b as f64 / MB as f64),
        b if b < TB => format!("{:.2} GB", b as f64 / GB as f64),
        b => format!("{:.2} TB", b as f64 / TB as f64),
    }
}

#[test]
fn format_bytes_examples() {
    assert_eq!(CapacityInfo::format_bytes(0), "0 B");
    assert_eq!(CapacityInfo::format_bytes(1023), "1023 B");
    assert_eq!(CapacityInfo::format_bytes(1024), "1.00 KB");
    assert_eq!(CapacityInfo::format_bytes(1536), "1.50 KB");
    assert_eq!(CapacityInfo::format_bytes(1048575), "1024.00 KB");
    assert_eq!(CapacityInfo::format_bytes(1048576), "1.00 MB");
    assert_eq!(CapacityInfo::format_bytes(1073741824), "1.00 GB");
    assert_eq!(CapacityInfo::format_bytes(1099511627776), "1.00 TB");
    assert_eq!(CapacityInfo::format_bytes(2199023255552 + 1099511627776 / 4), "2.25 TB");
}

#[test]
fn format_bytes_rounds_ties_like_float_formatting() {
    // 1152 / 1024 = 1.125 exactly: a tie between 1.12 and 1.13
    assert_eq!(CapacityInfo::format_bytes(1152), float_format(1152));
    assert_eq!(CapacityInfo::format_bytes(1152), "1.12 KB");
    // 1.375 and 1.625 and 1.875
    for b in [1408u64, 1664, 1920, 3200, 5248] {
        assert_eq!(CapacityInfo::format_bytes(b), float_format(b), "bytes {}", b);
    }
}

#[test]
fn format_bytes_agrees_with_float_formatting_on_a_sweep() {
    let mut b: u64 = 0;
    while b < 5_000_000 {
        assert_eq!(CapacityInfo::format_bytes(b), float_format(b), "bytes {}", b);
        b += 7;
    }
    let mut x: u64 = 1;
    for _ in 0..64 {
        for d in [0u64, 1, 2, 3, 511, 512, 513] {
            let v = x.wrapping_sub(d);
            assert_eq!(CapacityInfo::format_bytes(v), float_format(v), "bytes {}", v);
            let w = x.wrapping_add(d);
            assert_eq!(CapacityInfo::format_bytes(w), float_format(w), "bytes {}", w);
        }
        x = x.wrapping_mul(2);
    }
    let mut y: u64 = 0x1234_5678_9abc_def1;
    for _ in 0..20000 {
        y ^= y << 13;
        y ^= y >> 7;
        y ^= y << 17;
        let v = y >> (y % 64);
        assert_eq!(CapacityInfo::format_bytes(v), float_format(v), "bytes {}", v);
    }
    assert_eq!(CapacityInfo::format_bytes(u64::MAX), float_format(u64::MAX));
}

#[test]
fn capacity_formatters_use_their_field() {
    let info = CapacityInfo { total: 2048, used: 1024, free: 512, expire: false };
    assert_eq!(info.format_total(), "2.00 KB");
    assert_eq!(info.format_used(), "1.00 KB");
    assert_eq!(info.format_free(), "512 B");
}

#[test]
fn quota_query_carries_the_token() {
    let p = quota_params("tok");
    assert_eq!(pairs(&p), vec![("access_token", "tok")]);
}

#[test]
fn capacity_query_adds_checks_when_asked() {
    assert_eq!(pairs(&capacity_params("t", false, false)), vec![("access_token", "t")]);
    assert_eq!(
        pairs(&capacity_params("t", true, true)),
        vec![("access_token", "t"), ("checkfree", "1"), ("checkexpire", "1")]
    );
    assert_eq!(
        pairs(&capacity_params("t", false, true)),
        vec![("access_token", "t"), ("checkexpire", "1")]
    );
}

#[test]
fn quota_result_computes_free_space() {
    let r = quota_result(&QuotaResponse {
        errno: 0,
        errmsg: String::new(),
        total: 1000,
        used: 400,
    })
    .unwrap();
    assert_eq!((r.total, r.used, r.free), (1000, 400, 600));
}

#[test]
fn quota_result_reports_api_errors() {
    let r = quota_result(&QuotaResponse {
        errno: -6,
        errmsg: "whatever".to_string(),
        total: 0,
        used: 0,
    });
    match r {
        Err(NetDiskError::ApiError { errno, errmsg }) => {
            assert_eq!(errno, -6);
            assert_eq!(errmsg, "文件不存在");
        }
        _ => panic!("expected an API error"),
    }
    let r = quota_result(&QuotaResponse {
        errno: 12345,
        errmsg: "raw message".to_string(),
        total: 0,
        used: 0,
    });
    match r {
        Err(NetDiskError::ApiError { errno, errmsg }) => {
            assert_eq!(errno, 12345);
            assert_eq!(errmsg, "raw message");
        }
        _ => panic!("expected an API error"),
    }
}

#[test]
fn capacity_result_copies_fields() {
    let r = capacity_result(&CapacityResponse {
        errno: 0,
        errmsg: String::new(),
        total: 10,
        used: 3,
        free: 7,
        expire: true,
    })
    .unwrap();
    assert_eq!((r.total, r.used, r.free, r.expire), (10, 3, 7, true));
    let e = capacity_result(&CapacityResponse {
        errno: -10,
        errmsg: String::new(),
        total: 0,
        used: 0,
        free: 0,
        expire: false,
    });
    assert!(matches!(e, Err(NetDiskError::ApiError { errno: -10, .. })));
}

#[test]
fn user_info_query_adds_vip_version_when_given() {
    assert_eq!(
        pairs(&user_info_params("t", None)),
        vec![("method", "uinfo"), ("access_token", "t")]
    );
    assert_eq!(
        pairs(&user_info_params("t", Some("v2"))),
        vec![("method", "uinfo"), ("access_token", "t"), ("vip_version", "v2")]
    );
}

#[test]
fn user_info_result_maps_response() {
    let ok = user_info_result(&UserInfoResponse {
        baidu_name: "bn".to_string(),
        netdisk_name: "nn".to_string(),
        avatar_url: "http://a".to_string(),
        vip_type: 2,
        uk: 99,
        errno: 0,
        errmsg: String::new(),
    })
    .unwrap();
    assert_eq!(ok.baidu_name, "bn");
    assert_eq!(ok.netdisk_name, "nn");
    assert_eq!(ok.avatar_url, "http://a");
    assert_eq!(ok.vip_type, 2);
    assert_eq!(ok.uk, 99);
    let err = user_info_result(&UserInfoResponse {
        baidu_name: String::new(),
        netdisk_name: String::new(),
        avatar_url: String::new(),
        vip_type: 0,
        uk: 0,
        errno: -4,
        errmsg: String::new(),
    });
    assert!(matches!(err, Err(NetDiskError::ApiError { errno: -4, .. })));
}
