//! Human-readable descriptions of the API's error codes.
//!
//! The descriptions are kept in Chinese, as the official API documents them.
use vstd::prelude::*;

use crate::text::{int_decimal, i64_to_string};

verus! {

/// The description of an error code, if the table lists it.
pub open spec fn error_description(errno: i32) -> Option<&'static str> {
    match errno {
        0 => Some("成功"),
        -1 => Some("系统错误"),
        -2 => Some("参数错误"),
        -3 => Some("系统内部错误"),
        -4 => Some("验证失败"),
        -5 => Some("权限不足"),
        -6 => Some("文件不存在"),
        -7 => Some("目录不存在"),
        -8 => Some("已存在"),
        -9 => Some("不允许的操作"),
        -10 => Some("配额超限"),
        -11 => Some("空间不足"),
        -12 => Some("无效路径"),
        -13 => Some("文件数量过多"),
        -14 => Some("文件过大"),
        -15 => Some("无效文件名"),
        -16 => Some("无法修改文件"),
        -17 => Some("无法删除目录"),
        -18 => Some("无法创建目录"),
        -19 => Some("不支持的文件类型"),
        -20 => Some("操作超时"),
        -21 => Some("网络错误"),
        -22 => Some("无效token"),
        -23 => Some("token已过期"),
        -24 => Some("无效会话"),
        -25 => Some("用户未登录"),
        -26 => Some("用户已暂停"),
        -27 => Some("服务不可用"),
        -28 => Some("无效请求"),
        -29 => Some("请求过于频繁"),
        -30 => Some("访问被拒绝"),
        1 => Some("文件已存在"),
        2 => Some("参数错误"),
        3 => Some("无效路径"),
        4 => Some("权限不足"),
        5 => Some("系统错误"),
        6 => Some("文件不存在"),
        7 => Some("目录不存在"),
        8 => Some("已存在"),
        9 => Some("无法创建"),
        10 => Some("无法删除"),
        11 => Some("无法重命名"),
        12 => Some("无法移动"),
        13 => Some("无法复制"),
        14 => Some("空间不足"),
        15 => Some("配额超限"),
        16 => Some("文件过大"),
        17 => Some("无效文件名"),
        18 => Some("无效文件类型"),
        19 => Some("文件数量过多"),
        20 => Some("操作超时"),
        100 => Some("无效API密钥"),
        101 => Some("无效密钥"),
        102 => Some("无效授权类型"),
        103 => Some("无效授权码"),
        104 => Some("无效刷新token"),
        105 => Some("无效访问token"),
        106 => Some("token已过期"),
        107 => Some("token已撤销"),
        108 => Some("不允许的作用域"),
        109 => Some("用户未授权"),
        110 => Some("无效重定向URI"),
        111 => Some("授权码已过期"),
        200 => Some("上传失败"),
        201 => Some("下载失败"),
        202 => Some("上传文件过大"),
        203 => Some("下载文件过大"),
        204 => Some("上传超时"),
        205 => Some("下载超时"),
        206 => Some("上传中断"),
        207 => Some("下载中断"),
        208 => Some("无效上传ID"),
        209 => Some("无效分块编号"),
        210 => Some("ETag不匹配"),
        300 => Some("分享链接无效"),
        301 => Some("分享链接已过期"),
        302 => Some("分享链接需要密码"),
        303 => Some("无效分享密码"),
        304 => Some("分享权限不足"),
        305 => Some("无法分享文件"),
        306 => Some("无法取消分享"),
        307 => Some("分享数量过多"),
        31001 => Some("应用不存在"),
        31002 => Some("应用已禁用"),
        31003 => Some("应用未授权"),
        31004 => Some("应用配额超限"),
        31005 => Some("应用请求过于频繁"),
        31301 => Some("非流式文件"),
        31302 => Some("流式文件不存在"),
        31303 => Some("流式文件已过期"),
        31304 => Some("流式文件权限不足"),
        31045 => Some("access_token验证未通过，请检查access_token是否过期，用户授权时是否勾选网盘权限等。"),
        31296 => Some("服务器内部错误，请稍后重试。"),
        31362 => Some("签名错误，请检查链接地址是否完整。"),
        31326 => Some("命中防盗链，需检查User-Agent请求头是否正常。"),
        31360 => Some("链接过期。dlink有效期为8小时"),
        _ => None,
    }
}

/// Get error description for a specific error code
pub fn get_error_description(errno: i32) -> (r: Option<&'static str>)
    ensures
        r == error_description(errno),
{
    match errno {
        0 => Some("成功"),
        -1 => Some("系统错误"),
        -2 => Some("参数错误"),
        -3 => Some("系统内部错误"),
        -4 => Some("验证失败"),
        -5 => Some("权限不足"),
        -6 => Some("文件不存在"),
        -7 => Some("目录不存在"),
        -8 => Some("已存在"),
        -9 => Some("不允许的操作"),
        -10 => Some("配额超限"),
        -11 => Some("空间不足"),
        -12 => Some("无效路径"),
        -13 => Some("文件数量过多"),
        -14 => Some("文件过大"),
        -15 => Some("无效文件名"),
        -16 => Some("无法修改文件"),
        -17 => Some("无法删除目录"),
        -18 => Some("无法创建目录"),
        -19 => Some("不支持的文件类型"),
        -20 => Some("操作超时"),
        -21 => Some("网络错误"),
        -22 => Some("无效token"),
        -23 => Some("token已过期"),
        -24 => Some("无效会话"),
        -25 => Some("用户未登录"),
        -26 => Some("用户已暂停"),
        -27 => Some("服务不可用"),
        -28 => Some("无效请求"),
        -29 => Some("请求过于频繁"),
        -30 => Some("访问被拒绝"),
        1 => Some("文件已存在"),
        2 => Some("参数错误"),
        3 => Some("无效路径"),
        4 => Some("权限不足"),
        5 => Some("系统错误"),
        6 => Some("文件不存在"),
        7 => Some("目录不存在"),
        8 => Some("已存在"),
        9 => Some("无法创建"),
        10 => Some("无法删除"),
        11 => Some("无法重命名"),
        12 => Some("无法移动"),
        13 => Some("无法复制"),
        14 => Some("空间不足"),
        15 => Some("配额超限"),
        16 => Some("文件过大"),
        17 => Some("无效文件名"),
        18 => Some("无效文件类型"),
        19 => Some("文件数量过多"),
        20 => Some("操作超时"),
        100 => Some("无效API密钥"),
        101 => Some("无效密钥"),
        102 => Some("无效授权类型"),
        103 => Some("无效授权码"),
        104 => Some("无效刷新token"),
        105 => Some("无效访问token"),
        106 => Some("token已过期"),
        107 => Some("token已撤销"),
        108 => Some("不允许的作用域"),
        109 => Some("用户未授权"),
        110 => Some("无效重定向URI"),
        111 => Some("授权码已过期"),
        200 => Some("上传失败"),
        201 => Some("下载失败"),
        202 => Some("上传文件过大"),
        203 => Some("下载文件过大"),
        204 => Some("上传超时"),
        205 => Some("下载超时"),
        206 => Some("上传中断"),
        207 => Some("下载中断"),
        208 => Some("无效上传ID"),
        209 => Some("无效分块编号"),
        210 => Some("ETag不匹配"),
        300 => Some("分享链接无效"),
        301 => Some("分享链接已过期"),
        302 => Some("分享链接需要密码"),
        303 => Some("无效分享密码"),
        304 => Some("分享权限不足"),
        305 => Some("无法分享文件"),
        306 => Some("无法取消分享"),
        307 => Some("分享数量过多"),
        31001 => Some("应用不存在"),
        31002 => Some("应用已禁用"),
        31003 => Some("应用未授权"),
        31004 => Some("应用配额超限"),
        31005 => Some("应用请求过于频繁"),
        31301 => Some("非流式文件"),
        31302 => Some("流式文件不存在"),
        31303 => Some("流式文件已过期"),
        31304 => Some("流式文件权限不足"),
        31045 => Some("access_token验证未通过，请检查access_token是否过期，用户授权时是否勾选网盘权限等。"),
        31296 => Some("服务器内部错误，请稍后重试。"),
        31362 => Some("签名错误，请检查链接地址是否完整。"),
        31326 => Some("命中防盗链，需检查User-Agent请求头是否正常。"),
        31360 => Some("链接过期。dlink有效期为8小时"),
        _ => None,
    }
}

/// The message `"{description} (errno: {errno})"`, with `default` in place of
/// the description when the table has none.
pub open spec fn error_message(errno: i32, default: Seq<char>) -> Seq<char> {
    let desc = match error_description(errno) {
        Some(d) => d@,
        None => default,
    };
    desc + " (errno: "@ + int_decimal(errno as int) + ")"@
}

/// Get full error message for an error code
pub fn get_error_message(errno: i32, default_message: &str) -> (r: String)
    ensures
        r@ == error_message(errno, default_message@),
{
    let mut r = match get_error_description(errno) {
        Some(desc) => desc.to_string(),
        None => default_message.to_string(),
    };
    r.append(" (errno: ");
    let n = i64_to_string(errno as i64);
    r.append(n.as_str());
    r.append(")");
    r
}

/// The code means success.
pub open spec fn spec_is_success(errno: i32) -> bool {
    errno == 0
}

/// The code is one of authentication: 100 to 111, -22, -23, -24 or -25.
pub open spec fn spec_is_auth_error(errno: i32) -> bool {
    (100 <= errno <= 111) || errno == -22 || errno == -23 || errno == -24 || errno == -25
}

/// The code is one of a missing file or directory: -6, -7, 6 or 7.
pub open spec fn spec_is_not_found_error(errno: i32) -> bool {
    errno == -6 || errno == -7 || errno == 6 || errno == 7
}

/// The code is one of missing permission: -5, -30, 4 or 304.
pub open spec fn spec_is_permission_error(errno: i32) -> bool {
    errno == -5 || errno == -30 || errno == 4 || errno == 304
}

/// The code is one of exhausted quota: -10, -11, 14 or 15.
pub open spec fn spec_is_quota_error(errno: i32) -> bool {
    errno == -10 || errno == -11 || errno == 14 || errno == 15
}

/// The code is one of an expired token: -23 or 106.
pub open spec fn spec_is_token_expired(errno: i32) -> bool {
    errno == -23 || errno == 106
}

/// Check if error code indicates success
pub fn is_success(errno: i32) -> (r: bool)
    ensures
        r == spec_is_success(errno),
{
    errno == 0
}

/// Check if error code indicates authentication failure
pub fn is_auth_error(errno: i32) -> (r: bool)
    ensures
        r == spec_is_auth_error(errno),
{
    (100 <= errno && errno <= 111) || errno == -22 || errno == -23 || errno == -24 || errno == -25
}

/// Check if error code indicates file not found
pub fn is_not_found_error(errno: i32) -> (r: bool)
    ensures
        r == spec_is_not_found_error(errno),
{
    errno == -6 || errno == -7 || errno == 6 || errno == 7
}

/// Check if error code indicates permission issue
pub fn is_permission_error(errno: i32) -> (r: bool)
    ensures
        r == spec_is_permission_error(errno),
{
    errno == -5 || errno == -30 || errno == 4 || errno == 304
}

/// Check if error code indicates quota issue
pub fn is_quota_error(errno: i32) -> (r: bool)
    ensures
        r == spec_is_quota_error(errno),
{
    errno == -10 || errno == -11 || errno == 14 || errno == 15
}

/// Check if error code indicates token expiration
pub fn is_token_expired(errno: i32) -> (r: bool)
    ensures
        r == spec_is_token_expired(errno),
{
    errno == -23 || errno == 106
}

/// An expired token is an authentication failure.
pub proof fn lemma_token_expired_is_auth_error(errno: i32)
    requires
        spec_is_token_expired(errno),
    ensures
        spec_is_auth_error(errno),
{
}

/// The not-found, permission, quota and authentication classes of codes are
/// pairwise disjoint, and success belongs to none of them.
pub proof fn lemma_error_classes_disjoint(errno: i32)
    ensures
        !(spec_is_not_found_error(errno) && spec_is_permission_error(errno)),
        !(spec_is_not_found_error(errno) && spec_is_quota_error(errno)),
        !(spec_is_not_found_error(errno) && spec_is_auth_error(errno)),
        !(spec_is_permission_error(errno) && spec_is_quota_error(errno)),
        !(spec_is_permission_error(errno) && spec_is_auth_error(errno)),
        !(spec_is_quota_error(errno) && spec_is_auth_error(errno)),
        spec_is_success(errno) ==> !spec_is_not_found_error(errno) && !spec_is_permission_error(errno)
            && !spec_is_quota_error(errno) && !spec_is_auth_error(errno),
{
}

/// Every code that one of the classes names has a description in the table.
pub proof fn lemma_classified_codes_are_described(errno: i32)
    requires
        spec_is_success(errno) || spec_is_auth_error(errno) || spec_is_not_found_error(errno)
            || spec_is_permission_error(errno) || spec_is_quota_error(errno),
    ensures
        error_description(errno) is Some,
{
}

} // verus!
