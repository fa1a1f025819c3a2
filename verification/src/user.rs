//! User information: the query of the user information request and the
//! interpretation of its response.
use vstd::prelude::*;

use crate::auth::UserInfo;
use crate::errors::{api_error_message, is_api_error, NetDiskError, NetDiskResult};
use crate::text::{owned, pair, pairs_view};

verus! {

/// Response of the user information request.
#[derive(Debug)]
pub struct UserInfoResponse {
    pub baidu_name: String,
    pub netdisk_name: String,
    pub avatar_url: String,
    pub vip_type: i32,
    pub uk: u64,
    pub errno: i32,
    pub errmsg: String,
}

/// The query of the user information request: the method and the token,
/// then the VIP version when one is given.
pub open spec fn user_info_query(access_token: Seq<char>, vip_version: Option<Seq<char>>) -> Seq<
    (Seq<char>, Seq<char>),
> {
    let base = seq![("method"@, "uinfo"@), ("access_token"@, access_token)];
    match vip_version {
        Some(v) => base.push(("vip_version"@, v)),
        None => base,
    }
}

/// The view of an optional string slice.
pub open spec fn opt_str_view(o: Option<&str>) -> Option<Seq<char>> {
    match o {
        Some(s) => Some(s@),
        None => None,
    }
}

/// The query of the user information request.
pub fn user_info_params(access_token: &str, vip_version: Option<&str>) -> (r: Vec<(String, String)>)
    ensures
        pairs_view(r@) == user_info_query(access_token@, opt_str_view(vip_version)),
{
    let mut p: Vec<(String, String)> = Vec::new();
    p.push(pair("method", owned("uinfo")));
    p.push(pair("access_token", owned(access_token)));
    if let Some(v) = vip_version {
        p.push(pair("vip_version", owned(v)));
    }
    assert(pairs_view(p@) =~= user_info_query(access_token@, opt_str_view(vip_version)));
    p
}

/// The user a successful response describes, field for field; the API error
/// of a failed one.
pub fn user_info_result(response: &UserInfoResponse) -> (r: NetDiskResult<UserInfo>)
    ensures
        response.errno != 0 ==> (r matches Err(e) && is_api_error(
            e,
            response.errno,
            api_error_message(response.errno, response.errmsg@),
        )),
        response.errno == 0 ==> (r matches Ok(u) && u.baidu_name@ == response.baidu_name@
            && u.netdisk_name@ == response.netdisk_name@ && u.avatar_url@
            == response.avatar_url@ && u.vip_type == response.vip_type && u.uk == response.uk),
{
    if response.errno != 0 {
        return Err(NetDiskError::api_error(response.errno, &response.errmsg));
    }
    Ok(
        UserInfo {
            baidu_name: response.baidu_name.clone(),
            netdisk_name: response.netdisk_name.clone(),
            avatar_url: response.avatar_url.clone(),
            vip_type: response.vip_type,
            uk: response.uk,
        },
    )
}

} // verus!
