//! Storage quota: the queries of the quota endpoint, the interpretation of its
//! responses and the human readable rendering of byte counts.
use vstd::prelude::*;
use vstd::string::StringExecFns;

use crate::auth::QuotaInfo;
use crate::errors::{api_error_message, is_api_error, NetDiskError, NetDiskResult};
use crate::text::{digit, digit_char, nat_decimal, owned, pair, pairs_view, push_char, u64_to_string};

verus! {

/// One kibibyte.
pub const KB: u64 = 1024;

/// One mebibyte.
pub const MB: u64 = 1048576;

/// One gibibyte.
pub const GB: u64 = 1073741824;

/// One tebibyte.
pub const TB: u64 = 1099511627776;

/// Response of the basic quota request.
#[derive(Debug)]
pub struct QuotaResponse {
    pub errno: i32,
    pub errmsg: String,
    pub total: u64,
    pub used: u64,
}

/// Response of the detailed capacity request.
#[derive(Debug)]
pub struct CapacityResponse {
    pub errno: i32,
    pub errmsg: String,
    pub total: u64,
    pub used: u64,
    pub free: u64,
    pub expire: bool,
}

/// Detailed capacity information from Baidu NetDisk API
#[derive(Debug)]
pub struct CapacityInfo {
    /// Total storage capacity in bytes
    pub total: u64,
    /// Used storage capacity in bytes
    pub used: u64,
    /// Free storage capacity in bytes
    pub free: u64,
    /// Whether the storage is expired
    pub expire: bool,
}

impl Clone for CapacityInfo {
    fn clone(&self) -> (r: Self)
        ensures
            r == *self,
    {
        CapacityInfo { total: self.total, used: self.used, free: self.free, expire: self.expire }
    }
}

/// The query of the basic quota request.
pub open spec fn quota_query(access_token: Seq<char>) -> Seq<(Seq<char>, Seq<char>)> {
    seq![("access_token"@, access_token)]
}

/// The query of the quota request.
pub fn quota_params(access_token: &str) -> (r: Vec<(String, String)>)
    ensures
        pairs_view(r@) == quota_query(access_token@),
{
    let mut p: Vec<(String, String)> = Vec::new();
    p.push(pair("access_token", owned(access_token)));
    assert(pairs_view(p@) =~= quota_query(access_token@));
    p
}

/// The quota a successful response reports: its total and used space, and
/// the difference of the two as free space; the API error of a failed one.
pub fn quota_result(response: &QuotaResponse) -> (r: NetDiskResult<QuotaInfo>)
    requires
        response.errno != 0 || response.used <= response.total,
    ensures
        response.errno != 0 ==> (r matches Err(e) && is_api_error(
            e,
            response.errno,
            api_error_message(response.errno, response.errmsg@),
        )),
        response.errno == 0 ==> (r matches Ok(q) && q.total == response.total && q.used
            == response.used && q.free == response.total - response.used),
{
    if response.errno != 0 {
        return Err(NetDiskError::api_error(response.errno, &response.errmsg));
    }
    Ok(QuotaInfo { total: response.total, used: response.used, free: response.total - response.used })
}

/// The query of the capacity request: the token, then `checkfree=1` and
/// `checkexpire=1` when asked for.
pub open spec fn capacity_query(access_token: Seq<char>, check_free: bool, check_expire: bool) -> Seq<
    (Seq<char>, Seq<char>),
> {
    let base = seq![("access_token"@, access_token)];
    let with_free = if check_free {
        base.push(("checkfree"@, "1"@))
    } else {
        base
    };
    if check_expire {
        with_free.push(("checkexpire"@, "1"@))
    } else {
        with_free
    }
}

/// The query of the capacity request.
pub fn capacity_params(access_token: &str, check_free: bool, check_expire: bool) -> (r: Vec<
    (String, String),
>)
    ensures
        pairs_view(r@) == capacity_query(access_token@, check_free, check_expire),
{
    let mut p: Vec<(String, String)> = Vec::new();
    p.push(pair("access_token", owned(access_token)));
    if check_free {
        p.push(pair("checkfree", owned("1")));
    }
    if check_expire {
        p.push(pair("checkexpire", owned("1")));
    }
    assert(pairs_view(p@) =~= capacity_query(access_token@, check_free, check_expire));
    p
}

/// The capacity a successful response reports, field for field; the API
/// error of a failed one.
pub fn capacity_result(response: &CapacityResponse) -> (r: NetDiskResult<CapacityInfo>)
    ensures
        response.errno != 0 ==> (r matches Err(e) && is_api_error(
            e,
            response.errno,
            api_error_message(response.errno, response.errmsg@),
        )),
        response.errno == 0 ==> (r matches Ok(c) && c.total == response.total && c.used
            == response.used && c.free == response.free && c.expire == response.expire),
{
    if response.errno != 0 {
        return Err(NetDiskError::api_error(response.errno, &response.errmsg));
    }
    Ok(
        CapacityInfo {
            total: response.total,
            used: response.used,
            free: response.free,
            expire: response.expire,
        },
    )
}

/// `n / d` rounded to the nearest integer, ties to the even one.
pub open spec fn round_half_even(n: nat, d: nat) -> nat
    recommends
        d > 0,
{
    let q = n / d;
    let r = n % d;
    if 2 * r > d || (2 * r == d && q % 2 == 1) {
        q + 1
    } else {
        q
    }
}

/// The weight of the last bit that a double keeps of `b`: 1 while `b` fits
/// in the 53 bits of the significand, doubled for each bit beyond.
pub open spec fn double_unit(b: nat) -> nat
    decreases b,
{
    if b < 0x20_0000_0000_0000 {
        1
    } else {
        2 * double_unit(b / 2)
    }
}

/// The integer that `b as f64` holds: `b` rounded to a multiple of its
/// `double_unit`, ties to even.
pub open spec fn as_double(b: nat) -> nat {
    round_half_even(b, double_unit(b)) * double_unit(b)
}

/// `v / d` written with two decimals, as `{:.2}` writes the quotient:
/// rounded to the nearest hundredth, ties to even.
pub open spec fn two_decimals(v: nat, d: nat) -> Seq<char> {
    let q = round_half_even(v * 100, d);
    nat_decimal(q / 100) + seq!['.', digit_char(((q % 100) / 10) as int), digit_char((q % 10) as int)]
}

/// A byte count in the largest unit below it, as the library writes it:
/// whole bytes under 1 KB, else the quotient by KB, MB, GB or TB (of the
/// count as a double) with two decimals.
pub open spec fn bytes_text(b: nat) -> Seq<char> {
    if b < KB {
        nat_decimal(b) + " B"@
    } else if b < MB {
        two_decimals(b, KB as nat) + " KB"@
    } else if b < GB {
        two_decimals(b, MB as nat) + " MB"@
    } else if b < TB {
        two_decimals(b, GB as nat) + " GB"@
    } else {
        two_decimals(as_double(b), TB as nat) + " TB"@
    }
}

/// `v / d` with two decimals.
fn two_decimals_text(v: u128, d: u128) -> (s: String)
    requires
        1024 <= d <= 0x100_0000_0000,
        v < 0x2_0000_0000_0000_0000,
    ensures
        s@ == two_decimals(v as nat, d as nat),
{
    let n: u128 = v * 100;
    let q0: u128 = n / d;
    let r: u128 = n % d;
    let q: u128 = if 2 * r > d || (2 * r == d && q0 % 2 == 1) {
        q0 + 1
    } else {
        q0
    };
    proof {
        vstd::arithmetic::div_mod::lemma_fundamental_div_mod(n as int, d as int);
    }
    assert(q0 < 0x4000_0000_0000_0000) by (nonlinear_arith)
        requires
            d * q0 <= n,
            d >= 1024,
            n <= 0xc8_0000_0000_0000_0000,
    {
        assert(q0 * 1024 <= q0 * d);
    }
    let whole: u128 = q / 100;
    let frac: u128 = q % 100;
    let mut s = u64_to_string(whole as u64);
    push_char(&mut s, '.');
    push_char(&mut s, digit((frac / 10) as u64));
    push_char(&mut s, digit((frac % 10) as u64));
    assert(q % 10 == frac % 10);
    assert(s@ =~= two_decimals(v as nat, d as nat));
    s
}

/// The value of `b as f64`, as an integer.
fn double_value(b: u64) -> (v: u128)
    ensures
        v == as_double(b as nat),
        v < 0x2_0000_0000_0000_0000,
{
    let mut p: u64 = 1;
    while b / p >= 0x20_0000_0000_0000
        invariant
            1 <= p <= 4096,
            double_unit(b as nat) == p * double_unit((b / p) as nat),
        decreases b / p,
    {
        let q: u64 = b / p;
        proof {
            vstd::arithmetic::div_mod::lemma_fundamental_div_mod(b as int, p as int);
        }
        assert(p < 2048) by (nonlinear_arith)
            requires
                p * q <= b,
                p >= 1,
                q >= 0x20_0000_0000_0000,
                b < 0x1_0000_0000_0000_0000,
        {
            assert(0x20_0000_0000_0000 * p <= q * p);
        }
        proof {
            vstd::arithmetic::div_mod::lemma_div_denominator(b as int, p as int, 2);
            let u = double_unit(((b / p) / 2) as nat);
            assert(double_unit((b / p) as nat) == 2 * u);
            assert(p * (2 * u) == (p * 2) * u) by (nonlinear_arith);
        }
        p = p * 2;
    }
    assert(double_unit((b / p) as nat) == 1);
    assert(double_unit(b as nat) == p) by (nonlinear_arith)
        requires
            double_unit(b as nat) == p * double_unit((b / p) as nat),
            double_unit((b / p) as nat) == 1,
    ;
    let unit: u128 = p as u128;
    let bw: u128 = b as u128;
    let q0: u128 = bw / unit;
    let r: u128 = bw % unit;
    proof {
        vstd::arithmetic::div_mod::lemma_fundamental_div_mod(bw as int, unit as int);
    }
    let q: u128 = if 2 * r > unit || (2 * r == unit && q0 % 2 == 1) {
        q0 + 1
    } else {
        q0
    };
    assert(q * unit < 0x2_0000_0000_0000_0000) by (nonlinear_arith)
        requires
            unit * q0 <= bw,
            1 <= unit <= 4096,
            q <= q0 + 1,
            bw < 0x1_0000_0000_0000_0000,
    {
        assert(q * unit <= q0 * unit + unit);
    }
    q * unit
}

impl CapacityInfo {
    /// Format bytes to human readable string
    pub fn format_bytes(bytes: u64) -> (s: String)
        ensures
            s@ == bytes_text(bytes as nat),
    {
        if bytes < KB {
            let mut s = u64_to_string(bytes);
            s.append(" B");
            s
        } else if bytes < MB {
            let mut s = two_decimals_text(bytes as u128, KB as u128);
            s.append(" KB");
            s
        } else if bytes < GB {
            let mut s = two_decimals_text(bytes as u128, MB as u128);
            s.append(" MB");
            s
        } else if bytes < TB {
            let mut s = two_decimals_text(bytes as u128, GB as u128);
            s.append(" GB");
            s
        } else {
            let v = double_value(bytes);
            let mut s = two_decimals_text(v, TB as u128);
            s.append(" TB");
            s
        }
    }

    /// Format total capacity to human readable string
    pub fn format_total(&self) -> (s: String)
        ensures
            s@ == bytes_text(self.total as nat),
    {
        Self::format_bytes(self.total)
    }

    /// Format used capacity to human readable string
    pub fn format_used(&self) -> (s: String)
        ensures
            s@ == bytes_text(self.used as nat),
    {
        Self::format_bytes(self.used)
    }

    /// Format free capacity to human readable string
    pub fn format_free(&self) -> (s: String)
        ensures
            s@ == bytes_text(self.free as nat),
    {
        Self::format_bytes(self.free)
    }
}

} // verus!
