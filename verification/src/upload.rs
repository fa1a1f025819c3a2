//! File upload: the three steps of an upload (precreate, chunk upload,
//! create), the requests each step sends, the chunking and MD5 block lists of
//! the data, and the planning of a resumable upload.
use vstd::prelude::*;

use crate::encoding::{
    json_encode_strings, json_error_text, json_string_array, md5_hex, md5_hex_digest,
    percent_encode, url_encode,
};
use crate::errors::{
    api_error_message, is_api_error, is_unknown_error_with, unknown_after,
    NetDiskError, NetDiskResult,
};
use crate::text::{
    i64_to_string, int_decimal, owned, pair, pairs_view, starts_with_seq, str_starts_with,
    strings_view, u64_to_string,
};

verus! {

/// Options for precreate upload
#[derive(Debug, Clone)]
pub struct PrecreateOptions {
    /// Remote file path on Baidu NetDisk
    pub path: String,
    /// File size in bytes
    pub size: u64,
    /// Is directory (0 for file, 1 for directory)
    pub isdir: i32,
    /// List of block MD5s (each block is typically 4MB)
    pub block_list: Vec<String>,
    /// Conflict resolution type (1=overwrite, 2=rename, 3=new copy)
    pub rtype: i32,
    /// Optional uploadid for resuming interrupted uploads
    pub uploadid: Option<String>,
    /// Optional content MD5 for entire file
    pub content_md5: Option<String>,
    /// Optional slice MD5
    pub slice_md5: Option<String>,
    /// Optional local creation time (timestamp)
    pub local_ctime: Option<u64>,
    /// Optional local modification time (timestamp)
    pub local_mtime: Option<u64>,
}

impl PrecreateOptions {
    /// Create new PrecreateOptions with basic required fields
    pub fn new(path: &str, size: u64, block_list: Vec<String>) -> (r: Self)
        ensures
            r.path@ == path@,
            r.size == size,
            r.isdir == 0,
            r.block_list == block_list,
            r.rtype == 1,
            r.uploadid is None,
            r.content_md5 is None,
            r.slice_md5 is None,
            r.local_ctime is None,
            r.local_mtime is None,
    {
        Self { path: path.to_string(), size, isdir: 0, block_list, rtype: 1, uploadid: None, content_md5: None, slice_md5: None, local_ctime: None, local_mtime: None }
    }

    /// Set whether this is a directory
    pub fn isdir(self, isdir: bool) -> (r: Self)
        ensures
            r == (PrecreateOptions { isdir: if isdir { 1i32 } else { 0i32 }, ..self }),
    {
        let mut s = self;
        s.isdir = if isdir { 1 } else { 0 };
        s
    }

    /// Set conflict resolution type (1=overwrite, 2=rename, 3=new copy)
    pub fn rtype(self, rtype: i32) -> (r: Self)
        ensures
            r == (PrecreateOptions { rtype: rtype, ..self }),
    {
        let mut s = self;
        s.rtype = rtype;
        s
    }

    /// Set uploadid for resuming an interrupted upload
    pub fn uploadid(self, uploadid: &str) -> (r: Self)
        ensures
            r.uploadid matches Some(s) && s@ == uploadid@,
            r == (PrecreateOptions { uploadid: r.uploadid, ..self }),
    {
        let mut s = self;
        s.uploadid = Some(uploadid.to_string());
        s
    }

    /// Set content MD5 for the entire file
    pub fn content_md5(self, content_md5: &str) -> (r: Self)
        ensures
            r.content_md5 matches Some(s) && s@ == content_md5@,
            r == (PrecreateOptions { content_md5: r.content_md5, ..self }),
    {
        let mut s = self;
        s.content_md5 = Some(content_md5.to_string());
        s
    }

    /// Set slice MD5
    pub fn slice_md5(self, slice_md5: &str) -> (r: Self)
        ensures
            r.slice_md5 matches Some(s) && s@ == slice_md5@,
            r == (PrecreateOptions { slice_md5: r.slice_md5, ..self }),
    {
        let mut s = self;
        s.slice_md5 = Some(slice_md5.to_string());
        s
    }

    /// Set local creation time (timestamp)
    pub fn local_ctime(self, local_ctime: u64) -> (r: Self)
        ensures
            r == (PrecreateOptions { local_ctime: Some(local_ctime), ..self }),
    {
        let mut s = self;
        s.local_ctime = Some(local_ctime);
        s
    }

    /// Set local modification time (timestamp)
    pub fn local_mtime(self, local_mtime: u64) -> (r: Self)
        ensures
            r == (PrecreateOptions { local_mtime: Some(local_mtime), ..self }),
    {
        let mut s = self;
        s.local_mtime = Some(local_mtime);
        s
    }

}

/// Options for uploading a single chunk
#[derive(Debug, Clone)]
pub struct UploadChunkOptions {
    /// Remote file path on Baidu NetDisk
    pub path: String,
    /// Upload session ID from precreate
    pub uploadid: String,
    /// Chunk sequence number (starting from 0)
    pub partseq: u32,
    /// Chunk data bytes
    pub data: Vec<u8>,
}

impl UploadChunkOptions {
    /// Create new UploadChunkOptions
    pub fn new(path: &str, uploadid: &str, partseq: u32, data: Vec<u8>) -> (r: Self)
        ensures
            r.path@ == path@,
            r.uploadid@ == uploadid@,
            r.partseq == partseq,
            r.data == data,
    {
        Self { path: path.to_string(), uploadid: uploadid.to_string(), partseq, data }
    }

}

/// Options for creating final file on server
#[derive(Debug, Clone)]
pub struct CreateFileOptions {
    /// Remote file path on Baidu NetDisk
    pub path: String,
    /// File size in bytes
    pub size: u64,
    /// Is directory (0 for file, 1 for directory)
    pub isdir: i32,
    /// List of block MD5s
    pub block_list: Vec<String>,
    /// Upload session ID from precreate
    pub uploadid: String,
    /// Conflict resolution type (1=overwrite, 2=rename, 3=new copy)
    pub rtype: i32,
    /// Optional local creation time (timestamp)
    pub local_ctime: Option<u64>,
    /// Optional local modification time (timestamp)
    pub local_mtime: Option<u64>,
}

impl CreateFileOptions {
    /// Create new CreateFileOptions with basic required fields
    pub fn new(path: &str, size: u64, block_list: Vec<String>, uploadid: &str) -> (r: Self)
        ensures
            r.path@ == path@,
            r.size == size,
            r.isdir == 0,
            r.block_list == block_list,
            r.uploadid@ == uploadid@,
            r.rtype == 1,
            r.local_ctime is None,
            r.local_mtime is None,
    {
        Self { path: path.to_string(), size, isdir: 0, block_list, uploadid: uploadid.to_string(), rtype: 1, local_ctime: None, local_mtime: None }
    }

    /// Set whether this is a directory
    pub fn isdir(self, isdir: bool) -> (r: Self)
        ensures
            r == (CreateFileOptions { isdir: if isdir { 1i32 } else { 0i32 }, ..self }),
    {
        let mut s = self;
        s.isdir = if isdir { 1 } else { 0 };
        s
    }

    /// Set conflict resolution type (1=overwrite, 2=rename, 3=new copy)
    pub fn rtype(self, rtype: i32) -> (r: Self)
        ensures
            r == (CreateFileOptions { rtype: rtype, ..self }),
    {
        let mut s = self;
        s.rtype = rtype;
        s
    }

    /// Set local creation time (timestamp)
    pub fn local_ctime(self, local_ctime: u64) -> (r: Self)
        ensures
            r == (CreateFileOptions { local_ctime: Some(local_ctime), ..self }),
    {
        let mut s = self;
        s.local_ctime = Some(local_ctime);
        s
    }

    /// Set local modification time (timestamp)
    pub fn local_mtime(self, local_mtime: u64) -> (r: Self)
        ensures
            r == (CreateFileOptions { local_mtime: Some(local_mtime), ..self }),
    {
        let mut s = self;
        s.local_mtime = Some(local_mtime);
        s
    }

}

/// The default chunk size of a simple upload: 4 MiB.
pub const DEFAULT_CHUNK_SIZE: usize = 4194304;

/// The default number of chunks uploaded at once.
pub const DEFAULT_MAX_CONCURRENCY: usize = 10;

/// Options for simple upload methods (chunk size 4 MiB, 10 parallel uploads and type 1 by default)
#[derive(Debug, Clone, Copy)]
pub struct SimpleUploadOptions {
    /// Size of each chunk in bytes (default: 4MB)
    pub chunk_size: usize,
    /// Maximum number of parallel chunk uploads (default: 10)
    pub max_concurrency: usize,
    /// File type hint (default: 1)
    pub file_type: i32,
}

impl Default for SimpleUploadOptions {
    fn default() -> (r: Self)
        ensures
            r.chunk_size == DEFAULT_CHUNK_SIZE,
            r.max_concurrency == DEFAULT_MAX_CONCURRENCY,
            r.file_type == 1,
    {
        SimpleUploadOptions {
            chunk_size: DEFAULT_CHUNK_SIZE,
            max_concurrency: DEFAULT_MAX_CONCURRENCY,
            file_type: 1,
        }
    }
}

impl SimpleUploadOptions {
    /// Create SimpleUploadOptions with the defaults
    pub fn new() -> (r: Self)
        ensures
            r.chunk_size == DEFAULT_CHUNK_SIZE,
            r.max_concurrency == DEFAULT_MAX_CONCURRENCY,
            r.file_type == 1,
    {
        Self::default()
    }

    /// Set the chunk size in bytes
    pub fn chunk_size(self, chunk_size: usize) -> (r: Self)
        ensures
            r == (SimpleUploadOptions { chunk_size: chunk_size, ..self }),
    {
        let mut s = self;
        s.chunk_size = chunk_size;
        s
    }

    /// Set the number of chunks uploaded at once
    pub fn max_concurrency(self, max_concurrency: usize) -> (r: Self)
        ensures
            r == (SimpleUploadOptions { max_concurrency: max_concurrency, ..self }),
    {
        let mut s = self;
        s.max_concurrency = max_concurrency;
        s
    }

    /// Set the file type hint
    pub fn file_type(self, file_type: i32) -> (r: Self)
        ensures
            r == (SimpleUploadOptions { file_type: file_type, ..self }),
    {
        let mut s = self;
        s.file_type = file_type;
        s
    }

}
/// Precreate response
pub struct PrecreateResponse {
    /// Error code (0 indicates success)
    pub errno: i32,
    /// File path
    pub path: Option<String>,
    /// Upload session ID (use this for subsequent steps)
    pub uploadid: String,
    /// Return type
    pub return_type: i32,
    /// List of missing block indices that need to be uploaded
    pub block_list: Vec<u32>,
}

/// Server info for locate upload response
pub struct LocateUploadServer {
    /// Server URL
    pub server: String,
}

/// Locate upload response
pub struct LocateUploadResponse {
    /// Backup servers
    pub bak_server: Vec<String>,
    /// Backup servers list
    pub bak_servers: Vec<LocateUploadServer>,
    /// Client IP address
    pub client_ip: String,
    /// Error code (0 indicates success)
    pub error_code: i32,
    /// Error message
    pub error_msg: String,
    /// Expiration time in seconds
    pub expire: i32,
    /// Host name
    pub host: String,
    /// New number
    pub newno: String,
    /// QUIC servers
    pub quic_server: Vec<String>,
    /// QUIC servers list
    pub quic_servers: Vec<LocateUploadServer>,
    /// Request ID
    pub request_id: u64,
    /// Servers list
    pub server: Vec<String>,
    /// Server timestamp
    pub server_time: u64,
    /// Servers list (detailed)
    pub servers: Vec<LocateUploadServer>,
    /// SL value
    pub sl: i32,
}

/// The addresses among `servers` that begin with `https://`, in order.
pub open spec fn https_servers(servers: Seq<LocateUploadServer>) -> Seq<Seq<char>>
    decreases servers.len(),
{
    if servers.len() == 0 {
        seq![]
    } else {
        let rest = https_servers(servers.drop_last());
        let s = servers.last().server@;
        if starts_with_seq(s, "https://"@) {
            rest.push(s)
        } else {
            rest
        }
    }
}

impl LocateUploadResponse {
    /// Get all HTTPS servers from the response
    ///
    /// Returns a vector of HTTPS server URLs that can be used for uploading chunks.
    pub fn get_https_servers(&self) -> (r: Vec<String>)
        ensures
            strings_view(r@) == https_servers(self.servers@),
    {
        let mut r: Vec<String> = Vec::new();
        let mut i: usize = 0;
        while i < self.servers.len()
            invariant
                i <= self.servers@.len(),
                strings_view(r@) == https_servers(self.servers@.subrange(0, i as int)),
            decreases self.servers@.len() - i,
        {
            let s = &self.servers[i].server;
            assert(self.servers@.subrange(0, i + 1).drop_last() =~= self.servers@.subrange(
                0,
                i as int,
            ));
            if str_starts_with(s.as_str(), "https://") {
                r.push(s.clone());
                assert(strings_view(r@) =~= strings_view(r@.drop_last()).push(r@.last()@));
            }
            i = i + 1;
        }
        assert(self.servers@.subrange(0, self.servers@.len() as int) =~= self.servers@);
        r
    }

    /// Get the first HTTPS server from the available servers
    ///
    /// The servers are sorted by proximity and speed, so the first one is the
    /// recommended choice. Returns `None` if no HTTPS servers are available.
    pub fn get_first_https_server(&self) -> (r: Option<String>)
        ensures
            match r {
                Some(s) => https_servers(self.servers@).len() > 0 && s@ == https_servers(
                    self.servers@,
                )[0],
                None => https_servers(self.servers@).len() == 0,
            },
    {
        let https = self.get_https_servers();
        if https.len() == 0 {
            None
        } else {
            Some(https[0].clone())
        }
    }
}

/// Chunk upload response
pub struct UploadChunkResponse {
    /// MD5 hash of the uploaded chunk
    pub md5: String,
}

/// Create file response
pub struct CreateFileResponse {
    /// Error code (0 indicates success)
    pub errno: i32,
    /// File server ID
    pub fs_id: u64,
    /// File MD5
    pub md5: Option<String>,
    /// Server filename
    pub server_filename: Option<String>,
    /// File category
    pub category: i32,
    /// File path
    pub path: String,
    /// File size in bytes
    pub size: u64,
    /// Creation time (timestamp)
    pub ctime: u64,
    /// Modification time (timestamp)
    pub mtime: u64,
    /// Is directory (0 for file, 1 for directory)
    pub isdir: i32,
    /// File name
    pub name: Option<String>,
    /// From type
    pub from_type: Option<i32>,
}

/// The message of a failed create step.
pub open spec fn create_error_text(errno: i32) -> Seq<char> {
    if errno == -7 {
        "File or directory name error or access denied"@
    } else if errno == -8 {
        "File or directory already exists"@
    } else if errno == -10 {
        "Cloud storage capacity full"@
    } else if errno == 10 {
        "Failed to create file"@
    } else if errno == 31190 {
        "File not found"@
    } else if errno == 31355 {
        "Invalid parameter"@
    } else if errno == 31365 {
        "Total file size limit exceeded"@
    } else {
        "Unknown error: "@ + int_decimal(errno as int)
    }
}

/// The message of a failed create step
pub fn get_create_error_message(errno: i32) -> (r: String)
    ensures
        r@ == create_error_text(errno),
{
    if errno == -7 {
        owned("File or directory name error or access denied")
    } else if errno == -8 {
        owned("File or directory already exists")
    } else if errno == -10 {
        owned("Cloud storage capacity full")
    } else if errno == 10 {
        owned("Failed to create file")
    } else if errno == 31190 {
        owned("File not found")
    } else if errno == 31355 {
        owned("Invalid parameter")
    } else if errno == 31365 {
        owned("Total file size limit exceeded")
    } else {
        let mut r = owned("Unknown error: ");
        let n = i64_to_string(errno as i64);
        r.append(n.as_str());
        r
    }
}

/// The message of a failed precreate step.
pub open spec fn precreate_error_text(errno: i32) -> Seq<char> {
    if errno == -7 {
        "File or directory name error or access denied"@
    } else if errno == -10 {
        "Insufficient capacity"@
    } else {
        "Unknown error: "@ + int_decimal(errno as int)
    }
}

/// The message of a failed precreate step
pub fn get_error_message(errno: i32) -> (r: String)
    ensures
        r@ == precreate_error_text(errno),
{
    if errno == -7 {
        owned("File or directory name error or access denied")
    } else if errno == -10 {
        owned("Insufficient capacity")
    } else {
        let mut r = owned("Unknown error: ");
        let n = i64_to_string(errno as i64);
        r.append(n.as_str());
        r
    }
}

/// The JSON text of a block list (a list of strings always renders; a
/// failure would be the "unknown" error "Failed to serialize block_list: ...").
fn block_list_json(block_list: &Vec<String>) -> (r: NetDiskResult<String>)
    ensures
        r is Ok,
        r matches Ok(s) ==> s@ == json_string_array(strings_view(block_list@)),
{
    match json_encode_strings(block_list) {
        Ok(s) => Ok(s),
        Err(e) => {
            let text = json_error_text(&e);
            Err(unknown_after("Failed to serialize block_list: ", text.as_str()))
        },
    }
}

/// The query of the precreate request.
pub open spec fn precreate_query(access_token: Seq<char>) -> Seq<(Seq<char>, Seq<char>)> {
    seq![("method"@, "precreate"@), ("access_token"@, access_token)]
}

/// The form of the precreate request.
pub open spec fn precreate_form(o: PrecreateOptions, block_list_json: Seq<char>) -> Seq<
    (Seq<char>, Seq<char>),
> {
    seq![
        ("path"@, o.path@),
        ("size"@, int_decimal(o.size as int)),
        ("isdir"@, int_decimal(o.isdir as int)),
        ("block_list"@, block_list_json),
        ("autoinit"@, "1"@),
        ("rtype"@, int_decimal(o.rtype as int)),
    ]
}

/// The precreate request sends the conflict rule the options ask for, and the
/// kind separately: its form has the entry `rtype` with the decimal of
/// `o.rtype` and the entry `isdir` with the decimal of `o.isdir`, and no other
/// entry named `rtype`.
pub proof fn lemma_precreate_form_sends_requested_rtype(
    o: PrecreateOptions,
    block_list_json: Seq<char>,
)
    ensures
        exists|k: int|
            0 <= k < precreate_form(o, block_list_json).len() && #[trigger] precreate_form(
                o,
                block_list_json,
            )[k] == ("rtype"@, int_decimal(o.rtype as int)),
        exists|k: int|
            0 <= k < precreate_form(o, block_list_json).len() && #[trigger] precreate_form(
                o,
                block_list_json,
            )[k] == ("isdir"@, int_decimal(o.isdir as int)),
        forall|k: int|
            0 <= k < precreate_form(o, block_list_json).len() && (#[trigger] precreate_form(
                o,
                block_list_json,
            )[k]).0 == "rtype"@ ==> precreate_form(o, block_list_json)[k].1 == int_decimal(
                o.rtype as int,
            ),
{
    let f = precreate_form(o, block_list_json);
    assert(f[5] == ("rtype"@, int_decimal(o.rtype as int)));
    assert(f[2] == ("isdir"@, int_decimal(o.isdir as int)));
    reveal_strlit("rtype");
    reveal_strlit("path");
    reveal_strlit("size");
    reveal_strlit("isdir");
    reveal_strlit("block_list");
    reveal_strlit("autoinit");
    assert forall|k: int| 0 <= k < f.len() && (#[trigger] f[k]).0 == "rtype"@ implies f[k].1
        == int_decimal(o.rtype as int) by {
        if k == 2 {
            assert(f[k].0[0] != "rtype"@[0]);
        } else if k != 5 {
            assert(f[k].0.len() != "rtype"@.len());
        }
    }
}

/// The query and the form of the precreate request: the path, size, kind,
/// block list (as JSON) and conflict rule of the file, with automatic
/// initialization.
pub fn precreate_request(options: &PrecreateOptions, access_token: &str) -> (r: NetDiskResult<
    (Vec<(String, String)>, Vec<(String, String)>),
>)
    ensures
        r matches Ok((query, form)) ==> pairs_view(query@) == precreate_query(access_token@)
            && pairs_view(form@) == precreate_form(
            *options,
            json_string_array(strings_view(options.block_list@)),
        ),
        r is Ok,
{
    let json = block_list_json(&options.block_list)?;
    let mut query: Vec<(String, String)> = Vec::new();
    query.push(pair("method", owned("precreate")));
    query.push(pair("access_token", owned(access_token)));
    let mut form: Vec<(String, String)> = Vec::new();
    form.push(pair("path", options.path.clone()));
    form.push(pair("size", u64_to_string(options.size)));
    form.push(pair("isdir", i64_to_string(options.isdir as i64)));
    form.push(pair("block_list", json));
    form.push(pair("autoinit", owned("1")));
    form.push(pair("rtype", i64_to_string(options.rtype as i64)));
    assert(pairs_view(query@) =~= precreate_query(access_token@));
    assert(pairs_view(form@) =~= precreate_form(
        *options,
        json_string_array(strings_view(options.block_list@)),
    ));
    Ok((query, form))
}

/// The outcome of a precreate response: the response itself on success,
/// otherwise the API error with the code and the precreate step's message.
pub fn precreate_result(response: PrecreateResponse) -> (r: NetDiskResult<PrecreateResponse>)
    ensures
        response.errno == 0 ==> r == Ok::<PrecreateResponse, NetDiskError>(response),
        response.errno != 0 ==> (r matches Err(e) && is_api_error(
            e,
            response.errno,
            api_error_message(response.errno, precreate_error_text(response.errno)),
        )),
{
    if response.errno != 0 {
        let message = get_error_message(response.errno);
        return Err(NetDiskError::api_error(response.errno, message.as_str()));
    }
    Ok(response)
}

/// The URL that locates the upload servers of an upload session.
pub open spec fn locate_upload_url(access_token: Seq<char>, path: Seq<char>, uploadid: Seq<char>) -> Seq<
    char,
> {
    "https://d.pcs.baidu.com/rest/2.0/pcs/file?method=locateupload&appid=250528&access_token="@
        + percent_encode(access_token) + "&path="@ + percent_encode(path) + "&uploadid="@
        + percent_encode(uploadid) + "&upload_version=2.0"@
}

/// The URL of the locate-upload request: the access token, path and upload
/// session, each percent-encoded.
pub fn locate_upload_request(access_token: &str, path: &str, uploadid: &str) -> (r: String)
    ensures
        r@ == locate_upload_url(access_token@, path@, uploadid@),
{
    let mut url = owned(
        "https://d.pcs.baidu.com/rest/2.0/pcs/file?method=locateupload&appid=250528&access_token=",
    );
    url.append(url_encode(access_token).as_str());
    url.append("&path=");
    url.append(url_encode(path).as_str());
    url.append("&uploadid=");
    url.append(url_encode(uploadid).as_str());
    url.append("&upload_version=2.0");
    url
}

/// The outcome of a locate-upload response: the response on success,
/// otherwise the API error with its code and message.
pub fn locate_upload_result(response: LocateUploadResponse) -> (r: NetDiskResult<
    LocateUploadResponse,
>)
    ensures
        response.error_code == 0 ==> r == Ok::<LocateUploadResponse, NetDiskError>(response),
        response.error_code != 0 ==> (r matches Err(e) && is_api_error(
            e,
            response.error_code,
            api_error_message(response.error_code, response.error_msg@),
        )),
{
    if response.error_code != 0 {
        return Err(NetDiskError::api_error(response.error_code, response.error_msg.as_str()));
    }
    Ok(response)
}

/// The upload server used when none is given.
pub open spec fn default_upload_server() -> Seq<char> {
    "https://c3.pcs.baidu.com"@
}

/// The URL that uploads chunk `partseq` of an upload session to a server.
pub open spec fn chunk_upload_url(
    server: Seq<char>,
    access_token: Seq<char>,
    path: Seq<char>,
    uploadid: Seq<char>,
    partseq: u32,
) -> Seq<char> {
    server + "/rest/2.0/pcs/superfile2?method=upload&access_token="@ + percent_encode(access_token)
        + "&type=tmpfile&path="@ + percent_encode(path) + "&uploadid="@ + percent_encode(uploadid)
        + "&partseq="@ + int_decimal(partseq as int)
}

/// The URL of a chunk upload, on the given server or on
/// `https://c3.pcs.baidu.com` when none is given.
pub fn chunk_upload_request(
    server_url: Option<&str>,
    access_token: &str,
    path: &str,
    uploadid: &str,
    partseq: u32,
) -> (r: String)
    ensures
        r@ == chunk_upload_url(
            match server_url {
                Some(s) => s@,
                None => default_upload_server(),
            },
            access_token@,
            path@,
            uploadid@,
            partseq,
        ),
{
    let mut url = match server_url {
        Some(s) => owned(s),
        None => owned("https://c3.pcs.baidu.com"),
    };
    url.append("/rest/2.0/pcs/superfile2?method=upload&access_token=");
    url.append(url_encode(access_token).as_str());
    url.append("&type=tmpfile&path=");
    url.append(url_encode(path).as_str());
    url.append("&uploadid=");
    url.append(url_encode(uploadid).as_str());
    url.append("&partseq=");
    url.append(u64_to_string(partseq as u64).as_str());
    url
}

/// The query of the create request.
pub open spec fn create_query(access_token: Seq<char>) -> Seq<(Seq<char>, Seq<char>)> {
    seq![("method"@, "create"@), ("access_token"@, access_token)]
}

/// The form of the create request.
pub open spec fn create_form(o: CreateFileOptions, block_list_json: Seq<char>) -> Seq<
    (Seq<char>, Seq<char>),
> {
    let base = seq![
        ("path"@, o.path@),
        ("size"@, int_decimal(o.size as int)),
        ("isdir"@, int_decimal(o.isdir as int)),
        ("block_list"@, block_list_json),
        ("uploadid"@, o.uploadid@),
        ("rtype"@, int_decimal(o.rtype as int)),
    ];
    let with_ctime = match o.local_ctime {
        Some(t) => base.push(("local_ctime"@, int_decimal(t as int))),
        None => base,
    };
    match o.local_mtime {
        Some(t) => with_ctime.push(("local_mtime"@, int_decimal(t as int))),
        None => with_ctime,
    }
}

/// The create request sends the conflict rule the options ask for: its form
/// has the entry `rtype` with the decimal of `o.rtype`, and no other entry
/// named `rtype`, whatever the other options are.
pub proof fn lemma_create_form_sends_requested_rtype(o: CreateFileOptions, block_list_json: Seq<char>)
    ensures
        exists|k: int|
            0 <= k < create_form(o, block_list_json).len() && #[trigger] create_form(
                o,
                block_list_json,
            )[k] == ("rtype"@, int_decimal(o.rtype as int)),
        forall|k: int|
            0 <= k < create_form(o, block_list_json).len() && (#[trigger] create_form(
                o,
                block_list_json,
            )[k]).0 == "rtype"@ ==> create_form(o, block_list_json)[k].1 == int_decimal(
                o.rtype as int,
            ),
{
    let f = create_form(o, block_list_json);
    assert(f[5] == ("rtype"@, int_decimal(o.rtype as int)));
    reveal_strlit("rtype");
    reveal_strlit("path");
    reveal_strlit("size");
    reveal_strlit("isdir");
    reveal_strlit("block_list");
    reveal_strlit("uploadid");
    reveal_strlit("local_ctime");
    reveal_strlit("local_mtime");
    assert forall|k: int| 0 <= k < f.len() && (#[trigger] f[k]).0 == "rtype"@ implies f[k].1
        == int_decimal(o.rtype as int) by {
        if k == 2 {
            assert(f[k].0[0] != "rtype"@[0]);
        } else if k != 5 {
            assert(f[k].0.len() != "rtype"@.len());
        }
    }
}

/// The query and the form of the create request: the path, size, kind, block
/// list (as JSON), upload session and conflict rule, and the local times when
/// given.
pub fn create_file_request(options: &CreateFileOptions, access_token: &str) -> (r: NetDiskResult<
    (Vec<(String, String)>, Vec<(String, String)>),
>)
    ensures
        r matches Ok((query, form)) ==> pairs_view(query@) == create_query(access_token@)
            && pairs_view(form@) == create_form(
            *options,
            json_string_array(strings_view(options.block_list@)),
        ),
        r is Ok,
{
    let json = block_list_json(&options.block_list)?;
    let mut query: Vec<(String, String)> = Vec::new();
    query.push(pair("method", owned("create")));
    query.push(pair("access_token", owned(access_token)));
    let mut form: Vec<(String, String)> = Vec::new();
    form.push(pair("path", options.path.clone()));
    form.push(pair("size", u64_to_string(options.size)));
    form.push(pair("isdir", i64_to_string(options.isdir as i64)));
    form.push(pair("block_list", json));
    form.push(pair("uploadid", options.uploadid.clone()));
    form.push(pair("rtype", i64_to_string(options.rtype as i64)));
    let ghost base = pairs_view(form@);
    if let Some(t) = options.local_ctime {
        form.push(pair("local_ctime", u64_to_string(t)));
    }
    let ghost with_ctime = pairs_view(form@);
    if let Some(t) = options.local_mtime {
        form.push(pair("local_mtime", u64_to_string(t)));
    }
    assert(pairs_view(query@) =~= create_query(access_token@));
    assert(pairs_view(form@) =~= create_form(
        *options,
        json_string_array(strings_view(options.block_list@)),
    ));
    Ok((query, form))
}

/// The outcome of a create response: the response on success, otherwise the
/// API error with the code and the create step's message.
pub fn create_file_result(response: CreateFileResponse) -> (r: NetDiskResult<CreateFileResponse>)
    ensures
        response.errno == 0 ==> r == Ok::<CreateFileResponse, NetDiskError>(response),
        response.errno != 0 ==> (r matches Err(e) && is_api_error(
            e,
            response.errno,
            api_error_message(response.errno, create_error_text(response.errno)),
        )),
{
    if response.errno != 0 {
        let message = get_create_error_message(response.errno);
        return Err(NetDiskError::api_error(response.errno, message.as_str()));
    }
    Ok(response)
}

} // verus!

verus! {

/// The number of pieces of `cs` bytes that `len` bytes make, the last one
/// possibly shorter.
pub open spec fn piece_count(len: nat, cs: nat) -> nat {
    if cs == 0 {
        0
    } else {
        ((len + cs - 1) / (cs as int)) as nat
    }
}

/// The end (exclusive) of piece `i`.
pub open spec fn piece_end(len: nat, cs: nat, i: nat) -> nat {
    if (i + 1) * cs < len {
        (i + 1) * cs
    } else {
        len
    }
}

/// Piece `i` of some data cut in pieces of `cs` bytes.
pub open spec fn piece(data: Seq<u8>, cs: nat, i: nat) -> Seq<u8> {
    data.subrange((i * cs) as int, piece_end(data.len(), cs, i) as int)
}

/// The MD5 digests of the pieces of some data, in order.
pub open spec fn block_md5s(data: Seq<u8>, cs: nat) -> Seq<Seq<char>> {
    Seq::new(piece_count(data.len(), cs), |i: int| md5_hex(piece(data, cs, i as nat)))
}

/// When a loop over pieces stops, it has visited all of them.
proof fn lemma_piece_loop_exit(len: nat, cs: nat, i: nat)
    requires
        cs > 0,
        i * cs >= len,
        i == 0 || (i - 1) * cs < len,
    ensures
        i == piece_count(len, cs),
{
    if i == 0 {
        assert(len == 0);
        assert((cs - 1) / (cs as int) == 0) by (nonlinear_arith)
            requires
                cs > 0,
        ;
    } else {
        assert(((len + cs - 1) / (cs as int)) == i) by (nonlinear_arith)
            requires
                cs > 0,
                i > 0,
                i * cs >= len,
                (i - 1) * cs < len,
        ;
    }
}

/// One step of a loop over pieces: from the start of piece `i`, the end of
/// that piece.
proof fn lemma_piece_step(len: nat, cs: nat, i: nat, start: nat)
    requires
        cs > 0,
        start == i * cs,
        start < len,
    ensures
        (i + 1) * cs == start + cs,
        i + 1 <= len,
{
    assert((i + 1) * cs == i * cs + cs) by (nonlinear_arith);
    assert(i <= i * cs) by (nonlinear_arith)
        requires
            cs > 0,
    ;
}

/// The block list of some data: the MD5 digest of each piece of
/// `chunk_size` bytes, in order.
pub fn block_list_of(data: &[u8], chunk_size: usize) -> (r: Vec<String>)
    requires
        chunk_size > 0,
    ensures
        strings_view(r@) == block_md5s(data@, chunk_size as nat),
{
    let len = data.len();
    let ghost cs = chunk_size as nat;
    let mut r: Vec<String> = Vec::new();
    let mut start: usize = 0;
    let mut i: usize = 0;
    while start < len
        invariant
            len == data@.len(),
            cs == chunk_size,
            cs > 0,
            start <= len,
            start as int == (if i * cs < len {
                i * cs
            } else {
                len as int
            }),
            i == 0 || (i - 1) * cs < len,
            i <= len,
            r@.len() == i,
            forall|k: int|
                0 <= k < i ==> #[trigger] r@[k]@ == md5_hex(piece(data@, cs, k as nat)),
        decreases len - start,
    {
        proof {
            lemma_piece_step(len as nat, cs, i as nat, start as nat);
        }
        let end = if len - start > chunk_size {
            start + chunk_size
        } else {
            len
        };
        assert(end == piece_end(len as nat, cs, i as nat));
        let digest = md5_hex_digest(&data[start..end]);
        r.push(digest);
        start = end;
        i = i + 1;
    }
    proof {
        lemma_piece_loop_exit(len as nat, cs, i as nat);
    }
    assert(strings_view(r@) =~= block_md5s(data@, cs));
    r
}

/// The pieces of some data whose index is listed as missing, with their
/// indices, in order: those among the first `n` pieces. An index is taken
/// as a `u32` part number, wrapping as `as u32` does.
pub open spec fn missing_pieces(data: Seq<u8>, cs: nat, missing: Seq<u32>, n: nat) -> Seq<
    (u32, Seq<u8>),
>
    decreases n,
{
    if n == 0 {
        seq![]
    } else {
        let prev = missing_pieces(data, cs, missing, (n - 1) as nat);
        if missing.contains((n - 1) as u32) {
            prev.push((((n - 1) as u32), piece(data, cs, (n - 1) as nat)))
        } else {
            prev
        }
    }
}

/// The views of indexed chunks.
pub open spec fn chunks_view(v: Seq<(u32, Vec<u8>)>) -> Seq<(u32, Seq<u8>)> {
    v.map_values(|p: (u32, Vec<u8>)| (p.0, p.1@))
}

/// Whether a list of indices holds `x`.
pub fn contains_u32(v: &Vec<u32>, x: u32) -> (r: bool)
    ensures
        r == v@.contains(x),
{
    let mut i: usize = 0;
    while i < v.len()
        invariant
            i <= v@.len(),
            forall|k: int| 0 <= k < i ==> v@[k] != x,
        decreases v@.len() - i,
    {
        if v[i] == x {
            assert(v@[i as int] == x);
            return true;
        }
        i = i + 1;
    }
    false
}

/// The chunks of some data that a resumable upload still has to send: each
/// piece of `chunk_size` bytes whose index the server lists as missing, with
/// its index.
pub fn chunks_to_upload(data: &[u8], chunk_size: usize, missing: &Vec<u32>) -> (r: Vec<
    (u32, Vec<u8>),
>)
    requires
        chunk_size > 0,
    ensures
        chunks_view(r@) == missing_pieces(
            data@,
            chunk_size as nat,
            missing@,
            piece_count(data@.len(), chunk_size as nat),
        ),
{
    let len = data.len();
    let ghost cs = chunk_size as nat;
    let mut r: Vec<(u32, Vec<u8>)> = Vec::new();
    let mut start: usize = 0;
    let mut i: usize = 0;
    while start < len
        invariant
            len == data@.len(),
            cs == chunk_size,
            cs > 0,
            start <= len,
            start as int == (if i * cs < len {
                i * cs
            } else {
                len as int
            }),
            i == 0 || (i - 1) * cs < len,
            i <= len,
            chunks_view(r@) == missing_pieces(data@, cs, missing@, i as nat),
        decreases len - start,
    {
        proof {
            lemma_piece_step(len as nat, cs, i as nat, start as nat);
            assert(i < piece_count(len as nat, cs)) by (nonlinear_arith)
                requires
                    cs > 0,
                    i * cs < len,
                    piece_count(len as nat, cs) == (len + cs - 1) / (cs as int),
            ;
        }
        let end = if len - start > chunk_size {
            start + chunk_size
        } else {
            len
        };
        assert(end == piece_end(len as nat, cs, i as nat));
        let index = i as u32;
        if contains_u32(missing, index) {
            let bytes = vstd::slice::slice_to_vec(&data[start..end]);
            r.push((index, bytes));
            assert(chunks_view(r@) =~= chunks_view(r@.drop_last()).push((index, bytes@)));
        }
        assert(((i + 1 - 1) as nat) == i);
        start = end;
        i = i + 1;
    }
    proof {
        lemma_piece_loop_exit(len as nat, cs, i as nat);
    }
    r
}

/// Inserts an uploaded chunk's result after every result whose index is not
/// larger, walking back from the end (a stable insertion).
pub open spec fn insert_by_partseq(s: Seq<(u32, String)>, x: (u32, String)) -> Seq<(u32, String)>
    decreases s.len(),
{
    if s.len() == 0 || s.last().0 <= x.0 {
        s.push(x)
    } else {
        insert_by_partseq(s.drop_last(), x).push(s.last())
    }
}

/// Chunk results sorted by index, stably: equal indices keep their order.
pub open spec fn sort_by_partseq(s: Seq<(u32, String)>) -> Seq<(u32, String)>
    decreases s.len(),
{
    if s.len() == 0 {
        s
    } else {
        insert_by_partseq(sort_by_partseq(s.drop_last()), s.last())
    }
}

/// The results are in order of index.
pub open spec fn ordered_by_partseq(s: Seq<(u32, String)>) -> bool {
    forall|i: int, j: int| 0 <= i <= j < s.len() ==> s[i].0 <= s[j].0
}

/// Inserting where the walk back from the end stops.
proof fn lemma_insert_at(s: Seq<(u32, String)>, x: (u32, String), j: int)
    requires
        0 <= j <= s.len(),
        forall|k: int| j <= k < s.len() ==> s[k].0 > x.0,
        j == 0 || s[j - 1].0 <= x.0,
    ensures
        insert_by_partseq(s, x) == s.insert(j, x),
    decreases s.len(),
{
    if s.len() == 0 {
        assert(s.insert(j, x) =~= s.push(x));
    } else if s.last().0 <= x.0 {
        assert(j == s.len());
        assert(s.insert(j, x) =~= s.push(x));
    } else {
        let d = s.drop_last();
        lemma_insert_at(d, x, j);
        assert(d.insert(j, x).push(s.last()) =~= s.insert(j, x));
    }
}

/// Inserting keeps every index under a bound that the list and the new result
/// respect, and adds the result to the list's contents.
proof fn lemma_insert_contents(s: Seq<(u32, String)>, x: (u32, String), m: u32)
    requires
        forall|k: int| 0 <= k < s.len() ==> s[k].0 <= m,
        x.0 <= m,
    ensures
        forall|k: int| 0 <= k < insert_by_partseq(s, x).len() ==> insert_by_partseq(s, x)[k].0 <= m,
        insert_by_partseq(s, x).len() == s.len() + 1,
        insert_by_partseq(s, x).to_multiset() == s.to_multiset().insert(x),
    decreases s.len(),
{
    broadcast use vstd::seq_lib::group_to_multiset_ensures;

    if s.len() == 0 || s.last().0 <= x.0 {
    } else {
        let d = s.drop_last();
        lemma_insert_contents(d, x, m);
        assert(s =~= d.push(s.last()));
        assert(d.to_multiset().insert(x).insert(s.last()) =~= d.to_multiset().insert(
            s.last(),
        ).insert(x));
    }
}

/// Inserting into an ordered list gives an ordered list.
proof fn lemma_insert_ordered(s: Seq<(u32, String)>, x: (u32, String))
    requires
        ordered_by_partseq(s),
    ensures
        ordered_by_partseq(insert_by_partseq(s, x)),
    decreases s.len(),
{
    if s.len() == 0 || s.last().0 <= x.0 {
    } else {
        let d = s.drop_last();
        lemma_insert_ordered(d, x);
        lemma_insert_contents(d, x, s.last().0);
    }
}

/// Sorting the chunk results orders them by index and keeps exactly the same
/// results.
pub proof fn lemma_sorted_results(s: Seq<(u32, String)>)
    ensures
        ordered_by_partseq(sort_by_partseq(s)),
        sort_by_partseq(s).to_multiset() == s.to_multiset(),
        sort_by_partseq(s).len() == s.len(),
    decreases s.len(),
{
    broadcast use vstd::seq_lib::group_to_multiset_ensures;

    if s.len() > 0 {
        let d = s.drop_last();
        lemma_sorted_results(d);
        lemma_insert_ordered(sort_by_partseq(d), s.last());
        lemma_insert_contents(sort_by_partseq(d), s.last(), u32::MAX);
        assert(s =~= d.push(s.last()));
    }
}

/// The chunk results sorted by index, stably.
pub fn sort_chunk_results(results: &Vec<(u32, String)>) -> (r: Vec<(u32, String)>)
    ensures
        r@ == sort_by_partseq(results@),
{
    let mut r: Vec<(u32, String)> = Vec::new();
    let mut i: usize = 0;
    while i < results.len()
        invariant
            i <= results@.len(),
            r@ == sort_by_partseq(results@.subrange(0, i as int)),
        decreases results@.len() - i,
    {
        let x = (results[i].0, results[i].1.clone());
        assert(x == results@[i as int]);
        let mut j = r.len();
        while j > 0 && r[j - 1].0 > x.0
            invariant
                j <= r@.len(),
                forall|k: int| j <= k < r@.len() ==> r@[k].0 > x.0,
            decreases j,
        {
            j = j - 1;
        }
        proof {
            lemma_insert_at(r@, x, j as int);
            assert(results@.subrange(0, i + 1).drop_last() =~= results@.subrange(0, i as int));
        }
        r.insert(j, x);
        i = i + 1;
    }
    assert(results@.subrange(0, results@.len() as int) =~= results@);
    r
}

/// The MD5 digests of chunk results, in the order of their indices.
pub open spec fn merged_md5s(results: Seq<(u32, String)>) -> Seq<Seq<char>> {
    sort_by_partseq(results).map_values(|p: (u32, String)| p.1@)
}

/// The MD5 digests of chunk results, sorted by index: the block list of a
/// reader upload, whose results hold a digest for every chunk (the local one
/// or the server's).
pub fn merged_block_list(results: &Vec<(u32, String)>) -> (r: Vec<String>)
    ensures
        strings_view(r@) == merged_md5s(results@),
{
    let sorted = sort_chunk_results(results);
    let mut r: Vec<String> = Vec::new();
    let mut i: usize = 0;
    while i < sorted.len()
        invariant
            i <= sorted@.len(),
            strings_view(r@) == sorted@.subrange(0, i as int).map_values(|p: (u32, String)| p.1@),
        decreases sorted@.len() - i,
    {
        let ghost before = r@;
        r.push(sorted[i].1.clone());
        assert(strings_view(r@) =~= strings_view(before).push(sorted@[i as int].1@));
        assert(sorted@.subrange(0, i + 1).map_values(|p: (u32, String)| p.1@) =~= sorted@.subrange(
            0,
            i as int,
        ).map_values(|p: (u32, String)| p.1@).push(sorted@[i as int].1@));
        i = i + 1;
    }
    assert(sorted@.subrange(0, sorted@.len() as int) =~= sorted@);
    r
}

/// The digest that chunk results give for chunk `i`: that of the first
/// result with that index, if any.
pub open spec fn result_digest(results: Seq<(u32, String)>, i: u32) -> Option<Seq<char>>
    decreases results.len(),
{
    if results.len() == 0 {
        None
    } else if results[0].0 == i {
        Some(results[0].1@)
    } else {
        result_digest(results.drop_first(), i)
    }
}

/// The block list the create step sends after an upload: for every chunk, in
/// index order, the digest the server returned for it when it was uploaded,
/// else its local digest.
pub open spec fn upload_block_list(local: Seq<Seq<char>>, results: Seq<(u32, String)>) -> Seq<
    Seq<char>,
> {
    Seq::new(
        local.len(),
        |i: int|
            match result_digest(results, i as u32) {
                Some(d) => d,
                None => local[i],
            },
    )
}

/// The digest the chunk results give for one chunk.
fn find_result_digest(results: &Vec<(u32, String)>, index: u32) -> (r: Option<String>)
    ensures
        match r {
            Some(s) => result_digest(results@, index) == Some(s@),
            None => result_digest(results@, index) is None,
        },
{
    let mut j: usize = 0;
    assert(results@.subrange(0, results@.len() as int) =~= results@);
    while j < results.len()
        invariant
            j <= results@.len(),
            result_digest(results@, index) == result_digest(
                results@.subrange(j as int, results@.len() as int),
                index,
            ),
        decreases results@.len() - j,
    {
        let ghost rest = results@.subrange(j as int, results@.len() as int);
        assert(rest[0] == results@[j as int]);
        assert(rest.drop_first() =~= results@.subrange(j + 1, results@.len() as int));
        if results[j].0 == index {
            return Some(results[j].1.clone());
        }
        j = j + 1;
    }
    None
}

/// The block list the create step sends after an upload whose local block
/// list is `local` and whose uploaded chunks gave `results`: each chunk's
/// server digest when it was uploaded, its local digest otherwise, in index
/// order. With nothing uploaded, it is the local block list.
pub fn final_block_list(local: &Vec<String>, results: &Vec<(u32, String)>) -> (r: Vec<String>)
    ensures
        strings_view(r@) == upload_block_list(strings_view(local@), results@),
{
    let mut r: Vec<String> = Vec::new();
    let mut i: usize = 0;
    while i < local.len()
        invariant
            i <= local@.len(),
            strings_view(r@) == upload_block_list(strings_view(local@), results@).subrange(
                0,
                i as int,
            ),
        decreases local@.len() - i,
    {
        let index: u32 = #[verifier::truncate] (i as u32);
        let d = match find_result_digest(results, index) {
            Some(s) => s,
            None => local[i].clone(),
        };
        assert(d@ == upload_block_list(strings_view(local@), results@)[i as int]);
        let ghost before = r@;
        r.push(d);
        assert(r@.drop_last() =~= before);
        assert(strings_view(r@) =~= strings_view(before).push(r@.last()@));
        assert(strings_view(r@) =~= upload_block_list(strings_view(local@), results@).subrange(
            0,
            i + 1,
        ));
        i = i + 1;
    }
    assert(upload_block_list(strings_view(local@), results@).subrange(0, i as int)
        =~= upload_block_list(strings_view(local@), results@));
    r
}

/// The block list of a stream being read chunk by chunk: the MD5 digest of
/// each chunk, in order.
pub struct BlockListBuilder {
    blocks: Vec<String>,
}

impl BlockListBuilder {
    /// The digests so far.
    pub closed spec fn digests(&self) -> Seq<Seq<char>> {
        strings_view(self.blocks@)
    }

    /// An empty block list.
    pub fn new() -> (b: Self)
        ensures
            b.digests() == Seq::<Seq<char>>::empty(),
    {
        let b = BlockListBuilder { blocks: Vec::new() };
        assert(b.digests() =~= Seq::<Seq<char>>::empty());
        b
    }

    /// Adds the digest of the next chunk.
    pub fn add_chunk(&mut self, chunk: &[u8])
        ensures
            final(self).digests() == old(self).digests().push(md5_hex(chunk@)),
    {
        let d = md5_hex_digest(chunk);
        self.blocks.push(d);
        assert(strings_view(self.blocks@) =~= strings_view(old(self).blocks@).push(
            md5_hex(chunk@),
        ));
    }

    /// The number of chunks so far.
    pub fn len(&self) -> (n: usize)
        ensures
            n == self.digests().len(),
    {
        self.blocks.len()
    }

    /// The block list.
    pub fn into_blocks(self) -> (v: Vec<String>)
        ensures
            strings_view(v@) == self.digests(),
    {
        self.blocks
    }
}

/// The second pass of a resumable upload from a reader: it sees the chunks
/// again in order, keeps those the server misses in a pending batch, records
/// the local digest of the others, and says when a batch must be uploaded.
pub struct ReaderUploadPlan {
    missing: Vec<u32>,
    batch_size: usize,
    read_chunks: usize,
    partseq: u32,
    pending: Vec<(u32, Vec<u8>)>,
    collected: Vec<(u32, String)>,
}

/// The pending batch after a chunk was seen: with the chunk when it is
/// missing on the server.
pub open spec fn pending_after(pending: Seq<(u32, Seq<u8>)>, missing: Seq<u32>, partseq: u32, data: Seq<
    u8,
>) -> Seq<(u32, Seq<u8>)> {
    if missing.contains(partseq) {
        pending.push((partseq, data))
    } else {
        pending
    }
}

/// The collected digests after a chunk was seen: with its local digest when
/// the server has it already.
pub open spec fn collected_after(
    collected: Seq<(u32, Seq<char>)>,
    missing: Seq<u32>,
    partseq: u32,
    data: Seq<u8>,
) -> Seq<(u32, Seq<char>)> {
    if missing.contains(partseq) {
        collected
    } else {
        collected.push((partseq, md5_hex(data)))
    }
}

/// A batch is uploaded when it is full, or when the last chunk of the first
/// pass was seen and the batch is not empty.
pub open spec fn batch_due(pending: Seq<(u32, Seq<u8>)>, batch_size: usize, partseq: u32, read_chunks: usize) -> bool {
    pending.len() >= batch_size || (partseq + 1 == (read_chunks as u32) && pending.len() > 0)
}

/// The views of chunk digests.
pub open spec fn digests_view(v: Seq<(u32, String)>) -> Seq<(u32, Seq<char>)> {
    v.map_values(|p: (u32, String)| (p.0, p.1@))
}

impl ReaderUploadPlan {
    /// Every pending chunk is one the server misses.
    #[verifier::type_invariant]
    spec fn pending_missing(&self) -> bool {
        forall|i: int| 0 <= i < self.pending@.len() ==> self.missing@.contains(#[trigger] self.pending@[i].0)
    }

    /// The indices the server misses.
    pub closed spec fn missing_blocks(&self) -> Seq<u32> {
        self.missing@
    }

    /// The size of a batch: twice the number of parallel uploads.
    pub closed spec fn batch(&self) -> usize {
        self.batch_size
    }

    /// The number of chunks the first pass read.
    pub closed spec fn first_pass_chunks(&self) -> usize {
        self.read_chunks
    }

    /// The index of the next chunk.
    pub closed spec fn next_partseq(&self) -> u32 {
        self.partseq
    }

    /// The chunks waiting to be uploaded.
    pub closed spec fn pending_chunks(&self) -> Seq<(u32, Seq<u8>)> {
        chunks_view(self.pending@)
    }

    /// The digests known so far, with their indices.
    pub closed spec fn collected_digests(&self) -> Seq<(u32, Seq<char>)> {
        digests_view(self.collected@)
    }

    /// The collected digests, as they are held.
    pub closed spec fn collected_results(&self) -> Seq<(u32, String)> {
        self.collected@
    }

    /// The plan of a second pass, after a precreate that found the `missing`
    /// chunks of a stream whose first pass read `read_chunks` chunks.
    pub fn new(missing: Vec<u32>, max_concurrency: usize, read_chunks: usize) -> (p: Self)
        requires
            max_concurrency * 2 <= usize::MAX,
        ensures
            p.missing_blocks() == missing@,
            p.batch() == max_concurrency * 2,
            p.first_pass_chunks() == read_chunks,
            p.next_partseq() == 0,
            p.pending_chunks() == Seq::<(u32, Seq<u8>)>::empty(),
            p.collected_digests() == Seq::<(u32, Seq<char>)>::empty(),
    {
        let p = ReaderUploadPlan {
            missing,
            batch_size: max_concurrency * 2,
            read_chunks,
            partseq: 0,
            pending: Vec::new(),
            collected: Vec::new(),
        };
        assert(p.pending_chunks() =~= Seq::<(u32, Seq<u8>)>::empty());
        assert(p.collected_digests() =~= Seq::<(u32, Seq<char>)>::empty());
        p
    }

    /// Takes the next chunk of the second pass; returns the batch to upload
    /// now, if one is due.
    pub fn on_chunk(&mut self, data: Vec<u8>) -> (batch: Option<Vec<(u32, Vec<u8>)>>)
        requires
            old(self).next_partseq() < u32::MAX,
        ensures
            final(self).missing_blocks() == old(self).missing_blocks(),
            final(self).batch() == old(self).batch(),
            final(self).first_pass_chunks() == old(self).first_pass_chunks(),
            final(self).next_partseq() == old(self).next_partseq() + 1,
            final(self).collected_digests() == collected_after(
                old(self).collected_digests(),
                old(self).missing_blocks(),
                old(self).next_partseq(),
                data@,
            ),
            ({
                let pend = pending_after(
                    old(self).pending_chunks(),
                    old(self).missing_blocks(),
                    old(self).next_partseq(),
                    data@,
                );
                if batch_due(pend, old(self).batch(), old(self).next_partseq(), old(self).first_pass_chunks()) {
                    &&& batch matches Some(b) && chunks_view(b@) == pend
                    &&& final(self).pending_chunks() == Seq::<(u32, Seq<u8>)>::empty()
                } else {
                    &&& batch is None
                    &&& final(self).pending_chunks() == pend
                }
            }),
            batch matches Some(b) ==> forall|i: int|
                0 <= i < b@.len() ==> old(self).missing_blocks().contains(#[trigger] b@[i].0),
            final(self).pending_chunks().len() == 0 || final(self).pending_chunks().len()
                < final(self).batch(),
    {
        proof {
            use_type_invariant(&*self);
        }
        let seq = self.partseq;
        let ghost data_view = data@;
        let mut pending: Vec<(u32, Vec<u8>)> = Vec::new();
        std::mem::swap(&mut pending, &mut self.pending);
        let mut collected: Vec<(u32, String)> = Vec::new();
        std::mem::swap(&mut collected, &mut self.collected);
        if contains_u32(&self.missing, seq) {
            pending.push((seq, data));
            assert(chunks_view(pending@) =~= chunks_view(old(self).pending@).push((seq, data_view)));
        } else {
            let digest = md5_hex_digest(data.as_slice());
            collected.push((seq, digest));
            assert(digests_view(collected@) =~= digests_view(old(self).collected@).push(
                (seq, md5_hex(data_view)),
            ));
        }
        self.collected = collected;
        let due = pending.len() >= self.batch_size || (seq + 1 == self.read_chunks as u32
            && pending.len() > 0);
        self.partseq = seq + 1;
        if due {
            Some(pending)
        } else {
            self.pending = pending;
            None
        }
    }

    /// Records the digests the server returned for an uploaded batch.
    pub fn on_uploaded(&mut self, results: Vec<(u32, String)>)
        ensures
            final(self).missing_blocks() == old(self).missing_blocks(),
            final(self).batch() == old(self).batch(),
            final(self).first_pass_chunks() == old(self).first_pass_chunks(),
            final(self).next_partseq() == old(self).next_partseq(),
            final(self).pending_chunks() == old(self).pending_chunks(),
            final(self).collected_results() == old(self).collected_results() + results@,
    {
        proof {
            use_type_invariant(&*self);
        }
        let mut collected: Vec<(u32, String)> = Vec::new();
        std::mem::swap(&mut collected, &mut self.collected);
        let mut i: usize = 0;
        while i < results.len()
            invariant
                i <= results@.len(),
                collected@ == old(self).collected@ + results@.subrange(0, i as int),
            decreases results@.len() - i,
        {
            collected.push((results[i].0, results[i].1.clone()));
            assert(old(self).collected@ + results@.subrange(0, i + 1) =~= (old(self).collected@
                + results@.subrange(0, i as int)).push(results@[i as int]));
            i = i + 1;
        }
        assert(results@.subrange(0, results@.len() as int) =~= results@);
        self.collected = collected;
    }

    /// The block list of the create step: the collected digests sorted by
    /// index.
    pub fn block_list(&self) -> (r: Vec<String>)
        ensures
            strings_view(r@) == merged_md5s(self.collected_results()),
    {
        merged_block_list(&self.collected)
    }
}


/// What a second pass over `chunks` has done once it has seen them all, one
/// step per chunk as `on_chunk` takes it: the chunks handed out in batches
/// (in order), the local digests collected, and the chunks still pending.
pub open spec fn pass_outcome(missing: Seq<u32>, batch: usize, read_chunks: usize, chunks: Seq<Seq<u8>>) -> (
    Seq<(u32, Seq<u8>)>,
    Seq<(u32, Seq<char>)>,
    Seq<(u32, Seq<u8>)>,
)
    decreases chunks.len(),
{
    if chunks.len() == 0 {
        (seq![], seq![], seq![])
    } else {
        let prev = pass_outcome(missing, batch, read_chunks, chunks.drop_last());
        let partseq = (chunks.len() - 1) as u32;
        let pend = pending_after(prev.2, missing, partseq, chunks.last());
        let collected = collected_after(prev.1, missing, partseq, chunks.last());
        if batch_due(pend, batch, partseq, read_chunks) {
            (prev.0 + pend, collected, seq![])
        } else {
            (prev.0, collected, pend)
        }
    }
}

/// The chunks whose index the server misses, with their indices, in order.
pub open spec fn missing_chunks(missing: Seq<u32>, chunks: Seq<Seq<u8>>) -> Seq<(u32, Seq<u8>)>
    decreases chunks.len(),
{
    if chunks.len() == 0 {
        seq![]
    } else {
        let prev = missing_chunks(missing, chunks.drop_last());
        let partseq = (chunks.len() - 1) as u32;
        if missing.contains(partseq) {
            prev.push((partseq, chunks.last()))
        } else {
            prev
        }
    }
}

/// The local digests of the chunks the server has, with their indices, in
/// order.
pub open spec fn kept_digests(missing: Seq<u32>, chunks: Seq<Seq<u8>>) -> Seq<(u32, Seq<char>)>
    decreases chunks.len(),
{
    if chunks.len() == 0 {
        seq![]
    } else {
        let prev = kept_digests(missing, chunks.drop_last());
        let partseq = (chunks.len() - 1) as u32;
        if missing.contains(partseq) {
            prev
        } else {
            prev.push((partseq, md5_hex(chunks.last())))
        }
    }
}

/// A resumable upload sends exactly the chunks the server misses: over a
/// second pass, the batches handed out followed by what is still pending are
/// the missing chunks, each once and in order, and every other chunk
/// contributes its local digest. When the pass sees as many chunks as the
/// first pass read, nothing is left pending at its end.
pub proof fn lemma_pass_uploads_exactly_missing(
    missing: Seq<u32>,
    batch: usize,
    read_chunks: usize,
    chunks: Seq<Seq<u8>>,
)
    requires
        chunks.len() <= u32::MAX,
    ensures
        ({
            let out = pass_outcome(missing, batch, read_chunks, chunks);
            &&& out.0 + out.2 == missing_chunks(missing, chunks)
            &&& out.1 == kept_digests(missing, chunks)
            &&& chunks.len() == read_chunks ==> out.2.len() == 0
        }),
    decreases chunks.len(),
{
    if chunks.len() > 0 {
        let prev_chunks = chunks.drop_last();
        lemma_pass_uploads_exactly_missing(missing, batch, read_chunks, prev_chunks);
        let prev = pass_outcome(missing, batch, read_chunks, prev_chunks);
        let partseq = (chunks.len() - 1) as u32;
        let pend = pending_after(prev.2, missing, partseq, chunks.last());
        if missing.contains(partseq) {
            assert(prev.0 + pend =~= (prev.0 + prev.2).push((partseq, chunks.last())));
        } else {
            assert(pend =~= prev.2);
        }
        if batch_due(pend, batch, partseq, read_chunks) {
            assert(prev.0 + pend + Seq::<(u32, Seq<u8>)>::empty() =~= prev.0 + pend);
        }
    }
}

} // verus!
