//! File management: creating folders, renaming, deleting, moving and copying.
use vstd::prelude::*;

use super::query::{base_name, last_slash, message_or_unknown, response_error};
use crate::encoding::{json_encode_objects, json_object_array, objects_view};
use crate::errors::{api_error_message, is_api_error, NetDiskError, NetDiskResult};
use crate::text::{chars_of, i32_to_string, int_decimal, owned, pair, pairs_view, string_from_chars};

verus! {

/// Options for creating a folder
#[derive(Debug)]
pub struct FolderCreateOptions {
    pub rtype: i32,
    pub mode: i32,
}

impl Default for FolderCreateOptions {
    fn default() -> (r: Self)
        ensures
            r.rtype == 0,
            r.mode == 0,
    {
        FolderCreateOptions {
            rtype: 0,
            mode: 0,
        }
    }
}

impl FolderCreateOptions {
    /// Options with rtype 0 and mode 0
    pub fn new() -> (r: Self)
        ensures
            r.rtype == 0,
            r.mode == 0,
    {
        Self::default()
    }

    /// Set the conflict rule
    pub fn rtype(self, rtype: i32) -> (r: Self)
        ensures
            r == (FolderCreateOptions { rtype: rtype, ..self }),
    {
        let mut s = self;
        s.rtype = rtype;
        s
    }

    /// Set the mode
    pub fn mode(self, mode: i32) -> (r: Self)
        ensures
            r == (FolderCreateOptions { mode: mode, ..self }),
    {
        let mut s = self;
        s.mode = mode;
        s
    }

}

/// Information of a created folder
#[derive(Debug)]
pub struct FolderInfo {
    pub fs_id: Option<u64>,
    pub path: String,
    pub ctime: Option<u64>,
    pub mtime: Option<u64>,
    pub isdir: Option<i32>,
    pub category: Option<i32>,
}

} // verus!

verus! {

/// Folder creation response
pub struct FolderResponse {
    pub errno: i32,
    pub errmsg: Option<String>,
    pub fs_id: Option<u64>,
    pub path: Option<String>,
    pub ctime: Option<u64>,
    pub mtime: Option<u64>,
    pub isdir: Option<i32>,
    pub category: Option<i32>,
}

/// The status of one file in a file operation response
pub struct FileProcessStatus {
    pub errno: i32,
    pub path: String,
}

/// File operation (rename, delete, move, copy) response
pub struct FileOperationResponse {
    pub errno: i32,
    pub info: Option<Vec<FileProcessStatus>>,
    pub taskid: Option<u64>,
}

/// The query of a folder creation.
pub open spec fn create_folder_query(access_token: Seq<char>) -> Seq<(Seq<char>, Seq<char>)> {
    seq![("method"@, "create"@), ("access_token"@, access_token)]
}

/// The form of a folder creation.
pub open spec fn create_folder_form(path: Seq<char>, o: FolderCreateOptions) -> Seq<(Seq<char>, Seq<char>)> {
    seq![
        ("path"@, path),
        ("isdir"@, "1"@),
        ("rtype"@, int_decimal(o.rtype as int)),
        ("mode"@, int_decimal(o.mode as int)),
    ]
}

/// The query and the form that create a folder at a path.
pub fn create_folder_request(access_token: &str, path: &str, options: &FolderCreateOptions) -> (r: (
    Vec<(String, String)>,
    Vec<(String, String)>,
))
    ensures
        pairs_view(r.0@) == create_folder_query(access_token@),
        pairs_view(r.1@) == create_folder_form(path@, *options),
{
    let mut q: Vec<(String, String)> = Vec::new();
    q.push(pair("method", owned("create")));
    q.push(pair("access_token", owned(access_token)));
    let mut f: Vec<(String, String)> = Vec::new();
    f.push(pair("path", owned(path)));
    f.push(pair("isdir", owned("1")));
    f.push(pair("rtype", i32_to_string(options.rtype)));
    f.push(pair("mode", i32_to_string(options.mode)));
    assert(pairs_view(q@) =~= create_folder_query(access_token@));
    assert(pairs_view(f@) =~= create_folder_form(path@, *options));
    (q, f)
}

/// The outcome of a folder creation: the folder's information (the
/// requested path when the response has none), or the API error of a failed
/// response.
pub fn create_folder_result(response: &FolderResponse, path: &str) -> (r: NetDiskResult<FolderInfo>)
    ensures
        response.errno != 0 ==> (r matches Err(e) && is_api_error(
            e,
            response.errno,
            api_error_message(response.errno, message_or_unknown(response.errmsg)),
        )),
        response.errno == 0 ==> (r matches Ok(f) && f.fs_id == response.fs_id && f.path@ == (
        match response.path {
            Some(p) => p@,
            None => path@,
        }) && f.ctime == response.ctime && f.mtime == response.mtime && f.isdir == response.isdir
            && f.category == response.category),
{
    if response.errno != 0 {
        return Err(response_error(response.errno, &response.errmsg));
    }
    let folder_path = match &response.path {
        Some(p) => p.clone(),
        None => owned(path),
    };
    Ok(
        FolderInfo {
            fs_id: response.fs_id,
            path: folder_path,
            ctime: response.ctime,
            mtime: response.mtime,
            isdir: response.isdir,
            category: response.category,
        },
    )
}

/// The query of a file operation (`rename`, `delete`, `move` or `copy`).
pub open spec fn file_operation_query(access_token: Seq<char>, opera: Seq<char>) -> Seq<
    (Seq<char>, Seq<char>),
> {
    seq![("method"@, "filemanager"@), ("access_token"@, access_token), ("opera"@, opera)]
}

/// The form of a file operation: synchronous, with the file list as JSON
/// and the rule for name clashes.
pub open spec fn file_operation_form(filelist: Seq<char>, ondup: Seq<char>) -> Seq<(Seq<char>, Seq<char>)> {
    seq![("async"@, "0"@), ("filelist"@, filelist), ("ondup"@, ondup)]
}

/// The query and form of a file operation, from its parts.
fn file_operation_request(
    access_token: &str,
    opera: &str,
    entry: Vec<(String, String)>,
    ondup: &str,
) -> (r: (Vec<(String, String)>, Vec<(String, String)>))
    ensures
        pairs_view(r.0@) == file_operation_query(access_token@, opera@),
        pairs_view(r.1@) == file_operation_form(
            json_object_array(seq![pairs_view(entry@)]),
            ondup@,
        ),
{
    let ghost entry_view = pairs_view(entry@);
    let mut objects: Vec<Vec<(String, String)>> = Vec::new();
    objects.push(entry);
    assert(objects_view(objects@) =~= seq![entry_view]);
    let filelist = json_encode_objects(&objects);
    let mut q: Vec<(String, String)> = Vec::new();
    q.push(pair("method", owned("filemanager")));
    q.push(pair("access_token", owned(access_token)));
    q.push(pair("opera", owned(opera)));
    let mut f: Vec<(String, String)> = Vec::new();
    f.push(pair("async", owned("0")));
    f.push(pair("filelist", filelist));
    f.push(pair("ondup", owned(ondup)));
    assert(pairs_view(q@) =~= file_operation_query(access_token@, opera@));
    assert(pairs_view(f@) =~= file_operation_form(json_object_array(seq![entry_view]), ondup@));
    (q, f)
}

/// The request that renames a file: the file list names the path and the
/// new name; name clashes overwrite.
pub fn rename_request(access_token: &str, path: &str, new_name: &str) -> (r: (
    Vec<(String, String)>,
    Vec<(String, String)>,
))
    ensures
        pairs_view(r.0@) == file_operation_query(access_token@, "rename"@),
        pairs_view(r.1@) == file_operation_form(
            json_object_array(seq![seq![("path"@, path@), ("newname"@, new_name@)]]),
            "overwrite"@,
        ),
{
    let mut entry: Vec<(String, String)> = Vec::new();
    entry.push(pair("path", owned(path)));
    entry.push(pair("newname", owned(new_name)));
    assert(pairs_view(entry@) =~= seq![("path"@, path@), ("newname"@, new_name@)]);
    file_operation_request(access_token, "rename", entry, "overwrite")
}

/// The request that deletes a file: the file list names the path.
pub fn delete_request(access_token: &str, path: &str) -> (r: (
    Vec<(String, String)>,
    Vec<(String, String)>,
))
    ensures
        pairs_view(r.0@) == file_operation_query(access_token@, "delete"@),
        pairs_view(r.1@) == file_operation_form(
            json_object_array(seq![seq![("path"@, path@)]]),
            "overwrite"@,
        ),
{
    let mut entry: Vec<(String, String)> = Vec::new();
    entry.push(pair("path", owned(path)));
    assert(pairs_view(entry@) =~= seq![("path"@, path@)]);
    file_operation_request(access_token, "delete", entry, "overwrite")
}

/// The file list entry of a move or copy: the path, the destination, the
/// same name, and failure on a clash.
pub open spec fn transfer_entry(path: Seq<char>, dest: Seq<char>) -> Seq<(Seq<char>, Seq<char>)> {
    seq![
        ("path"@, path),
        ("dest"@, dest),
        ("newname"@, base_name(path)),
        ("ondup"@, "fail"@),
    ]
}

/// The file list entry of a move or copy.
fn transfer_entry_pairs(path: &str, dest: &str) -> (r: Vec<(String, String)>)
    ensures
        pairs_view(r@) == transfer_entry(path@, dest@),
{
    let name = file_name_of(path);
    let mut entry: Vec<(String, String)> = Vec::new();
    entry.push(pair("path", owned(path)));
    entry.push(pair("dest", owned(dest)));
    entry.push(pair("newname", name));
    entry.push(pair("ondup", owned("fail")));
    assert(pairs_view(entry@) =~= transfer_entry(path@, dest@));
    entry
}

/// The last component of a path, as a move or copy keeps it.
fn file_name_of(path: &str) -> (r: String)
    ensures
        r@ == base_name(path@),
{
    let chars = chars_of(path);
    let mut i: usize = chars.len();
    assert(chars@.subrange(0, chars@.len() as int) =~= chars@);
    while i > 0 && chars[i - 1] != '/'
        invariant
            i <= chars@.len(),
            chars@ == path@,
            last_slash(path@) == last_slash(chars@.subrange(0, i as int)),
        decreases i,
    {
        assert(chars@.subrange(0, i as int).drop_last() =~= chars@.subrange(0, i - 1));
        i = i - 1;
    }
    if i == 0 {
        assert(last_slash(chars@.subrange(0, 0)) == -1);
        owned(path)
    } else {
        assert(last_slash(chars@.subrange(0, i as int)) == i - 1);
        let n = chars.len();
        string_from_chars(&chars, i, n)
    }
}

/// The request that moves a file into a directory, keeping its name and
/// failing on a clash.
pub fn move_request(access_token: &str, path: &str, dest: &str) -> (r: (
    Vec<(String, String)>,
    Vec<(String, String)>,
))
    ensures
        pairs_view(r.0@) == file_operation_query(access_token@, "move"@),
        pairs_view(r.1@) == file_operation_form(
            json_object_array(seq![transfer_entry(path@, dest@)]),
            "fail"@,
        ),
{
    let entry = transfer_entry_pairs(path, dest);
    file_operation_request(access_token, "move", entry, "fail")
}

/// The request that copies a file into a directory, keeping its name and
/// failing on a clash.
pub fn copy_request(access_token: &str, path: &str, dest: &str) -> (r: (
    Vec<(String, String)>,
    Vec<(String, String)>,
))
    ensures
        pairs_view(r.0@) == file_operation_query(access_token@, "copy"@),
        pairs_view(r.1@) == file_operation_form(
            json_object_array(seq![transfer_entry(path@, dest@)]),
            "fail"@,
        ),
{
    let entry = transfer_entry_pairs(path, dest);
    file_operation_request(access_token, "copy", entry, "fail")
}

/// The outcome of a file operation: success, or the API error with the
/// response's code and the operation's message (such as "Rename failed").
pub fn file_operation_result(response: &FileOperationResponse, failure: &str) -> (r: NetDiskResult<()>)
    ensures
        response.errno == 0 ==> r is Ok,
        response.errno != 0 ==> (r matches Err(e) && is_api_error(
            e,
            response.errno,
            api_error_message(response.errno, failure@),
        )),
{
    if response.errno != 0 {
        return Err(NetDiskError::api_error(response.errno, failure));
    }
    Ok(())
}

} // verus!
