//! Decisions of the server while it receives uploads: the form's fields, the
//! name a file part is stored under, the byte count of a received file and
//! the statuses answered for a request.
use vstd::prelude::*;
use crate::errors::{MultipartProcessingError, UploadError};
use crate::models::{Error, FileInfo, FileUploadStatus, UploadDate};

verus! {

/// Adds the length of a received chunk to the count of bytes written.
pub fn count_chunk(bytes_written: u64, chunk_len: usize) -> (r: u64)
    requires
        bytes_written + chunk_len <= u64::MAX,
    ensures
        r == bytes_written + chunk_len,
{
    bytes_written + chunk_len as u64
}

/// Ends the reception of a file of `bytes_written` bytes: a file with no
/// bytes is refused, any other is described by its metadata.
pub fn finish_upload(
    file_name: String,
    bytes_written: u64,
    upload_date: UploadDate,
    storage_path: String,
) -> (r: Result<FileInfo, UploadError>)
    ensures
        bytes_written == 0 <==> r is Err,
        r matches Err(e) ==> e is EmptyFile,
        r matches Ok(info) ==> info.name == file_name && info.size == bytes_written
            && info.upload_date == upload_date && info.storage_path == storage_path,
{
    if bytes_written == 0 {
        Err(UploadError::EmptyFile)
    } else {
        Ok(FileInfo { name: file_name, size: bytes_written, upload_date, storage_path })
    }
}

/// The status answered for one file: its metadata, or the error's text.
pub fn upload_status(res: Result<FileInfo, UploadError>) -> (r: FileUploadStatus)
    ensures
        res matches Ok(info) ==> r == FileUploadStatus::Success(info),
        res matches Err(e) ==> (r matches FileUploadStatus::Error(b) && b.error_msg@
            == e.message_spec()),
{
    match res {
        Ok(info) => FileUploadStatus::Success(info),
        Err(e) => FileUploadStatus::Error(Error { error_msg: e.to_string() }),
    }
}

/// The HTTP status of an upload request whose files ended with `results`:
/// that of the first error, or 200 when every file was received.
pub open spec fn upload_response_code(results: Seq<Result<FileInfo, UploadError>>) -> u16
    decreases results.len(),
{
    if results.len() == 0 {
        200
    } else {
        match results[0] {
            Err(e) => if e is InternalFailure { 500u16 } else { 400u16 },
            Ok(_) => upload_response_code(results.drop_first()),
        }
    }
}

/// The answer to an upload request: its HTTP status, and one status per file
/// in order.
pub fn upload_response(results: Vec<Result<FileInfo, UploadError>>) -> (r: (u16, Vec<FileUploadStatus>))
    ensures
        r.0 == upload_response_code(results@),
        r.1@.len() == results@.len(),
        forall|i: int|
            0 <= i < results@.len() ==> (results@[i] matches Ok(info) ==> #[trigger] r.1@[i]
                == FileUploadStatus::Success(info)),
        forall|i: int|
            0 <= i < results@.len() ==> (results@[i] matches Err(e) ==> (#[trigger] r.1@[i] matches FileUploadStatus::Error(b) && b.error_msg@
                == e.message_spec())),
{
    let ghost all = results@;
    let count = results.len();
    assert(count == all.len());
    assert(all.skip(0) =~= all);
    let mut rest = results;
    let mut statuses: Vec<FileUploadStatus> = Vec::new();
    let mut code: u16 = 200;
    let mut failed = false;
    let mut i: usize = 0;
    while rest.len() > 0
        invariant
            rest@ == all.skip(i as int),
            i <= all.len(),
            all.len() <= usize::MAX,
            statuses@.len() == i,
            failed ==> code == upload_response_code(all),
            !failed ==> code == 200,
            !failed ==> upload_response_code(all) == upload_response_code(all.skip(i as int)),
            forall|k: int|
                0 <= k < i ==> (all[k] matches Ok(info) ==> #[trigger] statuses@[k]
                    == FileUploadStatus::Success(info)),
            forall|k: int|
                0 <= k < i ==> (all[k] matches Err(e) ==> (#[trigger] statuses@[k] matches FileUploadStatus::Error(b) && b.error_msg@
                    == e.message_spec())),
        decreases rest.len(),
    {
        assert(all.skip(i as int).len() == all.len() - i);
        let res = rest.remove(0);
        assert(all.skip(i as int).drop_first() =~= all.skip(i + 1));
        if !failed {
            if let Err(e) = &res {
                code = e.status_code();
                failed = true;
            }
        }
        statuses.push(upload_status(res));
        i = i + 1;
    }
    assert(all.skip(i as int).len() == all.len() - i);
    (code, statuses)
}

/// The key phrase of an upload form: an empty one selects the public
/// namespace.
pub fn keyphrase_of(field: Option<String>) -> (r: Option<String>)
    ensures
        r == (match field {
            Some(k) => if k@.len() == 0 { None } else { Some(k) },
            None => None,
        }),
{
    match field {
        Some(k) => if k.as_str().is_empty() { None } else { Some(k) },
        None => None,
    }
}

/// Checks that the next text field of a form has the expected name.
pub fn check_field_name(field_name: &Option<String>, expected: &String) -> (r: Result<
    (),
    MultipartProcessingError,
>)
    ensures
        r is Ok <==> (field_name matches Some(n) && n@ == expected@),
        r matches Err(e) ==> (e matches MultipartProcessingError::InvalidField { name } && name@
            == expected@),
{
    match field_name {
        Some(n) => if *n == *expected {
            Ok(())
        } else {
            Err(MultipartProcessingError::InvalidField { name: expected.clone() })
        },
        None => Err(MultipartProcessingError::InvalidField { name: expected.clone() }),
    }
}

/// The part of a file name from its last '/' on, or the whole name when it
/// has none.
pub open spec fn last_segment(name: Seq<char>) -> Seq<char> {
    if exists|i: int| 0 <= i < name.len() && name[i] == '/' {
        let p = choose|i: int|
            0 <= i < name.len() && name[i] == '/' && forall|j: int|
                i < j < name.len() ==> name[j] != '/';
        name.subrange(p, name.len() as int)
    } else {
        name
    }
}

/// The name a file part is stored under: its file name from the last '/'
/// on; a part without a file name, or with an empty one, is refused.
pub fn upload_file_name(filename: Option<String>) -> (r: Result<String, MultipartProcessingError>)
    ensures
        r is Err <==> (filename is None || filename.unwrap()@.len() == 0),
        r matches Err(e) ==> e is InvalidFile,
        r matches Ok(n) ==> n@ == last_segment(filename.unwrap()@),
{
    match filename {
        None => Err(MultipartProcessingError::InvalidFile),
        Some(name) => {
            let s = name.as_str();
            assert(s@ == name@);
            assert(filename.unwrap() == name);
            let len = s.unicode_len();
            if len == 0 {
                return Err(MultipartProcessingError::InvalidFile);
            }
            let mut i: usize = len;
            while i > 0
                invariant
                    0 <= i <= len,
                    len == s@.len(),
                    filename == Some(name),
                    s@ == name@,
                    forall|j: int| i <= j < len ==> s@[j] != '/',
                decreases i,
            {
                if s.get_char(i - 1) == '/' {
                    let p = i - 1;
                    assert(s@[p as int] == '/');
                    assert(last_segment(s@) == s@.subrange(p as int, len as int));
                    return Ok(s.substring_char(p, len).to_owned());
                }
                i = i - 1;
            }
            Ok(name)
        },
    }
}

} // verus!
