//! Decisions of the command-line client around its requests: which paths to
//! query, and what a server's answer means for one file.
use vstd::prelude::*;
use crate::models::FileUploadStatus;

verus! {

/// Why a download cannot start.
#[derive(Clone, Copy, Debug, PartialEq, Eq, Structural)]
pub enum DownloadRejection {
    /// The server has no such file (status 404).
    NotFound,
    /// The server refused with another status; its body says why.
    ServerError,
    /// The server did not declare the file's length.
    UnknownSize,
}

/// Whether an HTTP status means success.
pub open spec fn is_success_status(status: u16) -> bool {
    200 <= status < 300
}

/// Checks the head of a download response: with a success status and a
/// declared length, the transfer can start and the length is returned.
pub fn check_download_response(status: u16, content_length: Option<u64>) -> (r: Result<
    u64,
    DownloadRejection,
>)
    ensures
        is_success_status(status) && content_length is Some ==> r == Ok::<
            u64,
            DownloadRejection,
        >(content_length.unwrap()),
        is_success_status(status) && content_length is None ==> r == Err::<u64, DownloadRejection>(
            DownloadRejection::UnknownSize,
        ),
        !is_success_status(status) && status == 404 ==> r == Err::<u64, DownloadRejection>(
            DownloadRejection::NotFound,
        ),
        !is_success_status(status) && status != 404 ==> r == Err::<u64, DownloadRejection>(
            DownloadRejection::ServerError,
        ),
{
    if !(200 <= status && status < 300) {
        if status == 404 {
            Err(DownloadRejection::NotFound)
        } else {
            Err(DownloadRejection::ServerError)
        }
    } else {
        match content_length {
            Some(len) => Ok(len),
            None => Err(DownloadRejection::UnknownSize),
        }
    }
}

/// The text reported for a rejected download of `file_name`; `server_text`
/// is the body of the server's answer.
pub open spec fn rejection_message_spec(
    file_name: Seq<char>,
    rejection: DownloadRejection,
    server_text: Seq<char>,
) -> Seq<char> {
    match rejection {
        DownloadRejection::NotFound => file_name + " not found"@,
        DownloadRejection::ServerError => server_text,
        DownloadRejection::UnknownSize => file_name + " - unknown file size"@,
    }
}

/// The text reported for a rejected download.
pub fn rejection_message(
    file_name: &String,
    rejection: DownloadRejection,
    server_text: &String,
) -> (r: String)
    ensures
        r@ == rejection_message_spec(file_name@, rejection, server_text@),
{
    match rejection {
        DownloadRejection::NotFound => {
            let mut s = file_name.clone();
            s.append(" not found");
            s
        },
        DownloadRejection::ServerError => server_text.clone(),
        DownloadRejection::UnknownSize => {
            let mut s = file_name.clone();
            s.append(" - unknown file size");
            s
        },
    }
}

/// The status of the one file an upload request carried: the first of the
/// server's list, or an error when the list is empty.
pub fn first_status(statuses: Vec<FileUploadStatus>) -> (r: Result<FileUploadStatus, String>)
    ensures
        statuses@.len() == 0 <==> r is Err,
        r matches Err(e) ==> e@ == "Unexpected response from the server"@,
        r matches Ok(s) ==> s == statuses@[0],
{
    let mut statuses = statuses;
    if statuses.len() == 0 {
        Err("Unexpected response from the server".to_owned())
    } else {
        Ok(statuses.remove(0))
    }
}

/// Path, relative to the server's address, to list files: the public list,
/// or the private storage of `key_phrase`.
pub fn list_query_path(key_phrase: &Option<String>) -> (r: String)
    ensures
        key_phrase is None ==> r@ == Seq::<char>::empty(),
        key_phrase matches Some(k) ==> r@ == "private/"@ + k@,
{
    match key_phrase {
        Some(k) => {
            let mut s = "private/".to_owned();
            s.append(k.as_str());
            s
        },
        None => String::new(),
    }
}

/// Path, relative to the server's address, under which files are
/// downloaded: the public one, or the private storage of `key_phrase`.
pub fn download_query_path(key_phrase: &Option<String>) -> (r: String)
    ensures
        key_phrase is None ==> r@ == "api/download/"@,
        key_phrase matches Some(k) ==> r@ == "api/private/"@ + k@ + "/"@,
{
    match key_phrase {
        Some(k) => {
            let mut s = "api/private/".to_owned();
            s.append(k.as_str());
            s.append("/");
            s
        },
        None => "api/download/".to_owned(),
    }
}

/// Path, relative to the server's address, to upload files to.
pub fn upload_query_path() -> (r: String)
    ensures
        r@ == "api/upload"@,
{
    "api/upload".to_owned()
}

} // verus!
