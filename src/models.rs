//! Values exchanged between client and server: file metadata, error bodies
//! and per-file upload statuses.
use vstd::prelude::*;

verus! {

/// A moment in time: milliseconds since the Unix epoch, with the offset from
/// UTC of the place where it was taken.
#[derive(Clone, Copy, Debug, PartialEq, Eq, Structural)]
pub struct UploadDate {
    pub millis_since_epoch: i64,
    pub utc_offset_secs: i32,
}

/// Relies on chrono::Local::now: the current local time; nothing is known of
/// its value but that a UTC offset is less than a day.
#[verifier::external_body]
fn local_now() -> (r: UploadDate)
    ensures
        -86400 < r.utc_offset_secs < 86400,
{
    let now = chrono::Local::now();
    UploadDate {
        millis_since_epoch: now.timestamp_millis(),
        utc_offset_secs: chrono::Offset::fix(now.offset()).local_minus_utc(),
    }
}

impl UploadDate {
    /// The current local time.
    pub fn now() -> (r: UploadDate)
        ensures
            -86400 < r.utc_offset_secs < 86400,
    {
        local_now()
    }
}

/// Metadata of a stored file. Two of them are the same file when their names
/// are equal.
#[derive(Debug)]
pub struct FileInfo {
    pub name: String,
    pub size: u64,
    pub upload_date: UploadDate,
    /// Where the server keeps the bytes; never sent to clients.
    pub storage_path: String,
}

impl PartialEq for FileInfo {
    fn eq(&self, rhs: &FileInfo) -> (r: bool) {
        self.name == rhs.name
    }
}

impl vstd::std_specs::cmp::PartialEqSpecImpl for FileInfo {
    open spec fn obeys_eq_spec() -> bool {
        true
    }

    open spec fn eq_spec(&self, rhs: &FileInfo) -> bool {
        self.name@ == rhs.name@
    }
}

impl FileInfo {
    /// A key to look a file up by name: size zero, the current date, no path.
    pub fn from_name(file_name: String) -> (r: FileInfo)
        ensures
            r.name@ == file_name@,
            r.size == 0,
            r.storage_path@.len() == 0,
    {
        FileInfo { name: file_name, size: 0, upload_date: UploadDate::now(), storage_path: String::new() }
    }

    /// A sample entry: "dummy-file-name.jpg", 100500 bytes, uploaded on
    /// 2021-04-13 at 12:09:14.274 UTC, stored at "/".
    pub fn dummy() -> (r: FileInfo)
        ensures
            r.name@ == "dummy-file-name.jpg"@,
            r.size == 100500,
            r.upload_date == (UploadDate { millis_since_epoch: 1618315754274, utc_offset_secs: 0 }),
            r.storage_path@ == "/"@,
    {
        FileInfo {
            name: "dummy-file-name.jpg".to_owned(),
            size: 100500,
            upload_date: UploadDate { millis_since_epoch: 1618315754274, utc_offset_secs: 0 },
            storage_path: "/".to_owned(),
        }
    }

    /// The same metadata under another name.
    pub fn renamed(&self, name: String) -> (r: FileInfo)
        ensures
            r.name == name,
            r.size == self.size,
            r.upload_date == self.upload_date,
            r.storage_path == self.storage_path,
    {
        FileInfo {
            name,
            size: self.size,
            upload_date: self.upload_date,
            storage_path: self.storage_path.clone(),
        }
    }

    /// A copy of this metadata.
    pub fn copied(&self) -> (r: FileInfo)
        ensures
            r.name == self.name,
            r.size == self.size,
            r.upload_date == self.upload_date,
            r.storage_path == self.storage_path,
    {
        self.renamed(self.name.clone())
    }
}

/// The body of an error response.
#[derive(Debug)]
pub struct Error {
    pub error_msg: String,
}

impl Error {
    /// The text shown for this error: its message.
    pub fn to_string(&self) -> (r: String)
        ensures
            r@ == self.error_msg@,
    {
        self.error_msg.clone()
    }
}

/// The server's answer for one uploaded file.
#[derive(Debug)]
pub enum FileUploadStatus {
    Success(FileInfo),
    Error(Error),
}

} // verus!
