//! Errors of the server side, with the text and HTTP status each answers with.
use vstd::prelude::*;

verus! {

/// Errors while reading a multipart form.
#[derive(Debug)]
pub enum MultipartProcessingError {
    /// The field expected next is missing or has another name.
    InvalidField { name: String },
    /// A text field could not be read.
    FieldError,
    /// A file part could not be read.
    FileError,
    /// A file part has no usable file name.
    InvalidFile,
    /// The bytes of a file part could not be received.
    FileTransmissionError,
}

impl MultipartProcessingError {
    /// The text of this error.
    pub open spec fn message_spec(&self) -> Seq<char> {
        match self {
            MultipartProcessingError::InvalidField { name } => "Expected field "@ + name@
                + " is abscent"@,
            MultipartProcessingError::FieldError => "Error parsing field multipart data"@,
            MultipartProcessingError::FileError => "Error parsing file multipart data"@,
            MultipartProcessingError::InvalidFile => "Invalid form input. Exected file"@,
            MultipartProcessingError::FileTransmissionError => "File transmission error"@,
        }
    }

    /// The error's text.
    pub fn to_string(&self) -> (r: String)
        ensures
            r@ == self.message_spec(),
    {
        match self {
            MultipartProcessingError::InvalidField { name } => {
                let mut s = "Expected field ".to_owned();
                s.append(name.as_str());
                s.append(" is abscent");
                s
            },
            MultipartProcessingError::FieldError => "Error parsing field multipart data".to_owned(),
            MultipartProcessingError::FileError => "Error parsing file multipart data".to_owned(),
            MultipartProcessingError::InvalidFile => "Invalid form input. Exected file".to_owned(),
            MultipartProcessingError::FileTransmissionError => "File transmission error".to_owned(),
        }
    }

    /// Every multipart error is the client's: Bad Request.
    pub fn status_code(&self) -> (r: u16)
        ensures
            r == 400,
    {
        400
    }
}

/// Errors while receiving an uploaded file.
#[derive(Debug)]
pub enum UploadError {
    Multipart { source: MultipartProcessingError },
    EmptyFile,
    InternalFailure,
}

impl UploadError {
    /// The text of this error.
    pub open spec fn message_spec(&self) -> Seq<char> {
        match self {
            UploadError::Multipart { .. } => "Error processing multipart data"@,
            UploadError::EmptyFile => "Empty files not allowed"@,
            UploadError::InternalFailure => "Operation failed due to internal failure"@,
        }
    }

    /// The error's text.
    pub fn to_string(&self) -> (r: String)
        ensures
            r@ == self.message_spec(),
    {
        match self {
            UploadError::Multipart { .. } => "Error processing multipart data".to_owned(),
            UploadError::EmptyFile => "Empty files not allowed".to_owned(),
            UploadError::InternalFailure => "Operation failed due to internal failure".to_owned(),
        }
    }

    /// Bad Request for what the client sent, Internal Server Error for a
    /// failure of the server.
    pub fn status_code(&self) -> (r: u16)
        ensures
            r == (match self {
                UploadError::InternalFailure => 500u16,
                _ => 400u16,
            }),
    {
        match self {
            UploadError::Multipart { source } => source.status_code(),
            UploadError::EmptyFile => 400,
            UploadError::InternalFailure => 500,
        }
    }

    pub fn from_multipart(source: MultipartProcessingError) -> (r: UploadError)
        ensures
            r == (UploadError::Multipart { source }),
    {
        UploadError::Multipart { source }
    }
}

/// Errors of the name index.
#[derive(Debug)]
pub enum StorageError {
    DoesntExist,
}

impl StorageError {
    /// The error's text.
    pub fn to_string(&self) -> (r: String)
        ensures
            r@ == "Requested storage doesn't exist"@,
    {
        "Requested storage doesn't exist".to_owned()
    }

    /// A missing storage is Not Found.
    pub fn status_code(&self) -> (r: u16)
        ensures
            r == 404,
    {
        404
    }
}

/// Errors while serving a download.
#[derive(Debug)]
pub enum DownloadError {
    FileReadError,
}

impl DownloadError {
    /// The error's text.
    pub fn to_string(&self) -> (r: String)
        ensures
            r@ == "Error reading file"@,
    {
        "Error reading file".to_owned()
    }

    /// A read failure is the server's: Internal Server Error.
    pub fn status_code(&self) -> (r: u16)
        ensures
            r == 500,
    {
        500
    }
}

} // verus!
