//! State of the browser front-end: which storage is shown.
use vstd::prelude::*;
use crate::models::FileInfo;

verus! {

/// The storage being browsed: the public one, or a private one by key phrase.
#[derive(Debug)]
pub enum StorageState {
    Public,
    Private { key_phrase: String },
}

impl StorageState {
    /// The heading shown above the file list.
    pub fn to_string(&self) -> (r: String)
        ensures
            self is Public ==> r@ == "Contents of the public storage"@,
            self matches StorageState::Private { key_phrase } ==> r@ == key_phrase@,
    {
        match self {
            StorageState::Public => "Contents of the public storage".to_owned(),
            StorageState::Private { key_phrase } => key_phrase.clone(),
        }
    }
}

/// State of the front-end.
#[derive(Debug)]
pub struct AppState {
    pub storage_state: StorageState,
}

impl AppState {
    /// Starts on the public storage.
    pub fn default() -> (r: AppState)
        ensures
            r.storage_state is Public,
    {
        AppState { storage_state: StorageState::Public }
    }

    /// The files shown: the sample entry for the public storage, none for a
    /// private one.
    pub fn fetch_files(&self) -> (r: Result<Vec<FileInfo>, ()>)
        ensures
            r is Ok,
            self.storage_state is Public ==> (r matches Ok(v) && v@.len() == 1 && v@[0].name@
                == "dummy-file-name.jpg"@ && v@[0].size == 100500),
            self.storage_state is Private ==> (r matches Ok(v) && v@.len() == 0),
    {
        match &self.storage_state {
            StorageState::Public => {
                let mut v = Vec::new();
                v.push(FileInfo::dummy());
                Ok(v)
            },
            StorageState::Private { .. } => Ok(Vec::new()),
        }
    }

    /// The path that file names are appended to for download links.
    pub fn download_url_root(&self) -> (r: String)
        ensures
            self.storage_state is Public ==> r@ == "/api/download/"@,
            self.storage_state matches StorageState::Private { key_phrase } ==> r@
                == "/api/private/"@ + key_phrase@ + "/"@,
    {
        match &self.storage_state {
            StorageState::Public => "/api/download/".to_owned(),
            StorageState::Private { key_phrase } => {
                let mut s = "/api/private/".to_owned();
                s.append(key_phrase.as_str());
                s.append("/");
                s
            },
        }
    }
}

} // verus!
