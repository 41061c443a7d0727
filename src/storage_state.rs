//! The storage the front-end queries, and the request paths it derives from
//! it, with the key phrase percent-encoded.
use vstd::prelude::*;
use vstd::utf8::encode_utf8;

verus! {

/// Bytes kept as they are by percent-encoding: ASCII letters and digits,
/// '-', '.', '_' and '~'.
pub open spec fn is_unreserved(b: u8) -> bool {
    ||| 0x30 <= b <= 0x39
    ||| 0x41 <= b <= 0x5a
    ||| 0x61 <= b <= 0x7a
    ||| b == 0x2d
    ||| b == 0x2e
    ||| b == 0x5f
    ||| b == 0x7e
}

/// The uppercase hexadecimal digit for `d` (less than 16).
pub open spec fn hex_digit(d: u8) -> char {
    if d < 10 {
        (0x30 + d) as char
    } else {
        (0x41 + d - 10) as char
    }
}

/// Percent-encoding of `bytes`: an unreserved byte stands for itself, any
/// other becomes '%' and its two uppercase hexadecimal digits.
pub open spec fn percent_encoded(bytes: Seq<u8>) -> Seq<char>
    decreases bytes.len(),
{
    if bytes.len() == 0 {
        Seq::empty()
    } else {
        let b = bytes.last();
        percent_encoded(bytes.drop_last()) + if is_unreserved(b) {
            seq![b as char]
        } else {
            seq!['%', hex_digit(b / 16), hex_digit(b % 16)]
        }
    }
}

/// Relies on urlencoding::encode: percent-encodes each byte of the UTF-8 form
/// of its argument except ASCII alphanumerics and '-', '.', '_', '~', with
/// uppercase hexadecimal digits.
#[verifier::external_body]
fn url_encode(s: &str) -> (r: String)
    ensures
        r@ == percent_encoded(encode_utf8(s@)),
{
    urlencoding::encode(s).into_owned()
}

/// The storage the front-end queries.
#[derive(Debug)]
pub enum StorageState {
    Public,
    Private { key_phrase: String },
}

impl StorageState {
    /// Path to list the files of the storage.
    pub fn fetch_files_url(&self) -> (r: String)
        ensures
            self is Public ==> r@ == "/api/list"@,
            self matches StorageState::Private { key_phrase } ==> r@ == "/api/private/"@
                + percent_encoded(encode_utf8(key_phrase@)),
    {
        match self {
            StorageState::Public => "/api/list".to_owned(),
            StorageState::Private { key_phrase } => {
                let mut s = "/api/private/".to_owned();
                let k = url_encode(key_phrase.as_str());
                s.append(k.as_str());
                s
            },
        }
    }

    /// The path that file names are appended to for download links.
    pub fn download_url_root(&self) -> (r: String)
        ensures
            self is Public ==> r@ == "/api/download/"@,
            self matches StorageState::Private { key_phrase } ==> r@ == "/api/private/"@
                + percent_encoded(encode_utf8(key_phrase@)) + "/"@,
    {
        match self {
            StorageState::Public => "/api/download/".to_owned(),
            StorageState::Private { key_phrase } => {
                let mut s = "/api/private/".to_owned();
                let k = url_encode(key_phrase.as_str());
                s.append(k.as_str());
                s.append("/");
                s
            },
        }
    }

    /// The heading shown above the file list.
    pub fn to_string(&self) -> (r: String)
        ensures
            self is Public ==> r@ == "Contents of the public storage"@,
            self matches StorageState::Private { key_phrase } ==> r@ == key_phrase@,
    {
        match self {
            StorageState::Public => "Contents of the public storage".to_owned(),
            StorageState::Private { key_phrase } => key_phrase.clone(),
        }
    }

    /// A copy of this state.
    pub fn copied(&self) -> (r: StorageState)
        ensures
            self is Public ==> r is Public,
            self matches StorageState::Private { key_phrase } ==> (r matches StorageState::Private {
                key_phrase: k,
            } && k@ == key_phrase@),
    {
        match self {
            StorageState::Public => StorageState::Public,
            StorageState::Private { key_phrase } => StorageState::Private {
                key_phrase: key_phrase.clone(),
            },
        }
    }

    /// The storage selected by what was typed as key phrase: an empty one
    /// selects the public storage.
    pub fn from_key_phrase(key_phrase: String) -> (r: StorageState)
        ensures
            key_phrase@.len() == 0 ==> r is Public,
            key_phrase@.len() > 0 ==> r == (StorageState::Private { key_phrase }),
    {
        if key_phrase.as_str().is_empty() {
            StorageState::Public
        } else {
            StorageState::Private { key_phrase }
        }
    }
}

} // verus!
