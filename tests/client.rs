use reshare::app_state::{self, AppState};
use reshare::cli::check_configuration;
use reshare::client::{
    check_download_response, download_query_path, first_status, list_query_path,
    rejection_message, upload_query_path, DownloadRejection,
};
use reshare::models::{Error, FileUploadStatus};
use reshare::naming::{candidate_name, decimal};
use reshare::storage_state::StorageState;
use reshare::utils::{NeqAssign, OptionExt, StreamMap};

#[test]
fn download_response_checks() {
    assert_eq!(check_download_response(200, Some(10)), Ok(10));
    assert_eq!(check_download_response(204, Some(0)), Ok(0));
    assert_eq!(check_download_response(200, None), Err(DownloadRejection::UnknownSize));
    assert_eq!(check_download_response(404, Some(3)), Err(DownloadRejection::NotFound));
    assert_eq!(check_download_response(500, Some(3)), Err(DownloadRejection::ServerError));
    assert_eq!(check_download_response(302, None), Err(DownloadRejection::ServerError));
}

#[test]
fn rejection_texts() {
    let name = "a.txt".to_string();
    let body = "Requested storage doesn't exist".to_string();
    assert_eq!(rejection_message(&name, DownloadRejection::NotFound, &body), "a.txt not found");
    assert_eq!(rejection_message(&name, DownloadRejection::UnknownSize, &body), "a.txt - unknown file size");
    assert_eq!(rejection_message(&name, DownloadRejection::ServerError, &body), body);
}

#[test]
fn first_status_of_answer() {
    match first_status(Vec::new()) {
        Err(e) => assert_eq!(e, "Unexpected response from the server"),
        Ok(_) => panic!("an empty answer is unexpected"),
    }
    let s = first_status(vec![
        FileUploadStatus::Error(Error { error_msg: "first".to_string() }),
        FileUploadStatus::Error(Error { error_msg: "second".to_string() }),
    ]);
    match s {
        Ok(FileUploadStatus::Error(e)) => assert_eq!(e.to_string(), "first"),
        _ => panic!("the first status"),
    }
}

#[test]
fn query_paths() {
    assert_eq!(list_query_path(&None), "");
    assert_eq!(list_query_path(&Some("k".to_string())), "private/k");
    assert_eq!(download_query_path(&None), "api/download/");
    assert_eq!(download_query_path(&Some("k".to_string())), "api/private/k/");
    assert_eq!(upload_query_path(), "api/upload");
}

#[test]
fn configuration_must_not_be_empty() {
    match check_configuration(String::new()) {
        Err(e) => assert_eq!(e, "Configuration file is empty"),
        Ok(_) => panic!("empty configuration"),
    }
    assert_eq!(check_configuration("http://h:8080/".to_string()), Ok("http://h:8080/".to_string()));
}

#[test]
fn decimal_and_candidates() {
    assert_eq!(decimal(0), "0");
    assert_eq!(decimal(7), "7");
    assert_eq!(decimal(12345), "12345");
    assert_eq!(decimal(u64::MAX), u64::MAX.to_string());
    let n = "file.txt".to_string();
    assert_eq!(candidate_name(&n, 0), "file.txt");
    assert_eq!(candidate_name(&n, 1), "file.txt(1)");
    assert_eq!(candidate_name(&n, 10), "file.txt(10)");
}

#[test]
fn front_end_state() {
    let s = AppState::default();
    assert!(matches!(s.storage_state, app_state::StorageState::Public));
    assert_eq!(s.download_url_root(), "/api/download/");
    let files = s.fetch_files().unwrap();
    assert_eq!(files.len(), 1);
    assert_eq!(files[0].name, "dummy-file-name.jpg");
    let p = AppState { storage_state: app_state::StorageState::Private { key_phrase: "my key".to_string() } };
    assert_eq!(p.download_url_root(), "/api/private/my key/");
    assert!(p.fetch_files().unwrap().is_empty());
    assert_eq!(p.storage_state.to_string(), "my key");
    assert_eq!(s.storage_state.to_string(), "Contents of the public storage");
}

#[test]
fn storage_state_encodes_key_phrase() {
    let p = StorageState::Private { key_phrase: "my key/é~".to_string() };
    assert_eq!(p.fetch_files_url(), "/api/private/my%20key%2F%C3%A9~");
    assert_eq!(p.download_url_root(), "/api/private/my%20key%2F%C3%A9~/");
    let plain = StorageState::Private { key_phrase: "abc-1.2_3".to_string() };
    assert_eq!(plain.fetch_files_url(), "/api/private/abc-1.2_3");
    assert_eq!(StorageState::Public.fetch_files_url(), "/api/list");
    assert_eq!(StorageState::Public.download_url_root(), "/api/download/");
    assert_eq!(StorageState::Public.to_string(), "Contents of the public storage");
    assert_eq!(p.to_string(), "my key/é~");
    assert!(matches!(StorageState::from_key_phrase(String::new()), StorageState::Public));
    match StorageState::from_key_phrase("k".to_string()).copied() {
        StorageState::Private { key_phrase } => assert_eq!(key_phrase, "k"),
        StorageState::Public => panic!("a key phrase selects a private storage"),
    }
}

#[test]
fn option_ok_or_try() {
    let r: Result<i32, String> = Some(3).ok_or_try(|| Err("unused".to_string()));
    assert_eq!(r, Ok(3));
    let r: Result<i32, String> = None.ok_or_try(|| Ok(9));
    assert_eq!(r, Ok(9));
    let r: Result<i32, String> = None.ok_or_try(|| Err("asked".to_string()));
    assert_eq!(r, Err("asked".to_string()));
}

#[test]
fn neq_assign_reports_change() {
    let mut x = 5u32;
    assert!(!x.neq_assign(5));
    assert_eq!(x, 5);
    assert!(x.neq_assign(6));
    assert_eq!(x, 6);
}

#[test]
fn stream_map_lends_stream() {
    let mut m = StreamMap::new(vec![1, 2]);
    assert_eq!(m.as_ref(), &vec![1, 2]);
    m.as_mut().push(3);
    assert_eq!(m.into_inner(), vec![1, 2, 3]);
}
