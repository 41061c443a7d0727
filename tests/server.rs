use reshare::errors::{DownloadError, MultipartProcessingError, StorageError, UploadError};
use reshare::models::{FileInfo, FileUploadStatus, UploadDate};
use reshare::storage::FileStorage;
use reshare::upload::{
    check_field_name, count_chunk, finish_upload, keyphrase_of, upload_file_name, upload_response,
    upload_status,
};

fn info(name: &str, size: u64) -> FileInfo {
    FileInfo {
        name: name.to_string(),
        size,
        upload_date: UploadDate { millis_since_epoch: 0, utc_offset_secs: 0 },
        storage_path: format!("/store/{}", name),
    }
}

#[test]
fn public_namespace_add_get_list() {
    let mut s = FileStorage::new();
    assert!(s.list(&None).unwrap().is_empty());
    s.add_file(info("a.txt", 3), None);
    assert!(s.is_file_exists(&info("a.txt", 0), &None));
    assert!(!s.is_file_exists(&info("b.txt", 0), &None));
    let f = s.get_file("a.txt".to_string(), &None).unwrap();
    assert_eq!(f.size, 3);
    assert_eq!(f.storage_path, "/store/a.txt");
    assert!(s.get_file("b.txt".to_string(), &None).is_none());
    assert_eq!(s.list(&None).unwrap().len(), 1);
}

#[test]
fn same_name_is_not_added_twice() {
    let mut s = FileStorage::new();
    s.add_file(info("a.txt", 3), None);
    s.add_file(info("a.txt", 99), None);
    assert_eq!(s.list(&None).unwrap().len(), 1);
    assert_eq!(s.get_file("a.txt".to_string(), &None).unwrap().size, 3);
}

#[test]
fn private_namespaces_are_separate() {
    let mut s = FileStorage::new();
    let key = Some("secret".to_string());
    assert!(matches!(s.list(&key), Err(StorageError::DoesntExist)));
    s.add_file(info("p.txt", 5), key.clone());
    assert!(s.is_file_exists(&info("p.txt", 0), &key));
    assert!(!s.is_file_exists(&info("p.txt", 0), &None));
    assert!(!s.is_file_exists(&info("p.txt", 0), &Some("other".to_string())));
    assert_eq!(s.list(&key).unwrap().len(), 1);
    assert!(s.list(&None).unwrap().is_empty());
    assert!(s.get_file("p.txt".to_string(), &Some("other".to_string())).is_none());
    s.add_file(info("q.txt", 6), Some("other".to_string()));
    assert_eq!(s.list(&key).unwrap().len(), 1);
    assert_eq!(s.list(&Some("other".to_string())).unwrap().len(), 1);
}

#[test]
fn unique_names_count_up() {
    let mut s = FileStorage::new();
    let first = s.store_unique(&info("a.txt", 1), None);
    assert_eq!(first.name, "a.txt");
    let second = s.store_unique(&info("a.txt", 2), None);
    assert_eq!(second.name, "a.txt(1)");
    assert_eq!(second.size, 2);
    let third = s.store_unique(&info("a.txt", 3), None);
    assert_eq!(third.name, "a.txt(2)");
    assert_eq!(s.list(&None).unwrap().len(), 3);
    let private = s.store_unique(&info("a.txt", 4), Some("k".to_string()));
    assert_eq!(private.name, "a.txt");
    let u = s.unique_file_info(&info("b", 1), &Some("missing".to_string()));
    assert_eq!(u.name, "b");
}

#[test]
fn unique_name_after_ten() {
    let mut s = FileStorage::new();
    for _ in 0..12 {
        s.store_unique(&info("x", 1), None);
    }
    let next = s.unique_file_info(&info("x", 1), &None);
    assert_eq!(next.name, "x(12)");
}

#[test]
fn empty_upload_is_refused() {
    let date = UploadDate { millis_since_epoch: 5, utc_offset_secs: 3600 };
    match finish_upload("e.txt".to_string(), 0, date, "/p".to_string()) {
        Err(UploadError::EmptyFile) => {}
        _ => panic!("an empty file is refused"),
    }
    let ok = finish_upload("f.txt".to_string(), 12, date, "/p".to_string()).ok().unwrap();
    assert_eq!(ok.name, "f.txt");
    assert_eq!(ok.size, 12);
    assert_eq!(ok.upload_date, date);
    assert_eq!(ok.storage_path, "/p");
}

#[test]
fn chunk_counts_add_up() {
    assert_eq!(count_chunk(0, 10), 10);
    assert_eq!(count_chunk(10, 4096), 4106);
}

#[test]
fn upload_status_carries_message() {
    match upload_status(Err(UploadError::EmptyFile)) {
        FileUploadStatus::Error(e) => assert_eq!(e.error_msg, "Empty files not allowed"),
        _ => panic!("an error status"),
    }
    match upload_status(Ok(info("a", 1))) {
        FileUploadStatus::Success(i) => assert_eq!(i.name, "a"),
        _ => panic!("a success status"),
    }
}

#[test]
fn upload_response_codes() {
    let (code, statuses) = upload_response(vec![Ok(info("a", 1)), Ok(info("b", 2))]);
    assert_eq!(code, 200);
    assert_eq!(statuses.len(), 2);
    let (code, statuses) = upload_response(vec![Ok(info("a", 1)), Err(UploadError::EmptyFile)]);
    assert_eq!(code, 400);
    assert!(matches!(statuses[1], FileUploadStatus::Error(_)));
    let (code, _) = upload_response(vec![Err(UploadError::InternalFailure)]);
    assert_eq!(code, 500);
    let (code, statuses) = upload_response(vec![]);
    assert_eq!(code, 200);
    assert!(statuses.is_empty());
}

#[test]
fn empty_keyphrase_is_public() {
    assert_eq!(keyphrase_of(Some(String::new())), None);
    assert_eq!(keyphrase_of(None), None);
    assert_eq!(keyphrase_of(Some("k".to_string())), Some("k".to_string()));
}

#[test]
fn field_name_is_checked() {
    let expected = "keyphrase".to_string();
    assert!(check_field_name(&Some("keyphrase".to_string()), &expected).is_ok());
    match check_field_name(&Some("file".to_string()), &expected) {
        Err(e) => assert_eq!(e.to_string(), "Expected field keyphrase is abscent"),
        Ok(_) => panic!("wrong field"),
    }
    assert!(check_field_name(&None, &expected).is_err());
}

#[test]
fn stored_name_keeps_last_segment() {
    assert_eq!(upload_file_name(Some("dir/sub/a.txt".to_string())).ok().unwrap(), "/a.txt");
    assert_eq!(upload_file_name(Some("a.txt".to_string())).ok().unwrap(), "a.txt");
    assert_eq!(upload_file_name(Some("/".to_string())).ok().unwrap(), "/");
    assert!(matches!(upload_file_name(Some(String::new())), Err(MultipartProcessingError::InvalidFile)));
    assert!(matches!(upload_file_name(None), Err(MultipartProcessingError::InvalidFile)));
}

#[test]
fn error_texts_and_codes() {
    assert_eq!(UploadError::EmptyFile.to_string(), "Empty files not allowed");
    assert_eq!(UploadError::InternalFailure.to_string(), "Operation failed due to internal failure");
    let m = UploadError::from_multipart(MultipartProcessingError::FieldError);
    assert_eq!(m.to_string(), "Error processing multipart data");
    assert_eq!(m.status_code(), 400);
    assert_eq!(UploadError::EmptyFile.status_code(), 400);
    assert_eq!(UploadError::InternalFailure.status_code(), 500);
    assert_eq!(MultipartProcessingError::FieldError.to_string(), "Error parsing field multipart data");
    assert_eq!(MultipartProcessingError::FileError.to_string(), "Error parsing file multipart data");
    assert_eq!(MultipartProcessingError::InvalidFile.to_string(), "Invalid form input. Exected file");
    assert_eq!(MultipartProcessingError::FileTransmissionError.to_string(), "File transmission error");
    assert_eq!(MultipartProcessingError::InvalidFile.status_code(), 400);
    assert_eq!(StorageError::DoesntExist.to_string(), "Requested storage doesn't exist");
    assert_eq!(StorageError::DoesntExist.status_code(), 404);
    assert_eq!(DownloadError::FileReadError.to_string(), "Error reading file");
    assert_eq!(DownloadError::FileReadError.status_code(), 500);
}

#[test]
fn file_info_equality_is_by_name() {
    let a = info("same", 1);
    let mut b = info("same", 2);
    b.storage_path = "/elsewhere".to_string();
    assert!(a == b);
    assert!(a != info("other", 1));
    let k = FileInfo::from_name("k".to_string());
    assert_eq!(k.name, "k");
    assert_eq!(k.size, 0);
    assert!(k.storage_path.is_empty());
    let d = FileInfo::dummy();
    assert_eq!(d.name, "dummy-file-name.jpg");
    assert_eq!(d.size, 100500);
    assert_eq!(d.upload_date.millis_since_epoch, 1618315754274);
    assert_eq!(d.storage_path, "/");
    let r = d.renamed("n".to_string());
    assert_eq!(r.name, "n");
    assert_eq!(r.size, 100500);
}
