use folkers_core::store::{
    get_content_type, get_file_extension, StoreDir, UploadSession, MAX_FILE_SIZE,
};

#[test]
fn extensions_follow_the_allowlist() {
    assert_eq!(get_file_extension("image/jpeg"), "jpg");
    assert_eq!(get_file_extension("image/png"), "png");
    assert_eq!(get_file_extension("image/gif"), "gif");
    assert_eq!(get_file_extension("image/webp"), "webp");
    assert_eq!(get_file_extension("image/svg+xml"), "svg");
    assert_eq!(get_file_extension("application/pdf"), "bin");
    assert_eq!(get_file_extension(""), "bin");
}

#[test]
fn content_types_follow_the_extension() {
    assert_eq!(get_content_type("abc.jpg"), "image/jpeg");
    assert_eq!(get_content_type("abc.jpeg"), "image/jpeg");
    assert_eq!(get_content_type("abc.png"), "image/png");
    assert_eq!(get_content_type("abc.gif"), "image/gif");
    assert_eq!(get_content_type("abc.webp"), "image/webp");
    assert_eq!(get_content_type("abc.svg"), "image/svg+xml");
    assert_eq!(get_content_type("abc.txt"), "application/octet-stream");
    assert_eq!(get_content_type("abc"), "application/octet-stream");
}

#[test]
fn upload_hash_matches_published_digest() {
    let mut session = UploadSession::start("application/octet-stream");
    assert!(session.ingest(b"abc"));
    let (hash, filename) = session.finish();
    assert_eq!(hash, "ba7816bf8f01cfea414140de5dae2223b00361a396177a9cb410ff61f20015ad");
    assert_eq!(filename, format!("{hash}.bin"));
}

#[test]
fn chunked_and_whole_uploads_hash_alike() {
    let mut whole = UploadSession::start("image/png");
    assert!(whole.ingest(b"0123456789"));
    let mut chunked = UploadSession::start("image/png");
    assert!(chunked.ingest(b"01234"));
    assert!(chunked.ingest(b"56789"));
    let (whole_hash, whole_name) = whole.finish();
    let (chunked_hash, chunked_name) = chunked.finish();
    assert_eq!(whole_hash, chunked_hash);
    assert_eq!(whole_name, chunked_name);
}

#[test]
fn oversized_uploads_are_refused() {
    let mut session = UploadSession::start("image/png");
    let chunk = vec![7u8; MAX_FILE_SIZE];
    assert!(session.ingest(&chunk));
    assert!(!session.ingest(b"x"));
    let mut tiny = UploadSession::start("image/png");
    assert!(tiny.ingest(b"x"));
}

#[test]
fn identical_uploads_resolve_to_one_stored_file() {
    let payload = [42u8; 10];
    let mut first = UploadSession::start("image/png");
    assert!(first.ingest(&payload));
    let (first_hash, first_name) = first.finish();
    let mut second = UploadSession::start("image/png");
    assert!(second.ingest(&payload));
    let (second_hash, second_name) = second.finish();
    assert_eq!(first_hash, second_hash);
    assert_eq!(first_name, second_name);
    assert!(first_name.ends_with(".png"));

    let mut dir = StoreDir::new();
    assert!(dir.finalize(&first_name));
    assert!(!dir.finalize(&second_name));
    assert!(dir.has_name(&first_name));
}

#[test]
fn lookup_is_by_hash_prefix() {
    let mut dir = StoreDir::new();
    let mut session = UploadSession::start("image/png");
    assert!(session.ingest(b"lookup me"));
    let (hash, name) = session.finish();
    assert!(dir.finalize(&name));
    assert_eq!(dir.find_prefix(&hash).as_deref(), Some(name.as_str()));
    let prefix = &hash[..8];
    assert_eq!(dir.find_prefix(prefix).as_deref(), Some(name.as_str()));
    assert_eq!(dir.find_prefix("ffffffff"), None);
}

#[test]
fn different_payloads_get_different_names() {
    let mut first = UploadSession::start("image/png");
    assert!(first.ingest(b"payload one"));
    let mut second = UploadSession::start("image/png");
    assert!(second.ingest(b"payload two"));
    let (first_hash, _) = first.finish();
    let (second_hash, _) = second.finish();
    assert_ne!(first_hash, second_hash);
    assert_eq!(first_hash.len(), 64);
    assert_eq!(second_hash.len(), 64);
}
