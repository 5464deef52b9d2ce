use pingo::file_server::{
    guess_mime, matches_id, mime_of_extension, mime_to_ext, route, FileServer, FileServerError,
    Route, ALLOW_METHODS, ALLOW_ORIGIN, BANNER, DEFAULT_MIME, NOT_FOUND, PREFERRED_PORT,
};

#[test]
fn data_url_is_taken_apart() {
    let server = FileServer::new("/data/Pingo/shared_files".to_string());
    let blob = server.store_data_url("f1", "data:image/png;base64,aGVsbG8=").unwrap();
    assert_eq!(blob.mime_type, "image/png");
    assert_eq!(blob.stored_name, "f1.png");
    assert_eq!(blob.bytes, b"hello");
}

#[test]
fn data_url_without_parameters_or_scheme() {
    let server = FileServer::new(".".to_string());
    let blob = server.store_data_url("a", "data:video/mp4,AAEC").unwrap();
    assert_eq!(blob.mime_type, "video/mp4");
    assert_eq!(blob.stored_name, "a.mp4");
    assert_eq!(blob.bytes, vec![0, 1, 2]);
    let blob = server.store_data_url("b", "image/png;base64,AAEC").unwrap();
    assert_eq!(blob.mime_type, DEFAULT_MIME);
    assert_eq!(blob.stored_name, "b.bin");
    let blob = server.store_data_url("c", "data:;base64,").unwrap();
    assert_eq!(blob.mime_type, "");
    assert_eq!(blob.stored_name, "c.bin");
    assert!(blob.bytes.is_empty());
    let blob = server.store_data_url("d", "data:text/plain;charset=utf-8;base64,QQ==").unwrap();
    assert_eq!(blob.mime_type, "text/plain");
    assert_eq!(blob.bytes, b"A");
}

#[test]
fn data_url_errors() {
    let server = FileServer::new(".".to_string());
    assert_eq!(
        server.store_data_url("x", "data:image/png;base64").err(),
        Some(FileServerError::InvalidDataUrl)
    );
    assert_eq!(server.store_data_url("x", "").err(), Some(FileServerError::InvalidDataUrl));
    match server.store_data_url("x", "data:image/png;base64,@@@@") {
        Err(error) => {
            assert_eq!(
                error,
                FileServerError::InvalidEncoding { detail: "Invalid symbol 64, offset 0.".into() }
            );
            assert_eq!(error.message(), "Base64 decode error: Invalid symbol 64, offset 0.");
        }
        Ok(blob) => panic!("unexpected {:?}", blob),
    }
    assert!(matches!(
        server.store_data_url("x", "data:image/png;base64,aGVsbG8=,extra"),
        Err(FileServerError::InvalidEncoding { .. })
    ));
    assert_eq!(FileServerError::InvalidDataUrl.message(), "Invalid data URL");
}

#[test]
fn extensions_follow_the_mime_type() {
    assert_eq!(mime_to_ext("image/png"), "png");
    assert_eq!(mime_to_ext("image/jpeg"), "jpg");
    assert_eq!(mime_to_ext("image/jpg"), "jpg");
    assert_eq!(mime_to_ext("image/gif"), "gif");
    assert_eq!(mime_to_ext("image/svg+xml"), "svg");
    assert_eq!(mime_to_ext("image/webp"), "webp");
    assert_eq!(mime_to_ext("video/mp4"), "mp4");
    assert_eq!(mime_to_ext("video/webm"), "webm");
    assert_eq!(mime_to_ext("application/pdf"), "pdf");
    assert_eq!(mime_to_ext("application/zip"), "zip");
    assert_eq!(mime_to_ext("IMAGE/PNG"), "bin");
    assert_eq!(mime_to_ext("text/plain"), "bin");
    assert_eq!(FileServer::stored_name("id", "application/pdf"), "id.pdf");
}

#[test]
fn mime_is_guessed_from_the_last_extension() {
    assert_eq!(guess_mime("photo.PNG"), "image/png");
    assert_eq!(guess_mime("a.b.jpeg"), "image/jpeg");
    assert_eq!(guess_mime("a.jpg"), "image/jpeg");
    assert_eq!(guess_mime("anim.gif"), "image/gif");
    assert_eq!(guess_mime("v.svg"), "image/svg+xml");
    assert_eq!(guess_mime("v.webp"), "image/webp");
    assert_eq!(guess_mime("clip.mp4"), "video/mp4");
    assert_eq!(guess_mime("clip.webm"), "video/webm");
    assert_eq!(guess_mime("doc.pdf"), "application/pdf");
    assert_eq!(guess_mime("all.zip"), "application/zip");
    assert_eq!(guess_mime("noext"), "application/octet-stream");
    assert_eq!(guess_mime("png"), "image/png");
    assert_eq!(guess_mime("trailing."), "application/octet-stream");
    assert_eq!(guess_mime(""), "application/octet-stream");
    assert_eq!(mime_of_extension("PNG"), "application/octet-stream");
}

#[test]
fn registry_serves_what_was_registered() {
    let mut server = FileServer::new("/store".to_string());
    assert_eq!(server.get_storage_dir(), "/store");
    assert_eq!(server.get_port(), 0);
    server.register_file("f1", "/downloads/pic.PNG", "pic.PNG");
    assert_eq!(server.get_file_url("f1"), None);
    assert_eq!(server.start(18080), Ok(18080));
    assert_eq!(server.get_port(), 18080);
    assert_eq!(server.get_file_url("f1"), Some("http://0.0.0.0:18080/file/f1".to_string()));
    assert_eq!(server.get_file_url("f2"), None);
    let stored = server.lookup("f1").unwrap();
    assert_eq!(stored.id, "f1");
    assert_eq!(stored.path, "/downloads/pic.PNG");
    assert_eq!(stored.mime_type, "image/png");
    assert_eq!(stored.file_name, "pic.PNG");
    assert!(server.lookup("f2").is_none());
    server.register_file("f1", "/downloads/other.zip", "other.zip");
    assert_eq!(server.lookup("f1").unwrap().mime_type, "application/zip");
}

#[test]
fn store_bytes_records_the_given_mime_type() {
    let mut server = FileServer::new("/store".to_string());
    let id = server.store_bytes("f9", "/store/f9.bin", "thing.dat", "application/x-thing");
    assert_eq!(id, "f9");
    let stored = server.lookup("f9").unwrap();
    assert_eq!(stored.mime_type, "application/x-thing");
    assert_eq!(stored.file_name, "thing.dat");
    assert_eq!(stored.path, "/store/f9.bin");
}

#[test]
fn port_zero_is_refused() {
    let mut server = FileServer::new("/store".to_string());
    assert_eq!(server.start(0), Err(FileServerError::PortZero));
    assert_eq!(server.get_port(), 0);
    assert_eq!(server.start(40000), Ok(40000));
    assert_eq!(server.start(0), Err(FileServerError::PortZero));
    assert_eq!(server.get_port(), 40000);
    assert_eq!(PREFERRED_PORT, 18080);
}

#[test]
fn requests_are_routed() {
    assert!(matches!(route(true, "/file/abc"), Route::Preflight));
    assert!(matches!(route(true, "/"), Route::Preflight));
    assert!(matches!(route(false, "/file/abc"), Route::File { file_id } if file_id == "abc"));
    assert!(matches!(route(false, "/file/abc/"), Route::File { file_id } if file_id == "abc"));
    assert!(matches!(route(false, "/file///abc//"), Route::File { file_id } if file_id == "abc"));
    assert!(matches!(route(false, "/file/a/b"), Route::File { file_id } if file_id == "a/b"));
    assert!(matches!(route(false, "/file/"), Route::File { file_id } if file_id.is_empty()));
    assert!(matches!(route(false, "/file///"), Route::File { file_id } if file_id.is_empty()));
    assert!(matches!(route(false, "/file"), Route::Banner));
    assert!(matches!(route(false, "/"), Route::Banner));
    assert!(matches!(route(false, "/files/abc"), Route::Banner));
    assert!(matches!(route(false, ""), Route::Banner));
}

#[test]
fn files_on_disk_belong_to_an_identifier_by_prefix() {
    assert!(matches_id("abc.png", "abc"));
    assert!(matches_id("abc", "abc"));
    assert!(matches_id("abcdef.bin", "abc"));
    assert!(matches_id("anything", ""));
    assert!(!matches_id("ab", "abc"));
    assert!(!matches_id("xabc.png", "abc"));
}

#[test]
fn header_values_are_fixed() {
    assert_eq!(ALLOW_ORIGIN, "*");
    assert_eq!(ALLOW_METHODS, "GET, OPTIONS");
    assert_eq!(BANNER, "Pingo File Server");
    assert_eq!(NOT_FOUND, "Not found");
}

#[test]
fn a_data_url_is_cut_at_its_first_comma() {
    assert_eq!(
        FileServer::parse_data_url("data:image/png;base64,aGVs,bG8="),
        Some(("image/png".to_string(), "aGVs,bG8=".to_string()))
    );
    assert_eq!(FileServer::parse_data_url(","), Some((DEFAULT_MIME.to_string(), String::new())));
    assert_eq!(FileServer::parse_data_url("data:image/png;base64"), None);
}
