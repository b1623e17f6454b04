use pluginstall::session::{
    response_content_disposition_file_name, response_downloaded_file_ttl,
    ContentDispositionFilenameError,
};
use pluginstall::util::validate_file_name;

#[test]
fn file_name_from_content_disposition() {
    assert_eq!(
        response_content_disposition_file_name(Some(b"attachment; filename=\"Foo-1.2.jar\"")),
        Ok("Foo-1.2.jar".to_string())
    );
    assert_eq!(
        response_content_disposition_file_name(Some(b"attachment; name=x; filename=plugin.jar")),
        Ok("plugin.jar".to_string())
    );
}

#[test]
fn missing_or_broken_content_disposition() {
    assert_eq!(
        response_content_disposition_file_name(None),
        Err(ContentDispositionFilenameError::Missing)
    );
    assert_eq!(
        response_content_disposition_file_name(Some(b"attachment")),
        Err(ContentDispositionFilenameError::Parse)
    );
    assert_eq!(
        response_content_disposition_file_name(Some(b"")),
        Err(ContentDispositionFilenameError::Parse)
    );
    assert_eq!(
        response_content_disposition_file_name(Some(b"attachment; filename")),
        Err(ContentDispositionFilenameError::Parse)
    );
}

#[test]
fn path_escaping_file_names_are_rejected() {
    for name in ["../../evil", "sub/dir/file", "/etc/passwd", "..", ".", "dir/"] {
        let header = format!("attachment; filename=\"{name}\"");
        assert_eq!(
            response_content_disposition_file_name(Some(header.as_bytes())),
            Err(ContentDispositionFilenameError::InvalidFilename(name.to_string()))
        );
    }
}

#[test]
fn file_name_validation() {
    for valid in [".hello.txt", "valid", "somefile.jar", ".lots.of.dots", "..."] {
        assert!(validate_file_name(valid), "{valid}");
    }
    for invalid in [
        "/long/big/path",
        "subdirectory/file.exe",
        "directory/",
        "/invalid.json",
        "/",
        ".",
        "..",
        "",
    ] {
        assert!(!validate_file_name(invalid), "{invalid}");
    }
}

#[test]
fn ttl_from_cache_control() {
    assert_eq!(response_downloaded_file_ttl(None), Ok(None));
    assert_eq!(response_downloaded_file_ttl(Some(b"max-age=60")), Ok(Some(60)));
    assert_eq!(
        response_downloaded_file_ttl(Some(b"public, max-age=0, max-age=120")),
        Ok(Some(120))
    );
    assert_eq!(response_downloaded_file_ttl(Some(b"public")), Ok(None));
    assert_eq!(
        response_downloaded_file_ttl(Some(b"no-store, max-age=60")),
        Ok(None)
    );
    assert_eq!(
        response_downloaded_file_ttl(Some(b"max-age=60, no-cache")),
        Ok(None)
    );
    assert!(response_downloaded_file_ttl(Some(b"")).is_err());
    assert!(response_downloaded_file_ttl(Some(b" , ")).is_err());
}

#[test]
fn invalid_utf8_in_file_name_is_replaced() {
    assert_eq!(
        response_content_disposition_file_name(Some(b"attachment; filename*=UTF-8''a%FFb.jar")),
        Ok("a\u{FFFD}b.jar".to_string())
    );
}
