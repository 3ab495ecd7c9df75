use flatpak_oci_tools::download::{parse_content_length, DownloadError};

#[test]
fn content_length_parses_decimal() {
    assert_eq!(parse_content_length(Some("10240")), Ok(10240));
    assert_eq!(parse_content_length(Some("0")), Ok(0));
    assert_eq!(parse_content_length(Some("+7")), Ok(7));
    assert_eq!(parse_content_length(Some("18446744073709551615")), Ok(u64::MAX));
}

#[test]
fn content_length_missing() {
    assert_eq!(parse_content_length(None), Err(DownloadError::MissingContentLength));
}

#[test]
fn content_length_invalid() {
    assert_eq!(parse_content_length(Some("")), Err(DownloadError::InvalidContentLength));
    assert_eq!(parse_content_length(Some("+")), Err(DownloadError::InvalidContentLength));
    assert_eq!(parse_content_length(Some("12a")), Err(DownloadError::InvalidContentLength));
    assert_eq!(parse_content_length(Some("-1")), Err(DownloadError::InvalidContentLength));
    assert_eq!(
        parse_content_length(Some("18446744073709551616")),
        Err(DownloadError::InvalidContentLength)
    );
}
