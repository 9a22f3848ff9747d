use ifsc_proxy::{extract_credential, ProxyError};

#[test]
fn token_from_meta_line() {
    let page = "<meta name=\"csrf-token\" content=\"abc123\">";
    assert_eq!(extract_credential(page), Ok("abc123".to_string()));
}

#[test]
fn token_with_attributes_swapped() {
    let page = "<html>\n<meta content=\"xyz\" name=\"csrf-token\">\n</html>";
    assert_eq!(extract_credential(page), Ok("xyz".to_string()));
}

#[test]
fn first_marked_line_wins() {
    let page = "<meta name=\"csrf-token\" content=\"one\">\n<meta name=\"csrf-token\" content=\"two\">";
    assert_eq!(extract_credential(page), Ok("one".to_string()));
}

#[test]
fn first_content_on_line_wins() {
    let page = "<meta content=\"a1\" name=\"csrf-token\" content=\"b2\">";
    assert_eq!(extract_credential(page), Ok("a1".to_string()));
}

#[test]
fn content_on_other_line_is_ignored() {
    let page = "<meta content=\"early\">\n<meta name=\"csrf-token\">\n<meta content=\"late\">";
    assert_eq!(extract_credential(page), Err(ProxyError::CredentialNotFound));
}

#[test]
fn no_marker_is_not_found() {
    let page = "<html><head><title>x</title></head></html>";
    assert_eq!(extract_credential(page), Err(ProxyError::CredentialNotFound));
}

#[test]
fn empty_page_is_not_found() {
    assert_eq!(extract_credential(""), Err(ProxyError::CredentialNotFound));
}

#[test]
fn unterminated_value_is_not_found() {
    let page = "<meta name=\"csrf-token\" content=\"abc";
    assert_eq!(extract_credential(page), Err(ProxyError::CredentialNotFound));
}

#[test]
fn empty_value_is_not_found() {
    let page = "<meta name=\"csrf-token\" content=\"\">";
    assert_eq!(extract_credential(page), Err(ProxyError::CredentialNotFound));
}

#[test]
fn crlf_lines_and_wide_characters() {
    let page = "<head>\r\n<meta name=\"csrf-token\" content=\"t\u{e9}k/+=\u{1F600}\">\r\n</head>\r\n";
    assert_eq!(extract_credential(page), Ok("t\u{e9}k/+=\u{1F600}".to_string()));
}

#[test]
fn error_messages_are_not_empty() {
    assert!(!ProxyError::UpstreamUnavailable.message().is_empty());
    assert!(!ProxyError::CredentialNotFound.message().is_empty());
    assert!(!ProxyError::UpstreamReadError.message().is_empty());
}
