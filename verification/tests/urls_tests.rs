use claudit::urls::{validate_open_url, UrlError};

#[test]
fn plain_http_and_https_urls_pass() {
    assert_eq!(validate_open_url("https://example.com"), Ok(()));
    assert_eq!(validate_open_url("http://example.com/path?q=1#frag"), Ok(()));
    assert_eq!(validate_open_url("https://a"), Ok(()));
}

#[test]
fn other_schemes_are_refused() {
    assert_eq!(validate_open_url("ftp://example.com"), Err(UrlError::NotHttp));
    assert_eq!(validate_open_url("file:///etc/passwd"), Err(UrlError::NotHttp));
    assert_eq!(validate_open_url("example.com"), Err(UrlError::NotHttp));
    assert_eq!(validate_open_url(""), Err(UrlError::NotHttp));
    assert_eq!(validate_open_url("https:/half"), Err(UrlError::NotHttp));
}

#[test]
fn a_scheme_without_a_host_is_refused() {
    assert_eq!(validate_open_url("https://"), Err(UrlError::MissingHost));
    assert_eq!(validate_open_url("http://"), Err(UrlError::MissingHost));
    assert_eq!(validate_open_url("https:///path"), Err(UrlError::MissingHost));
}

#[test]
fn shell_metacharacters_are_refused() {
    assert_eq!(validate_open_url("https://a;rm -rf"), Err(UrlError::BadChars));
    assert_eq!(validate_open_url("https://a|b"), Err(UrlError::BadChars));
    assert_eq!(validate_open_url("https://a$(x)"), Err(UrlError::BadChars));
    assert_eq!(validate_open_url("https://a`b`"), Err(UrlError::BadChars));
    assert_eq!(validate_open_url("https://a\nb"), Err(UrlError::BadChars));
    assert_eq!(validate_open_url("https://a<b>"), Err(UrlError::BadChars));
}

#[test]
fn url_refusals_have_their_display_strings() {
    assert_eq!(UrlError::NotHttp.message(), "Only HTTP/HTTPS URLs are allowed");
    assert_eq!(UrlError::MissingHost.message(), "Invalid URL: missing host");
    assert_eq!(UrlError::BadChars.message(), "URL contains invalid characters");
}
