use cmdcc::capture::link_to_save;
use cmdcc::canvas::SaveError;
use cmdcc::url::is_url;

#[test]
fn url_examples() {
    assert!(is_url("https://example.com/a"));
    assert!(!is_url("not a url"));
    assert!(!is_url("ftp://x"));
    assert!(!is_url("http://a b"));
}

#[test]
fn url_schemes_and_boundaries() {
    assert!(is_url("ftp://xy"));
    assert!(is_url("http://ab"));
    assert!(!is_url("http://"));
    assert!(!is_url("https://.example.com"));
    assert!(!is_url("https:///path"));
    assert!(!is_url("https://?q"));
    assert!(!is_url("https://#x"));
    assert!(!is_url("https://$x"));
    assert!(!is_url("gopher://example.com"));
}

#[test]
fn url_is_matched_whole_and_untrimmed() {
    assert!(!is_url(" https://example.com"));
    assert!(!is_url("https://example.com "));
    assert!(!is_url("https://example.com\n"));
    assert!(!is_url("HTTPS://example.com"));
    assert!(!is_url("see https://example.com"));
    assert!(!is_url("https://exa\u{a0}mple.com"));
    assert!(is_url("https://例え.jp/パス"));
}

#[test]
fn clipboard_unreadable_is_an_error() {
    assert_eq!(link_to_save(None), Err(SaveError::ClipboardUnavailable));
}

#[test]
fn clipboard_link_is_kept_and_other_text_skipped() {
    assert_eq!(
        link_to_save(Some("https://example.com/a".to_string())),
        Ok(Some("https://example.com/a".to_string()))
    );
    assert_eq!(link_to_save(Some("just words".to_string())), Ok(None));
}
