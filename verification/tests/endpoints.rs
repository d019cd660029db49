use fetch_core::url::is_absolute_url_str;

#[test]
fn accepts_absolute_urls() {
    assert!(is_absolute_url_str(
        "https://hacker-news.firebaseio.com/v0/item/8863.json?print=pretty"
    ));
    assert!(is_absolute_url_str("http://a/b"));
    assert!(is_absolute_url_str("FTP://host/file"));
}

#[test]
fn rejects_relative_or_broken_addresses() {
    assert!(!is_absolute_url_str(""));
    assert!(!is_absolute_url_str("example.com/items"));
    assert!(!is_absolute_url_str("/v0/item/8863.json"));
    assert!(!is_absolute_url_str("://missing-scheme"));
    assert!(!is_absolute_url_str("http:/one-slash"));
    assert!(!is_absolute_url_str("http://"));
    assert!(!is_absolute_url_str("1http://digit-first"));
    assert!(!is_absolute_url_str("ht tp://space"));
}
