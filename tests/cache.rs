use rss_reader::cache::{cache_key, cache_path, fetch_step, finish_download, CacheError, FetchStep, Transfer};

#[test]
fn key_is_last_segment() {
    assert_eq!(cache_key("https://host/path/to/image.jpg"), Ok("image.jpg".to_string()));
}

#[test]
fn key_of_trailing_slash_is_invalid() {
    assert_eq!(cache_key("https://host/"), Err(CacheError::InvalidURL));
}

#[test]
fn key_without_slash_is_invalid() {
    assert_eq!(cache_key("image.jpg"), Err(CacheError::InvalidURL));
    assert_eq!(cache_key(""), Err(CacheError::InvalidURL));
}

#[test]
fn key_keeps_non_ascii() {
    assert_eq!(cache_key("http://h/fotos/maçã.png"), Ok("maçã.png".to_string()));
}

#[test]
fn path_is_under_cache_dir() {
    assert_eq!(
        cache_path("https://host/path/to/image.jpg"),
        Ok("/tmp/raspi-pi-reader/image.jpg".to_string())
    );
    assert_eq!(cache_path("https://host/"), Err(CacheError::InvalidURL));
}

#[test]
fn present_file_is_a_hit() {
    assert_eq!(
        fetch_step("http://h/a.jpg", true),
        Ok(FetchStep::Cached("/tmp/raspi-pi-reader/a.jpg".to_string()))
    );
    assert_eq!(
        fetch_step("http://h/a.jpg", false),
        Ok(FetchStep::Download("/tmp/raspi-pi-reader/a.jpg".to_string()))
    );
    assert_eq!(fetch_step("http://h/", true), Err(CacheError::InvalidURL));
}

#[test]
fn download_outcomes() {
    let p = "/tmp/raspi-pi-reader/a.jpg".to_string();
    assert_eq!(finish_download(p.clone(), Transfer::Stored), Ok(p.clone()));
    assert_eq!(finish_download(p.clone(), Transfer::NetworkFailed), Err(CacheError::DownloadError));
    assert_eq!(finish_download(p, Transfer::WriteFailed), Err(CacheError::WriteError));
}

#[test]
fn second_fetch_needs_no_network() {
    let url = "https://host/img/photo.jpg";
    let first = match fetch_step(url, false) {
        Ok(FetchStep::Download(p)) => finish_download(p, Transfer::Stored),
        other => panic!("unexpected {:?}", other),
    };
    let first = first.unwrap();
    // the file now exists; the network would fail, but is not asked
    let second = match fetch_step(url, true) {
        Ok(FetchStep::Cached(p)) => Ok(p),
        Ok(FetchStep::Download(p)) => finish_download(p, Transfer::NetworkFailed),
        Err(e) => Err(e),
    };
    assert_eq!(second, Ok(first));
}
