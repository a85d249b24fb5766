use dank::download::{accept_fetch, finish_download, plan_fetch, FetchPlan};
use dank::errors::DownloadError;
use dank::filename::extract_file_name_from_url;

#[test]
fn extract_file_name_from_url_ok() {
    let result = extract_file_name_from_url("example.com/foo/bar/baz/example.jpg").unwrap();
    assert_eq!(result, "example.jpg");
}

#[test]
fn extract_file_name_from_url_full_scheme() {
    let result = extract_file_name_from_url("https://example.com/foo/bar/baz/example.jpg").unwrap();
    assert_eq!(result, "example.jpg");
}

#[test]
fn extract_file_name_without_slash_is_invalid() {
    let err = extract_file_name_from_url("example.jpg").unwrap_err();
    match err {
        DownloadError::InvalidUrl { url } => assert_eq!(url, "example.jpg"),
        other => panic!("expected InvalidUrl, got {:?}", other),
    }
}

#[test]
fn extract_file_name_with_empty_segment_is_invalid() {
    let err = extract_file_name_from_url("https://example.com/foo/").unwrap_err();
    assert!(matches!(err, DownloadError::InvalidUrl { .. }));
}

#[test]
fn extract_file_name_keeps_query_artifacts_and_case() {
    let result = extract_file_name_from_url("https://e.com/a/Pic.JPG?x=1").unwrap();
    assert_eq!(result, "Pic.JPG?x=1");
}

#[test]
fn second_download_of_same_url_is_satisfied_without_fetch() {
    let url = "https://img.example/p/q/cat.png";
    let first = extract_file_name_from_url(url).unwrap();
    assert_eq!(
        plan_fetch(first.clone(), false),
        FetchPlan::NeedsDownload { name: "cat.png".to_string() }
    );
    // After the first successful write the file exists: the second call is
    // served by it, with the same name and no further fetch.
    let second = extract_file_name_from_url(url).unwrap();
    assert_eq!(first, second);
    assert_eq!(
        plan_fetch(second, true),
        FetchPlan::AlreadyPresent { name: "cat.png".to_string() }
    );
}

#[test]
fn colliding_urls_dedup_to_one_file() {
    let a = extract_file_name_from_url("https://e.com/a/x.jpg").unwrap();
    let b = extract_file_name_from_url("https://e.com/b/x.jpg").unwrap();
    assert_eq!(a, b);
    assert_eq!(a, "x.jpg");
    // The second downloader finds the winner's file and never overwrites it.
    assert_eq!(
        plan_fetch(b, true),
        FetchPlan::AlreadyPresent { name: "x.jpg".to_string() }
    );
}

#[test]
fn accept_fetch_passes_body_through() {
    let body = vec![1u8, 2, 3];
    let r = accept_fetch("https://e.com/a/x.jpg".to_string(), Ok(body.clone()));
    assert_eq!(r.unwrap(), body);
}

#[test]
fn accept_fetch_maps_transport_failure_to_network_error() {
    let r = accept_fetch(
        "https://e.com/a/x.jpg".to_string(),
        Err("connection reset".to_string()),
    );
    match r.unwrap_err() {
        DownloadError::Network { url, cause } => {
            assert_eq!(url, "https://e.com/a/x.jpg");
            assert_eq!(cause, "connection reset");
        }
        other => panic!("expected Network, got {:?}", other),
    }
}

#[test]
fn finish_download_returns_name_on_success() {
    let r = finish_download(
        "https://e.com/a/x.jpg".to_string(),
        "x.jpg".to_string(),
        Ok(()),
    );
    assert_eq!(r.unwrap(), "x.jpg");
}

#[test]
fn finish_download_maps_write_failure_to_io_error() {
    let r = finish_download(
        "https://e.com/a/x.jpg".to_string(),
        "x.jpg".to_string(),
        Err("disk full".to_string()),
    );
    match r.unwrap_err() {
        DownloadError::Io { url, cause } => {
            assert_eq!(url, "https://e.com/a/x.jpg");
            assert_eq!(cause, "disk full");
        }
        other => panic!("expected Io, got {:?}", other),
    }
}
