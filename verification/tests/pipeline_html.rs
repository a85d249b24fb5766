use dank::download::{plan_fetch, FetchPlan};
use dank::errors::{DownloadError, FetchError};
use dank::filename::extract_file_name_from_url;
use dank::html::generate_html;
use dank::pipeline::{assemble_gallery, collect_successes, urls_or_empty, SourceOutcome};
use dank::reddit::{eligible_image_urls, Data, Wrapper};

fn ok(name: &str) -> Result<String, DownloadError> {
    Ok(name.to_string())
}

fn failed(url: &str) -> Result<String, DownloadError> {
    Err(DownloadError::Network { url: url.to_string(), cause: "timed out".to_string() })
}

#[test]
fn urls_or_empty_keeps_successful_listing() {
    let urls = vec!["https://e.com/a/x.jpg".to_string()];
    assert_eq!(urls_or_empty(Ok(urls.clone())), urls);
}

#[test]
fn urls_or_empty_turns_failure_into_no_urls() {
    let r = urls_or_empty(Err(FetchError::Network { cause: "dns".to_string() }));
    assert!(r.is_empty());
}

#[test]
fn gallery_keeps_source_order_and_url_order() {
    // S1 yields [u1, u2], S2 yields [u3]; however the concurrent work
    // finishes, the outcomes are collected by source position and the
    // gallery is [name(u1), name(u2), name(u3)].
    let outcomes = vec![
        SourceOutcome::Listed { downloads: vec![ok("u1.jpg"), ok("u2.jpg")] },
        SourceOutcome::Listed { downloads: vec![ok("u3.jpg")] },
    ];
    assert_eq!(
        assemble_gallery(&outcomes),
        vec!["u1.jpg".to_string(), "u2.jpg".to_string(), "u3.jpg".to_string()]
    );
}

#[test]
fn failed_listing_contributes_nothing() {
    let outcomes = vec![
        SourceOutcome::ListingFailed {
            error: FetchError::Decode { cause: "unexpected shape".to_string() },
        },
        SourceOutcome::Listed { downloads: vec![ok("a.png"), ok("b.png")] },
    ];
    assert_eq!(assemble_gallery(&outcomes), vec!["a.png".to_string(), "b.png".to_string()]);
}

#[test]
fn failed_download_is_dropped_and_order_is_kept() {
    let downloads = vec![ok("a.png"), failed("https://e.com/a/b.png"), ok("c.png")];
    assert_eq!(collect_successes(&downloads), vec!["a.png".to_string(), "c.png".to_string()]);
}

#[test]
fn all_failures_make_an_empty_gallery() {
    let outcomes = vec![
        SourceOutcome::ListingFailed { error: FetchError::Network { cause: "dns".to_string() } },
        SourceOutcome::Listed { downloads: vec![failed("https://e.com/a/x.jpg")] },
    ];
    assert!(assemble_gallery(&outcomes).is_empty());
}

#[test]
fn generate_html_lists_each_name_in_order() {
    let html = generate_html(vec!["a.png".to_string(), "b.png".to_string(), "a.png".to_string()]);
    assert_eq!(
        html,
        "<!DOCTYPE html>\n<html>\n<body>\n\
         <img src=\"a.png\">\n<img src=\"b.png\">\n<img src=\"a.png\">\n\
         </body>\n</html>\n"
    );
}

#[test]
fn generate_html_of_nothing_is_an_empty_index() {
    let html = generate_html(Vec::new());
    assert_eq!(html, "<!DOCTYPE html>\n<html>\n<body>\n</body>\n</html>\n");
}

#[test]
fn end_to_end_single_source_day_listing() {
    // One mocked listing for sources ["memes"], timeframe Day: one eligible
    // post and one video post.
    let listing = Wrapper {
        data: Data {
            children: Some(vec![
                Wrapper {
                    data: Data {
                        children: None,
                        url: Some("https://img.example/p/q/cat.png".to_string()),
                        is_video: Some(false),
                        post_hint: Some("image".to_string()),
                    },
                },
                Wrapper {
                    data: Data {
                        children: None,
                        url: Some("https://img.example/p/q/dog.mp4".to_string()),
                        is_video: Some(true),
                        post_hint: Some("image".to_string()),
                    },
                },
            ]),
            url: None,
            is_video: None,
            post_hint: None,
        },
    };

    let urls = eligible_image_urls(&listing);
    assert_eq!(urls, vec!["https://img.example/p/q/cat.png".to_string()]);

    let mut downloads = Vec::new();
    for url in &urls {
        let name = extract_file_name_from_url(url).unwrap();
        match plan_fetch(name, false) {
            FetchPlan::AlreadyPresent { name } => downloads.push(Ok(name)),
            FetchPlan::NeedsDownload { name } => downloads.push(Ok(name)),
        }
    }
    let outcomes = vec![SourceOutcome::Listed { downloads }];
    let gallery = assemble_gallery(&outcomes);
    assert_eq!(gallery, vec!["cat.png".to_string()]);

    let html = generate_html(gallery);
    assert!(html.contains("<img src=\"cat.png\">"));
    assert_eq!(html.matches("<img").count(), 1);
    assert!(!html.contains("dog.mp4"));
}
