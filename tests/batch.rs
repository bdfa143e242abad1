use outsaver::extract::ExtractionError;
use outsaver::pipeline::{Action, Batch, ItemResult, SkipReason, Stage};
use outsaver::storage::UploadError;

const GOOD_PAGE: &str = "<html><head><title>Player #Valorant | outplayed.tv</title></head>\
<body><video src=\"https://cdn.example/x.mp4\"></video></body></html>";
const NO_VIDEO_PAGE: &str =
    "<html><head><title>Player #Valorant | outplayed.tv</title></head><body></body></html>";
const STAMP: &str = "20240101120000";

fn urls(list: &[&str]) -> Vec<String> {
    list.iter().map(|u| u.to_string()).collect()
}

#[test]
fn skipped_item_then_uploaded_item() {
    let mut b = Batch::new(urls(&["url1", "url2"]), "alice".to_string(), "H".to_string());
    match b.next_action() {
        Action::FetchPage(u) => assert_eq!(u, "url1"),
        _ => panic!("expected a fetch"),
    }
    b.on_page_at(Ok(NO_VIDEO_PAGE.to_string()), STAMP);
    match b.next_action() {
        Action::FetchPage(u) => assert_eq!(u, "url2"),
        _ => panic!("expected a fetch"),
    }
    b.on_page_at(Ok(GOOD_PAGE.to_string()), STAMP);
    match b.next_action() {
        Action::Download { asset_url, scratch } => {
            assert_eq!(asset_url, "https://cdn.example/x.mp4");
            assert_eq!(scratch, "20240101120000.mp4");
        }
        _ => panic!("expected a download"),
    }
    b.on_downloaded_at(Ok(()), STAMP);
    match b.next_action() {
        Action::Upload { scratch, remote, destination } => {
            assert_eq!(scratch, "20240101120000.mp4");
            assert_eq!(remote, "alice - Valorant - 20240101120000.mp4");
            assert_eq!(destination, "H");
        }
        _ => panic!("expected an upload"),
    }
    let to_delete = b.on_uploaded(Ok(()));
    assert_eq!(to_delete, Some("20240101120000.mp4".to_string()));
    assert!(matches!(b.next_action(), Action::Finish));
    assert!(b.is_finished());
    assert_eq!(
        b.results,
        vec![
            ItemResult::Skipped(SkipReason::Extraction(ExtractionError::NoVideo)),
            ItemResult::Uploaded("alice - Valorant - 20240101120000.mp4".to_string()),
        ]
    );
}

#[test]
fn failures_in_the_middle_do_not_stop_the_batch() {
    let mut b = Batch::new(urls(&["a", "b", "c", "d", "e"]), "bob".to_string(), "H".to_string());
    b.on_page_at(Err("connection refused".to_string()), STAMP);
    b.on_page_at(Ok(GOOD_PAGE.to_string()), STAMP);
    b.on_downloaded_at(Err("disk full".to_string()), STAMP);
    b.on_page_at(Ok(GOOD_PAGE.to_string()), STAMP);
    b.on_downloaded_at(Ok(()), STAMP);
    assert_eq!(b.on_uploaded(Err(UploadError::TransferFailed("reset".to_string()))), None);
    b.on_page_at(Ok(GOOD_PAGE.to_string()), STAMP);
    b.on_downloaded_at(Ok(()), STAMP);
    assert!(b.on_uploaded(Ok(())).is_some());
    assert!(!b.is_finished());
    match b.next_action() {
        Action::FetchPage(u) => assert_eq!(u, "e"),
        _ => panic!("expected a fetch"),
    }
    b.on_page_at(Ok("<html></html>".to_string()), STAMP);
    assert!(b.is_finished());
    assert_eq!(b.results.len(), 5);
    assert_eq!(
        b.results,
        vec![
            ItemResult::Skipped(SkipReason::Fetch("connection refused".to_string())),
            ItemResult::Skipped(SkipReason::Download("disk full".to_string())),
            ItemResult::Skipped(SkipReason::Upload(UploadError::TransferFailed("reset".to_string()))),
            ItemResult::Uploaded("bob - Valorant - 20240101120000.mp4".to_string()),
            ItemResult::Skipped(SkipReason::Extraction(ExtractionError::NoTitle)),
        ]
    );
}

#[test]
fn empty_batch_finishes_at_once() {
    let b = Batch::new(Vec::new(), "a".to_string(), "H".to_string());
    assert!(b.is_finished());
    assert!(matches!(b.next_action(), Action::Finish));
}

#[test]
fn current_time_names_have_fourteen_digit_stamps() {
    let mut b = Batch::new(urls(&["u"]), "alice".to_string(), "H".to_string());
    b.on_page(Ok(GOOD_PAGE.to_string()));
    match &b.stage {
        Stage::Downloading { scratch, .. } => {
            assert_eq!(scratch.len(), 14 + 4);
            assert!(scratch.ends_with(".mp4"));
            assert!(scratch[..14].chars().all(|c| c.is_ascii_digit()));
        }
        _ => panic!("expected a download"),
    }
    b.on_downloaded(Ok(()));
    match &b.stage {
        Stage::Uploading { remote, .. } => {
            assert!(remote.starts_with("alice - Valorant - "));
            assert!(remote.ends_with(".mp4"));
            assert_eq!(remote.len(), "alice - Valorant - ".len() + 14 + 4);
        }
        _ => panic!("expected an upload"),
    }
}
