use outsaver::extract::{ExtractionError, VideoInformation};

fn page(title: Option<&str>, videos: &[&str]) -> String {
    let mut p = String::from("<html><head>");
    if let Some(t) = title {
        p.push_str(&format!("<title>{}</title>", t));
    }
    p.push_str("</head><body>");
    for v in videos {
        p.push_str(v);
    }
    p.push_str("</body></html>");
    p
}

#[test]
fn example_page_gives_category_url_and_extension() {
    let p = page(
        Some("Player #Valorant | outplayed.tv"),
        &["<video src=\"https://cdn.example/x.mp4\"></video>"],
    );
    let info = VideoInformation::from_page(&p).unwrap();
    assert_eq!(info.category, "Valorant");
    assert_eq!(info.asset_url, "https://cdn.example/x.mp4");
    assert_eq!(info.extension, "mp4");
}

#[test]
fn page_without_video_is_no_video() {
    let p = page(Some("Player #Valorant | outplayed.tv"), &[]);
    assert_eq!(VideoInformation::from_page(&p).err(), Some(ExtractionError::NoVideo));
}

#[test]
fn page_with_two_videos_is_ambiguous() {
    let p = page(
        Some("Player #Valorant | outplayed.tv"),
        &["<video src=\"a.mp4\"></video>", "<video src=\"b.mp4\"></video>"],
    );
    assert_eq!(VideoInformation::from_page(&p).err(), Some(ExtractionError::AmbiguousVideo));
}

#[test]
fn page_without_title_is_no_title() {
    let p = page(None, &["<video src=\"a.mp4\"></video>"]);
    assert_eq!(VideoInformation::from_page(&p).err(), Some(ExtractionError::NoTitle));
}

#[test]
fn title_without_hash_is_no_tag_marker() {
    let p = page(Some("Player Valorant | outplayed.tv"), &["<video src=\"a.mp4\"></video>"]);
    assert_eq!(VideoInformation::from_page(&p).err(), Some(ExtractionError::NoTagMarker));
}

#[test]
fn title_without_pipe_is_no_separator() {
    let p = page(Some("Player #Valorant outplayed.tv"), &["<video src=\"a.mp4\"></video>"]);
    assert_eq!(VideoInformation::from_page(&p).err(), Some(ExtractionError::NoSeparator));
}

#[test]
fn video_without_src_is_no_asset_url() {
    let p = page(Some("Player #Valorant | outplayed.tv"), &["<video></video>"]);
    assert_eq!(VideoInformation::from_page(&p).err(), Some(ExtractionError::NoAssetUrl));
}

#[test]
fn from_parts_trims_the_category() {
    let info = VideoInformation::from_parts(
        Some("x #  Rocket League \t| site".to_string()),
        vec![Some("https://v.example/a.b/clip.webm".to_string())],
    )
    .unwrap();
    assert_eq!(info.category, "Rocket League");
    assert_eq!(info.extension, "webm");
}

#[test]
fn separator_before_marker_gives_empty_category() {
    let info = VideoInformation::from_parts(
        Some("a | b #c".to_string()),
        vec![Some("u.mkv".to_string())],
    )
    .unwrap();
    assert_eq!(info.category, "");
}

#[test]
fn url_without_dot_has_empty_extension() {
    assert_eq!(VideoInformation::extension_from(&"https://host/clip".to_string()), "");
    assert_eq!(VideoInformation::extension_from(&"noext".to_string()), "");
}

#[test]
fn error_kinds_have_messages() {
    assert_eq!(ExtractionError::NoVideo.message(), "No video found");
    assert_eq!(ExtractionError::AmbiguousVideo.message(), "More than one video found");
    assert_eq!(ExtractionError::NoTitle.message(), "Error formatting video title. No title found");
}
