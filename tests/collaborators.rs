use mangadl::api::{cover_path, feed_path, get_id, manga_path, next_offset, server_path, APIError, API};
use mangadl::chapter::{Chapter, ChapterData, ChapterDownloadError};
use mangadl::coverart::{CoverArt, CoverArtData};
use mangadl::text::decimal;

fn entry(id: &str, volume: &str, chapter: &str, language: &str) -> ChapterData {
    ChapterData {
        id: id.to_string(),
        volume: volume.to_string(),
        chapter: chapter.to_string(),
        language: language.to_string(),
    }
}

#[test]
fn id_is_read_from_title_address() {
    assert_eq!(
        get_id("https://mangadex.org/title/a1b2c3d4-e5f6-7890-abcd-ef0123456789/some-name"),
        Some("a1b2c3d4-e5f6-7890-abcd-ef0123456789".to_string())
    );
    assert_eq!(get_id("http://mangadex.org/title/ABC"), Some("ABC".to_string()));
    assert_eq!(get_id("see https://mangadex.org/title/12--34"), Some("12-".to_string()));
    assert_eq!(get_id("https://mangadex.org/title/xyz"), None);
    assert_eq!(get_id("https://example.org/title/abc"), None);
    assert_eq!(get_id(""), None);
}

#[test]
fn manga_path_needs_an_id() {
    assert_eq!(API::manga_request_path("https://mangadex.org/title/ff00/x"), Ok("/manga/ff00".to_string()));
    assert_eq!(API::manga_request_path("nothing"), Err(APIError::NoID));
}

#[test]
fn request_paths() {
    assert_eq!(manga_path("ab"), "/manga/ab");
    assert_eq!(feed_path("ab", 0), "/manga/ab/feed?offset=0");
    assert_eq!(feed_path("ab", 1200), "/manga/ab/feed?offset=1200");
    assert_eq!(server_path("c1"), "/at-home/server/c1");
    assert_eq!(cover_path("ab/f.png"), "/covers/ab/f.png");
}

#[test]
fn decimal_text() {
    assert_eq!(decimal(0), "0");
    assert_eq!(decimal(7), "7");
    assert_eq!(decimal(10), "10");
    assert_eq!(decimal(u64::MAX), "18446744073709551615");
}

#[test]
fn paging_advances_until_total() {
    assert_eq!(next_offset(0, 100, 250), Some(100));
    assert_eq!(next_offset(100, 100, 250), Some(200));
    assert_eq!(next_offset(200, 100, 250), None);
    assert_eq!(next_offset(0, 100, 100), None);
    assert_eq!(next_offset(u64::MAX, u64::MAX, u64::MAX), None);
}

#[test]
fn covers_without_volume_are_skipped() {
    let raw = vec![
        CoverArtData { volume: Some("1".to_string()), file_name: "a.jpg".to_string() },
        CoverArtData { volume: None, file_name: "b.jpg".to_string() },
        CoverArtData { volume: Some("2".to_string()), file_name: "c.png".to_string() },
    ];
    let covers = CoverArt::from_response("m1", raw);
    assert_eq!(covers.len(), 2);
    assert_eq!(covers[0].volume, "1");
    assert_eq!(covers[0].url, "m1/a.jpg");
    assert_eq!(covers[1].volume, "2");
    assert_eq!(covers[1].url, "m1/c.png");
    assert!(CoverArt::from_data("m1", CoverArtData { volume: None, file_name: "x".to_string() }).is_none());
    assert!(CoverArt::from_response("m1", vec![]).is_empty());
}

#[test]
fn cover_file_names() {
    assert_eq!(CoverArt::file_name(Some("image/png")), Ok("cover.png".to_string()));
    assert_eq!(CoverArt::file_name(Some("image/jpeg")), Ok("cover.jpg".to_string()));
    assert_eq!(CoverArt::file_name(Some("not/a-type")), Err(ChapterDownloadError::Mime));
    assert_eq!(CoverArt::file_name(None), Err(ChapterDownloadError::NoContentType));
}

#[test]
fn chapter_page_urls() {
    let files = vec!["p1.png".to_string(), "p2.png".to_string()];
    let c = Chapter::new(&entry("c1", "3", "12.5", "en"), "https://node.example".to_string(), "h4sh", &files);
    assert_eq!(c.urls(), &vec!["/data/h4sh/p1.png".to_string(), "/data/h4sh/p2.png".to_string()]);
    assert_eq!(c.base_url(), "https://node.example");
    assert_eq!(c.volume(), "3");
    assert_eq!(c.chapter(), "12.5");
    assert_eq!(c.language(), "en");
}

#[test]
fn chapter_labels() {
    let c = Chapter::new(&entry("c1", "03", "Extra", "en"), "u".to_string(), "h", &vec![]);
    assert_eq!(c.get_volume(Some("3".to_string())), "Volume 3");
    assert_eq!(c.get_chapter(None), "Extra");
    let cover = CoverArt { volume: "2".to_string(), url: "m/x".to_string() };
    assert_eq!(cover.get_volume(Some("2".to_string())), "Volume 2");
}

#[test]
fn language_filter_keeps_order() {
    let data = vec![entry("a", "1", "1", "en"), entry("b", "1", "2", "fr"), entry("c", "1", "3", "en")];
    assert_eq!(Chapter::positions_in_language(&data, "en"), vec![0, 2]);
    assert_eq!(Chapter::positions_in_language(&data, "de"), Vec::<usize>::new());
}

#[test]
fn page_file_names() {
    assert_eq!(Chapter::page_file_name(1, Some("image/gif")), Ok("1.gif".to_string()));
    assert_eq!(Chapter::page_file_name(10, Some("image/png")), Ok("10.png".to_string()));
    assert_eq!(Chapter::page_file_name(0, Some("nothing")), Err(ChapterDownloadError::Mime));
    assert_eq!(Chapter::page_file_name(0, None), Err(ChapterDownloadError::NoContentType));
    assert_eq!(Chapter::page_file_name_for(1, Some(vec![])), Err(ChapterDownloadError::Mime));
    assert_eq!(Chapter::page_file_name_for(2, Some(vec!["webp".to_string()])), Ok("2.webp".to_string()));
}
