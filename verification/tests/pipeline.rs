use std::io::Cursor;

use kindle_pult::Action;
use kindle_pult::Article;
use kindle_pult::Conversion;
use kindle_pult::Event;
use kindle_pult::Failure;
use kindle_pult::FetchMode;
use kindle_pult::Outcome;
use kindle_pult::Payload;
use kindle_pult::ReferenceFault;
use kindle_pult::RequiredField;
use kindle_pult::Stage;
use kindle_pult::UrlRejection;

const TARGET: &str = "https://news.example/article-1";
const CONTENT: &str = "<p>...<img src=\"photo.jpg\">...<img src=\"https://cdn.example/logo.png\">";

fn record(title: Option<&str>, byline: Option<&str>, content: Option<&str>) -> Article {
    Article {
        title: title.map(String::from),
        byline: byline.map(String::from),
        date: Some("2020-05-17".to_string()),
        content: content.map(String::from),
        plain_content: None,
    }
}

fn picture(format: image::ImageOutputFormat) -> Vec<u8> {
    let picture = image::RgbImage::from_raw(1, 2, vec![1, 2, 3, 4, 5, 6]).expect("two pixels");
    let mut out = Cursor::new(Vec::new());
    image::DynamicImage::ImageRgb8(picture).write_to(&mut out, format).expect("encoding in memory");
    out.into_inner()
}

fn holds(haystack: &[u8], needle: &[u8]) -> bool {
    !needle.is_empty() && haystack.windows(needle.len()).any(|window| window == needle)
}

fn occurrences(haystack: &[u8], needle: &[u8]) -> usize {
    haystack.windows(needle.len()).filter(|window| *window == needle).count()
}

/// Opens a conversion of `TARGET` and takes it to the point where the
/// extractor's record is awaited.
fn until_extraction() -> Conversion {
    let (conversion, action) = Article::epub_from_url(TARGET.to_string());
    assert_eq!(action, Action::CreateWorkDir { prefix: "kindle-pult_".to_string() });
    let (conversion, action) =
        conversion.advance(Event::WorkDirCreated { path: "/tmp/kindle-pult_x1".to_string() });
    assert_eq!(action, Action::Fetch { url: TARGET.to_string(), mode: FetchMode::Text });
    let (conversion, action) = conversion.advance(Event::Fetched {
        final_url: TARGET.to_string(),
        payload: Payload::Text("<html>raw page</html>".to_string()),
    });
    assert_eq!(
        action,
        Action::Store { file_name: "article-1".to_string(), bytes: b"<html>raw page</html>".to_vec() }
    );
    let (conversion, action) =
        conversion.advance(Event::Stored { path: "/tmp/kindle-pult_x1/article-1".to_string() });
    assert_eq!(
        action,
        Action::Extract {
            html_path: "/tmp/kindle-pult_x1/article-1".to_string(),
            record_name: "article.json".to_string(),
        }
    );
    assert_eq!(conversion.stage(), Stage::Extracting);
    conversion
}

fn remove_work_dir() -> Action {
    Action::RemoveWorkDir { path: "/tmp/kindle-pult_x1".to_string() }
}

#[test]
fn article_with_two_images_becomes_a_book() {
    let conversion = until_extraction();
    let (conversion, action) =
        conversion.advance(Event::Extracted { article: record(Some("T"), Some("B"), Some(CONTENT)) });
    assert_eq!(
        action,
        Action::Fetch { url: "https://news.example/photo.jpg".to_string(), mode: FetchMode::Binary }
    );
    let photo = picture(image::ImageOutputFormat::Jpeg(90));
    let (conversion, action) = conversion.advance(Event::Fetched {
        final_url: "https://news.example/photo.jpg".to_string(),
        payload: Payload::Binary(photo.clone()),
    });
    assert_eq!(action, Action::Store { file_name: "photo.jpg".to_string(), bytes: photo.clone() });
    let (conversion, action) =
        conversion.advance(Event::Stored { path: "/tmp/kindle-pult_x1/photo.jpg".to_string() });
    assert_eq!(
        action,
        Action::Fetch { url: "https://cdn.example/logo.png".to_string(), mode: FetchMode::Binary }
    );
    let logo = picture(image::ImageOutputFormat::Png);
    let (conversion, action) = conversion.advance(Event::Fetched {
        final_url: "https://cdn.example/logo.png".to_string(),
        payload: Payload::Binary(logo.clone()),
    });
    assert_eq!(action, Action::Store { file_name: "logo.png".to_string(), bytes: logo.clone() });
    let (conversion, action) =
        conversion.advance(Event::Stored { path: "/tmp/kindle-pult_x1/logo.png".to_string() });
    assert_eq!(
        action,
        Action::LoadImages {
            paths: vec![
                "/tmp/kindle-pult_x1/photo.jpg".to_string(),
                "/tmp/kindle-pult_x1/logo.png".to_string(),
            ],
        }
    );
    let (conversion, action) = conversion.advance(Event::ImagesLoaded { contents: vec![photo, logo] });
    let book = match action {
        Action::WriteOutput { file_name, bytes } => {
            assert_eq!(file_name, "book.epub");
            bytes
        },
        other => panic!("the document was not written: {:?}", other),
    };
    assert!(holds(&book, b"<dc:title>T</dc:title>"));
    assert!(holds(&book, b"<dc:creator opf:role=\"aut\">B</dc:creator>"));
    assert!(holds(&book, b"OEBPS/title.xhtmlT"));
    assert!(holds(&book, b"<reference type=\"title-page\" title=\"T\" href=\"title.xhtml\"/>"));
    assert!(holds(&book, b"<item media-type=\"image/jpg\" id=\"photo_jpg\" href=\"photo.jpg\"/>"));
    assert!(holds(&book, b"<item media-type=\"image/png\" id=\"logo_png\" href=\"logo.png\"/>"));
    assert_eq!(occurrences(&book, b"<item media-type=\"image/"), 2);
    assert!(holds(&book, format!("OEBPS/article.xhtml{}", CONTENT).as_bytes()));
    assert_eq!(occurrences(&book, b"<itemref "), 2);
    assert_eq!(conversion.stage(), Stage::WritingOutput);
    let (conversion, action) = conversion.advance(Event::OutputWritten);
    assert_eq!(action, remove_work_dir());
    let (conversion, action) = conversion.advance(Event::WorkDirRemoved);
    assert_eq!(action, Action::Finish(Outcome::Written));
    assert!(conversion.is_done());
}

#[test]
fn invalid_input_url_starts_nothing() {
    let (conversion, action) = Article::epub_from_url("not a url".to_string());
    assert_eq!(action, Action::Finish(Outcome::InvalidInputUrl(UrlRejection::RelativeWithoutBase)));
    assert!(conversion.is_done());
    let (conversion, action) =
        conversion.advance(Event::WorkDirCreated { path: "/tmp/kindle-pult_x1".to_string() });
    assert_eq!(action, Action::Finish(Outcome::InvalidInputUrl(UrlRejection::RelativeWithoutBase)));
    let (conversion, action) = conversion.advance(Event::OutputWritten);
    assert_eq!(action, Action::Finish(Outcome::InvalidInputUrl(UrlRejection::RelativeWithoutBase)));
    assert!(conversion.is_done());
}

#[test]
fn malformed_input_url_starts_nothing() {
    let (conversion, action) = Article::epub_from_url("https://".to_string());
    assert_eq!(action, Action::Finish(Outcome::InvalidInputUrl(UrlRejection::Malformed)));
    assert!(conversion.is_done());
}

#[test]
fn page_is_fetched_at_its_serialized_address() {
    let (conversion, _) = Article::epub_from_url("HTTPS://News.Example".to_string());
    let (_, action) = conversion.advance(Event::WorkDirCreated { path: "/w".to_string() });
    assert_eq!(
        action,
        Action::Fetch { url: "https://news.example/".to_string(), mode: FetchMode::Text }
    );
}

#[test]
fn missing_title_aborts_before_any_image_fetch() {
    let conversion = until_extraction();
    let (conversion, action) =
        conversion.advance(Event::Extracted { article: record(None, Some("B"), Some(CONTENT)) });
    assert_eq!(action, remove_work_dir());
    assert_eq!(conversion.stage(), Stage::Cleaning);
    let (conversion, action) = conversion.advance(Event::WorkDirRemoved);
    assert_eq!(
        action,
        Action::Finish(Outcome::Failed(Failure::MissingRequiredField(RequiredField::Title)))
    );
    assert!(conversion.is_done());
}

#[test]
fn missing_byline_and_content_abort_after_extraction() {
    let conversion = until_extraction();
    let (conversion, action) =
        conversion.advance(Event::Extracted { article: record(Some("T"), None, Some(CONTENT)) });
    assert_eq!(action, remove_work_dir());
    let (_, action) = conversion.advance(Event::WorkDirRemoved);
    assert_eq!(
        action,
        Action::Finish(Outcome::Failed(Failure::MissingRequiredField(RequiredField::Byline)))
    );
    let conversion = until_extraction();
    let (conversion, action) =
        conversion.advance(Event::Extracted { article: record(Some("T"), Some("B"), None) });
    assert_eq!(action, remove_work_dir());
    let (_, action) = conversion.advance(Event::WorkDirRemoved);
    assert_eq!(
        action,
        Action::Finish(Outcome::Failed(Failure::MissingRequiredField(RequiredField::Content)))
    );
}

#[test]
fn article_without_images_goes_straight_to_the_document() {
    let conversion = until_extraction();
    let (conversion, action) = conversion
        .advance(Event::Extracted { article: record(Some("T"), Some("B"), Some("<p>plain</p>")) });
    assert_eq!(action, Action::LoadImages { paths: Vec::new() });
    let (conversion, action) = conversion.advance(Event::ImagesLoaded { contents: Vec::new() });
    match action {
        Action::WriteOutput { file_name, bytes } => {
            assert_eq!(file_name, "book.epub");
            assert!(holds(&bytes, b"OEBPS/article.xhtml<p>plain</p>"));
        },
        other => panic!("the document was not written: {:?}", other),
    }
    assert_eq!(conversion.stage(), Stage::WritingOutput);
}

#[test]
fn malformed_image_reference_aborts_the_run() {
    let conversion = until_extraction();
    let (conversion, action) = conversion.advance(Event::Extracted {
        article: record(Some("T"), Some("B"), Some("<img src=\"a.png\"><img>")),
    });
    assert_eq!(action, remove_work_dir());
    let (_, action) = conversion.advance(Event::WorkDirRemoved);
    assert_eq!(
        action,
        Action::Finish(Outcome::Failed(Failure::ImageReferenceMalformed {
            index: 1,
            fault: ReferenceFault::MissingSource,
        }))
    );
}

#[test]
fn failed_image_fetch_aborts_the_run() {
    let conversion = until_extraction();
    let (conversion, _) =
        conversion.advance(Event::Extracted { article: record(Some("T"), Some("B"), Some(CONTENT)) });
    assert_eq!(conversion.stage(), Stage::FetchingImage);
    let (conversion, action) = conversion.advance(Event::Failed(Failure::Transport));
    assert_eq!(action, remove_work_dir());
    let (_, action) = conversion.advance(Event::WorkDirRemoved);
    assert_eq!(action, Action::Finish(Outcome::Failed(Failure::Transport)));
}

#[test]
fn image_that_does_not_decode_aborts_the_run() {
    let conversion = until_extraction();
    let (conversion, _) = conversion.advance(Event::Extracted {
        article: record(Some("T"), Some("B"), Some("<img src=\"a.png\">")),
    });
    let (conversion, action) = conversion.advance(Event::Fetched {
        final_url: "https://news.example/a.png".to_string(),
        payload: Payload::Binary(vec![0, 1, 2]),
    });
    assert_eq!(action, Action::Store { file_name: "a.png".to_string(), bytes: vec![0, 1, 2] });
    let (conversion, action) = conversion.advance(Event::Stored { path: "/w/a.png".to_string() });
    assert_eq!(action, Action::LoadImages { paths: vec!["/w/a.png".to_string()] });
    let (conversion, action) = conversion.advance(Event::ImagesLoaded { contents: vec![vec![0, 1, 2]] });
    assert_eq!(action, remove_work_dir());
    let (_, action) = conversion.advance(Event::WorkDirRemoved);
    assert_eq!(action, Action::Finish(Outcome::Failed(Failure::ImageDecode { index: 0 })));
}

#[test]
fn file_name_follows_the_address_that_answered() {
    let conversion = until_extraction();
    let (conversion, _) = conversion.advance(Event::Extracted {
        article: record(Some("T"), Some("B"), Some("<img src=\"/go?id=7\">")),
    });
    let (_, action) = conversion.advance(Event::Fetched {
        final_url: "https://static.news.example/img/seven.png".to_string(),
        payload: Payload::Binary(vec![7]),
    });
    assert_eq!(action, Action::Store { file_name: "seven.png".to_string(), bytes: vec![7] });
}

#[test]
fn failure_before_work_dir_finishes_at_once() {
    let (conversion, _) = Article::epub_from_url(TARGET.to_string());
    let (conversion, action) = conversion.advance(Event::Failed(Failure::Filesystem));
    assert_eq!(action, Action::Finish(Outcome::Failed(Failure::Filesystem)));
    assert!(conversion.is_done());
}

#[test]
fn failures_along_the_way_remove_the_work_dir_first() {
    let (conversion, _) = Article::epub_from_url(TARGET.to_string());
    let (conversion, _) =
        conversion.advance(Event::WorkDirCreated { path: "/tmp/kindle-pult_x1".to_string() });
    let (conversion, action) = conversion.advance(Event::Failed(Failure::Transport));
    assert_eq!(action, remove_work_dir());
    let (_, action) = conversion.advance(Event::WorkDirRemoved);
    assert_eq!(action, Action::Finish(Outcome::Failed(Failure::Transport)));

    let conversion = until_extraction();
    let (conversion, action) = conversion.advance(Event::Failed(Failure::Extraction));
    assert_eq!(action, remove_work_dir());
    let (_, action) = conversion.advance(Event::WorkDirRemoved);
    assert_eq!(action, Action::Finish(Outcome::Failed(Failure::Extraction)));
}

#[test]
fn failed_output_write_is_reported_after_cleanup() {
    let conversion = until_extraction();
    let (conversion, _) = conversion
        .advance(Event::Extracted { article: record(Some("T"), Some("B"), Some("<p>plain</p>")) });
    let (conversion, _) = conversion.advance(Event::ImagesLoaded { contents: Vec::new() });
    let (conversion, action) = conversion.advance(Event::Failed(Failure::Filesystem));
    assert_eq!(action, remove_work_dir());
    let (_, action) = conversion.advance(Event::WorkDirRemoved);
    assert_eq!(action, Action::Finish(Outcome::Failed(Failure::Filesystem)));
}

#[test]
fn failed_cleanup_keeps_the_earlier_failure() {
    let conversion = until_extraction();
    let (conversion, _) = conversion.advance(Event::Failed(Failure::Extraction));
    let (conversion, action) = conversion.advance(Event::Failed(Failure::Filesystem));
    assert_eq!(action, Action::Finish(Outcome::Failed(Failure::Extraction)));
    assert!(conversion.is_done());
}

#[test]
fn failed_cleanup_after_writing_is_a_failure() {
    let conversion = until_extraction();
    let (conversion, _) = conversion
        .advance(Event::Extracted { article: record(Some("T"), Some("B"), Some("<p>plain</p>")) });
    let (conversion, _) = conversion.advance(Event::ImagesLoaded { contents: Vec::new() });
    let (conversion, action) = conversion.advance(Event::OutputWritten);
    assert_eq!(action, remove_work_dir());
    let (_, action) = conversion.advance(Event::Failed(Failure::Filesystem));
    assert_eq!(action, Action::Finish(Outcome::Failed(Failure::Filesystem)));
}

#[test]
fn unexpected_report_aborts_the_run() {
    let conversion = until_extraction();
    let (conversion, action) = conversion.advance(Event::OutputWritten);
    assert_eq!(action, remove_work_dir());
    let (_, action) = conversion.advance(Event::WorkDirRemoved);
    assert_eq!(action, Action::Finish(Outcome::Failed(Failure::UnexpectedEvent)));
}

#[test]
fn page_read_in_binary_mode_is_unexpected() {
    let (conversion, _) = Article::epub_from_url(TARGET.to_string());
    let (conversion, _) =
        conversion.advance(Event::WorkDirCreated { path: "/tmp/kindle-pult_x1".to_string() });
    let (conversion, action) = conversion.advance(Event::Fetched {
        final_url: TARGET.to_string(),
        payload: Payload::Binary(vec![1, 2, 3]),
    });
    assert_eq!(action, remove_work_dir());
    let (_, action) = conversion.advance(Event::WorkDirRemoved);
    assert_eq!(action, Action::Finish(Outcome::Failed(Failure::UnexpectedEvent)));
}

#[test]
fn wrong_number_of_loaded_images_is_unexpected() {
    let conversion = until_extraction();
    let (conversion, _) = conversion
        .advance(Event::Extracted { article: record(Some("T"), Some("B"), Some("<p>plain</p>")) });
    let (conversion, action) = conversion.advance(Event::ImagesLoaded { contents: vec![vec![1]] });
    assert_eq!(action, remove_work_dir());
    let (_, action) = conversion.advance(Event::WorkDirRemoved);
    assert_eq!(action, Action::Finish(Outcome::Failed(Failure::UnexpectedEvent)));
}

#[test]
fn finished_conversion_stays_finished() {
    let conversion = until_extraction();
    let (conversion, _) = conversion.advance(Event::Failed(Failure::Extraction));
    let (conversion, _) = conversion.advance(Event::WorkDirRemoved);
    assert!(conversion.is_done());
    let (conversion, action) = conversion.advance(Event::Stored { path: "/x".to_string() });
    assert_eq!(action, Action::Finish(Outcome::Failed(Failure::Extraction)));
    assert!(conversion.is_done());
}

#[test]
fn images_with_the_same_basename_share_one_file() {
    let conversion = until_extraction();
    let (conversion, action) = conversion.advance(Event::Extracted {
        article: record(
            Some("T"),
            Some("B"),
            Some("<img src=\"https://a.example/x/pic.png\"><img src=\"https://b.example/y/pic.png\">"),
        ),
    });
    assert_eq!(
        action,
        Action::Fetch { url: "https://a.example/x/pic.png".to_string(), mode: FetchMode::Binary }
    );
    let (conversion, action) = conversion.advance(Event::Fetched {
        final_url: "https://a.example/x/pic.png".to_string(),
        payload: Payload::Binary(vec![1]),
    });
    assert_eq!(action, Action::Store { file_name: "pic.png".to_string(), bytes: vec![1] });
    let (conversion, _) = conversion.advance(Event::Stored { path: "/w/pic.png".to_string() });
    let (conversion, action) = conversion.advance(Event::Fetched {
        final_url: "https://b.example/y/pic.png".to_string(),
        payload: Payload::Binary(vec![2]),
    });
    assert_eq!(action, Action::Store { file_name: "pic.png".to_string(), bytes: vec![2] });
    let (_, action) = conversion.advance(Event::Stored { path: "/w/pic.png".to_string() });
    assert_eq!(
        action,
        Action::LoadImages { paths: vec!["/w/pic.png".to_string(), "/w/pic.png".to_string()] }
    );
}

#[test]
fn image_without_file_name_is_stored_under_the_placeholder() {
    let conversion = until_extraction();
    let (conversion, _) = conversion.advance(Event::Extracted {
        article: record(Some("T"), Some("B"), Some("<img src=\"https://cdn.example/\">")),
    });
    let (conversion, action) = conversion.advance(Event::Fetched {
        final_url: "https://cdn.example/".to_string(),
        payload: Payload::Binary(picture(image::ImageOutputFormat::Png)),
    });
    match action {
        Action::Store { file_name, .. } => assert_eq!(file_name, "tmp.bin"),
        other => panic!("nothing was stored: {:?}", other),
    }
    let (conversion, _) = conversion.advance(Event::Stored { path: "/w/tmp.bin".to_string() });
    let (conversion, action) = conversion
        .advance(Event::ImagesLoaded { contents: vec![picture(image::ImageOutputFormat::Png)] });
    assert_eq!(action, remove_work_dir());
    let (_, action) = conversion.advance(Event::WorkDirRemoved);
    assert_eq!(action, Action::Finish(Outcome::Failed(Failure::ImageDecode { index: 0 })));
}

#[test]
fn image_without_src_is_found_before_a_missing_title() {
    let conversion = until_extraction();
    let (conversion, action) = conversion.advance(Event::Extracted {
        article: record(None, Some("B"), Some("<img src=\"a.png\"><img alt=\"x\">")),
    });
    assert_eq!(action, remove_work_dir());
    let (_, action) = conversion.advance(Event::WorkDirRemoved);
    assert_eq!(
        action,
        Action::Finish(Outcome::Failed(Failure::ImageReferenceMalformed {
            index: 1,
            fault: ReferenceFault::MissingSource,
        }))
    );
}

#[test]
fn malformed_src_is_found_before_a_missing_byline() {
    let conversion = until_extraction();
    let (conversion, action) = conversion.advance(Event::Extracted {
        article: record(Some("T"), None, Some("<img src=\"http://example.com:99999/a.png\">")),
    });
    assert_eq!(action, remove_work_dir());
    let (_, action) = conversion.advance(Event::WorkDirRemoved);
    assert_eq!(
        action,
        Action::Finish(Outcome::Failed(Failure::ImageReferenceMalformed {
            index: 0,
            fault: ReferenceFault::Rejected(UrlRejection::Malformed),
        }))
    );
}

#[test]
fn record_without_content_resolves_to_nothing_and_is_then_refused() {
    let conversion = until_extraction();
    let (conversion, action) =
        conversion.advance(Event::Extracted { article: record(None, None, None) });
    assert_eq!(action, remove_work_dir());
    let (_, action) = conversion.advance(Event::WorkDirRemoved);
    assert_eq!(
        action,
        Action::Finish(Outcome::Failed(Failure::MissingRequiredField(RequiredField::Title)))
    );
}

#[test]
fn markup_with_too_many_tags_aborts_the_run() {
    let mut content = String::new();
    for _ in 0..1001 {
        content.push_str("<p>x</p>");
    }
    let conversion = until_extraction();
    let (conversion, action) =
        conversion.advance(Event::Extracted { article: record(Some("T"), Some("B"), Some(&content)) });
    assert_eq!(action, remove_work_dir());
    let (_, action) = conversion.advance(Event::WorkDirRemoved);
    assert_eq!(action, Action::Finish(Outcome::Failed(Failure::ContentTooLarge)));
}
