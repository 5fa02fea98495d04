use kindle_pult::fetcher::choose_file_name;
use kindle_pult::fetcher::file_name_for;
use kindle_pult::Downloader;
use kindle_pult::Failure;
use kindle_pult::FetchMode;
use kindle_pult::Payload;
use kindle_pult::StoreOrder;

#[test]
fn file_name_is_last_path_segment() {
    assert_eq!(file_name_for("https://example.com/a/b.png"), "b.png");
    assert_eq!(file_name_for("https://news.example/article-1"), "article-1");
    assert_eq!(file_name_for("https://example.com/p/img.jpg?size=2#top"), "img.jpg");
}

#[test]
fn file_name_keeps_percent_encoding() {
    assert_eq!(file_name_for("https://example.com/countries/việt nam"), "vi%E1%BB%87t%20nam");
}

#[test]
fn file_name_falls_back_when_last_segment_is_empty() {
    assert_eq!(file_name_for("https://example.com/a/b/"), "tmp.bin");
    assert_eq!(file_name_for("https://example.com/"), "tmp.bin");
    assert_eq!(file_name_for("https://example.com"), "tmp.bin");
}

#[test]
fn file_name_falls_back_without_path_segments() {
    assert_eq!(file_name_for("data:text/plain,HelloWorld"), "tmp.bin");
    assert_eq!(file_name_for("mailto:someone@example.com"), "tmp.bin");
}

#[test]
fn file_name_falls_back_for_text_that_is_no_address() {
    assert_eq!(file_name_for("not a url"), "tmp.bin");
    assert_eq!(file_name_for(""), "tmp.bin");
}

#[test]
fn choose_file_name_from_segments() {
    let segments = vec!["a".to_string(), "b.png".to_string()];
    assert_eq!(choose_file_name(Some(&segments)), "b.png");
    let segments = vec!["a".to_string(), String::new()];
    assert_eq!(choose_file_name(Some(&segments)), "tmp.bin");
    let segments: Vec<String> = Vec::new();
    assert_eq!(choose_file_name(Some(&segments)), "tmp.bin");
    assert_eq!(choose_file_name(None), "tmp.bin");
}

#[test]
fn payload_kind_and_bytes() {
    let text = Payload::Text("héllo".to_string());
    assert_eq!(text.kind(), FetchMode::Text);
    assert_eq!(text.into_bytes(), vec![0x68, 0xc3, 0xa9, 0x6c, 0x6c, 0x6f]);
    let binary = Payload::Binary(vec![0, 159, 146, 150, 255]);
    assert_eq!(binary.kind(), FetchMode::Binary);
    assert_eq!(binary.into_bytes(), vec![0, 159, 146, 150, 255]);
}

#[test]
fn binary_payload_is_stored_byte_for_byte() {
    let body: Vec<u8> = vec![0x89, b'P', b'N', b'G', 0, 255, 254, 13, 10, 0];
    let downloader = Downloader::new("/tmp/work".to_string(), FetchMode::Binary);
    let order = downloader.place("https://cdn.example/logo.png", Payload::Binary(body.clone()));
    assert_eq!(order, Ok(StoreOrder { file_name: "logo.png".to_string(), bytes: body }));
}

#[test]
fn text_payload_reads_back_as_the_same_text() {
    let text = "<html><body>Grüße, 世界 — \u{1F600}</body></html>".to_string();
    let downloader = Downloader::new("/tmp/work".to_string(), FetchMode::Text);
    let order = downloader
        .place("https://news.example/article-1", Payload::Text(text.clone()))
        .expect("a text payload is stored in text mode");
    assert_eq!(order.file_name, "article-1");
    assert_eq!(order.bytes, text.as_bytes().to_vec());
    assert_eq!(String::from_utf8(order.bytes), Ok(text));
}

#[test]
fn payload_of_the_wrong_mode_is_refused() {
    let downloader = Downloader::new("/tmp/work".to_string(), FetchMode::Text);
    assert_eq!(
        downloader.place("https://example.com/a.png", Payload::Binary(vec![1, 2, 3])),
        Err(Failure::UnexpectedEvent)
    );
    let downloader = Downloader::new("/tmp/work".to_string(), FetchMode::Binary);
    assert_eq!(
        downloader.place("https://example.com/a.html", Payload::Text("x".to_string())),
        Err(Failure::UnexpectedEvent)
    );
}

#[test]
fn downloader_new_keeps_its_arguments() {
    let downloader = Downloader::new("/tmp/kindle-pult_abc".to_string(), FetchMode::Text);
    assert_eq!(downloader.path, "/tmp/kindle-pult_abc");
    assert_eq!(downloader.file_type, FetchMode::Text);
}

#[test]
fn same_basename_gives_same_file_name() {
    assert_eq!(file_name_for("https://a.example/x/pic.png"), file_name_for("https://b.example/y/pic.png"));
}
