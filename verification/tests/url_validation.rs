use hyper::Url;
use print_bot::printer::{has_image_extension, header_line, names_image, validate_url};

#[test]
fn test_url_validation() {
    assert_eq!(validate_url("https://fuck.com"), None);
    assert_eq!(
        validate_url("https://fuck.com/wat.png"),
        Some(Url::parse("https://fuck.com/wat.png").unwrap().into_string())
    );
    assert_eq!(validate_url("https://fuck.com/wat.html"), None);
    assert_eq!(validate_url("wat.png"), None);
}

#[test]
fn validate_url_gives_the_normal_form() {
    assert_eq!(
        validate_url("HTTPS://Example.COM/a/../b/pic.JPG"),
        None
    );
    assert_eq!(
        validate_url("HTTPS://Example.COM/a/../b/pic.jpg"),
        Some("https://example.com/b/pic.jpg".to_string())
    );
    assert_eq!(
        validate_url("https://example.com/dir.png/photo.webp?size=2#top"),
        Some("https://example.com/dir.png/photo.webp?size=2#top".to_string())
    );
}

#[test]
fn validate_url_takes_each_image_extension() {
    for ext in ["gif", "png", "webp", "jpeg", "jpg"] {
        let url = format!("https://example.com/a.b.{}", ext);
        assert_eq!(validate_url(&url), Some(url.clone()));
    }
    assert_eq!(validate_url("https://example.com/a.png.txt"), None);
    assert_eq!(validate_url("https://example.com/a.png/"), None);
    assert_eq!(validate_url("https://example.com/png"), Some("https://example.com/png".to_string()));
    assert_eq!(validate_url("mailto:someone@example.com.png"), None);
    assert_eq!(validate_url("hello"), None);
    assert_eq!(validate_url(""), None);
}

#[test]
fn names_image_reads_the_last_segment() {
    assert!(names_image("/wat.png"));
    assert!(names_image("/a/b/c.jpeg"));
    assert!(names_image("/jpg"));
    assert!(!names_image("/"));
    assert!(!names_image(""));
    assert!(!names_image("wat.png"));
    assert!(!names_image("/wat.png/index"));
    assert!(!names_image("/wat.PNG"));
    assert!(!names_image("/wat.png."));
}

#[test]
fn image_extensions_are_the_five() {
    let chars = |s: &str| s.chars().collect::<Vec<char>>();
    assert!(has_image_extension(&chars("gif")));
    assert!(has_image_extension(&chars("png")));
    assert!(has_image_extension(&chars("webp")));
    assert!(has_image_extension(&chars("jpeg")));
    assert!(has_image_extension(&chars("jpg")));
    assert!(!has_image_extension(&chars("bmp")));
    assert!(!has_image_extension(&chars("")));
    assert!(!has_image_extension(&chars("pn")));
}

#[test]
fn header_line_shortens_at_the_line_width() {
    let date: Vec<char> = "01/02/21 03:04".chars().collect();
    assert_eq!(header_line("alice", &date), "alice 01/02/21 03:04:");
    // 16 + 1 + 14 + 1 = 32 characters: still fits.
    assert_eq!(header_line("sixteen_letters_", &date), "sixteen_letters_ 01/02/21 03:04:");
    // 33 characters: too long.
    assert_eq!(header_line("seventeen_letters", &date), "seventeen_letters: ");
    // Characters are counted, not bytes.
    assert_eq!(header_line("ééééééééééééééé!", &date), "ééééééééééééééé! 01/02/21 03:04:");
}

#[test]
fn image_urls_are_told_by_the_last_path_segment() {
    let by_segments = |s: &str| -> Option<String> {
        let url = Url::parse(s).ok()?;
        let file_name = url.path_segments()?.last()?;
        let extension = file_name.split('.').last()?;
        if ["gif", "png", "webp", "jpeg", "jpg"].contains(&extension) {
            Some(url.into_string())
        } else {
            None
        }
    };
    let texts = [
        "https://example.com",
        "https://example.com/",
        "https://example.com/a.png",
        "https://example.com/a.png?x=1.txt",
        "https://example.com/a.txt?x=1.png",
        "https://example.com/a.png#frag.txt",
        "https://example.com/a/b/c.d.e.jpeg",
        "https://example.com/a.jpeg/b",
        "https://example.com/.gif",
        "https://example.com/gif",
        "https://example.com/a.gif/",
        "https://example.com//a.webp",
        "https://example.com/a%2Fb.png",
        "https://example.com/a b.png",
        "https://example.com/ä.png",
        "https://user:pw@example.com:8080/x.jpg",
        "http://[::1]/x.jpg",
        "file:///tmp/x.jpg",
        "data:image/png;base64,AAAA",
        "mailto:a@b.png",
        "x.png",
        "/x.png",
        "//example.com/x.png",
        "https://",
        "https:///x.png",
        "ftp://example.com/x.PNG",
        " https://example.com/x.png ",
        "https://example.com/x.png\n",
    ];
    for s in texts {
        assert_eq!(validate_url(s), by_segments(s), "{:?}", s);
    }
}
