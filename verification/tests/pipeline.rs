use std::io::Read;

use tug::config::MarkdownOptions;
use tug::pipeline::path_has_md_extension;
use tug::pipeline::Tug;

fn host(root: &str, gzip: bool, markdown: Option<MarkdownOptions>) -> Tug {
    Tug { root: root.to_string(), gzip, markdown }
}

fn gunzip(bytes: &[u8]) -> Vec<u8> {
    let mut decoder = libflate::gzip::Decoder::new(bytes).unwrap();
    let mut out = Vec::new();
    decoder.read_to_end(&mut out).unwrap();
    out
}

#[test]
fn index_html_served_verbatim() {
    let tug = host("./fixtures", false, None);
    let r = tug.respond("/index.html", Some(b"<p>hi</p>".to_vec()), 0);
    assert_eq!(r.status, 200);
    assert_eq!(r.body, b"<p>hi</p>".to_vec());
    assert_eq!(r.content_length, 9);
    assert!(!r.content_encoding_gzip);
}

#[test]
fn missing_file_is_404_with_empty_body() {
    let tug = host("./fixtures", true, None);
    let r = tug.respond("/missing.html", None, 0);
    assert_eq!(r.status, 404);
    assert!(r.body.is_empty());
    assert_eq!(r.content_length, 0);
    assert!(!r.content_encoding_gzip);
}

#[test]
fn gzip_body_decompresses_to_plain_body() {
    let tug = host(".", true, None);
    let r = tug.respond("/a.txt", Some(b"aaaa".to_vec()), 0);
    assert_eq!(r.status, 200);
    assert!(r.content_encoding_gzip);
    assert_ne!(r.body, b"aaaa".to_vec());
    assert_eq!(gunzip(&r.body), b"aaaa".to_vec());
    assert_eq!(r.content_length as usize, r.body.len());
}

#[test]
fn gzip_matches_what_plain_host_sends() {
    let content = b"the quick brown fox jumps over the lazy dog".to_vec();
    let gz = host(".", true, None).respond("/f.txt", Some(content.clone()), 0);
    let plain = host(".", false, None).respond("/f.txt", Some(content), 0);
    assert_eq!(gunzip(&gz.body), plain.body);
}

#[test]
fn markdown_rendered_with_css_link() {
    let md = MarkdownOptions { css: Some("style.css".to_string()), js: None };
    let tug = host(".", false, Some(md));
    let r = tug.respond("/doc.md", Some(b"# Hi".to_vec()), 0);
    assert_eq!(r.status, 200);
    let body = String::from_utf8(r.body).unwrap();
    assert!(body.starts_with("<link rel=\"stylesheet\" type=\"text/css\" href=\"style.css\">"));
    assert!(body.contains("<h1>Hi</h1>"));
    assert_eq!(r.content_length as usize, body.len());
}

#[test]
fn markdown_js_script_appended() {
    let md = MarkdownOptions { css: None, js: Some("app.js".to_string()) };
    let tug = host(".", false, Some(md));
    let r = tug.respond("/doc.md", Some(b"hello".to_vec()), 0);
    let body = String::from_utf8(r.body).unwrap();
    assert!(body.ends_with("<script src=\"app.js\"></script>"));
    assert!(body.contains("<p>hello</p>"));
}

#[test]
fn markdown_disabled_serves_md_bytes_untouched() {
    let tug = host(".", false, None);
    let r = tug.respond("/doc.md", Some(b"# Hi".to_vec()), 0);
    assert_eq!(r.body, b"# Hi".to_vec());
}

#[test]
fn non_md_extension_is_not_rendered() {
    let md = MarkdownOptions { css: None, js: None };
    let tug = host(".", false, Some(md));
    let r = tug.respond("/notes.txt", Some(b"# Hi".to_vec()), 0);
    assert_eq!(r.body, b"# Hi".to_vec());
}

#[test]
fn markdown_and_gzip_compose() {
    let md = MarkdownOptions { css: Some("s.css".to_string()), js: None };
    let tug = host(".", true, Some(md));
    let r = tug.respond("/doc.md", Some(b"# Hi".to_vec()), 0);
    assert!(r.content_encoding_gzip);
    let body = String::from_utf8(gunzip(&r.body)).unwrap();
    assert!(body.starts_with("<link rel=\"stylesheet\" type=\"text/css\" href=\"s.css\">"));
    assert!(body.contains("<h1>Hi</h1>"));
}

#[test]
fn invalid_utf8_markdown_degrades_to_replacement() {
    let md = MarkdownOptions { css: None, js: None };
    let tug = host(".", false, Some(md));
    let r = tug.respond("/doc.md", Some(vec![0xff, b'h', b'i']), 0);
    let body = String::from_utf8(r.body).unwrap();
    assert!(body.contains('\u{FFFD}'));
    assert!(body.contains("hi"));
}

#[test]
fn md_extension_rules_follow_path_semantics() {
    assert!(path_has_md_extension("/doc.md"));
    assert!(path_has_md_extension("./root/a.b.md"));
    assert!(path_has_md_extension("/..md"));
    assert!(!path_has_md_extension("/.md"));
    assert!(!path_has_md_extension(".md"));
    assert!(!path_has_md_extension("md"));
    assert!(!path_has_md_extension("/doc.txt"));
    assert!(!path_has_md_extension("/docmd"));
}

#[test]
fn candidate_path_is_root_plus_request_path() {
    let tug = host("./root", false, None);
    assert_eq!(tug.candidate_path("/f.txt"), "./root/f.txt".to_string());
}

#[test]
fn hosts_with_distinct_roots_serve_independently() {
    let a = host("./a", false, None);
    let b = host("./b", false, None);
    assert_ne!(a.candidate_path("/same.txt"), b.candidate_path("/same.txt"));
    let ra = a.respond("/same.txt", Some(b"from a".to_vec()), 0);
    let rb = b.respond("/same.txt", Some(b"from b".to_vec()), 0);
    assert_eq!(ra.body, b"from a".to_vec());
    assert_eq!(rb.body, b"from b".to_vec());
}

#[test]
fn empty_file_served_with_zero_length() {
    let tug = host(".", false, None);
    let r = tug.respond("/empty.txt", Some(Vec::new()), 0);
    assert_eq!(r.status, 200);
    assert!(r.body.is_empty());
    assert_eq!(r.content_length, 0);
}

#[test]
fn empty_file_gzip_roundtrips() {
    let tug = host(".", true, None);
    let r = tug.respond("/empty.txt", Some(Vec::new()), 0);
    assert!(r.content_encoding_gzip);
    assert_eq!(gunzip(&r.body), Vec::<u8>::new());
    assert_eq!(r.content_length as usize, r.body.len());
}

#[test]
fn date_header_echoes_the_clock_reading() {
    let tug = host(".", false, None);
    assert_eq!(tug.respond("/f", Some(b"x".to_vec()), 123456).date, 123456);
    assert_eq!(tug.respond("/f", None, 98765).date, 98765);
}
