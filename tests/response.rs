use simple_http::path::{parent_path, resolve, resource_path, within_root, EntryKind, Probe, ResolvedTarget};
use simple_http::response::{
    format_response, AcceptRanges, HttpRequest, HttpResponse, ResponseError, ResponseStatus,
    Served, Version,
};

const PAGE_HEAD: &str = "<html><head><style>
                    body { font-family: Arial, sans-serif; margin: 20px; padding: 0; }
                    h1 { color: #333; }
                    ul { list-style-type: none; padding: 0; }
                    li { margin-bottom: 10px; }
                    a { text-decoration: none; color: #007bff; font-size: 16px; }
                    a:hover { text-decoration: underline; color: #0056b3; }
                    </style></head><body>
                    <h1>Directory Listing</h1>
                    <ul>";
const PAGE_TAIL: &str = "</ul></body></html>";

fn comps(parts: &[&str]) -> Vec<String> {
    parts.iter().map(|p| p.to_string()).collect()
}

fn request(path: &str) -> HttpRequest {
    HttpRequest { path: path.to_string(), version: Version::V1_1 }
}

fn text(resp: &HttpResponse) -> String {
    String::from_utf8(resp.response_body().clone()).unwrap()
}

#[test]
fn readme_file_is_served_with_its_length() {
    let content = b"Hello, this is the readme of the docs!!!!\n".to_vec();
    assert_eq!(content.len(), 42);
    let resp = HttpResponse::new(&request("/docs/readme.txt"), &comps(&["srv"]), Served::File(content))
        .unwrap();
    assert_eq!(resp.status(), ResponseStatus::OK);
    assert_eq!(resp.accept_ranges(), AcceptRanges::Bytes);
    assert_eq!(resp.content_length(), 42);
    assert_eq!(resp.version(), Version::V1_1);
    assert_eq!(resp.current_path(), "/docs/readme.txt");
    assert_eq!(
        text(&resp),
        "HTTP/1.1 200 OK\naccept-ranges: bytes\nContent-Type: application/octet-stream\nContent-Length: 42\r\n\r\nHello, this is the readme of the docs!!!!\n"
    );
}

#[test]
fn png_file_is_typed_by_its_magic_bytes() {
    let content = vec![0x89u8, 0x50, 0x4E, 0x47, 0x0D, 0x0A, 0x1A, 0x0A, 0, 0];
    let resp = HttpResponse::new(&request("img.png"), &comps(&["srv"]), Served::File(content.clone()))
        .unwrap();
    let mut expected = b"HTTP/1.1 200 OK\naccept-ranges: bytes\nContent-Type: image/png\nContent-Length: 10\r\n\r\n".to_vec();
    expected.extend_from_slice(&content);
    assert_eq!(resp.response_body(), &expected);
    assert_eq!(resp.content_length(), 10);
}

#[test]
fn binary_file_keeps_its_bytes() {
    let content = vec![0xFFu8, 0xFE, 0x00, 0x80];
    let resp = HttpResponse::new(&request("/blob"), &comps(&["srv"]), Served::File(content.clone()))
        .unwrap();
    let body = resp.response_body();
    assert_eq!(&body[body.len() - 4..], &content[..]);
    assert_eq!(resp.content_length(), 4);
}

#[test]
fn empty_file_has_zero_length() {
    let resp = HttpResponse::new(&request("/empty"), &comps(&["srv"]), Served::File(Vec::new())).unwrap();
    assert_eq!(
        text(&resp),
        "HTTP/1.1 200 OK\naccept-ranges: bytes\nContent-Type: application/octet-stream\nContent-Length: 0\r\n\r\n"
    );
}

#[test]
fn outside_root_is_not_found_with_forbidden_page() {
    let resp = HttpResponse::new(&request("/../etc/passwd"), &comps(&["srv"]), Served::OutsideRoot).unwrap();
    assert_eq!(resp.status(), ResponseStatus::NotFound);
    assert_eq!(resp.accept_ranges(), AcceptRanges::NoRanges);
    assert_eq!(resp.content_length(), 48);
    assert_eq!(
        text(&resp),
        "HTTP/1.1 404 NOT FOUND\naccept-ranges: none\nContent-Type: text/html\nContent-Length: 48\r\n\r\n<html><body><h1>403 Forbidden</h1></body></html>"
    );
}

#[test]
fn missing_path_is_not_found() {
    let resp = HttpResponse::new(&request("/nope.txt"), &comps(&["srv"]), Served::Missing).unwrap();
    assert_eq!(resp.status(), ResponseStatus::NotFound);
    assert_eq!(resp.content_length(), 48);
    assert_eq!(
        text(&resp),
        "HTTP/1.1 404 NOT FOUND\naccept-ranges: none\nContent-Type: text/html\nContent-Length: 48\r\n\r\n<html><body><h1>404 Not Found</h1></body></html>"
    );
}

#[test]
fn root_listing_has_no_back_link() {
    let served = Served::Directory { dir: comps(&["srv"]), children: comps(&["docs", "index.html"]) };
    let resp = HttpResponse::new(&request("/"), &comps(&["srv"]), served).unwrap();
    let page = format!(
        "{}<li><a href=\"/docs\">docs</a></li><li><a href=\"/index.html\">index.html</a></li>{}",
        PAGE_HEAD, PAGE_TAIL
    );
    assert_eq!(resp.status(), ResponseStatus::OK);
    assert_eq!(resp.accept_ranges(), AcceptRanges::NoRanges);
    assert_eq!(resp.content_length(), page.len());
    assert_eq!(
        text(&resp),
        format!(
            "HTTP/1.1 200 OK\naccept-ranges: none\nContent-Type: text/html\nContent-Length: {}\r\n\r\n{}",
            page.len(),
            page
        )
    );
    assert!(!text(&resp).contains("Go back up"));
}

#[test]
fn nested_listing_links_back_to_parent_once() {
    let served = Served::Directory {
        dir: comps(&["srv", "docs", "guides"]),
        children: comps(&["a.txt", "b"]),
    };
    let resp = HttpResponse::new(&request("/docs/guides/"), &comps(&["srv"]), served).unwrap();
    let page = format!(
        "{}<li><a href=\"/docs\">Go back up a directory</a></li><li><a href=\"/docs/guides/a.txt\">a.txt</a></li><li><a href=\"/docs/guides/b\">b</a></li>{}",
        PAGE_HEAD, PAGE_TAIL
    );
    assert_eq!(resp.content_length(), page.len());
    assert!(text(&resp).ends_with(&page));
    assert_eq!(text(&resp).matches("Go back up a directory").count(), 1);
}

#[test]
fn empty_directory_lists_nothing() {
    let served = Served::Directory { dir: comps(&["srv", "empty"]), children: Vec::new() };
    let resp = HttpResponse::new(&request("empty"), &comps(&["srv"]), served).unwrap();
    let page = format!("{}<li><a href=\"/\">Go back up a directory</a></li>{}", PAGE_HEAD, PAGE_TAIL);
    assert!(text(&resp).ends_with(&page));
}

#[test]
fn listing_outside_root_fails() {
    let served = Served::Directory { dir: comps(&["etc"]), children: comps(&["passwd"]) };
    let r = HttpResponse::new(&request("/x"), &comps(&["srv"]), served);
    assert_eq!(r.err(), Some(ResponseError::NotUnderRoot));
}

#[test]
fn same_request_twice_gives_same_bytes() {
    let make = || {
        HttpResponse::new(
            &request("/docs"),
            &comps(&["srv"]),
            Served::Directory { dir: comps(&["srv", "docs"]), children: comps(&["x", "y"]) },
        )
        .unwrap()
    };
    assert_eq!(make().response_body(), make().response_body());
}

#[test]
fn version_is_repeated() {
    let req = HttpRequest { path: "/".to_string(), version: Version::V1_0 };
    let resp = HttpResponse::new(&req, &comps(&["srv"]), Served::Missing).unwrap();
    assert!(text(&resp).starts_with("HTTP/1.0 404 NOT FOUND\n"));
    assert_eq!(resp.version(), Version::V1_0);
}

#[test]
fn content_length_of_many_digits() {
    let body = vec![b'a'; 12345];
    let r = format_response(Version::V2_0, ResponseStatus::OK, AcceptRanges::Bytes, b"text/plain", &body);
    let head = "HTTP/2.0 200 OK\naccept-ranges: bytes\nContent-Type: text/plain\nContent-Length: 12345\r\n\r\n";
    assert_eq!(&r[..head.len()], head.as_bytes());
    assert_eq!(r.len(), head.len() + 12345);
}

#[test]
fn resource_of_root_and_nested_paths() {
    assert_eq!(resource_path(&"".to_string()), b".".to_vec());
    assert_eq!(resource_path(&"/".to_string()), b".".to_vec());
    assert_eq!(resource_path(&"//".to_string()), b".".to_vec());
    assert_eq!(resource_path(&"/docs/readme.txt".to_string()), b"docs/readme.txt".to_vec());
    assert_eq!(resource_path(&"docs".to_string()), b"docs".to_vec());
}

#[test]
fn parent_of_request_paths() {
    assert_eq!(parent_path(&"/docs/guides".to_string()), b"docs".to_vec());
    assert_eq!(parent_path(&"/docs/guides/".to_string()), b"docs".to_vec());
    assert_eq!(parent_path(&"docs//guides".to_string()), b"docs".to_vec());
    assert_eq!(parent_path(&"/docs".to_string()), b"".to_vec());
    assert_eq!(parent_path(&"a/b/c".to_string()), b"a/b".to_vec());
}

#[test]
fn containment_is_by_prefix() {
    let root = comps(&["srv", "www"]);
    assert!(within_root(&root, &comps(&["srv", "www"])));
    assert!(within_root(&root, &comps(&["srv", "www", "a", "b"])));
    assert!(!within_root(&root, &comps(&["srv", "wwx"])));
    assert!(!within_root(&root, &comps(&["srv"])));
    assert!(!within_root(&root, &comps(&["tmp", "abc", "def"])));
}

#[test]
fn resolve_classifies_each_kind() {
    let root = comps(&["srv"]);
    assert!(matches!(resolve(&root, Probe::Absent), ResolvedTarget::Missing));
    let outside = Probe::Present { canonical: comps(&["etc"]), kind: EntryKind::RegularFile };
    assert!(matches!(resolve(&root, outside), ResolvedTarget::OutsideRoot));
    let file = Probe::Present { canonical: comps(&["srv", "a.txt"]), kind: EntryKind::RegularFile };
    match resolve(&root, file) {
        ResolvedTarget::File(p) => assert_eq!(p, comps(&["srv", "a.txt"])),
        _ => panic!("expected a file"),
    }
    let dir = Probe::Present { canonical: comps(&["srv"]), kind: EntryKind::Folder };
    match resolve(&root, dir) {
        ResolvedTarget::Directory(p) => assert_eq!(p, comps(&["srv"])),
        _ => panic!("expected a directory"),
    }
    let other = Probe::Present { canonical: comps(&["srv", "fifo"]), kind: EntryKind::Other };
    assert!(matches!(resolve(&root, other), ResolvedTarget::Missing));
}

#[test]
fn status_and_ranges_text() {
    assert_eq!(ResponseStatus::OK.text(), b"200 OK".to_vec());
    assert_eq!(ResponseStatus::NotFound.text(), b"404 NOT FOUND".to_vec());
    assert_eq!(AcceptRanges::Bytes.text(), b"accept-ranges: bytes".to_vec());
    assert_eq!(AcceptRanges::NoRanges.text(), b"accept-ranges: none".to_vec());
    assert_eq!(Version::V1_1.text(), b"HTTP/1.1".to_vec());
}
