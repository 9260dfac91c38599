use vstd::prelude::*;
use crate::mime::{content_type_of, push_content_type};
use crate::path::{components, is_within, parent_of, parent_path};
use crate::text::{decimal, push_bytes, push_decimal, push_str, utf8};

verus! {

/// The protocol version of a request, repeated in its response.
#[derive(Clone, Copy, Debug, PartialEq, Eq)]
pub enum Version {
    V1_0,
    V1_1,
    V2_0,
}

/// The status of a response.
#[derive(Clone, Copy, Debug, PartialEq, Eq)]
pub enum ResponseStatus {
    OK,
    NotFound,
}

/// Whether a response offers byte ranges.
#[derive(Clone, Copy, Debug, PartialEq, Eq)]
pub enum AcceptRanges {
    Bytes,
    NoRanges,
}

pub open spec fn version_text(v: Version) -> Seq<u8> {
    match v {
        Version::V1_0 => utf8("HTTP/1.0"@),
        Version::V1_1 => utf8("HTTP/1.1"@),
        Version::V2_0 => utf8("HTTP/2.0"@),
    }
}

pub open spec fn status_text(s: ResponseStatus) -> Seq<u8> {
    match s {
        ResponseStatus::OK => utf8("200 OK"@),
        ResponseStatus::NotFound => utf8("404 NOT FOUND"@),
    }
}

pub open spec fn ranges_text(a: AcceptRanges) -> Seq<u8> {
    match a {
        AcceptRanges::Bytes => utf8("accept-ranges: bytes"@),
        AcceptRanges::NoRanges => utf8("accept-ranges: none"@),
    }
}

impl Version {
    /// The version as it stands on a status line.
    pub fn text(&self) -> (r: Vec<u8>)
        ensures
            r@ == version_text(*self),
    {
        let mut r: Vec<u8> = Vec::new();
        match self {
            Version::V1_0 => push_str(&mut r, "HTTP/1.0"),
            Version::V1_1 => push_str(&mut r, "HTTP/1.1"),
            Version::V2_0 => push_str(&mut r, "HTTP/2.0"),
        }
        r
    }
}

impl ResponseStatus {
    /// The status as it stands on a status line.
    pub fn text(&self) -> (r: Vec<u8>)
        ensures
            r@ == status_text(*self),
    {
        let mut r: Vec<u8> = Vec::new();
        match self {
            ResponseStatus::OK => push_str(&mut r, "200 OK"),
            ResponseStatus::NotFound => push_str(&mut r, "404 NOT FOUND"),
        }
        r
    }
}

impl AcceptRanges {
    /// The accept-ranges header line.
    pub fn text(&self) -> (r: Vec<u8>)
        ensures
            r@ == ranges_text(*self),
    {
        let mut r: Vec<u8> = Vec::new();
        match self {
            AcceptRanges::Bytes => push_str(&mut r, "accept-ranges: bytes"),
            AcceptRanges::NoRanges => push_str(&mut r, "accept-ranges: none"),
        }
        r
    }
}

/// The complete text of a response: status line, accept-ranges line,
/// Content-Type and Content-Length headers, a blank line, then the body.
pub open spec fn wire(
    v: Version,
    s: ResponseStatus,
    a: AcceptRanges,
    mime: Seq<u8>,
    body: Seq<u8>,
) -> Seq<u8> {
    version_text(v) + utf8(" "@) + status_text(s) + utf8("\n"@) + ranges_text(a) + utf8(
        "\nContent-Type: "@,
    ) + mime + utf8("\nContent-Length: "@) + decimal(body.len()) + utf8("\r\n\r\n"@) + body
}

/// Formats a response around `body`.
pub fn format_response(
    v: Version,
    s: ResponseStatus,
    a: AcceptRanges,
    mime: &[u8],
    body: &[u8],
) -> (r: Vec<u8>)
    ensures
        r@ == wire(v, s, a, mime@, body@),
{
    let mut r = v.text();
    push_str(&mut r, " ");
    let st = s.text();
    push_bytes(&mut r, st.as_slice());
    push_str(&mut r, "\n");
    let ar = a.text();
    push_bytes(&mut r, ar.as_slice());
    push_str(&mut r, "\nContent-Type: ");
    push_bytes(&mut r, mime);
    push_str(&mut r, "\nContent-Length: ");
    push_decimal(&mut r, body.len());
    push_str(&mut r, "\r\n\r\n");
    push_bytes(&mut r, body);
    r
}


pub open spec fn forbidden_body() -> Seq<u8> {
    utf8("<html><body><h1>403 Forbidden</h1></body></html>"@)
}

pub open spec fn not_found_body() -> Seq<u8> {
    utf8("<html><body><h1>404 Not Found</h1></body></html>"@)
}

pub open spec fn html_type() -> Seq<u8> {
    utf8("text/html"@)
}

/// The text of the link that goes back up one directory.
pub open spec fn back_text() -> Seq<u8> {
    utf8("Go back up a directory"@)
}

/// A link of a listing: its target below `/`, and its text.
pub struct Link {
    pub href: Seq<u8>,
    pub text: Seq<u8>,
}

/// One list item of a listing.
pub open spec fn link_html(l: Link) -> Seq<u8> {
    utf8("<li><a href=\"/"@) + l.href + utf8("\">"@) + l.text + utf8("</a></li>"@)
}

/// The list items of a listing, in order.
pub open spec fn links_html(links: Seq<Link>) -> Seq<u8>
    decreases links.len(),
{
    if links.len() == 0 {
        seq![]
    } else {
        links_html(links.drop_last()) + link_html(links.last())
    }
}

/// Each component followed by a slash.
pub open spec fn dir_prefix(comps: Seq<Seq<char>>) -> Seq<u8>
    decreases comps.len(),
{
    if comps.len() == 0 {
        seq![]
    } else {
        dir_prefix(comps.drop_last()) + utf8(comps.last()) + utf8("/"@)
    }
}

/// The path of directory `dir` relative to `root`, followed by a slash
/// where it is not empty.
pub open spec fn relative_prefix(root: Seq<Seq<char>>, dir: Seq<Seq<char>>) -> Seq<u8> {
    dir_prefix(dir.subrange(root.len() as int, dir.len() as int))
}

/// The links to the children of a directory, in the order given: each
/// targets the child's path relative to the root and shows its name.
pub open spec fn child_links(prefix: Seq<u8>, children: Seq<Seq<char>>) -> Seq<Link> {
    children.map_values(|c: Seq<char>| Link { href: prefix + utf8(c), text: utf8(c) })
}

/// Every link of the listing of `dir` for a request of `path`: the link
/// back up to the parent of the requested path where `dir` is not the root,
/// then one link per child.
pub open spec fn listing_links(
    path: Seq<u8>,
    root: Seq<Seq<char>>,
    dir: Seq<Seq<char>>,
    children: Seq<Seq<char>>,
) -> Seq<Link> {
    let back = if dir == root {
        Seq::<Link>::empty()
    } else {
        seq![Link { href: parent_of(path), text: back_text() }]
    };
    back + child_links(relative_prefix(root, dir), children)
}

pub open spec fn page_head() -> Seq<u8> {
    utf8(
        "<html><head><style>\n                    body { font-family: Arial, sans-serif; margin: 20px; padding: 0; }\n                    h1 { color: #333; }\n                    ul { list-style-type: none; padding: 0; }\n                    li { margin-bottom: 10px; }\n                    a { text-decoration: none; color: #007bff; font-size: 16px; }\n                    a:hover { text-decoration: underline; color: #0056b3; }\n                    </style></head><body>\n                    <h1>Directory Listing</h1>\n                    <ul>"@,
    )
}

pub open spec fn page_tail() -> Seq<u8> {
    utf8("</ul></body></html>"@)
}

/// The HTML page that lists `links`.
pub open spec fn listing_page(links: Seq<Link>) -> Seq<u8> {
    page_head() + links_html(links) + page_tail()
}

/// Appends one list item to `out`.
fn push_link(out: &mut Vec<u8>, href: &[u8], text: &[u8])
    ensures
        final(out)@ == old(out)@ + link_html(Link { href: href@, text: text@ }),
{
    push_str(out, "<li><a href=\"/");
    push_bytes(out, href);
    push_str(out, "\">");
    push_bytes(out, text);
    push_str(out, "</a></li>");
}

/// The path of `dir` relative to `root`, each component followed by a slash.
fn relative_dir(root: &Vec<String>, dir: &Vec<String>) -> (r: Vec<u8>)
    requires
        root@.len() <= dir@.len(),
    ensures
        r@ == relative_prefix(components(root@), components(dir@)),
{
    let mut r: Vec<u8> = Vec::new();
    let mut i: usize = root.len();
    let ghost d = components(dir@);
    let ghost lo = root@.len() as int;
    while i < dir.len()
        invariant
            root@.len() <= i <= dir@.len(),
            d == components(dir@),
            lo == root@.len(),
            r@ == dir_prefix(d.subrange(lo, i as int)),
        decreases dir@.len() - i,
    {
        push_str(&mut r, dir[i].as_str());
        push_str(&mut r, "/");
        i = i + 1;
        proof {
            assert(d.subrange(lo, i as int).drop_last() == d.subrange(lo, i - 1));
        }
    }
    r
}

/// The listing page of directory `dir` with the given children, for a
/// request of `path`.
fn listing(path: &String, root: &Vec<String>, dir: &Vec<String>, children: &Vec<String>) -> (r: Vec<
    u8,
>)
    requires
        is_within(components(root@), components(dir@)),
    ensures
        r@ == listing_page(
            listing_links(utf8(path@), components(root@), components(dir@), components(children@)),
        ),
{
    let ghost rt = components(root@);
    let ghost dr = components(dir@);
    let ghost ch = components(children@);
    let ghost prefix = relative_prefix(rt, dr);
    let mut r: Vec<u8> = Vec::new();
    push_str(&mut r, "<html><head><style>\n                    body { font-family: Arial, sans-serif; margin: 20px; padding: 0; }\n                    h1 { color: #333; }\n                    ul { list-style-type: none; padding: 0; }\n                    li { margin-bottom: 10px; }\n                    a { text-decoration: none; color: #007bff; font-size: 16px; }\n                    a:hover { text-decoration: underline; color: #0056b3; }\n                    </style></head><body>\n                    <h1>Directory Listing</h1>\n                    <ul>");
    assert(r@ =~= page_head());
    let at_root = root.len() == dir.len();
    proof {
        if at_root {
            assert(dr =~= rt);
        } else {
            assert(dr.len() != rt.len());
        }
    }
    let ghost back = if dr == rt {
        Seq::<Link>::empty()
    } else {
        seq![Link { href: parent_of(utf8(path@)), text: back_text() }]
    };
    if !at_root {
        let parent = parent_path(path);
        let mut text: Vec<u8> = Vec::new();
        push_str(&mut text, "Go back up a directory");
        push_link(&mut r, parent.as_slice(), text.as_slice());
    }
    proof {
        if back.len() == 1 {
            assert(back.drop_last() =~= Seq::<Link>::empty());
            assert(links_html(back.drop_last()) =~= Seq::<u8>::empty());
            assert(links_html(back) =~= link_html(back.last()));
        } else {
            assert(links_html(back) =~= Seq::<u8>::empty());
        }
        assert(r@ == page_head() + links_html(back));
        assert(back + child_links(prefix, ch.subrange(0, 0)) =~= back);
    }
    let pre = relative_dir(root, dir);
    let mut i: usize = 0;
    while i < children.len()
        invariant
            i <= children@.len(),
            ch == components(children@),
            pre@ == prefix,
            r@ == page_head() + links_html(back + child_links(prefix, ch.subrange(0, i as int))),
        decreases children@.len() - i,
    {
        let mut href: Vec<u8> = Vec::new();
        push_bytes(&mut href, pre.as_slice());
        push_str(&mut href, children[i].as_str());
        let mut text: Vec<u8> = Vec::new();
        push_str(&mut text, children[i].as_str());
        push_link(&mut r, href.as_slice(), text.as_slice());
        i = i + 1;
        proof {
            let all = back + child_links(prefix, ch.subrange(0, i as int));
            assert(all.drop_last() =~= back + child_links(prefix, ch.subrange(0, i - 1)));
            assert(all.last() == Link { href: prefix + utf8(ch[i - 1]), text: utf8(ch[i - 1]) });
        }
    }
    proof {
        assert(ch.subrange(0, ch.len() as int) =~= ch);
    }
    push_str(&mut r, "</ul></body></html>");
    r
}


/// A request for a file-system resource.
#[derive(Debug)]
pub struct HttpRequest {
    /// The requested path, slash-separated; empty or `/` names the root.
    pub path: String,
    pub version: Version,
}

/// What the file system holds for a classified request: nothing to serve
/// (outside the root, or missing), a regular file's bytes, or a directory's
/// canonical path (its components below `/`) and the names of its immediate
/// children.
#[derive(Debug)]
pub enum Served {
    OutsideRoot,
    Missing,
    File(Vec<u8>),
    Directory { dir: Vec<String>, children: Vec<String> },
}

/// Why a response could not be built.
#[derive(Clone, Copy, Debug, PartialEq, Eq)]
pub enum ResponseError {
    /// A listed directory does not lie under the server root, so its
    /// entries have no path relative to the root.
    NotUnderRoot,
}

/// What a response is made of: status, accept-ranges, Content-Type and body.
pub struct Parts {
    pub status: ResponseStatus,
    pub accept_ranges: AcceptRanges,
    pub mime: Seq<u8>,
    pub body: Seq<u8>,
}

/// The parts of the response to a request of `path`, for what the file
/// system holds; `None` where a listed directory is not under `root`.
pub open spec fn parts_of(path: Seq<u8>, root: Seq<Seq<char>>, served: Served) -> Option<Parts> {
    match served {
        Served::OutsideRoot => Some(
            Parts {
                status: ResponseStatus::NotFound,
                accept_ranges: AcceptRanges::NoRanges,
                mime: html_type(),
                body: forbidden_body(),
            },
        ),
        Served::Missing => Some(
            Parts {
                status: ResponseStatus::NotFound,
                accept_ranges: AcceptRanges::NoRanges,
                mime: html_type(),
                body: not_found_body(),
            },
        ),
        Served::File(content) => Some(
            Parts {
                status: ResponseStatus::OK,
                accept_ranges: AcceptRanges::Bytes,
                mime: content_type_of(content@),
                body: content@,
            },
        ),
        Served::Directory { dir, children } => if is_within(root, components(dir@)) {
            Some(
                Parts {
                    status: ResponseStatus::OK,
                    accept_ranges: AcceptRanges::NoRanges,
                    mime: html_type(),
                    body: listing_page(
                        listing_links(path, root, components(dir@), components(children@)),
                    ),
                },
            )
        } else {
            None
        },
    }
}

/// A complete response to one request.
#[derive(Debug)]
pub struct HttpResponse {
    version: Version,
    status: ResponseStatus,
    content_length: usize,
    accept_ranges: AcceptRanges,
    /// The formatted response: header block, then the body.
    pub response_body: Vec<u8>,
    /// The path that was requested, for the caller's logs.
    pub current_path: String,
}

impl HttpResponse {
    pub closed spec fn spec_version(&self) -> Version {
        self.version
    }

    pub closed spec fn spec_status(&self) -> ResponseStatus {
        self.status
    }

    pub closed spec fn spec_content_length(&self) -> nat {
        self.content_length as nat
    }

    pub closed spec fn spec_accept_ranges(&self) -> AcceptRanges {
        self.accept_ranges
    }

    pub closed spec fn spec_body(&self) -> Seq<u8> {
        self.response_body@
    }

    pub closed spec fn spec_path(&self) -> Seq<char> {
        self.current_path@
    }

    /// Whether this response is the one made of `p` for a request of
    /// version `v`: its Content-Length is the length of the body that
    /// follows its header block.
    pub open spec fn is_made_of(&self, v: Version, p: Parts) -> bool {
        &&& self.spec_version() == v
        &&& self.spec_status() == p.status
        &&& self.spec_accept_ranges() == p.accept_ranges
        &&& self.spec_content_length() == p.body.len()
        &&& self.spec_body() == wire(v, p.status, p.accept_ranges, p.mime, p.body)
    }

    /// Builds the response to `request`, given the canonical server root
    /// (its components below `/`) and what the file system holds for the
    /// request once classified.
    pub fn new(request: &HttpRequest, root: &Vec<String>, served: Served) -> (r: Result<
        HttpResponse,
        ResponseError,
    >)
        ensures
            match parts_of(utf8(request.path@), components(root@), served) {
                Some(p) => r matches Ok(resp) && resp.is_made_of(request.version, p)
                    && resp.spec_path() == request.path@,
                None => r == Err::<HttpResponse, ResponseError>(ResponseError::NotUnderRoot),
            },
    {
        let v = request.version;
        let mut mime: Vec<u8> = Vec::new();
        let (status, accept_ranges, body) = match served {
            Served::OutsideRoot => {
                push_str(&mut mime, "text/html");
                let mut b: Vec<u8> = Vec::new();
                push_str(&mut b, "<html><body><h1>403 Forbidden</h1></body></html>");
                (ResponseStatus::NotFound, AcceptRanges::NoRanges, b)
            },
            Served::Missing => {
                push_str(&mut mime, "text/html");
                let mut b: Vec<u8> = Vec::new();
                push_str(&mut b, "<html><body><h1>404 Not Found</h1></body></html>");
                (ResponseStatus::NotFound, AcceptRanges::NoRanges, b)
            },
            Served::File(content) => {
                push_content_type(&mut mime, content.as_slice());
                (ResponseStatus::OK, AcceptRanges::Bytes, content)
            },
            Served::Directory { dir, children } => {
                if !crate::path::within_root(root, &dir) {
                    return Err(ResponseError::NotUnderRoot);
                }
                push_str(&mut mime, "text/html");
                let page = listing(&request.path, root, &dir, &children);
                (ResponseStatus::OK, AcceptRanges::NoRanges, page)
            },
        };
        let text = format_response(v, status, accept_ranges, mime.as_slice(), body.as_slice());
        Ok(HttpResponse {
            version: v,
            status,
            content_length: body.len(),
            accept_ranges,
            response_body: text,
            current_path: request.path.clone(),
        })
    }

    pub fn version(&self) -> (r: Version)
        ensures
            r == self.spec_version(),
    {
        self.version
    }

    pub fn status(&self) -> (r: ResponseStatus)
        ensures
            r == self.spec_status(),
    {
        self.status
    }

    pub fn content_length(&self) -> (r: usize)
        ensures
            r == self.spec_content_length(),
    {
        self.content_length
    }

    /// The formatted response: header block, then the body.
    pub fn response_body(&self) -> (r: &Vec<u8>)
        ensures
            r@ == self.spec_body(),
    {
        &self.response_body
    }

    /// The path that was requested.
    pub fn current_path(&self) -> (r: &String)
        ensures
            r@ == self.spec_path(),
    {
        &self.current_path
    }

    pub fn accept_ranges(&self) -> (r: AcceptRanges)
        ensures
            r == self.spec_accept_ranges(),
    {
        self.accept_ranges
    }
}

} // verus!
