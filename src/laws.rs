use vstd::prelude::*;
use crate::path::{components, is_within};
use crate::response::{
    back_text, child_links, forbidden_body, html_type, listing_links, not_found_body, parts_of,
    relative_prefix, wire, AcceptRanges, HttpRequest, HttpResponse, Link, Parts, ResponseStatus,
    Served, Version,
};
use crate::text::utf8;

verus! {

/// A request whose canonical location lies outside the server root is
/// answered with status NotFound and the "403 Forbidden" page, and no
/// directory outside the root is ever listed.
pub proof fn outside_root_is_forbidden(path: Seq<u8>, root: Seq<Seq<char>>)
    ensures
        parts_of(path, root, Served::OutsideRoot) == Some(
            Parts {
                status: ResponseStatus::NotFound,
                accept_ranges: AcceptRanges::NoRanges,
                mime: html_type(),
                body: forbidden_body(),
            },
        ),
        forall|dir: Vec<String>, children: Vec<String>|
            !is_within(root, components(dir@)) ==> #[trigger] parts_of(
                path,
                root,
                Served::Directory { dir, children },
            ) is None,
{
}

/// A request of a path that does not exist under the root is answered with
/// status NotFound and the "404 Not Found" page.
pub proof fn missing_is_not_found(path: Seq<u8>, root: Seq<Seq<char>>)
    ensures
        parts_of(path, root, Served::Missing) == Some(
            Parts {
                status: ResponseStatus::NotFound,
                accept_ranges: AcceptRanges::NoRanges,
                mime: html_type(),
                body: not_found_body(),
            },
        ),
{
}

/// The response to a regular file has status OK, offers byte ranges, gives
/// the file's exact byte count as its Content-Length and the type sniffed
/// from the file's leading bytes as its Content-Type, and ends with the
/// file's bytes.
pub proof fn file_is_served_whole(
    path: Seq<u8>,
    root: Seq<Seq<char>>,
    content: Vec<u8>,
    v: Version,
    resp: HttpResponse,
)
    requires
        resp.is_made_of(v, parts_of(path, root, Served::File(content)).unwrap()),
    ensures
        resp.spec_status() == ResponseStatus::OK,
        resp.spec_accept_ranges() == AcceptRanges::Bytes,
        resp.spec_content_length() == content@.len(),
        resp.spec_body() == wire(
            v,
            ResponseStatus::OK,
            AcceptRanges::Bytes,
            crate::mime::content_type_of(content@),
            content@,
        ),
        resp.spec_body().subrange(
            resp.spec_body().len() - content@.len(),
            resp.spec_body().len() as int,
        ) == content@,
{
    let b = resp.spec_body();
    assert(b.subrange(b.len() - content@.len(), b.len() as int) =~= content@);
}

/// A directory listing holds, after the optional link back up, exactly one
/// link per immediate child and nothing else; each targets `/` followed by
/// the child's path relative to the root, and shows the child's name. Where
/// the children's names differ, so do the targets of their links.
pub proof fn listing_links_each_child_once(
    path: Seq<u8>,
    root: Seq<Seq<char>>,
    dir: Seq<Seq<char>>,
    children: Seq<Seq<char>>,
)
    ensures
        ({
            let links = listing_links(path, root, dir, children);
            let back: int = if dir == root { 0 } else { 1 };
            &&& links.len() == back + children.len()
            &&& forall|i: int|
                0 <= i < children.len() ==> #[trigger] links[back + i] == Link {
                    href: relative_prefix(root, dir) + utf8(children[i]),
                    text: utf8(children[i]),
                }
            &&& forall|i: int, j: int|
                0 <= i < children.len() && 0 <= j < children.len() && children[i] != children[j]
                    ==> #[trigger] links[back + i].href != #[trigger] links[back + j].href
        }),
{
    broadcast use vstd::utf8::encode_utf8_decode_utf8;

    let links = listing_links(path, root, dir, children);
    let back: int = if dir == root { 0 } else { 1 };
    let pre = relative_prefix(root, dir);
    assert forall|i: int, j: int|
        0 <= i < children.len() && 0 <= j < children.len() && children[i] != children[j]
            implies #[trigger] links[back + i].href != #[trigger] links[back + j].href by {
        if links[back + i].href == links[back + j].href {
            let a = utf8(children[i]);
            let c = utf8(children[j]);
            assert(pre + a == pre + c);
            assert(a =~= (pre + a).subrange(pre.len() as int, (pre + a).len() as int));
            assert(c =~= (pre + c).subrange(pre.len() as int, (pre + c).len() as int));
            assert(vstd::utf8::decode_utf8(a) == children[i]);
        }
    }
}

/// Where the listed directory is not the root, the listing's first link,
/// and only that one, goes back up to the parent of the requested path;
/// at the root the listing holds the children's links alone.
pub proof fn listing_goes_back_up_once(
    path: Seq<u8>,
    root: Seq<Seq<char>>,
    dir: Seq<Seq<char>>,
    children: Seq<Seq<char>>,
)
    ensures
        dir != root ==> (listing_links(path, root, dir, children)[0] == (Link {
            href: crate::path::parent_of(path),
            text: back_text(),
        }) && listing_links(path, root, dir, children).drop_first() == child_links(
            relative_prefix(root, dir),
            children,
        )),
        dir == root ==> listing_links(path, root, dir, children) == child_links(
            relative_prefix(root, dir),
            children,
        ),
{
    let links = listing_links(path, root, dir, children);
    if dir != root {
        assert(links.drop_first() =~= child_links(relative_prefix(root, dir), children));
    } else {
        assert(links =~= child_links(relative_prefix(root, dir), children));
    }
}

/// Two responses built for the same request from the same file-system
/// state are byte for byte the same.
pub proof fn same_request_same_response(
    request: HttpRequest,
    root: Seq<Seq<char>>,
    served: Served,
    first: HttpResponse,
    second: HttpResponse,
)
    requires
        (parts_of(utf8(request.path@), root, served) is Some),
        first.is_made_of(request.version, parts_of(utf8(request.path@), root, served).unwrap()),
        second.is_made_of(request.version, parts_of(utf8(request.path@), root, served).unwrap()),
    ensures
        first.spec_body() == second.spec_body(),
        first.spec_status() == second.spec_status(),
        first.spec_content_length() == second.spec_content_length(),
{
}

} // verus!
