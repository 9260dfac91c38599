use vstd::prelude::*;
use crate::text::{utf8, push_str};

verus! {

/// How many leading bytes of a file the content sniffer looks at.
pub const SNIFF_WINDOW: usize = 8192;

/// The MIME type that the content sniffer finds in a byte buffer, if any.
pub uninterp spec fn sniffed_mime(buf: Seq<u8>) -> Option<Seq<char>>;

/// The bytes of a file that its type is sniffed from: at most the first
/// `SNIFF_WINDOW`.
pub open spec fn sniff_window(content: Seq<u8>) -> Seq<u8> {
    if content.len() <= SNIFF_WINDOW {
        content
    } else {
        content.subrange(0, SNIFF_WINDOW as int)
    }
}

/// The type given where sniffing finds none.
pub open spec fn octet_stream() -> Seq<u8> {
    utf8("application/octet-stream"@)
}

/// The Content-Type of a file with the given bytes: the type sniffed from
/// its leading bytes, else `application/octet-stream`.
pub open spec fn content_type_of(content: Seq<u8>) -> Seq<u8> {
    match sniffed_mime(sniff_window(content)) {
        Some(m) => utf8(m),
        None => octet_stream(),
    }
}

/// Relies on infer::get: the first known file type whose magic bytes match
/// the buffer, given by its MIME type.
#[verifier::external_body]
fn sniff(buf: &[u8]) -> (r: Option<String>)
    ensures
        r matches Some(m) ==> sniffed_mime(buf@) == Some(m@),
        r is None ==> sniffed_mime(buf@) is None,
{
    infer::get(buf).map(|t| t.mime_type().to_string())
}

/// Appends to `out` the Content-Type of a file that holds `content`.
pub fn push_content_type(out: &mut Vec<u8>, content: &[u8])
    ensures
        final(out)@ == old(out)@ + content_type_of(content@),
{
    let n: usize = if content.len() <= SNIFF_WINDOW {
        content.len()
    } else {
        SNIFF_WINDOW
    };
    proof {
        assert(content@.subrange(0, content@.len() as int) == content@);
    }
    let window = crate::path::copy_range(content, 0, n);
    let found = sniff(window.as_slice());
    match found {
        Some(m) => push_str(out, m.as_str()),
        None => push_str(out, "application/octet-stream"),
    }
}

} // verus!
