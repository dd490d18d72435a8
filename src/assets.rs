//! What the asset reader decides on its own: where an asset is fetched from
//! in the browser, and whether what came back is the asset.
use vstd::prelude::*;
use vstd::string::StringExecFns;

verus! {

/// The address under which the browser fetches the asset at `rel_path`.
pub fn web_asset_path(rel_path: &str) -> (r: String)
    ensures
        r@ == "assets/"@ + rel_path@,
{
    "assets/".to_owned().concat(rel_path)
}

/// The bytes of `<!doctype html>`, in ASCII.
pub open spec fn html_doctype() -> Seq<u8> {
    seq![60u8, 33, 100, 111, 99, 116, 121, 112, 101, 32, 104, 116, 109, 108, 62]
}

/// A body that starts with an HTML doctype: the page that a server hands out
/// for a path it does not have.
pub open spec fn is_html_page(body: Seq<u8>) -> bool {
    body.len() >= html_doctype().len() && body.subrange(0, html_doctype().len() as int) == html_doctype()
}

pub fn starts_with_html_doctype(body: &[u8]) -> (r: bool)
    ensures
        r == is_html_page(body@),
{
    let doctype: Vec<u8> = vec![60u8, 33, 100, 111, 99, 116, 121, 112, 101, 32, 104, 116, 109, 108, 62];
    assert(doctype@ == html_doctype());
    if body.len() < doctype.len() {
        return false;
    }
    let mut i: usize = 0;
    while i < doctype.len()
        invariant
            doctype@ == html_doctype(),
            body@.len() >= doctype@.len(),
            i <= doctype@.len(),
            forall|j: int| 0 <= j < i ==> body@[j] == doctype@[j],
        decreases doctype@.len() - i,
    {
        if body[i] != doctype[i] {
            assert(body@.subrange(0, html_doctype().len() as int)[i as int] != html_doctype()[i as int]);
            return false;
        }
        i = i + 1;
    }
    assert(body@.subrange(0, html_doctype().len() as int) =~= html_doctype());
    true
}

/// The asset in a fetched body: absent when the body is an HTML page.
pub fn asset_from_body(body: Vec<u8>) -> (r: Option<Vec<u8>>)
    ensures
        r == if is_html_page(body@) { None } else { Some(body) },
{
    if starts_with_html_doctype(body.as_slice()) {
        None
    } else {
        Some(body)
    }
}

} // verus!
