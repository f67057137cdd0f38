//! The pure part of the static-file HTTP server: rendering a directory
//! listing as an HTML page. The server itself, and every read of the file
//! system, live with the caller.

use vstd::prelude::*;
use vstd::string::StringExecFns;

verus! {

/// State shared by the server's request handlers: the directory being
/// served.
#[derive(Debug, Clone)]
pub struct HttpServeState {
    pub path: String,
}

/// The opening of the listing page, up to and including the opening of the
/// list.
pub open spec fn listing_prefix() -> Seq<char> {
    "<!DOCTYPE html>\n<html>\n<head>\n<title>Home</title>\n</head>\n<body>\n<h1>Directory list</h1>\n<ul>\n"@
}

/// The closing of the listing page.
pub open spec fn listing_suffix() -> Seq<char> {
    "</ul>\n</body>\n</html>\n"@
}

/// One list entry: a link whose target and text are both the entry's name.
pub open spec fn listing_item(name: Seq<char>) -> Seq<char> {
    "<li><a href=\""@ + name + "\">"@ + name + "</a></li>\n"@
}

/// The list entries of all names, in order.
pub open spec fn listing_items(names: Seq<Seq<char>>) -> Seq<char>
    decreases names.len(),
{
    if names.len() == 0 {
        Seq::empty()
    } else {
        listing_items(names.drop_last()) + listing_item(names.last())
    }
}

/// The whole listing page for the given entry names.
pub open spec fn listing_page(names: Seq<Seq<char>>) -> Seq<char> {
    listing_prefix() + listing_items(names) + listing_suffix()
}

/// Render the directory-listing page for the given entry names.
pub fn render_dir_listing(names: &Vec<String>) -> (r: String)
    ensures
        r@ == listing_page(names.deep_view()),
{
    let mut out = String::new();
    out.append(
        "<!DOCTYPE html>\n<html>\n<head>\n<title>Home</title>\n</head>\n<body>\n<h1>Directory list</h1>\n<ul>\n",
    );
    let mut i: usize = 0;
    while i < names.len()
        invariant
            0 <= i <= names@.len(),
            out@ == listing_prefix() + listing_items(names.deep_view().subrange(0, i as int)),
        decreases names@.len() - i,
    {
        out.append("<li><a href=\"");
        out.append(names[i].as_str());
        out.append("\">");
        out.append(names[i].as_str());
        out.append("</a></li>\n");
        proof {
            let all = names.deep_view();
            let upto = all.subrange(0, i as int + 1);
            assert(upto.drop_last() =~= all.subrange(0, i as int));
            assert(upto.last() == names@[i as int]@);
            assert(out@ =~= listing_prefix() + listing_items(upto));
        }
        i = i + 1;
    }
    proof {
        assert(names.deep_view().subrange(0, names@.len() as int) =~= names.deep_view());
    }
    out.append("</ul>\n</body>\n</html>\n");
    out
}

} // verus!
