//! The index renderer: a static HTML document that references each
//! downloaded file name in input order. The renderer reorders nothing and
//! deduplicates nothing: a repeated name is listed again.

use vstd::prelude::*;
use vstd::string::StringExecFns;

use crate::names_of;

verus! {

/// The image reference emitted for one file name.
pub open spec fn image_tag(name: Seq<char>) -> Seq<char> {
    "<img src=\""@ + name + "\">\n"@
}

/// The image references of all the names, in input order.
pub open spec fn image_tags(names: Seq<Seq<char>>) -> Seq<char>
    decreases names.len(),
{
    if names.len() == 0 {
        Seq::empty()
    } else {
        image_tags(names.drop_last()) + image_tag(names.last())
    }
}

/// The whole index document for the given names.
pub open spec fn rendered_index(names: Seq<Seq<char>>) -> Seq<char> {
    "<!DOCTYPE html>\n<html>\n<body>\n"@ + image_tags(names) + "</body>\n</html>\n"@
}

/// Generate an html page that contains all of the downloaded images: one
/// image reference per gallery entry, in gallery order.
pub fn generate_html(images: Vec<String>) -> (r: String)
    ensures
        r@ == rendered_index(names_of(images@)),
{
    let mut html = String::from_str("<!DOCTYPE html>\n<html>\n<body>\n");
    let mut i: usize = 0;
    proof {
        assert(html@ =~= "<!DOCTYPE html>\n<html>\n<body>\n"@ + image_tags(
            names_of(images@).take(0),
        ));
    }
    while i < images.len()
        invariant
            i <= images@.len(),
            html@ == "<!DOCTYPE html>\n<html>\n<body>\n"@ + image_tags(
                names_of(images@).take(i as int),
            ),
        decreases images@.len() - i,
    {
        let ghost prev = html@;
        html.append("<img src=\"");
        let name: &String = &images[i];
        html.append(name.as_str());
        html.append("\">\n");
        proof {
            let ns = names_of(images@);
            assert(ns.take(i as int + 1).drop_last() =~= ns.take(i as int));
            assert(ns.take(i as int + 1).last() == ns[i as int]);
            assert(ns[i as int] == images@[i as int]@);
            assert(html@ =~= prev + image_tag(ns[i as int]));
        }
        i = i + 1;
    }
    html.append("</body>\n</html>\n");
    proof {
        assert(names_of(images@).take(images@.len() as int) =~= names_of(images@));
        assert(html@ =~= rendered_index(names_of(images@)));
    }
    html
}

} // verus!
