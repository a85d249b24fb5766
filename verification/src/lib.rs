//! Fetches "top post" listings from named content sources, filters them down
//! to direct image links, downloads the images into a target directory while
//! deduplicating by derived file name, and renders a static HTML index of the
//! downloaded files.
//!
//! This crate holds the decision logic of that pipeline: the timeframe model,
//! the eligibility filter over a listing, file-name derivation, the download
//! step decisions, gallery assembly, and the index renderer. The surrounding
//! program performs the network and file-system effects and feeds their
//! outcomes back in as plain values.

use vstd::prelude::*;

pub mod download;
pub mod errors;
pub mod filename;
pub mod html;
pub mod pipeline;
pub mod reddit;

use vstd::string::StrSliceExecFns;

verus! {

/// The character sequences of each name in a list, in order.
pub open spec fn names_of(v: Seq<String>) -> Seq<Seq<char>> {
    v.map_values(|s: String| s@)
}

/// Whether two string slices hold the same characters.
pub fn str_eq(a: &str, b: &str) -> (r: bool)
    ensures
        r == (a@ == b@),
{
    let alen = a.unicode_len();
    let blen = b.unicode_len();
    if alen != blen {
        return false;
    }
    let mut i: usize = 0;
    while i < alen
        invariant
            alen == a@.len(),
            blen == b@.len(),
            alen == blen,
            i <= alen,
            forall|j: int| 0 <= j < i ==> a@[j] == b@[j],
        decreases alen - i,
    {
        if a.get_char(i) != b.get_char(i) {
            return false;
        }
        i = i + 1;
    }
    proof {
        assert(a@ =~= b@);
    }
    true
}

} // verus!
