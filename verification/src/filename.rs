//! Derivation of a local file name from a URL: the final path segment,
//! everything after the last '/', case preserved, query-string artifacts
//! included when they sit in that segment. Two distinct URLs that share a
//! final segment map to the same name on purpose: that collision drives the
//! download dedup.

use vstd::prelude::*;
use vstd::string::StrSliceExecFns;
use vstd::string::StringExecFns;

use crate::errors::DownloadError;

verus! {

/// Whether the sequence holds a '/' anywhere.
pub open spec fn contains_slash(s: Seq<char>) -> bool {
    exists|i: int| 0 <= i < s.len() && s[i] == '/'
}

/// The final path segment of a URL: its longest suffix without a '/'.
pub open spec fn final_segment(s: Seq<char>) -> Seq<char>
    decreases s.len(),
{
    if s.len() == 0 {
        Seq::empty()
    } else if s[s.len() - 1] == '/' {
        Seq::empty()
    } else {
        final_segment(s.drop_last()).push(s[s.len() - 1])
    }
}

/// The file name derived from a URL: its final path segment, present exactly
/// when the URL holds a '/' and the segment after the last '/' is non-empty.
/// A URL without any '/' has no '/'-delimited segment, and a URL ending in
/// '/' has an empty one that cannot name a file: both derive nothing.
pub open spec fn derived_file_name(url: Seq<char>) -> Option<Seq<char>> {
    if contains_slash(url) && final_segment(url).len() > 0 {
        Some(final_segment(url))
    } else {
        None
    }
}

/// After the last '/', the final segment is exactly the rest of the URL.
proof fn lemma_final_segment_after_slash(s: Seq<char>, k: int)
    requires
        0 <= k < s.len(),
        s[k] == '/',
        forall|j: int| k < j < s.len() ==> s[j] != '/',
    ensures
        final_segment(s) == s.subrange(k + 1, s.len() as int),
    decreases s.len(),
{
    if k == s.len() - 1 {
        assert(final_segment(s) =~= s.subrange(k + 1, s.len() as int));
    } else {
        let t = s.drop_last();
        assert(forall|j: int| k < j < t.len() ==> t[j] != '/');
        lemma_final_segment_after_slash(t, k);
        assert(final_segment(s) =~= s.subrange(k + 1, s.len() as int));
    }
}

/// Extract a file's name from its URL: everything after the last '/'. A URL
/// with no '/' at all, or one whose segment after the last '/' is empty, is
/// rejected as invalid.
pub fn extract_file_name_from_url(image_url: &str) -> (r: Result<String, DownloadError>)
    ensures
        match r {
            Ok(name) => derived_file_name(image_url@) == Some(name@),
            Err(e) => derived_file_name(image_url@) is None && (e
                matches DownloadError::InvalidUrl { url } && url@ == image_url@),
        },
{
    let n = image_url.unicode_len();
    let mut last_slash: Option<usize> = None;
    let mut i: usize = 0;
    while i < n
        invariant
            n == image_url@.len(),
            i <= n,
            match last_slash {
                None => forall|j: int| 0 <= j < i ==> image_url@[j] != '/',
                Some(k) => k < i && image_url@[k as int] == '/' && forall|j: int|
                    k < j < i ==> image_url@[j] != '/',
            },
        decreases n - i,
    {
        if image_url.get_char(i) == '/' {
            last_slash = Some(i);
        }
        i = i + 1;
    }
    match last_slash {
        None => {
            proof {
                assert(!contains_slash(image_url@));
            }
            Err(DownloadError::InvalidUrl { url: image_url.to_owned() })
        },
        Some(k) => {
            if k + 1 == n {
                proof {
                    assert(final_segment(image_url@).len() == 0);
                }
                Err(DownloadError::InvalidUrl { url: image_url.to_owned() })
            } else {
                let seg = image_url.substring_char(k + 1, n);
                proof {
                    lemma_final_segment_after_slash(image_url@, k as int);
                    assert(contains_slash(image_url@));
                }
                Ok(String::from_str(seg))
            }
        },
    }
}

/// Law: two URLs whose final path segments agree derive the same file name;
/// in particular two distinct URLs may collide on one name.
pub proof fn lemma_colliding_urls_share_name(u1: Seq<char>, u2: Seq<char>)
    requires
        final_segment(u1) == final_segment(u2),
        contains_slash(u1) == contains_slash(u2),
    ensures
        derived_file_name(u1) == derived_file_name(u2),
{
}

} // verus!
