//! Assembly of the final gallery: the coordinator's decisions. Source
//! listings and image downloads may run concurrently, but the gallery is
//! assembled deterministically: contributions are concatenated by source
//! position, and within one source the source's own URL order is kept, so
//! the completion order of concurrent work never shows in the result.

use vstd::prelude::*;

use crate::errors::{DownloadError, FetchError};
use crate::names_of;

verus! {

/// What one source's concurrent work produced.
pub enum SourceOutcome {
    /// The source's listing fetch failed: the source contributes nothing to
    /// the gallery, and the failure never aborts the run.
    ListingFailed { error: FetchError },
    /// The listing was fetched: one download result per eligible URL, in
    /// the source's own order.
    Listed { downloads: Vec<Result<String, DownloadError>> },
}

/// The file names of the successful downloads among `results`, in order.
pub open spec fn successful_names(results: Seq<Result<String, DownloadError>>) -> Seq<Seq<char>>
    decreases results.len(),
{
    if results.len() == 0 {
        Seq::empty()
    } else {
        successful_names(results.drop_last()) + match results.last() {
            Ok(name) => seq![name@],
            Err(_) => Seq::<Seq<char>>::empty(),
        }
    }
}

/// What one source contributes to the gallery: nothing when its listing
/// fetch failed, else the names of its successful downloads in its own
/// order.
pub open spec fn source_contribution(o: SourceOutcome) -> Seq<Seq<char>> {
    match o {
        SourceOutcome::ListingFailed { .. } => Seq::empty(),
        SourceOutcome::Listed { downloads } => successful_names(downloads@),
    }
}

/// The gallery assembled from per-source outcomes: the sources'
/// contributions concatenated in source order.
pub open spec fn gallery(outcomes: Seq<SourceOutcome>) -> Seq<Seq<char>>
    decreases outcomes.len(),
{
    if outcomes.len() == 0 {
        Seq::empty()
    } else {
        gallery(outcomes.drop_last()) + source_contribution(outcomes.last())
    }
}

/// The URL sequence a source hands to the download stage: its eligible URLs
/// when the listing fetch succeeded, and the empty sequence when it failed.
/// A failed source is reported and contributes nothing; it never aborts the
/// other sources or the run.
pub fn urls_or_empty(fetch: Result<Vec<String>, FetchError>) -> (r: Vec<String>)
    ensures
        fetch matches Ok(urls) ==> r == urls,
        fetch matches Err(_) ==> r@ == Seq::<String>::empty(),
{
    match fetch {
        Ok(urls) => urls,
        Err(_) => Vec::new(),
    }
}

/// The file names of the successful downloads, in order: a failed download
/// is dropped from the contribution, and the relative order of the rest is
/// kept.
pub fn collect_successes(results: &Vec<Result<String, DownloadError>>) -> (r: Vec<String>)
    ensures
        names_of(r@) == successful_names(results@),
{
    let mut names: Vec<String> = Vec::new();
    let mut i: usize = 0;
    proof {
        assert(names_of(names@) =~= successful_names(results@.take(0)));
    }
    while i < results.len()
        invariant
            i <= results@.len(),
            names_of(names@) == successful_names(results@.take(i as int)),
        decreases results@.len() - i,
    {
        let ghost prev = names@;
        match &results[i] {
            Ok(name) => {
                names.push(name.clone());
            },
            Err(_) => {},
        }
        proof {
            let rs = results@;
            assert(rs.take(i as int + 1).drop_last() =~= rs.take(i as int));
            assert(rs.take(i as int + 1).last() == rs[i as int]);
            if rs[i as int] is Ok {
                assert(names_of(names@) =~= names_of(prev) + seq![rs[i as int]->Ok_0@]);
            } else {
                assert(names_of(names@) =~= names_of(prev) + Seq::<Seq<char>>::empty());
            }
        }
        i = i + 1;
    }
    proof {
        assert(results@.take(results@.len() as int) =~= results@);
    }
    names
}

/// Assemble the final gallery from the per-source outcomes: contributions
/// concatenated by source position, each in its source's own order.
pub fn assemble_gallery(outcomes: &Vec<SourceOutcome>) -> (r: Vec<String>)
    ensures
        names_of(r@) == gallery(outcomes@),
{
    let mut all: Vec<String> = Vec::new();
    let mut i: usize = 0;
    proof {
        assert(names_of(all@) =~= gallery(outcomes@.take(0)));
    }
    while i < outcomes.len()
        invariant
            i <= outcomes@.len(),
            names_of(all@) == gallery(outcomes@.take(i as int)),
        decreases outcomes@.len() - i,
    {
        let ghost prev = all@;
        match &outcomes[i] {
            SourceOutcome::ListingFailed { .. } => {},
            SourceOutcome::Listed { downloads } => {
                let mut part = collect_successes(downloads);
                all.append(&mut part);
            },
        }
        proof {
            let os = outcomes@;
            assert(os.take(i as int + 1).drop_last() =~= os.take(i as int));
            assert(os.take(i as int + 1).last() == os[i as int]);
            assert(names_of(all@) =~= names_of(prev) + source_contribution(os[i as int]));
        }
        i = i + 1;
    }
    proof {
        assert(outcomes@.take(outcomes@.len() as int) =~= outcomes@);
    }
    all
}

/// Law: for two sources, the gallery is exactly the first source's
/// contribution followed by the second's, whatever order their concurrent
/// work completed in: the gallery is a pure function of the positionally
/// collected outcomes.
pub proof fn lemma_gallery_order(o1: SourceOutcome, o2: SourceOutcome)
    ensures
        gallery(seq![o1, o2]) == source_contribution(o1) + source_contribution(o2),
{
    let s = seq![o1, o2];
    assert(s.last() == o2);
    assert(s.drop_last() =~= seq![o1]);
    assert(seq![o1].last() == o1);
    assert(seq![o1].drop_last() =~= Seq::<SourceOutcome>::empty());
    assert(gallery(Seq::<SourceOutcome>::empty()) == Seq::<Seq<char>>::empty());
    assert(gallery(seq![o1]) == gallery(seq![o1].drop_last()) + source_contribution(o1));
    assert(gallery(seq![o1]) =~= source_contribution(o1));
    assert(gallery(s) == gallery(s.drop_last()) + source_contribution(o2));
    assert(gallery(s) =~= source_contribution(o1) + source_contribution(o2));
}

/// Law: for any number of sources, the gallery is exactly the per-source
/// contributions concatenated in source order: completion order of the
/// concurrent work has no way into the result.
pub proof fn lemma_gallery_is_ordered_concat(outcomes: Seq<SourceOutcome>)
    ensures
        gallery(outcomes) == outcomes.map_values(
            |o: SourceOutcome| source_contribution(o),
        ).flatten(),
    decreases outcomes.len(),
{
    let parts = outcomes.map_values(|o: SourceOutcome| source_contribution(o));
    parts.lemma_flatten_and_flatten_alt_are_equivalent();
    if outcomes.len() == 0 {
        assert(parts.flatten_alt() =~= Seq::<Seq<char>>::empty());
        assert(gallery(outcomes) =~= parts.flatten_alt());
    } else {
        lemma_gallery_is_ordered_concat(outcomes.drop_last());
        let prev = outcomes.drop_last().map_values(|o: SourceOutcome| source_contribution(o));
        prev.lemma_flatten_and_flatten_alt_are_equivalent();
        assert(parts.drop_last() =~= prev);
        assert(parts.last() == source_contribution(outcomes.last()));
        assert(gallery(outcomes) =~= parts.flatten_alt());
    }
}

/// Law: a source whose listing fetch failed contributes nothing: with two
/// sources of which the first failed, the gallery equals exactly the second
/// source's contribution.
pub proof fn lemma_failed_source_drops_out(e: FetchError, o: SourceOutcome)
    ensures
        gallery(seq![SourceOutcome::ListingFailed { error: e }, o]) == source_contribution(o),
{
    lemma_gallery_order(SourceOutcome::ListingFailed { error: e }, o);
    assert(Seq::<Seq<char>>::empty() + source_contribution(o) =~= source_contribution(o));
}

/// Law: a failed download is dropped from its source's contribution and
/// nothing else changes: only that name is omitted, and the surviving names
/// keep their relative order.
pub proof fn lemma_failed_download_omitted(results: Seq<Result<String, DownloadError>>, i: int)
    requires
        0 <= i < results.len(),
        results[i] is Err,
    ensures
        successful_names(results) == successful_names(results.remove(i)),
    decreases results.len(),
{
    if i == results.len() - 1 {
        assert(results.remove(i) =~= results.drop_last());
        assert(successful_names(results) =~= successful_names(results.drop_last()));
    } else {
        let t = results.drop_last();
        lemma_failed_download_omitted(t, i);
        assert(results.remove(i).drop_last() =~= t.remove(i));
        assert(results.remove(i).last() == results.last());
        assert(successful_names(results) =~= successful_names(results.remove(i)));
    }
}

} // verus!
