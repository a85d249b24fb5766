//! The source model: timeframes, the listing tree returned by a source query,
//! and the eligibility filter that turns a listing into image URLs.

use vstd::prelude::*;
use vstd::string::StringExecFns;

use crate::names_of;
use crate::str_eq;

verus! {

/// A rolling lookback window bounding which posts count as "top": the top
/// posts for `Timeframe::Day` are the top posts within the past 24 hours,
/// rather than those of a specific calendar day.
#[derive(Clone, Copy, Debug, PartialEq, Eq, Structural)]
pub enum Timeframe {
    Hour,
    Day,
    Week,
    Month,
    Year,
    All,
}

/// The query-string word that stands for a timeframe in a source query.
pub open spec fn timeframe_query(t: Timeframe) -> Seq<char> {
    match t {
        Timeframe::Hour => "hour"@,
        Timeframe::Day => "day"@,
        Timeframe::Week => "week"@,
        Timeframe::Month => "month"@,
        Timeframe::Year => "year"@,
        Timeframe::All => "all"@,
    }
}

impl Timeframe {
    /// The query-string word for this timeframe.
    pub fn as_query_str(&self) -> (r: &'static str)
        ensures
            r@ == timeframe_query(*self),
    {
        match self {
            Timeframe::Hour => "hour",
            Timeframe::Day => "day",
            Timeframe::Week => "week",
            Timeframe::Month => "month",
            Timeframe::Year => "year",
            Timeframe::All => "all",
        }
    }

    /// The timeframe that a query-string word stands for; any other word is
    /// rejected.
    pub fn from_query_str(s: &str) -> (r: Result<Timeframe, String>)
        ensures
            match r {
                Ok(t) => timeframe_of_query(s@) == Some(t),
                Err(m) => timeframe_of_query(s@) is None && m@ == "Not found"@,
            },
    {
        if str_eq(s, "hour") {
            Ok(Timeframe::Hour)
        } else if str_eq(s, "day") {
            Ok(Timeframe::Day)
        } else if str_eq(s, "week") {
            Ok(Timeframe::Week)
        } else if str_eq(s, "month") {
            Ok(Timeframe::Month)
        } else if str_eq(s, "year") {
            Ok(Timeframe::Year)
        } else if str_eq(s, "all") {
            Ok(Timeframe::All)
        } else {
            Err("Not found".to_owned())
        }
    }
}

impl core::str::FromStr for Timeframe {
    type Err = String;

    /// Create a [Timeframe] from a string holding its query word.
    fn from_str(day: &str) -> Result<Timeframe, String> {
        Timeframe::from_query_str(day)
    }
}

/// The payload of one listing element: the listing root carries the children
/// sequence, and each child (post) carries its own URL, video flag and
/// content hint. Every field is optional; an absent field is a filtering
/// signal, never an error.
pub struct Data {
    pub children: Option<Vec<Wrapper>>,
    pub url: Option<String>,
    pub is_video: Option<bool>,
    pub post_hint: Option<String>,
}

/// Wrapper element: both the top-level object returned by a source query and
/// the wrapping element of each child element (post) in its data.
pub struct Wrapper {
    pub data: Data,
}

/// A post is eligible for download exactly when it is marked as not being a
/// video and its hint classifies it as an image. A missing video flag or a
/// missing hint makes the post ineligible.
pub open spec fn post_eligible(d: Data) -> bool {
    &&& d.is_video == Some(false)
    &&& match d.post_hint {
        Some(h) => h@ == "image"@,
        None => false,
    }
}

/// What one post contributes to the eligible-URL sequence: its URL when the
/// post is eligible and carries one, and nothing otherwise.
pub open spec fn post_urls(w: Wrapper) -> Seq<Seq<char>> {
    match w.data.url {
        Some(u) => if post_eligible(w.data) {
            seq![u@]
        } else {
            Seq::empty()
        },
        None => Seq::empty(),
    }
}

/// The URLs of the eligible posts among `posts`, in listing order.
pub open spec fn eligible_urls(posts: Seq<Wrapper>) -> Seq<Seq<char>>
    decreases posts.len(),
{
    if posts.len() == 0 {
        Seq::empty()
    } else {
        eligible_urls(posts.drop_last()) + post_urls(posts.last())
    }
}

/// The eligible image URLs of a whole listing: those of its children, in the
/// listing's own order; a listing without a children sequence yields none.
pub open spec fn listing_urls(w: Wrapper) -> Seq<Seq<char>> {
    match w.data.children {
        Some(c) => eligible_urls(c@),
        None => Seq::empty(),
    }
}

/// Law: a post marked as a video is excluded no matter its hint; a post
/// whose hint is absent, or is anything but "image", is excluded; a post is
/// included exactly when it is marked as not being a video and its hint is
/// "image".
pub proof fn lemma_eligibility_filter(d: Data)
    ensures
        d.is_video == Some(true) ==> !post_eligible(d),
        d.is_video is None ==> !post_eligible(d),
        d.post_hint is None ==> !post_eligible(d),
        (d.post_hint matches Some(h) && h@ != "image"@) ==> !post_eligible(d),
        post_eligible(d) <==> (d.is_video == Some(false) && (d.post_hint matches Some(h)
            && h@ == "image"@)),
{
}

/// Applies the eligibility filter to a listing, returning the URLs of its
/// eligible posts in the listing's own order; the order of the source's own
/// ranking is kept, nothing is re-sorted.
pub fn eligible_image_urls(listing: &Wrapper) -> (r: Vec<String>)
    ensures
        names_of(r@) == listing_urls(*listing),
{
    let mut urls: Vec<String> = Vec::new();
    match &listing.data.children {
        None => {
            proof {
                assert(names_of(urls@) =~= Seq::<Seq<char>>::empty());
            }
            urls
        },
        Some(posts) => {
            let mut i: usize = 0;
            while i < posts.len()
                invariant
                    i <= posts@.len(),
                    names_of(urls@) == eligible_urls(posts@.take(i as int)),
                decreases posts@.len() - i,
            {
                let ghost prev = urls@;
                let p = &posts[i];
                let eligible = match (&p.data.is_video, &p.data.post_hint) {
                    (Some(v), Some(h)) => !*v && str_eq(h.as_str(), "image"),
                    _ => false,
                };
                proof {
                    assert(eligible == post_eligible(posts@[i as int].data));
                }
                if eligible {
                    match &p.data.url {
                        Some(u) => {
                            urls.push(u.clone());
                        },
                        None => {},
                    }
                }
                proof {
                    let ps = posts@;
                    assert(ps.take(i + 1).drop_last() =~= ps.take(i as int));
                    assert(ps.take(i + 1).last() == ps[i as int]);
                    assert(names_of(urls@) =~= names_of(prev) + post_urls(ps[i as int]));
                }
                i = i + 1;
            }
            proof {
                assert(posts@.take(posts@.len() as int) =~= posts@);
            }
            urls
        },
    }
}

/// API implementation object, the main entry point for querying sources:
/// it carries the timeframe that scopes every "top posts" query made
/// through it.
pub struct Api {
    pub timeframe: Timeframe,
}

/// The query URL for the top posts of the named source under the given
/// timeframe.
pub open spec fn top_posts_url_spec(sub: Seq<char>, t: Timeframe) -> Seq<char> {
    "https://reddit.com/r/"@ + sub + "/top.json?t="@ + timeframe_query(t)
}

impl Api {
    /// Construct an API instance with all required fields.
    pub fn new(timeframe: Timeframe) -> (r: Api)
        ensures
            r.timeframe == timeframe,
    {
        Api { timeframe }
    }

    /// The listing query URL for the named source, scoped by this API's
    /// timeframe.
    pub fn top_posts_url(&self, sub: &str) -> (r: String)
        ensures
            r@ == top_posts_url_spec(sub@, self.timeframe),
    {
        let mut url = String::from_str("https://reddit.com/r/");
        url.append(sub);
        url.append("/top.json?t=");
        url.append(self.timeframe.as_query_str());
        proof {
            assert(url@ =~= top_posts_url_spec(sub@, self.timeframe));
        }
        url
    }
}

/// The timeframe that a query-string word stands for, if any.
pub open spec fn timeframe_of_query(s: Seq<char>) -> Option<Timeframe> {
    if s == "hour"@ {
        Some(Timeframe::Hour)
    } else if s == "day"@ {
        Some(Timeframe::Day)
    } else if s == "week"@ {
        Some(Timeframe::Week)
    } else if s == "month"@ {
        Some(Timeframe::Month)
    } else if s == "year"@ {
        Some(Timeframe::Year)
    } else if s == "all"@ {
        Some(Timeframe::All)
    } else {
        None
    }
}

} // verus!
