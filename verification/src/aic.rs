//! The Art Institute of Chicago: a keyword search on a random page gives
//! records, and those with an image go into a [`Lineup`].

use crate::candidate::{
    candidate_views, or_empty, or_text, text_or, Candidate, CandidateView,
};
use crate::error::{is_error, ErrorKind, FetchError};
use crate::http::{
    join, parsed, read_reply, reply_failure, JsonReply, Param, Request, RequestView, USER_AGENT,
};
use crate::lineup::{Lineup, LineupStep};
use crate::random::random_range;
use crate::text::{decimal, numbered, strip_html, strip_tags};
use vstd::prelude::*;
use vstd::std_specs::iter::IteratorSpec;
use vstd::string::StringExecFns;

verus! {

/// What the search answers.
#[derive(Debug)]
pub struct AicSearchResponse {
    pub data: Vec<AicArtwork>,
    pub config: AicConfig,
}

/// The part of the answer that says where the images are served from.
#[derive(Debug)]
pub struct AicConfig {
    pub iiif_url: String,
}

/// One record of the answer.
#[derive(Debug)]
pub struct AicArtwork {
    pub id: u64,
    pub title: Option<String>,
    pub artist_display: Option<String>,
    pub date_display: Option<String>,
    pub medium_display: Option<String>,
    pub image_id: Option<String>,
}

/// Where the images are served from when the answer names a
/// configuration without saying so.
pub fn default_iiif_url() -> (url: String)
    ensures
        url@ == "https://www.artic.edu/iiif/2"@,
{
    "https://www.artic.edu/iiif/2".to_owned()
}

/// The keywords that a search draws from.
pub open spec fn aic_terms() -> Seq<Seq<char>> {
    seq![
        "painting"@,
        "landscape"@,
        "impressionist"@,
        "modern"@,
        "watercolor"@,
        "oil"@,
        "portrait"@,
        "nature"@,
        "classical"@,
        "abstract"@,
    ]
}

fn aic_term(i: usize) -> (term: &'static str)
    requires
        i < aic_terms().len(),
    ensures
        term@ == aic_terms()[i as int],
{
    if i == 0 {
        "painting"
    } else if i == 1 {
        "landscape"
    } else if i == 2 {
        "impressionist"
    } else if i == 3 {
        "modern"
    } else if i == 4 {
        "watercolor"
    } else if i == 5 {
        "oil"
    } else if i == 6 {
        "portrait"
    } else if i == 7 {
        "nature"
    } else if i == 8 {
        "classical"
    } else {
        "abstract"
    }
}

/// The first result page that a search may ask for.
pub const AIC_FIRST_PAGE: usize = 1;

/// The last result page that a search may ask for.
pub const AIC_LAST_PAGE: usize = 5;

/// The search for `term`: page `page` of the results, twenty to a page,
/// with the fields that a candidate is made of.
pub open spec fn aic_search_request(term: Seq<char>, page: usize) -> RequestView {
    RequestView {
        url: "https://api.artic.edu/api/v1/artworks/search"@,
        query: seq![
            ("q"@, term),
            ("fields"@, "id,title,artist_display,date_display,medium_display,image_id"@),
            ("limit"@, "20"@),
            ("page"@, decimal(page as nat)),
        ],
        headers: seq![("AIC-User-Agent"@, USER_AGENT@)],
    }
}

/// The address of the image `image_id` on the server `iiif_url`, 843
/// pixels wide.
pub open spec fn aic_image_url(iiif_url: Seq<char>, image_id: Seq<char>) -> Seq<char> {
    iiif_url + "/"@ + image_id + "/full/843,/0/default.jpg"@
}

/// The candidate that a record makes, if it names an image: the title
/// without markup, and a placeholder for each missing description.
pub open spec fn aic_candidate(record: AicArtwork, iiif_url: Seq<char>) -> Option<CandidateView> {
    match record.image_id {
        Some(image_id) => Some(
            CandidateView {
                id: "aic-"@ + decimal(record.id as nat),
                title: strip_tags(text_or(record.title, "Untitled"@)),
                artist: text_or(record.artist_display, "Unknown Artist"@),
                date: text_or(record.date_display, Seq::empty()),
                medium: text_or(record.medium_display, Seq::empty()),
                source: "Art Institute of Chicago"@,
                image_url: aic_image_url(iiif_url, image_id@),
            },
        ),
        None => None,
    }
}

/// The candidates that the records make, in the order of the records.
pub open spec fn aic_candidates(records: Seq<AicArtwork>, iiif_url: Seq<char>) -> Seq<
    CandidateView,
>
    decreases records.len(),
{
    if records.len() == 0 {
        Seq::empty()
    } else {
        let before = aic_candidates(records.drop_last(), iiif_url);
        match aic_candidate(records.last(), iiif_url) {
            Some(candidate) => before.push(candidate),
            None => before,
        }
    }
}

/// The candidate that a record makes, if it names an image.
pub fn normalize_aic(record: AicArtwork, iiif_url: &str) -> (candidate: Option<Candidate>)
    ensures
        match candidate {
            Some(c) => aic_candidate(record, iiif_url@) == Some(c@),
            None => aic_candidate(record, iiif_url@) is None,
        },
{
    let image_id = match record.image_id {
        Some(image_id) => image_id,
        None => {
            return None;
        },
    };
    let mut image_url = join(iiif_url, "/");
    image_url.append(image_id.as_str());
    image_url.append("/full/843,/0/default.jpg");
    let title = or_text(record.title, "Untitled");
    Some(
        Candidate {
            id: numbered("aic-", record.id),
            title: strip_html(title.as_str()),
            artist: or_text(record.artist_display, "Unknown Artist"),
            date: or_empty(record.date_display),
            medium: or_empty(record.medium_display),
            source: "Art Institute of Chicago".to_owned(),
            image_url,
        },
    )
}

/// The candidates that the records make, in the order of the records.
pub fn collect_aic(records: Vec<AicArtwork>, iiif_url: &str) -> (candidates: Vec<Candidate>)
    ensures
        candidate_views(candidates@) == aic_candidates(records@, iiif_url@),
{
    broadcast use vstd::std_specs::vec::group_vec_axioms;

    let ghost all = records@;
    let mut candidates: Vec<Candidate> = Vec::new();
    let iter = records.into_iter();
    assert(iter.remaining() == all);
    assert(candidate_views(candidates@) =~= aic_candidates(all.take(0), iiif_url@));
    for record in it: iter
        invariant
            it.seq() == all,
            candidate_views(candidates@) == aic_candidates(all.take(it.index()), iiif_url@),
    {
        proof {
            let next = all.take(it.index() + 1);
            assert(next.drop_last() == all.take(it.index()));
            assert(next.last() == record);
        }
        let ghost before = candidates@;
        match normalize_aic(record, iiif_url) {
            Some(candidate) => {
                candidates.push(candidate);
                assert(candidate_views(candidates@) =~= candidate_views(before).push(candidate@));
            },
            None => {},
        }
    }
    assert(all.take(all.len() as int) == all);
    candidates
}

/// A search that is under way.
#[derive(Debug)]
pub struct AicSearch {
    pub term: String,
    pub page: usize,
}

/// Whether `step` follows the search that was answered with `reply`. A
/// failed search ends the fetch, and so does one without a record that
/// names an image. Otherwise the candidates are to be shuffled.
pub open spec fn aic_searched(reply: JsonReply<AicSearchResponse>, step: LineupStep) -> bool {
    match parsed(reply) {
        Some(found) => {
            let candidates = aic_candidates(found.data@, found.config.iiif_url@);
            if candidates.len() == 0 {
                step matches LineupStep::Done(r) && is_error(
                    r,
                    ErrorKind::NoResults,
                    "No AIC artworks with images"@,
                )
            } else {
                &&& step matches LineupStep::Shuffle(lineup)
                &&& candidate_views(lineup.candidates@) == candidates
                &&& lineup.exhausted@ == "Could not find AIC artwork with valid image"@
            }
        },
        None => step matches LineupStep::Done(Err(e)) && reply_failure(
            reply,
            "AIC search failed: "@,
            "AIC parse failed: "@,
        ) == Some((e.kind(), e.text())),
    }
}

/// Begins a fetch: the search for a keyword drawn from [`aic_terms`], on a
/// page drawn from [`AIC_FIRST_PAGE`] to [`AIC_LAST_PAGE`].
pub fn fetch_aic_artwork() -> (search: AicSearch)
    ensures
        aic_terms().contains(search.term@),
        AIC_FIRST_PAGE <= search.page <= AIC_LAST_PAGE,
{
    let i = random_range(0, 10);
    let page = random_range(AIC_FIRST_PAGE, AIC_LAST_PAGE + 1);
    AicSearch { term: aic_term(i).to_owned(), page }
}

impl AicSearch {
    /// The request to send.
    pub fn request(&self) -> (request: Request)
        ensures
            request@ == aic_search_request(self.term@, self.page),
    {
        let mut query: Vec<Param> = Vec::new();
        query.push(Param::new("q", self.term.as_str()));
        query.push(
            Param::new("fields", "id,title,artist_display,date_display,medium_display,image_id"),
        );
        query.push(Param::new("limit", "20"));
        let page = numbered("", self.page as u64);
        proof {
            reveal_strlit("");
            assert(page@ =~= decimal(self.page as nat));
        }
        query.push(Param::new("page", page.as_str()));
        let mut headers: Vec<Param> = Vec::new();
        headers.push(Param::new("AIC-User-Agent", USER_AGENT));
        let request = Request {
            url: "https://api.artic.edu/api/v1/artworks/search".to_owned(),
            query,
            headers,
        };
        assert(request@.query =~= aic_search_request(self.term@, self.page).query);
        assert(request@.headers =~= aic_search_request(self.term@, self.page).headers);
        request
    }

    /// Takes the answer to the search.
    pub fn search_done(self, reply: JsonReply<AicSearchResponse>) -> (step: LineupStep)
        ensures
            aic_searched(reply, step),
    {
        match read_reply(reply, "AIC search failed: ", "AIC parse failed: ") {
            Ok(found) => {
                let candidates = collect_aic(found.data, found.config.iiif_url.as_str());
                if candidates.len() == 0 {
                    LineupStep::Done(
                        Err(FetchError::NoResults("No AIC artworks with images".to_owned())),
                    )
                } else {
                    LineupStep::Shuffle(
                        Lineup {
                            candidates,
                            exhausted: "Could not find AIC artwork with valid image".to_owned(),
                        },
                    )
                }
            },
            Err(e) => LineupStep::Done(Err(e)),
        }
    }
}

} // verus!
