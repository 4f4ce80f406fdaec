//! The Cleveland Museum of Art: a keyword search from a random offset,
//! restricted to paintings in the public domain, gives records, and those
//! with an image address go into a [`Lineup`].

use crate::candidate::{
    candidate_views, or_empty, or_text, text_or, Candidate, CandidateView,
};
use crate::error::{is_error, ErrorKind, FetchError};
use crate::http::{parsed, read_reply, reply_failure, JsonReply, Param, Request, RequestView};
use crate::lineup::{Lineup, LineupStep};
use crate::random::random_range;
use crate::text::{decimal, numbered, strip_html, strip_tags};
use vstd::prelude::*;
use vstd::std_specs::iter::IteratorSpec;

verus! {

/// What the search answers.
#[derive(Debug)]
pub struct CmaSearchResponse {
    pub data: Vec<CmaArtwork>,
}

/// One record of the answer.
#[derive(Debug)]
pub struct CmaArtwork {
    pub id: u64,
    pub title: Option<String>,
    pub creators: Vec<CmaCreator>,
    pub creation_date: Option<String>,
    pub technique: Option<String>,
    pub images: Option<CmaImages>,
}

/// Someone who made the work.
#[derive(Debug)]
pub struct CmaCreator {
    pub description: Option<String>,
}

/// The images of a record.
#[derive(Debug)]
pub struct CmaImages {
    pub web: Option<CmaImageVariant>,
}

/// One rendition of an image.
#[derive(Debug)]
pub struct CmaImageVariant {
    pub url: Option<String>,
}

/// The keywords that a search draws from.
pub open spec fn cma_terms() -> Seq<Seq<char>> {
    seq![
        "painting"@,
        "landscape"@,
        "portrait"@,
        "impressionist"@,
        "modern"@,
        "still life"@,
        "abstract"@,
        "nature"@,
        "classical"@,
        "oil"@,
    ]
}

fn cma_term(i: usize) -> (term: &'static str)
    requires
        i < cma_terms().len(),
    ensures
        term@ == cma_terms()[i as int],
{
    if i == 0 {
        "painting"
    } else if i == 1 {
        "landscape"
    } else if i == 2 {
        "portrait"
    } else if i == 3 {
        "impressionist"
    } else if i == 4 {
        "modern"
    } else if i == 5 {
        "still life"
    } else if i == 6 {
        "abstract"
    } else if i == 7 {
        "nature"
    } else if i == 8 {
        "classical"
    } else {
        "oil"
    }
}

/// A search skips fewer results than this.
pub const CMA_SKIP_LIMIT: usize = 100;

/// The search for `term`: twenty paintings in the public domain that have
/// an image, after the first `skip` results.
pub open spec fn cma_search_request(term: Seq<char>, skip: usize) -> RequestView {
    RequestView {
        url: "https://openaccess-api.clevelandart.org/api/artworks/"@,
        query: seq![
            ("q"@, term),
            ("has_image"@, "1"@),
            ("cc0"@, "1"@),
            ("type"@, "Painting"@),
            ("limit"@, "20"@),
            ("skip"@, decimal(skip as nat)),
        ],
        headers: Seq::empty(),
    }
}

/// The address of the web rendition among `images`, if there is one that
/// is not empty.
pub open spec fn web_address(images: Option<CmaImages>) -> Option<String> {
    match images {
        Some(images) => match images.web {
            Some(web) => match web.url {
                Some(url) if url@.len() > 0 => Some(url),
                _ => None,
            },
            None => None,
        },
        None => None,
    }
}

/// The artist of a record: what it says of its first creator.
pub open spec fn cma_artist(record: CmaArtwork) -> Seq<char> {
    if record.creators@.len() > 0 {
        text_or(record.creators@[0].description, "Unknown Artist"@)
    } else {
        "Unknown Artist"@
    }
}

/// The candidate that a record makes, if it has an image address: the
/// title without markup, and a placeholder for each missing description.
pub open spec fn cma_candidate(record: CmaArtwork) -> Option<CandidateView> {
    match web_address(record.images) {
        Some(url) => Some(
            CandidateView {
                id: "cma-"@ + decimal(record.id as nat),
                title: strip_tags(text_or(record.title, "Untitled"@)),
                artist: cma_artist(record),
                date: text_or(record.creation_date, Seq::empty()),
                medium: text_or(record.technique, Seq::empty()),
                source: "Cleveland Museum of Art"@,
                image_url: url@,
            },
        ),
        None => None,
    }
}

/// The candidates that the records make, in the order of the records.
pub open spec fn cma_candidates(records: Seq<CmaArtwork>) -> Seq<CandidateView>
    decreases records.len(),
{
    if records.len() == 0 {
        Seq::empty()
    } else {
        let before = cma_candidates(records.drop_last());
        match cma_candidate(records.last()) {
            Some(candidate) => before.push(candidate),
            None => before,
        }
    }
}

fn web_url(images: Option<CmaImages>) -> (url: Option<String>)
    ensures
        url == web_address(images),
{
    match images {
        Some(images) => match images.web {
            Some(web) => match web.url {
                Some(url) => {
                    if url.as_str().is_empty() {
                        None
                    } else {
                        Some(url)
                    }
                },
                None => None,
            },
            None => None,
        },
        None => None,
    }
}

/// The candidate that a record makes, if it has an image address.
pub fn normalize_cma(record: CmaArtwork) -> (candidate: Option<Candidate>)
    ensures
        match candidate {
            Some(c) => cma_candidate(record) == Some(c@),
            None => cma_candidate(record) is None,
        },
{
    let image_url = match web_url(record.images) {
        Some(url) => url,
        None => {
            return None;
        },
    };
    let mut creators = record.creators;
    let artist = if creators.len() > 0 {
        or_text(creators.swap_remove(0).description, "Unknown Artist")
    } else {
        "Unknown Artist".to_owned()
    };
    let title = or_text(record.title, "Untitled");
    Some(
        Candidate {
            id: numbered("cma-", record.id),
            title: strip_html(title.as_str()),
            artist,
            date: or_empty(record.creation_date),
            medium: or_empty(record.technique),
            source: "Cleveland Museum of Art".to_owned(),
            image_url,
        },
    )
}

/// The candidates that the records make, in the order of the records.
pub fn collect_cma(records: Vec<CmaArtwork>) -> (candidates: Vec<Candidate>)
    ensures
        candidate_views(candidates@) == cma_candidates(records@),
{
    broadcast use vstd::std_specs::vec::group_vec_axioms;

    let ghost all = records@;
    let mut candidates: Vec<Candidate> = Vec::new();
    let iter = records.into_iter();
    assert(iter.remaining() == all);
    assert(candidate_views(candidates@) =~= cma_candidates(all.take(0)));
    for record in it: iter
        invariant
            it.seq() == all,
            candidate_views(candidates@) == cma_candidates(all.take(it.index())),
    {
        proof {
            let next = all.take(it.index() + 1);
            assert(next.drop_last() == all.take(it.index()));
            assert(next.last() == record);
        }
        let ghost before = candidates@;
        match normalize_cma(record) {
            Some(candidate) => {
                candidates.push(candidate);
                assert(candidate_views(candidates@) =~= candidate_views(before).push(candidate@));
            },
            None => {},
        }
    }
    assert(all.take(all.len() as int) == all);
    candidates
}

/// A search that is under way.
#[derive(Debug)]
pub struct CmaSearch {
    pub term: String,
    pub skip: usize,
}

/// Whether `step` follows the search that was answered with `reply`. A
/// failed search ends the fetch, and so does one without a record that
/// has an image address. Otherwise the candidates are to be shuffled.
pub open spec fn cma_searched(reply: JsonReply<CmaSearchResponse>, step: LineupStep) -> bool {
    match parsed(reply) {
        Some(found) => {
            let candidates = cma_candidates(found.data@);
            if candidates.len() == 0 {
                step matches LineupStep::Done(r) && is_error(
                    r,
                    ErrorKind::NoResults,
                    "No CMA artworks with images"@,
                )
            } else {
                &&& step matches LineupStep::Shuffle(lineup)
                &&& candidate_views(lineup.candidates@) == candidates
                &&& lineup.exhausted@ == "Could not find CMA artwork with valid image"@
            }
        },
        None => step matches LineupStep::Done(Err(e)) && reply_failure(
            reply,
            "CMA search failed: "@,
            "CMA parse failed: "@,
        ) == Some((e.kind(), e.text())),
    }
}

/// Begins a fetch: the search for a keyword drawn from [`cma_terms`],
/// after a number of results drawn below [`CMA_SKIP_LIMIT`].
pub fn fetch_cma_artwork() -> (search: CmaSearch)
    ensures
        cma_terms().contains(search.term@),
        search.skip < CMA_SKIP_LIMIT,
{
    let i = random_range(0, 10);
    let skip = random_range(0, CMA_SKIP_LIMIT);
    CmaSearch { term: cma_term(i).to_owned(), skip }
}

impl CmaSearch {
    /// The request to send.
    pub fn request(&self) -> (request: Request)
        ensures
            request@ == cma_search_request(self.term@, self.skip),
    {
        let mut query: Vec<Param> = Vec::new();
        query.push(Param::new("q", self.term.as_str()));
        query.push(Param::new("has_image", "1"));
        query.push(Param::new("cc0", "1"));
        query.push(Param::new("type", "Painting"));
        query.push(Param::new("limit", "20"));
        let skip = numbered("", self.skip as u64);
        proof {
            reveal_strlit("");
            assert(skip@ =~= decimal(self.skip as nat));
        }
        query.push(Param::new("skip", skip.as_str()));
        let request = Request {
            url: "https://openaccess-api.clevelandart.org/api/artworks/".to_owned(),
            query,
            headers: Vec::new(),
        };
        assert(request@.query =~= cma_search_request(self.term@, self.skip).query);
        assert(request@.headers =~= Seq::empty());
        request
    }

    /// Takes the answer to the search.
    pub fn search_done(self, reply: JsonReply<CmaSearchResponse>) -> (step: LineupStep)
        ensures
            cma_searched(reply, step),
    {
        match read_reply(reply, "CMA search failed: ", "CMA parse failed: ") {
            Ok(found) => {
                let candidates = collect_cma(found.data);
                if candidates.len() == 0 {
                    LineupStep::Done(
                        Err(FetchError::NoResults("No CMA artworks with images".to_owned())),
                    )
                } else {
                    LineupStep::Shuffle(
                        Lineup {
                            candidates,
                            exhausted: "Could not find CMA artwork with valid image".to_owned(),
                        },
                    )
                }
            },
            Err(e) => LineupStep::Done(Err(e)),
        }
    }
}

} // verus!
