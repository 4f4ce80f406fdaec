//! The Metropolitan Museum of Art: a keyword search gives object numbers,
//! and up to [`MAX_ATTEMPTS`] objects drawn from them are looked up one by
//! one until one of them has a usable image.
//!
//! A fetch is a chain of steps. Each step says which request to send, and
//! its `*_done` function takes the answer and gives the next step.

use crate::artwork::{Artwork, ArtworkView};
use crate::candidate::{
    completed, downloaded, filled_or, finish_download, fits, or_empty, or_text, text_or, Candidate,
    CandidateView, MAX_ATTEMPTS,
};
use crate::error::{is_error, ErrorKind, FetchError};
use crate::http::{
    parsed, read_reply, reply_failure, ImageReply, JsonReply, Param, Request, RequestView,
};
use crate::image::{image_request, request_image};
use crate::random::random_range;
use crate::text::{decimal, numbered, strip_html, strip_tags};
use vstd::prelude::*;

verus! {

/// What the search answers.
#[derive(Debug)]
pub struct MetSearchResult {
    pub object_ids: Option<Vec<u64>>,
}

/// What the lookup of one object answers.
#[derive(Debug)]
pub struct MetObject {
    pub object_id: u64,
    pub title: Option<String>,
    pub artist_display_name: Option<String>,
    pub object_date: Option<String>,
    pub medium: Option<String>,
    pub primary_image: Option<String>,
}

/// The keywords that a search draws from.
pub open spec fn met_terms() -> Seq<Seq<char>> {
    seq![
        "painting"@,
        "landscape"@,
        "portrait"@,
        "still life"@,
        "sculpture"@,
        "impressionism"@,
        "renaissance"@,
        "abstract"@,
        "nature"@,
        "mythology"@,
    ]
}

fn met_term(i: usize) -> (term: &'static str)
    requires
        i < met_terms().len(),
    ensures
        term@ == met_terms()[i as int],
{
    if i == 0 {
        "painting"
    } else if i == 1 {
        "landscape"
    } else if i == 2 {
        "portrait"
    } else if i == 3 {
        "still life"
    } else if i == 4 {
        "sculpture"
    } else if i == 5 {
        "impressionism"
    } else if i == 6 {
        "renaissance"
    } else if i == 7 {
        "abstract"
    } else if i == 8 {
        "nature"
    } else {
        "mythology"
    }
}

/// The search for `term`, restricted to objects with images.
pub open spec fn met_search_request(term: Seq<char>) -> RequestView {
    RequestView {
        url: "https://collectionapi.metmuseum.org/public/collection/v1/search"@,
        query: seq![("hasImages"@, "true"@), ("q"@, term)],
        headers: Seq::empty(),
    }
}

/// The lookup of the object with the number `id`.
pub open spec fn met_object_request(id: u64) -> RequestView {
    RequestView {
        url: "https://collectionapi.metmuseum.org/public/collection/v1/objects/"@ + decimal(
            id as nat,
        ),
        query: Seq::empty(),
        headers: Seq::empty(),
    }
}

/// The candidate that an object makes, if it names an image: the title
/// without markup, and a placeholder for each missing description.
pub open spec fn met_candidate(object: MetObject) -> Option<CandidateView> {
    match object.primary_image {
        Some(url) if url@.len() > 0 => Some(
            CandidateView {
                id: "met-"@ + decimal(object.object_id as nat),
                title: strip_tags(text_or(object.title, "Untitled"@)),
                artist: filled_or(object.artist_display_name, "Unknown Artist"@),
                date: text_or(object.object_date, Seq::empty()),
                medium: text_or(object.medium, Seq::empty()),
                source: "The Metropolitan Museum of Art"@,
                image_url: url@,
            },
        ),
        _ => None,
    }
}

/// The candidate that an object makes, if it names an image.
pub fn normalize_met(object: MetObject) -> (candidate: Option<Candidate>)
    ensures
        match candidate {
            Some(c) => met_candidate(object) == Some(c@),
            None => met_candidate(object) is None,
        },
{
    let image_url = match object.primary_image {
        Some(url) => {
            if url.as_str().is_empty() {
                return None;
            }
            url
        },
        None => {
            return None;
        },
    };
    let artist = match object.artist_display_name {
        Some(name) => {
            if name.as_str().is_empty() {
                "Unknown Artist".to_owned()
            } else {
                name
            }
        },
        None => "Unknown Artist".to_owned(),
    };
    let title = or_text(object.title, "Untitled");
    Some(
        Candidate {
            id: numbered("met-", object.object_id),
            title: strip_html(title.as_str()),
            artist,
            date: or_empty(object.object_date),
            medium: or_empty(object.medium),
            source: "The Metropolitan Museum of Art".to_owned(),
            image_url,
        },
    )
}

/// A search that is under way.
#[derive(Debug)]
pub struct MetSearch {
    pub term: String,
}

/// Object numbers to draw from, and how many draws are left.
#[derive(Debug)]
pub struct MetPick {
    pub ids: Vec<u64>,
    pub left: usize,
}

/// The lookup of the object `id` that is under way.
#[derive(Debug)]
pub struct MetDetail {
    pub ids: Vec<u64>,
    pub left: usize,
    pub id: u64,
}

/// The download of a candidate's image that is under way.
#[derive(Debug)]
pub struct MetDownload {
    pub ids: Vec<u64>,
    pub left: usize,
    pub candidate: Candidate,
}

/// What comes next in a fetch.
#[derive(Debug)]
pub enum MetStep {
    /// Draw an object: [`MetPick::pick`].
    Pick(MetPick),
    /// Send [`MetDetail::request`], answer with [`MetDetail::detail_done`].
    Detail(MetDetail),
    /// Send [`MetDownload::request`], answer with [`MetDownload::image_done`].
    Download(MetDownload),
    /// The fetch is over.
    Done(Result<Artwork, FetchError>),
}

/// Whether `step` follows the search that was answered with `reply`. A
/// failed search ends the fetch, and so does one without object numbers.
/// Otherwise all of [`MAX_ATTEMPTS`] draws are still to come.
pub open spec fn met_searched(reply: JsonReply<MetSearchResult>, step: MetStep) -> bool {
    match parsed(reply) {
        Some(found) => match found.object_ids {
            Some(ids) => if ids@.len() == 0 {
                step matches MetStep::Done(r) && is_error(
                    r,
                    ErrorKind::NoResults,
                    "Empty Met results"@,
                )
            } else {
                step matches MetStep::Pick(pick) && pick.ids == ids && pick.left == MAX_ATTEMPTS
            },
            None => step matches MetStep::Done(r) && is_error(
                r,
                ErrorKind::NoResults,
                "No results from Met"@,
            ),
        },
        None => step matches MetStep::Done(Err(e)) && reply_failure(
            reply,
            "Met search failed: "@,
            "Met search parse failed: "@,
        ) == Some((e.kind(), e.text())),
    }
}

/// Whether `step` follows `pick` when the number drawn is `draw`. With no
/// draw left the fetch ends without an image. Otherwise the object at
/// position `draw` is looked up, and one draw is used up.
pub open spec fn met_chosen(pick: MetPick, draw: usize, step: MetStep) -> bool {
    if pick.left == 0 {
        step matches MetStep::Done(r) && is_error(
            r,
            ErrorKind::NoValidImage,
            "Could not find Met artwork with image"@,
        )
    } else if pick.ids@.len() == 0 {
        step matches MetStep::Done(r) && is_error(r, ErrorKind::NoResults, "Empty Met results"@)
    } else {
        &&& draw < pick.ids@.len()
        &&& step matches MetStep::Detail(detail)
        &&& detail.ids == pick.ids
        &&& detail.left == pick.left - 1
        &&& detail.id == pick.ids@[draw as int]
    }
}

/// Whether `step` follows the lookup `detail` that was answered with
/// `reply`. An object that names an image is downloaded next. No object,
/// or one without an image, leads back to the draw.
pub open spec fn met_detailed(detail: MetDetail, reply: Option<MetObject>, step: MetStep) -> bool {
    match reply {
        Some(object) if met_candidate(object) is Some => {
            &&& step matches MetStep::Download(download)
            &&& download.ids == detail.ids
            &&& download.left == detail.left
            &&& download.candidate@ == met_candidate(object)->0
        },
        _ => {
            &&& step matches MetStep::Pick(pick)
            &&& pick.ids == detail.ids
            &&& pick.left == detail.left
        },
    }
}

/// Whether `step` follows the download that was answered with `reply`. A
/// usable image ends the fetch with the artwork. Anything else leads back
/// to the draw.
pub open spec fn met_downloaded(download: MetDownload, reply: ImageReply, step: MetStep) -> bool {
    match downloaded(download.candidate, reply) {
        Some(artwork) => step matches MetStep::Done(Ok(a)) && a@ == artwork,
        None => {
            &&& step matches MetStep::Pick(pick)
            &&& pick.ids == download.ids
            &&& pick.left == download.left
        },
    }
}

/// Begins a fetch: the search for a keyword drawn from [`met_terms`].
pub fn fetch_met_artwork() -> (search: MetSearch)
    ensures
        met_terms().contains(search.term@),
{
    let i = random_range(0, 10);
    MetSearch { term: met_term(i).to_owned() }
}

impl MetSearch {
    /// The request to send.
    pub fn request(&self) -> (request: Request)
        ensures
            request@ == met_search_request(self.term@),
    {
        let mut query: Vec<Param> = Vec::new();
        query.push(Param::new("hasImages", "true"));
        query.push(Param::new("q", self.term.as_str()));
        let request = Request {
            url: "https://collectionapi.metmuseum.org/public/collection/v1/search".to_owned(),
            query,
            headers: Vec::new(),
        };
        assert(request@.query =~= met_search_request(self.term@).query);
        assert(request@.headers =~= Seq::empty());
        request
    }

    /// Takes the answer to the search.
    pub fn search_done(self, reply: JsonReply<MetSearchResult>) -> (step: MetStep)
        ensures
            met_searched(reply, step),
    {
        match read_reply(reply, "Met search failed: ", "Met search parse failed: ") {
            Ok(found) => match found.object_ids {
                Some(ids) => {
                    if ids.len() == 0 {
                        MetStep::Done(Err(FetchError::NoResults("Empty Met results".to_owned())))
                    } else {
                        MetStep::Pick(MetPick { ids, left: MAX_ATTEMPTS })
                    }
                },
                None => MetStep::Done(
                    Err(FetchError::NoResults("No results from Met".to_owned())),
                ),
            },
            Err(e) => MetStep::Done(Err(e)),
        }
    }
}

impl MetPick {
    /// Goes on with the object at position `draw`.
    pub fn pick_at(self, draw: usize) -> (step: MetStep)
        requires
            self.left > 0 && self.ids@.len() > 0 ==> draw < self.ids@.len(),
        ensures
            met_chosen(self, draw, step),
    {
        if self.left == 0 {
            MetStep::Done(
                Err(FetchError::NoValidImage("Could not find Met artwork with image".to_owned())),
            )
        } else if self.ids.len() == 0 {
            MetStep::Done(Err(FetchError::NoResults("Empty Met results".to_owned())))
        } else {
            let id = self.ids[draw];
            MetStep::Detail(MetDetail { ids: self.ids, left: self.left - 1, id })
        }
    }

    /// Goes on with an object drawn at random.
    pub fn pick(self) -> (step: MetStep)
        ensures
            exists|draw: usize| met_chosen(self, draw, step),
    {
        let draw = if self.left > 0 && self.ids.len() > 0 {
            random_range(0, self.ids.len())
        } else {
            0
        };
        self.pick_at(draw)
    }
}

impl MetDetail {
    /// The request to send.
    pub fn request(&self) -> (request: Request)
        ensures
            request@ == met_object_request(self.id),
    {
        let request = Request {
            url: numbered(
                "https://collectionapi.metmuseum.org/public/collection/v1/objects/",
                self.id,
            ),
            query: Vec::new(),
            headers: Vec::new(),
        };
        assert(request@.query =~= Seq::empty());
        assert(request@.headers =~= Seq::empty());
        request
    }

    /// Takes the answer to the lookup: the object, or `None` if the
    /// request failed or its answer could not be read.
    pub fn detail_done(self, reply: Option<MetObject>) -> (step: MetStep)
        ensures
            met_detailed(self, reply, step),
    {
        let candidate = match reply {
            Some(object) => normalize_met(object),
            None => None,
        };
        match candidate {
            Some(candidate) => MetStep::Download(
                MetDownload { ids: self.ids, left: self.left, candidate },
            ),
            None => MetStep::Pick(MetPick { ids: self.ids, left: self.left }),
        }
    }
}

impl MetDownload {
    /// The request to send.
    pub fn request(&self) -> (request: Request)
        ensures
            request@ == image_request(self.candidate.image_url@),
    {
        request_image(self.candidate.image_url.as_str())
    }

    /// Takes the answer to the download.
    pub fn image_done(self, reply: ImageReply) -> (step: MetStep)
        requires
            fits(reply),
        ensures
            met_downloaded(self, reply, step),
    {
        match finish_download(self.candidate, reply) {
            Some(artwork) => MetStep::Done(Ok(artwork)),
            None => MetStep::Pick(MetPick { ids: self.ids, left: self.left }),
        }
    }
}

/// The artwork that one attempt delivers, if it delivers one: the object
/// `id` has to be found, it has to name an image, and the image has to be
/// usable. `details` says what the lookup of an object answers, `replies`
/// what the request for the image at an address answers.
pub open spec fn met_attempt(
    id: u64,
    details: spec_fn(u64) -> Option<MetObject>,
    replies: spec_fn(Seq<char>) -> ImageReply,
) -> Option<ArtworkView> {
    match details(id) {
        Some(object) => match met_candidate(object) {
            Some(candidate) => completed(candidate, replies(candidate.image_url)),
            None => None,
        },
        None => None,
    }
}

/// Whether a fetch that has `left` draws to come ends with `result`, when
/// the draw that is made with `k` draws to come is `draws(k)`.
pub open spec fn met_ends(
    ids: Seq<u64>,
    left: usize,
    draws: spec_fn(usize) -> usize,
    details: spec_fn(u64) -> Option<MetObject>,
    replies: spec_fn(Seq<char>) -> ImageReply,
    result: Result<Artwork, FetchError>,
) -> bool
    decreases left,
{
    if left == 0 {
        is_error(result, ErrorKind::NoValidImage, "Could not find Met artwork with image"@)
    } else if ids.len() == 0 {
        is_error(result, ErrorKind::NoResults, "Empty Met results"@)
    } else {
        match met_attempt(ids[draws(left) as int], details, replies) {
            Some(artwork) => result matches Ok(a) && a@ == artwork,
            None => met_ends(ids, (left - 1) as usize, draws, details, replies, result),
        }
    }
}

/// A fetch ends as its steps say. Where `drawn` follows a draw, `found`
/// the lookup that the draw led to and `answered` the download that the
/// lookup led to, a final step gives the result of the whole fetch, and a
/// step back to the draw leads to a state from which the fetch ends the
/// same.
pub proof fn lemma_met_step_by_step(
    pick: MetPick,
    draws: spec_fn(usize) -> usize,
    details: spec_fn(u64) -> Option<MetObject>,
    replies: spec_fn(Seq<char>) -> ImageReply,
    drawn: MetStep,
    found: MetStep,
    answered: MetStep,
    result: Result<Artwork, FetchError>,
)
    requires
        met_chosen(pick, draws(pick.left), drawn),
        drawn matches MetStep::Detail(detail) ==> met_detailed(detail, details(detail.id), found),
        found matches MetStep::Download(download) ==> met_downloaded(
            download,
            replies(download.candidate.image_url@),
            answered,
        ),
    ensures
        drawn matches MetStep::Done(r) ==> met_ends(pick.ids@, pick.left, draws, details, replies, r),
        drawn is Detail ==> (found matches MetStep::Pick(next) ==> next.ids == pick.ids && next.left
            + 1 == pick.left && (met_ends(next.ids@, next.left, draws, details, replies, result)
            <==> met_ends(pick.ids@, pick.left, draws, details, replies, result))),
        drawn is Detail && found is Download ==> (answered matches MetStep::Done(r) ==> met_ends(
            pick.ids@,
            pick.left,
            draws,
            details,
            replies,
            r,
        )),
        drawn is Detail && found is Download ==> (answered matches MetStep::Pick(next) ==> next.ids
            == pick.ids && next.left + 1 == pick.left && (met_ends(
            next.ids@,
            next.left,
            draws,
            details,
            replies,
            result,
        ) <==> met_ends(pick.ids@, pick.left, draws, details, replies, result))),
{
}

/// A fetch gives up after the draws it was given: if none of the objects
/// drawn delivers an artwork, it ends without one.
pub proof fn lemma_met_gives_up(
    ids: Seq<u64>,
    left: usize,
    draws: spec_fn(usize) -> usize,
    details: spec_fn(u64) -> Option<MetObject>,
    replies: spec_fn(Seq<char>) -> ImageReply,
    result: Result<Artwork, FetchError>,
)
    requires
        ids.len() > 0,
        forall|k: usize|
            0 < k <= left ==> met_attempt(ids[#[trigger] draws(k) as int], details, replies)
                is None,
    ensures
        met_ends(ids, left, draws, details, replies, result) <==> is_error(
            result,
            ErrorKind::NoValidImage,
            "Could not find Met artwork with image"@,
        ),
    decreases left,
{
    if left > 0 {
        assert(met_attempt(ids[draws(left) as int], details, replies) is None);
        lemma_met_gives_up(ids, (left - 1) as usize, draws, details, replies, result);
    }
}

/// The first attempt that delivers decides: if the object drawn with
/// `turn` draws to come delivers an artwork, and none of those drawn
/// before it does, the fetch ends with that artwork.
pub proof fn lemma_met_first_success_wins(
    ids: Seq<u64>,
    left: usize,
    draws: spec_fn(usize) -> usize,
    details: spec_fn(u64) -> Option<MetObject>,
    replies: spec_fn(Seq<char>) -> ImageReply,
    turn: usize,
    result: Result<Artwork, FetchError>,
)
    requires
        ids.len() > 0,
        0 < turn <= left,
        met_attempt(ids[draws(turn) as int], details, replies) is Some,
        forall|k: usize|
            turn < k <= left ==> met_attempt(ids[#[trigger] draws(k) as int], details, replies)
                is None,
    ensures
        met_ends(ids, left, draws, details, replies, result) <==> (result matches Ok(a) && Some(
            a@,
        ) == met_attempt(ids[draws(turn) as int], details, replies)),
    decreases left,
{
    if left > turn {
        assert(met_attempt(ids[draws(left) as int], details, replies) is None);
        lemma_met_first_success_wins(
            ids,
            (left - 1) as usize,
            draws,
            details,
            replies,
            turn,
            result,
        );
    }
}

} // verus!
