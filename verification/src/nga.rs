//! The National Gallery of Art: no search, but a catalog that the caller
//! holds. Up to [`MAX_ATTEMPTS`] entries drawn from it are tried until one
//! of them has a usable image.

use crate::artwork::Artwork;
use crate::candidate::{
    completed, downloaded, finish_download, fits, Candidate, CandidateView, MAX_ATTEMPTS,
};
use crate::error::{is_error, ErrorKind, FetchError};
use crate::http::{join, ImageReply, Request};
use crate::image::{image_request, request_image};
use crate::random::random_range;
use vstd::prelude::*;
use vstd::string::StringExecFns;

verus! {

/// One entry of the catalog.
#[derive(Debug)]
pub struct NgaCatalogEntry {
    pub uuid: String,
    pub title: String,
    pub artist: String,
    pub date: String,
    pub medium: String,
}

/// The address of the image with the identifier `uuid`, fitted into 843
/// by 843 pixels.
pub open spec fn nga_image_url(uuid: Seq<char>) -> Seq<char> {
    "https://api.nga.gov/iiif/"@ + uuid + "/full/!843,843/0/default.jpg"@
}

/// The candidate that an entry makes: its descriptions as they stand.
pub open spec fn nga_candidate(entry: NgaCatalogEntry) -> CandidateView {
    CandidateView {
        id: "nga-"@ + entry.uuid@,
        title: entry.title@,
        artist: entry.artist@,
        date: entry.date@,
        medium: entry.medium@,
        source: "National Gallery of Art"@,
        image_url: nga_image_url(entry.uuid@),
    }
}

/// The candidate that an entry makes.
pub fn normalize_nga(entry: &NgaCatalogEntry) -> (candidate: Candidate)
    ensures
        candidate@ == nga_candidate(*entry),
{
    let mut image_url = join("https://api.nga.gov/iiif/", entry.uuid.as_str());
    image_url.append("/full/!843,843/0/default.jpg");
    Candidate {
        id: join("nga-", entry.uuid.as_str()),
        title: entry.title.clone(),
        artist: entry.artist.clone(),
        date: entry.date.clone(),
        medium: entry.medium.clone(),
        source: "National Gallery of Art".to_owned(),
        image_url,
    }
}

/// How many draws from the catalog are left.
#[derive(Debug)]
pub struct NgaPick {
    pub left: usize,
}

/// The download of a candidate's image that is under way.
#[derive(Debug)]
pub struct NgaDownload {
    pub left: usize,
    pub candidate: Candidate,
}

/// What comes next in a fetch.
#[derive(Debug)]
pub enum NgaStep {
    /// Draw an entry: [`NgaPick::pick`].
    Pick(NgaPick),
    /// Send [`NgaDownload::request`], answer with [`NgaDownload::image_done`].
    Download(NgaDownload),
    /// The fetch is over.
    Done(Result<Artwork, FetchError>),
}

/// Whether `step` begins a fetch from `catalog`: an empty catalog ends it
/// at once, and otherwise all of [`MAX_ATTEMPTS`] draws are still to come.
pub open spec fn nga_begun(catalog: Seq<NgaCatalogEntry>, step: NgaStep) -> bool {
    if catalog.len() == 0 {
        step matches NgaStep::Done(r) && is_error(r, ErrorKind::NoResults, "NGA catalog is empty"@)
    } else {
        step matches NgaStep::Pick(pick) && pick.left == MAX_ATTEMPTS
    }
}

/// Whether `step` follows `pick` when the number drawn is `draw`. With no
/// draw left the fetch ends without an image. Otherwise the entry at
/// position `draw` is downloaded, and one draw is used up.
pub open spec fn nga_chosen(
    pick: NgaPick,
    catalog: Seq<NgaCatalogEntry>,
    draw: usize,
    step: NgaStep,
) -> bool {
    if pick.left == 0 {
        step matches NgaStep::Done(r) && is_error(
            r,
            ErrorKind::NoValidImage,
            "Could not find NGA artwork with valid image"@,
        )
    } else if catalog.len() == 0 {
        step matches NgaStep::Done(r) && is_error(r, ErrorKind::NoResults, "NGA catalog is empty"@)
    } else {
        &&& draw < catalog.len()
        &&& step matches NgaStep::Download(download)
        &&& download.left == pick.left - 1
        &&& download.candidate@ == nga_candidate(catalog[draw as int])
    }
}

/// Whether `step` follows the download that was answered with `reply`. A
/// usable image ends the fetch with the artwork. Anything else leads back
/// to the draw.
pub open spec fn nga_downloaded(download: NgaDownload, reply: ImageReply, step: NgaStep) -> bool {
    match downloaded(download.candidate, reply) {
        Some(artwork) => step matches NgaStep::Done(Ok(a)) && a@ == artwork,
        None => step matches NgaStep::Pick(pick) && pick.left == download.left,
    }
}

/// Begins a fetch from `catalog`.
pub fn fetch_nga_artwork(catalog: &Vec<NgaCatalogEntry>) -> (step: NgaStep)
    ensures
        nga_begun(catalog@, step),
{
    if catalog.len() == 0 {
        NgaStep::Done(Err(FetchError::NoResults("NGA catalog is empty".to_owned())))
    } else {
        NgaStep::Pick(NgaPick { left: MAX_ATTEMPTS })
    }
}

impl NgaPick {
    /// Goes on with the entry at position `draw`.
    pub fn pick_at(self, catalog: &Vec<NgaCatalogEntry>, draw: usize) -> (step: NgaStep)
        requires
            self.left > 0 && catalog@.len() > 0 ==> draw < catalog@.len(),
        ensures
            nga_chosen(self, catalog@, draw, step),
    {
        if self.left == 0 {
            NgaStep::Done(
                Err(
                    FetchError::NoValidImage(
                        "Could not find NGA artwork with valid image".to_owned(),
                    ),
                ),
            )
        } else if catalog.len() == 0 {
            NgaStep::Done(Err(FetchError::NoResults("NGA catalog is empty".to_owned())))
        } else {
            NgaStep::Download(
                NgaDownload { left: self.left - 1, candidate: normalize_nga(&catalog[draw]) },
            )
        }
    }

    /// Goes on with an entry drawn at random.
    pub fn pick(self, catalog: &Vec<NgaCatalogEntry>) -> (step: NgaStep)
        ensures
            exists|draw: usize| nga_chosen(self, catalog@, draw, step),
    {
        let draw = if self.left > 0 && catalog.len() > 0 {
            random_range(0, catalog.len())
        } else {
            0
        };
        self.pick_at(catalog, draw)
    }
}

impl NgaDownload {
    /// The request to send.
    pub fn request(&self) -> (request: Request)
        ensures
            request@ == image_request(self.candidate.image_url@),
    {
        request_image(self.candidate.image_url.as_str())
    }

    /// Takes the answer to the download.
    pub fn image_done(self, reply: ImageReply) -> (step: NgaStep)
        requires
            fits(reply),
        ensures
            nga_downloaded(self, reply, step),
    {
        match finish_download(self.candidate, reply) {
            Some(artwork) => NgaStep::Done(Ok(artwork)),
            None => NgaStep::Pick(NgaPick { left: self.left }),
        }
    }
}

/// Whether a fetch that has `left` draws to come ends with `result`, when
/// the draw that is made with `k` draws to come is `draws(k)`, and the
/// request for the image at an address is answered as `replies` says.
pub open spec fn nga_ends(
    left: usize,
    catalog: Seq<NgaCatalogEntry>,
    draws: spec_fn(usize) -> usize,
    replies: spec_fn(Seq<char>) -> ImageReply,
    result: Result<Artwork, FetchError>,
) -> bool
    decreases left,
{
    if left == 0 {
        is_error(result, ErrorKind::NoValidImage, "Could not find NGA artwork with valid image"@)
    } else if catalog.len() == 0 {
        is_error(result, ErrorKind::NoResults, "NGA catalog is empty"@)
    } else {
        let candidate = nga_candidate(catalog[draws(left) as int]);
        match completed(candidate, replies(candidate.image_url)) {
            Some(artwork) => result matches Ok(a) && a@ == artwork,
            None => nga_ends((left - 1) as usize, catalog, draws, replies, result),
        }
    }
}

/// A fetch ends as its steps say. Where `drawn` follows a draw and
/// `answered` the download that the draw led to, a final step gives the
/// result of the whole fetch, and a step back to the draw leads to a state
/// from which the fetch ends the same.
pub proof fn lemma_nga_step_by_step(
    pick: NgaPick,
    catalog: Seq<NgaCatalogEntry>,
    draws: spec_fn(usize) -> usize,
    replies: spec_fn(Seq<char>) -> ImageReply,
    drawn: NgaStep,
    answered: NgaStep,
    result: Result<Artwork, FetchError>,
)
    requires
        nga_chosen(pick, catalog, draws(pick.left), drawn),
        drawn matches NgaStep::Download(download) ==> nga_downloaded(
            download,
            replies(download.candidate.image_url@),
            answered,
        ),
    ensures
        drawn matches NgaStep::Done(r) ==> nga_ends(pick.left, catalog, draws, replies, r),
        drawn is Download ==> (answered matches NgaStep::Done(r) ==> nga_ends(
            pick.left,
            catalog,
            draws,
            replies,
            r,
        )),
        drawn is Download ==> (answered matches NgaStep::Pick(next) ==> next.left + 1 == pick.left
            && (nga_ends(next.left, catalog, draws, replies, result) <==> nga_ends(
            pick.left,
            catalog,
            draws,
            replies,
            result,
        ))),
        drawn is Download ==> !(answered is Download),
        !(drawn is Pick),
{
}

/// A fetch gives up after the draws it was given: if none of the entries
/// drawn has a usable image, it ends without one.
pub proof fn lemma_nga_gives_up(
    left: usize,
    catalog: Seq<NgaCatalogEntry>,
    draws: spec_fn(usize) -> usize,
    replies: spec_fn(Seq<char>) -> ImageReply,
    result: Result<Artwork, FetchError>,
)
    requires
        catalog.len() > 0,
        forall|k: usize|
            0 < k <= left ==> completed(
                nga_candidate(catalog[#[trigger] draws(k) as int]),
                replies(nga_candidate(catalog[draws(k) as int]).image_url),
            ) is None,
    ensures
        nga_ends(left, catalog, draws, replies, result) <==> is_error(
            result,
            ErrorKind::NoValidImage,
            "Could not find NGA artwork with valid image"@,
        ),
    decreases left,
{
    if left > 0 {
        assert(completed(
            nga_candidate(catalog[draws(left) as int]),
            replies(nga_candidate(catalog[draws(left) as int]).image_url),
        ) is None);
        lemma_nga_gives_up((left - 1) as usize, catalog, draws, replies, result);
    }
}

/// The first usable image wins: if the entry drawn with `turn` draws to
/// come has one, and none of those drawn before it has, the fetch ends
/// with that entry's artwork.
pub proof fn lemma_nga_first_valid_image_wins(
    left: usize,
    catalog: Seq<NgaCatalogEntry>,
    draws: spec_fn(usize) -> usize,
    replies: spec_fn(Seq<char>) -> ImageReply,
    turn: usize,
    result: Result<Artwork, FetchError>,
)
    requires
        catalog.len() > 0,
        0 < turn <= left,
        completed(
            nga_candidate(catalog[draws(turn) as int]),
            replies(nga_candidate(catalog[draws(turn) as int]).image_url),
        ) is Some,
        forall|k: usize|
            turn < k <= left ==> completed(
                nga_candidate(catalog[#[trigger] draws(k) as int]),
                replies(nga_candidate(catalog[draws(k) as int]).image_url),
            ) is None,
    ensures
        nga_ends(left, catalog, draws, replies, result) <==> (result matches Ok(a) && Some(a@)
            == completed(
            nga_candidate(catalog[draws(turn) as int]),
            replies(nga_candidate(catalog[draws(turn) as int]).image_url),
        )),
    decreases left,
{
    if left > turn {
        assert(completed(
            nga_candidate(catalog[draws(left) as int]),
            replies(nga_candidate(catalog[draws(left) as int]).image_url),
        ) is None);
        lemma_nga_first_valid_image_wins(
            (left - 1) as usize,
            catalog,
            draws,
            replies,
            turn,
            result,
        );
    }
}

} // verus!
