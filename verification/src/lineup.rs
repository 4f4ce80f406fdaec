//! Trying the candidates of a search one after the other, in an order
//! picked at random, until one of them has a usable image.

use crate::artwork::Artwork;
use crate::candidate::{downloaded, finish_download, fits, Candidate, MAX_ATTEMPTS};
use crate::error::{is_error, ErrorKind, FetchError};
use crate::http::{ImageReply, Request};
use crate::image::{image_request, request_image};
use crate::random::shuffle;
use vstd::prelude::*;

verus! {

/// The candidates that a search found, and the message of the failure that
/// it is if none of those tried has a usable image.
#[derive(Debug)]
pub struct Lineup {
    pub candidates: Vec<Candidate>,
    pub exhausted: String,
}

/// The download of `current`'s image that is under way; `rest` are the
/// candidates to try after it, in order.
#[derive(Debug)]
pub struct LineupDownload {
    pub current: Candidate,
    pub rest: Vec<Candidate>,
    pub exhausted: String,
}

/// What comes next in a fetch.
#[derive(Debug)]
pub enum LineupStep {
    /// Put the candidates in a random order: [`Lineup::shuffled`].
    Shuffle(Lineup),
    /// Send [`LineupDownload::request`], answer with
    /// [`LineupDownload::image_done`].
    Download(LineupDownload),
    /// The fetch is over.
    Done(Result<Artwork, FetchError>),
}

/// The candidates that are tried when they come in the order `candidates`:
/// the first [`MAX_ATTEMPTS`] of them.
pub open spec fn tried(candidates: Seq<Candidate>) -> Seq<Candidate> {
    if candidates.len() > MAX_ATTEMPTS {
        candidates.take(MAX_ATTEMPTS as int)
    } else {
        candidates
    }
}

/// Whether `step` goes on with the candidates `waiting`: the first of them
/// is downloaded, and the fetch ends without an image if there is none.
pub open spec fn lineup_next(waiting: Seq<Candidate>, exhausted: String, step: LineupStep) -> bool {
    if waiting.len() == 0 {
        step matches LineupStep::Done(r) && is_error(r, ErrorKind::NoValidImage, exhausted@)
    } else {
        &&& step matches LineupStep::Download(download)
        &&& download.current == waiting[0]
        &&& download.rest@ == waiting.skip(1)
        &&& download.exhausted == exhausted
    }
}

/// Whether `step` follows the download that was answered with `reply`. A
/// usable image ends the fetch with the artwork. Anything else moves on to
/// the next candidate.
pub open spec fn lineup_downloaded(download: LineupDownload, reply: ImageReply, step: LineupStep) -> bool {
    match downloaded(download.current, reply) {
        Some(artwork) => step matches LineupStep::Done(Ok(a)) && a@ == artwork,
        None => lineup_next(download.rest@, download.exhausted, step),
    }
}

fn next_in_line(waiting: Vec<Candidate>, exhausted: String) -> (step: LineupStep)
    ensures
        lineup_next(waiting@, exhausted, step),
{
    if waiting.len() == 0 {
        LineupStep::Done(Err(FetchError::NoValidImage(exhausted)))
    } else {
        let mut rest = waiting;
        let current = rest.remove(0);
        assert(rest@ =~= waiting@.skip(1));
        LineupStep::Download(LineupDownload { current, rest, exhausted })
    }
}

impl Lineup {
    /// Goes on with the candidates in the order in which they stand: the
    /// first [`MAX_ATTEMPTS`] are tried, the others are dropped.
    pub fn start(self) -> (step: LineupStep)
        ensures
            lineup_next(tried(self.candidates@), self.exhausted, step),
    {
        let mut candidates = self.candidates;
        candidates.truncate(MAX_ATTEMPTS);
        assert(candidates@ =~= tried(self.candidates@));
        next_in_line(candidates, self.exhausted)
    }

    /// Goes on with the candidates in a random order.
    pub fn shuffled(self) -> (step: LineupStep)
        ensures
            exists|order: Seq<Candidate>|
                order.to_multiset() == self.candidates@.to_multiset() && #[trigger] lineup_next(
                    tried(order),
                    self.exhausted,
                    step,
                ),
    {
        let mut candidates = self.candidates;
        shuffle(&mut candidates);
        Lineup { candidates, exhausted: self.exhausted }.start()
    }
}

impl LineupDownload {
    /// The request to send.
    pub fn request(&self) -> (request: Request)
        ensures
            request@ == image_request(self.current.image_url@),
    {
        request_image(self.current.image_url.as_str())
    }

    /// Takes the answer to the download.
    pub fn image_done(self, reply: ImageReply) -> (step: LineupStep)
        requires
            fits(reply),
        ensures
            lineup_downloaded(self, reply, step),
    {
        match finish_download(self.current, reply) {
            Some(artwork) => LineupStep::Done(Ok(artwork)),
            None => next_in_line(self.rest, self.exhausted),
        }
    }
}

/// Whether a fetch that still has `waiting` to try ends with `result` when
/// the download of each candidate is answered as `replies` says.
pub open spec fn lineup_ends(
    waiting: Seq<Candidate>,
    exhausted: String,
    replies: spec_fn(Candidate) -> ImageReply,
    result: Result<Artwork, FetchError>,
) -> bool
    decreases waiting.len(),
{
    if waiting.len() == 0 {
        is_error(result, ErrorKind::NoValidImage, exhausted@)
    } else {
        match downloaded(waiting[0], replies(waiting[0])) {
            Some(artwork) => result matches Ok(a) && a@ == artwork,
            None => lineup_ends(waiting.skip(1), exhausted, replies, result),
        }
    }
}

/// The candidates that a download has in hand: the current one and those
/// that wait behind it.
pub open spec fn in_hand(download: LineupDownload) -> Seq<Candidate> {
    seq![download.current] + download.rest@
}

/// No fetch tries more than [`MAX_ATTEMPTS`] candidates.
pub proof fn lemma_tried_is_bounded(candidates: Seq<Candidate>)
    ensures
        tried(candidates).len() <= MAX_ATTEMPTS,
        tried(candidates).len() <= candidates.len(),
        tried(candidates).is_prefix_of(candidates),
{
}

/// A fetch ends as its steps say: where `step` follows the answer to a
/// download, a final step gives the result of the whole fetch, and any
/// other leads to a download from which the fetch ends the same.
pub proof fn lemma_lineup_step_by_step(
    download: LineupDownload,
    replies: spec_fn(Candidate) -> ImageReply,
    step: LineupStep,
    result: Result<Artwork, FetchError>,
)
    requires
        lineup_downloaded(download, replies(download.current), step),
    ensures
        step matches LineupStep::Done(r) ==> lineup_ends(
            in_hand(download),
            download.exhausted,
            replies,
            r,
        ),
        step matches LineupStep::Download(next) ==> (lineup_ends(
            in_hand(next),
            next.exhausted,
            replies,
            result,
        ) <==> lineup_ends(in_hand(download), download.exhausted, replies, result)),
        !(step is Shuffle),
{
    let all = in_hand(download);
    assert(all[0] == download.current);
    assert(all.skip(1) =~= download.rest@);
    if downloaded(download.current, replies(download.current)) is None {
        if download.rest@.len() > 0 {
            let next = step->Download_0;
            assert(in_hand(next) =~= download.rest@);
        } else {
            let r = step->Done_0;
            assert(lineup_ends(all.skip(1), download.exhausted, replies, r));
        }
    }
}

/// The first usable image wins. If the candidate at position `turn` has
/// one and none before it has, the fetch ends with that candidate's
/// artwork, whatever waits behind it.
pub proof fn lemma_first_valid_image_wins(
    waiting: Seq<Candidate>,
    exhausted: String,
    replies: spec_fn(Candidate) -> ImageReply,
    turn: int,
    result: Result<Artwork, FetchError>,
)
    requires
        0 <= turn < waiting.len(),
        downloaded(waiting[turn], replies(waiting[turn])) is Some,
        forall|earlier: int|
            0 <= earlier < turn ==> downloaded(
                #[trigger] waiting[earlier],
                replies(waiting[earlier]),
            ) is None,
    ensures
        lineup_ends(waiting, exhausted, replies, result) <==> (result matches Ok(a) && Some(a@)
            == downloaded(waiting[turn], replies(waiting[turn]))),
    decreases turn,
{
    if turn > 0 {
        assert(downloaded(waiting[0], replies(waiting[0])) is None);
        let rest = waiting.skip(1);
        assert(rest[turn - 1] == waiting[turn]);
        assert forall|earlier: int| 0 <= earlier < turn - 1 implies downloaded(
            #[trigger] rest[earlier],
            replies(rest[earlier]),
        ) is None by {
            assert(rest[earlier] == waiting[earlier + 1]);
        }
        lemma_first_valid_image_wins(rest, exhausted, replies, turn - 1, result);
    }
}

/// Only if no candidate has a usable image does the fetch fail, and then
/// with the failure that the lineup was given.
pub proof fn lemma_no_valid_image(
    waiting: Seq<Candidate>,
    exhausted: String,
    replies: spec_fn(Candidate) -> ImageReply,
    result: Result<Artwork, FetchError>,
)
    requires
        forall|i: int|
            0 <= i < waiting.len() ==> downloaded(#[trigger] waiting[i], replies(waiting[i]))
                is None,
    ensures
        lineup_ends(waiting, exhausted, replies, result) <==> is_error(
            result,
            ErrorKind::NoValidImage,
            exhausted@,
        ),
    decreases waiting.len(),
{
    if waiting.len() > 0 {
        let rest = waiting.skip(1);
        assert(downloaded(waiting[0], replies(waiting[0])) is None);
        assert forall|i: int| 0 <= i < rest.len() implies downloaded(
            #[trigger] rest[i],
            replies(rest[i]),
        ) is None by {
            assert(rest[i] == waiting[i + 1]);
        }
        lemma_no_valid_image(rest, exhausted, replies, result);
    }
}

} // verus!
