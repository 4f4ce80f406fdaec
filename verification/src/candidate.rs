//! An artwork whose image is still to be downloaded.

use crate::artwork::{Artwork, ArtworkView};
use crate::http::ImageReply;
use crate::image::{base64_len, data_uri, data_uri_of, reply_image, validate_image};
use vstd::prelude::*;

verus! {

/// How many candidates one fetch tries before it gives up.
pub const MAX_ATTEMPTS: usize = 5;

/// The description of an artwork together with the address of its image.
#[derive(Debug)]
pub struct Candidate {
    pub id: String,
    pub title: String,
    pub artist: String,
    pub date: String,
    pub medium: String,
    pub source: String,
    pub image_url: String,
}

/// What a [`Candidate`] says, field by field.
pub struct CandidateView {
    pub id: Seq<char>,
    pub title: Seq<char>,
    pub artist: Seq<char>,
    pub date: Seq<char>,
    pub medium: Seq<char>,
    pub source: Seq<char>,
    pub image_url: Seq<char>,
}

impl View for Candidate {
    type V = CandidateView;

    open spec fn view(&self) -> CandidateView {
        CandidateView {
            id: self.id@,
            title: self.title@,
            artist: self.artist@,
            date: self.date@,
            medium: self.medium@,
            source: self.source@,
            image_url: self.image_url@,
        }
    }
}

impl CandidateView {
    /// The artwork that the candidate becomes once its image is there.
    pub open spec fn with_image(self, image: Seq<char>) -> ArtworkView {
        ArtworkView {
            id: self.id,
            title: self.title,
            artist: self.artist,
            date: self.date,
            medium: self.medium,
            source: self.source,
            image_base64: image,
        }
    }
}

/// `field`, or `default` where the source left it out.
pub open spec fn text_or(field: Option<String>, default: Seq<char>) -> Seq<char> {
    match field {
        Some(text) => text@,
        None => default,
    }
}

/// `field`, or `default` where the source left it out or left it empty.
pub open spec fn filled_or(field: Option<String>, default: Seq<char>) -> Seq<char> {
    match field {
        Some(text) if text@.len() > 0 => text@,
        _ => default,
    }
}

/// `field`, or `default` where the source left it out.
pub fn or_text(field: Option<String>, default: &str) -> (text: String)
    ensures
        text@ == text_or(field, default@),
{
    match field {
        Some(text) => text,
        None => default.to_owned(),
    }
}

/// `field`, or nothing where the source left it out.
pub fn or_empty(field: Option<String>) -> (text: String)
    ensures
        text@ == text_or(field, Seq::empty()),
{
    match field {
        Some(text) => text,
        None => String::new(),
    }
}

/// The views of a list of candidates.
pub open spec fn candidate_views(candidates: Seq<Candidate>) -> Seq<CandidateView> {
    candidates.map_values(|c: Candidate| c@)
}

/// Whether the body of a reply is short enough for its base64 text to be
/// built: the length of that text has to fit in `usize`.
pub open spec fn fits(reply: ImageReply) -> bool {
    reply matches ImageReply::Response { body, .. } ==> base64_len(body@.len()) <= usize::MAX
}

/// Whether the body of a reply is short enough for its base64 text to be
/// built.
pub fn reply_fits(reply: &ImageReply) -> (b: bool)
    ensures
        b == fits(*reply),
{
    match reply {
        ImageReply::Response { body, .. } => {
            let n = body.len();
            let groups = if n % 3 == 0 {
                n / 3
            } else {
                n / 3 + 1
            };
            assert(groups == (n + 2) / 3);
            groups <= usize::MAX / 4
        },
        ImageReply::Unreachable => true,
    }
}

/// The artwork that a candidate becomes with the image that `reply`
/// holds, if it holds one.
pub open spec fn completed(candidate: CandidateView, reply: ImageReply) -> Option<ArtworkView> {
    match reply_image(reply) {
        Some((bytes, mime)) => Some(candidate.with_image(data_uri_of(mime, bytes))),
        None => None,
    }
}

/// The artwork that `candidate` becomes with the image that `reply`
/// holds, if it holds one.
pub open spec fn downloaded(candidate: Candidate, reply: ImageReply) -> Option<ArtworkView> {
    completed(candidate@, reply)
}

/// Ends the download of a candidate's image. A reply that passes as an
/// image completes the artwork; any other gives nothing, and the caller
/// moves on.
pub fn finish_download(candidate: Candidate, reply: ImageReply) -> (artwork: Option<Artwork>)
    requires
        fits(reply),
    ensures
        match artwork {
            Some(a) => downloaded(candidate, reply) == Some(a@),
            None => downloaded(candidate, reply) is None,
        },
{
    match reply {
        ImageReply::Response { status, content_type, body } => {
            match validate_image(status, content_type.as_str(), body) {
                Some((bytes, mime)) => {
                    let image = data_uri(mime.as_str(), &bytes);
                    Some(
                        Artwork {
                            id: candidate.id,
                            title: candidate.title,
                            artist: candidate.artist,
                            date: candidate.date,
                            medium: candidate.medium,
                            source: candidate.source,
                            image_base64: image,
                        },
                    )
                },
                None => None,
            }
        },
        ImageReply::Unreachable => None,
    }
}

} // verus!
