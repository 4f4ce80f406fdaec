//! The artwork record that the engine hands out.

use vstd::prelude::*;

verus! {

/// One piece of art, ready to be shown: where it comes from, how it is
/// described, and its image as a data URI.
#[derive(Debug)]
pub struct Artwork {
    pub id: String,
    pub title: String,
    pub artist: String,
    pub date: String,
    pub medium: String,
    pub source: String,
    pub image_base64: String,
}

/// What an [`Artwork`] says, field by field.
pub struct ArtworkView {
    pub id: Seq<char>,
    pub title: Seq<char>,
    pub artist: Seq<char>,
    pub date: Seq<char>,
    pub medium: Seq<char>,
    pub source: Seq<char>,
    pub image_base64: Seq<char>,
}

impl View for Artwork {
    type V = ArtworkView;

    open spec fn view(&self) -> ArtworkView {
        ArtworkView {
            id: self.id@,
            title: self.title@,
            artist: self.artist@,
            date: self.date@,
            medium: self.medium@,
            source: self.source@,
            image_base64: self.image_base64@,
        }
    }
}

impl Clone for Artwork {
    fn clone(&self) -> (copy: Self)
        ensures
            copy == *self,
    {
        Artwork {
            id: self.id.clone(),
            title: self.title.clone(),
            artist: self.artist.clone(),
            date: self.date.clone(),
            medium: self.medium.clone(),
            source: self.source.clone(),
            image_base64: self.image_base64.clone(),
        }
    }
}

/// The views of a sequence of artworks.
pub open spec fn views(artworks: Seq<Artwork>) -> Seq<ArtworkView> {
    artworks.map_values(|a: Artwork| a@)
}

} // verus!
