//! Falling back from one source to the next: a fetch starts at a source
//! picked at random and goes round all of them until one delivers.

use crate::artwork::Artwork;
use crate::error::{is_error, ErrorKind, FetchError};
use crate::http::join;
use crate::random::random_range;
use vstd::prelude::*;

verus! {

/// The number of sources.
pub const SOURCE_COUNT: usize = 4;

/// The collections that artworks come from.
#[derive(Debug, Clone, Copy, PartialEq, Eq, Structural)]
pub enum Source {
    Met,
    Aic,
    Cma,
    Nga,
}

impl Source {
    /// The place of the source in the round.
    pub open spec fn index(self) -> int {
        match self {
            Source::Met => 0,
            Source::Aic => 1,
            Source::Cma => 2,
            Source::Nga => 3,
        }
    }

    /// The source at place `i` of the round.
    pub open spec fn at(i: int) -> Source {
        if i == 0 {
            Source::Met
        } else if i == 1 {
            Source::Aic
        } else if i == 2 {
            Source::Cma
        } else {
            Source::Nga
        }
    }

    /// The source that comes `n` places after this one, going round.
    pub open spec fn after(self, n: int) -> Source {
        Source::at((self.index() + n) % 4)
    }

    /// The short name of the source.
    pub open spec fn label(self) -> Seq<char> {
        match self {
            Source::Met => "Met"@,
            Source::Aic => "AIC"@,
            Source::Cma => "CMA"@,
            Source::Nga => "NGA"@,
        }
    }

    /// The place of the source in the round.
    pub fn position(self) -> (i: usize)
        ensures
            i == self.index(),
    {
        match self {
            Source::Met => 0,
            Source::Aic => 1,
            Source::Cma => 2,
            Source::Nga => 3,
        }
    }

    /// The source at place `i % 4` of the round.
    pub fn from_position(i: usize) -> (source: Source)
        ensures
            source == Source::at(i as int % 4),
    {
        let place = i % 4;
        if place == 0 {
            Source::Met
        } else if place == 1 {
            Source::Aic
        } else if place == 2 {
            Source::Cma
        } else {
            Source::Nga
        }
    }

    /// The short name of the source.
    pub fn name(self) -> (name: &'static str)
        ensures
            name@ == self.label(),
    {
        match self {
            Source::Met => "Met",
            Source::Aic => "AIC",
            Source::Cma => "CMA",
            Source::Nga => "NGA",
        }
    }
}

/// A fetch that goes round the sources: where it started and how many
/// sources have failed since.
#[derive(Debug)]
pub struct Cascade {
    pub first: Source,
    pub failed: usize,
}

/// What comes next in a fetch.
#[derive(Debug)]
pub enum CascadeStep {
    /// Fetch from [`Cascade::current`], answer with [`Cascade::source_done`].
    Try(Cascade),
    /// The fetch is over.
    Done(Result<Artwork, FetchError>),
}

/// The message of the failure of all sources, the last of which failed
/// with the message `last`.
pub open spec fn exhausted_text(last: Seq<char>) -> Seq<char> {
    "All sources failed. Last error: "@ + last
}

/// Whether `step` follows the answer `outcome` of the current source. An
/// artwork ends the fetch. A failure moves on to the next source, or, if
/// it was the last one, ends the fetch with a failure that quotes it.
pub open spec fn cascade_stepped(
    state: Cascade,
    outcome: Result<Artwork, FetchError>,
    step: CascadeStep,
) -> bool {
    match outcome {
        Ok(artwork) => step matches CascadeStep::Done(Ok(a)) && a == artwork,
        Err(e) => if state.failed + 1 >= SOURCE_COUNT {
            step matches CascadeStep::Done(r) && is_error(
                r,
                ErrorKind::AllSourcesExhausted,
                exhausted_text(e.text()),
            )
        } else {
            &&& step matches CascadeStep::Try(next)
            &&& next.first == state.first
            &&& next.failed == state.failed + 1
        },
    }
}

impl Cascade {
    /// The source whose turn it is.
    pub open spec fn source(self) -> Source {
        self.first.after(self.failed as int)
    }

    /// The source whose turn it is.
    pub fn current(&self) -> (source: Source)
        ensures
            source == self.source(),
    {
        let place = self.first.position() + self.failed % 4;
        assert((self.first.index() + self.failed) % 4 == (self.first.index() + self.failed % 4)
            % 4) by (nonlinear_arith)
            requires
                0 <= self.first.index() < 4,
        ;
        Source::from_position(place)
    }

    /// Takes the answer of the current source.
    pub fn source_done(self, outcome: Result<Artwork, FetchError>) -> (step: CascadeStep)
        ensures
            cascade_stepped(self, outcome, step),
    {
        match outcome {
            Ok(artwork) => CascadeStep::Done(Ok(artwork)),
            Err(e) => {
                if self.failed >= SOURCE_COUNT - 1 {
                    let message = join("All sources failed. Last error: ", e.message().as_str());
                    CascadeStep::Done(Err(FetchError::AllSourcesExhausted(message)))
                } else {
                    CascadeStep::Try(Cascade { first: self.first, failed: self.failed + 1 })
                }
            },
        }
    }
}

/// Begins a fetch at a source picked at random.
pub fn fetch_random_artwork() -> (state: Cascade)
    ensures
        state.failed == 0,
{
    let start = random_range(0, SOURCE_COUNT);
    Cascade { first: Source::from_position(start), failed: 0 }
}

/// Whether a fetch that stands at `state` ends with `result` when each
/// source, asked for an artwork, answers what `answers` says.
pub open spec fn cascade_ends(
    state: Cascade,
    answers: spec_fn(Source) -> Result<Artwork, FetchError>,
    result: Result<Artwork, FetchError>,
) -> bool
    decreases SOURCE_COUNT - state.failed,
{
    match answers(state.source()) {
        Ok(artwork) => result == Ok::<Artwork, FetchError>(artwork),
        Err(e) => if state.failed + 1 >= SOURCE_COUNT {
            is_error(result, ErrorKind::AllSourcesExhausted, exhausted_text(e.text()))
        } else {
            cascade_ends(Cascade { first: state.first, failed: (state.failed + 1) as usize }, answers, result)
        },
    }
}

/// A fetch ends as its steps say: where `step` follows the answer of the
/// current source, a final step gives the result of the whole fetch, and
/// any other leads to a state from which the fetch ends the same.
pub proof fn lemma_step_by_step(
    state: Cascade,
    answers: spec_fn(Source) -> Result<Artwork, FetchError>,
    step: CascadeStep,
    result: Result<Artwork, FetchError>,
)
    requires
        cascade_stepped(state, answers(state.source()), step),
    ensures
        step matches CascadeStep::Done(r) ==> cascade_ends(state, answers, r),
        step matches CascadeStep::Try(next) ==> (cascade_ends(next, answers, result)
            <==> cascade_ends(state, answers, result)),
{
}

/// The first source that delivers decides. If the source `turns` places
/// after the first one has an artwork, and all sources before it in the
/// round fail, the fetch ends with that artwork.
pub proof fn lemma_first_success_wins(
    first: Source,
    answers: spec_fn(Source) -> Result<Artwork, FetchError>,
    turns: int,
    artwork: Artwork,
)
    requires
        0 <= turns < SOURCE_COUNT,
        answers(first.after(turns)) == Ok::<Artwork, FetchError>(artwork),
        forall|earlier: int| 0 <= earlier < turns ==> answers(#[trigger] first.after(earlier)) is Err,
    ensures
        forall|result: Result<Artwork, FetchError>|
            #[trigger] cascade_ends(Cascade { first, failed: 0 }, answers, result) <==> result
                == Ok::<Artwork, FetchError>(artwork),
{
    assert forall|result: Result<Artwork, FetchError>|
        #[trigger] cascade_ends(Cascade { first, failed: 0 }, answers, result) <==> result == Ok::<
            Artwork,
            FetchError,
        >(artwork) by {
        lemma_run_from(first, answers, turns, artwork, 0, result);
    }
}

proof fn lemma_run_from(
    first: Source,
    answers: spec_fn(Source) -> Result<Artwork, FetchError>,
    turns: int,
    artwork: Artwork,
    failed: int,
    result: Result<Artwork, FetchError>,
)
    requires
        0 <= failed <= turns < SOURCE_COUNT,
        answers(first.after(turns)) == Ok::<Artwork, FetchError>(artwork),
        forall|earlier: int| 0 <= earlier < turns ==> answers(#[trigger] first.after(earlier)) is Err,
    ensures
        cascade_ends(Cascade { first, failed: failed as usize }, answers, result) <==> result
            == Ok::<Artwork, FetchError>(artwork),
    decreases turns - failed,
{
    if failed < turns {
        assert(answers(first.after(failed)) is Err);
        lemma_run_from(first, answers, turns, artwork, failed + 1, result);
    }
}

/// Only if every source fails does the fetch fail, and its failure quotes
/// the source that was tried last.
pub proof fn lemma_all_fail(
    first: Source,
    answers: spec_fn(Source) -> Result<Artwork, FetchError>,
    result: Result<Artwork, FetchError>,
)
    requires
        forall|source: Source| (#[trigger] answers(source)) is Err,
    ensures
        cascade_ends(Cascade { first, failed: 0 }, answers, result) <==> is_error(
            result,
            ErrorKind::AllSourcesExhausted,
            exhausted_text(answers(first.after(3))->Err_0.text()),
        ),
{
    reveal_with_fuel(cascade_ends, 5);
    assert(answers(first.after(0)) is Err);
    assert(answers(first.after(1)) is Err);
    assert(answers(first.after(2)) is Err);
    assert(answers(first.after(3)) is Err);
}

/// One working source is enough, wherever the fetch starts. If the source
/// at which the fetch starts fails and exactly one of the others has an
/// artwork, the fetch ends with that artwork.
pub proof fn lemma_fallback(
    first: Source,
    answers: spec_fn(Source) -> Result<Artwork, FetchError>,
    working: Source,
    artwork: Artwork,
    result: Result<Artwork, FetchError>,
)
    requires
        answers(first) is Err,
        working != first,
        answers(working) == Ok::<Artwork, FetchError>(artwork),
        forall|other: Source| other != working ==> (#[trigger] answers(other)) is Err,
    ensures
        cascade_ends(Cascade { first, failed: 0 }, answers, result) <==> result == Ok::<
            Artwork,
            FetchError,
        >(artwork),
{
    let turns = (working.index() - first.index() + 4) % 4;
    assert(first.after(turns) == working);
    assert forall|earlier: int| 0 <= earlier < turns implies answers(
        #[trigger] first.after(earlier),
    ) is Err by {
        assert(first.after(earlier) != working);
    }
    lemma_first_success_wins(first, answers, turns, artwork);
}

} // verus!
