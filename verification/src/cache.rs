//! The prefetch queue, the viewing history and its cursor.
//!
//! [`ArtCache`] owns all three. Its view, [`CacheState`], is the
//! mathematical state on which every operation is specified; the laws at
//! the end of this file are proved on that state.

use crate::artwork::{views, Artwork, ArtworkView};
use crate::error::{FetchError, NavError};
use std::collections::VecDeque;
use vstd::prelude::*;

verus! {

/// How many artworks the prefetch queue holds at most.
pub const CACHE_SIZE: usize = 5;

/// The longest history that is kept.
pub const HISTORY_LIMIT: usize = 50;

/// How many of the oldest entries leave at once when the history has grown
/// past [`HISTORY_LIMIT`].
pub const HISTORY_TRIM: usize = 25;

/// Seconds that the background filler rests between two cycles.
pub const PREFETCH_INTERVAL_SECS: u64 = 2;

/// The state of an [`ArtCache`].
pub struct CacheState {
    /// Artworks fetched ahead of demand, oldest first.
    pub queue: Seq<ArtworkView>,
    /// Artworks served so far, oldest first.
    pub history: Seq<ArtworkView>,
    /// Position in `history` while browsing; `None` in live mode.
    pub cursor: Option<int>,
}

/// `history` after `artwork` was served: it is put at the end, and if that
/// makes more than [`HISTORY_LIMIT`] entries, the [`HISTORY_TRIM`] oldest leave.
pub open spec fn appended(history: Seq<ArtworkView>, artwork: ArtworkView) -> Seq<ArtworkView> {
    let grown = history.push(artwork);
    if grown.len() > HISTORY_LIMIT {
        grown.skip(HISTORY_TRIM as int)
    } else {
        grown
    }
}

/// Where a cursor stands after the history, `len` entries long, took one
/// more entry: if entries left, it follows the artwork it stood on, or
/// moves to the oldest entry that is still there.
pub open spec fn shifted(cursor: Option<int>, len: nat) -> Option<int> {
    match cursor {
        Some(i) if len + 1 > HISTORY_LIMIT => Some(
            if i >= HISTORY_TRIM {
                i - HISTORY_TRIM
            } else {
                0
            },
        ),
        _ => cursor,
    }
}

impl CacheState {
    /// The state before anything was fetched.
    pub open spec fn empty() -> CacheState {
        CacheState { queue: Seq::empty(), history: Seq::empty(), cursor: None }
    }

    /// The bounds that every reachable state keeps.
    pub open spec fn wf(self) -> bool {
        &&& self.queue.len() <= CACHE_SIZE
        &&& self.history.len() <= HISTORY_LIMIT
        &&& self.cursor matches Some(i) ==> 0 <= i < self.history.len()
    }

    /// The artwork on show: the one under the cursor, or in live mode the
    /// newest one.
    pub open spec fn current(self) -> Option<ArtworkView> {
        match self.cursor {
            Some(i) => Some(self.history[i]),
            None => if self.history.len() > 0 {
                Some(self.history.last())
            } else {
                None
            },
        }
    }

    /// What a step back answers.
    pub open spec fn prev_result(self) -> Result<ArtworkView, NavError> {
        if self.history.len() == 0 {
            Err(NavError::EmptyHistory)
        } else {
            match self.cursor {
                Some(i) => if i == 0 {
                    Err(NavError::AtHistoryBoundary)
                } else {
                    Ok(self.history[i - 1])
                },
                None => if self.history.len() >= 2 {
                    Ok(self.history[self.history.len() - 2])
                } else {
                    Err(NavError::NoPreviousArtwork)
                },
            }
        }
    }

    /// The state after a step back: the cursor moves where the step
    /// succeeds, and nothing changes where it is refused.
    pub open spec fn prev(self) -> CacheState {
        if self.prev_result() is Ok {
            match self.cursor {
                Some(i) => CacheState { cursor: Some(i - 1), ..self },
                None => CacheState { cursor: Some(self.history.len() - 2), ..self },
            }
        } else {
            self
        }
    }

    /// Whether a step forward only replays the history.
    pub open spec fn replays(self) -> bool {
        self.cursor matches Some(i) && i + 1 < self.history.len()
    }

    /// What a step forward serves at once, if anything: the next entry of
    /// the history while browsing, else the front of the queue. `None`
    /// means that an artwork has to be fetched.
    pub open spec fn next_result(self) -> Option<ArtworkView> {
        if self.replays() {
            Some(self.history[self.cursor->0 + 1])
        } else if self.queue.len() > 0 {
            Some(self.queue[0])
        } else {
            None
        }
    }

    /// The state after a step forward.
    pub open spec fn next(self) -> CacheState {
        if self.replays() {
            CacheState { cursor: Some(self.cursor->0 + 1), ..self }
        } else if self.queue.len() > 0 {
            CacheState {
                queue: self.queue.skip(1),
                history: appended(self.history, self.queue[0]),
                cursor: None,
            }
        } else {
            CacheState { cursor: None, ..self }
        }
    }

    /// The state after a fetched artwork was served.
    pub open spec fn served(self, artwork: ArtworkView) -> CacheState {
        CacheState {
            queue: self.queue,
            history: appended(self.history, artwork),
            cursor: shifted(self.cursor, self.history.len()),
        }
    }

    /// Whether the queue has room.
    pub open spec fn has_room(self) -> bool {
        self.queue.len() < CACHE_SIZE
    }

    /// The state after a prefetched artwork was offered: it joins the
    /// queue if there is room, and is dropped if there is none.
    pub open spec fn offered(self, artwork: ArtworkView) -> CacheState {
        if self.has_room() {
            CacheState { queue: self.queue.push(artwork), ..self }
        } else {
            self
        }
    }
}

/// What [`ArtCache::next`] decided.
#[derive(Debug)]
pub enum NextStep {
    /// This artwork is on show now.
    Serve(Artwork),
    /// Nothing is ready: fetch an artwork and hand the outcome to
    /// [`ArtCache::finish_next`].
    Fetch,
}

/// What the background filler does next.
#[derive(Debug, Clone, Copy, PartialEq, Eq, Structural)]
pub enum PrefetchAction {
    /// Fetch an artwork and hand the outcome to [`ArtCache::finish_prefetch`].
    Fetch,
    /// Rest for so many seconds, then call [`ArtCache::start_prefetch`] again.
    Sleep(u64),
}

/// The prefetch queue together with the history and its cursor.
pub struct ArtCache {
    cache: VecDeque<Artwork>,
    history: Vec<Artwork>,
    history_index: Option<usize>,
}

impl View for ArtCache {
    type V = CacheState;

    closed spec fn view(&self) -> CacheState {
        CacheState {
            queue: views(self.cache@),
            history: views(self.history@),
            cursor: match self.history_index {
                Some(i) => Some(i as int),
                None => None,
            },
        }
    }
}

impl ArtCache {
    /// An empty cache in live mode.
    pub fn new() -> (cache: Self)
        ensures
            cache@ == CacheState::empty(),
            cache@.wf(),
    {
        let cache = ArtCache { cache: VecDeque::new(), history: Vec::new(), history_index: None };
        assert(cache@.queue =~= Seq::empty());
        assert(cache@.history =~= Seq::empty());
        cache
    }

    /// Whether the bounds hold. They do for every cache that this module
    /// made: this is for callers that cannot rely on that.
    pub fn is_wf(&self) -> (b: bool)
        ensures
            b == self@.wf(),
    {
        let cursor_fits = match self.history_index {
            Some(i) => i < self.history.len(),
            None => true,
        };
        self.cache.len() <= CACHE_SIZE && self.history.len() <= HISTORY_LIMIT && cursor_fits
    }

    /// The number of artworks that wait in the queue.
    pub fn queue_len(&self) -> (n: usize)
        ensures
            n == self@.queue.len(),
    {
        self.cache.len()
    }

    /// The number of artworks in the history.
    pub fn history_len(&self) -> (n: usize)
        ensures
            n == self@.history.len(),
    {
        self.history.len()
    }

    /// The cursor: `None` in live mode.
    pub fn cursor(&self) -> (cursor: Option<usize>)
        ensures
            match cursor {
                Some(i) => self@.cursor == Some(i as int),
                None => self@.cursor is None,
            },
    {
        self.history_index
    }

    /// The artwork on show, if any. Changes nothing.
    pub fn current(&self) -> (shown: Option<Artwork>)
        requires
            self@.wf(),
        ensures
            match shown {
                Some(a) => self@.current() == Some(a@),
                None => self@.current() is None,
            },
    {
        match self.history_index {
            Some(i) => Some(self.history[i].clone()),
            None => {
                let len = self.history.len();
                if len > 0 {
                    Some(self.history[len - 1].clone())
                } else {
                    None
                }
            },
        }
    }

    /// Steps back through the history. Never touches the queue, never
    /// asks for a fetch.
    pub fn prev(&mut self) -> (result: Result<Artwork, NavError>)
        requires
            old(self)@.wf(),
        ensures
            final(self)@ == old(self)@.prev(),
            final(self)@.wf(),
            match result {
                Ok(a) => old(self)@.prev_result() == Ok::<ArtworkView, NavError>(a@),
                Err(e) => old(self)@.prev_result() == Err::<ArtworkView, NavError>(e),
            },
    {
        let len = self.history.len();
        if len == 0 {
            return Err(NavError::EmptyHistory);
        }
        let new_index = match self.history_index {
            Some(i) => {
                if i == 0 {
                    return Err(NavError::AtHistoryBoundary);
                }
                i - 1
            },
            None => {
                if len >= 2 {
                    len - 2
                } else {
                    return Err(NavError::NoPreviousArtwork);
                }
            },
        };
        self.history_index = Some(new_index);
        Ok(self.history[new_index].clone())
    }

    /// Puts `artwork` at the end of the history. If that makes too many
    /// entries, the oldest leave first, and a cursor that is set moves
    /// with the entry it stands on.
    fn record(&mut self, artwork: Artwork)
        requires
            old(self)@.wf(),
        ensures
            final(self)@ == old(self)@.served(artwork@),
    {
        if self.history.len() + 1 > HISTORY_LIMIT {
            if let Some(i) = self.history_index {
                self.history_index = Some(
                    if i >= HISTORY_TRIM {
                        i - HISTORY_TRIM
                    } else {
                        0
                    },
                );
            }
            let kept = self.history.split_off(HISTORY_TRIM);
            self.history = kept;
        }
        self.history.push(artwork);
        assert(self@.history =~= appended(old(self)@.history, artwork@));
    }

    /// Steps forward. While browsing, the next entry of the history is
    /// replayed. At the newest entry the cache goes back to live mode and
    /// serves the front of the queue, which joins the history. Only when
    /// the queue is empty too is a fetch asked for.
    pub fn next(&mut self) -> (step: NextStep)
        requires
            old(self)@.wf(),
        ensures
            final(self)@ == old(self)@.next(),
            final(self)@.wf(),
            match step {
                NextStep::Serve(a) => old(self)@.next_result() == Some(a@),
                NextStep::Fetch => old(self)@.next_result() is None,
            },
    {
        if let Some(i) = self.history_index {
            if i + 1 < self.history.len() {
                self.history_index = Some(i + 1);
                return NextStep::Serve(self.history[i + 1].clone());
            }
            self.history_index = None;
        }
        match self.cache.pop_front() {
            Some(artwork) => {
                let shown = artwork.clone();
                self.record(artwork);
                assert(self@.queue =~= old(self)@.queue.skip(1));
                NextStep::Serve(shown)
            },
            None => NextStep::Fetch,
        }
    }

    /// Ends a step forward that had to fetch. A fetched artwork joins the
    /// history and is served; a failure is handed back as it came and
    /// changes nothing.
    pub fn finish_next(&mut self, fetched: Result<Artwork, FetchError>) -> (result: Result<
        Artwork,
        FetchError,
    >)
        requires
            old(self)@.wf(),
        ensures
            final(self)@.wf(),
            match fetched {
                Ok(a) => final(self)@ == old(self)@.served(a@) && result == Ok::<
                    Artwork,
                    FetchError,
                >(a),
                Err(e) => final(self)@ == old(self)@ && result == Err::<Artwork, FetchError>(e),
            },
    {
        match fetched {
            Ok(artwork) => {
                let shown = artwork.clone();
                self.record(artwork);
                Ok(shown)
            },
            Err(e) => Err(e),
        }
    }

    /// Begins a cycle of the background filler: fetch if the queue has
    /// room, rest if it is full.
    pub fn start_prefetch(&self) -> (action: PrefetchAction)
        ensures
            action == if self@.has_room() {
                PrefetchAction::Fetch
            } else {
                PrefetchAction::Sleep(PREFETCH_INTERVAL_SECS)
            },
    {
        if self.cache.len() < CACHE_SIZE {
            PrefetchAction::Fetch
        } else {
            PrefetchAction::Sleep(PREFETCH_INTERVAL_SECS)
        }
    }

    /// Ends a cycle of the background filler. A fetched artwork joins the
    /// queue if there is still room; a failure changes nothing. Either
    /// way the filler rests next.
    pub fn finish_prefetch(&mut self, fetched: Result<Artwork, FetchError>) -> (action:
        PrefetchAction)
        requires
            old(self)@.wf(),
        ensures
            final(self)@.wf(),
            action == PrefetchAction::Sleep(PREFETCH_INTERVAL_SECS),
            final(self)@ == match fetched {
                Ok(a) => old(self)@.offered(a@),
                Err(_) => old(self)@,
            },
    {
        if let Ok(artwork) = fetched {
            if self.cache.len() < CACHE_SIZE {
                self.cache.push_back(artwork);
                assert(self@.queue =~= old(self)@.queue.push(artwork@));
            }
        }
        PrefetchAction::Sleep(PREFETCH_INTERVAL_SECS)
    }
}

/// The state after `n` steps back.
pub open spec fn stepped_back(state: CacheState, n: nat) -> CacheState
    decreases n,
{
    if n == 0 {
        state
    } else {
        stepped_back(state, (n - 1) as nat).prev()
    }
}

/// How many steps back succeed from `state` before the oldest entry is
/// reached.
pub open spec fn steps_to_oldest(state: CacheState) -> int {
    match state.cursor {
        Some(i) => i,
        None => state.history.len() - 1,
    }
}

/// The bounds hold at the start and after every operation: the queue never
/// holds more than [`CACHE_SIZE`] artworks, the history never more than
/// [`HISTORY_LIMIT`], and a cursor that is set points into the history.
pub proof fn lemma_bounds_kept(state: CacheState, artwork: ArtworkView)
    requires
        state.wf(),
    ensures
        CacheState::empty().wf(),
        state.prev().wf(),
        state.next().wf(),
        state.served(artwork).wf(),
        state.offered(artwork).wf(),
{
}

/// Serving an artwork puts it at the end of the history. A history within
/// [`HISTORY_LIMIT`] stays within it, and whenever the new entry makes
/// more than [`HISTORY_LIMIT`], exactly [`HISTORY_TRIM`] entries leave: the
/// oldest ones.
pub proof fn lemma_appended(history: Seq<ArtworkView>, artwork: ArtworkView)
    ensures
        appended(history, artwork).last() == artwork,
        history.len() <= HISTORY_LIMIT ==> appended(history, artwork).len() <= HISTORY_LIMIT,
        history.len() + 1 > HISTORY_LIMIT ==> appended(history, artwork).len() == history.len() + 1
            - HISTORY_TRIM,
        history.len() + 1 <= HISTORY_LIMIT ==> appended(history, artwork) == history.push(artwork),
        forall|i: int|
            0 <= i < appended(history, artwork).len() ==> appended(history, artwork)[i]
                == history.push(artwork)[i + history.len() + 1 - appended(history, artwork).len()],
{
}

/// With an artwork in the queue, a step forward never asks for a fetch. In
/// live mode it serves the front of the queue, which leaves the queue and
/// joins the history.
pub proof fn lemma_next_from_queue(state: CacheState)
    requires
        state.wf(),
        state.queue.len() > 0,
    ensures
        state.next_result() is Some,
        state.cursor is None ==> {
            &&& state.next_result() == Some(state.queue[0])
            &&& state.next().queue == state.queue.skip(1)
            &&& state.next().history == appended(state.history, state.queue[0])
            &&& state.next().cursor is None
        },
{
}

/// A step back from live mode followed by a step forward shows the newest
/// artwork again, without a fetch and without touching queue or history.
/// The cursor then stands on the newest entry.
pub proof fn lemma_back_and_forth(state: CacheState)
    requires
        state.wf(),
        state.cursor is None,
        state.history.len() >= 2,
    ensures
        state.prev_result() == Ok::<ArtworkView, NavError>(state.history[state.history.len() - 2]),
        state.prev().next_result() == Some(state.history.last()),
        state.prev().next().current() == state.current(),
        state.prev().next().queue == state.queue,
        state.prev().next().history == state.history,
        state.prev().next().cursor == Some(state.history.len() - 1),
{
}

/// A cursor on the newest entry cannot be told from live mode, as long as
/// there is an older entry to step back to: the three operations answer
/// the same and lead to the same state.
pub proof fn lemma_newest_entry_is_live(state: CacheState)
    requires
        state.wf(),
        state.history.len() >= 2,
        state.cursor == Some(state.history.len() - 1),
    ensures
        ({
            let live = CacheState { cursor: None, ..state };
            &&& state.current() == live.current()
            &&& state.next_result() == live.next_result()
            &&& state.next() == live.next()
            &&& state.prev_result() == live.prev_result()
            &&& state.prev() == live.prev()
        }),
{
}

/// Stepping back never leaves the history, and it comes to an end. From a
/// state that can step back at all, the first [`steps_to_oldest`] steps
/// succeed, each serving the entry before the last one served. Every
/// later step is refused with [`NavError::AtHistoryBoundary`] and leaves
/// the cursor on the oldest entry.
pub proof fn lemma_prev_ends_at_oldest(state: CacheState, n: nat)
    requires
        state.wf(),
        state.cursor is Some || state.history.len() >= 2,
    ensures
        stepped_back(state, n).wf(),
        stepped_back(state, n).queue == state.queue,
        stepped_back(state, n).history == state.history,
        n < steps_to_oldest(state) ==> stepped_back(state, n).prev_result() == Ok::<
            ArtworkView,
            NavError,
        >(state.history[steps_to_oldest(state) - n - 1]),
        0 < n <= steps_to_oldest(state) ==> stepped_back(state, n).cursor == Some(
            steps_to_oldest(state) - n,
        ),
        n >= steps_to_oldest(state) ==> stepped_back(state, n).cursor == Some(0int)
            && stepped_back(state, n).prev_result() == Err::<ArtworkView, NavError>(
            NavError::AtHistoryBoundary,
        ),
    decreases n,
{
    if n > 0 {
        lemma_prev_ends_at_oldest(state, (n - 1) as nat);
    }
}

} // verus!
