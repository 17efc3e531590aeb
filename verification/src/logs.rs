//! The log tail synchronizer: a diff over a stateless "fetch the last N
//! lines" endpoint that emits each line at most once and signals change
//! when growth cannot be detected.
//!
//! The remote endpoint offers no streaming or offset access: every poll
//! re-fetches a bounded window of the most recent lines. Per tick the
//! synchronizer compares the fresh window with the one it last kept:
//! if the line count grew, exactly the lines beyond the old count are
//! emitted; if the count stayed or shrank (a shifted or rotated window)
//! but the last line changed, a single latest-changed notice is emitted;
//! otherwise nothing is. The cursor advances only when something was
//! emitted, so a transient empty fetch never erases history. This is a
//! best-effort tail: lines that scroll out of the server's window between
//! polls are lost to the view, by design.

use vstd::prelude::*;
use crate::utils::str_eq;

verus! {

/// The synchronizer's whole state: the window of lines it last kept.
/// The previous line count is its length.
pub struct LogCursor {
    pub last_lines: Vec<String>,
}

/// What one tick tells the display layer.
pub enum TailEmission {
    /// No change was observed; print nothing.
    Nothing,
    /// Genuinely new lines beyond the previously seen count, in order.
    NewLines(Vec<String>),
    /// The window shifted or rotated without growing, and this is its new
    /// last line; full content reconstruction is not guaranteed.
    LatestChanged(String),
}

/// The mathematical form of an emission.
pub enum EmissionV {
    Nothing,
    NewLines(Seq<Seq<char>>),
    LatestChanged(Seq<char>),
}

impl View for TailEmission {
    type V = EmissionV;

    open spec fn view(&self) -> EmissionV {
        match self {
            TailEmission::Nothing => EmissionV::Nothing,
            TailEmission::NewLines(v) => EmissionV::NewLines(v.deep_view()),
            TailEmission::LatestChanged(s) => EmissionV::LatestChanged(s@),
        }
    }
}

/// One synchronizer tick as a pure function of the previous window and the
/// fresh fetch: what is emitted, and the window kept for the next tick.
pub open spec fn spec_tick(prev: Seq<Seq<char>>, fetched: Seq<Seq<char>>) -> (EmissionV, Seq<
    Seq<char>,
>) {
    if fetched.len() == 0 {
        (EmissionV::Nothing, prev)
    } else if fetched.len() > prev.len() {
        (EmissionV::NewLines(fetched.skip(prev.len() as int)), fetched)
    } else if fetched.last() != prev.last() {
        (EmissionV::LatestChanged(fetched.last()), fetched)
    } else {
        (EmissionV::Nothing, prev)
    }
}

impl LogCursor {
    /// A cursor that has seen nothing yet.
    pub fn new() -> (r: LogCursor)
        ensures
            r.last_lines.deep_view() == Seq::<Seq<char>>::empty(),
    {
        let r = LogCursor { last_lines: Vec::new() };
        proof {
            assert(r.last_lines.deep_view() =~= Seq::<Seq<char>>::empty());
        }
        r
    }

    /// A cursor primed with the baseline fetch, which the caller displays
    /// wholesale; follow-up ticks emit only what goes beyond it.
    pub fn from_baseline(lines: Vec<String>) -> (r: LogCursor)
        ensures
            r.last_lines.deep_view() == lines.deep_view(),
    {
        LogCursor { last_lines: lines }
    }

    /// One poll tick: diffs the fresh fetch against the kept window and
    /// advances the window exactly when something is emitted.
    pub fn tick(&mut self, fetched: Vec<String>) -> (e: TailEmission)
        ensures
            (e@, final (self).last_lines.deep_view()) == spec_tick(
                old(self).last_lines.deep_view(),
                fetched.deep_view(),
            ),
    {
        let ghost prev = self.last_lines.deep_view();
        let ghost fresh = fetched.deep_view();
        if fetched.len() == 0 {
            return TailEmission::Nothing;
        }
        let prev_len = self.last_lines.len();
        if fetched.len() > prev_len {
            let mut new_lines: Vec<String> = Vec::new();
            let mut i: usize = prev_len;
            while i < fetched.len()
                invariant
                    prev_len <= i <= fetched@.len(),
                    fresh == fetched.deep_view(),
                    fresh.len() == fetched@.len(),
                    new_lines.deep_view() =~= fresh.subrange(prev_len as int, i as int),
                decreases fetched@.len() - i,
            {
                let ghost before = new_lines.deep_view();
                let line = fetched[i].clone();
                proof {
                    assert(line@ == fresh[i as int]);
                }
                new_lines.push(line);
                proof {
                    assert(new_lines.deep_view() =~= before.push(fresh[i as int]));
                    assert(new_lines.deep_view() =~= fresh.subrange(prev_len as int, i + 1));
                }
                i = i + 1;
            }
            proof {
                assert(new_lines.deep_view() =~= fresh.skip(prev_len as int));
            }
            self.last_lines = fetched;
            TailEmission::NewLines(new_lines)
        } else {
            let changed = !str_eq(
                fetched[fetched.len() - 1].as_str(),
                self.last_lines[prev_len - 1].as_str(),
            );
            proof {
                assert(fresh.last() == fetched@[fresh.len() - 1]@);
                assert(prev.last() == self.last_lines@[prev.len() - 1]@);
            }
            if changed {
                let latest = fetched[fetched.len() - 1].clone();
                self.last_lines = fetched;
                TailEmission::LatestChanged(latest)
            } else {
                TailEmission::Nothing
            }
        }
    }
}

/// When the fresh fetch extends what was already seen, the emission is
/// exactly the new suffix: the old window followed by the emitted lines
/// reconstructs the fetch, so no line is re-emitted and none in the window
/// is dropped.
pub proof fn lemma_tail_emits_exactly_new_suffix(prev: Seq<Seq<char>>, fetched: Seq<Seq<char>>)
    requires
        fetched.len() > prev.len(),
        prev == fetched.take(prev.len() as int),
    ensures
        spec_tick(prev, fetched).0 == EmissionV::NewLines(fetched.skip(prev.len() as int)),
        prev + fetched.skip(prev.len() as int) == fetched,
        spec_tick(prev, fetched).1 == fetched,
{
    assert(prev + fetched.skip(prev.len() as int) =~= fetched);
}

/// A fetch identical to the kept window emits nothing and moves nothing.
pub proof fn lemma_tail_quiescent(prev: Seq<Seq<char>>)
    ensures
        spec_tick(prev, prev) == (EmissionV::Nothing, prev),
{
}

/// A transient empty fetch emits nothing and does not erase history.
pub proof fn lemma_empty_fetch_keeps_history(prev: Seq<Seq<char>>)
    ensures
        spec_tick(prev, Seq::<Seq<char>>::empty()) == (EmissionV::Nothing, prev),
{
}

/// Change is signalled at most once: whatever one tick emitted, a second
/// tick over the same fetch emits nothing.
pub proof fn lemma_tail_latest_once(prev: Seq<Seq<char>>, fetched: Seq<Seq<char>>)
    ensures
        spec_tick(spec_tick(prev, fetched).1, fetched).0 == EmissionV::Nothing,
{
}

} // verus!
