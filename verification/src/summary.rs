//! Run counters: each directory entry ends in one [`Event`], and the two
//! counters of the final summary are the fold of those events.

use vstd::prelude::*;

verus! {

/// How one directory entry ended.
#[derive(Clone, Copy, PartialEq, Eq, Structural, Debug)]
pub enum Event {
    /// The entry is not a regular file.
    NotRegular,
    /// The file's extension already matches the target.
    SkippedExisting,
    /// The file could not be read (reported, not counted).
    OpenFailed,
    /// The file's content is not a recognizable image (silent, not counted).
    NotAnImage,
    /// The file was converted (or would be, in a dry run).
    Converted,
    /// The file decoded but could not be encoded or written (reported, not
    /// counted).
    SaveFailed,
}

/// How much one event adds to the `converted` counter.
pub open spec fn converted_delta(ev: Event) -> nat {
    if ev is Converted {
        1
    } else {
        0
    }
}

/// How much one event adds to the `skipped` counter.
pub open spec fn skipped_delta(ev: Event) -> nat {
    if ev is SkippedExisting {
        1
    } else {
        0
    }
}

/// The event concerns a regular file.
pub open spec fn is_regular(ev: Event) -> bool {
    !(ev is NotRegular)
}

/// The `converted` counter after a whole run of events.
pub open spec fn total_converted(evs: Seq<Event>) -> nat
    decreases evs.len(),
{
    if evs.len() == 0 {
        0
    } else {
        total_converted(evs.drop_last()) + converted_delta(evs.last())
    }
}

/// The `skipped` counter after a whole run of events.
pub open spec fn total_skipped(evs: Seq<Event>) -> nat
    decreases evs.len(),
{
    if evs.len() == 0 {
        0
    } else {
        total_skipped(evs.drop_last()) + skipped_delta(evs.last())
    }
}

/// How many events of the run concern regular files.
pub open spec fn regular_count(evs: Seq<Event>) -> nat
    decreases evs.len(),
{
    if evs.len() == 0 {
        0
    } else {
        regular_count(evs.drop_last()) + if is_regular(evs.last()) {
            1nat
        } else {
            0nat
        }
    }
}

/// Every regular file of the run was counted: it was either skipped as
/// already in the target format, or converted.
pub open spec fn fully_counted(evs: Seq<Event>) -> bool {
    forall|i: int|
        0 <= i < evs.len() ==> evs[i] is NotRegular || evs[i] is SkippedExisting
            || evs[i] is Converted
}

/// The two counters reported at the end of a run.
pub struct Summary {
    pub converted: usize,
    pub skipped: usize,
}

impl Summary {
    /// A fresh summary with both counters at zero.
    pub fn new() -> (s: Summary)
        ensures
            s.converted == 0,
            s.skipped == 0,
    {
        Summary { converted: 0, skipped: 0 }
    }

    /// Record the outcome of one directory entry.
    pub fn record(&mut self, ev: Event)
        requires
            ev is Converted ==> old(self).converted < usize::MAX,
            ev is SkippedExisting ==> old(self).skipped < usize::MAX,
        ensures
            final(self).converted == old(self).converted + converted_delta(ev),
            final(self).skipped == old(self).skipped + skipped_delta(ev),
    {
        match ev {
            Event::Converted => {
                self.converted = self.converted + 1;
            },
            Event::SkippedExisting => {
                self.skipped = self.skipped + 1;
            },
            _ => {
            },
        }
    }
}

/// A run's counter totals never exceed the number of its events.
pub proof fn lemma_totals_le_len(evs: Seq<Event>)
    ensures
        total_converted(evs) + total_skipped(evs) <= evs.len(),
    decreases evs.len(),
{
    if evs.len() > 0 {
        lemma_totals_le_len(evs.drop_last());
    }
}

/// The summary accounting law: over any run, `converted + skipped` never
/// exceeds the number of regular files seen, and equals it exactly when
/// every regular file was either skip-eligible or converted — the only
/// shortfalls are files that failed to open, were not decodable images,
/// or could not be saved.
pub proof fn lemma_counts_account_for_files(evs: Seq<Event>)
    ensures
        total_converted(evs) + total_skipped(evs) <= regular_count(evs),
        (total_converted(evs) + total_skipped(evs) == regular_count(evs)) <==> fully_counted(evs),
    decreases evs.len(),
{
    if evs.len() > 0 {
        lemma_counts_account_for_files(evs.drop_last());
        assert(forall|i: int|
            0 <= i < evs.len() - 1 ==> evs.drop_last()[i] == evs[i]);
        if fully_counted(evs) {
            assert(fully_counted(evs.drop_last()));
        }
        if total_converted(evs) + total_skipped(evs) == regular_count(evs) {
            assert(fully_counted(evs.drop_last()));
            assert(evs.last() == evs[evs.len() - 1]);
        }
    }
}

/// Rebuild the summary a run of events produces, one `record` at a time.
pub fn replay(evs: &Vec<Event>) -> (s: Summary)
    ensures
        s.converted == total_converted(evs@),
        s.skipped == total_skipped(evs@),
{
    let mut s = Summary::new();
    let mut i: usize = 0;
    while i < evs.len()
        invariant
            i <= evs.len(),
            s.converted == total_converted(evs@.subrange(0, i as int)),
            s.skipped == total_skipped(evs@.subrange(0, i as int)),
        decreases evs.len() - i,
    {
        proof {
            lemma_totals_le_len(evs@.subrange(0, i as int));
            assert(evs@.subrange(0, i + 1).drop_last() =~= evs@.subrange(0, i as int));
            assert(evs@.subrange(0, i + 1).last() == evs@[i as int]);
        }
        s.record(evs[i]);
        i = i + 1;
    }
    proof {
        assert(evs@.subrange(0, evs@.len() as int) =~= evs@);
    }
    s
}

} // verus!
