use vstd::prelude::*;

use crate::error::Error;
use crate::session::{after, next, occurrences, pending, Action, Event, Phase};

verus! {

/// Displays opened so far in `h`.
pub open spec fn displays_opened(h: Seq<Event>) -> nat {
    occurrences(h, Event::Opened(true))
}

/// Displays closed so far in `h`.
pub open spec fn displays_closed(h: Seq<Event>) -> nat {
    occurrences(h, Event::Closed)
}

/// Info buffers allocated so far in `h`.
pub open spec fn buffers_allocated(h: Seq<Event>) -> nat {
    occurrences(h, Event::Allocated(true))
}

/// Info buffers freed so far in `h`.
pub open spec fn buffers_freed(h: Seq<Event>) -> nat {
    occurrences(h, Event::Freed)
}

/// Calls made to the buffer allocator so far in `h`, whatever they returned.
pub open spec fn allocation_attempts(h: Seq<Event>) -> nat {
    occurrences(h, Event::Allocated(true)) + occurrences(h, Event::Allocated(false))
}

/// What the replies `h` of a session now in phase `p` add up to: which
/// resources are held in each phase, and that a missing extension stops the
/// session before the allocator.
spec fn tally(h: Seq<Event>, p: Phase) -> bool {
    let denied = occurrences(h, Event::ExtensionChecked(false));
    match p {
        Phase::AwaitOpen => {
            &&& displays_opened(h) == 0 && displays_closed(h) == 0
            &&& allocation_attempts(h) == 0 && buffers_freed(h) == 0
            &&& denied == 0
        },
        Phase::AwaitExtension | Phase::AwaitAlloc => {
            &&& displays_opened(h) == 1 && displays_closed(h) == 0
            &&& allocation_attempts(h) == 0 && buffers_freed(h) == 0
            &&& denied == 0
        },
        Phase::AwaitQuery | Phase::AwaitFree(_) => {
            &&& displays_opened(h) == 1 && displays_closed(h) == 0
            &&& allocation_attempts(h) == 1 && buffers_allocated(h) == 1
            &&& buffers_freed(h) == 0
            &&& denied == 0
            &&& (p matches Phase::AwaitFree(Ok(n)) ==> h.contains(Event::Queried(Some(n))))
        },
        Phase::AwaitClose(r) | Phase::Finished(r) => {
            &&& displays_opened(h) <= 1
            &&& (p is AwaitClose ==> displays_opened(h) == 1 && displays_closed(h) == 0)
            &&& (p is Finished ==> displays_closed(h) == displays_opened(h))
            &&& buffers_freed(h) == buffers_allocated(h) && buffers_allocated(h) <= 1
            &&& denied <= 1
            &&& (denied == 1 ==> allocation_attempts(h) == 0)
            &&& (r matches Ok(n) ==> h.contains(Event::Queried(Some(n))))
        },
    }
}

proof fn lemma_last_occurrence(h: Seq<Event>, e: Event)
    requires
        h.len() > 0,
        h.last() == e,
    ensures
        h.contains(e),
{
    assert(h[h.len() - 1] == e);
}

proof fn lemma_contains_prefix(h: Seq<Event>, e: Event)
    requires
        h.len() > 0,
        h.drop_last().contains(e),
    ensures
        h.contains(e),
{
    let i = choose|i: int| 0 <= i < h.drop_last().len() && h.drop_last()[i] == e;
    assert(h[i] == e);
}

/// Every history that a session can reach satisfies `tally` in its phase.
proof fn lemma_tally(h: Seq<Event>)
    requires
        after(h) is Some,
    ensures
        tally(h, after(h).unwrap()),
    decreases h.len(),
{
    if h.len() > 0 {
        let prefix = h.drop_last();
        lemma_tally(prefix);
        let e = h.last();
        let p = after(prefix).unwrap();
        if let Phase::AwaitFree(Ok(n)) = after(h).unwrap() {
            lemma_last_occurrence(h, e);
        }
        if let Phase::AwaitClose(Ok(n)) = after(h).unwrap() {
            lemma_contains_prefix(h, Event::Queried(Some(n)));
        }
        if let Phase::Finished(Ok(n)) = after(h).unwrap() {
            lemma_contains_prefix(h, Event::Queried(Some(n)));
        }
    }
}


/// Every prefix of a reachable history is reachable, and the reply that
/// follows it moves the session by `next`.
proof fn lemma_prefix(h: Seq<Event>, j: int)
    requires
        after(h) is Some,
        0 <= j < h.len(),
    ensures
        after(h.take(j)) is Some,
        after(h.take(j + 1)) is Some,
        after(h.take(j + 1)) == next(after(h.take(j)).unwrap(), h[j]),
    decreases h.len() - j,
{
    assert(h.take(j + 1).drop_last() =~= h.take(j));
    if j + 1 == h.len() {
        assert(h.take(j + 1) =~= h);
    } else {
        lemma_prefix(h, j + 1);
    }
}

/// A session that succeeds returns exactly the idle time that its query
/// reported, whatever that number is.
pub proof fn lemma_reading_is_reported(h: Seq<Event>, n: u64)
    requires
        after(h) == Some(Phase::Finished(Ok(n))),
    ensures
        h.contains(Event::Queried(Some(n))),
{
    lemma_tally(h);
}

/// Every idle time that the query can report, however large, is returned
/// unchanged after the buffer is freed and the display closed.
pub proof fn lemma_every_reading_is_returned(n: u64)
    ensures
        after(
            seq![
                Event::Opened(true),
                Event::ExtensionChecked(true),
                Event::Allocated(true),
                Event::Queried(Some(n)),
                Event::Freed,
                Event::Closed,
            ],
        ) == Some(Phase::Finished(Ok(n))),
{
    let h = seq![
        Event::Opened(true),
        Event::ExtensionChecked(true),
        Event::Allocated(true),
        Event::Queried(Some(n)),
        Event::Freed,
        Event::Closed,
    ];
    assert(after(h.take(0)) == Some(Phase::AwaitOpen));
    assert(h.take(1).drop_last() =~= h.take(0));
    assert(after(h.take(1)) == Some(Phase::AwaitExtension));
    assert(h.take(2).drop_last() =~= h.take(1));
    assert(after(h.take(2)) == Some(Phase::AwaitAlloc));
    assert(h.take(3).drop_last() =~= h.take(2));
    assert(after(h.take(3)) == Some(Phase::AwaitQuery));
    assert(h.take(4).drop_last() =~= h.take(3));
    assert(after(h.take(4)) == Some(Phase::AwaitFree(Ok(n))));
    assert(h.take(5).drop_last() =~= h.take(4));
    assert(after(h.take(5)) == Some(Phase::AwaitClose(Ok(n))));
    assert(h.drop_last() =~= h.take(5));
}

/// At every point of a session, at most one display has been opened and at
/// most one buffer allocated, and neither has been released more often than
/// it was acquired: nothing is released twice.
pub proof fn lemma_never_released_twice(h: Seq<Event>)
    requires
        after(h) is Some,
    ensures
        displays_closed(h) <= displays_opened(h) <= 1,
        buffers_freed(h) <= buffers_allocated(h) <= 1,
{
    lemma_tally(h);
}

/// When a session has finished, on every path, each display it opened has
/// been closed and each buffer it allocated has been freed: nothing leaks.
pub proof fn lemma_all_released(h: Seq<Event>, r: Result<u64, Error>)
    requires
        after(h) == Some(Phase::Finished(r)),
    ensures
        displays_closed(h) == displays_opened(h),
        buffers_freed(h) == buffers_allocated(h),
{
    lemma_tally(h);
}

/// The display is closed only once every buffer allocated before has been
/// freed, and closing it is the last native call of the session.
pub proof fn lemma_freed_before_close(h: Seq<Event>, j: int)
    requires
        after(h) is Some,
        0 <= j < h.len(),
        h[j] == Event::Closed,
    ensures
        buffers_freed(h.take(j)) == buffers_allocated(h.take(j)),
        j == h.len() - 1,
{
    lemma_prefix(h, j);
    lemma_tally(h.take(j));
    if j + 1 < h.len() {
        lemma_prefix(h, j + 1);
    }
}

/// Once the extension is reported missing, the allocator is never called and
/// the session never asks for it.
pub proof fn lemma_no_allocation_without_extension(h: Seq<Event>)
    requires
        after(h) is Some,
        h.contains(Event::ExtensionChecked(false)),
    ensures
        !h.contains(Event::Allocated(true)),
        !h.contains(Event::Allocated(false)),
        pending(after(h).unwrap()) != Action::AllocInfo,
{
    lemma_tally(h);
    lemma_occurs(h, Event::ExtensionChecked(false));
    lemma_occurs(h, Event::Allocated(true));
    lemma_occurs(h, Event::Allocated(false));
}

proof fn lemma_occurs(h: Seq<Event>, e: Event)
    ensures
        h.contains(e) <==> occurrences(h, e) > 0,
    decreases h.len(),
{
    if h.len() > 0 {
        let prefix = h.drop_last();
        lemma_occurs(prefix, e);
        if h.contains(e) {
            let i = choose|i: int| 0 <= i < h.len() && h[i] == e;
            if i < h.len() - 1 {
                assert(prefix[i] == e);
            }
        }
        if prefix.contains(e) {
            lemma_contains_prefix(h, e);
        }
        if h.last() == e {
            lemma_last_occurrence(h, e);
        }
    }
}

} // verus!
