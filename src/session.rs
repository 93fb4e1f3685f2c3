use vstd::prelude::*;

use crate::error::Error;

verus! {

/// The native round-trip that the caller performs next.
#[derive(Clone, Copy, Debug, PartialEq, Eq)]
pub enum Action {
    /// Open a connection to the default display.
    OpenDisplay,
    /// Ask the open display whether it offers the screen-saver extension.
    QueryExtension,
    /// Allocate an info buffer with the extension's own allocator.
    AllocInfo,
    /// Query the idle information of the default root window into the buffer.
    QueryInfo,
    /// Release the info buffer.
    FreeInfo,
    /// Close the display connection.
    CloseDisplay,
    /// Nothing is held any more: hand this result to the user.
    Finish(Result<u64, Error>),
}

/// What the caller reports back after performing an [`Action`].
#[derive(Clone, Copy, Debug, PartialEq, Eq)]
pub enum Event {
    /// The display was opened (`true`) or the open call returned null.
    Opened(bool),
    /// Whether the extension is present.
    ExtensionChecked(bool),
    /// The buffer was allocated (`true`) or the allocator returned null.
    Allocated(bool),
    /// The query succeeded with this idle time in milliseconds, or failed.
    Queried(Option<u64>),
    /// The buffer was released.
    Freed,
    /// The connection was closed.
    Closed,
}

/// Where a session stands: which reply it waits for, and which result is
/// already decided while resources are being released.
#[derive(Clone, Copy, Debug, PartialEq, Eq)]
pub enum Phase {
    /// Nothing is held; the display is to be opened.
    AwaitOpen,
    /// The display is held; the extension is to be checked.
    AwaitExtension,
    /// The display is held; a buffer is to be allocated.
    AwaitAlloc,
    /// The display and a buffer are held; the query is to be made.
    AwaitQuery,
    /// The result is decided; the buffer is to be freed.
    AwaitFree(Result<u64, Error>),
    /// The result is decided and no buffer is held; the display is to be closed.
    AwaitClose(Result<u64, Error>),
    /// Nothing is held any more.
    Finished(Result<u64, Error>),
}

/// The transition of a session in phase `p` on the reply `e`; `None` when
/// `e` does not answer the action that `p` asked for.
pub open spec fn next(p: Phase, e: Event) -> Option<Phase> {
    match p {
        Phase::AwaitOpen => match e {
            Event::Opened(true) => Some(Phase::AwaitExtension),
            Event::Opened(false) => Some(Phase::Finished(Err(Error::CannotOpenDisplay))),
            _ => None,
        },
        Phase::AwaitExtension => match e {
            Event::ExtensionChecked(true) => Some(Phase::AwaitAlloc),
            Event::ExtensionChecked(false) => Some(
                Phase::AwaitClose(Err(Error::NoScreenSaverExtension)),
            ),
            _ => None,
        },
        Phase::AwaitAlloc => match e {
            Event::Allocated(true) => Some(Phase::AwaitQuery),
            Event::Allocated(false) => Some(
                Phase::AwaitClose(Err(Error::CannotGetScreenSaverInfo)),
            ),
            _ => None,
        },
        Phase::AwaitQuery => match e {
            Event::Queried(Some(idle)) => Some(Phase::AwaitFree(Ok(idle))),
            Event::Queried(None) => Some(Phase::AwaitFree(Err(Error::CannotGetScreenSaverInfo))),
            _ => None,
        },
        Phase::AwaitFree(r) => match e {
            Event::Freed => Some(Phase::AwaitClose(r)),
            _ => None,
        },
        Phase::AwaitClose(r) => match e {
            Event::Closed => Some(Phase::Finished(r)),
            _ => None,
        },
        Phase::Finished(_) => None,
    }
}

/// The action that a session in phase `p` asks for.
pub open spec fn pending(p: Phase) -> Action {
    match p {
        Phase::AwaitOpen => Action::OpenDisplay,
        Phase::AwaitExtension => Action::QueryExtension,
        Phase::AwaitAlloc => Action::AllocInfo,
        Phase::AwaitQuery => Action::QueryInfo,
        Phase::AwaitFree(_) => Action::FreeInfo,
        Phase::AwaitClose(_) => Action::CloseDisplay,
        Phase::Finished(r) => Action::Finish(r),
    }
}

/// The phase that a fresh session reaches on the replies `h`, in order;
/// `None` when some reply does not answer the action asked for.
pub open spec fn after(h: Seq<Event>) -> Option<Phase>
    decreases h.len(),
{
    if h.len() == 0 {
        Some(Phase::AwaitOpen)
    } else {
        match after(h.drop_last()) {
            Some(p) => next(p, h.last()),
            None => None,
        }
    }
}

/// How many times `e` occurs in `h`.
pub open spec fn occurrences(h: Seq<Event>, e: Event) -> nat
    decreases h.len(),
{
    if h.len() == 0 {
        0
    } else {
        occurrences(h.drop_last(), e) + if h.last() == e {
            1nat
        } else {
            0nat
        }
    }
}

/// One reading of the idle time, driven by the caller's native replies.
pub struct IdleQuery {
    phase: Phase,
    history: Ghost<Seq<Event>>,
}

impl IdleQuery {
    #[verifier::type_invariant]
    spec fn replayable(self) -> bool {
        after(self.history@) == Some(self.phase)
    }

    /// The phase the session is in.
    pub closed spec fn phase(&self) -> Phase {
        self.phase
    }

    /// The replies received so far, in order.
    pub closed spec fn history(&self) -> Seq<Event> {
        self.history@
    }

    /// A session that has asked for nothing yet; its first action opens the display.
    pub fn new() -> (q: IdleQuery)
        ensures
            q.phase() == Phase::AwaitOpen,
            q.history() == Seq::<Event>::empty(),
            after(q.history()) == Some(q.phase()),
    {
        IdleQuery { phase: Phase::AwaitOpen, history: Ghost(Seq::empty()) }
    }

    /// The action the session asks the caller to perform now.
    pub fn action(&self) -> (a: Action)
        ensures
            a == pending(self.phase()),
    {
        match self.phase {
            Phase::AwaitOpen => Action::OpenDisplay,
            Phase::AwaitExtension => Action::QueryExtension,
            Phase::AwaitAlloc => Action::AllocInfo,
            Phase::AwaitQuery => Action::QueryInfo,
            Phase::AwaitFree(_) => Action::FreeInfo,
            Phase::AwaitClose(_) => Action::CloseDisplay,
            Phase::Finished(r) => Action::Finish(r),
        }
    }

    /// Whether `e` answers the action the session asks for.
    pub fn accepts(&self, e: Event) -> (r: bool)
        ensures
            r == next(self.phase(), e) is Some,
    {
        match (self.phase, e) {
            (Phase::AwaitOpen, Event::Opened(_)) => true,
            (Phase::AwaitExtension, Event::ExtensionChecked(_)) => true,
            (Phase::AwaitAlloc, Event::Allocated(_)) => true,
            (Phase::AwaitQuery, Event::Queried(_)) => true,
            (Phase::AwaitFree(_), Event::Freed) => true,
            (Phase::AwaitClose(_), Event::Closed) => true,
            _ => false,
        }
    }

    /// Take the reply to the pending action and return the next action.
    pub fn step(&mut self, e: Event) -> (a: Action)
        requires
            next(old(self).phase(), e) is Some,
        ensures
            next(old(self).phase(), e) == Some(final(self).phase()),
            final(self).history() == old(self).history().push(e),
            after(final(self).history()) == Some(final(self).phase()),
            a == pending(final(self).phase()),
    {
        proof {
            use_type_invariant(&*self);
        }
        let p = match (self.phase, e) {
            (Phase::AwaitOpen, Event::Opened(true)) => Phase::AwaitExtension,
            (Phase::AwaitOpen, Event::Opened(false)) => Phase::Finished(
                Err(Error::CannotOpenDisplay),
            ),
            (Phase::AwaitExtension, Event::ExtensionChecked(true)) => Phase::AwaitAlloc,
            (Phase::AwaitExtension, Event::ExtensionChecked(false)) => Phase::AwaitClose(
                Err(Error::NoScreenSaverExtension),
            ),
            (Phase::AwaitAlloc, Event::Allocated(true)) => Phase::AwaitQuery,
            (Phase::AwaitAlloc, Event::Allocated(false)) => Phase::AwaitClose(
                Err(Error::CannotGetScreenSaverInfo),
            ),
            (Phase::AwaitQuery, Event::Queried(Some(idle))) => Phase::AwaitFree(Ok(idle)),
            (Phase::AwaitQuery, Event::Queried(None)) => Phase::AwaitFree(
                Err(Error::CannotGetScreenSaverInfo),
            ),
            (Phase::AwaitFree(r), Event::Freed) => Phase::AwaitClose(r),
            (Phase::AwaitClose(r), Event::Closed) => Phase::Finished(r),
            (p, _) => p,
        };
        let ghost h = self.history@.push(e);
        proof {
            assert(h.drop_last() =~= self.history@);
        }
        *self = IdleQuery { phase: p, history: Ghost(h) };
        self.action()
    }
}

} // verus!
