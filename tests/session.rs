use rs_idle::{Action, Error, Event, IdleQuery};

/// A native layer that answers from fixed outcomes and records every call.
struct FakeNative {
    open_ok: bool,
    has_extension: bool,
    alloc_ok: bool,
    query: Option<u64>,
    calls: Vec<Action>,
}

impl FakeNative {
    fn new(open_ok: bool, has_extension: bool, alloc_ok: bool, query: Option<u64>) -> FakeNative {
        FakeNative { open_ok, has_extension, alloc_ok, query, calls: Vec::new() }
    }

    fn count(&self, a: Action) -> usize {
        self.calls.iter().filter(|c| **c == a).count()
    }

    fn position(&self, a: Action) -> Option<usize> {
        self.calls.iter().position(|c| *c == a)
    }

    fn run(&mut self) -> Result<u64, Error> {
        let mut q = IdleQuery::new();
        let mut a = q.action();
        loop {
            let e = match a {
                Action::OpenDisplay => Event::Opened(self.open_ok),
                Action::QueryExtension => Event::ExtensionChecked(self.has_extension),
                Action::AllocInfo => Event::Allocated(self.alloc_ok),
                Action::QueryInfo => Event::Queried(self.query),
                Action::FreeInfo => Event::Freed,
                Action::CloseDisplay => Event::Closed,
                Action::Finish(r) => return r,
            };
            self.calls.push(a);
            assert!(q.accepts(e));
            a = q.step(e);
        }
    }
}

#[test]
fn open_failure_gives_cannot_open_display() {
    let mut n = FakeNative::new(false, true, true, Some(1));
    assert_eq!(n.run(), Err(Error::CannotOpenDisplay));
    assert_eq!(n.calls, vec![Action::OpenDisplay]);
    assert_eq!(n.count(Action::CloseDisplay), 0);
    assert_eq!(n.count(Action::FreeInfo), 0);
}

#[test]
fn missing_extension_closes_once_and_never_allocates() {
    let mut n = FakeNative::new(true, false, true, Some(1));
    assert_eq!(n.run(), Err(Error::NoScreenSaverExtension));
    assert_eq!(n.count(Action::CloseDisplay), 1);
    assert_eq!(n.count(Action::AllocInfo), 0);
    assert_eq!(n.count(Action::QueryInfo), 0);
    assert_eq!(n.count(Action::FreeInfo), 0);
}

#[test]
fn allocation_failure_closes_without_free() {
    let mut n = FakeNative::new(true, true, false, Some(1));
    assert_eq!(n.run(), Err(Error::CannotGetScreenSaverInfo));
    assert_eq!(n.count(Action::CloseDisplay), 1);
    assert_eq!(n.count(Action::FreeInfo), 0);
    assert_eq!(n.count(Action::QueryInfo), 0);
}

#[test]
fn query_failure_frees_then_closes() {
    let mut n = FakeNative::new(true, true, true, None);
    assert_eq!(n.run(), Err(Error::CannotGetScreenSaverInfo));
    assert_eq!(n.count(Action::FreeInfo), 1);
    assert_eq!(n.count(Action::CloseDisplay), 1);
    assert!(n.position(Action::FreeInfo) < n.position(Action::CloseDisplay));
}

#[test]
fn success_returns_idle_field_after_free_then_close() {
    let mut n = FakeNative::new(true, true, true, Some(42000));
    assert_eq!(n.run(), Ok(42000));
    assert_eq!(n.count(Action::FreeInfo), 1);
    assert_eq!(n.count(Action::CloseDisplay), 1);
    assert_eq!(
        n.calls,
        vec![
            Action::OpenDisplay,
            Action::QueryExtension,
            Action::AllocInfo,
            Action::QueryInfo,
            Action::FreeInfo,
            Action::CloseDisplay,
        ]
    );
}

#[test]
fn zero_and_largest_idle_times_pass_through() {
    let mut zero = FakeNative::new(true, true, true, Some(0));
    assert_eq!(zero.run(), Ok(0));
    let mut largest = FakeNative::new(true, true, true, Some(u64::MAX));
    assert_eq!(largest.run(), Ok(u64::MAX));
}

#[test]
fn every_path_releases_what_it_acquired() {
    for open_ok in [false, true] {
        for has_extension in [false, true] {
            for alloc_ok in [false, true] {
                for query in [None, Some(7)] {
                    let mut n = FakeNative::new(open_ok, has_extension, alloc_ok, query);
                    n.run().ok();
                    let opened = if open_ok { n.count(Action::OpenDisplay) } else { 0 };
                    let allocated = if alloc_ok { n.count(Action::AllocInfo) } else { 0 };
                    assert_eq!(n.count(Action::CloseDisplay), opened);
                    assert_eq!(n.count(Action::FreeInfo), allocated);
                    assert!(opened <= 1 && allocated <= 1);
                    if let Some(f) = n.position(Action::FreeInfo) {
                        assert_eq!(n.position(Action::CloseDisplay), Some(f + 1));
                    }
                    if !has_extension {
                        assert_eq!(n.count(Action::AllocInfo), 0);
                    }
                }
            }
        }
    }
}

#[test]
fn first_action_opens_the_display() {
    let q = IdleQuery::new();
    assert_eq!(q.action(), Action::OpenDisplay);
}

#[test]
fn replies_that_answer_another_action_are_not_accepted() {
    let mut q = IdleQuery::new();
    assert!(!q.accepts(Event::Closed));
    assert!(!q.accepts(Event::Freed));
    assert!(!q.accepts(Event::ExtensionChecked(true)));
    assert!(q.accepts(Event::Opened(true)));
    assert_eq!(q.step(Event::Opened(true)), Action::QueryExtension);
    assert!(!q.accepts(Event::Opened(true)));
    assert!(q.accepts(Event::ExtensionChecked(false)));
    assert_eq!(q.step(Event::ExtensionChecked(false)), Action::CloseDisplay);
    assert!(!q.accepts(Event::Allocated(true)));
    assert_eq!(q.step(Event::Closed), Action::Finish(Err(Error::NoScreenSaverExtension)));
    assert!(!q.accepts(Event::Closed));
}
