//! Teardown: both signal subscriptions are removed, best effort, and any
//! failure is reported once both removals were tried.
use vstd::prelude::*;

verus! {

/// One of the two signal subscriptions of the watcher.
#[derive(Clone, Copy, Debug, PartialEq, Eq, Structural)]
pub enum SignalFilter {
    InterfacesAdded,
    InterfacesRemoved,
}

/// Progress of a teardown, as plain values.
pub struct TeardownView {
    pub added_done: bool,
    pub removed_done: bool,
    pub errors: Seq<Seq<char>>,
}

/// The teardown before any removal was tried.
pub open spec fn teardown_start() -> TeardownView {
    TeardownView { added_done: false, removed_done: false, errors: Seq::empty() }
}

/// The subscription to remove next, if one is left.
pub open spec fn next_removal(t: TeardownView) -> Option<SignalFilter> {
    if !t.added_done {
        Some(SignalFilter::InterfacesAdded)
    } else if !t.removed_done {
        Some(SignalFilter::InterfacesRemoved)
    } else {
        None
    }
}

/// The teardown once the removal of `f` was tried; `failure` is its error
/// message, if it failed.
pub open spec fn after_removal(
    t: TeardownView,
    f: SignalFilter,
    failure: Option<Seq<char>>,
) -> TeardownView {
    TeardownView {
        added_done: t.added_done || f == SignalFilter::InterfacesAdded,
        removed_done: t.removed_done || f == SignalFilter::InterfacesRemoved,
        errors: match failure {
            Some(e) => t.errors.push(e),
            None => t.errors,
        },
    }
}

/// The error message of a removal's outcome, if it failed.
pub open spec fn failure_of(outcome: Result<(), String>) -> Option<Seq<char>> {
    match outcome {
        Ok(_) => None,
        Err(e) => Some(e@),
    }
}

/// A teardown in progress.
pub struct Teardown {
    added_done: bool,
    removed_done: bool,
    errors: Vec<String>,
}

impl View for Teardown {
    type V = TeardownView;

    closed spec fn view(&self) -> TeardownView {
        TeardownView {
            added_done: self.added_done,
            removed_done: self.removed_done,
            errors: self.errors@.map_values(|e: String| e@),
        }
    }
}

impl Teardown {
    /// A teardown before any removal was tried.
    pub fn new() -> (r: Teardown)
        ensures
            r@ == teardown_start(),
    {
        let r = Teardown { added_done: false, removed_done: false, errors: Vec::new() };
        assert(r@.errors =~= Seq::<Seq<char>>::empty());
        r
    }

    /// The subscription to remove next, if one is left.
    pub fn next_filter(&self) -> (r: Option<SignalFilter>)
        ensures
            r == next_removal(self@),
    {
        if !self.added_done {
            Some(SignalFilter::InterfacesAdded)
        } else if !self.removed_done {
            Some(SignalFilter::InterfacesRemoved)
        } else {
            None
        }
    }

    /// Records the outcome of the removal of `filter`.
    pub fn record(&mut self, filter: SignalFilter, outcome: Result<(), String>)
        ensures
            final(self)@ == after_removal(old(self)@, filter, failure_of(outcome)),
    {
        match filter {
            SignalFilter::InterfacesAdded => {
                self.added_done = true;
            },
            SignalFilter::InterfacesRemoved => {
                self.removed_done = true;
            },
        }
        match outcome {
            Ok(()) => {},
            Err(e) => {
                self.errors.push(e);
            },
        }
        assert(self@.errors =~= after_removal(old(self)@, filter, failure_of(outcome)).errors);
    }

    /// Tells whether both removals were tried.
    pub fn is_done(&self) -> (r: bool)
        ensures
            r == next_removal(self@).is_none(),
    {
        self.added_done && self.removed_done
    }

    /// The teardown's result: `Ok` when no removal failed, else the error
    /// messages of the failed ones, in the order they were tried.
    pub fn finish(self) -> (r: Result<(), Vec<String>>)
        ensures
            match r {
                Ok(_) => self@.errors.len() == 0,
                Err(es) => self@.errors.len() > 0 && es@.map_values(|e: String| e@)
                    == self@.errors,
            },
    {
        if self.errors.len() == 0 {
            Ok(())
        } else {
            Err(self.errors)
        }
    }
}

} // verus!
