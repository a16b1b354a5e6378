//! Deciding whether focus moved to another application between two polls.

use crate::window::{seen, WindowObservation, WindowObservationView};
use vstd::prelude::*;

verus! {

/// The outcome of comparing a poll with the application tracked so far.
#[derive(Clone, Debug, PartialEq, Eq)]
pub enum Transition {
    /// Nothing was observed, or the same application still holds focus.
    Unchanged,
    /// Another application holds focus now, or this is the first one seen.
    Changed(WindowObservation),
}

/// A [`Transition`] over the view of the observation it carries.
pub enum TransitionView {
    Unchanged,
    Changed(WindowObservationView),
}

impl View for Transition {
    type V = TransitionView;

    open spec fn view(&self) -> TransitionView {
        match self {
            Transition::Unchanged => TransitionView::Unchanged,
            Transition::Changed(window) => TransitionView::Changed(window@),
        }
    }
}

/// The transition from the identity tracked so far to what a poll observed:
/// a change exactly when something was observed and its identity is not the
/// one tracked.
pub open spec fn transition_of(
    previous: Option<u32>,
    observation: Option<WindowObservationView>,
) -> TransitionView {
    match observation {
        None => TransitionView::Unchanged,
        Some(window) => if previous == Some(window.app_identity) {
            TransitionView::Unchanged
        } else {
            TransitionView::Changed(window)
        },
    }
}

/// Compares what a poll observed with the identity tracked so far.
pub fn detect_change(previous: Option<u32>, observation: Option<WindowObservation>) -> (transition:
    Transition)
    ensures
        transition@ == transition_of(previous, seen(observation)),
{
    match observation {
        None => Transition::Unchanged,
        Some(window) => {
            let same = match previous {
                Some(identity) => identity == window.app_identity,
                None => false,
            };
            if same {
                Transition::Unchanged
            } else {
                Transition::Changed(window)
            }
        },
    }
}

/// A poll that observes a window while nothing is tracked is always a
/// change to that window.
pub proof fn lemma_first_sighting_is_change(window: WindowObservationView)
    ensures
        transition_of(None, Some(window)) == TransitionView::Changed(window),
{
}

} // verus!
