//! What the server tells the mirror, and what the mirror tells its
//! consumers.

use crate::source::{Source, SourceView};
use crate::source_output::{SourceOutput, SourceOutputView};
use vstd::prelude::*;

verus! {

/// What happened to the entity that a notification names.
#[derive(Debug, Clone, Copy, PartialEq, Eq, Structural)]
pub enum Operation {
    /// The entity appeared.
    New,
    /// A property of the entity changed.
    Changed,
    /// The entity is gone.
    Removed,
}

/// One call of the completion of a fetch.
#[derive(Debug)]
pub enum ListResult<T> {
    /// The entity's description.
    Item(T),
    /// Nothing, or nothing more: the entity was gone when the server
    /// looked.
    End,
    /// The server could not answer.
    Error,
}

impl<T: View> ListResult<T> {
    /// The description that this call brings, if it brings one.
    pub open spec fn item(self) -> Option<T::V> {
        match self {
            ListResult::Item(item) => Some(item@),
            _ => None,
        }
    }
}

/// What a fetch is made for.
#[derive(Debug, Clone, Copy, PartialEq, Eq, Structural)]
pub enum Completion {
    /// To track the entity from now on.
    Add,
    /// To bring the entity's record up to date.
    Update,
}

/// A fetch that the caller owes the mirror: the description of the entity
/// `index`, to be handed back together with `then`.
#[derive(Debug, Clone, Copy, PartialEq, Eq, Structural)]
pub struct Fetch {
    pub index: u32,
    pub then: Completion,
}

/// How a step of reconciliation ended.
#[derive(Debug, Clone, Copy, PartialEq, Eq, Structural)]
pub enum Outcome {
    /// The registry changed and one event was published.
    Applied,
    /// There was nothing to do: the entity had vanished before its
    /// description arrived, or was not tracked when it was removed.
    Skipped,
    /// An update came for an entity that is not tracked. The registry
    /// cannot mend that by itself; nothing changed and nothing was
    /// published. It is for the caller to report.
    Untracked,
}

/// A change to the mirror, as its consumers see it. An event holds its own
/// copy of what changed and nothing of the registry.
#[derive(Debug, PartialEq, Eq)]
pub enum Event {
    AddSource(Source),
    UpdateSource(Source),
    /// Names the source that is gone.
    RemoveSource(String),
    AddOutput(SourceOutput),
    UpdateOutput(SourceOutput),
    /// Gives the index of the source output that is gone.
    RemoveOutput(u32),
}

/// An [`Event`] as plain values.
pub enum EventView {
    AddSource(SourceView),
    UpdateSource(SourceView),
    RemoveSource(Seq<char>),
    AddOutput(SourceOutputView),
    UpdateOutput(SourceOutputView),
    RemoveOutput(u32),
}

impl View for Event {
    type V = EventView;

    open spec fn view(&self) -> EventView {
        match self {
            Event::AddSource(source) => EventView::AddSource(source@),
            Event::UpdateSource(source) => EventView::UpdateSource(source@),
            Event::RemoveSource(name) => EventView::RemoveSource(name@),
            Event::AddOutput(output) => EventView::AddOutput(output@),
            Event::UpdateOutput(output) => EventView::UpdateOutput(output@),
            Event::RemoveOutput(index) => EventView::RemoveOutput(*index),
        }
    }
}

/// The events published so far, `log`, and after them the one that a step
/// publishes, if it publishes one.
pub open spec fn with_event(log: Seq<EventView>, event: Option<EventView>) -> Seq<EventView> {
    match event {
        Some(event) => log.push(event),
        None => log,
    }
}

impl Clone for Event {
    fn clone(&self) -> (copy: Self)
        ensures
            copy@ == self@,
    {
        match self {
            Event::AddSource(source) => Event::AddSource(source.clone()),
            Event::UpdateSource(source) => Event::UpdateSource(source.clone()),
            Event::RemoveSource(name) => Event::RemoveSource(name.clone()),
            Event::AddOutput(output) => Event::AddOutput(output.clone()),
            Event::UpdateOutput(output) => Event::UpdateOutput(output.clone()),
            Event::RemoveOutput(index) => Event::RemoveOutput(*index),
        }
    }
}

} // verus!
