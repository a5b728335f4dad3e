//! Sources: the input devices of the audio server.

use crate::broadcast::Broadcaster;
use crate::event::{
    with_event, Completion, Event, EventView, Fetch, ListResult, Operation, Outcome,
};
use crate::registry::{
    distinct, found, lemma_extended_tracks_once, lemma_push_tracks_once, lemma_removed_twice,
    lemma_updated_found, removed, tracks, tracks_once, updated, Record, Registry,
};
use crate::text::{or_empty, owned_or_empty, text_of};
use crate::volume::VolumeLevels;
use vstd::prelude::*;

verus! {

/// What the server says a source is doing.
#[derive(Debug, Clone, Copy, PartialEq, Eq, Structural)]
pub enum SourceState {
    /// The server cannot tell.
    Invalid,
    /// The source records, and some stream listens to it.
    Running,
    /// The source records, and no stream listens.
    Idle,
    /// The source is closed for the time being.
    Suspended,
}

/// The server's description of a source, as a fetch by index returns it.
#[derive(Debug, PartialEq, Eq)]
pub struct SourceInfo {
    pub index: u32,
    pub name: Option<String>,
    pub description: Option<String>,
    pub volume: VolumeLevels,
    pub mute: bool,
    pub state: SourceState,
}

/// A [`SourceInfo`] as plain values.
pub struct SourceInfoView {
    pub index: u32,
    pub name: Option<Seq<char>>,
    pub description: Option<Seq<char>>,
    pub volume: Seq<u32>,
    pub mute: bool,
    pub state: SourceState,
}

impl View for SourceInfo {
    type V = SourceInfoView;

    open spec fn view(&self) -> SourceInfoView {
        SourceInfoView {
            index: self.index,
            name: text_of(self.name),
            description: text_of(self.description),
            volume: self.volume@,
            mute: self.mute,
            state: self.state,
        }
    }
}

/// The mirror's record of a source.
#[derive(Debug, PartialEq, Eq)]
pub struct Source {
    pub index: u32,
    pub name: String,
    pub description: String,
    pub volume: VolumeLevels,
    pub muted: bool,
    /// Whether this is the source in use: the server reports it as running,
    /// or it is the default source.
    pub active: bool,
}

/// A [`Source`] as plain values.
pub struct SourceView {
    pub index: u32,
    pub name: Seq<char>,
    pub description: Seq<char>,
    pub volume: Seq<u32>,
    pub muted: bool,
    pub active: bool,
}

impl View for Source {
    type V = SourceView;

    open spec fn view(&self) -> SourceView {
        SourceView {
            index: self.index,
            name: self.name@,
            description: self.description@,
            volume: self.volume@,
            muted: self.muted,
            active: self.active,
        }
    }
}

impl Record for Source {
    open spec fn key(v: SourceView) -> u32 {
        v.index
    }

    fn index(&self) -> (index: u32) {
        self.index
    }
}

/// The record that stands for the description `info`: a missing name or
/// description reads as empty, and the source counts as active when the
/// server reports it as running.
pub open spec fn record_of(info: SourceInfoView) -> SourceView {
    SourceView {
        index: info.index,
        name: or_empty(info.name),
        description: or_empty(info.description),
        volume: info.volume,
        muted: info.mute,
        active: info.state == SourceState::Running,
    }
}

/// `from` is pinned down by the view of what it returns, in its own
/// contract: a string is known to Verus by its text alone, so no value can
/// be named for the result.
impl vstd::std_specs::convert::FromSpecImpl<&SourceInfo> for Source {
    open spec fn obeys_from_spec() -> bool {
        false
    }

    open spec fn from_spec(v: &SourceInfo) -> Self {
        choose|source: Source| source@ == record_of(v@)
    }
}

impl From<&SourceInfo> for Source {
    fn from(value: &SourceInfo) -> (source: Self)
        ensures
            source@ == record_of(value@),
    {
        Source {
            index: value.index,
            name: owned_or_empty(&value.name),
            description: owned_or_empty(&value.description),
            volume: value.volume.clone(),
            muted: value.mute,
            active: match value.state {
                SourceState::Running => true,
                _ => false,
            },
        }
    }
}

impl Clone for Source {
    fn clone(&self) -> (copy: Self)
        ensures
            copy@ == self@,
    {
        Source {
            index: self.index,
            name: self.name.clone(),
            description: self.description.clone(),
            volume: self.volume.clone(),
            muted: self.muted,
            active: self.active,
        }
    }
}

/// The record that an update leaves for the description `info` while
/// `default_source` names the default source: the record of `info`, active
/// also where it is the default source. A record that the server reports as
/// running stays active whatever the default is.
pub open spec fn reconciled(
    info: SourceInfoView,
    default_source: Option<Seq<char>>,
) -> SourceView {
    SourceView {
        active: record_of(info).active || default_source == Some(record_of(info).name),
        ..record_of(info)
    }
}

/// The description `info`, if there is one, is that of a source that is
/// not tracked: what the server promises of the entities it announces as
/// new.
pub open spec fn is_new(records: Seq<SourceView>, info: Option<SourceInfoView>) -> bool {
    match info {
        Some(info) => !tracks::<Source>(records, info.index),
        None => true,
    }
}

/// The registry after the completion of a fetch for a new source.
pub open spec fn after_add(
    records: Seq<SourceView>,
    info: Option<SourceInfoView>,
) -> Seq<SourceView> {
    match info {
        Some(info) => records.push(record_of(info)),
        None => records,
    }
}

/// The event that the completion of a fetch for a new source publishes.
pub open spec fn add_event(info: Option<SourceInfoView>) -> Option<EventView> {
    match info {
        Some(info) => Some(EventView::AddSource(record_of(info))),
        None => None,
    }
}

/// How the completion of a fetch for a new source ends.
pub open spec fn add_outcome(info: Option<SourceInfoView>) -> Outcome {
    match info {
        Some(_) => Outcome::Applied,
        None => Outcome::Skipped,
    }
}

/// The registry after the completion of a fetch for a changed source.
pub open spec fn after_update(
    records: Seq<SourceView>,
    default_source: Option<Seq<char>>,
    info: Option<SourceInfoView>,
) -> Seq<SourceView> {
    match info {
        Some(info) => updated::<Source>(records, info.index, reconciled(info, default_source)),
        None => records,
    }
}

/// The event that the completion of a fetch for a changed source
/// publishes.
pub open spec fn update_event(
    records: Seq<SourceView>,
    default_source: Option<Seq<char>>,
    info: Option<SourceInfoView>,
) -> Option<EventView> {
    match info {
        Some(info) if tracks::<Source>(records, info.index) => Some(
            EventView::UpdateSource(reconciled(info, default_source)),
        ),
        _ => None,
    }
}

/// How the completion of a fetch for a changed source ends.
pub open spec fn update_outcome(
    records: Seq<SourceView>,
    info: Option<SourceInfoView>,
) -> Outcome {
    match info {
        Some(info) if tracks::<Source>(records, info.index) => Outcome::Applied,
        Some(_) => Outcome::Untracked,
        None => Outcome::Skipped,
    }
}

/// The event that the removal of the source `index` publishes: the name of
/// the record that leaves.
pub open spec fn remove_event(records: Seq<SourceView>, index: u32) -> Option<EventView> {
    match found::<Source>(records, index) {
        Some(record) => Some(EventView::RemoveSource(record.name)),
        None => None,
    }
}

/// How the removal of the source `index` ends.
pub open spec fn remove_outcome(records: Seq<SourceView>, index: u32) -> Outcome {
    if tracks::<Source>(records, index) {
        Outcome::Applied
    } else {
        Outcome::Skipped
    }
}

/// Takes a notification about the source `i`.
///
/// A source that is new or has changed must be fetched first: nothing
/// changes yet, and the fetch that the caller owes is returned, to be
/// completed by [`complete`]. A removal needs no fetch and is carried out
/// at once by [`remove`].
pub fn on_event(
    sources: &mut Registry<Source>,
    tx: &mut Broadcaster,
    op: Operation,
    i: u32,
) -> (fetch: Option<Fetch>)
    ensures
        fetch == match op {
            Operation::New => Some(Fetch { index: i, then: Completion::Add }),
            Operation::Changed => Some(Fetch { index: i, then: Completion::Update }),
            Operation::Removed => None,
        },
        final(sources)@ == match op {
            Operation::Removed => removed::<Source>(old(sources)@, i),
            _ => old(sources)@,
        },
        final(tx).published() == match op {
            Operation::Removed => with_event(
                old(tx).published(),
                remove_event(old(sources)@, i),
            ),
            _ => old(tx).published(),
        },
        old(sources).well_formed() ==> final(sources).well_formed(),
        final(tx).channel() == old(tx).channel(),
{
    match op {
        Operation::New => Some(Fetch { index: i, then: Completion::Add }),
        Operation::Changed => Some(Fetch { index: i, then: Completion::Update }),
        Operation::Removed => {
            remove(i, sources, tx);
            None
        },
    }
}

/// Completes the fetch `then` with what the server returned.
///
/// The description is taken as it comes. Where the server has given the
/// index of a vanished source to a new one while the fetch was under way,
/// the description is that of the new one, and no step here can tell.
pub fn complete(
    then: Completion,
    info: ListResult<&SourceInfo>,
    sources: &mut Registry<Source>,
    default_source: &Option<String>,
    tx: &mut Broadcaster,
) -> (outcome: Outcome)
    ensures
        final(sources)@ == match then {
            Completion::Add => after_add(old(sources)@, info.item()),
            Completion::Update => after_update(
                old(sources)@,
                text_of(*default_source),
                info.item(),
            ),
        },
        final(tx).published() == with_event(
            old(tx).published(),
            match then {
                Completion::Add => add_event(info.item()),
                Completion::Update => update_event(
                    old(sources)@,
                    text_of(*default_source),
                    info.item(),
                ),
            },
        ),
        outcome == match then {
            Completion::Add => add_outcome(info.item()),
            Completion::Update => update_outcome(old(sources)@, info.item()),
        },
        old(sources).well_formed() && (then == Completion::Add ==> is_new(
            old(sources)@,
            info.item(),
        )) ==> final(sources).well_formed(),
        final(tx).channel() == old(tx).channel(),
{
    match then {
        Completion::Add => self::add(info, sources, tx),
        Completion::Update => update(info, sources, default_source, tx),
    }
}

/// Completes the fetch for a new source: appends its record and publishes
/// it. Where the source had vanished before the server looked, nothing
/// happens.
pub fn add(
    info: ListResult<&SourceInfo>,
    sources: &mut Registry<Source>,
    tx: &mut Broadcaster,
) -> (outcome: Outcome)
    ensures
        final(sources)@ == after_add(old(sources)@, info.item()),
        final(tx).published() == with_event(old(tx).published(), add_event(info.item())),
        outcome == add_outcome(info.item()),
        old(sources).well_formed() && is_new(old(sources)@, info.item())
            ==> final(sources).well_formed(),
        final(tx).channel() == old(tx).channel(),
{
    let info = match info {
        ListResult::Item(info) => info,
        _ => {
            return Outcome::Skipped;
        },
    };
    sources.apply_add(Source::from(info));
    tx.publish(Event::AddSource(Source::from(info)));
    Outcome::Applied
}

/// Marks `source` as active where it is the default source. A source that
/// is active already stays so.
fn mark_default(source: &mut Source, default_source: &Option<String>)
    ensures
        final(source)@ == (SourceView {
            active: old(source)@.active || text_of(*default_source) == Some(old(source)@.name),
            ..old(source)@
        }),
{
    if !source.active {
        if let Some(default_source) = default_source {
            source.active = source.name == *default_source;
        }
    }
}

/// Completes the fetch for a changed source: puts the fresh record in the
/// place of the old one and publishes it. The record kept and the record
/// published are made one by one and are equal in every field.
///
/// Where the source had vanished before the server looked, nothing
/// happens. Where it is not tracked, nothing happens either, and the
/// outcome says so.
pub fn update(
    info: ListResult<&SourceInfo>,
    sources: &mut Registry<Source>,
    default_source: &Option<String>,
    tx: &mut Broadcaster,
) -> (outcome: Outcome)
    ensures
        final(sources)@ == after_update(old(sources)@, text_of(*default_source), info.item()),
        final(tx).published() == with_event(
            old(tx).published(),
            update_event(old(sources)@, text_of(*default_source), info.item()),
        ),
        outcome == update_outcome(old(sources)@, info.item()),
        old(sources).well_formed() ==> final(sources).well_formed(),
        final(tx).channel() == old(tx).channel(),
{
    let info = match info {
        ListResult::Item(info) => info,
        _ => {
            return Outcome::Skipped;
        },
    };
    let mut kept = Source::from(info);
    mark_default(&mut kept, default_source);
    if !sources.apply_update(info.index, kept) {
        return Outcome::Untracked;
    }
    let mut published = Source::from(info);
    mark_default(&mut published, default_source);
    tx.publish(Event::UpdateSource(published));
    Outcome::Applied
}

/// Carries out the removal of the source `index`: takes its record out and
/// publishes its name. Where the source is not tracked, nothing happens.
pub fn remove(
    index: u32,
    sources: &mut Registry<Source>,
    tx: &mut Broadcaster,
) -> (outcome: Outcome)
    ensures
        final(sources)@ == removed::<Source>(old(sources)@, index),
        final(tx).published() == with_event(
            old(tx).published(),
            remove_event(old(sources)@, index),
        ),
        outcome == remove_outcome(old(sources)@, index),
        old(sources).well_formed() ==> final(sources).well_formed(),
        final(tx).channel() == old(tx).channel(),
{
    match sources.apply_remove(index) {
        Some(source) => {
            tx.publish(Event::RemoveSource(source.name));
            Outcome::Applied
        },
        None => Outcome::Skipped,
    }
}

/// A source that was not tracked is, once the fetch for its arrival has
/// brought its description, tracked exactly once, under the record of that
/// description; and the one event published is the addition of that same
/// record. Where no two records shared an index before, none do after.
pub proof fn lemma_add_tracks_once(records: Seq<SourceView>, info: SourceInfoView)
    requires
        !tracks::<Source>(records, info.index),
    ensures
        tracks_once::<Source>(after_add(records, Some(info)), info.index),
        found::<Source>(after_add(records, Some(info)), info.index) == Some(record_of(info)),
        add_event(Some(info)) == Some(EventView::AddSource(record_of(info))),
        distinct::<Source>(records) ==> distinct::<Source>(after_add(records, Some(info))),
{
    lemma_push_tracks_once::<Source>(records, record_of(info));
}

/// The registry after the fetches for the new sources `infos` have
/// completed one after the other, each with a description.
pub open spec fn after_adds(records: Seq<SourceView>, infos: Seq<SourceInfoView>) -> Seq<SourceView>
    decreases infos.len(),
{
    if infos.len() == 0 {
        records
    } else {
        after_add(after_adds(records, infos.drop_last()), Some(infos.last()))
    }
}

/// What has been published after those same completions.
pub open spec fn published_by_adds(
    log: Seq<EventView>,
    infos: Seq<SourceInfoView>,
) -> Seq<EventView>
    decreases infos.len(),
{
    if infos.len() == 0 {
        log
    } else {
        with_event(published_by_adds(log, infos.drop_last()), add_event(Some(infos.last())))
    }
}

/// The records of the descriptions `infos`, in their order.
pub open spec fn records_of(infos: Seq<SourceInfoView>) -> Seq<SourceView> {
    infos.map_values(|info: SourceInfoView| record_of(info))
}

/// The additions of the records of `infos`, in their order.
pub open spec fn additions_of(infos: Seq<SourceInfoView>) -> Seq<EventView> {
    infos.map_values(|info: SourceInfoView| EventView::AddSource(record_of(info)))
}

/// Any number of arrivals leave the records of their descriptions behind
/// what was tracked, in the order of arrival, and publish the addition of
/// each of these records, once and in the same order.
pub proof fn lemma_adds(records: Seq<SourceView>, log: Seq<EventView>, infos: Seq<SourceInfoView>)
    ensures
        after_adds(records, infos) == records + records_of(infos),
        published_by_adds(log, infos) == log + additions_of(infos),
    decreases infos.len(),
{
    if infos.len() > 0 {
        lemma_adds(records, log, infos.drop_last());
    }
    assert(after_adds(records, infos) =~= records + records_of(infos));
    assert(published_by_adds(log, infos) =~= log + additions_of(infos));
}

/// Where the server keeps its promise, so that no two of the records
/// tracked and the records that arrive share an index, each source that
/// arrived is tracked exactly once afterwards, under the record of its
/// description.
pub proof fn lemma_adds_track_once(records: Seq<SourceView>, infos: Seq<SourceInfoView>, k: int)
    requires
        distinct::<Source>(records + records_of(infos)),
        0 <= k < infos.len(),
    ensures
        distinct::<Source>(after_adds(records, infos)),
        tracks_once::<Source>(after_adds(records, infos), infos[k].index),
        found::<Source>(after_adds(records, infos), infos[k].index) == Some(
            record_of(infos[k]),
        ),
{
    lemma_adds(records, Seq::empty(), infos);
    lemma_extended_tracks_once::<Source>(records, records_of(infos), k);
}

/// The removal of a source that is not tracked changes nothing and
/// publishes nothing.
pub proof fn lemma_remove_untracked(records: Seq<SourceView>, index: u32)
    requires
        !tracks::<Source>(records, index),
    ensures
        removed::<Source>(records, index) == records,
        remove_event(records, index) is None,
        remove_outcome(records, index) == Outcome::Skipped,
{
}

/// An update for a source that is not tracked changes nothing and
/// publishes nothing, and its outcome tells the caller.
pub proof fn lemma_update_untracked(
    records: Seq<SourceView>,
    default_source: Option<Seq<char>>,
    info: SourceInfoView,
)
    requires
        !tracks::<Source>(records, info.index),
    ensures
        after_update(records, default_source, Some(info)) == records,
        update_event(records, default_source, Some(info)) is None,
        update_outcome(records, Some(info)) == Outcome::Untracked,
{
}

/// Where no two records share an index, removing a source twice in a row
/// leaves what removing it once leaves: the second removal changes nothing
/// and publishes nothing.
pub proof fn lemma_remove_twice(records: Seq<SourceView>, index: u32)
    requires
        distinct::<Source>(records),
    ensures
        removed::<Source>(removed::<Source>(records, index), index) == removed::<Source>(
            records,
            index,
        ),
        remove_event(removed::<Source>(records, index), index) is None,
        remove_outcome(removed::<Source>(records, index), index) == Outcome::Skipped,
        distinct::<Source>(removed::<Source>(records, index)),
{
    lemma_removed_twice::<Source>(records, index);
}

/// After an update of a tracked source, the record that its index finds
/// and the record that was published are the same, and that record is
/// active exactly where the server reports the source as running or the
/// default source bears its name. So a record of the default source is
/// active, and one that the server reports as running is never made
/// inactive.
pub proof fn lemma_update_marks_default(
    records: Seq<SourceView>,
    default_source: Option<Seq<char>>,
    info: SourceInfoView,
)
    requires
        tracks::<Source>(records, info.index),
    ensures
        found::<Source>(after_update(records, default_source, Some(info)), info.index) == Some(
            reconciled(info, default_source),
        ),
        update_event(records, default_source, Some(info)) == Some(
            EventView::UpdateSource(reconciled(info, default_source)),
        ),
        reconciled(info, default_source).active <==> info.state == SourceState::Running
            || default_source == Some(or_empty(info.name)),
        default_source == Some(reconciled(info, default_source).name) ==> reconciled(
            info,
            default_source,
        ).active,
        record_of(info).active ==> reconciled(info, default_source).active,
        distinct::<Source>(records) ==> distinct::<Source>(
            after_update(records, default_source, Some(info)),
        ),
{
    lemma_updated_found::<Source>(records, info.index, reconciled(info, default_source));
}

} // verus!
