//! Source outputs: the streams that record from a source.

use crate::broadcast::Broadcaster;
use crate::event::{
    with_event, Completion, Event, EventView, Fetch, ListResult, Operation, Outcome,
};
use crate::registry::{
    carries, distinct, found, lemma_extended_tracks_once, lemma_first_match,
    lemma_push_tracks_once, lemma_removed_twice, lemma_updated_found, removed, tracks,
    tracks_once, updated, Record, Registry,
};
use crate::text::{or_empty, owned_or_empty, text_of};
use crate::volume::VolumeLevels;
use vstd::prelude::*;

verus! {

/// The server's description of a source output, as a fetch by index
/// returns it.
#[derive(Debug, PartialEq, Eq)]
pub struct SourceOutputInfo {
    pub index: u32,
    pub name: Option<String>,
    pub volume: VolumeLevels,
    pub mute: bool,
    /// Whether the stream has a volume at all.
    pub has_volume: bool,
    /// Whether a client may change the volume.
    pub volume_writable: bool,
}

/// A [`SourceOutputInfo`] as plain values.
pub struct SourceOutputInfoView {
    pub index: u32,
    pub name: Option<Seq<char>>,
    pub volume: Seq<u32>,
    pub mute: bool,
    pub has_volume: bool,
    pub volume_writable: bool,
}

impl View for SourceOutputInfo {
    type V = SourceOutputInfoView;

    open spec fn view(&self) -> SourceOutputInfoView {
        SourceOutputInfoView {
            index: self.index,
            name: text_of(self.name),
            volume: self.volume@,
            mute: self.mute,
            has_volume: self.has_volume,
            volume_writable: self.volume_writable,
        }
    }
}

/// The mirror's record of a source output.
#[derive(Debug, PartialEq, Eq)]
pub struct SourceOutput {
    pub index: u32,
    pub name: String,
    pub volume: VolumeLevels,
    pub muted: bool,
    /// Whether the stream has a volume and lets a client change it.
    pub can_set_volume: bool,
}

/// A [`SourceOutput`] as plain values.
pub struct SourceOutputView {
    pub index: u32,
    pub name: Seq<char>,
    pub volume: Seq<u32>,
    pub muted: bool,
    pub can_set_volume: bool,
}

impl View for SourceOutput {
    type V = SourceOutputView;

    open spec fn view(&self) -> SourceOutputView {
        SourceOutputView {
            index: self.index,
            name: self.name@,
            volume: self.volume@,
            muted: self.muted,
            can_set_volume: self.can_set_volume,
        }
    }
}

impl Record for SourceOutput {
    open spec fn key(v: SourceOutputView) -> u32 {
        v.index
    }

    fn index(&self) -> (index: u32) {
        self.index
    }
}

/// The record that stands for the description `info`: a missing name reads
/// as empty, and the volume can be set where the stream has one that is
/// writable.
pub open spec fn record_of(info: SourceOutputInfoView) -> SourceOutputView {
    SourceOutputView {
        index: info.index,
        name: or_empty(info.name),
        volume: info.volume,
        muted: info.mute,
        can_set_volume: info.has_volume && info.volume_writable,
    }
}

/// `from` is pinned down by the view of what it returns, in its own
/// contract: a string is known to Verus by its text alone, so no value can
/// be named for the result.
impl vstd::std_specs::convert::FromSpecImpl<&SourceOutputInfo> for SourceOutput {
    open spec fn obeys_from_spec() -> bool {
        false
    }

    open spec fn from_spec(v: &SourceOutputInfo) -> Self {
        choose|output: SourceOutput| output@ == record_of(v@)
    }
}

impl From<&SourceOutputInfo> for SourceOutput {
    fn from(value: &SourceOutputInfo) -> (output: Self)
        ensures
            output@ == record_of(value@),
    {
        SourceOutput {
            index: value.index,
            name: owned_or_empty(&value.name),
            volume: value.volume.clone(),
            muted: value.mute,
            can_set_volume: value.has_volume && value.volume_writable,
        }
    }
}

impl Clone for SourceOutput {
    fn clone(&self) -> (copy: Self)
        ensures
            copy@ == self@,
    {
        SourceOutput {
            index: self.index,
            name: self.name.clone(),
            volume: self.volume.clone(),
            muted: self.muted,
            can_set_volume: self.can_set_volume,
        }
    }
}

/// The description `info`, if there is one, is that of a source output that is
/// not tracked: what the server promises of the entities it announces as
/// new.
pub open spec fn is_new(
    records: Seq<SourceOutputView>,
    info: Option<SourceOutputInfoView>,
) -> bool {
    match info {
        Some(info) => !tracks::<SourceOutput>(records, info.index),
        None => true,
    }
}

/// The registry after the completion of a fetch for a new source output.
pub open spec fn after_add(
    records: Seq<SourceOutputView>,
    info: Option<SourceOutputInfoView>,
) -> Seq<SourceOutputView> {
    match info {
        Some(info) => records.push(record_of(info)),
        None => records,
    }
}

/// The event that the completion of a fetch for a new source output
/// publishes.
pub open spec fn add_event(info: Option<SourceOutputInfoView>) -> Option<EventView> {
    match info {
        Some(info) => Some(EventView::AddOutput(record_of(info))),
        None => None,
    }
}

/// How the completion of a fetch for a new source output ends.
pub open spec fn add_outcome(info: Option<SourceOutputInfoView>) -> Outcome {
    match info {
        Some(_) => Outcome::Applied,
        None => Outcome::Skipped,
    }
}

/// The registry after the completion of a fetch for a changed source
/// output.
pub open spec fn after_update(
    records: Seq<SourceOutputView>,
    info: Option<SourceOutputInfoView>,
) -> Seq<SourceOutputView> {
    match info {
        Some(info) => updated::<SourceOutput>(records, info.index, record_of(info)),
        None => records,
    }
}

/// The event that the completion of a fetch for a changed source output
/// publishes.
pub open spec fn update_event(
    records: Seq<SourceOutputView>,
    info: Option<SourceOutputInfoView>,
) -> Option<EventView> {
    match info {
        Some(info) if tracks::<SourceOutput>(records, info.index) => Some(
            EventView::UpdateOutput(record_of(info)),
        ),
        _ => None,
    }
}

/// How the completion of a fetch for a changed source output ends.
pub open spec fn update_outcome(
    records: Seq<SourceOutputView>,
    info: Option<SourceOutputInfoView>,
) -> Outcome {
    match info {
        Some(info) if tracks::<SourceOutput>(records, info.index) => Outcome::Applied,
        Some(_) => Outcome::Untracked,
        None => Outcome::Skipped,
    }
}

/// The event that the removal of the source output `index` publishes.
pub open spec fn remove_event(records: Seq<SourceOutputView>, index: u32) -> Option<EventView> {
    if tracks::<SourceOutput>(records, index) {
        Some(EventView::RemoveOutput(index))
    } else {
        None
    }
}

/// How the removal of the source output `index` ends.
pub open spec fn remove_outcome(records: Seq<SourceOutputView>, index: u32) -> Outcome {
    if tracks::<SourceOutput>(records, index) {
        Outcome::Applied
    } else {
        Outcome::Skipped
    }
}

/// Takes a notification about the source output `i`.
///
/// A source output that is new or has changed must be fetched first:
/// nothing changes yet, and the fetch that the caller owes is returned, to
/// be completed by [`complete`]. A removal needs no fetch and is carried
/// out at once by [`remove`].
pub fn on_event(
    outputs: &mut Registry<SourceOutput>,
    tx: &mut Broadcaster,
    op: Operation,
    i: u32,
) -> (fetch: Option<Fetch>)
    ensures
        fetch == match op {
            Operation::New => Some(Fetch { index: i, then: Completion::Add }),
            Operation::Changed => Some(Fetch { index: i, then: Completion::Update }),
            Operation::Removed => None,
        },
        final(outputs)@ == match op {
            Operation::Removed => removed::<SourceOutput>(old(outputs)@, i),
            _ => old(outputs)@,
        },
        final(tx).published() == match op {
            Operation::Removed => with_event(
                old(tx).published(),
                remove_event(old(outputs)@, i),
            ),
            _ => old(tx).published(),
        },
        old(outputs).well_formed() ==> final(outputs).well_formed(),
        final(tx).channel() == old(tx).channel(),
{
    match op {
        Operation::New => Some(Fetch { index: i, then: Completion::Add }),
        Operation::Changed => Some(Fetch { index: i, then: Completion::Update }),
        Operation::Removed => {
            remove(i, outputs, tx);
            None
        },
    }
}

/// Completes the fetch `then` with what the server returned.
///
/// The description is taken as it comes. Where the server has given the
/// index of a vanished source output to a new one while the fetch was
/// under way, the description is that of the new one, and no step here can
/// tell.
pub fn complete(
    then: Completion,
    info: ListResult<&SourceOutputInfo>,
    outputs: &mut Registry<SourceOutput>,
    tx: &mut Broadcaster,
) -> (outcome: Outcome)
    ensures
        final(outputs)@ == match then {
            Completion::Add => after_add(old(outputs)@, info.item()),
            Completion::Update => after_update(old(outputs)@, info.item()),
        },
        final(tx).published() == with_event(
            old(tx).published(),
            match then {
                Completion::Add => add_event(info.item()),
                Completion::Update => update_event(old(outputs)@, info.item()),
            },
        ),
        outcome == match then {
            Completion::Add => add_outcome(info.item()),
            Completion::Update => update_outcome(old(outputs)@, info.item()),
        },
        old(outputs).well_formed() && (then == Completion::Add ==> is_new(
            old(outputs)@,
            info.item(),
        )) ==> final(outputs).well_formed(),
        final(tx).channel() == old(tx).channel(),
{
    match then {
        Completion::Add => self::add(info, outputs, tx),
        Completion::Update => update(info, outputs, tx),
    }
}

/// Completes the fetch for a new source output: appends its record and
/// publishes it. Where the source output had vanished before the server
/// looked, nothing happens.
pub fn add(
    info: ListResult<&SourceOutputInfo>,
    outputs: &mut Registry<SourceOutput>,
    tx: &mut Broadcaster,
) -> (outcome: Outcome)
    ensures
        final(outputs)@ == after_add(old(outputs)@, info.item()),
        final(tx).published() == with_event(old(tx).published(), add_event(info.item())),
        outcome == add_outcome(info.item()),
        old(outputs).well_formed() && is_new(old(outputs)@, info.item())
            ==> final(outputs).well_formed(),
        final(tx).channel() == old(tx).channel(),
{
    let info = match info {
        ListResult::Item(info) => info,
        _ => {
            return Outcome::Skipped;
        },
    };
    outputs.apply_add(SourceOutput::from(info));
    tx.publish(Event::AddOutput(SourceOutput::from(info)));
    Outcome::Applied
}

/// Completes the fetch for a changed source output: puts the fresh record
/// in the place of the old one and publishes a copy of it.
///
/// Where the source output had vanished before the server looked, nothing
/// happens. Where it is not tracked, nothing happens either, and the
/// outcome says so.
pub fn update(
    info: ListResult<&SourceOutputInfo>,
    outputs: &mut Registry<SourceOutput>,
    tx: &mut Broadcaster,
) -> (outcome: Outcome)
    ensures
        final(outputs)@ == after_update(old(outputs)@, info.item()),
        final(tx).published() == with_event(
            old(tx).published(),
            update_event(old(outputs)@, info.item()),
        ),
        outcome == update_outcome(old(outputs)@, info.item()),
        old(outputs).well_formed() ==> final(outputs).well_formed(),
        final(tx).channel() == old(tx).channel(),
{
    let info = match info {
        ListResult::Item(info) => info,
        _ => {
            return Outcome::Skipped;
        },
    };
    let output = SourceOutput::from(info);
    if !outputs.apply_update(output.index, output.clone()) {
        return Outcome::Untracked;
    }
    tx.publish(Event::UpdateOutput(output));
    Outcome::Applied
}

/// Carries out the removal of the source output `index`: takes its record
/// out and publishes its index. Where the source output is not tracked,
/// nothing happens.
pub fn remove(
    index: u32,
    outputs: &mut Registry<SourceOutput>,
    tx: &mut Broadcaster,
) -> (outcome: Outcome)
    ensures
        final(outputs)@ == removed::<SourceOutput>(old(outputs)@, index),
        final(tx).published() == with_event(
            old(tx).published(),
            remove_event(old(outputs)@, index),
        ),
        outcome == remove_outcome(old(outputs)@, index),
        old(outputs).well_formed() ==> final(outputs).well_formed(),
        final(tx).channel() == old(tx).channel(),
{
    match outputs.apply_remove(index) {
        Some(output) => {
            proof {
                lemma_first_match(old(outputs)@, carries::<SourceOutput>(index));
            }
            tx.publish(Event::RemoveOutput(output.index));
            Outcome::Applied
        },
        None => Outcome::Skipped,
    }
}

/// A source output that was not tracked is, once the fetch for its arrival
/// has brought its description, tracked exactly once, under the record of
/// that description; and the one event published is the addition of that
/// same record. Where no two records shared an index before, none do after.
pub proof fn lemma_add_tracks_once(records: Seq<SourceOutputView>, info: SourceOutputInfoView)
    requires
        !tracks::<SourceOutput>(records, info.index),
    ensures
        tracks_once::<SourceOutput>(after_add(records, Some(info)), info.index),
        found::<SourceOutput>(after_add(records, Some(info)), info.index) == Some(
            record_of(info),
        ),
        add_event(Some(info)) == Some(EventView::AddOutput(record_of(info))),
        distinct::<SourceOutput>(records) ==> distinct::<SourceOutput>(
            after_add(records, Some(info)),
        ),
{
    lemma_push_tracks_once::<SourceOutput>(records, record_of(info));
}

/// The registry after the fetches for the new source outputs `infos` have
/// completed one after the other, each with a description.
pub open spec fn after_adds(
    records: Seq<SourceOutputView>,
    infos: Seq<SourceOutputInfoView>,
) -> Seq<SourceOutputView>
    decreases infos.len(),
{
    if infos.len() == 0 {
        records
    } else {
        after_add(after_adds(records, infos.drop_last()), Some(infos.last()))
    }
}

/// What has been published after those same completions.
pub open spec fn published_by_adds(
    log: Seq<EventView>,
    infos: Seq<SourceOutputInfoView>,
) -> Seq<EventView>
    decreases infos.len(),
{
    if infos.len() == 0 {
        log
    } else {
        with_event(published_by_adds(log, infos.drop_last()), add_event(Some(infos.last())))
    }
}

/// The records of the descriptions `infos`, in their order.
pub open spec fn records_of(infos: Seq<SourceOutputInfoView>) -> Seq<SourceOutputView> {
    infos.map_values(|info: SourceOutputInfoView| record_of(info))
}

/// The additions of the records of `infos`, in their order.
pub open spec fn additions_of(infos: Seq<SourceOutputInfoView>) -> Seq<EventView> {
    infos.map_values(|info: SourceOutputInfoView| EventView::AddOutput(record_of(info)))
}

/// Any number of arrivals leave the records of their descriptions behind
/// what was tracked, in the order of arrival, and publish the addition of
/// each of these records, once and in the same order.
pub proof fn lemma_adds(
    records: Seq<SourceOutputView>,
    log: Seq<EventView>,
    infos: Seq<SourceOutputInfoView>,
)
    ensures
        after_adds(records, infos) == records + records_of(infos),
        published_by_adds(log, infos) == log + additions_of(infos),
    decreases infos.len(),
{
    if infos.len() > 0 {
        lemma_adds(records, log, infos.drop_last());
    }
    assert(after_adds(records, infos) =~= records + records_of(infos));
    assert(published_by_adds(log, infos) =~= log + additions_of(infos));
}

/// Where the server keeps its promise, so that no two of the records
/// tracked and the records that arrive share an index, each source output
/// that arrived is tracked exactly once afterwards, under the record of
/// its description.
pub proof fn lemma_adds_track_once(
    records: Seq<SourceOutputView>,
    infos: Seq<SourceOutputInfoView>,
    k: int,
)
    requires
        distinct::<SourceOutput>(records + records_of(infos)),
        0 <= k < infos.len(),
    ensures
        distinct::<SourceOutput>(after_adds(records, infos)),
        tracks_once::<SourceOutput>(after_adds(records, infos), infos[k].index),
        found::<SourceOutput>(after_adds(records, infos), infos[k].index) == Some(
            record_of(infos[k]),
        ),
{
    lemma_adds(records, Seq::empty(), infos);
    lemma_extended_tracks_once::<SourceOutput>(records, records_of(infos), k);
}

/// The removal of a source output that is not tracked changes nothing and
/// publishes nothing.
pub proof fn lemma_remove_untracked(records: Seq<SourceOutputView>, index: u32)
    requires
        !tracks::<SourceOutput>(records, index),
    ensures
        removed::<SourceOutput>(records, index) == records,
        remove_event(records, index) is None,
        remove_outcome(records, index) == Outcome::Skipped,
{
}

/// An update for a source output that is not tracked changes nothing and
/// publishes nothing, and its outcome tells the caller.
pub proof fn lemma_update_untracked(records: Seq<SourceOutputView>, info: SourceOutputInfoView)
    requires
        !tracks::<SourceOutput>(records, info.index),
    ensures
        after_update(records, Some(info)) == records,
        update_event(records, Some(info)) is None,
        update_outcome(records, Some(info)) == Outcome::Untracked,
{
}

/// Where no two records share an index, removing a source output twice in
/// a row leaves what removing it once leaves: the second removal changes
/// nothing and publishes nothing.
pub proof fn lemma_remove_twice(records: Seq<SourceOutputView>, index: u32)
    requires
        distinct::<SourceOutput>(records),
    ensures
        removed::<SourceOutput>(removed::<SourceOutput>(records, index), index)
            == removed::<SourceOutput>(records, index),
        remove_event(removed::<SourceOutput>(records, index), index) is None,
        remove_outcome(removed::<SourceOutput>(records, index), index) == Outcome::Skipped,
        distinct::<SourceOutput>(removed::<SourceOutput>(records, index)),
{
    lemma_removed_twice::<SourceOutput>(records, index);
}

/// After an update of a tracked source output, its index finds the record
/// of the fresh description, and that same record was published.
pub proof fn lemma_update_found(records: Seq<SourceOutputView>, info: SourceOutputInfoView)
    requires
        tracks::<SourceOutput>(records, info.index),
    ensures
        found::<SourceOutput>(after_update(records, Some(info)), info.index) == Some(
            record_of(info),
        ),
        update_event(records, Some(info)) == Some(EventView::UpdateOutput(record_of(info))),
        distinct::<SourceOutput>(records) ==> distinct::<SourceOutput>(
            after_update(records, Some(info)),
        ),
{
    lemma_updated_found::<SourceOutput>(records, info.index, record_of(info));
}

} // verus!
