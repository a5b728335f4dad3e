//! The client: both registries, the default-source tracker and the
//! broadcaster under one roof, and the commands that a user of the mirror
//! may give.
//!
//! A command changes nothing here. It is handed back for the caller to
//! send to the server; what it did shows when the server announces the
//! change and the reconciler brings the record up to date.

use crate::broadcast::Broadcaster;
use crate::event::{
    with_event, Completion, Event, EventView, Fetch, ListResult, Operation, Outcome,
};
use crate::registry::{
    distinct, find_match, found, has_match, is_first_match, lemma_first_match_is, removed,
    tracks, Registry,
};
use crate::source::{Source, SourceInfo, SourceInfoView, SourceView};
use crate::source_output::{
    SourceOutput, SourceOutputInfo, SourceOutputInfoView, SourceOutputView,
};
use crate::text::text_of;
use crate::volume::{uniform, VolumeLevels};
use tokio::sync::broadcast::Sender;
use vstd::prelude::*;

verus! {

/// A write to the server that the caller is to send. No answer is awaited.
#[derive(Debug, PartialEq, Eq)]
pub enum Command {
    /// Make the source of this name the default source.
    SetDefaultSource(String),
    /// Give the source of this name this volume.
    SetSourceVolume(String, VolumeLevels),
    /// Mute or unmute the source of this name.
    SetSourceMute(String, bool),
    /// Give the source output of this index this volume.
    SetOutputVolume(u32, VolumeLevels),
    /// Mute or unmute the source output of this index.
    SetOutputMute(u32, bool),
}

/// A [`Command`] as plain values.
pub enum CommandView {
    SetDefaultSource(Seq<char>),
    SetSourceVolume(Seq<char>, Seq<u32>),
    SetSourceMute(Seq<char>, bool),
    SetOutputVolume(u32, Seq<u32>),
    SetOutputMute(u32, bool),
}

impl View for Command {
    type V = CommandView;

    open spec fn view(&self) -> CommandView {
        match self {
            Command::SetDefaultSource(name) => CommandView::SetDefaultSource(name@),
            Command::SetSourceVolume(name, volume) => CommandView::SetSourceVolume(name@, volume@),
            Command::SetSourceMute(name, muted) => CommandView::SetSourceMute(name@, *muted),
            Command::SetOutputVolume(index, volume) => CommandView::SetOutputVolume(
                *index,
                volume@,
            ),
            Command::SetOutputMute(index, muted) => CommandView::SetOutputMute(*index, *muted),
        }
    }
}

/// What a command entry point hands back, as plain values.
pub open spec fn issued(command: Option<Command>) -> Option<CommandView> {
    match command {
        Some(command) => Some(command@),
        None => None,
    }
}

/// What it is for a source to bear `name`.
pub open spec fn named(name: Seq<char>) -> spec_fn(SourceView) -> bool {
    |source: SourceView| source.name == name
}

/// The command that makes `name` the default source: given whenever a
/// session is connected.
pub open spec fn default_source_command(connected: bool, name: Seq<char>) -> Option<CommandView> {
    if connected {
        Some(CommandView::SetDefaultSource(name))
    } else {
        None
    }
}

/// The command that puts the source `name` at `level`: given where a
/// session is connected and a source of that name is tracked. It carries
/// the volume of the first such source with every channel at `level`.
pub open spec fn source_volume_command(
    connected: bool,
    sources: Seq<SourceView>,
    name: Seq<char>,
    level: u32,
) -> Option<CommandView> {
    match find_match(sources, named(name)) {
        Some(source) if connected => Some(
            CommandView::SetSourceVolume(name, uniform(source.volume.len(), level)),
        ),
        _ => None,
    }
}

/// The command that mutes or unmutes the source `name`: given whenever a
/// session is connected.
pub open spec fn source_mute_command(connected: bool, name: Seq<char>, muted: bool) -> Option<
    CommandView,
> {
    if connected {
        Some(CommandView::SetSourceMute(name, muted))
    } else {
        None
    }
}

/// The command that puts the source output `index` at `level`: given where
/// a session is connected and the source output is tracked. It carries the
/// volume of the first record of that index with every channel at `level`.
pub open spec fn output_volume_command(
    connected: bool,
    outputs: Seq<SourceOutputView>,
    index: u32,
    level: u32,
) -> Option<CommandView> {
    match found::<SourceOutput>(outputs, index) {
        Some(output) if connected => Some(
            CommandView::SetOutputVolume(index, uniform(output.volume.len(), level)),
        ),
        _ => None,
    }
}

/// The command that mutes or unmutes the source output `index`: given
/// whenever a session is connected.
pub open spec fn output_mute_command(connected: bool, index: u32, muted: bool) -> Option<
    CommandView,
> {
    if connected {
        Some(CommandView::SetOutputMute(index, muted))
    } else {
        None
    }
}

/// The first source of `sources` that bears `name`.
fn find_named<'a>(sources: &'a Registry<Source>, name: &String) -> (source: Option<&'a Source>)
    ensures
        match source {
            Some(hit) => find_match(sources@, named(name@)) == Some(hit@),
            None => !has_match(sources@, named(name@)),
        },
{
    let bears_name = |source: &Source| -> (bears: bool)
        ensures
            bears == named(name@)(source@),
        { source.name == *name };
    let source = sources.find_by(bears_name);
    proof {
        match source {
            Some(hit) => {
                let k = choose|k: int|
                    0 <= k < sources.records().len() && *hit == #[trigger] sources.records()[k]
                        && forall|j: int|
                        0 <= j < k ==> !named(name@)((#[trigger] sources.records()[j])@);
                assert(is_first_match(sources@, named(name@), k));
                lemma_first_match_is(sources@, named(name@), k);
            },
            None => {
                assert forall|k: int| 0 <= k < sources@.len() implies !named(name@)(
                    #[trigger] sources@[k],
                ) by {
                    assert(!named(name@)(sources.records()[k]@));
                }
            },
        }
    }
    source
}

/// The mirror of one audio server.
pub struct Client {
    connected: bool,
    sources: Registry<Source>,
    source_outputs: Registry<SourceOutput>,
    default_source: Option<String>,
    tx: Broadcaster,
}

/// A [`Client`] as plain values.
pub struct ClientView {
    /// Whether a session with the server is connected.
    pub connected: bool,
    /// The sources that are tracked, oldest first.
    pub sources: Seq<SourceView>,
    /// The source outputs that are tracked, oldest first.
    pub source_outputs: Seq<SourceOutputView>,
    /// The name of the default source, as far as the server has told.
    pub default_source: Option<Seq<char>>,
    /// The events published so far, oldest first.
    pub published: Seq<EventView>,
}

impl ClientView {
    /// No two sources share an index, and no two source outputs. This is
    /// what the server promises of the entities it announces; a client that
    /// is fed nothing else has it and keeps it.
    pub open spec fn well_formed(self) -> bool {
        distinct::<Source>(self.sources) && distinct::<SourceOutput>(self.source_outputs)
    }
}

impl View for Client {
    type V = ClientView;

    closed spec fn view(&self) -> ClientView {
        ClientView {
            connected: self.connected,
            sources: self.sources@,
            source_outputs: self.source_outputs@,
            default_source: text_of(self.default_source),
            published: self.tx.published(),
        }
    }
}

impl Client {
    /// The sending half of the channel that this client publishes on.
    pub closed spec fn channel(&self) -> Sender<Event> {
        self.tx.channel()
    }

    /// A client that is not connected, tracks nothing, knows of no default
    /// source, and will publish on `tx`. Consumers subscribe to the channel
    /// itself: keep a clone of `tx` for them.
    pub fn new(tx: Sender<Event>) -> (client: Self)
        ensures
            client.channel() == tx,
            client@ == (ClientView {
                connected: false,
                sources: Seq::empty(),
                source_outputs: Seq::empty(),
                default_source: None,
                published: Seq::empty(),
            }),
            client@.well_formed(),
    {
        Client {
            connected: false,
            sources: Registry::new(),
            source_outputs: Registry::new(),
            default_source: None,
            tx: Broadcaster::new(tx),
        }
    }

    /// Whether a session with the server is connected.
    pub fn is_connected(&self) -> (connected: bool)
        ensures
            connected == self@.connected,
    {
        self.connected
    }

    /// The registry of sources, for reading.
    pub fn sources(&self) -> (sources: &Registry<Source>)
        ensures
            sources@ == self@.sources,
    {
        &self.sources
    }

    /// The registry of source outputs, for reading.
    pub fn source_outputs(&self) -> (outputs: &Registry<SourceOutput>)
        ensures
            outputs@ == self@.source_outputs,
    {
        &self.source_outputs
    }

    /// The name of the default source, as far as the server has told.
    pub fn default_source(&self) -> (name: &Option<String>)
        ensures
            text_of(*name) == self@.default_source,
    {
        &self.default_source
    }

    /// Takes note that the session was connected or lost.
    pub fn set_connected(&mut self, connected: bool)
        ensures
            final(self)@ == (ClientView { connected, ..old(self)@ }),
            final(self).channel() == old(self).channel(),
    {
        self.connected = connected;
    }

    /// Takes note of the server's default source. No record changes and
    /// nothing is published: a record shows the new default when it is next
    /// updated.
    pub fn track_default_source(&mut self, name: Option<String>)
        ensures
            final(self)@ == (ClientView { default_source: text_of(name), ..old(self)@ }),
            final(self).channel() == old(self).channel(),
    {
        self.default_source = name;
    }

    /// Takes a notification about the source `index`; see
    /// [`on_event`](crate::source::on_event).
    pub fn on_source_event(&mut self, op: Operation, index: u32) -> (fetch: Option<Fetch>)
        ensures
            fetch == match op {
                Operation::New => Some(Fetch { index, then: Completion::Add }),
                Operation::Changed => Some(Fetch { index, then: Completion::Update }),
                Operation::Removed => None,
            },
            final(self)@ == match op {
                Operation::Removed => (ClientView {
                    sources: removed::<Source>(old(self)@.sources, index),
                    published: with_event(
                        old(self)@.published,
                        crate::source::remove_event(old(self)@.sources, index),
                    ),
                    ..old(self)@
                }),
                _ => old(self)@,
            },
            old(self)@.well_formed() ==> final(self)@.well_formed(),
            final(self).channel() == old(self).channel(),
    {
        crate::source::on_event(&mut self.sources, &mut self.tx, op, index)
    }

    /// Completes a fetch for a source; see
    /// [`complete`](crate::source::complete).
    pub fn on_source_info(&mut self, then: Completion, info: ListResult<&SourceInfo>) -> (outcome:
        Outcome)
        ensures
            final(self)@ == (ClientView {
                sources: match then {
                    Completion::Add => crate::source::after_add(old(self)@.sources, info.item()),
                    Completion::Update => crate::source::after_update(
                        old(self)@.sources,
                        old(self)@.default_source,
                        info.item(),
                    ),
                },
                published: with_event(
                    old(self)@.published,
                    match then {
                        Completion::Add => crate::source::add_event(info.item()),
                        Completion::Update => crate::source::update_event(
                            old(self)@.sources,
                            old(self)@.default_source,
                            info.item(),
                        ),
                    },
                ),
                ..old(self)@
            }),
            outcome == match then {
                Completion::Add => crate::source::add_outcome(info.item()),
                Completion::Update => crate::source::update_outcome(
                    old(self)@.sources,
                    info.item(),
                ),
            },
            old(self)@.well_formed() && (then == Completion::Add ==> crate::source::is_new(
                old(self)@.sources,
                info.item(),
            )) ==> final(self)@.well_formed(),
            final(self).channel() == old(self).channel(),
    {
        crate::source::complete(then, info, &mut self.sources, &self.default_source, &mut self.tx)
    }

    /// Takes a notification about the source output `index`; see
    /// [`on_event`](crate::source_output::on_event).
    pub fn on_output_event(&mut self, op: Operation, index: u32) -> (fetch: Option<Fetch>)
        ensures
            fetch == match op {
                Operation::New => Some(Fetch { index, then: Completion::Add }),
                Operation::Changed => Some(Fetch { index, then: Completion::Update }),
                Operation::Removed => None,
            },
            final(self)@ == match op {
                Operation::Removed => (ClientView {
                    source_outputs: removed::<SourceOutput>(old(self)@.source_outputs, index),
                    published: with_event(
                        old(self)@.published,
                        crate::source_output::remove_event(old(self)@.source_outputs, index),
                    ),
                    ..old(self)@
                }),
                _ => old(self)@,
            },
            old(self)@.well_formed() ==> final(self)@.well_formed(),
            final(self).channel() == old(self).channel(),
    {
        crate::source_output::on_event(&mut self.source_outputs, &mut self.tx, op, index)
    }

    /// Completes a fetch for a source output; see
    /// [`complete`](crate::source_output::complete).
    pub fn on_output_info(
        &mut self,
        then: Completion,
        info: ListResult<&SourceOutputInfo>,
    ) -> (outcome: Outcome)
        ensures
            final(self)@ == (ClientView {
                source_outputs: match then {
                    Completion::Add => crate::source_output::after_add(
                        old(self)@.source_outputs,
                        info.item(),
                    ),
                    Completion::Update => crate::source_output::after_update(
                        old(self)@.source_outputs,
                        info.item(),
                    ),
                },
                published: with_event(
                    old(self)@.published,
                    match then {
                        Completion::Add => crate::source_output::add_event(info.item()),
                        Completion::Update => crate::source_output::update_event(
                            old(self)@.source_outputs,
                            info.item(),
                        ),
                    },
                ),
                ..old(self)@
            }),
            outcome == match then {
                Completion::Add => crate::source_output::add_outcome(info.item()),
                Completion::Update => crate::source_output::update_outcome(
                    old(self)@.source_outputs,
                    info.item(),
                ),
            },
            old(self)@.well_formed() && (then == Completion::Add
                ==> crate::source_output::is_new(old(self)@.source_outputs, info.item()))
                ==> final(self)@.well_formed(),
            final(self).channel() == old(self).channel(),
    {
        crate::source_output::complete(then, info, &mut self.source_outputs, &mut self.tx)
    }

    /// Asks for `name` to become the default source.
    pub fn set_default_source(&self, name: &str) -> (command: Option<Command>)
        ensures
            issued(command) == default_source_command(self@.connected, name@),
    {
        if self.connected {
            Some(Command::SetDefaultSource(name.to_owned()))
        } else {
            None
        }
    }

    /// Asks for the source `name` to be put at `level` on every channel.
    /// The volume is read from the record of the source, so that the
    /// command has as many channels as the source has.
    pub fn set_source_volume(&self, name: &str, level: u32) -> (command: Option<Command>)
        ensures
            issued(command) == source_volume_command(
                self@.connected,
                self@.sources,
                name@,
                level,
            ),
    {
        if !self.connected {
            return None;
        }
        let wanted = name.to_owned();
        match find_named(&self.sources, &wanted) {
            Some(source) => {
                let mut volume = source.volume.clone();
                volume.set_level(level);
                Some(Command::SetSourceVolume(wanted, volume))
            },
            None => None,
        }
    }

    /// Asks for the source `name` to be muted or unmuted.
    pub fn set_source_muted(&self, name: &str, muted: bool) -> (command: Option<Command>)
        ensures
            issued(command) == source_mute_command(self@.connected, name@, muted),
    {
        if self.connected {
            Some(Command::SetSourceMute(name.to_owned(), muted))
        } else {
            None
        }
    }

    /// Asks for the source output `index` to be put at `level` on every
    /// channel. The volume is read from the record of the source output, so
    /// that the command has as many channels as the stream has.
    pub fn set_output_volume(&self, index: u32, level: u32) -> (command: Option<Command>)
        ensures
            issued(command) == output_volume_command(
                self@.connected,
                self@.source_outputs,
                index,
                level,
            ),
    {
        if !self.connected {
            return None;
        }
        match self.source_outputs.find(index) {
            Some(output) => {
                let mut volume = output.volume.clone();
                volume.set_level(level);
                Some(Command::SetOutputVolume(index, volume))
            },
            None => None,
        }
    }

    /// Asks for the source output `index` to be muted or unmuted.
    pub fn set_output_muted(&self, index: u32, muted: bool) -> (command: Option<Command>)
        ensures
            issued(command) == output_mute_command(self@.connected, index, muted),
    {
        if self.connected {
            Some(Command::SetOutputMute(index, muted))
        } else {
            None
        }
    }
}

/// A volume that was asked for comes back unchanged: when the command to
/// put the source `name` at `level` was given, and the server then
/// announces a change of a tracked source and reports the very volume that
/// the command carried, the record of that source has every channel at
/// `level`, as many channels as the source named in the command had.
pub proof fn lemma_source_volume_echo(
    sources: Seq<SourceView>,
    default_source: Option<Seq<char>>,
    name: Seq<char>,
    level: u32,
    volume: Seq<u32>,
    info: SourceInfoView,
)
    requires
        source_volume_command(true, sources, name, level) == Some(
            CommandView::SetSourceVolume(name, volume),
        ),
        tracks::<Source>(sources, info.index),
        info.volume == volume,
    ensures
        find_match(sources, named(name)) is Some,
        found::<Source>(
            crate::source::after_update(sources, default_source, Some(info)),
            info.index,
        ) matches Some(record) && record.volume == uniform(
            find_match(sources, named(name))->0.volume.len(),
            level,
        ),
{
    crate::source::lemma_update_marks_default(sources, default_source, info);
}

/// The same for a source output: when the command to put the source output
/// `index` at `level` was given, and the server then announces a change of
/// that source output and reports the very volume that the command carried,
/// the record has every channel at `level`, as many channels as before.
pub proof fn lemma_output_volume_echo(
    outputs: Seq<SourceOutputView>,
    index: u32,
    level: u32,
    volume: Seq<u32>,
    info: SourceOutputInfoView,
)
    requires
        output_volume_command(true, outputs, index, level) == Some(
            CommandView::SetOutputVolume(index, volume),
        ),
        info.index == index,
        info.volume == volume,
    ensures
        found::<SourceOutput>(outputs, index) is Some,
        found::<SourceOutput>(crate::source_output::after_update(outputs, Some(info)), index)
            matches Some(record) && record.volume == uniform(
            found::<SourceOutput>(outputs, index)->0.volume.len(),
            level,
        ),
{
    crate::source_output::lemma_update_found(outputs, info);
}

} // verus!
