use source_mirror::{
    Client, Command, Completion, Event, Fetch, ListResult, Operation, Outcome, SourceInfo,
    SourceOutput, SourceOutputInfo, SourceState, VolumeLevels,
};
use tokio::sync::broadcast::error::TryRecvError;
use tokio::sync::broadcast::{channel, Receiver};

fn microphone(index: u32, name: &str, levels: Vec<u32>) -> SourceInfo {
    SourceInfo {
        index,
        name: Some(String::from(name)),
        description: None,
        volume: VolumeLevels::new(levels),
        mute: false,
        state: SourceState::Idle,
    }
}

fn recorder(index: u32, levels: Vec<u32>) -> SourceOutputInfo {
    SourceOutputInfo {
        index,
        name: Some(String::from("recorder")),
        volume: VolumeLevels::new(levels),
        mute: false,
        has_volume: true,
        volume_writable: true,
    }
}

fn connected_client() -> (Client, Receiver<Event>) {
    let (tx, mut rx) = channel::<Event>(16);
    let mut client = Client::new(tx);
    client.set_connected(true);
    client.on_source_info(Completion::Add, ListResult::Item(&microphone(1, "mic", vec![10, 20])));
    client.on_source_info(Completion::Add, ListResult::Item(&microphone(2, "line-in", vec![30])));
    client.on_source_info(Completion::Add, ListResult::Item(&microphone(3, "mic", vec![1, 2, 3])));
    client.on_output_info(Completion::Add, ListResult::Item(&recorder(7, vec![5, 6])));
    for _ in 0..4 {
        assert!(rx.try_recv().is_ok());
    }
    (client, rx)
}

#[test]
fn a_new_client_is_empty_and_not_connected() {
    let (tx, mut rx) = channel::<Event>(16);
    let client = Client::new(tx);
    assert!(!client.is_connected());
    assert_eq!(client.sources().len(), 0);
    assert_eq!(client.source_outputs().len(), 0);
    assert_eq!(client.default_source(), &None);
    assert_eq!(rx.try_recv(), Err(TryRecvError::Empty));
}

#[test]
fn without_a_session_no_command_is_given() {
    let (mut client, _rx) = connected_client();
    client.set_connected(false);
    assert!(!client.is_connected());
    assert_eq!(client.set_default_source("mic"), None);
    assert_eq!(client.set_source_volume("mic", 5), None);
    assert_eq!(client.set_source_muted("mic", true), None);
    assert_eq!(client.set_output_volume(7, 5), None);
    assert_eq!(client.set_output_muted(7, true), None);
}

#[test]
fn commands_that_need_no_record() {
    let (client, _rx) = connected_client();
    assert_eq!(
        client.set_default_source("unheard-of"),
        Some(Command::SetDefaultSource(String::from("unheard-of")))
    );
    assert_eq!(
        client.set_source_muted("unheard-of", true),
        Some(Command::SetSourceMute(String::from("unheard-of"), true))
    );
    assert_eq!(
        client.set_source_muted("mic", false),
        Some(Command::SetSourceMute(String::from("mic"), false))
    );
    assert_eq!(client.set_output_muted(99, true), Some(Command::SetOutputMute(99, true)));
    assert_eq!(client.set_output_muted(7, false), Some(Command::SetOutputMute(7, false)));
}

#[test]
fn a_volume_command_has_the_channels_of_the_first_source_of_the_name() {
    let (client, _rx) = connected_client();
    assert_eq!(
        client.set_source_volume("mic", 0x8000),
        Some(Command::SetSourceVolume(
            String::from("mic"),
            VolumeLevels::new(vec![0x8000, 0x8000])
        ))
    );
    assert_eq!(
        client.set_source_volume("line-in", 0),
        Some(Command::SetSourceVolume(String::from("line-in"), VolumeLevels::new(vec![0])))
    );
    assert_eq!(client.set_source_volume("unheard-of", 0x8000), None);
}

#[test]
fn a_stream_volume_command_has_the_channels_of_the_stream() {
    let (client, _rx) = connected_client();
    assert_eq!(
        client.set_output_volume(7, 0x10000),
        Some(Command::SetOutputVolume(7, VolumeLevels::new(vec![0x10000, 0x10000])))
    );
    assert_eq!(client.set_output_volume(8, 0x10000), None);
}

#[test]
fn a_command_changes_nothing_by_itself() {
    let (client, mut rx) = connected_client();
    client.set_source_volume("mic", 0x8000);
    client.set_source_muted("mic", true);
    client.set_default_source("line-in");
    client.set_output_volume(7, 1);
    client.set_output_muted(7, true);
    let mic = client.sources().get(0).unwrap();
    assert_eq!(mic.volume, VolumeLevels::new(vec![10, 20]));
    assert!(!mic.muted);
    assert!(!client.sources().get(1).unwrap().active);
    assert_eq!(client.default_source(), &None);
    assert_eq!(client.source_outputs().get(0).unwrap().volume, VolumeLevels::new(vec![5, 6]));
    assert_eq!(rx.try_recv(), Err(TryRecvError::Empty));
}

#[test]
fn a_volume_that_was_asked_for_shows_when_the_server_echoes_it() {
    let (mut client, mut rx) = connected_client();
    let command = client.set_source_volume("mic", 0x4000).unwrap();
    let (name, volume) = match command {
        Command::SetSourceVolume(name, volume) => (name, volume),
        other => panic!("expected a volume command, got {:?}", other),
    };
    assert_eq!(name, "mic");

    let fetch = client.on_source_event(Operation::Changed, 1);
    assert_eq!(fetch, Some(Fetch { index: 1, then: Completion::Update }));
    let mut echo = microphone(1, "mic", vec![]);
    echo.volume = volume;
    assert_eq!(
        client.on_source_info(Completion::Update, ListResult::Item(&echo)),
        Outcome::Applied
    );
    assert_eq!(client.sources().get(0).unwrap().volume.levels(), &vec![0x4000, 0x4000]);
    match rx.try_recv() {
        Ok(Event::UpdateSource(published)) => {
            assert_eq!(published.volume.levels(), &vec![0x4000, 0x4000])
        }
        other => panic!("expected an update, got {:?}", other),
    }
}

#[test]
fn a_stream_volume_that_was_asked_for_shows_when_the_server_echoes_it() {
    let (mut client, mut rx) = connected_client();
    let volume = match client.set_output_volume(7, 0xc000) {
        Some(Command::SetOutputVolume(7, volume)) => volume,
        other => panic!("expected a volume command, got {:?}", other),
    };
    let mut echo = recorder(7, vec![]);
    echo.volume = volume;
    assert_eq!(
        client.on_output_info(Completion::Update, ListResult::Item(&echo)),
        Outcome::Applied
    );
    assert_eq!(client.source_outputs().get(0).unwrap().volume.levels(), &vec![0xc000, 0xc000]);
    assert_eq!(rx.try_recv(), Ok(Event::UpdateOutput(SourceOutput::from(&echo))));
}

#[test]
fn a_change_of_the_default_source_shows_with_the_next_update() {
    let (mut client, mut rx) = connected_client();
    client.track_default_source(Some(String::from("line-in")));
    assert_eq!(client.default_source(), &Some(String::from("line-in")));
    assert!(!client.sources().get(1).unwrap().active);
    assert_eq!(rx.try_recv(), Err(TryRecvError::Empty));

    let outcome = client
        .on_source_info(Completion::Update, ListResult::Item(&microphone(2, "line-in", vec![30])));
    assert_eq!(outcome, Outcome::Applied);
    assert!(client.sources().get(1).unwrap().active);
    match rx.try_recv() {
        Ok(Event::UpdateSource(published)) => assert!(published.active),
        other => panic!("expected an update, got {:?}", other),
    }

    client.track_default_source(None);
    let unchanged = microphone(2, "line-in", vec![30]);
    client.on_source_info(Completion::Update, ListResult::Item(&unchanged));
    assert!(!client.sources().get(1).unwrap().active);
}

#[test]
fn the_two_kinds_do_not_touch_each_other() {
    let (mut client, mut rx) = connected_client();
    assert_eq!(client.on_output_event(Operation::Removed, 1), None);
    assert_eq!(client.sources().len(), 3);
    assert_eq!(client.source_outputs().len(), 1);
    assert_eq!(rx.try_recv(), Err(TryRecvError::Empty));

    assert_eq!(client.on_source_event(Operation::Removed, 7), None);
    assert_eq!(client.sources().len(), 3);
    assert_eq!(client.source_outputs().len(), 1);
    assert_eq!(rx.try_recv(), Err(TryRecvError::Empty));

    assert_eq!(client.on_output_event(Operation::Removed, 7), None);
    assert_eq!(client.source_outputs().len(), 0);
    assert_eq!(rx.try_recv(), Ok(Event::RemoveOutput(7)));
    assert_eq!(
        client.on_output_event(Operation::New, 7),
        Some(Fetch { index: 7, then: Completion::Add })
    );
    assert_eq!(
        client.on_output_event(Operation::Changed, 7),
        Some(Fetch { index: 7, then: Completion::Update })
    );
    assert_eq!(
        client.on_output_info(Completion::Update, ListResult::Item(&recorder(7, vec![1]))),
        Outcome::Untracked
    );
    assert_eq!(rx.try_recv(), Err(TryRecvError::Empty));
}
