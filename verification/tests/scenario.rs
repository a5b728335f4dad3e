use source_mirror::{
    Client, Completion, Event, Fetch, ListResult, Operation, Outcome, SourceInfo, SourceState,
    VolumeLevels,
};
use tokio::sync::broadcast::channel;
use tokio::sync::broadcast::error::TryRecvError;

fn input(muted: bool) -> SourceInfo {
    SourceInfo {
        index: 3,
        name: Some(String::from("alsa_input.0")),
        description: Some(String::from("Built-in microphone")),
        volume: VolumeLevels::new(vec![0x8000, 0x8000]),
        mute: muted,
        state: SourceState::Idle,
    }
}

#[test]
fn a_source_arrives_changes_and_leaves() {
    let (tx, mut rx) = channel::<Event>(16);
    let mut client = Client::new(tx);
    assert_eq!(client.sources().len(), 0);

    let fetch = client.on_source_event(Operation::New, 3);
    assert_eq!(fetch, Some(Fetch { index: 3, then: Completion::Add }));
    assert_eq!(client.sources().len(), 0);
    assert_eq!(rx.try_recv(), Err(TryRecvError::Empty));

    let info = input(false);
    let outcome = client.on_source_info(Completion::Add, ListResult::Item(&info));
    assert_eq!(outcome, Outcome::Applied);
    assert_eq!(client.sources().len(), 1);
    let record = client.sources().get(0).unwrap().clone();
    assert_eq!(record.index, 3);
    assert_eq!(record.name, "alsa_input.0");
    assert_eq!(record.description, "Built-in microphone");
    assert_eq!(record.volume.levels(), &vec![0x8000, 0x8000]);
    assert!(!record.muted);
    assert!(!record.active);
    assert_eq!(rx.try_recv(), Ok(Event::AddSource(record)));
    assert_eq!(rx.try_recv(), Err(TryRecvError::Empty));

    let fetch = client.on_source_event(Operation::Changed, 3);
    assert_eq!(fetch, Some(Fetch { index: 3, then: Completion::Update }));
    let info = input(true);
    let outcome = client.on_source_info(Completion::Update, ListResult::Item(&info));
    assert_eq!(outcome, Outcome::Applied);
    assert_eq!(client.sources().len(), 1);
    let record = client.sources().get(0).unwrap().clone();
    assert_eq!(record.index, 3);
    assert!(record.muted);
    match rx.try_recv() {
        Ok(Event::UpdateSource(published)) => {
            assert!(published.muted);
            assert_eq!(published, record);
        }
        other => panic!("expected an update, got {:?}", other),
    }

    let fetch = client.on_source_event(Operation::Removed, 3);
    assert_eq!(fetch, None);
    assert_eq!(client.sources().len(), 0);
    assert_eq!(rx.try_recv(), Ok(Event::RemoveSource(String::from("alsa_input.0"))));
    assert_eq!(rx.try_recv(), Err(TryRecvError::Empty));
}
