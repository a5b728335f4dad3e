use source_mirror::{Record, Registry, Source, SourceInfo, SourceState, VolumeLevels};

fn source(index: u32, name: &str) -> Source {
    Source::from(&SourceInfo {
        index,
        name: Some(String::from(name)),
        description: None,
        volume: VolumeLevels::new(vec![1]),
        mute: false,
        state: SourceState::Idle,
    })
}

fn filled() -> Registry<Source> {
    let mut registry = Registry::new();
    registry.apply_add(source(10, "a"));
    registry.apply_add(source(20, "b"));
    registry.apply_add(source(30, "a"));
    registry
}

#[test]
fn a_new_registry_is_empty() {
    let registry: Registry<Source> = Registry::new();
    assert_eq!(registry.len(), 0);
    assert_eq!(registry.get(0), None);
    assert_eq!(registry.position(0), None);
}

#[test]
fn records_keep_the_order_of_arrival() {
    let registry = filled();
    assert_eq!(registry.len(), 3);
    assert_eq!(registry.get(0), Some(&source(10, "a")));
    assert_eq!(registry.get(1), Some(&source(20, "b")));
    assert_eq!(registry.get(2), Some(&source(30, "a")));
    assert_eq!(registry.get(3), None);
}

#[test]
fn a_record_knows_its_index() {
    assert_eq!(source(77, "x").index(), 77);
}

#[test]
fn position_is_that_of_the_first_record_of_the_index() {
    let mut registry = filled();
    registry.apply_add(source(20, "late"));
    assert_eq!(registry.position(10), Some(0));
    assert_eq!(registry.position(20), Some(1));
    assert_eq!(registry.position(30), Some(2));
    assert_eq!(registry.position(40), None);
}

#[test]
fn find_returns_the_first_record_of_the_index() {
    let mut registry = filled();
    registry.apply_add(source(20, "late"));
    assert_eq!(registry.find(20), Some(&source(20, "b")));
    assert_eq!(registry.find(30), Some(&source(30, "a")));
    assert_eq!(registry.find(40), None);
}

#[test]
fn find_by_returns_the_first_match() {
    let registry = filled();
    assert_eq!(registry.find_by(|s| s.name == "a"), Some(&source(10, "a")));
    assert_eq!(registry.find_by(|s| s.name == "b"), Some(&source(20, "b")));
    assert_eq!(registry.find_by(|s| s.index > 10), Some(&source(20, "b")));
    assert_eq!(registry.find_by(|s| s.name == "c"), None);
}

#[test]
fn update_replaces_the_first_record_of_the_index() {
    let mut registry = filled();
    assert!(registry.apply_update(20, source(20, "fresh")));
    assert_eq!(registry.len(), 3);
    assert_eq!(registry.get(0), Some(&source(10, "a")));
    assert_eq!(registry.get(1), Some(&source(20, "fresh")));
    assert_eq!(registry.get(2), Some(&source(30, "a")));
}

#[test]
fn update_of_an_index_that_is_not_tracked_changes_nothing() {
    let mut registry = filled();
    assert!(!registry.apply_update(25, source(25, "stray")));
    assert_eq!(registry.len(), 3);
    assert_eq!(registry.get(0), Some(&source(10, "a")));
    assert_eq!(registry.get(1), Some(&source(20, "b")));
    assert_eq!(registry.get(2), Some(&source(30, "a")));
}

#[test]
fn remove_hands_over_the_first_record_of_the_index() {
    let mut registry = filled();
    assert_eq!(registry.apply_remove(10), Some(source(10, "a")));
    assert_eq!(registry.len(), 2);
    assert_eq!(registry.get(0), Some(&source(20, "b")));
    assert_eq!(registry.get(1), Some(&source(30, "a")));
    assert_eq!(registry.apply_remove(10), None);
    assert_eq!(registry.len(), 2);
}

#[test]
fn an_index_can_be_used_again_after_its_removal() {
    let mut registry = filled();
    assert_eq!(registry.apply_remove(20), Some(source(20, "b")));
    registry.apply_add(source(20, "another"));
    assert_eq!(registry.position(20), Some(2));
    assert_eq!(registry.get(2), Some(&source(20, "another")));
}
