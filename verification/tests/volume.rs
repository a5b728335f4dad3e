use source_mirror::VolumeLevels;

#[test]
fn levels_are_kept_as_given() {
    let volume = VolumeLevels::new(vec![0, 0x8000, 0x10000]);
    assert_eq!(volume.levels(), &vec![0, 0x8000, 0x10000]);
}

#[test]
fn set_level_puts_every_channel_at_the_level() {
    let mut volume = VolumeLevels::new(vec![1, 2, 3, 4]);
    volume.set_level(0x4000);
    assert_eq!(volume.levels(), &vec![0x4000, 0x4000, 0x4000, 0x4000]);
    volume.set_level(0);
    assert_eq!(volume.levels(), &vec![0, 0, 0, 0]);
    volume.set_level(u32::MAX);
    assert_eq!(volume.levels(), &vec![u32::MAX; 4]);
}

#[test]
fn set_level_keeps_no_channels_no_channels() {
    let mut volume = VolumeLevels::new(vec![]);
    volume.set_level(5);
    assert_eq!(volume.levels(), &Vec::<u32>::new());
}

#[test]
fn a_clone_has_the_same_levels() {
    let volume = VolumeLevels::new(vec![9, 8]);
    let mut copy = volume.clone();
    assert_eq!(copy, volume);
    copy.set_level(1);
    assert_eq!(volume.levels(), &vec![9, 8]);
    assert_eq!(copy.levels(), &vec![1, 1]);
}
