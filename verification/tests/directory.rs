use tree_hole::TtlDirectory;

#[test]
fn an_empty_directory_configures_no_channel() {
    let directory = TtlDirectory::new();
    assert_eq!(directory.get_ttl(1), None);
    assert!(!directory.contains(1));
    assert!(directory.channels().is_empty());
}

#[test]
fn set_ttl_configures_a_channel() {
    let mut directory = TtlDirectory::new();
    directory.set_ttl(5, 60_000);
    assert_eq!(directory.get_ttl(5), Some(60_000));
    assert!(directory.contains(5));
    assert_eq!(directory.get_ttl(6), None);
    assert_eq!(directory.channels(), vec![5]);
}

#[test]
fn set_ttl_again_replaces_the_value() {
    let mut directory = TtlDirectory::new();
    directory.set_ttl(5, 60_000);
    directory.set_ttl(5, 1_000);
    assert_eq!(directory.get_ttl(5), Some(1_000));
    assert_eq!(directory.channels(), vec![5]);
}

#[test]
fn remove_takes_a_channel_out() {
    let mut directory = TtlDirectory::new();
    directory.set_ttl(5, 60_000);
    directory.set_ttl(6, 30_000);
    directory.remove(5);
    directory.remove(9);
    assert_eq!(directory.get_ttl(5), None);
    assert_eq!(directory.get_ttl(6), Some(30_000));
    assert_eq!(directory.channels(), vec![6]);
}

#[test]
fn channels_names_each_configured_channel_once() {
    let mut directory = TtlDirectory::new();
    for channel in [3u64, 1, 2, 3] {
        directory.set_ttl(channel, 10 * channel);
    }
    let mut channels = directory.channels();
    channels.sort();
    assert_eq!(channels, vec![1, 2, 3]);
}
