use octane::session_manager::{SessionManagerError, SessionRegistry};

#[test]
fn two_starts_for_one_device_share_the_session() {
    let mut reg: SessionRegistry<u32> = SessionRegistry::new();
    let mut spawned = 0;
    let first = *reg.start("dev1".to_string(), || {
        spawned += 1;
        11
    });
    let second = *reg.start("dev1".to_string(), || {
        spawned += 1;
        22
    });
    assert_eq!(first, 11);
    assert_eq!(second, 11);
    assert_eq!(spawned, 1);
    assert_eq!(reg.len(), 1);
}

#[test]
fn distinct_devices_get_distinct_sessions() {
    let mut reg: SessionRegistry<u32> = SessionRegistry::new();
    reg.start("a".to_string(), || 1);
    reg.start("b".to_string(), || 2);
    assert_eq!(reg.len(), 2);
    assert_eq!(reg.get(&"a".to_string()), Some(&1));
    assert_eq!(reg.get(&"b".to_string()), Some(&2));
    assert_eq!(reg.get(&"c".to_string()), None);
}

#[test]
fn stop_unknown_device_leaves_table() {
    let mut reg: SessionRegistry<u32> = SessionRegistry::new();
    reg.start("dev2".to_string(), || 5);
    assert_eq!(reg.remove(&"dev1".to_string()), None);
    assert_eq!(reg.len(), 1);
    assert_eq!(reg.get(&"dev2".to_string()), Some(&5));
}

#[test]
fn stop_then_start_makes_a_new_session() {
    let mut reg: SessionRegistry<u32> = SessionRegistry::new();
    reg.start("dev1".to_string(), || 1);
    assert_eq!(reg.remove(&"dev1".to_string()), Some(1));
    assert_eq!(reg.len(), 0);
    assert_eq!(*reg.start("dev1".to_string(), || 2), 2);
}

#[test]
fn drain_hands_back_every_session() {
    let mut reg: SessionRegistry<u32> = SessionRegistry::new();
    reg.insert("a".to_string(), 1);
    reg.insert("b".to_string(), 2);
    reg.put("a".to_string(), 3);
    let mut all = reg.drain();
    all.sort();
    assert_eq!(all, vec![2, 3]);
    assert_eq!(reg.len(), 0);
}

#[test]
fn registry_error_texts() {
    assert_eq!(SessionManagerError::ChannelClosed.title(), "System Error");
    assert_eq!(SessionManagerError::ChannelClosed.message(), "Internal service disconnected");
}
