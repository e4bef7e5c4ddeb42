use proc_runner::EnvMap;

#[test]
fn env_insert_and_get() {
    let mut env = EnvMap::new();
    assert_eq!(env.len(), 0);
    env.insert("PATH".to_string(), "/bin".to_string());
    env.insert("HOME".to_string(), "/root".to_string());
    assert_eq!(env.len(), 2);
    assert_eq!(env.get(&"PATH".to_string()), Some(&"/bin".to_string()));
    assert_eq!(env.get(&"HOME".to_string()), Some(&"/root".to_string()));
    assert_eq!(env.get(&"SHELL".to_string()), None);
    assert!(env.contains_key(&"PATH".to_string()));
    assert!(!env.contains_key(&"SHELL".to_string()));
}

#[test]
fn env_insert_replaces_never_duplicates() {
    let mut env = EnvMap::new();
    env.insert("LANG".to_string(), "C".to_string());
    env.insert("LANG".to_string(), "en_US.UTF-8".to_string());
    assert_eq!(env.len(), 1);
    assert_eq!(env.get(&"LANG".to_string()), Some(&"en_US.UTF-8".to_string()));
}

#[test]
fn env_clear_removes_all_entries() {
    let mut env = EnvMap::new();
    env.insert("A".to_string(), "1".to_string());
    env.insert("B".to_string(), "2".to_string());
    env.clear();
    assert_eq!(env.len(), 0);
    assert_eq!(env.get(&"A".to_string()), None);
}

#[test]
fn env_clone_keeps_entries() {
    let mut env = EnvMap::new();
    env.insert("A".to_string(), "1".to_string());
    let copy = env.clone();
    assert_eq!(copy.len(), 1);
    assert_eq!(copy.get(&"A".to_string()), Some(&"1".to_string()));
}
