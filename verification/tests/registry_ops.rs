use cutroom::registry::RecordingRegistry;

#[test]
fn stop_on_unknown_id_is_not_found() {
    let mut reg = RecordingRegistry::new();
    let e = reg.stop(&"never-started".to_string()).unwrap_err();
    assert_eq!(e.code, "RECORDING_NOT_FOUND");
    assert_eq!(e.message, "No active recording with ID: never-started");
    assert_eq!(e.hint, "Recording may have already stopped");
}

#[test]
fn stop_removes_exactly_once() {
    let mut reg = RecordingRegistry::new();
    reg.insert("rec-1".to_string(), 7);
    assert!(reg.contains(&"rec-1".to_string()));
    assert_eq!(reg.stop(&"rec-1".to_string()).unwrap(), 7);
    assert!(!reg.contains(&"rec-1".to_string()));
    let second = reg.stop(&"rec-1".to_string());
    assert_eq!(second.unwrap_err().code, "RECORDING_NOT_FOUND");
}

#[test]
fn insert_overwrites_silently() {
    let mut reg = RecordingRegistry::new();
    reg.insert("rec".to_string(), 1);
    reg.insert("rec".to_string(), 2);
    assert_eq!(reg.stop(&"rec".to_string()).unwrap(), 2);
    assert!(reg.stop(&"rec".to_string()).is_err());
}

#[test]
fn independent_ids_do_not_interfere() {
    let mut reg = RecordingRegistry::new();
    reg.insert("a".to_string(), 1);
    reg.insert("b".to_string(), 2);
    reg.insert("c".to_string(), 3);
    assert_eq!(reg.stop(&"b".to_string()).unwrap(), 2);
    assert!(reg.contains(&"a".to_string()));
    assert!(reg.contains(&"c".to_string()));
    assert!(!reg.contains(&"b".to_string()));
    assert_eq!(reg.remove(&"a".to_string()), Some(1));
    assert_eq!(reg.remove(&"a".to_string()), None);
    assert_eq!(reg.stop(&"c".to_string()).unwrap(), 3);
}
