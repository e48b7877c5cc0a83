use config_reload::config::{Config, Message};

fn msg(name: &str, volume: f32) -> Message {
    Message::new(name.to_string(), volume.to_bits())
}

fn entry(key: &str, name: &str, volume: f32) -> (String, Message) {
    (key.to_string(), msg(name, volume))
}

#[test]
fn new_accepts_distinct_keys() {
    let c = Config::new(
        "a".to_string(),
        vec![entry("x.wav", "X", 1.0), entry("y.wav", "Y", 0.25)],
    )
    .expect("distinct keys");
    assert_eq!(c.audio_folder_path, "a");
    assert_eq!(c.messages.len(), 2);
}

#[test]
fn new_accepts_empty_messages() {
    let c = Config::new("assets".to_string(), vec![]).expect("no entries");
    assert!(c.messages.is_empty());
    assert!(c.message(&"x".to_string()).is_none());
}

#[test]
fn new_rejects_duplicate_keys() {
    let c = Config::new(
        "a".to_string(),
        vec![entry("x", "X", 1.0), entry("y", "Y", 1.0), entry("x", "X again", 0.5)],
    );
    assert!(c.is_none());
}

#[test]
fn message_looks_up_by_file_name() {
    let c = Config::new(
        "a".to_string(),
        vec![entry("x", "X", 1.0), entry("y", "Y", 0.5)],
    )
    .unwrap();
    let y = c.message(&"y".to_string()).expect("y present");
    assert_eq!(y.display_name, "Y");
    assert_eq!(f32::from_bits(y.volume_bits), 0.5);
    let x = c.message(&"x".to_string()).expect("x present");
    assert_eq!(x.display_name, "X");
    assert!(c.message(&"z".to_string()).is_none());
}

#[test]
fn snapshot_copies_every_field() {
    let c = Config::new("a".to_string(), vec![entry("x", "X", 1.0)]).unwrap();
    let d = c.snapshot();
    assert_eq!(d.audio_folder_path, "a");
    assert_eq!(d.messages.len(), 1);
    assert_eq!(d.messages[0].0, "x");
    assert_eq!(d.messages[0].1.display_name, "X");
    assert_eq!(d.messages[0].1.volume_bits, 1.0f32.to_bits());
}

#[test]
fn message_snapshot_keeps_fields() {
    let m = msg("Bell", 0.75);
    let n = m.snapshot();
    assert_eq!(n.display_name, "Bell");
    assert_eq!(f32::from_bits(n.volume_bits), 0.75);
}
