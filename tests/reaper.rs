use uuid::Uuid;
use waveemapi::paths::{mp3_path, wav_path};
use waveemapi::reaper::{is_managed_name, select_expired, should_remove, EntryInfo};

fn name_of(path: &str) -> Vec<u8> {
    std::path::Path::new(path)
        .file_name()
        .unwrap()
        .to_str()
        .unwrap()
        .as_bytes()
        .to_vec()
}

#[test]
fn allocated_names_are_managed() {
    assert!(is_managed_name(&name_of(&wav_path("/tmp"))));
    assert!(is_managed_name(&name_of(&mp3_path("/tmp"))));
}

#[test]
fn foreign_names_are_not_managed() {
    assert!(!is_managed_name(b"not_to_delete.txt"));
    assert!(!is_managed_name(b""));
    let short = format!("{}.mp", Uuid::new_v4());
    assert!(!is_managed_name(short.as_bytes()));
    let other_ext = format!("{}.txt", Uuid::new_v4());
    assert!(!is_managed_name(other_ext.as_bytes()));
    let longer = format!("{}x.wav", Uuid::new_v4());
    assert!(!is_managed_name(longer.as_bytes()));
}

#[test]
fn expiry_threshold_is_inclusive() {
    let name = format!("{}.wav", Uuid::new_v4());
    assert!(should_remove(name.as_bytes(), 60, 60));
    assert!(!should_remove(name.as_bytes(), 59, 60));
    assert!(should_remove(name.as_bytes(), 0, 0));
}

#[test]
fn sweep_removes_exactly_old_managed_files() {
    let expiry: u128 = 3_600_000_000_000;
    let mut entries = Vec::new();
    for _ in 0..5 {
        entries.push(EntryInfo {
            name: format!("{}.wav", Uuid::new_v4()).into_bytes(),
            age_nanos: expiry + 1,
        });
        entries.push(EntryInfo {
            name: format!("{}.mp3", Uuid::new_v4()).into_bytes(),
            age_nanos: expiry,
        });
    }
    entries.push(EntryInfo {
        name: b"not_to_delete.txt".to_vec(),
        age_nanos: expiry * 2,
    });
    entries.push(EntryInfo {
        name: format!("{}.mp3", Uuid::new_v4()).into_bytes(),
        age_nanos: expiry - 1,
    });
    let marks = select_expired(&entries, expiry);
    assert_eq!(marks.len(), 12);
    for m in &marks[..10] {
        assert!(*m);
    }
    assert!(!marks[10]);
    assert!(!marks[11]);
}

#[test]
fn long_expiry_keeps_everything() {
    let entries = vec![
        EntryInfo {
            name: format!("{}.wav", Uuid::new_v4()).into_bytes(),
            age_nanos: 1_000,
        },
        EntryInfo {
            name: format!("{}.mp3", Uuid::new_v4()).into_bytes(),
            age_nanos: 1_000,
        },
    ];
    assert_eq!(select_expired(&entries, 3_600_000_000_000), vec![false, false]);
    assert_eq!(select_expired(&entries, 0), vec![true, true]);
}
