use std::path::Path;
use uuid::Uuid;
use waveemapi::paths::{allocate, mp3_path, wav_path, ArtifactKind, NAME_LEN};

fn get_unique_data_path() -> String {
    let unique_id = Uuid::new_v4();
    format!("/tmp/{}", unique_id)
}

#[test]
fn test_wav_path_format() {
    let data_path = get_unique_data_path();
    let result = wav_path(&data_path);
    assert!(result.starts_with(data_path.as_str()));
    assert!(result.ends_with(".wav"));
    let filename = Path::new(&result).file_name().unwrap().to_str().unwrap();
    assert!(filename.len() == NAME_LEN);
}

#[test]
fn test_mp3_path_format() {
    let data_path = get_unique_data_path();
    let result = mp3_path(&data_path);
    assert!(result.starts_with(data_path.as_str()));
    assert!(result.ends_with(".mp3"));
    let filename = Path::new(&result).file_name().unwrap().to_str().unwrap();
    assert!(filename.len() == NAME_LEN);
}

#[test]
fn test_unique_paths() {
    let data_path1 = get_unique_data_path();
    let data_path2 = get_unique_data_path();
    let data_path3 = get_unique_data_path();
    let data_path4 = get_unique_data_path();
    let wav1 = wav_path(&data_path1);
    let wav2 = wav_path(&data_path2);
    let mp3_1 = mp3_path(&data_path3);
    let mp3_2 = mp3_path(&data_path4);
    assert_ne!(wav1, wav2);
    assert_ne!(mp3_1, mp3_2);
    assert_ne!(wav1, mp3_1);
}

#[test]
fn consecutive_allocations_differ() {
    let a = allocate("/tmp", ArtifactKind::Mp3Output);
    let b = allocate("/tmp", ArtifactKind::Mp3Output);
    assert_ne!(a, b);
}

#[test]
fn test_different_data_paths() {
    let path1 = get_unique_data_path();
    let path2 = get_unique_data_path();
    let result1 = wav_path(&path1);
    let result2 = wav_path(&path2);
    assert!(result1.starts_with(path1.as_str()));
    assert!(result2.starts_with(path2.as_str()));
}

#[test]
fn test_empty_data_path() {
    let empty_path = "".to_string();
    let result = wav_path(&empty_path);
    assert!(result.ends_with(".wav"));
    let filename = Path::new(&result).file_name().unwrap().to_str().unwrap();
    assert!(filename.len() == NAME_LEN);
    assert_eq!(result.len(), NAME_LEN);
}

#[test]
fn test_relative_path() {
    let relative_path = "./audio".to_string();
    let result = mp3_path(&relative_path);
    assert!(result.starts_with("./audio"));
    assert!(result.ends_with(".mp3"));
}

#[test]
fn test_path_validity() {
    let data_path: &str = "/tmp/test";
    let wav_result = wav_path(data_path);
    let mp3_result = mp3_path(data_path);
    let wav_path_obj = Path::new(&wav_result);
    let mp3_path_obj = Path::new(&mp3_result);
    assert!(wav_path_obj.is_absolute());
    assert!(mp3_path_obj.is_absolute());
    assert_eq!(wav_path_obj.parent().unwrap(), Path::new(data_path));
    assert_eq!(mp3_path_obj.parent().unwrap(), Path::new(data_path));
}

#[test]
fn test_uuid_format() {
    let data_path = "/tmp".to_string();
    let result = wav_path(&data_path);
    let filename = Path::new(&result).file_stem().unwrap().to_str().unwrap();
    assert!(
        Uuid::parse_str(filename).is_ok(),
        "Generated filename should be a valid UUID"
    );
}

#[test]
fn trailing_separator_is_not_doubled() {
    let result = mp3_path("/tmp/");
    assert_eq!(result.len(), "/tmp/".len() + NAME_LEN);
    assert!(!result.contains("//"));
}
