use syringe_pump::upload::{file_ending, strip_ending, FileEnding};
use syringe_pump::models::{Activity, IdGenerator, MediaFile, Schedule, State, Status};

#[test]
fn id_generator_counts_up_and_wraps() {
    let mut g = IdGenerator::new(4);
    assert_eq!(g.next(), 5);
    assert_eq!(g.next(), 6);
    let mut g = IdGenerator::new(u32::MAX);
    assert_eq!(g.next(), 0);
}

#[test]
fn new_schedule_is_inactive() {
    let s = Schedule::new(3, 7, "0 0 8 * * *".to_string());
    assert_eq!(s.id, 3);
    assert_eq!(s.file_id, 7);
    assert_eq!(s.schedule, "0 0 8 * * *");
    assert_eq!(s.activity, Activity::Inactive);
}

#[test]
fn load_continues_after_largest_id() {
    let files = vec![
        MediaFile::new(3, "a".to_string(), "media/a.mp3".to_string()),
        MediaFile::new(9, "b".to_string(), "media/b.mp3".to_string()),
        MediaFile::new(2, "c".to_string(), "media/c.ogg".to_string()),
    ];
    let schedules = vec![Schedule::new(5, 3, "* * * * * *".to_string())];
    let mut state = State::load(files, schedules);
    assert_eq!(state.status, Status::Idle);
    state.add_media("d".to_string(), "media/d.mp3".to_string());
    assert_eq!(state.files.last().unwrap().id, 10);
    state.add_schedule(9, "1 * * * * *".to_string());
    assert_eq!(state.schedules.last().unwrap().id, 6);
    let empty = State::load(vec![], vec![]);
    let mut fresh = empty;
    fresh.add_media("x".to_string(), "p".to_string());
    assert_eq!(fresh.files[0].id, 1);
}

#[test]
fn default_state_is_empty() {
    let mut state = State::default();
    assert_eq!(state.status, Status::Init);
    assert!(state.files.is_empty());
    assert!(state.schedules.is_empty());
    assert_eq!(state.file_id_gen.next(), 1);
}

#[test]
fn media_lookup_and_removal() {
    let mut state = State::default();
    state.add_media("one".to_string(), "media/one.mp3".to_string());
    state.add_media("two".to_string(), "media/two.mp3".to_string());
    state.add_media("three".to_string(), "media/three.ogg".to_string());
    assert_eq!(state.get_media(2).unwrap().name, "two");
    assert!(state.get_media(4).is_none());
    state.remove_media(2);
    assert!(state.get_media(2).is_none());
    let names: Vec<&str> = state.files.iter().map(|f| f.name.as_str()).collect();
    assert_eq!(names, vec!["one", "three"]);
    state.remove_media(42);
    assert_eq!(state.files.len(), 2);
}

#[test]
fn schedule_edit_and_removal() {
    let mut state = State::default();
    state.add_schedule(1, "0 * * * * *".to_string());
    state.add_schedule(2, "30 * * * * *".to_string());
    assert!(!state.edit_schedule(1, 1, "0 * * * * *".to_string()));
    assert!(state.edit_schedule(1, 5, "0 * * * * *".to_string()));
    assert_eq!(state.get_schedule(1).unwrap().file_id, 5);
    assert!(state.edit_schedule(2, 2, "15 * * * * *".to_string()));
    assert_eq!(state.get_schedule(2).unwrap().schedule, "15 * * * * *");
    state.get_mut_schedule(2).unwrap().activity = Activity::Active;
    assert_eq!(state.get_schedule(2).unwrap().activity, Activity::Active);
    assert!(state.get_mut_schedule(3).is_none());
    state.remove_schedule(1);
    assert!(state.get_schedule(1).is_none());
    assert_eq!(state.schedules.len(), 1);
}

#[test]
fn upload_endings_follow_content_type() {
    assert_eq!(file_ending("audio/mp3"), Some(FileEnding::Mp3));
    assert_eq!(file_ending("audio/mpeg"), Some(FileEnding::Mp3));
    assert_eq!(file_ending("audio"), Some(FileEnding::Mp3));
    assert_eq!(file_ending("audio/ogg"), Some(FileEnding::Ogg));
    assert_eq!(file_ending("audio/wav"), None);
    assert_eq!(file_ending(""), None);
    assert_eq!(FileEnding::Mp3.as_str(), "mp3");
    assert_eq!(FileEnding::Ogg.as_str(), "ogg");
}

#[test]
fn upload_names_lose_their_ending() {
    assert_eq!(strip_ending("song.mp3", FileEnding::Mp3), Some("song".to_string()));
    assert_eq!(strip_ending("a.b.ogg", FileEnding::Ogg), Some("a.b".to_string()));
    assert_eq!(strip_ending(".mp3", FileEnding::Mp3), Some(String::new()));
    assert_eq!(strip_ending("song.ogg", FileEnding::Mp3), None);
    assert_eq!(strip_ending("mp3", FileEnding::Mp3), None);
    assert_eq!(strip_ending("songmp3", FileEnding::Mp3), None);
    assert_eq!(strip_ending("chanson-été.mp3", FileEnding::Mp3), Some("chanson-été".to_string()));
}

#[test]
fn deleting_a_file_deactivates_its_schedules() {
    let mut state = State::default();
    state.add_schedule(1, "0 * * * * *".to_string());
    state.add_schedule(2, "1 * * * * *".to_string());
    state.add_schedule(1, "2 * * * * *".to_string());
    state.add_schedule(1, "3 * * * * *".to_string());
    state.get_mut_schedule(1).unwrap().activity = Activity::Active;
    state.get_mut_schedule(2).unwrap().activity = Activity::Active;
    state.get_mut_schedule(4).unwrap().activity = Activity::Active;
    assert_eq!(state.deactivate_file_schedules(1), vec![1, 4]);
    let activity: Vec<Activity> = state.schedules.iter().map(|s| s.activity).collect();
    assert_eq!(
        activity,
        vec![Activity::Inactive, Activity::Active, Activity::Inactive, Activity::Inactive]
    );
    assert!(state.deactivate_file_schedules(1).is_empty());
}
