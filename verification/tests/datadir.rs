use playlist_audio::datadir::{is_audio, judge, Sweep, SweepAction, SweepEvent};
use playlist_audio::error::Error;
use playlist_audio::tag::write_tag;

fn audio() -> Vec<u8> {
    vec![0xff, 0xfb, 0x90, 0x00, 1, 2, 3, 4, 5, 6, 7, 8, 9, 10, 11, 12]
}

fn entry(name: &str) -> SweepEvent {
    SweepEvent::Entry(Some(name.to_string()))
}

// Feeds the events to a sweep from its start; gives each action on the way.
fn sweep(events: Vec<SweepEvent>) -> (Sweep, Vec<SweepAction>) {
    let mut state = Sweep::start();
    let mut actions = vec![state.action()];
    for event in events {
        state = state.step(event);
        actions.push(state.action());
    }
    (state, actions)
}

#[test]
fn audio_names_end_with_the_extension() {
    assert!(is_audio("abc.mp3"));
    assert!(is_audio(".mp3"));
    assert!(is_audio("a.b.mp3"));
    assert!(is_audio("日本.mp3"));
    assert!(!is_audio("abc.mp4"));
    assert!(!is_audio("abc.MP3"));
    assert!(!is_audio("abc.mp3.part"));
    assert!(!is_audio("abc.webm"));
    assert!(!is_audio("mp3"));
    assert!(!is_audio("abcmp3"));
    assert!(!is_audio(""));
}

#[test]
fn a_titled_file_stays() {
    assert_eq!(judge(Ok(Some("T".to_string()))), Sweep::Scanning);
    assert_eq!(judge(Ok(Some(" ".to_string()))), Sweep::Scanning);
}

#[test]
fn an_untitled_file_goes() {
    assert_eq!(judge(Ok(None)), Sweep::Removing);
    assert_eq!(judge(Ok(Some(String::new()))), Sweep::Removing);
}

#[test]
fn an_unreadable_tag_ends_the_sweep() {
    assert_eq!(judge(Err(Error::TagReadError)), Sweep::Failed(Error::TagReadError));
}

#[test]
fn a_sweep_starts_by_asking_for_the_directory() {
    assert_eq!(Sweep::start(), Sweep::Stat);
    assert_eq!(Sweep::start().action(), SweepAction::Stat);
}

#[test]
fn a_missing_directory_is_created_and_not_swept() {
    let (state, actions) = sweep(vec![SweepEvent::Exists(false), SweepEvent::Created]);
    assert_eq!(state, Sweep::Done);
    assert_eq!(actions, vec![SweepAction::Stat, SweepAction::Create, SweepAction::Finish]);
}

#[test]
fn a_directory_that_cannot_be_created_ends_the_sweep() {
    let (state, actions) = sweep(vec![SweepEvent::Exists(false), SweepEvent::Failed]);
    assert_eq!(state, Sweep::Failed(Error::DataDirError));
    assert_eq!(actions, vec![SweepAction::Stat, SweepAction::Create, SweepAction::Abort]);
}

#[test]
fn an_empty_directory_is_ready_at_once() {
    let (state, actions) = sweep(vec![SweepEvent::Exists(true), SweepEvent::Entry(None)]);
    assert_eq!(state, Sweep::Done);
    assert_eq!(actions, vec![SweepAction::Stat, SweepAction::Next, SweepAction::Finish]);
}

#[test]
fn a_file_that_is_no_audio_file_is_removed_unread() {
    let (state, actions) = sweep(vec![
        SweepEvent::Exists(true),
        entry("abc.webm"),
        SweepEvent::Removed,
        entry("abc.mp3.part"),
        SweepEvent::Removed,
        SweepEvent::Entry(None),
    ]);
    assert_eq!(state, Sweep::Done);
    assert_eq!(
        actions,
        vec![
            SweepAction::Stat,
            SweepAction::Next,
            SweepAction::Remove,
            SweepAction::Next,
            SweepAction::Remove,
            SweepAction::Next,
            SweepAction::Finish,
        ]
    );
}

#[test]
fn an_audio_file_without_tag_is_removed() {
    let (state, actions) =
        sweep(vec![SweepEvent::Exists(true), entry("abc.mp3"), SweepEvent::Content(audio())]);
    assert_eq!(state, Sweep::Removing);
    assert_eq!(
        actions,
        vec![SweepAction::Stat, SweepAction::Next, SweepAction::Read, SweepAction::Remove]
    );
}

#[test]
fn an_empty_audio_file_is_removed() {
    let (state, _) =
        sweep(vec![SweepEvent::Exists(true), entry("abc.mp3"), SweepEvent::Content(Vec::new())]);
    assert_eq!(state, Sweep::Removing);
}

#[test]
fn an_audio_file_with_an_empty_title_is_removed() {
    let file = write_tag(audio(), "", "Artist").unwrap();
    let (state, _) =
        sweep(vec![SweepEvent::Exists(true), entry("abc.mp3"), SweepEvent::Content(file)]);
    assert_eq!(state, Sweep::Removing);
}

#[test]
fn an_audio_file_with_a_tag_without_title_is_removed() {
    let mut file = b"ID3\x04\x00\x00\x00\x00\x00\x00".to_vec();
    file.extend_from_slice(&audio());
    let (state, _) =
        sweep(vec![SweepEvent::Exists(true), entry("abc.mp3"), SweepEvent::Content(file)]);
    assert_eq!(state, Sweep::Removing);
}

#[test]
fn an_audio_file_with_a_title_stays() {
    let file = write_tag(audio(), "Title", "Artist").unwrap();
    let (state, actions) = sweep(vec![
        SweepEvent::Exists(true),
        entry("abc.mp3"),
        SweepEvent::Content(file),
        SweepEvent::Entry(None),
    ]);
    assert_eq!(state, Sweep::Done);
    assert_eq!(
        actions,
        vec![
            SweepAction::Stat,
            SweepAction::Next,
            SweepAction::Read,
            SweepAction::Next,
            SweepAction::Finish,
        ]
    );
}

#[test]
fn an_audio_file_with_an_unreadable_tag_ends_the_sweep() {
    let mut file = b"ID3\x09\x00\x00\x00\x00\x00\x0a".to_vec();
    file.extend_from_slice(&audio());
    let (state, actions) =
        sweep(vec![SweepEvent::Exists(true), entry("abc.mp3"), SweepEvent::Content(file)]);
    assert_eq!(state, Sweep::Failed(Error::TagReadError));
    assert_eq!(actions.last(), Some(&SweepAction::Abort));
}

#[test]
fn an_audio_file_that_cannot_be_read_ends_the_sweep() {
    let (state, _) = sweep(vec![SweepEvent::Exists(true), entry("abc.mp3"), SweepEvent::Failed]);
    assert_eq!(state, Sweep::Failed(Error::TagReadError));
}

#[test]
fn a_file_that_cannot_be_removed_ends_the_sweep() {
    let (state, _) = sweep(vec![SweepEvent::Exists(true), entry("notes.txt"), SweepEvent::Failed]);
    assert_eq!(state, Sweep::Failed(Error::DataDirError));
}

#[test]
fn a_directory_that_cannot_be_listed_ends_the_sweep() {
    let (state, _) = sweep(vec![SweepEvent::Exists(true), SweepEvent::Failed]);
    assert_eq!(state, Sweep::Failed(Error::DataDirError));
}

#[test]
fn a_mixed_directory_keeps_its_titled_audio_files_only() {
    let titled = write_tag(audio(), "Title", "Artist").unwrap();
    let (state, actions) = sweep(vec![
        SweepEvent::Exists(true),
        entry("done.mp3"),
        SweepEvent::Content(titled),
        entry("partial.mp3"),
        SweepEvent::Content(audio()),
        SweepEvent::Removed,
        entry("partial.webm"),
        SweepEvent::Removed,
        SweepEvent::Entry(None),
    ]);
    assert_eq!(state, Sweep::Done);
    assert_eq!(
        actions,
        vec![
            SweepAction::Stat,
            SweepAction::Next,
            SweepAction::Read,
            SweepAction::Next,
            SweepAction::Read,
            SweepAction::Remove,
            SweepAction::Next,
            SweepAction::Remove,
            SweepAction::Next,
            SweepAction::Finish,
        ]
    );
}

#[test]
fn an_event_that_a_sweep_does_not_wait_for_changes_nothing() {
    let all = [
        SweepEvent::Exists(true),
        SweepEvent::Exists(false),
        SweepEvent::Created,
        SweepEvent::Entry(None),
        entry("a.mp3"),
        SweepEvent::Content(audio()),
        SweepEvent::Removed,
        SweepEvent::Failed,
    ];
    for event in all.clone() {
        assert_eq!(Sweep::Done.step(event.clone()), Sweep::Done);
        let failed = Sweep::Failed(Error::DataDirError);
        assert_eq!(failed.step(event), failed);
    }
    for event in all.clone() {
        if !matches!(event, SweepEvent::Exists(_)) {
            assert_eq!(Sweep::Stat.step(event), Sweep::Stat);
        }
    }
    for event in all.clone() {
        if !matches!(event, SweepEvent::Created | SweepEvent::Failed) {
            assert_eq!(Sweep::Creating.step(event), Sweep::Creating);
        }
    }
    for event in all.clone() {
        if !matches!(event, SweepEvent::Entry(_) | SweepEvent::Failed) {
            assert_eq!(Sweep::Scanning.step(event), Sweep::Scanning);
        }
    }
    for event in all.clone() {
        if !matches!(event, SweepEvent::Content(_) | SweepEvent::Failed) {
            assert_eq!(Sweep::Inspecting.step(event), Sweep::Inspecting);
        }
    }
    for event in all {
        if !matches!(event, SweepEvent::Removed | SweepEvent::Failed) {
            assert_eq!(Sweep::Removing.step(event), Sweep::Removing);
        }
    }
}

#[test]
fn an_audio_file_that_is_a_container_without_title_is_removed() {
    let wav = b"RIFF\xe8\x03\x00\x00WAVEID3 \xe8\x03\x00\x00".to_vec();
    let (state, _) =
        sweep(vec![SweepEvent::Exists(true), entry("abc.mp3"), SweepEvent::Content(wav)]);
    assert_eq!(state, Sweep::Removing);
}
