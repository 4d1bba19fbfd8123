use piano_tabs::playback::{notes_for, Beat, Cue, Note, Playback, Tone, COUNTDOWN_START, KEY_COUNT};

fn tone(name: &str, key: usize) -> Tone {
    Tone { name: name.to_string(), key }
}

fn beat(word: &str, tones: Vec<Tone>) -> Beat {
    Beat { word: word.to_string(), tones }
}

fn song() -> Vec<Beat> {
    vec![
        beat("明", vec![tone("1", 0), tone("3", 2)]),
        beat("月", vec![tone("5", 4)]),
        beat("几", vec![]),
    ]
}

#[test]
fn new_player_has_no_song() {
    let p = Playback::new();
    assert!(!p.has_song());
    assert_eq!(p.beat_count(), None);
    assert_eq!(p.current(), None);
    assert_eq!(p.time_delay(), COUNTDOWN_START);
    assert_eq!(KEY_COUNT, 17);
}

#[test]
fn frame_without_song_is_idle() {
    let mut p = Playback::new();
    let (cue, notes) = p.on_frame(100, true);
    assert_eq!(cue, Cue::Idle);
    assert!(notes.is_empty());
    assert_eq!(p.current(), None);
    assert_eq!(p.time_delay(), 3);
}

#[test]
fn countdown_then_first_beat() {
    let mut p = Playback::new();
    p.load(song());
    assert_eq!(p.beat_count(), Some(3));
    for (elapsed, shown) in [(0, 3), (1, 2), (2, 1), (3, 0)] {
        let (cue, notes) = p.on_frame(elapsed, true);
        assert_eq!(cue, Cue::Countdown(shown));
        assert!(notes.is_empty());
        assert_eq!(p.time_delay(), shown);
        assert_eq!(p.current(), None);
    }
    let (cue, notes) = p.on_frame(4, false);
    assert_eq!(cue, Cue::Play(0));
    assert_eq!(p.current(), Some(0));
    assert_eq!(p.time_delay(), -1);
    assert_eq!(
        notes,
        vec![
            Note { key: 0, tone: "1".to_string(), word: "明".to_string() },
            Note { key: 2, tone: "3".to_string(), word: "明".to_string() },
        ]
    );
}

#[test]
fn beats_in_order_then_restart() {
    let mut p = Playback::new();
    p.load(song());
    assert_eq!(p.on_frame(7, false).0, Cue::Play(0));
    assert_eq!(p.on_frame(7, false).0, Cue::Hold);
    assert_eq!(p.current(), Some(0));
    let (cue, notes) = p.on_frame(8, true);
    assert_eq!(cue, Cue::Play(1));
    assert_eq!(notes, vec![Note { key: 4, tone: "5".to_string(), word: "月".to_string() }]);
    let (cue, notes) = p.on_frame(9, true);
    assert_eq!(cue, Cue::Play(2));
    assert!(notes.is_empty());
    let (cue, _) = p.on_frame(10, true);
    assert_eq!(cue, Cue::Restart);
    assert_eq!(p.current(), None);
    assert_eq!(p.time_delay(), COUNTDOWN_START);
    assert!(p.has_song());
    assert_eq!(p.on_frame(0, true).0, Cue::Countdown(3));
}

#[test]
fn loading_restarts_the_countdown() {
    let mut p = Playback::new();
    p.load(song());
    assert_eq!(p.on_frame(5, true).0, Cue::Play(0));
    p.load(vec![beat("x", vec![tone("2", 16)])]);
    assert_eq!(p.current(), None);
    assert_eq!(p.time_delay(), 3);
    assert_eq!(p.beat_count(), Some(1));
    assert_eq!(p.on_frame(1, true).0, Cue::Countdown(2));
}

#[test]
fn notes_follow_tones() {
    let b = beat("但", vec![tone("6", 5), tone("1", 7), tone("3", 9)]);
    let notes = notes_for(&b);
    assert_eq!(notes.len(), 3);
    assert_eq!(notes[2], Note { key: 9, tone: "3".to_string(), word: "但".to_string() });
    assert!(notes_for(&beat("", vec![])).is_empty());
}

#[test]
fn negative_elapsed_counts_up() {
    let mut p = Playback::new();
    p.load(song());
    assert_eq!(p.on_frame(-2, true).0, Cue::Countdown(5));
}
