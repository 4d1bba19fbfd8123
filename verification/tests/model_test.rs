use piano_tabs::model::{Effect, Model, Msg, Outcome, INITIAL_BPM, RESIZE_DELAY_MS};
use piano_tabs::playback::{Beat, Cue, Tone};
use piano_tabs::songs::Song;

fn out(effect: Effect, should_render: bool) -> Outcome {
    Outcome { effect, should_render }
}

#[test]
fn new_model() {
    let m = Model::new();
    assert!(!m.full_screen);
    assert_eq!(m.messages, "");
    assert_eq!(m.sound_name, "");
    assert_eq!(m.bpm, INITIAL_BPM);
    assert_eq!(m.bpm, 50);
    assert!(!m.playback.has_song());
    assert_eq!(RESIZE_DELAY_MS, 300);
}

#[test]
fn canvas_click_twice_toggles_back() {
    let mut m = Model::new();
    assert_eq!(m.update(Msg::OnCanvasClick), out(Effect::EnterFullScreen, false));
    assert!(m.full_screen);
    assert_eq!(m.update(Msg::OnCanvasClick), out(Effect::ExitFullScreen, false));
    assert!(!m.full_screen);
}

#[test]
fn log_messages() {
    let mut m = Model::new();
    assert_eq!(m.update(Msg::Sound("do".to_string())), out(Effect::Nothing, true));
    assert_eq!(m.messages, "do ");
    assert_eq!(m.update(Msg::Error("bad".to_string())), out(Effect::Nothing, true));
    assert_eq!(m.messages, "do estimator 错误: bad\r\n");
    assert_eq!(m.update(Msg::Success("ok".to_string())), out(Effect::Nothing, true));
    assert_eq!(m.messages, "do estimator 错误: bad\r\nestimator ok\r\n");
}

#[test]
fn log_only_grows() {
    let mut m = Model::new();
    m.update(Msg::Sound("mi".to_string()));
    let before = m.messages.clone();
    for msg in [Msg::OnCanvasClick, Msg::Render, Msg::Nothing, Msg::OnWindowSizeChange, Msg::Sound("".to_string())] {
        m.update(msg);
        assert!(m.messages.starts_with(&before));
    }
    assert_eq!(m.messages, "mi  ");
}

#[test]
fn choosing_a_song() {
    let mut m = Model::new();
    assert_eq!(m.update(Msg::OnTabSelect("梁祝".to_string())), out(Effect::LoadSong(Song::LiangZhu), true));
    assert_eq!(m.bpm, 56);
    assert_eq!(m.sound_name, "梁祝");
    assert_eq!(m.update(Msg::OnTabSelect("请选择".to_string())), out(Effect::Nothing, true));
    assert_eq!(m.bpm, 56);
    assert_eq!(m.sound_name, "请选择");
}

#[test]
fn other_messages() {
    let mut m = Model::new();
    assert_eq!(m.update(Msg::OnWindowSizeChange), out(Effect::MeasureWindow, true));
    assert_eq!(m.update(Msg::OnSizeChange(Some("120".to_string()))), out(Effect::ResizePiano("120".to_string()), true));
    assert_eq!(m.update(Msg::OnSizeChange(None)), out(Effect::Nothing, true));
    assert_eq!(m.update(Msg::Render), out(Effect::DrawFrame, false));
    assert_eq!(m.update(Msg::Nothing), out(Effect::Nothing, false));
    assert!(!m.full_screen);
    assert_eq!(m.messages, "");
}

#[test]
fn init_tabs_loads_or_keeps() {
    let mut m = Model::new();
    assert!(!m.init_tabs(None));
    assert!(!m.playback.has_song());
    let beats = vec![Beat { word: "月".to_string(), tones: vec![Tone { name: "5".to_string(), key: 4 }] }];
    assert!(m.init_tabs(Some(beats)));
    assert_eq!(m.playback.beat_count(), Some(1));
    assert_eq!(m.render(4, false).0, Cue::Play(0));
    assert!(!m.init_tabs(None));
    assert_eq!(m.playback.current(), Some(0));
    assert!(m.init_tabs(Some(vec![])));
    assert_eq!(m.playback.current(), None);
    assert_eq!(m.playback.time_delay(), 3);
}

#[test]
fn render_changes_only_the_player() {
    let mut m = Model::new();
    m.update(Msg::OnTabSelect("蝶恋".to_string()));
    assert!(m.init_tabs(Some(vec![Beat { word: "蝶".to_string(), tones: vec![] }])));
    let (cue, notes) = m.render(2, true);
    assert_eq!(cue, Cue::Countdown(1));
    assert!(notes.is_empty());
    assert_eq!(m.bpm, 80);
    assert_eq!(m.sound_name, "蝶恋");
    assert_eq!(m.render(4, true).0, Cue::Play(0));
    assert_eq!(m.render(5, true).0, Cue::Restart);
}
