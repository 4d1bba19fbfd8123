//! How the player reacts to each message: the state it keeps besides the
//! drawing, and the outside work that each message asks of its host.
use vstd::prelude::*;
use crate::playback::{valid, frame_cue, frame_next, frame_notes, frame_ok, Beat, Cue, Note, Playback, PlaybackView, COUNTDOWN_START};
use crate::songs::{bpm_of, lemma_title_selects_song, select_song, song_named, title_of, Song};

verus! {

/// The tempo before any song is chosen, in beats per minute.
pub const INITIAL_BPM: u32 = 50;

/// How long after entering or leaving full screen the window is measured
/// again, in milliseconds.
pub const RESIZE_DELAY_MS: u64 = 300;

/// A message to the player.
#[derive(Clone, Debug, PartialEq, Eq)]
pub enum Msg {
    /// An animation frame is due.
    Render,
    /// A success report to log.
    Success(String),
    /// An error report to log.
    Error(String),
    /// A sounded tone to log.
    Sound(String),
    /// The piano-size slider moved; it carries the slider's value when the
    /// change holds one.
    OnSizeChange(Option<String>),
    /// The window changed size.
    OnWindowSizeChange,
    /// The canvas was clicked.
    OnCanvasClick,
    /// A menu entry was chosen; it carries the entry's label.
    OnTabSelect(String),
    /// Nothing happened.
    Nothing,
}

/// The outside work that a message asks of the host.
#[derive(Clone, Debug, PartialEq, Eq)]
pub enum Effect {
    /// No outside work.
    Nothing,
    /// Enter full screen, then measure the window after `RESIZE_DELAY_MS`.
    EnterFullScreen,
    /// Leave full screen, then measure the window after `RESIZE_DELAY_MS`.
    ExitFullScreen,
    /// Parse the sheet of this song and hand the result to `init_tabs`.
    LoadSong(Song),
    /// Measure the window and the canvas again.
    MeasureWindow,
    /// Set the piano width from this slider value and store the value.
    ResizePiano(String),
    /// Draw a frame, and hand its timing to `render`.
    DrawFrame,
}

/// What `update` answers: the outside work asked for, and whether the view
/// must be drawn again.
#[derive(Clone, Debug, PartialEq, Eq)]
pub struct Outcome {
    pub effect: Effect,
    pub should_render: bool,
}

/// The abstract state of the player.
pub struct ModelView {
    pub full_screen: bool,
    pub messages: Seq<char>,
    pub sound_name: Seq<char>,
    pub bpm: u32,
    pub playback: PlaybackView,
}

/// The state of the player besides the drawing.
pub struct Model {
    /// Whether the page is in full screen.
    pub full_screen: bool,
    /// The log of tones and reports.
    pub messages: String,
    /// The label of the chosen menu entry.
    pub sound_name: String,
    /// The tempo of the chosen song, in beats per minute.
    pub bpm: u32,
    /// The player of the loaded song.
    pub playback: Playback,
}

impl View for Model {
    type V = ModelView;

    open spec fn view(&self) -> ModelView {
        ModelView {
            full_screen: self.full_screen,
            messages: self.messages@,
            sound_name: self.sound_name@,
            bpm: self.bpm,
            playback: self.playback@,
        }
    }
}

/// The log after a message.
pub open spec fn logged(messages: Seq<char>, msg: Msg) -> Seq<char> {
    match msg {
        Msg::Sound(tone) => messages + tone@ + " "@,
        Msg::Error(err) => messages + "estimator 错误: "@ + err@ + "\r\n"@,
        Msg::Success(text) => messages + "estimator "@ + text@ + "\r\n"@,
        _ => messages,
    }
}

/// The state after a message.
pub open spec fn step(m: ModelView, msg: Msg) -> ModelView {
    match msg {
        Msg::OnCanvasClick => ModelView { full_screen: !m.full_screen, ..m },
        Msg::OnTabSelect(name) => ModelView {
            sound_name: name@,
            bpm: match song_named(name@) {
                Some(song) => bpm_of(song),
                None => m.bpm,
            },
            ..m
        },
        Msg::Sound(_) | Msg::Error(_) | Msg::Success(_) => ModelView {
            messages: logged(m.messages, msg),
            ..m
        },
        _ => m,
    }
}

/// The outside work that a message asks for.
pub open spec fn effect_of(m: ModelView, msg: Msg) -> Effect {
    match msg {
        Msg::OnCanvasClick => if m.full_screen {
            Effect::ExitFullScreen
        } else {
            Effect::EnterFullScreen
        },
        Msg::OnTabSelect(name) => match song_named(name@) {
            Some(song) => Effect::LoadSong(song),
            None => Effect::Nothing,
        },
        Msg::OnWindowSizeChange => Effect::MeasureWindow,
        Msg::OnSizeChange(Some(value)) => Effect::ResizePiano(value),
        Msg::Render => Effect::DrawFrame,
        _ => Effect::Nothing,
    }
}

/// Whether the view must be drawn again after a message.
pub open spec fn redraws(msg: Msg) -> bool {
    match msg {
        Msg::OnCanvasClick | Msg::Render | Msg::Nothing => false,
        _ => true,
    }
}

/// Clicking the canvas twice comes back to the same state, having asked once
/// to enter and once to leave full screen, in the order that the state gives.
pub proof fn lemma_canvas_click_twice(m: ModelView)
    ensures
        step(step(m, Msg::OnCanvasClick), Msg::OnCanvasClick) == m,
        m.full_screen ==> (effect_of(m, Msg::OnCanvasClick) is ExitFullScreen && effect_of(
            step(m, Msg::OnCanvasClick),
            Msg::OnCanvasClick,
        ) is EnterFullScreen),
        !m.full_screen ==> (effect_of(m, Msg::OnCanvasClick) is EnterFullScreen && effect_of(
            step(m, Msg::OnCanvasClick),
            Msg::OnCanvasClick,
        ) is ExitFullScreen),
{
}

/// The log only grows: a message keeps what was logged before and can only
/// add to its end.
pub proof fn lemma_log_only_grows(m: ModelView, msg: Msg)
    ensures
        step(m, msg).messages.len() >= m.messages.len(),
        step(m, msg).messages.subrange(0, m.messages.len() as int) == m.messages,
{
    assert(step(m, msg).messages.subrange(0, m.messages.len() as int) =~= m.messages);
}

/// Choosing a song by its label keeps the label, sets the song's tempo and
/// asks for the song's sheet.
pub proof fn lemma_choose_song(m: ModelView, name: String, song: Song)
    requires
        name@ == title_of(song),
    ensures
        step(m, Msg::OnTabSelect(name)).sound_name == name@,
        step(m, Msg::OnTabSelect(name)).bpm == bpm_of(song),
        effect_of(m, Msg::OnTabSelect(name)) == Effect::LoadSong(song),
{
    lemma_title_selects_song(song);
}

/// Every slider value, whatever its sign and whatever the state, asks to
/// resize the piano with that very value and redraws.
pub proof fn lemma_slider_always_resizes(m: ModelView, value: String)
    ensures
        effect_of(m, Msg::OnSizeChange(Some(value))) == Effect::ResizePiano(value),
        redraws(Msg::OnSizeChange(Some(value))),
        step(m, Msg::OnSizeChange(Some(value))) == m,
{
}

/// A window change, in full screen or not, always asks to measure the
/// window again, and redraws.
pub proof fn lemma_window_change_measures(m: ModelView)
    ensures
        effect_of(m, Msg::OnWindowSizeChange) == Effect::MeasureWindow,
        redraws(Msg::OnWindowSizeChange),
        step(m, Msg::OnWindowSizeChange) == m,
{
}

/// An animation frame, in full screen or not, always asks to draw the frame
/// (which requests the next one), without redrawing the view.
pub proof fn lemma_render_always_draws(m: ModelView)
    ensures
        effect_of(m, Msg::Render) == Effect::DrawFrame,
        !redraws(Msg::Render),
        step(m, Msg::Render) == m,
{
}

/// The effect of a message other than a click depends on the message alone:
/// two states ask the same outside work for it.
pub proof fn lemma_effect_ignores_state(m1: ModelView, m2: ModelView, msg: Msg)
    requires
        !(msg is OnCanvasClick),
    ensures
        effect_of(m1, msg) == effect_of(m2, msg),
{
}

/// Messages never touch the player; only a click changes full screen, only a
/// song choice changes the chosen label and tempo, and only a log message
/// changes the log, by appending its exact entry.
pub proof fn lemma_what_each_message_changes(m: ModelView, msg: Msg)
    ensures
        step(m, msg).playback == m.playback,
        step(m, msg).full_screen == (if msg is OnCanvasClick { !m.full_screen } else { m.full_screen }),
        !(msg is OnTabSelect) ==> (step(m, msg).sound_name == m.sound_name && step(m, msg).bpm == m.bpm),
        msg matches Msg::Sound(t) ==> step(m, msg).messages == m.messages + t@ + " "@,
        msg matches Msg::Error(e) ==> step(m, msg).messages == m.messages + "estimator 错误: "@ + e@ + "\r\n"@,
        msg matches Msg::Success(t) ==> step(m, msg).messages == m.messages + "estimator "@ + t@ + "\r\n"@,
        !(msg is Sound || msg is Error || msg is Success) ==> step(m, msg).messages == m.messages,
{
}

impl Model {
    /// A player in a window, not in full screen, with an empty log, no song
    /// chosen and no song loaded.
    pub fn new() -> (r: Model)
        ensures
            !r@.full_screen,
            r@.messages == Seq::<char>::empty(),
            r@.sound_name == Seq::<char>::empty(),
            r@.bpm == INITIAL_BPM,
            r@.playback.song is None,
            r@.playback.current is None,
            r@.playback.time_delay == COUNTDOWN_START,
    {
        Model {
            full_screen: false,
            messages: String::new(),
            sound_name: String::new(),
            bpm: INITIAL_BPM,
            playback: Playback::new(),
        }
    }

    /// Reacts to a message: changes the state as `step` says and answers the
    /// outside work that `effect_of` names.
    pub fn update(&mut self, msg: Msg) -> (r: Outcome)
        ensures
            final(self)@ == step(old(self)@, msg),
            r.effect == effect_of(old(self)@, msg),
            r.should_render == redraws(msg),
            msg is Render ==> (r.effect == Effect::DrawFrame && !r.should_render),
            msg is OnWindowSizeChange ==> (r.effect == Effect::MeasureWindow && r.should_render),
            msg matches Msg::OnSizeChange(Some(v)) ==> (r.effect == Effect::ResizePiano(v) && r.should_render),
            final(self)@.playback == old(self)@.playback,
    {
        match msg {
            Msg::OnCanvasClick => {
                let effect = if self.full_screen {
                    Effect::ExitFullScreen
                } else {
                    Effect::EnterFullScreen
                };
                self.full_screen = !self.full_screen;
                Outcome { effect, should_render: false }
            },
            Msg::OnTabSelect(name) => {
                let chosen = select_song(name.as_str());
                self.sound_name = name;
                match chosen {
                    Some(song) => {
                        self.bpm = song.bpm();
                        Outcome { effect: Effect::LoadSong(song), should_render: true }
                    },
                    None => Outcome { effect: Effect::Nothing, should_render: true },
                }
            },
            Msg::OnWindowSizeChange => Outcome { effect: Effect::MeasureWindow, should_render: true },
            Msg::Nothing => Outcome { effect: Effect::Nothing, should_render: false },
            Msg::OnSizeChange(change) => match change {
                Some(value) => Outcome { effect: Effect::ResizePiano(value), should_render: true },
                None => Outcome { effect: Effect::Nothing, should_render: true },
            },
            Msg::Sound(tone) => {
                self.messages.append(tone.as_str());
                self.messages.append(" ");
                Outcome { effect: Effect::Nothing, should_render: true }
            },
            Msg::Error(err) => {
                self.messages.append("estimator 错误: ");
                self.messages.append(err.as_str());
                self.messages.append("\r\n");
                Outcome { effect: Effect::Nothing, should_render: true }
            },
            Msg::Success(text) => {
                self.messages.append("estimator ");
                self.messages.append(text.as_str());
                self.messages.append("\r\n");
                Outcome { effect: Effect::Nothing, should_render: true }
            },
            Msg::Render => Outcome { effect: Effect::DrawFrame, should_render: false },
        }
    }

    /// Takes the parsed sheet of the chosen song: a sheet loads and its
    /// countdown starts over; a sheet that did not parse (`None`) changes
    /// nothing. Returns whether a sheet was loaded.
    pub fn init_tabs(&mut self, parsed: Option<Vec<Beat>>) -> (r: bool)
        ensures
            r == parsed is Some,
            final(self)@.full_screen == old(self)@.full_screen,
            final(self)@.messages == old(self)@.messages,
            final(self)@.sound_name == old(self)@.sound_name,
            final(self)@.bpm == old(self)@.bpm,
            match parsed {
                Some(beats) => {
                    &&& final(self)@.playback.song == Some(beats@)
                    &&& final(self)@.playback.current is None
                    &&& final(self)@.playback.time_delay == COUNTDOWN_START
                },
                None => final(self)@.playback == old(self)@.playback,
            },
    {
        match parsed {
            Some(beats) => {
                self.playback.load(beats);
                true
            },
            None => false,
        }
    }

    /// Handles an animation frame, `elapsed` whole seconds after the
    /// countdown started, where `due` tells whether the current beat has
    /// lasted its time; only the player changes.
    pub fn render(&mut self, elapsed: i32, due: bool) -> (r: (Cue, Vec<Note>))
        requires
            frame_ok(old(self)@.playback, elapsed),
        ensures
            r.0 == frame_cue(old(self)@.playback, elapsed, due),
            r.1@ == frame_notes(old(self)@.playback, elapsed, due),
            final(self)@ == (ModelView { playback: frame_next(old(self)@.playback, elapsed, due), ..old(self)@ }),
            valid(final(self)@.playback),
    {
        self.playback.on_frame(elapsed, due)
    }
}

} // verus!
