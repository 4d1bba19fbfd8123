//! Which beat of the loaded song sounds on each animation frame: a countdown
//! of whole seconds, then the beats one after the other, each when the
//! previous one has lasted its time, then the countdown again.
use vstd::prelude::*;

verus! {

/// Number of keys drawn on the keyboard; a tone names one of them by index.
pub const KEY_COUNT: usize = 17;

/// The number that the countdown shows first.
pub const COUNTDOWN_START: i32 = 3;

/// A tone of a beat: its name and the index of the key that plays it.
#[derive(Clone, Debug, PartialEq, Eq)]
pub struct Tone {
    pub name: String,
    pub key: usize,
}

/// A beat of a song: the lyric sung on it and the tones struck together.
#[derive(Clone, Debug, PartialEq, Eq)]
pub struct Beat {
    pub word: String,
    pub tones: Vec<Tone>,
}

/// A falling note that a beat releases: the key it falls onto, the tone's
/// name and the lyric of its beat.
#[derive(Clone, Debug, PartialEq, Eq)]
pub struct Note {
    pub key: usize,
    pub tone: String,
    pub word: String,
}

/// What a frame shows of the song.
#[derive(Clone, Copy, Debug, PartialEq, Eq, Structural)]
pub enum Cue {
    /// No song is loaded.
    Idle,
    /// The countdown before the song shows this number.
    Countdown(i32),
    /// The beat with this index starts now and releases its notes.
    Play(usize),
    /// The current beat goes on sounding.
    Hold,
    /// The last beat has ended: the countdown starts over.
    Restart,
}

/// The abstract state of a player.
pub struct PlaybackView {
    /// The loaded song, if any.
    pub song: Option<Seq<Beat>>,
    /// The index of the beat that sounds, or `None` during the countdown.
    pub current: Option<usize>,
    /// The number that the countdown shows (it goes below zero when the song starts).
    pub time_delay: i32,
}

/// The notes that a beat releases, one per tone, in the order of its tones.
pub open spec fn notes_of(beat: Beat) -> Seq<Note> {
    beat.tones@.map_values(|t: Tone| Note { key: t.key, tone: t.name, word: beat.word })
}

/// A beat that sounds is a beat of the loaded song, whose beats a `usize`
/// counts.
pub open spec fn valid(p: PlaybackView) -> bool {
    &&& p.current matches Some(i) ==> (p.song matches Some(beats) && i < beats.len())
    &&& p.song matches Some(beats) ==> beats.len() <= usize::MAX
}

/// The countdown number `elapsed` whole seconds after the countdown started.
pub open spec fn countdown_value(elapsed: i32) -> int {
    COUNTDOWN_START - elapsed
}

/// A frame can be handled: the countdown number fits an `i32`, and a song
/// whose countdown runs out has a first beat.
pub open spec fn frame_ok(p: PlaybackView, elapsed: i32) -> bool {
    p.song matches Some(beats) ==> {
        &&& countdown_value(elapsed) <= i32::MAX
        &&& (p.current is None && countdown_value(elapsed) < 0) ==> beats.len() > 0
    }
}

/// What a frame shows, `elapsed` whole seconds after the countdown started,
/// where `due` tells whether the current beat has lasted its time.
pub open spec fn frame_cue(p: PlaybackView, elapsed: i32, due: bool) -> Cue {
    match p.song {
        None => Cue::Idle,
        Some(beats) => match p.current {
            None => if countdown_value(elapsed) < 0 {
                Cue::Play(0)
            } else {
                Cue::Countdown(countdown_value(elapsed) as i32)
            },
            Some(i) => if !due {
                Cue::Hold
            } else if i + 1 < beats.len() {
                Cue::Play((i + 1) as usize)
            } else {
                Cue::Restart
            },
        },
    }
}

/// The state after a frame.
pub open spec fn frame_next(p: PlaybackView, elapsed: i32, due: bool) -> PlaybackView {
    match p.song {
        None => p,
        Some(beats) => {
            let delay = countdown_value(elapsed) as i32;
            match frame_cue(p, elapsed, due) {
                Cue::Play(j) => PlaybackView { song: p.song, current: Some(j), time_delay: delay },
                Cue::Restart => PlaybackView { song: p.song, current: None, time_delay: COUNTDOWN_START },
                _ => PlaybackView { song: p.song, current: p.current, time_delay: delay },
            }
        },
    }
}

/// The notes that a frame releases: those of the beat that starts, if one does.
pub open spec fn frame_notes(p: PlaybackView, elapsed: i32, due: bool) -> Seq<Note> {
    match frame_cue(p, elapsed, due) {
        Cue::Play(j) => notes_of(p.song.unwrap()[j as int]),
        _ => Seq::empty(),
    }
}

/// The state after `n` frames at which the current beat has lasted its time,
/// each `elapsed` whole seconds after the countdown started.
pub open spec fn due_frames(p: PlaybackView, elapsed: i32, n: nat) -> PlaybackView
    decreases n,
{
    if n == 0 {
        p
    } else {
        due_frames(frame_next(p, elapsed, true), elapsed, (n - 1) as nat)
    }
}

/// Frames keep the player valid and never change the loaded song.
pub proof fn lemma_frame_keeps_valid(p: PlaybackView, elapsed: i32, due: bool)
    requires
        valid(p),
        frame_ok(p, elapsed),
    ensures
        valid(frame_next(p, elapsed, due)),
        frame_next(p, elapsed, due).song == p.song,
{
}

/// Without a song, a frame shows nothing and changes nothing.
pub proof fn lemma_idle_without_song(p: PlaybackView, elapsed: i32, due: bool)
    requires
        p.song is None,
    ensures
        frame_cue(p, elapsed, due) == Cue::Idle,
        frame_next(p, elapsed, due) == p,
        frame_notes(p, elapsed, due) == Seq::<Note>::empty(),
{
}

/// Before its first beat, a song counts down whole seconds from
/// `COUNTDOWN_START` to zero, and its first beat starts when the count goes
/// below zero.
pub proof fn lemma_countdown(p: PlaybackView, elapsed: i32, due: bool)
    requires
        p.song is Some,
        p.current is None,
    ensures
        elapsed <= COUNTDOWN_START ==> frame_cue(p, elapsed, due) == Cue::Countdown(
            (COUNTDOWN_START - elapsed) as i32,
        ),
        elapsed > COUNTDOWN_START ==> frame_cue(p, elapsed, due) == Cue::Play(0),
{
}

/// Beats start in order: the first after the countdown, each other one right
/// after the one before it; the countdown starts over only when the last beat
/// has lasted its time.
pub proof fn lemma_beats_in_order(p: PlaybackView, elapsed: i32, due: bool)
    requires
        valid(p),
    ensures
        frame_cue(p, elapsed, due) matches Cue::Play(j) ==> (
            (p.current is None && j == 0)
            || (p.current == Some((j - 1) as usize) && j >= 1 && due)),
        frame_cue(p, elapsed, due) == Cue::Restart ==> (
            due && p.current == Some((p.song.unwrap().len() - 1) as usize)),
{
}

/// A frame at which the sounding beat has not lasted its time holds that beat:
/// it starts no beat, releases no note and keeps the beat sounding.
pub proof fn lemma_hold_until_due(p: PlaybackView, elapsed: i32, i: usize)
    requires
        p.song is Some,
        p.current == Some(i),
    ensures
        frame_cue(p, elapsed, false) == Cue::Hold,
        frame_next(p, elapsed, false).current == Some(i),
        frame_next(p, elapsed, false).song == p.song,
        frame_notes(p, elapsed, false) == Seq::<Note>::empty(),
{
}

/// A sounding beat stops sounding only at a `Restart` cue, which comes only at
/// a frame where the last beat has lasted its time; the countdown then starts
/// over from `COUNTDOWN_START`.
pub proof fn lemma_stop_only_by_restart(p: PlaybackView, elapsed: i32, due: bool)
    requires
        valid(p),
        p.current is Some,
    ensures
        frame_next(p, elapsed, due).current is None ==> (
            frame_cue(p, elapsed, due) == Cue::Restart
            && due
            && p.current == Some((p.song.unwrap().len() - 1) as usize)
            && frame_next(p, elapsed, due).time_delay == COUNTDOWN_START),
        frame_cue(p, elapsed, due) == Cue::Restart ==> frame_next(p, elapsed, due).current is None,
{
}

/// With a song loaded, every frame but a restart sets the countdown number to
/// `COUNTDOWN_START - elapsed`.
pub proof fn lemma_countdown_number(p: PlaybackView, elapsed: i32, due: bool)
    requires
        p.song is Some,
        frame_ok(p, elapsed),
        frame_cue(p, elapsed, due) != Cue::Restart,
    ensures
        frame_next(p, elapsed, due).time_delay == COUNTDOWN_START - elapsed,
{
}

/// A frame that starts beat `j` makes `j` the sounding beat and releases the
/// notes of that beat; any other frame releases no note.
pub proof fn lemma_frame_releases_started_beat(p: PlaybackView, elapsed: i32, due: bool)
    requires
        valid(p),
    ensures
        frame_cue(p, elapsed, due) matches Cue::Play(j) ==> (
            frame_next(p, elapsed, due).current == Some(j)
            && frame_notes(p, elapsed, due) == notes_of(p.song.unwrap()[j as int])),
        !(frame_cue(p, elapsed, due) is Play) ==> frame_notes(p, elapsed, due) == Seq::<Note>::empty(),
{
}

/// A beat releases exactly one note per tone, in the order of its tones: on
/// the tone's key, named by the tone and carrying the beat's lyric.
pub proof fn lemma_one_note_per_tone(beat: Beat)
    ensures
        notes_of(beat).len() == beat.tones@.len(),
        forall|k: int|
            0 <= k < beat.tones@.len() ==> #[trigger] notes_of(beat)[k] == (Note {
                key: beat.tones@[k].key,
                tone: beat.tones@[k].name,
                word: beat.word,
            }),
{
}

/// Once beat `i` sounds, each frame at which the sounding beat has lasted its
/// time starts the next beat: `k` such frames later beat `i + k` sounds.
pub proof fn lemma_play_through(p: PlaybackView, elapsed: i32, i: usize, k: nat)
    requires
        valid(p),
        p.current == Some(i),
        i + k < p.song.unwrap().len(),
    ensures
        due_frames(p, elapsed, k).current == Some((i + k) as usize),
        due_frames(p, elapsed, k).song == p.song,
    decreases k,
{
    if k > 0 {
        let q = frame_next(p, elapsed, true);
        assert(q.current == Some((i + 1) as usize));
        assert(q.song == p.song);
        lemma_play_through(q, elapsed, (i + 1) as usize, (k - 1) as nat);
    }
}

/// Once beat `i` sounds, as many frames at which the sounding beat has lasted
/// its time as there are beats from `i` to the end bring the player back to
/// the start of its countdown, with the same song.
pub proof fn lemma_restart_after_last(p: PlaybackView, elapsed: i32, i: usize)
    requires
        valid(p),
        p.current == Some(i),
    ensures
        ({
            let last = due_frames(p, elapsed, (p.song.unwrap().len() - i) as nat);
            &&& last.current is None
            &&& last.time_delay == COUNTDOWN_START
            &&& last.song == p.song
        }),
    decreases p.song.unwrap().len() - i,
{
    let len = p.song.unwrap().len();
    let q = frame_next(p, elapsed, true);
    assert(q.song == p.song);
    if i + 1 < len {
        assert(q.current == Some((i + 1) as usize));
        lemma_restart_after_last(q, elapsed, (i + 1) as usize);
        assert(due_frames(p, elapsed, (len - i) as nat) == due_frames(
            q,
            elapsed,
            (len - (i + 1)) as nat,
        ));
    } else {
        assert(due_frames(p, elapsed, 1) == due_frames(q, elapsed, 0));
    }
}

/// The notes of a beat, one per tone.
pub fn notes_for(beat: &Beat) -> (r: Vec<Note>)
    ensures
        r@ == notes_of(*beat),
        r@.len() == beat.tones@.len(),
        forall|k: int|
            0 <= k < beat.tones@.len() ==> #[trigger] r@[k] == (Note {
                key: beat.tones@[k].key,
                tone: beat.tones@[k].name,
                word: beat.word,
            }),
{
    let mut r: Vec<Note> = Vec::new();
    let mut i: usize = 0;
    while i < beat.tones.len()
        invariant
            i <= beat.tones@.len(),
            r@ == notes_of(*beat).take(i as int),
        decreases beat.tones@.len() - i,
    {
        let t = &beat.tones[i];
        r.push(Note { key: t.key, tone: t.name.clone(), word: beat.word.clone() });
        proof {
            assert(notes_of(*beat).take(i + 1) =~= notes_of(*beat).take(i as int).push(
                notes_of(*beat)[i as int],
            ));
        }
        i = i + 1;
    }
    proof {
        assert(notes_of(*beat).take(i as int) =~= notes_of(*beat));
        lemma_one_note_per_tone(*beat);
    }
    r
}

/// The player of a song.
pub struct Playback {
    song: Option<Vec<Beat>>,
    current: Option<usize>,
    time_delay: i32,
}

impl View for Playback {
    type V = PlaybackView;

    closed spec fn view(&self) -> PlaybackView {
        PlaybackView {
            song: match self.song {
                Some(v) => Some(v@),
                None => None,
            },
            current: self.current,
            time_delay: self.time_delay,
        }
    }
}

impl Playback {
    #[verifier::type_invariant]
    spec fn inv(self) -> bool {
        &&& self.current matches Some(i) ==> (self.song matches Some(beats) && i < beats.len())
        &&& self.song matches Some(beats) ==> beats@.len() <= usize::MAX
    }

    /// A player with no song, whose countdown would start at its first number.
    pub fn new() -> (r: Playback)
        ensures
            r@.song is None,
            r@.current is None,
            r@.time_delay == COUNTDOWN_START,
            valid(r@),
    {
        Playback { song: None, current: None, time_delay: COUNTDOWN_START }
    }

    /// Loads a song: its countdown starts over from its first number.
    pub fn load(&mut self, beats: Vec<Beat>)
        ensures
            final(self)@.song == Some(beats@),
            final(self)@.current is None,
            final(self)@.time_delay == COUNTDOWN_START,
            valid(final(self)@),
    {
        proof {
            use_type_invariant(&*self);
            assert(beats@.len() == beats.len());
        }
        self.current = None;
        self.song = Some(beats);
        self.time_delay = COUNTDOWN_START;
    }

    /// Whether a song is loaded.
    pub fn has_song(&self) -> (r: bool)
        ensures
            r == self@.song is Some,
    {
        self.song.is_some()
    }

    /// The number of beats of the loaded song, if any.
    pub fn beat_count(&self) -> (r: Option<usize>)
        ensures
            r == (match self@.song {
                Some(beats) => Some(beats.len() as usize),
                None => None::<usize>,
            }),
    {
        match &self.song {
            Some(beats) => Some(beats.len()),
            None => None,
        }
    }

    /// The index of the beat that sounds, or `None` during the countdown;
    /// an index is always one of the loaded song.
    pub fn current(&self) -> (r: Option<usize>)
        ensures
            r == self@.current,
            r matches Some(i) ==> (self@.song matches Some(beats) && i < beats.len()),
    {
        proof {
            use_type_invariant(self);
        }
        self.current
    }

    /// The number that the countdown shows.
    pub fn time_delay(&self) -> (r: i32)
        ensures
            r == self@.time_delay,
    {
        self.time_delay
    }

    /// Handles a frame `elapsed` whole seconds after the countdown started;
    /// `due` tells whether the current beat has lasted its time. Returns what
    /// the frame shows and the notes that it releases.
    pub fn on_frame(&mut self, elapsed: i32, due: bool) -> (r: (Cue, Vec<Note>))
        requires
            frame_ok(old(self)@, elapsed),
        ensures
            r.0 == frame_cue(old(self)@, elapsed, due),
            r.1@ == frame_notes(old(self)@, elapsed, due),
            final(self)@ == frame_next(old(self)@, elapsed, due),
            valid(final(self)@),
            final(self)@.song == old(self)@.song,
            (old(self)@.song is Some && old(self)@.current is Some && !due) ==> (
                r.0 == Cue::Hold && final(self)@.current == old(self)@.current && r.1@.len() == 0),
            (old(self)@.current is Some && final(self)@.current is None) ==> r.0 == Cue::Restart,
            r.0 is Play ==> final(self)@.current == Some(r.0->Play_0),
    {
        proof {
            use_type_invariant(&*self);
        }
        match &self.song {
            None => (Cue::Idle, Vec::new()),
            Some(beats) => {
                let delay: i32 = COUNTDOWN_START - elapsed;
                match self.current {
                    None => {
                        if delay < 0 {
                            let notes = notes_for(&beats[0]);
                            self.current = Some(0);
                            self.time_delay = delay;
                            (Cue::Play(0), notes)
                        } else {
                            self.time_delay = delay;
                            (Cue::Countdown(delay), Vec::new())
                        }
                    },
                    Some(i) => {
                        if !due {
                            self.time_delay = delay;
                            (Cue::Hold, Vec::new())
                        } else if i + 1 < beats.len() {
                            let notes = notes_for(&beats[i + 1]);
                            self.current = Some(i + 1);
                            self.time_delay = delay;
                            (Cue::Play(i + 1), notes)
                        } else {
                            self.current = None;
                            self.time_delay = COUNTDOWN_START;
                            (Cue::Restart, Vec::new())
                        }
                    },
                }
            },
        }
    }
}

} // verus!
