//! The beat state machine: it consumes classified tick events and control
//! messages, advances the position within the bar, and says which click the
//! audio worker must play next.

use vstd::prelude::*;

verus! {

/// Which click the audio worker should play for one event.
#[derive(Clone, Copy, Debug, PartialEq, Eq, Structural)]
pub enum BeatCommand {
    /// An ordinary beat click.
    PlainBeat,
    /// The distinguished click for the first beat of a bar.
    AccentBeat,
    /// The click halfway between two beats, when subdivision is on.
    OffBeat,
}

/// Where the metronome stands.  `FirstBeat` means the bar just wrapped and
/// the next beat event is beat 0 of a new bar; `Beat(p)` means beat `p` was
/// the last one played (or is about to be played).  `Stopped` is the only
/// state in which no timer runs.
#[derive(Clone, Copy, Debug, PartialEq, Eq, Structural)]
pub enum MetroState {
    Stopped,
    FirstBeat,
    Beat(u32),
}

/// A control or tick message delivered to the state machine.
#[derive(Clone, Copy, Debug)]
pub enum Message {
    /// Start when stopped, stop when running.
    Toggle,
    /// Stop; a no-op when already stopped.
    Stop,
    /// A tick classified as a main beat.
    Beat,
    /// A tick classified as an off-beat.
    OffBeat,
    /// New tempo in beats per minute.
    BPMUpdate(u32),
    /// New bar length in beats.
    BarUpdate(u32),
    /// Whether the first beat of each bar is accented.
    FirstBeats(bool),
    /// Whether off-beat subdivision is on.
    OffBeats(bool),
    /// New volume, in hundredths of the amplitude multiplier.
    SetVolume(u32),
}

/// What the shell must do after one step of the state machine.
#[derive(Clone, Copy, Debug, PartialEq, Eq, Structural)]
pub enum Reaction {
    /// Nothing to emit: no command, no queue write.
    Silent,
    /// Feed one `Message::Beat` back immediately, without waiting for the
    /// timer, so the first click sounds the instant the metronome starts.
    SynthesizeBeat,
    /// Enqueue this command to the audio worker.
    Play(BeatCommand),
    /// Forward this volume to the audio worker on its own queue.
    ForwardVolume(u32),
}

/// The state owned by the metronome: configuration plus run state.
#[derive(Clone, Copy, Debug, PartialEq, Eq, Structural)]
pub struct Metronome {
    /// Beats per bar; positive.
    pub bar: u32,
    /// Beats per minute; positive.
    pub bpm: u32,
    /// Run state and position within the bar.
    pub state: MetroState,
    /// Accent the first beat of each bar.
    pub accentuate_first_beat: bool,
    /// Sound an extra click halfway between beats.
    pub off_beats: bool,
    /// Amplitude multiplier in hundredths; positive.
    pub volume: u32,
}

/// Configuration the metronome starts from.
pub struct MetronomeSettings {
    pub bar: u32,
    pub bpm: u32,
    pub accentuate_first_beat: bool,
    pub off_beats: bool,
    /// Amplitude multiplier in hundredths.
    pub volume: u32,
}

impl Default for MetronomeSettings {
    /// 4 beats per bar at 100 BPM, accented first beat, no subdivision,
    /// unit volume.
    fn default() -> (s: Self)
        ensures
            s.bar == 4,
            s.bpm == 100,
            s.accentuate_first_beat,
            !s.off_beats,
            s.volume == 100,
    {
        MetronomeSettings { bar: 4, bpm: 100, accentuate_first_beat: true, off_beats: false, volume: 100 }
    }
}

/// A message whose payload lies in the range the data model allows.
pub open spec fn msg_wf(msg: Message) -> bool {
    match msg {
        Message::BPMUpdate(v) => v >= 1,
        Message::BarUpdate(v) => v >= 1,
        Message::SetVolume(v) => v >= 1,
        _ => true,
    }
}

/// One beat event: wrap to `FirstBeat` when the position has reached the
/// last beat of the bar (accented if configured), advance otherwise.
pub open spec fn step_beat(pre: Metronome) -> (Metronome, Reaction) {
    match pre.state {
        MetroState::FirstBeat => (
            Metronome { state: MetroState::Beat(1), ..pre },
            Reaction::Play(BeatCommand::PlainBeat),
        ),
        MetroState::Beat(b) => if b >= pre.bar - 1 {
            (
                Metronome { state: MetroState::FirstBeat, ..pre },
                Reaction::Play(
                    if pre.accentuate_first_beat { BeatCommand::AccentBeat } else { BeatCommand::PlainBeat },
                ),
            )
        } else {
            (
                Metronome { state: MetroState::Beat((b + 1) as u32), ..pre },
                Reaction::Play(BeatCommand::PlainBeat),
            )
        },
        MetroState::Stopped => (pre, Reaction::Silent),
    }
}

/// The whole transition relation: next state and the reaction owed to the
/// shell, for every message.  Configuration messages are pure field
/// assignments and never a transition of the run state.
pub open spec fn step(pre: Metronome, msg: Message) -> (Metronome, Reaction) {
    match msg {
        Message::Toggle => if pre.state is Stopped {
            (
                Metronome { state: MetroState::Beat((pre.bar - 1) as u32), ..pre },
                Reaction::SynthesizeBeat,
            )
        } else {
            (Metronome { state: MetroState::Stopped, ..pre }, Reaction::Silent)
        },
        Message::Stop => (Metronome { state: MetroState::Stopped, ..pre }, Reaction::Silent),
        Message::Beat => step_beat(pre),
        Message::OffBeat => (pre, Reaction::Play(BeatCommand::OffBeat)),
        Message::BPMUpdate(v) => (Metronome { bpm: v, ..pre }, Reaction::Silent),
        Message::BarUpdate(v) => (Metronome { bar: v, ..pre }, Reaction::Silent),
        Message::FirstBeats(v) => (Metronome { accentuate_first_beat: v, ..pre }, Reaction::Silent),
        Message::OffBeats(v) => (Metronome { off_beats: v, ..pre }, Reaction::Silent),
        Message::SetVolume(v) => (Metronome { volume: v, ..pre }, Reaction::ForwardVolume(v)),
    }
}

impl Metronome {
    /// The data model's bounds: bar length, tempo and volume are positive.
    pub open spec fn wf(self) -> bool {
        self.bar >= 1 && self.bpm >= 1 && self.volume >= 1
    }

    /// A stopped metronome with the given configuration.
    pub fn new(settings: MetronomeSettings) -> (m: Metronome)
        ensures
            m.state is Stopped,
            m.bar == settings.bar,
            m.bpm == settings.bpm,
            m.accentuate_first_beat == settings.accentuate_first_beat,
            m.off_beats == settings.off_beats,
            m.volume == settings.volume,
    {
        Metronome {
            bar: settings.bar,
            bpm: settings.bpm,
            state: MetroState::Stopped,
            accentuate_first_beat: settings.accentuate_first_beat,
            off_beats: settings.off_beats,
            volume: settings.volume,
        }
    }

    /// Advance by one message and return the reaction owed to the shell.
    ///
    /// Tick events (`Beat`, `OffBeat`) may only arrive while running: the
    /// tick generator is scheduled exactly when the state is not `Stopped`.
    pub fn update(&mut self, msg: Message) -> (r: Reaction)
        requires
            old(self).wf(),
            msg_wf(msg),
            (msg is Beat || msg is OffBeat) ==> !(old(self).state is Stopped),
        ensures
            (*final(self), r) == step(*old(self), msg),
            final(self).wf(),
    {
        match msg {
            Message::Toggle => {
                if let MetroState::Stopped = self.state {
                    self.state = MetroState::Beat(self.bar - 1);
                    Reaction::SynthesizeBeat
                } else {
                    self.state = MetroState::Stopped;
                    Reaction::Silent
                }
            },
            Message::Stop => {
                self.state = MetroState::Stopped;
                Reaction::Silent
            },
            Message::Beat => {
                match self.state {
                    MetroState::FirstBeat => {
                        self.state = MetroState::Beat(1);
                        Reaction::Play(BeatCommand::PlainBeat)
                    },
                    MetroState::Beat(b) => {
                        if b >= self.bar - 1 {
                            self.state = MetroState::FirstBeat;
                            Reaction::Play(
                                if self.accentuate_first_beat {
                                    BeatCommand::AccentBeat
                                } else {
                                    BeatCommand::PlainBeat
                                },
                            )
                        } else {
                            self.state = MetroState::Beat(b + 1);
                            Reaction::Play(BeatCommand::PlainBeat)
                        }
                    },
                    MetroState::Stopped => Reaction::Silent,
                }
            },
            Message::OffBeat => Reaction::Play(BeatCommand::OffBeat),
            Message::BPMUpdate(v) => {
                self.bpm = v;
                Reaction::Silent
            },
            Message::BarUpdate(v) => {
                self.bar = v;
                Reaction::Silent
            },
            Message::FirstBeats(v) => {
                self.accentuate_first_beat = v;
                Reaction::Silent
            },
            Message::OffBeats(v) => {
                self.off_beats = v;
                Reaction::Silent
            },
            Message::SetVolume(v) => {
                self.volume = v;
                Reaction::ForwardVolume(v)
            },
        }
    }

    /// The bar position to display: `FirstBeat` shows as beat 0, `Beat(p)`
    /// as beat `p`, and a stopped metronome shows none.
    pub open spec fn spec_current_beat(self) -> Option<u32> {
        match self.state {
            MetroState::Beat(p) => Some(p),
            MetroState::FirstBeat => Some(0u32),
            MetroState::Stopped => None,
        }
    }

    /// The bar position to display, if running.
    pub fn current_beat(&self) -> (r: Option<u32>)
        ensures
            r == self.spec_current_beat(),
    {
        match self.state {
            MetroState::Beat(p) => Some(p),
            MetroState::FirstBeat => Some(0),
            MetroState::Stopped => None,
        }
    }
}

/// The metronome after `k` consecutive `Beat` events.
pub open spec fn after_beats(m: Metronome, k: nat) -> Metronome
    decreases k,
{
    if k == 0 {
        m
    } else {
        step(after_beats(m, (k - 1) as nat), Message::Beat).0
    }
}

/// The metronome after `k` consecutive `OffBeat` events.
pub open spec fn after_off_beats(m: Metronome, k: nat) -> Metronome
    decreases k,
{
    if k == 0 {
        m
    } else {
        step(after_off_beats(m, (k - 1) as nat), Message::OffBeat).0
    }
}

/// Whether the next beat event will wrap the bar.
pub open spec fn at_wrap(m: Metronome) -> bool {
    match m.state {
        MetroState::Beat(b) => b >= m.bar - 1,
        _ => false,
    }
}

/// Law: driving a bar of length `n >= 2` from its last beat with `k`
/// consecutive beat events leaves the configuration untouched and puts the
/// position at `(k - 1) % n`: the state is `FirstBeat` exactly once per `n`
/// events (when that remainder is 0) and `Beat((k - 1) % n)` otherwise, so
/// the displayed position cycles `0, 1, ..., n - 1, 0, 1, ...` forever.
pub proof fn lemma_bar_wrap(m: Metronome, k: nat)
    requires
        m.wf(),
        m.bar >= 2,
        m.state == MetroState::Beat((m.bar - 1) as u32),
        k >= 1,
    ensures
        ({
            let j = (k - 1) as int % (m.bar as int);
            &&& after_beats(m, k) == (if j == 0 {
                Metronome { state: MetroState::FirstBeat, ..m }
            } else {
                Metronome { state: MetroState::Beat(j as u32), ..m }
            })
            &&& after_beats(m, k).spec_current_beat() == Some(j as u32)
        }),
    decreases k,
{
    let n = m.bar as int;
    if k == 1 {
        vstd::arithmetic::div_mod::lemma_small_mod(0, m.bar as nat);
    } else {
        lemma_bar_wrap(m, (k - 1) as nat);
        let jp = (k - 2) as int % n;
        vstd::arithmetic::div_mod::lemma_mod_division_less_than_divisor((k - 2) as int, n);
        vstd::arithmetic::div_mod::lemma_add_mod_noop((k - 2) as int, 1, n);
        vstd::arithmetic::div_mod::lemma_small_mod(1, m.bar as nat);
        if jp + 1 < n {
            vstd::arithmetic::div_mod::lemma_small_mod((jp + 1) as nat, m.bar as nat);
        } else {
            vstd::arithmetic::div_mod::lemma_mod_self_0(n);
        }
    }
}

/// Law: the accent command is issued exactly when a beat event arrives with
/// the accent configured and the position about to wrap; every other beat
/// event on a running metronome yields the plain click; with the accent off
/// no accent command is ever issued.
pub proof fn lemma_accent_correctness(m: Metronome, msg: Message)
    ensures
        step(m, msg).1 == Reaction::Play(BeatCommand::AccentBeat) <==> (msg is Beat
            && m.accentuate_first_beat && at_wrap(m)),
        (msg is Beat && !(m.state is Stopped) && !(m.accentuate_first_beat && at_wrap(m)))
            ==> step(m, msg).1 == Reaction::Play(BeatCommand::PlainBeat),
        !m.accentuate_first_beat ==> step(m, msg).1 != Reaction::Play(BeatCommand::AccentBeat),
{
}

/// Law: off-beat events never change the state — neither the position nor
/// the first-beat marker nor any configuration — however many arrive
/// between two beats, and each one emits exactly the off-beat command.
pub proof fn lemma_off_beat_non_interference(m: Metronome, k: nat)
    ensures
        after_off_beats(m, k) == m,
        step(m, Message::OffBeat).0 == m,
        step(m, Message::OffBeat).1 == Reaction::Play(BeatCommand::OffBeat),
    decreases k,
{
    if k > 0 {
        lemma_off_beat_non_interference(m, (k - 1) as nat);
    }
}

/// Law: stop while already stopped is a no-op: the state is unchanged and
/// nothing is emitted, so no queue is written.
pub proof fn lemma_stop_idempotent(m: Metronome)
    requires
        m.state is Stopped,
    ensures
        step(m, Message::Stop).0 == m,
        step(m, Message::Stop).1 == Reaction::Silent,
{
}

} // verus!
