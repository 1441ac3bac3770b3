use metronome::engine::{
    BeatCommand, Message, MetroState, Metronome, MetronomeSettings, Reaction,
};

fn running(bar: u32, accent: bool) -> Metronome {
    let mut m = Metronome::new(MetronomeSettings { bar, bpm: 100, accentuate_first_beat: accent, off_beats: false, volume: 100 });
    assert_eq!(m.update(Message::Toggle), Reaction::SynthesizeBeat);
    m
}

#[test]
fn default_settings() {
    let s = MetronomeSettings::default();
    assert_eq!(s.bar, 4);
    assert_eq!(s.bpm, 100);
    assert!(s.accentuate_first_beat);
    assert!(!s.off_beats);
    assert_eq!(s.volume, 100);
}

#[test]
fn new_metronome_is_stopped() {
    let m = Metronome::new(MetronomeSettings::default());
    assert_eq!(m.state, MetroState::Stopped);
    assert_eq!(m.bar, 4);
    assert_eq!(m.bpm, 100);
    assert_eq!(m.current_beat(), None);
}

#[test]
fn start_behavior() {
    // Starting with a bar of 4 and the accent on immediately yields one
    // synthesized beat, which plays the accent, and leaves the state
    // awaiting the first beat of a new bar.
    let mut m = Metronome::new(MetronomeSettings { bar: 4, bpm: 100, accentuate_first_beat: true, off_beats: false, volume: 100 });
    assert_eq!(m.update(Message::Toggle), Reaction::SynthesizeBeat);
    assert_eq!(m.state, MetroState::Beat(3));
    assert_eq!(m.update(Message::Beat), Reaction::Play(BeatCommand::AccentBeat));
    assert_eq!(m.state, MetroState::FirstBeat);
}

#[test]
fn bar_wrap_cycles_positions() {
    // With a bar of 3, positions cycle 0, 1, 2, 0, 1, 2, ... and the state
    // returns to FirstBeat exactly once per three beats.
    let mut m = running(3, false);
    let mut wraps = 0;
    let mut positions = Vec::new();
    for _ in 0..9 {
        m.update(Message::Beat);
        if m.state == MetroState::FirstBeat {
            wraps += 1;
        }
        positions.push(m.current_beat().unwrap());
    }
    assert_eq!(positions, vec![0, 1, 2, 0, 1, 2, 0, 1, 2]);
    assert_eq!(wraps, 3);
}

#[test]
fn accent_exactly_at_wrap() {
    let mut m = running(4, true);
    let mut commands = Vec::new();
    for _ in 0..8 {
        commands.push(m.update(Message::Beat));
    }
    let accent = Reaction::Play(BeatCommand::AccentBeat);
    let plain = Reaction::Play(BeatCommand::PlainBeat);
    assert_eq!(commands, vec![accent, plain, plain, plain, accent, plain, plain, plain]);
}

#[test]
fn no_accent_when_disabled() {
    let mut m = running(4, false);
    for _ in 0..8 {
        assert_eq!(m.update(Message::Beat), Reaction::Play(BeatCommand::PlainBeat));
    }
}

#[test]
fn off_beats_do_not_interfere() {
    let mut m = running(4, true);
    m.update(Message::Beat);
    let before = m;
    for _ in 0..5 {
        assert_eq!(m.update(Message::OffBeat), Reaction::Play(BeatCommand::OffBeat));
        assert_eq!(m.state, before.state);
        assert_eq!(m.current_beat(), before.current_beat());
    }
    assert_eq!(m, before);
}

#[test]
fn stop_is_idempotent() {
    let mut m = Metronome::new(MetronomeSettings::default());
    assert_eq!(m.state, MetroState::Stopped);
    // Stop while already stopped: no command, no queue write.
    assert_eq!(m.update(Message::Stop), Reaction::Silent);
    assert_eq!(m.state, MetroState::Stopped);
    // Stop while running returns to Stopped, also silently.
    m.update(Message::Toggle);
    assert_ne!(m.state, MetroState::Stopped);
    assert_eq!(m.update(Message::Stop), Reaction::Silent);
    assert_eq!(m.state, MetroState::Stopped);
}

#[test]
fn toggle_stops_a_running_metronome() {
    let mut m = running(4, true);
    assert_eq!(m.update(Message::Toggle), Reaction::Silent);
    assert_eq!(m.state, MetroState::Stopped);
    assert_eq!(m.current_beat(), None);
}

#[test]
fn configuration_updates_are_pure_assignments() {
    let mut m = running(4, true);
    let state = m.state;
    assert_eq!(m.update(Message::BPMUpdate(180)), Reaction::Silent);
    assert_eq!(m.bpm, 180);
    assert_eq!(m.update(Message::BarUpdate(7)), Reaction::Silent);
    assert_eq!(m.bar, 7);
    assert_eq!(m.update(Message::FirstBeats(false)), Reaction::Silent);
    assert!(!m.accentuate_first_beat);
    assert_eq!(m.update(Message::OffBeats(true)), Reaction::Silent);
    assert!(m.off_beats);
    assert_eq!(m.update(Message::SetVolume(250)), Reaction::ForwardVolume(250));
    assert_eq!(m.volume, 250);
    // None of them moved the run state.
    assert_eq!(m.state, state);
}

#[test]
fn shrinking_the_bar_wraps_on_the_next_beat() {
    // A bar change takes effect on the next wrap decision: a position
    // already past the new last beat wraps immediately, it is never
    // retroactively corrected.
    let mut m = running(8, true);
    for _ in 0..6 {
        m.update(Message::Beat);
    }
    assert_eq!(m.state, MetroState::Beat(5));
    m.update(Message::BarUpdate(4));
    assert_eq!(m.state, MetroState::Beat(5));
    assert_eq!(m.update(Message::Beat), Reaction::Play(BeatCommand::AccentBeat));
    assert_eq!(m.state, MetroState::FirstBeat);
}

#[test]
fn single_beat_bar() {
    // The smallest bar: every beat is a wrap, so the accent alternates with
    // the plain click that leaves FirstBeat.
    let mut m = running(1, true);
    assert_eq!(m.state, MetroState::Beat(0));
    assert_eq!(m.update(Message::Beat), Reaction::Play(BeatCommand::AccentBeat));
    assert_eq!(m.state, MetroState::FirstBeat);
    assert_eq!(m.update(Message::Beat), Reaction::Play(BeatCommand::PlainBeat));
    assert_eq!(m.state, MetroState::Beat(1));
    assert_eq!(m.update(Message::Beat), Reaction::Play(BeatCommand::AccentBeat));
}
