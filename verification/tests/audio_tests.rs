use pixel_engine::audio::{
    simple_hash, AudioChannel, AudioChannelData, AudioChannelId, AudioWrapper,
    DEFAULT_CHANNEL_VOLUME,
};
use pixel_engine::fixed::{AMP_LIMIT, FRAC_ONE};
use pixel_engine::key::Key;

fn reference_hash(x: u32) -> u32 {
    let x = x.wrapping_mul(x ^ 0x84da2122) ^ 0x41b6b602;
    x.wrapping_mul(x ^ 0x2eecbb95) ^ 0x67d37dec
}

#[test]
fn simple_hash_matches_reference() {
    assert_eq!(simple_hash(0), reference_hash(0));
    assert_eq!(simple_hash(1), reference_hash(1));
    assert_eq!(simple_hash(1), 838898392);
    assert_eq!(simple_hash(0xdeadbeef), reference_hash(0xdeadbeef));
}

#[test]
fn channel_id_none_is_zero() {
    assert_eq!(AudioChannelId::none(), AudioChannelId(0));
}

#[test]
fn wavetable_same_cell_returns_entry_exactly() {
    // A slow pitch never leaves the first cell on the first sample, so the
    // oscillator returns the raw entry with no blending.
    let entry: i64 = 5 << 30;
    let mut ch = AudioChannel::synth(44100, vec![entry, -entry, 0, 7]);
    ch.play_pitch(440 * FRAC_ONE);
    ch.set_channel_volume(FRAC_ONE);
    let s = ch.next_sample();
    assert_eq!(s, entry);
}

#[test]
fn first_sample_of_two_entry_table_is_negative_gain() {
    // End to end: a [-1.0, 1.0] table played at a pitch that stays inside
    // the first cell yields exactly -1.0 * channel_volume on sample one.
    let mut mixer = AudioWrapper::new(44100, 1);
    let id = mixer.add_synth_channel(vec![-FRAC_ONE, FRAC_ONE]);
    assert_eq!(id, AudioChannelId(0));
    mixer.get_channel(id).play_pitch(440 * FRAC_ONE);
    let s = mixer.next_sample();
    assert_eq!(s, -DEFAULT_CHANNEL_VOLUME);
    assert_eq!(s, -214748364);
}

#[test]
fn exhausted_envelope_silences_and_stops() {
    let mut ch = AudioChannel::synth(44100, vec![FRAC_ONE]);
    ch.play();
    ch.set_volume(0);
    assert!(!ch.stopped);
    let s = ch.next_sample();
    assert_eq!(s, 0);
    assert!(ch.stopped);
    // and it stays silent afterwards
    assert_eq!(ch.next_sample(), 0);
    assert!(ch.stopped);
}

#[test]
fn volume_sweep_reaches_target_within_tolerance() {
    // One second at 100 samples per second: after exactly 100 samples the
    // envelope sits within 100 fixed-point quanta of the target.
    let mut ch = AudioChannel::synth(100, vec![FRAC_ONE]);
    ch.play_pitch(FRAC_ONE);
    assert_eq!(ch.note_volume, FRAC_ONE);
    ch.volume_sweep(0, FRAC_ONE);
    assert_eq!(ch.volume_sweep, -42949672);
    for _ in 0..100 {
        ch.next_sample();
    }
    assert_eq!(ch.note_volume, 96);
    assert!((ch.note_volume - 0).abs() < 100);
}

#[test]
fn volume_sweep_zero_seconds_jumps_to_target() {
    let mut ch = AudioChannel::synth(44100, vec![FRAC_ONE]);
    ch.play();
    ch.volume_sweep(FRAC_ONE / 2, 0);
    assert_eq!(ch.note_volume, FRAC_ONE / 2);
    assert_eq!(ch.volume_sweep, 0);
}

#[test]
fn volume_sweep_zero_rate_jumps_to_target() {
    // A channel without a device (rate zero) cannot divide by the ramp
    // length; the sweep degenerates to an instantaneous jump.
    let mut ch = AudioChannel::default();
    ch.volume_sweep(7, FRAC_ONE);
    assert_eq!(ch.note_volume, 7);
    assert_eq!(ch.volume_sweep, 0);
}

#[test]
fn pitch_sweep_zero_seconds_jumps_to_target() {
    let mut ch = AudioChannel::synth(440, vec![FRAC_ONE]);
    ch.play();
    ch.pitch_sweep(0, 0);
    // note 0 is A440; at a 440 Hz sample rate the phase increment is one
    // whole cycle per sample
    assert_eq!(ch.pitch, FRAC_ONE);
    assert_eq!(ch.pitch_sweep, 0);
}

#[test]
fn play_note_octave_doubles_pitch() {
    let mut ch = AudioChannel::synth(440, vec![FRAC_ONE]);
    ch.play_note(0);
    let base = ch.pitch;
    ch.play_note(12);
    assert_eq!(base, FRAC_ONE);
    assert_eq!(ch.pitch, 2 * FRAC_ONE);
}

#[test]
fn play_note_matches_play_pitch_for_a440() {
    let mut a = AudioChannel::synth(44100, vec![FRAC_ONE]);
    let mut b = AudioChannel::synth(44100, vec![FRAC_ONE]);
    a.play_note(0);
    b.play_pitch(440 * FRAC_ONE);
    assert_eq!(a.pitch, b.pitch);
    assert_eq!(a.pitch, 42852281);
}

#[test]
fn set_volume_saturates_at_limit() {
    let mut ch = AudioChannel::synth(44100, vec![FRAC_ONE]);
    ch.set_volume(i64::MAX);
    assert_eq!(ch.note_volume, AMP_LIMIT);
    ch.set_volume(i64::MIN);
    assert_eq!(ch.note_volume, -AMP_LIMIT);
}

#[test]
fn noise_channel_steps_register_on_cycle_boundary() {
    let seed: u32 = 7;
    let mut ch = AudioChannel::noise(1, seed);
    ch.play_pitch(FRAC_ONE);
    ch.set_channel_volume(FRAC_ONE);
    // phase 0 -> 1: the register steps, but the whole step lies before the
    // boundary, so the old (zero) value is heard
    let s1 = ch.next_sample();
    assert_eq!(s1, 0);
    let expected_lfsr = (seed >> 1) | (((seed >> 3) ^ seed) << 31);
    let expected_value = if expected_lfsr & 1 == 0 { FRAC_ONE } else { -FRAC_ONE };
    match ch.data {
        AudioChannelData::Noise { lfsr, last_value } => {
            assert_eq!(lfsr, expected_lfsr);
            assert_eq!(last_value, expected_value);
        },
        _ => panic!("noise channel changed kind"),
    }
    // the second sample hears the value the first step produced
    let s2 = ch.next_sample();
    assert_eq!(s2, expected_value);
}

#[test]
fn mixer_sums_all_channels() {
    let mut mixer = AudioWrapper::new(100, 1);
    let a = mixer.add_synth_channel(vec![FRAC_ONE]);
    let b = mixer.add_synth_channel(vec![FRAC_ONE]);
    assert_eq!(a, AudioChannelId(0));
    assert_eq!(b, AudioChannelId(1));
    for id in [a, b] {
        let ch = mixer.get_channel(id);
        ch.play();
        ch.set_channel_volume(FRAC_ONE);
    }
    // each channel contributes exactly 1.0
    assert_eq!(mixer.next_sample(), 2 * FRAC_ONE);
}

#[test]
fn render_frames_produces_per_sample_mix() {
    let mut mixer = AudioWrapper::new(100, 1);
    let id = mixer.add_synth_channel(vec![FRAC_ONE]);
    {
        let ch = mixer.get_channel(id);
        ch.play();
        ch.set_channel_volume(FRAC_ONE);
    }
    let frames = mixer.render_frames(4);
    assert_eq!(frames, vec![FRAC_ONE; 4]);
}

#[test]
fn inactive_mixer_absorbs_commands() {
    let mut mixer = AudioWrapper::inactive();
    assert!(!mixer.is_active());
    let a = mixer.add_synth_channel(vec![FRAC_ONE, -FRAC_ONE]);
    let b = mixer.add_noise_channel();
    assert_eq!(a, AudioChannelId(0));
    assert_eq!(b, AudioChannelId(0));
    assert!(mixer.channels.is_empty());
    // commands against any id land in the stand-in channel and are silent
    let ch = mixer.get_channel(AudioChannelId(42));
    ch.play_note(0);
    ch.set_volume(FRAC_ONE);
    assert_eq!(mixer.next_sample(), 0);
}

#[test]
fn active_mixer_tracks_channel_mutations() {
    let mut mixer = AudioWrapper::new(44100, 9);
    let id = mixer.add_noise_channel();
    mixer.get_channel(id).set_volume(1234);
    assert_eq!(mixer.channels[0].note_volume, 1234);
}

#[test]
fn stop_keeps_assigned_sound() {
    let mut ch = AudioChannel::synth(44100, vec![FRAC_ONE]);
    ch.play();
    ch.stop();
    assert!(ch.stopped);
    assert_eq!(ch.note_volume, FRAC_ONE);
    assert_eq!(ch.osc_timer, 0);
    assert!(matches!(ch.data, AudioChannelData::Wavetable { .. }));
    assert_eq!(ch.next_sample(), 0);
}

#[test]
fn key_char_round_trip_all_bytes() {
    let mut mapped = 0;
    for b in 0u8..=255 {
        if let Some(k) = Key::from_char(b) {
            assert_eq!(k.to_char(), Some(b));
            mapped += 1;
        }
    }
    // ten digits, twenty-six letters, ten punctuation marks
    assert_eq!(mapped, 46);
}

#[test]
fn key_to_char_round_trip() {
    assert_eq!(Key::from_char(b'a'), Some(Key::A));
    assert_eq!(Key::A.to_char(), Some(b'a'));
    assert_eq!(Key::from_char(b'0'), Some(Key::Num0));
    assert_eq!(Key::Num0.to_char(), Some(b'0'));
    assert_eq!(Key::from_char(b' '), None);
    assert_eq!(Key::Space.to_char(), None);
    assert_eq!(Key::F5.to_char(), None);
}
