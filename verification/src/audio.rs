//! The sample-synchronous audio synthesizer: per-channel oscillators
//! (wavetable playback and shift-register noise) with box-filtered
//! interpolation, linear envelope sweeps, and a mixer that sums all channels
//! into one signal.
//!
//! All signal values are signed 32.32 fixed point (`FRAC_ONE` is an amplitude
//! of 1.0, or one oscillator cycle of phase). Envelope updates saturate at
//! `AMP_LIMIT` / `PITCH_LIMIT` instead of overflowing. The audio device
//! itself (format negotiation, the callback thread, conversion of the mixed
//! signal into the hardware representation) is an external collaborator.
use vstd::prelude::*;

use crate::fixed::{
    clamp_amp, clamp_i64, clamp_pitch, div_trunc, div_trunc_i128, mod_frac, spec_clamp, AMP_LIMIT,
    FRAC_ONE, PITCH_LIMIT,
};

verus! {

/// Stable index of a channel in the mixer; handed out at creation and valid
/// from then on.
#[derive(PartialEq, Eq, Clone, Copy, Hash, Debug, Structural)]
pub struct AudioChannelId(pub u32);

impl AudioChannelId {
    /// The stand-in id handed out while no audio device is active.
    pub fn none() -> (r: Self)
        ensures
            r.0 == 0,
    {
        Self(0)
    }
}

/// Two rounds of multiply-xor mixing; not a good hash but it appears random
/// enough to seed noise channels.
pub open spec fn spec_simple_hash(x: u32) -> u32 {
    let a = vstd::wrapping::u32_specs::wrapping_mul(x, x ^ 0x84da2122u32) ^ 0x41b6b602u32;
    vstd::wrapping::u32_specs::wrapping_mul(a, a ^ 0x2eecbb95u32) ^ 0x67d37decu32
}

pub fn simple_hash(x: u32) -> (r: u32)
    ensures
        r == spec_simple_hash(x),
{
    let a = x.wrapping_mul(x ^ 0x84da2122) ^ 0x41b6b602;
    a.wrapping_mul(a ^ 0x2eecbb95) ^ 0x67d37dec
}

/// The sound assigned to a channel.
pub enum AudioChannelData {
    /// Looping playback of a fixed table of samples.
    Wavetable { table: Vec<i64> },
    /// A 32-bit linear-feedback shift register stepped at every integer phase
    /// boundary; `last_value` is the amplitude of the current bit.
    Noise { lfsr: u32, last_value: i64 },
    /// No sound assigned yet; always silent.
    Empty,
}

/// A usable wavetable: nonempty, indexable by `u32`, entries in amplitude
/// range.
pub open spec fn table_wf(t: Seq<i64>) -> bool {
    &&& 1 <= t.len() <= u32::MAX
    &&& forall|i: int| 0 <= i < t.len() ==> -AMP_LIMIT <= #[trigger] t[i] <= AMP_LIMIT
}

impl AudioChannelData {
    pub open spec fn wf(self) -> bool {
        match self {
            AudioChannelData::Wavetable { table } => table_wf(table@),
            AudioChannelData::Noise { lfsr, last_value } => -FRAC_ONE <= last_value <= FRAC_ONE,
            AudioChannelData::Empty => true,
        }
    }
}

/// One voice: an oscillator plus a linear envelope, advanced exactly one
/// sample per `next_sample` call.
pub struct AudioChannel {
    pub sample_rate: u32,
    /// Master gain of the channel, independent of the envelope.
    pub channel_volume: i64,
    /// Current envelope amplitude.
    pub note_volume: i64,
    /// Per-sample delta added to `note_volume`.
    pub volume_sweep: i64,
    /// Normalized phase increment per sample (frequency / sample rate).
    pub pitch: i64,
    /// Per-sample delta added to `pitch`.
    pub pitch_sweep: i64,
    /// Phase accumulator, always in `[0, FRAC_ONE)`.
    pub osc_timer: i64,
    /// Hard mute; set by `stop` and by envelope exhaustion.
    pub stopped: bool,
    pub data: AudioChannelData,
}

/// The default master gain of a freshly created channel (0.05 in fixed
/// point), leaving headroom when several channels are mixed.
pub const DEFAULT_CHANNEL_VOLUME: i64 = 0x0CCCCCCC;

impl AudioChannel {
    pub open spec fn wf(self) -> bool {
        &&& 0 <= self.osc_timer < FRAC_ONE
        &&& -AMP_LIMIT <= self.channel_volume <= AMP_LIMIT
        &&& -AMP_LIMIT <= self.note_volume <= AMP_LIMIT
        &&& -AMP_LIMIT <= self.volume_sweep <= AMP_LIMIT
        &&& 0 <= self.pitch <= PITCH_LIMIT
        &&& -AMP_LIMIT <= self.pitch_sweep <= AMP_LIMIT
        &&& self.data.wf()
    }

    /// The idle state: stopped, unit envelope, default master gain, no sound.
    pub open spec fn spec_default() -> AudioChannel {
        AudioChannel {
            sample_rate: 0,
            channel_volume: DEFAULT_CHANNEL_VOLUME,
            note_volume: FRAC_ONE,
            volume_sweep: 0,
            pitch: 0,
            pitch_sweep: 0,
            osc_timer: 0,
            stopped: true,
            data: AudioChannelData::Empty,
        }
    }

    pub fn with_sample_rate(sample_rate: u32) -> (r: Self)
        ensures
            r == (AudioChannel { sample_rate, ..Self::spec_default() }),
            r.wf(),
    {
        Self { sample_rate, ..Self::default() }
    }

    /// A wavetable voice.
    pub fn synth(sample_rate: u32, table: Vec<i64>) -> (r: Self)
        requires
            table_wf(table@),
        ensures
            r == (AudioChannel {
                sample_rate,
                data: AudioChannelData::Wavetable { table },
                ..Self::spec_default()
            }),
            r.wf(),
    {
        Self {
            data: AudioChannelData::Wavetable { table },
            ..Self::with_sample_rate(sample_rate)
        }
    }

    /// A noise voice seeded with `lfsr`.
    pub fn noise(sample_rate: u32, lfsr: u32) -> (r: Self)
        ensures
            r == (AudioChannel {
                sample_rate,
                data: AudioChannelData::Noise { lfsr, last_value: 0 },
                ..Self::spec_default()
            }),
            r.wf(),
    {
        Self {
            data: AudioChannelData::Noise { lfsr, last_value: 0 },
            ..Self::with_sample_rate(sample_rate)
        }
    }

    /// Envelope fields after `stop_notes`: phase and sweeps cleared, unit
    /// amplitude.
    pub open spec fn spec_notes_stopped(self) -> AudioChannel {
        AudioChannel {
            osc_timer: 0,
            note_volume: FRAC_ONE,
            volume_sweep: 0,
            pitch: 0,
            pitch_sweep: 0,
            ..self
        }
    }

    fn stop_notes(&mut self)
        ensures
            *final(self) == old(self).spec_notes_stopped(),
    {
        self.osc_timer = 0;
        self.note_volume = FRAC_ONE;
        self.volume_sweep = 0;
        self.pitch = 0;
        self.pitch_sweep = 0;
    }

    /// Hard-stop the channel: reset the envelope to idle defaults and mute.
    /// The assigned sound kind is kept.
    pub fn stop(&mut self)
        ensures
            *final(self) == (AudioChannel { stopped: true, ..old(self).spec_notes_stopped() }),
    {
        self.stop_notes();
        self.stopped = true;
    }

    /// Set the master gain, forced into the representable amplitude range.
    pub fn set_channel_volume(&mut self, volume: i64)
        ensures
            *final(self) == (AudioChannel {
                channel_volume: clamp_amp(volume as int) as i64,
                ..*old(self)
            }),
    {
        self.channel_volume = clamp_i64(volume, -AMP_LIMIT, AMP_LIMIT);
    }

    /// Restart the envelope with no pitch assigned (silent until a pitch is
    /// set).
    pub fn play(&mut self)
        ensures
            *final(self) == (AudioChannel { stopped: false, ..old(self).spec_notes_stopped() }),
    {
        self.stop_notes();
        self.pitch = 0;
        self.stopped = false;
    }

    /// Restart the envelope and play the equal-tempered note `note`
    /// (semitones from A440).
    pub fn play_note(&mut self, note: i16)
        ensures
            *final(self) == (AudioChannel {
                stopped: false,
                pitch: spec_pitch_of_note(note as int, old(self).sample_rate as int) as i64,
                ..old(self).spec_notes_stopped()
            }),
    {
        self.stop_notes();
        self.pitch = pitch_of_note(note, self.sample_rate);
        self.stopped = false;
    }

    /// Restart the envelope and play a direct frequency, given in fixed-point
    /// hertz.
    pub fn play_pitch(&mut self, hertz: i64)
        ensures
            *final(self) == (AudioChannel {
                stopped: false,
                pitch: spec_pitch_of_hertz(hertz as int, old(self).sample_rate as int) as i64,
                ..old(self).spec_notes_stopped()
            }),
    {
        self.stop_notes();
        self.pitch = pitch_of_hertz(hertz, self.sample_rate);
        self.stopped = false;
    }

    /// Change the pitch to a note without resetting the envelope or phase.
    pub fn set_note(&mut self, note: i16)
        ensures
            *final(self) == (AudioChannel {
                pitch: spec_pitch_of_note(note as int, old(self).sample_rate as int) as i64,
                ..*old(self)
            }),
    {
        self.pitch = pitch_of_note(note, self.sample_rate);
    }

    /// Change the pitch to a direct frequency without resetting the envelope
    /// or phase.
    pub fn set_pitch(&mut self, hertz: i64)
        ensures
            *final(self) == (AudioChannel {
                pitch: spec_pitch_of_hertz(hertz as int, old(self).sample_rate as int) as i64,
                ..*old(self)
            }),
    {
        self.pitch = pitch_of_hertz(hertz, self.sample_rate);
    }

    /// Set the envelope amplitude directly, forced into the representable
    /// range.
    pub fn set_volume(&mut self, volume: i64)
        ensures
            *final(self) == (AudioChannel {
                note_volume: clamp_amp(volume as int) as i64,
                ..*old(self)
            }),
    {
        self.note_volume = clamp_i64(volume, -AMP_LIMIT, AMP_LIMIT);
    }

    /// Start a linear ramp of the envelope amplitude towards `end_volume`
    /// over `seconds` (fixed point): the per-sample delta is the remaining
    /// distance divided by the number of samples in the ramp. A duration of
    /// zero samples (including a zero sample rate) jumps to the target at
    /// once instead of dividing by zero.
    pub fn volume_sweep(&mut self, end_volume: i64, seconds: i64)
        ensures
            *final(self) == ({
                let n = sweep_samples(seconds as int, old(self).sample_rate as int);
                if n == 0 {
                    AudioChannel {
                        note_volume: clamp_amp(end_volume as int) as i64,
                        volume_sweep: 0,
                        ..*old(self)
                    }
                } else {
                    AudioChannel {
                        volume_sweep: clamp_amp(
                            div_trunc(end_volume - old(self).note_volume, n),
                        ) as i64,
                        ..*old(self)
                    }
                }
            }),
    {
        let n: u64 = sweep_samples_exec(seconds, self.sample_rate);
        if n == 0 {
            self.note_volume = clamp_i64(end_volume, -AMP_LIMIT, AMP_LIMIT);
            self.volume_sweep = 0;
        } else {
            let diff: i128 = (end_volume as i128) - (self.note_volume as i128);
            let step: i128 = div_trunc_i128(diff, n as i128);
            self.volume_sweep = crate::fixed::clamp_wide_to_amp(step);
        }
    }

    /// Start a linear ramp of the pitch towards the equal-tempered note
    /// `end_note` over `seconds` (fixed point), in phase-increment space. A
    /// ramp of zero samples jumps to the target pitch at once.
    pub fn pitch_sweep(&mut self, end_note: i16, seconds: i64)
        ensures
            *final(self) == ({
                let end_pitch = spec_pitch_of_note(
                    end_note as int,
                    old(self).sample_rate as int,
                );
                let n = sweep_samples(seconds as int, old(self).sample_rate as int);
                if n == 0 {
                    AudioChannel { pitch: end_pitch as i64, pitch_sweep: 0, ..*old(self) }
                } else {
                    AudioChannel {
                        pitch_sweep: clamp_amp(div_trunc(end_pitch - old(self).pitch, n)) as i64,
                        ..*old(self)
                    }
                }
            }),
    {
        let end_pitch: i64 = pitch_of_note(end_note, self.sample_rate);
        let n: u64 = sweep_samples_exec(seconds, self.sample_rate);
        if n == 0 {
            self.pitch = end_pitch;
            self.pitch_sweep = 0;
        } else {
            let diff: i128 = (end_pitch as i128) - (self.pitch as i128);
            let step: i128 = div_trunc_i128(diff, n as i128);
            self.pitch_sweep = crate::fixed::clamp_wide_to_amp(step);
        }
    }
}

/// How many samples a sweep over `seconds` (fixed point) covers at the given
/// sample rate, truncated.
pub open spec fn sweep_samples(seconds: int, rate: int) -> int {
    if seconds <= 0 {
        0
    } else {
        (seconds * rate) / (FRAC_ONE as int)
    }
}

fn sweep_samples_exec(seconds: i64, rate: u32) -> (n: u64)
    ensures
        n == sweep_samples(seconds as int, rate as int),
        n <= 0x7FFF_FFFF_FFFF_FFFF,
{
    if seconds <= 0 {
        return 0;
    }
    proof {
        assert(0 <= (seconds as int) * (rate as int) <= 0x7FFF_FFFF_FFFF_FFFF * (
        FRAC_ONE as int)) by (nonlinear_arith)
            requires
                0 < seconds <= i64::MAX,
                0 <= rate <= u32::MAX,
        ;
    }
    let wide: u128 = (seconds as u128) * (rate as u128);
    let n: u128 = wide / (FRAC_ONE as u128);
    proof {
        vstd::arithmetic::div_mod::lemma_multiply_divide_le(
            wide as int,
            FRAC_ONE as int,
            0x7FFF_FFFF_FFFF_FFFF,
        );
    }
    n as u64
}

impl Default for AudioChannel {
    fn default() -> (r: Self)
        ensures
            r == Self::spec_default(),
            r.wf(),
    {
        Self {
            sample_rate: 0,
            channel_volume: DEFAULT_CHANNEL_VOLUME,
            note_volume: FRAC_ONE,
            volume_sweep: 0,
            pitch: 0,
            pitch_sweep: 0,
            osc_timer: 0,
            stopped: true,
            data: AudioChannelData::Empty,
        }
    }
}

/// Next state of the 32-bit noise shift register.
pub open spec fn lfsr_next(l: u32) -> u32 {
    (l >> 1u32) | (((l >> 3u32) ^ l) << 31u32)
}

/// The amplitude of the register's output bit: a 0 bit maps to +1.0 and a 1
/// bit to -1.0 (an inverted polarity kept for bit-exact output).
pub open spec fn noise_amplitude(l: u32) -> int {
    if l & 1u32 == 0u32 {
        FRAC_ONE as int
    } else {
        -(FRAC_ONE as int)
    }
}

/// The fraction of the step from `t` by `p` spent before the boundary `mid`,
/// in fixed point, truncated and forced into `[0, FRAC_ONE]`.
pub open spec fn blend_fraction(mid: int, t: int, p: int) -> int {
    spec_clamp(((mid - t) * FRAC_ONE) / p, 0, FRAC_ONE as int)
}

/// Box-filtered blend: `a` weighted by `frac`, `b` by the remainder of one
/// unit.
pub open spec fn blend(a: int, b: int, frac: int) -> int {
    div_trunc(a * frac + b * (FRAC_ONE - frac), FRAC_ONE as int)
}

/// Index of the wavetable cell containing fixed-point phase `t`, in a table
/// of `n` entries (not yet wrapped to the table).
pub open spec fn cell_index(t: int, n: int) -> int {
    (t * n) / (FRAC_ONE as int)
}

/// The raw output of a wavetable voice for one step from phase `t` by `p`:
/// the cell's own value if the step stays inside one cell, otherwise the
/// start and end cells blended by the share of the step spent in each.
pub open spec fn wavetable_raw(table: Seq<i64>, t: int, p: int) -> int {
    let n = table.len() as int;
    let i = cell_index(t, n);
    let j = cell_index(t + p, n);
    if i == j {
        table[i] as int
    } else {
        let mid = (j * (FRAC_ONE as int)) / n;
        blend(table[i] as int, table[j % n] as int, blend_fraction(mid, t, p))
    }
}

/// The raw output of a noise voice: the register steps once when the phase
/// crosses an integer boundary, and the old and new bit amplitudes are
/// blended as in the wavetable case.
pub open spec fn noise_raw(lfsr: u32, last: int, t: int, p: int) -> int {
    let j = (t + p) / (FRAC_ONE as int);
    if j == 0 {
        last
    } else {
        blend(
            last,
            noise_amplitude(lfsr_next(lfsr)),
            blend_fraction(j * (FRAC_ONE as int), t, p),
        )
    }
}

/// A raw oscillator sample scaled by the envelope amplitude and the channel
/// master gain.
pub open spec fn scale_sample(raw: int, note_volume: int, channel_volume: int) -> int {
    div_trunc(div_trunc(raw * note_volume, FRAC_ONE as int) * channel_volume, FRAC_ONE as int)
}

impl AudioChannel {
    /// The envelope can no longer produce sound and will never recover on
    /// its own; the next `next_sample` call auto-stops the channel.
    pub open spec fn envelope_exhausted(self) -> bool {
        self.note_volume <= 0 && self.volume_sweep <= 0
    }

    /// Silent without any state change: hard-muted or no sound assigned.
    pub open spec fn is_idle(self) -> bool {
        self.stopped || self.data is Empty
    }

    /// The raw oscillator output for the step `next_sample` takes.
    pub open spec fn raw_sample(self) -> int {
        match self.data {
            AudioChannelData::Wavetable { table } => wavetable_raw(
                table@,
                self.osc_timer as int,
                self.pitch as int,
            ),
            AudioChannelData::Noise { lfsr, last_value } => noise_raw(
                lfsr,
                last_value as int,
                self.osc_timer as int,
                self.pitch as int,
            ),
            AudioChannelData::Empty => 0,
        }
    }

    /// The value `next_sample` returns.
    pub open spec fn spec_output(self) -> int {
        if self.is_idle() || self.envelope_exhausted() {
            0
        } else {
            scale_sample(self.raw_sample(), self.note_volume as int, self.channel_volume as int)
        }
    }

    /// The oscillator data after one step: a wavetable is unchanged, the
    /// noise register advances only when the phase crosses an integer
    /// boundary.
    pub open spec fn spec_data_after(self) -> AudioChannelData {
        match self.data {
            AudioChannelData::Noise { lfsr, last_value } => {
                let j = (self.osc_timer + self.pitch) / (FRAC_ONE as int);
                if j == 0 {
                    self.data
                } else {
                    AudioChannelData::Noise {
                        lfsr: lfsr_next(lfsr),
                        last_value: noise_amplitude(lfsr_next(lfsr)) as i64,
                    }
                }
            },
            _ => self.data,
        }
    }

    /// The whole channel state after one `next_sample` call: the phase wraps
    /// modulo one cycle, and the sweeps are applied with saturation at the
    /// representable range.
    pub open spec fn spec_advance(self) -> AudioChannel {
        if self.is_idle() {
            self
        } else if self.envelope_exhausted() {
            AudioChannel { stopped: true, ..self.spec_notes_stopped() }
        } else {
            AudioChannel {
                osc_timer: ((self.osc_timer + self.pitch) % (FRAC_ONE as int)) as i64,
                pitch: clamp_pitch(self.pitch + self.pitch_sweep) as i64,
                note_volume: clamp_amp(self.note_volume + self.volume_sweep) as i64,
                data: self.spec_data_after(),
                ..self
            }
        }
    }

    /// Produce the next sample and advance the channel by exactly one sample:
    /// silence (with no state change) when muted or empty; an auto-stop when
    /// the envelope is exhausted; otherwise the interpolated oscillator
    /// output under the envelope, followed by the phase, pitch and volume
    /// updates.
    pub fn next_sample(&mut self) -> (r: i64)
        requires
            old(self).wf(),
        ensures
            final(self).wf(),
            *final(self) == old(self).spec_advance(),
            r == old(self).spec_output(),
            -0x100_0000_0000_0000 <= r <= 0x100_0000_0000_0000,
    {
        if self.stopped || matches!(self.data, AudioChannelData::Empty) {
            return 0;
        }
        if self.note_volume <= 0 && self.volume_sweep <= 0 {
            self.stop();
            return 0;
        }
        let t: i64 = self.osc_timer;
        let p: i64 = self.pitch;
        let next_t: i64 = t + p;

        let raw: i64 = match &self.data {
            AudioChannelData::Wavetable { table } => {
                wavetable_step(table, t, p)
            },
            AudioChannelData::Noise { lfsr, last_value } => {
                let l: u32 = *lfsr;
                let last: i64 = *last_value;
                let j: u64 = (next_t as u64) / (FRAC_ONE as u64);
                if j == 0 {
                    last
                } else {
                    let l2: u32 = (l >> 1) | (((l >> 3) ^ l) << 31);
                    let new_value: i64 = if l2 & 1 == 0 {
                        FRAC_ONE
                    } else {
                        -FRAC_ONE
                    };
                    proof {
                        if p == 0 {
                            assert((next_t as int) / (FRAC_ONE as int) == 0);
                        }
                        vstd::arithmetic::div_mod::lemma_fundamental_div_mod(
                            next_t as int,
                            FRAC_ONE as int,
                        );
                        assert((j as int) * (FRAC_ONE as int) <= next_t as int);
                    }
                    let mid: u64 = j * (FRAC_ONE as u64);
                    let raw = blend_step(last, new_value, mid as i64, t, p);
                    self.data = AudioChannelData::Noise { lfsr: l2, last_value: new_value };
                    raw
                }
            },
            AudioChannelData::Empty => 0,
        };

        let nv: i64 = self.note_volume;
        let cv: i64 = self.channel_volume;
        proof {
            assert((raw as int) * (nv as int) <= (AMP_LIMIT as int) * (AMP_LIMIT as int)
                && (raw as int) * (nv as int) >= -((AMP_LIMIT as int) * (AMP_LIMIT as int)))
                by (nonlinear_arith)
                requires
                    -AMP_LIMIT <= raw <= AMP_LIMIT,
                    -AMP_LIMIT <= nv <= AMP_LIMIT,
            ;
            assert((AMP_LIMIT as int) * (AMP_LIMIT as int) == 0x1000000000000 * (
            FRAC_ONE as int));
            crate::fixed::lemma_div_trunc_quotient_bound(
                (raw as int) * (nv as int),
                FRAC_ONE as int,
                0x1000000000000,
            );
        }
        let s1: i128 = div_trunc_i128((raw as i128) * (nv as i128), FRAC_ONE as i128);
        proof {
            assert((s1 as int) * (cv as int) <= 0x1000000000000 * (AMP_LIMIT as int)
                && (s1 as int) * (cv as int) >= -(0x1000000000000 * (AMP_LIMIT as int)))
                by (nonlinear_arith)
                requires
                    -0x1000000000000 <= s1 <= 0x1000000000000,
                    -AMP_LIMIT <= cv <= AMP_LIMIT,
            ;
            assert(0x1000000000000 * (AMP_LIMIT as int) == 0x100000000000000
                * (FRAC_ONE as int));
            crate::fixed::lemma_div_trunc_quotient_bound(
                (s1 as int) * (cv as int),
                FRAC_ONE as int,
                0x100000000000000,
            );
        }
        let s2: i128 = div_trunc_i128((s1 as i128) * (cv as i128), FRAC_ONE as i128);
        let sample: i64 = s2 as i64;

        self.osc_timer = mod_frac(next_t);
        self.pitch = clamp_i64(p + self.pitch_sweep, 0, PITCH_LIMIT);
        self.note_volume = clamp_i64(nv + self.volume_sweep, -AMP_LIMIT, AMP_LIMIT);

        sample
    }
}

/// One interpolated wavetable read for a step from phase `t` by `p`.
fn wavetable_step(table: &Vec<i64>, t: i64, p: i64) -> (r: i64)
    requires
        table_wf(table@),
        0 <= t < FRAC_ONE,
        0 <= p <= PITCH_LIMIT,
    ensures
        r == wavetable_raw(table@, t as int, p as int),
        -AMP_LIMIT <= r <= AMP_LIMIT,
{
    let n: usize = table.len();
    proof {
        assert((t as int) * (n as int) < (FRAC_ONE as int) * (n as int)
            && 0 <= (t as int) * (n as int) && (FRAC_ONE as int) * (n as int)
            <= 0x1_0000_0000_0000_0000) by (nonlinear_arith)
            requires
                0 <= t < FRAC_ONE,
                1 <= n <= u32::MAX,
        ;
        vstd::arithmetic::div_mod::lemma_multiply_divide_lt(
            (t as int) * (n as int),
            FRAC_ONE as int,
            n as int,
        );
    }
    let ti: u128 = (t as u128) * (n as u128);
    let iu: usize = (ti / (FRAC_ONE as u128)) as usize;
    let a: i64 = table[iu];
    proof {
        assert(((t + p) as int) * (n as int) <= 0x400_0000_0000 * (n as int)
            && 0x400_0000_0000 * (n as int) <= 0x400_0000_0000 * 0x1_0000_0000)
            by (nonlinear_arith)
            requires
                0 <= t + p <= 0x400_0000_0000,
                1 <= n <= u32::MAX,
        ;
    }
    let tj: u128 = ((t + p) as u128) * (n as u128);
    let ju: u128 = tj / (FRAC_ONE as u128);
    if (iu as u128) == ju {
        return a;
    }
    proof {
        if p == 0 {
            assert(ti == tj);
            assert(false);
        }
        vstd::arithmetic::div_mod::lemma_fundamental_div_mod(ti as int, FRAC_ONE as int);
        vstd::arithmetic::div_mod::lemma_fundamental_div_mod(tj as int, FRAC_ONE as int);
        // the end cell is reached later than the start cell
        assert((t as int) * (n as int) <= ((t + p) as int) * (n as int)) by (nonlinear_arith)
            requires
                0 < p,
                1 <= n,
                0 <= t,
        ;
        vstd::arithmetic::div_mod::lemma_div_is_ordered(ti as int, tj as int, FRAC_ONE as int);
    }
    let jm: usize = (ju % (n as u128)) as usize;
    let b: i64 = table[jm];
    proof {
        assert((ju as int) * (FRAC_ONE as int) <= 0x400_0000_0000 * (FRAC_ONE as int))
            by (nonlinear_arith)
            requires
                0 <= ju <= 0x400_0000_0000,
        ;
    }
    let mid: u128 = (ju * (FRAC_ONE as u128)) / (n as u128);
    proof {
        lemma_mid_in_step(t as int, p as int, n as int, ju as int);
    }
    blend_step(a, b, mid as i64, t, p)
}

/// The boundary `mid` of the new cell lies within the step `[t, t + p]`,
/// where `ju` is the index of the cell holding `t + p`.
proof fn lemma_mid_in_step(t: int, p: int, n: int, ju: int)
    requires
        0 <= t < FRAC_ONE,
        0 < p,
        1 <= n,
        ju == ((t + p) * n) / (FRAC_ONE as int),
        ju != (t * n) / (FRAC_ONE as int),
    ensures
        t <= (ju * (FRAC_ONE as int)) / n <= t + p,
{
    let f = FRAC_ONE as int;
    vstd::arithmetic::div_mod::lemma_fundamental_div_mod(t * n, f);
    vstd::arithmetic::div_mod::lemma_fundamental_div_mod((t + p) * n, f);
    assert(t * n <= (t + p) * n) by (nonlinear_arith)
        requires
            0 < p,
            1 <= n,
            0 <= t,
    ;
    vstd::arithmetic::div_mod::lemma_div_is_ordered(t * n, (t + p) * n, f);
    let i = (t * n) / f;
    assert(ju >= i + 1);
    // t * n < (i + 1) * f <= ju * f, so t <= (ju * f) / n
    assert(t * n < (i + 1) * f) by (nonlinear_arith)
        requires
            t * n == f * i + (t * n) % f,
            0 <= (t * n) % f < f,
    ;
    assert((i + 1) * f <= ju * f) by (nonlinear_arith)
        requires
            i + 1 <= ju,
            0 < f,
    ;
    assert(t <= (ju * f) / n) by {
        assert(t * n <= ju * f);
        vstd::arithmetic::div_mod::lemma_div_is_ordered(t * n, ju * f, n);
        vstd::arithmetic::div_mod::lemma_div_multiples_vanish(t, n);
        assert((t * n) / n == t) by (nonlinear_arith)
            requires
                1 <= n,
                (n * t) / n == t,
        ;
    }
    assert((ju * f) / n <= t + p) by {
        assert(ju * f <= (t + p) * n);
        vstd::arithmetic::div_mod::lemma_div_is_ordered(ju * f, (t + p) * n, n);
        vstd::arithmetic::div_mod::lemma_div_multiples_vanish(t + p, n);
        assert(((t + p) * n) / n == t + p) by (nonlinear_arith)
            requires
                1 <= n,
                (n * (t + p)) / n == t + p,
        ;
    }
}

/// The blended value of `a` and `b` for a step from `t` by `p` split at the
/// boundary `mid`.
fn blend_step(a: i64, b: i64, mid: i64, t: i64, p: i64) -> (r: i64)
    requires
        -AMP_LIMIT <= a <= AMP_LIMIT,
        -AMP_LIMIT <= b <= AMP_LIMIT,
        0 < p <= PITCH_LIMIT,
        0 <= t,
        t <= mid <= t + p,
    ensures
        r == blend(a as int, b as int, blend_fraction(mid as int, t as int, p as int)),
        -AMP_LIMIT <= r <= AMP_LIMIT,
{
    let delta: u64 = (mid - t) as u64;
    proof {
        assert((delta as int) * (FRAC_ONE as int) <= (p as int) * (FRAC_ONE as int)
            && (p as int) * (FRAC_ONE as int) <= 0x400_0000_0000 * (FRAC_ONE as int))
            by (nonlinear_arith)
            requires
                0 <= delta <= p,
                p <= 0x400_0000_0000,
        ;
        vstd::arithmetic::div_mod::lemma_multiply_divide_le(
            (delta as int) * (FRAC_ONE as int),
            (p as int),
            FRAC_ONE as int,
        );
    }
    let fr_num: u128 = (delta as u128) * (FRAC_ONE as u128);
    let fr: u128 = fr_num / (p as u128);
    let frac: i64 = fr as i64;
    proof {
        vstd::arithmetic::div_mod::lemma_div_pos_is_pos(fr_num as int, p as int);
        assert(blend_fraction(mid as int, t as int, p as int) == fr as int);
        assert((a as int) * (frac as int) + (b as int) * (FRAC_ONE - frac) <= (AMP_LIMIT as int)
            * (FRAC_ONE as int) && (a as int) * (frac as int) + (b as int) * (FRAC_ONE - frac)
            >= -((AMP_LIMIT as int) * (FRAC_ONE as int))) by (nonlinear_arith)
            requires
                -AMP_LIMIT <= a <= AMP_LIMIT,
                -AMP_LIMIT <= b <= AMP_LIMIT,
                0 <= frac <= FRAC_ONE,
        ;
        crate::fixed::lemma_div_trunc_quotient_bound(
            (a as int) * (frac as int) + (b as int) * (FRAC_ONE - frac) as int,
            FRAC_ONE as int,
            AMP_LIMIT as int,
        );
        assert(-((AMP_LIMIT as int) * (FRAC_ONE as int)) <= (a as int) * (frac as int)
            <= (AMP_LIMIT as int) * (FRAC_ONE as int)) by (nonlinear_arith)
            requires
                -AMP_LIMIT <= a <= AMP_LIMIT,
                0 <= frac <= FRAC_ONE,
        ;
        assert(-((AMP_LIMIT as int) * (FRAC_ONE as int)) <= (b as int) * (FRAC_ONE - frac)
            <= (AMP_LIMIT as int) * (FRAC_ONE as int)) by (nonlinear_arith)
            requires
                -AMP_LIMIT <= b <= AMP_LIMIT,
                0 <= frac <= FRAC_ONE,
        ;
    }
    let num: i128 = (a as i128) * (frac as i128) + (b as i128) * ((FRAC_ONE - frac) as i128);
    let r128: i128 = div_trunc_i128(num, FRAC_ONE as i128);
    r128 as i64
}

/// Mixed samples saturate at this magnitude instead of overflowing.
pub const MIX_LIMIT: i64 = 0x1000_0000_0000_0000;

/// Every channel advanced by one mixing step.
pub open spec fn advance_all(s: Seq<AudioChannel>) -> Seq<AudioChannel> {
    s.map_values(|c: AudioChannel| c.spec_advance())
}

/// The mixed output of one step: the channels' outputs summed in order,
/// saturating at `MIX_LIMIT`.
pub open spec fn mix_sum(s: Seq<AudioChannel>) -> int
    decreases s.len(),
{
    if s.len() == 0 {
        0
    } else {
        spec_clamp(
            mix_sum(s.drop_last()) + s.last().spec_output(),
            -(MIX_LIMIT as int),
            MIX_LIMIT as int,
        )
    }
}

/// The channel states after `k` whole mixing steps.
pub open spec fn channels_after(s: Seq<AudioChannel>, k: nat) -> Seq<AudioChannel>
    decreases k,
{
    if k == 0 {
        s
    } else {
        advance_all(channels_after(s, (k - 1) as nat))
    }
}

/// `spec_advance` preserves channel well-formedness.
pub proof fn lemma_spec_advance_wf(c: AudioChannel)
    requires
        c.wf(),
    ensures
        c.spec_advance().wf(),
{
    if !c.is_idle() && !c.envelope_exhausted() {
        vstd::arithmetic::div_mod::lemma_mod_division_less_than_divisor(
            c.osc_timer + c.pitch,
            FRAC_ONE as int,
        );
        vstd::arithmetic::div_mod::lemma_mod_bound(c.osc_timer + c.pitch, FRAC_ONE as int);
    }
}

/// The growable set of voices plus the hand-off facade the simulation side
/// sees. In active mode commands address real channels; in inactive mode (no
/// audio device) every command is absorbed by a harmless stand-in channel and
/// `add` calls return the stand-in id. The mutual exclusion between the
/// simulation thread and the audio callback thread is the embedder's
/// concern: it wraps this value in a lock and holds it for one command or
/// one rendered block at a time.
pub struct AudioWrapper {
    pub sample_rate: u32,
    pub active: bool,
    pub rand: u32,
    pub channels: Vec<AudioChannel>,
    /// The stand-in channel handed out in inactive mode; commands land here
    /// and are never heard.
    pub none_channel: AudioChannel,
}

impl AudioWrapper {
    pub open spec fn wf(self) -> bool {
        &&& forall|i: int|
            0 <= i < self.channels@.len() ==> (#[trigger] self.channels@[i]).wf()
        &&& self.none_channel.wf()
        &&& self.channels@.len() <= u32::MAX
    }

    /// An active mixer for a device running at `sample_rate`, with the noise
    /// seed derived from `rand_source`.
    pub fn new(sample_rate: u32, rand_source: u64) -> (r: Self)
        ensures
            r.wf(),
            r.active,
            r.sample_rate == sample_rate,
            r.channels@.len() == 0,
            r.rand == spec_simple_hash(rand_source as u32),
    {
        Self {
            sample_rate,
            active: true,
            rand: simple_hash(rand_source as u32),
            channels: Vec::new(),
            none_channel: AudioChannel::default(),
        }
    }

    /// The facade used when no audio device could be opened: all commands
    /// are accepted and absorbed.
    pub fn inactive() -> (r: Self)
        ensures
            r.wf(),
            !r.active,
            r.sample_rate == 0,
            r.channels@.len() == 0,
    {
        Self {
            sample_rate: 0,
            active: false,
            rand: 0,
            channels: Vec::new(),
            none_channel: AudioChannel::default(),
        }
    }

    pub fn is_active(&self) -> (r: bool)
        ensures
            r == self.active,
    {
        self.active
    }

    fn next_rand(&mut self) -> (r: u32)
        ensures
            r == spec_simple_hash(old(self).rand),
            *final(self) == (AudioWrapper { rand: r, ..*old(self) }),
    {
        self.rand = simple_hash(self.rand);
        self.rand
    }

    /// Append a wavetable voice and return its stable index; in inactive
    /// mode nothing is added and the stand-in id comes back.
    pub fn add_synth_channel(&mut self, table: Vec<i64>) -> (id: AudioChannelId)
        requires
            old(self).wf(),
            old(self).channels@.len() < u32::MAX,
            table_wf(table@),
        ensures
            final(self).wf(),
            old(self).active ==> {
                &&& final(self).channels@ == old(self).channels@.push(
                    AudioChannel {
                        sample_rate: old(self).sample_rate,
                        data: AudioChannelData::Wavetable { table },
                        ..AudioChannel::spec_default()
                    },
                )
                &&& id.0 == old(self).channels@.len()
                &&& *final(self) == (AudioWrapper {
                    channels: final(self).channels,
                    ..*old(self)
                })
            },
            !old(self).active ==> *final(self) == *old(self) && id.0 == 0,
    {
        if self.active {
            let id = AudioChannelId(self.channels.len() as u32);
            self.channels.push(AudioChannel::synth(self.sample_rate, table));
            id
        } else {
            AudioChannelId::none()
        }
    }

    /// Append a noise voice seeded from the internal pseudo-random source,
    /// so that repeated calls produce distinct noise textures. The source
    /// advances even in inactive mode, where nothing is added.
    pub fn add_noise_channel(&mut self) -> (id: AudioChannelId)
        requires
            old(self).wf(),
            old(self).channels@.len() < u32::MAX,
        ensures
            final(self).wf(),
            final(self).rand == spec_simple_hash(old(self).rand),
            old(self).active ==> {
                &&& final(self).channels@ == old(self).channels@.push(
                    AudioChannel {
                        sample_rate: old(self).sample_rate,
                        data: AudioChannelData::Noise {
                            lfsr: spec_simple_hash(old(self).rand),
                            last_value: 0,
                        },
                        ..AudioChannel::spec_default()
                    },
                )
                &&& id.0 == old(self).channels@.len()
                &&& *final(self) == (AudioWrapper {
                    rand: final(self).rand,
                    channels: final(self).channels,
                    ..*old(self)
                })
            },
            !old(self).active ==> *final(self) == (AudioWrapper {
                rand: final(self).rand,
                ..*old(self)
            }) && id.0 == 0,
    {
        let rand = self.next_rand();
        if self.active {
            let id = AudioChannelId(self.channels.len() as u32);
            self.channels.push(AudioChannel::noise(self.sample_rate, rand));
            id
        } else {
            AudioChannelId::none()
        }
    }

    /// Look up a channel for command issuance. An out-of-range id in active
    /// mode is a caller bug (the precondition excludes it; an unverified
    /// caller must check and fail loudly). In inactive mode every id yields
    /// the stand-in channel.
    pub fn get_channel(&mut self, id: AudioChannelId) -> (ch: &mut AudioChannel)
        requires
            old(self).wf(),
            old(self).active ==> (id.0 as int) < old(self).channels@.len(),
        ensures
            final(self).sample_rate == old(self).sample_rate,
            final(self).active == old(self).active,
            final(self).rand == old(self).rand,
            old(self).active ==> {
                &&& *ch == old(self).channels@[id.0 as int]
                &&& final(self).channels@ == old(self).channels@.update(
                    id.0 as int,
                    *final(ch),
                )
                &&& final(self).none_channel == old(self).none_channel
            },
            !old(self).active ==> {
                &&& *ch == old(self).none_channel
                &&& final(self).none_channel == *final(ch)
                &&& final(self).channels@ == old(self).channels@
            },
            final(ch).wf() ==> final(self).wf(),
    {
        if self.active {
            &mut self.channels[id.0 as usize]
        } else {
            &mut self.none_channel
        }
    }

    /// Mix one output frame: sum every channel's next sample into a single
    /// scalar, saturating at `MIX_LIMIT`, advancing each channel by exactly
    /// one sample.
    pub fn next_sample(&mut self) -> (r: i64)
        requires
            old(self).wf(),
        ensures
            final(self).wf(),
            final(self).channels@ == advance_all(old(self).channels@),
            r == mix_sum(old(self).channels@),
            *final(self) == (AudioWrapper { channels: final(self).channels, ..*old(self) }),
            -MIX_LIMIT <= r <= MIX_LIMIT,
    {
        let ghost orig: Seq<AudioChannel> = self.channels@;
        let mut tot: i64 = 0;
        let n: usize = self.channels.len();
        for i in 0..n
            invariant
                n == orig.len(),
                self.channels@.len() == n,
                forall|k: int| i <= k < n ==> self.channels@[k] == orig[k],
                forall|k: int|
                    0 <= k < i ==> self.channels@[k] == (#[trigger] orig[k]).spec_advance(),
                forall|k: int| 0 <= k < n ==> (#[trigger] self.channels@[k]).wf(),
                tot == mix_sum(orig.take(i as int)),
                -MIX_LIMIT <= tot <= MIX_LIMIT,
                self.sample_rate == old(self).sample_rate,
                self.active == old(self).active,
                self.rand == old(self).rand,
                self.none_channel == old(self).none_channel,
                orig == old(self).channels@,
        {
            let s: i64 = self.channels[i].next_sample();
            tot = clamp_i64(tot + s, -MIX_LIMIT, MIX_LIMIT);
            proof {
                assert(orig.take(i + 1).drop_last() =~= orig.take(i as int));
                assert(orig.take(i + 1).last() == orig[i as int]);
            }
        }
        proof {
            assert(orig.take(n as int) =~= orig);
            assert(self.channels@ =~= advance_all(orig));
        }
        tot
    }

    /// Render `count` mono frames for the hardware callback: each output
    /// value is the saturated sum of all channels at that sample instant.
    /// The embedder replicates each value across the hardware's output
    /// channels and converts to the negotiated representation.
    pub fn render_frames(&mut self, count: usize) -> (samples: Vec<i64>)
        requires
            old(self).wf(),
        ensures
            final(self).wf(),
            samples@.len() == count,
            final(self).channels@ == channels_after(old(self).channels@, count as nat),
            forall|k: int|
                0 <= k < count ==> #[trigger] samples@[k] == mix_sum(
                    channels_after(old(self).channels@, k as nat),
                ),
            *final(self) == (AudioWrapper { channels: final(self).channels, ..*old(self) }),
    {
        let mut samples: Vec<i64> = Vec::new();
        let ghost orig: Seq<AudioChannel> = self.channels@;
        for k in 0..count
            invariant
                samples@.len() == k,
                self.wf(),
                self.channels@ == channels_after(orig, k as nat),
                forall|j: int|
                    0 <= j < k ==> #[trigger] samples@[j] == mix_sum(
                        channels_after(orig, j as nat),
                    ),
                self.sample_rate == old(self).sample_rate,
                self.active == old(self).active,
                self.rand == old(self).rand,
                self.none_channel == old(self).none_channel,
                orig == old(self).channels@,
        {
            let s = self.next_sample();
            samples.push(s);
        }
        samples
    }
}

/// If the step from `t` by `p` ends in the wavetable cell it started in
/// (after wrapping around the table), the oscillator returns exactly that
/// cell's value: no blending happens.
pub proof fn lemma_wavetable_same_cell_exact(table: Seq<i64>, t: int, p: int)
    requires
        table_wf(table),
        0 <= t < FRAC_ONE,
        0 <= p,
        cell_index(t, table.len() as int) == cell_index(t + p, table.len() as int) % (
        table.len() as int),
    ensures
        wavetable_raw(table, t, p) == table[cell_index(t, table.len() as int)],
{
    let n = table.len() as int;
    let f = FRAC_ONE as int;
    let i = cell_index(t, n);
    let j = cell_index(t + p, n);
    if i != j {
        let a = table[i] as int;
        let frac = blend_fraction((j * f) / n, t, p);
        assert(table[j % n] as int == a);
        assert(a * frac + a * (f - frac) == a * f) by (nonlinear_arith);
        crate::fixed::lemma_div_trunc_exact(a, f);
    }
}

/// The channel after `k` consecutive `next_sample` calls.
pub open spec fn advance_k(c: AudioChannel, k: nat) -> AudioChannel
    decreases k,
{
    if k == 0 {
        c
    } else {
        advance_k(c, (k - 1) as nat).spec_advance()
    }
}

/// While a channel keeps playing, its envelope amplitude moves exactly
/// linearly: after `k` samples it has gained `k` times the sweep delta. The
/// preconditions keep every intermediate amplitude in the representable
/// range (no saturation) and above the auto-stop threshold (no early
/// exhaustion).
pub proof fn lemma_volume_ramp_linear(c: AudioChannel, k: nat)
    requires
        c.wf(),
        !c.stopped,
        !(c.data is Empty),
        forall|m: int|
            0 <= m < k ==> (c.volume_sweep > 0 || c.note_volume + #[trigger] (m
                * c.volume_sweep) > 0),
        forall|m: int|
            0 <= m <= k ==> -AMP_LIMIT <= c.note_volume + #[trigger] (m * c.volume_sweep)
                <= AMP_LIMIT,
    ensures
        advance_k(c, k).wf(),
        advance_k(c, k).note_volume == c.note_volume + k * c.volume_sweep,
        advance_k(c, k).volume_sweep == c.volume_sweep,
        !advance_k(c, k).stopped,
        !(advance_k(c, k).data is Empty),
    decreases k,
{
    if k == 0 {
    } else {
        let km1 = (k - 1) as nat;
        lemma_volume_ramp_linear(c, km1);
        let d = advance_k(c, km1);
        lemma_spec_advance_wf(d);
        assert(!d.envelope_exhausted());
        assert(d.spec_advance().note_volume == clamp_amp(
            c.note_volume + km1 * c.volume_sweep + c.volume_sweep,
        ));
        assert(km1 * c.volume_sweep + c.volume_sweep == k * c.volume_sweep) by (nonlinear_arith)
            requires
                km1 == k - 1,
        ;
    }
}

/// A volume sweep lands on its target: when the sweep delta is the
/// remaining distance to `target` divided (truncating) over `n` samples,
/// then after exactly `n` samples the amplitude equals `target` up to the
/// division remainder, which is smaller than `n` fixed-point quanta
/// (`n / 2^32` in amplitude units).
pub proof fn lemma_volume_sweep_completes(c: AudioChannel, target: int, n: nat)
    requires
        c.wf(),
        !c.stopped,
        !(c.data is Empty),
        n >= 1,
        c.volume_sweep == div_trunc(target - c.note_volume, n as int),
        forall|m: int|
            0 <= m < n ==> (c.volume_sweep > 0 || c.note_volume + #[trigger] (m
                * c.volume_sweep) > 0),
        forall|m: int|
            0 <= m <= n ==> -AMP_LIMIT <= c.note_volume + #[trigger] (m * c.volume_sweep)
                <= AMP_LIMIT,
    ensures
        -(n as int) < advance_k(c, n).note_volume - target < n as int,
{
    lemma_volume_ramp_linear(c, n);
    let a = target - c.note_volume;
    let s = div_trunc(a, n as int);
    if a >= 0 {
        vstd::arithmetic::div_mod::lemma_fundamental_div_mod(a, n as int);
        vstd::arithmetic::div_mod::lemma_mod_bound(a, n as int);
        assert((n as int) * (a / (n as int)) == (n as int) * s);
        assert(n * s == s * n) by (nonlinear_arith);
    } else {
        vstd::arithmetic::div_mod::lemma_fundamental_div_mod(-a, n as int);
        vstd::arithmetic::div_mod::lemma_mod_bound(-a, n as int);
        assert(-a == (n as int) * ((-a) / (n as int)) + (-a) % (n as int));
        assert(s == -((-a) / (n as int)));
        assert((n as int) * ((-a) / (n as int)) == -((n as int) * s)) by (nonlinear_arith)
            requires
                s == -((-a) / (n as int)),
        ;
        assert(n * s == s * n) by (nonlinear_arith);
    }
}

/// An exhausted envelope (amplitude and sweep both at or below zero) makes
/// the very next sample exactly silent and auto-stops the channel.
pub proof fn lemma_exhausted_auto_stop(c: AudioChannel)
    requires
        !c.is_idle(),
        c.note_volume <= 0,
        c.volume_sweep <= 0,
    ensures
        c.spec_output() == 0,
        c.spec_advance().stopped,
{
}

/// The ratio `2^(r/12)` in 32.32 fixed point, for `0 <= r < 12`; the
/// equal-tempered semitone steps within one octave.
pub open spec fn semitone_ratio(r: int) -> int {
    if r == 0 {
        0x100000000
    } else if r == 1 {
        0x10f38f92e
    } else if r == 2 {
        0x11f59ac3c
    } else if r == 3 {
        0x1306fe0a3
    } else if r == 4 {
        0x1428a2f99
    } else if r == 5 {
        0x155b8108f
    } else if r == 6 {
        0x16a09e668
    } else if r == 7 {
        0x17f910d77
    } else if r == 8 {
        0x1965fea54
    } else if r == 9 {
        0x1ae89f996
    } else if r == 10 {
        0x1c823e075
    } else {
        0x1e3437e71
    }
}

fn semitone_ratio_exec(r: u64) -> (v: u64)
    requires
        r < 12,
    ensures
        v == semitone_ratio(r as int),
{
    match r {
        0 => 0x100000000,
        1 => 0x10f38f92e,
        2 => 0x11f59ac3c,
        3 => 0x1306fe0a3,
        4 => 0x1428a2f99,
        5 => 0x155b8108f,
        6 => 0x16a09e668,
        7 => 0x17f910d77,
        8 => 0x1965fea54,
        9 => 0x1ae89f996,
        10 => 0x1c823e075,
        _ => 0x1e3437e71,
    }
}

/// The phase increment for the equal-tempered note `note` (semitones from
/// A440) at the given sample rate: `440 * 2^(note/12) / rate`, with the note
/// forced into ten octaves around A440 and the result truncated to fixed
/// point. A rate of zero (no audio device) yields a silent pitch of zero.
pub open spec fn spec_pitch_of_note(note: int, rate: int) -> int {
    if rate <= 0 {
        0
    } else {
        let m = spec_clamp(note, -120, 120) + 120;
        let q = m / 12;
        let r = m % 12;
        let freq = 440 * semitone_ratio(r) * vstd::arithmetic::power2::pow2(q as nat) / 1024;
        clamp_pitch(freq / rate)
    }
}

/// The phase increment for a direct frequency in fixed-point hertz: `hertz /
/// rate`, truncated, clamped into the representable pitch range. A rate of
/// zero yields zero.
pub open spec fn spec_pitch_of_hertz(hertz: int, rate: int) -> int {
    if rate <= 0 {
        0
    } else {
        clamp_pitch(div_trunc(hertz, rate))
    }
}

pub fn pitch_of_hertz(hertz: i64, rate: u32) -> (r: i64)
    ensures
        r == spec_pitch_of_hertz(hertz as int, rate as int),
{
    if rate == 0 {
        0
    } else if hertz <= 0 {
        // negative frequencies are not representable as forward phase motion
        proof {
            if hertz < 0 {
                assert((0 - hertz as int) / (rate as int) >= 0) by (nonlinear_arith)
                    requires
                        rate > 0,
                        hertz < 0,
                ;
            }
        }
        0
    } else {
        let q: u64 = (hertz as u64) / (rate as u64);
        proof {
            assert((hertz as int) / (rate as int) <= hertz as int) by (nonlinear_arith)
                requires
                    rate >= 1,
                    hertz >= 0,
            ;
        }
        clamp_i64(q as i64, 0, PITCH_LIMIT)
    }
}

pub fn pitch_of_note(note: i16, rate: u32) -> (r: i64)
    ensures
        r == spec_pitch_of_note(note as int, rate as int),
{
    if rate == 0 {
        return 0;
    }
    let n: i64 = clamp_i64(note as i64, -120, 120);
    let m: u64 = (n + 120) as u64;
    let q: u64 = m / 12;
    let rr: u64 = m % 12;
    let ratio: u64 = semitone_ratio_exec(rr);
    let base: u64 = 440 * ratio;
    proof {
        assert(base <= 440 * 0x1e3437e71);
        vstd::bits::lemma_u64_pow2_no_overflow(q as nat);
        vstd::arithmetic::power2::lemma2_to64();
        if q < 20 {
            vstd::arithmetic::power2::lemma_pow2_strictly_increases(q as nat, 20);
        }
        assert(vstd::arithmetic::power2::pow2(q as nat) <= 0x100000);
        assert(base * vstd::arithmetic::power2::pow2(q as nat) < u64::MAX) by (nonlinear_arith)
            requires
                base <= 440 * 0x1e3437e71,
                vstd::arithmetic::power2::pow2(q as nat) <= 0x100000,
        ;
        vstd::bits::lemma_u64_shl_is_mul(base, q);
    }
    let scaled: u64 = base << q;
    let freq: u64 = scaled / 1024;
    let p: u64 = freq / (rate as u64);
    proof {
        assert(p <= freq && freq <= u64::MAX / 1024) by (nonlinear_arith)
            requires
                rate >= 1,
                p == freq / (rate as u64),
                freq == scaled / 1024,
                scaled <= u64::MAX,
        ;
        assert(p <= i64::MAX as u64);
    }
    clamp_i64(p as i64, 0, PITCH_LIMIT)
}

} // verus!
