//! One emulated Paula voice.
//!
//! The channel owns the control state of a voice: the triggered instrument
//! (a copy, so stopping can mutate it without touching the bank), the
//! volume and its per-frame adjustment (both in 64ths), the pitch as a
//! quarter-semitone table index, the signed period adjustment, and the
//! interpolation switch.
//!
//! The renderer that turns this state into floating-point samples lives
//! outside the crate. It walks the sample with a fractional position,
//! carried here as the raw bits of an IEEE single in `phase_bits`; the
//! driver logic never reads it and only ever resets it to zero. Per
//! integer sample index the renderer asks [`SampleChannel::advance`] what
//! to do; every decision - silence, one-shot end, loop rewind, which
//! sample bytes to blend - is made here.

use vstd::prelude::*;

use crate::sound_data::OCTAVE_SIZE;
use crate::sound_data::spec_pitch_lookup;
use crate::sound_data::pitch_period;
use crate::sound_model::Instrument;
use crate::sound_model::SoundBank;

verus! {

/// Default pitch: four octaves up in quarter-semitones.
pub const DEFAULT_PITCH: usize = 192;

/// Full volume in 64ths.
pub const MAX_VOLUME: u8 = 64;

#[derive(Clone, Debug)]
pub struct SampleChannel {
    /// Copy of the triggered instrument; `None` when the voice is silent.
    pub instr: Option<Instrument>,
    /// Volume in 64ths; 64 plays the sample at full scale.
    pub volume: u8,
    /// Per-frame volume delta in 64ths, pushed by the effect runner.
    pub volume_adjust: i16,
    /// Quarter-semitone index into the pitch table.
    pub pitch: usize,
    /// Signed delta added to the looked-up period with 16-bit wrap.
    pub pitch_adjust: i16,
    /// The renderer's fractional sample position as raw IEEE-single bits;
    /// cleared to zero (which is the encoding of 0.0) when a note starts.
    pub phase_bits: u32,
    /// Linear interpolation switch.
    pub lerp: bool,
}

/// What the renderer must do at one integer sample index.
#[derive(Clone, Copy, Debug, Eq, PartialEq, Structural)]
pub enum SampleStep {
    /// No instrument is loaded: the rest of the buffer stays silent.
    NoVoice,
    /// A one-shot sample ran out (or the instrument was malformed); the
    /// voice has just been dropped and the rest of the buffer stays silent.
    Ended,
    /// A looped sample ran past its end: take `amount` off the position
    /// and ask again.
    Rewind { amount: usize },
    /// Play: blend `left` and `right` (both signed 8-bit PCM carried as
    /// raw bytes) by the fractional position, or take `left` alone when
    /// interpolation is off.
    Sample { left: u8, right: u8 },
}

/// Bytes of sample data covered by an instrument.
pub open spec fn spec_sample_span(ins: Instrument) -> int {
    2 * ins.sample_len
}

/// The same channel with its voice dropped.
pub open spec fn spec_stopped(ch: SampleChannel) -> SampleChannel {
    SampleChannel { instr: None, ..ch }
}

/// The decision [`SampleChannel::advance`] takes at index `idx`, and the
/// channel state after it. A malformed instrument - loop start at or past
/// the sample end, or sample data sticking out of the image - silences the
/// voice; a valid bank never takes those branches.
pub open spec fn spec_advance(ch: SampleChannel, data: Seq<u8>, idx: int) -> (
    SampleChannel,
    SampleStep,
) {
    match ch.instr {
        None => (ch, SampleStep::NoVoice),
        Some(ins) => {
            let span = spec_sample_span(ins);
            if idx >= span {
                if ins.is_one_shot {
                    (spec_stopped(ch), SampleStep::Ended)
                } else if ins.loop_offset >= span {
                    (spec_stopped(ch), SampleStep::Ended)
                } else {
                    (ch, SampleStep::Rewind { amount: (span - ins.loop_offset) as usize })
                }
            } else if ins.sample_addr + span > data.len() {
                (spec_stopped(ch), SampleStep::Ended)
            } else {
                let left = data[ins.sample_addr + idx];
                let right = if idx + 1 == span {
                    if ins.is_one_shot || ins.loop_offset >= span {
                        0u8
                    } else {
                        data[ins.sample_addr + ins.loop_offset]
                    }
                } else {
                    data[ins.sample_addr + idx + 1]
                };
                (ch, SampleStep::Sample { left, right })
            }
        },
    }
}

/// The period ticks the voice plays at: the pitch-table entry for the
/// instrument's base octave (shifted up one octave, a quirk of the driver)
/// plus the pitch, with the signed period adjustment folded in by wrapping
/// 16-bit addition. `None` when no instrument is loaded or the index falls
/// outside the table; the renderer then leaves the buffer silent.
pub open spec fn spec_period(ch: SampleChannel) -> Option<u16> {
    match ch.instr {
        None => None,
        Some(ins) => {
            let idx = (ins.base_octave + 1) * OCTAVE_SIZE + ch.pitch;
            match spec_pitch_lookup(idx) {
                Some(p) => Some(
                    vstd::wrapping::u16_specs::wrapping_add_signed(p, ch.pitch_adjust),
                ),
                None => None,
            }
        },
    }
}

/// A fresh voice: silent, full volume, default pitch, interpolating.
pub open spec fn spec_channel_init() -> SampleChannel {
    SampleChannel {
        instr: None,
        volume: MAX_VOLUME,
        volume_adjust: 0,
        pitch: DEFAULT_PITCH,
        pitch_adjust: 0,
        phase_bits: 0,
        lerp: true,
    }
}

impl SampleChannel {
    /// A fresh voice: silent, full volume, default pitch, interpolating.
    pub fn new() -> (r: SampleChannel)
        ensures
            r == spec_channel_init(),
    {
        SampleChannel {
            instr: None,
            volume: MAX_VOLUME,
            volume_adjust: 0,
            pitch: DEFAULT_PITCH,
            pitch_adjust: 0,
            phase_bits: 0,
            lerp: true,
        }
    }

    /// Trigger a sound at once: keep a copy of the instrument and rewind
    /// the play position to the start.
    pub fn play(&mut self, instr: &Instrument)
        ensures
            *final(self) == (SampleChannel { instr: Some(*instr), phase_bits: 0, ..*old(self) }),
    {
        self.instr = Some(instr.clone());
        self.phase_bits = 0;
    }

    /// Stop a running sound at a convenient point: mark the copy one-shot
    /// so the voice dies at its next loop boundary.
    pub fn stop(&mut self)
        ensures
            old(self).instr matches Some(ins) ==> *final(self) == (SampleChannel {
                instr: Some(Instrument { is_one_shot: true, ..ins }),
                ..*old(self)
            }),
            old(self).instr is None ==> *final(self) == *old(self),
    {
        if let Some(current_instr) = &mut self.instr {
            current_instr.is_one_shot = true;
        }
    }

    /// Stop a running sound immediately.
    pub fn stop_hard(&mut self)
        ensures
            *final(self) == spec_stopped(*old(self)),
    {
        self.instr = None;
    }

    /// Stop the sound only if its loop starts at zero - a quirk of the
    /// driver's Rest opcode.
    pub fn stop_loop(&mut self)
        ensures
            *final(self) == if old(self).instr matches Some(ins) && ins.loop_offset == 0 {
                spec_stopped(*old(self))
            } else {
                *old(self)
            },
    {
        let mut drop_it = false;
        if let Some(instrument) = &self.instr {
            if instrument.loop_offset == 0 {
                drop_it = true;
            }
        }
        if drop_it {
            self.stop_hard();
        }
    }

    /// Period ticks for the current instrument and pitch; see
    /// [`spec_period`].
    pub fn period(&self) -> (r: Option<u16>)
        ensures
            r == spec_period(*self),
    {
        let ins = match &self.instr {
            None => {
                return None;
            },
            Some(ins) => ins,
        };
        let base = match ins.base_octave.checked_add(1) {
            Some(b) => b,
            None => {
                return None;
            },
        };
        let base = match base.checked_mul(OCTAVE_SIZE) {
            Some(b) => b,
            None => {
                return None;
            },
        };
        let idx = match base.checked_add(self.pitch) {
            Some(i) => i,
            None => {
                return None;
            },
        };
        match pitch_period(idx) {
            Some(p) => Some(p.wrapping_add_signed(self.pitch_adjust)),
            None => None,
        }
    }

    /// Decide what happens at integer sample index `idx`; see
    /// [`spec_advance`]. Drops the instrument when a one-shot sample (or a
    /// malformed one) ends.
    pub fn advance(&mut self, bank: &SoundBank, idx: usize) -> (r: SampleStep)
        ensures
            (*final(self), r) == spec_advance(*old(self), bank.data@, idx as int),
    {
        let ins = match &self.instr {
            None => {
                return SampleStep::NoVoice;
            },
            Some(ins) => ins.clone(),
        };
        let span = (ins.sample_len as usize) * 2;
        if idx >= span {
            if ins.is_one_shot || (ins.loop_offset as usize) >= span {
                self.instr = None;
                return SampleStep::Ended;
            }
            return SampleStep::Rewind { amount: span - (ins.loop_offset as usize) };
        }
        let sample_end = match ins.sample_addr.checked_add(span) {
            Some(e) => e,
            None => {
                proof {
                    assert(bank.data@.len() == bank.data.len());
                }
                self.instr = None;
                return SampleStep::Ended;
            },
        };
        if sample_end > bank.data.len() {
            self.instr = None;
            return SampleStep::Ended;
        }
        let left = bank.data[ins.sample_addr + idx];
        let right = if idx + 1 == span {
            if ins.is_one_shot || (ins.loop_offset as usize) >= span {
                0u8
            } else {
                bank.data[ins.sample_addr + (ins.loop_offset as usize)]
            }
        } else {
            bank.data[ins.sample_addr + idx + 1]
        };
        SampleStep::Sample { left, right }
    }

    /// The voice plays as long as it holds an instrument.
    pub fn is_playing(&self) -> (r: bool)
        ensures
            r == (self.instr is Some),
    {
        self.instr.is_some()
    }
}

/// Silence: a voice without an instrument plays at no period and answers
/// every sample index with `NoVoice`, unchanged - the renderer writes
/// equilibrium for the whole buffer and nothing can wake the voice up
/// but a new trigger.
pub proof fn lemma_silent_voice_stays_silent(ch: SampleChannel, data: Seq<u8>, idx: int)
    requires
        ch.instr is None,
    ensures
        spec_period(ch) is None,
        spec_advance(ch, data, idx) == (ch, SampleStep::NoVoice),
{
}

/// One-shot termination: once the play position of a one-shot instrument
/// reaches the end of its sample, the next decision drops the voice and
/// everything after it stays silent.
pub proof fn lemma_one_shot_terminates(ch: SampleChannel, data: Seq<u8>, idx: int)
    requires
        ch.instr matches Some(ins) && ins.is_one_shot,
        idx >= spec_sample_span(ch.instr->Some_0),
    ensures
        spec_advance(ch, data, idx).1 == SampleStep::Ended,
        spec_advance(ch, data, idx).0.instr is None,
{
}

/// Loop continuity: a looped instrument that runs at most one loop length
/// past its end rewinds by exactly the loop length
/// `2 * sample_len - loop_offset`, and the rewound position lands back
/// inside `[loop_offset, 2 * sample_len)`.
pub proof fn lemma_loop_continuity(ch: SampleChannel, data: Seq<u8>, idx: int)
    requires
        ch.instr matches Some(ins) && !ins.is_one_shot,
        ch.instr->Some_0.loop_offset < spec_sample_span(ch.instr->Some_0),
        spec_sample_span(ch.instr->Some_0) <= idx,
        idx < 2 * spec_sample_span(ch.instr->Some_0) - ch.instr->Some_0.loop_offset,
    ensures
        spec_advance(ch, data, idx).0 == ch,
        spec_advance(ch, data, idx).1 == (SampleStep::Rewind {
            amount: (spec_sample_span(ch.instr->Some_0) - ch.instr->Some_0.loop_offset) as usize,
        }),
        ({
            let amount = spec_sample_span(ch.instr->Some_0) - ch.instr->Some_0.loop_offset;
            ch.instr->Some_0.loop_offset <= idx - amount < spec_sample_span(ch.instr->Some_0)
        }),
{
}

} // verus!
