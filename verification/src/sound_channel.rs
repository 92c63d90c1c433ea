//! One of the four mixed voices: a sample channel, the sequence driving
//! it, the user's switches, and the frame metronome.
//!
//! Sequence frames tick at 50 Hz, spaced `sample_rate / 50` output samples
//! apart. `samples_remaining` counts the samples left until the next tick.
//! The renderer outside the crate fills a buffer in spans: it asks
//! [`SoundChannel::next_span`] how many samples it may render, renders
//! them, and either calls [`SoundChannel::frame_tick`] (the span reached a
//! frame boundary: the sequence advances one frame and the metronome
//! rearms) or [`SoundChannel::consume`] (the buffer ended first). Every
//! decision about where the ticks fall is made - and proved - here.

use vstd::prelude::*;

use crate::sample_channel::SampleChannel;
use crate::sequence::Options;
use crate::sequence::Sequence;
use crate::sequence::spec_step_frame;
use crate::sound_model::Instrument;
use crate::sound_model::SoundBank;

verus! {

/// Sequence frames per second.
pub const FRAMES_PER_SECOND: usize = 50;

/// A voice of the synthesiser.
#[derive(Clone, Debug)]
pub struct SoundChannel {
    /// The emulated Paula voice.
    pub sample_channel: SampleChannel,
    /// Output samples left until the next 50 Hz frame tick.
    pub samples_remaining: usize,
    /// The running sequence, if one is attached.
    pub sequence: Option<Sequence>,
    /// The user's per-voice switches.
    pub options: Options,
}

impl SoundChannel {
    /// An attached sequence always has the table-shaped effect rows.
    pub open spec fn wf(self) -> bool {
        self.sequence matches Some(s) ==> s.wf()
    }

    /// A fresh voice: silent, no sequence, every option on, a tick due at
    /// once.
    pub fn new() -> (r: SoundChannel)
        ensures
            r.sample_channel == crate::sample_channel::spec_channel_init(),
            r.samples_remaining == 0,
            r.sequence is None,
            r.options == (Options { tremolo: true, vibrato: true, repeats: true }),
            r.wf(),
    {
        SoundChannel {
            sample_channel: SampleChannel::new(),
            samples_remaining: 0,
            sequence: None,
            options: Options::new(),
        }
    }

    /// Trigger an instrument directly on this voice.
    pub fn play_instr(&mut self, instr: &Instrument)
        requires
            old(self).wf(),
        ensures
            final(self).wf(),
            final(self).sample_channel == (SampleChannel {
                instr: Some(*instr),
                phase_bits: 0,
                ..old(self).sample_channel
            }),
            final(self).samples_remaining == old(self).samples_remaining,
            final(self).sequence == old(self).sequence,
            final(self).options == old(self).options,
    {
        self.sample_channel.play(instr);
    }

    /// Attach sequence `seq` of the bank to this voice; out-of-range
    /// indices leave the voice as it is.
    pub fn play_seq(&mut self, bank: &SoundBank, seq: usize)
        requires
            old(self).wf(),
        ensures
            final(self).wf(),
            seq < bank.sequences@.len() ==> (final(self).sequence matches Some(s) && s@
                == crate::sequence::spec_sequence_init(bank.sequences@[seq as int])),
            seq >= bank.sequences@.len() ==> final(self).sequence == old(self).sequence,
            final(self).sample_channel == old(self).sample_channel,
            final(self).samples_remaining == old(self).samples_remaining,
            final(self).options == old(self).options,
    {
        if seq < bank.sequences.len() {
            let addr = bank.sequences[seq];
            self.sequence = Some(Sequence::new(addr));
        }
    }

    /// Stop the voice at a convenient point and detach its sequence.
    pub fn stop(&mut self)
        requires
            old(self).wf(),
        ensures
            final(self).wf(),
            final(self).sequence is None,
            old(self).sample_channel.instr matches Some(ins) ==> final(self).sample_channel == (
            SampleChannel {
                instr: Some(Instrument { is_one_shot: true, ..ins }),
                ..old(self).sample_channel
            }),
            old(self).sample_channel.instr is None ==> final(self).sample_channel == old(
                self,
            ).sample_channel,
            final(self).samples_remaining == old(self).samples_remaining,
            final(self).options == old(self).options,
    {
        self.sample_channel.stop();
        self.sequence = None;
    }

    /// Stop the voice immediately and detach its sequence.
    pub fn stop_hard(&mut self)
        requires
            old(self).wf(),
        ensures
            final(self).wf(),
            final(self).sequence is None,
            final(self).sample_channel == crate::sample_channel::spec_stopped(
                old(self).sample_channel,
            ),
            final(self).samples_remaining == old(self).samples_remaining,
            final(self).options == old(self).options,
    {
        self.sample_channel.stop_hard();
        self.sequence = None;
    }

    /// The voice is audible or about to be: a sequence is attached or an
    /// instrument is loaded.
    pub fn is_active(&self) -> (r: bool)
        ensures
            r == (self.sequence is Some || self.sample_channel.instr is Some),
    {
        self.sequence.is_some() || self.sample_channel.is_playing()
    }

    /// How many of `avail` remaining output samples the renderer may fill
    /// before this voice needs attention again: the second component says
    /// whether a frame boundary is reached (call [`SoundChannel::frame_tick`])
    /// or the buffer ends first (call [`SoundChannel::consume`]).
    pub fn next_span(&self, avail: usize) -> (r: (usize, bool))
        ensures
            r == if avail >= self.samples_remaining {
                (self.samples_remaining, true)
            } else {
                (avail, false)
            },
    {
        if avail >= self.samples_remaining {
            (self.samples_remaining, true)
        } else {
            (avail, false)
        }
    }

    /// A frame boundary: advance the sequence one 50 Hz frame (detaching
    /// it when it ends) and rearm the metronome with `sample_rate / 50`
    /// samples.
    pub fn frame_tick(&mut self, bank: &SoundBank, sample_rate: u32)
        requires
            old(self).wf(),
            sample_rate >= 50,
        ensures
            final(self).wf(),
            final(self).samples_remaining == sample_rate as int / 50,
            final(self).options == old(self).options,
            old(self).sequence is None ==> final(self).sequence is None
                && final(self).sample_channel == old(self).sample_channel,
            old(self).sequence matches Some(sq) ==> ({
                let (sm, chm, running) = spec_step_frame(
                    sq@,
                    *bank,
                    old(self).sample_channel,
                    old(self).options,
                );
                &&& final(self).sample_channel == chm
                &&& running ==> (final(self).sequence matches Some(ns) && ns@ == sm)
                &&& !running ==> final(self).sequence is None
            }),
    {
        let mut running = true;
        match &mut self.sequence {
            Some(sequence) => {
                running = sequence.step_frame(bank, &mut self.sample_channel, &self.options);
            },
            None => {},
        }
        if !running {
            self.sequence = None;
        }
        self.samples_remaining = (sample_rate / 50) as usize;
    }

    /// The buffer ended inside the current frame: book the `n` samples
    /// just rendered against the metronome.
    pub fn consume(&mut self, n: usize)
        requires
            old(self).wf(),
            n <= old(self).samples_remaining,
        ensures
            final(self).wf(),
            *final(self) == (SoundChannel {
                samples_remaining: (old(self).samples_remaining - n) as usize,
                ..*old(self)
            }),
    {
        self.samples_remaining = self.samples_remaining - n;
    }
}

/// How many frame ticks fall inside a fill of `len` samples that starts
/// with `rem` samples left to the next tick and then spaces ticks `spf`
/// samples apart: one when the first boundary is reached, plus one for
/// every further whole frame.
pub open spec fn spec_frame_ticks(rem: int, spf: int, len: int) -> int
    recommends
        spf >= 1,
        0 <= rem,
        0 <= len,
{
    if len >= rem {
        1 + (len - rem) / spf
    } else {
        0
    }
}

/// The tick count follows the renderer's span protocol: a fill long
/// enough to reach the next boundary ticks once there and then continues
/// as a fill of the rest with a full frame pending.
pub proof fn lemma_frame_ticks_step(rem: int, spf: int, len: int)
    requires
        spf >= 1,
        0 <= rem <= len,
    ensures
        spec_frame_ticks(rem, spf, len) == 1 + spec_frame_ticks(spf, spf, len - rem),
{
    let m = len - rem;
    if m >= spf {
        vstd::arithmetic::div_mod::lemma_div_plus_one(m - spf, spf);
        assert(m / spf == 1 + (m - spf) / spf);
    } else {
        vstd::arithmetic::div_mod::lemma_basic_div(m, spf);
        assert(m / spf == 0);
    }
}

/// Frame accounting: over any `k` whole frames' worth of samples -
/// `k * spf` of them, starting at a frame boundary - exactly `k` ticks
/// are delivered.
pub proof fn lemma_frame_accounting(spf: int, k: int)
    requires
        spf >= 1,
        k >= 0,
    ensures
        spec_frame_ticks(spf, spf, k * spf) == k,
{
    if k == 0 {
        assert(k * spf == 0) by (nonlinear_arith)
            requires k == 0;
    } else {
        assert(k * spf >= spf) by (nonlinear_arith)
            requires k >= 1 && spf >= 1;
        assert((k * spf - spf) == (k - 1) * spf) by (nonlinear_arith);
        vstd::arithmetic::div_mod::lemma_div_by_multiple(k - 1, spf);
        assert((k - 1) * spf / spf == k - 1);
    }
}

} // verus!
