//! The four-voice synthesiser.
//!
//! The synth owns exactly four sound channels and the stereo switch. The
//! floating-point mixer lives outside the crate; it renders each channel
//! into a mono scratch buffer and adds it, scaled by a quarter, into the
//! interleaved output. In stereo the output slot for each scratch sample
//! comes from [`stereo_slot`]: even channels land on lane 0, odd channels
//! on lane 1, and lanes from 2 up are never written.

use vstd::prelude::*;

use crate::sound_channel::SoundChannel;
use crate::sound_model::Instrument;
use crate::sound_model::SoundBank;

verus! {

/// Voices mixed by the synthesiser.
pub const NUM_VOICES: usize = 4;

/// A game sound: one sequence index per voice, 0 meaning the voice stays
/// free.
#[derive(Clone, Copy, Debug)]
pub struct Sound {
    pub sequences: [usize; 4],
}

/// The four-voice synthesiser.
#[derive(Clone, Debug)]
pub struct Synth {
    /// The four voices.
    pub channels: Vec<SoundChannel>,
    /// Stereo panning switch for the mixer.
    pub stereo: bool,
}

impl Synth {
    /// Exactly four well-formed voices.
    pub open spec fn wf(self) -> bool {
        &&& self.channels@.len() == NUM_VOICES
        &&& forall|c: int| 0 <= c < self.channels@.len() ==> self.channels@[c].wf()
    }

    /// A fresh synthesiser: four silent voices, stereo on.
    pub fn new() -> (r: Synth)
        ensures
            r.wf(),
            r.stereo,
            forall|c: int| 0 <= c < r.channels@.len() ==> r.channels@[c].sequence is None
                && r.channels@[c].sample_channel.instr is None,
    {
        let mut channels: Vec<SoundChannel> = Vec::new();
        channels.push(SoundChannel::new());
        channels.push(SoundChannel::new());
        channels.push(SoundChannel::new());
        channels.push(SoundChannel::new());
        Synth { channels, stereo: true }
    }

    /// Trigger an instrument on voice 0.
    pub fn play_instr(&mut self, instr: &Instrument)
        requires
            old(self).wf(),
        ensures
            final(self).wf(),
            final(self).stereo == old(self).stereo,
            final(self).channels@.len() == old(self).channels@.len(),
            final(self).channels@[0] == (SoundChannel {
                sample_channel: crate::sample_channel::SampleChannel {
                    instr: Some(*instr),
                    phase_bits: 0,
                    ..old(self).channels@[0].sample_channel
                },
                ..old(self).channels@[0]
            }),
            forall|c: int|
                1 <= c < old(self).channels@.len() ==> final(self).channels@[c] == old(
                    self,
                ).channels@[c],
    {
        let mut ch = self.channels.remove(0);
        ch.play_instr(instr);
        self.channels.insert(0, ch);
    }

    /// Attach sequence `idx` of the bank to voice 0; an out-of-range index
    /// leaves the synth as it is.
    pub fn play_seq(&mut self, bank: &SoundBank, idx: usize)
        requires
            old(self).wf(),
        ensures
            final(self).wf(),
            final(self).stereo == old(self).stereo,
            final(self).channels@.len() == old(self).channels@.len(),
            idx < bank.sequences@.len() ==> final(self).channels@[0].sequence is Some
                && final(self).channels@[0].sequence->Some_0@
                == crate::sequence::spec_sequence_init(bank.sequences@[idx as int]),
            idx >= bank.sequences@.len() ==> final(self).channels@[0].sequence == old(
                self,
            ).channels@[0].sequence,
            final(self).channels@[0].sample_channel == old(self).channels@[0].sample_channel,
            final(self).channels@[0].samples_remaining == old(
                self,
            ).channels@[0].samples_remaining,
            final(self).channels@[0].options == old(self).channels@[0].options,
            forall|c: int|
                1 <= c < old(self).channels@.len() ==> final(self).channels@[c] == old(
                    self,
                ).channels@[c],
    {
        let mut ch = self.channels.remove(0);
        ch.play_seq(bank, idx);
        self.channels.insert(0, ch);
    }

    /// Start a game sound: each voice whose slot names a sequence (index
    /// not 0) starts playing it.
    pub fn play_sound(&mut self, bank: &SoundBank, sound: &Sound)
        requires
            old(self).wf(),
        ensures
            final(self).wf(),
            final(self).stereo == old(self).stereo,
            final(self).channels@.len() == old(self).channels@.len(),
            forall|c: int|
                #![trigger final(self).channels@[c]]
                0 <= c < final(self).channels@.len() ==> {
                    let want = sound.sequences@[c];
                    if want != 0 && want < bank.sequences@.len() {
                        final(self).channels@[c].sequence is Some
                            && final(self).channels@[c].sequence->Some_0@
                            == crate::sequence::spec_sequence_init(
                            bank.sequences@[want as int],
                        )
                    } else {
                        final(self).channels@[c].sequence == old(self).channels@[c].sequence
                    }
                },
            forall|c: int|
                #![trigger final(self).channels@[c].sample_channel]
                0 <= c < final(self).channels@.len() ==> {
                    &&& final(self).channels@[c].sample_channel == old(
                        self,
                    ).channels@[c].sample_channel
                    &&& final(self).channels@[c].samples_remaining == old(
                        self,
                    ).channels@[c].samples_remaining
                    &&& final(self).channels@[c].options == old(self).channels@[c].options
                },
    {
        let mut c: usize = 0;
        while c < 4
            invariant
                self.wf(),
                self.channels@.len() == old(self).channels@.len() == 4,
                self.stereo == old(self).stereo,
                c <= 4,
                forall|k: int|
                    #![trigger self.channels@[k]]
                    0 <= k < c ==> {
                        let want = sound.sequences@[k];
                        if want != 0 && want < bank.sequences@.len() {
                            self.channels@[k].sequence is Some
                                && self.channels@[k].sequence->Some_0@
                                == crate::sequence::spec_sequence_init(
                                bank.sequences@[want as int],
                            )
                        } else {
                            self.channels@[k].sequence == old(self).channels@[k].sequence
                        }
                    },
                forall|k: int| c <= k < 4 ==> self.channels@[k] == old(self).channels@[k],
                forall|k: int|
                    #![trigger self.channels@[k].sample_channel]
                    0 <= k < 4 ==> {
                        &&& self.channels@[k].sample_channel == old(
                            self,
                        ).channels@[k].sample_channel
                        &&& self.channels@[k].samples_remaining == old(
                            self,
                        ).channels@[k].samples_remaining
                        &&& self.channels@[k].options == old(self).channels@[k].options
                    },
            decreases 4 - c,
        {
            let seq_idx = sound.sequences[c];
            if seq_idx != 0 {
                let mut ch = self.channels.remove(c);
                ch.play_seq(bank, seq_idx);
                self.channels.insert(c, ch);
            }
            c = c + 1;
        }
    }

    /// Whether any voice is still playing or about to.
    pub fn any_active(&self) -> (r: bool)
        requires
            self.wf(),
        ensures
            r == exists|c: int|
                0 <= c < self.channels@.len() && (self.channels@[c].sequence is Some
                    || self.channels@[c].sample_channel.instr is Some),
    {
        let mut c: usize = 0;
        let mut found = false;
        while c < self.channels.len()
            invariant
                c <= self.channels@.len(),
                found == exists|k: int|
                    0 <= k < c && (self.channels@[k].sequence is Some
                        || self.channels@[k].sample_channel.instr is Some),
            decreases self.channels@.len() - c,
        {
            if self.channels[c].is_active() {
                found = true;
            }
            c = c + 1;
        }
        found
    }
}

/// Where sample `frame` of channel `ch_idx` lands in the interleaved
/// stereo output: even channels on lane 0, odd channels on lane 1.
pub open spec fn spec_stereo_slot(ch_idx: int, num_channels: int, frame: int) -> int {
    frame * num_channels + ch_idx % 2
}

/// Output slot for one scratch sample in stereo, `None` when it cannot be
/// represented (the mixer then has no room for the sample anyway).
pub fn stereo_slot(ch_idx: usize, num_channels: usize, frame: usize) -> (r: Option<usize>)
    requires
        num_channels >= 2,
    ensures
        r matches Some(i) ==> i == spec_stereo_slot(ch_idx as int, num_channels as int, frame as int),
        r is None <==> spec_stereo_slot(ch_idx as int, num_channels as int, frame as int)
            > usize::MAX,
{
    let base = match frame.checked_mul(num_channels) {
        Some(b) => b,
        None => {
            proof {
                assert((frame * num_channels) as int + (ch_idx % 2) as int > usize::MAX as int)
                    by (nonlinear_arith)
                    requires
                        frame * num_channels > usize::MAX,
                        ch_idx % 2 >= 0,
                ;
            }
            return None;
        },
    };
    match base.checked_add(ch_idx % 2) {
        Some(i) => Some(i),
        None => None,
    }
}

/// Stereo routing: with at least two output lanes, every slot a channel
/// writes lies on lane `ch_idx % 2` - channels 0 and 2 write lane 0,
/// channels 1 and 3 write lane 1, and no lane from 2 up is ever written.
pub proof fn lemma_stereo_routing(ch_idx: int, num_channels: int, frame: int)
    requires
        num_channels >= 2,
        frame >= 0,
        ch_idx >= 0,
    ensures
        spec_stereo_slot(ch_idx, num_channels, frame) % num_channels == ch_idx % 2,
        ch_idx % 2 < 2,
{
    let lane = ch_idx % 2;
    vstd::arithmetic::div_mod::lemma_mod_multiples_vanish(frame, lane, num_channels);
    assert((num_channels * frame + lane) % num_channels == lane % num_channels);
    assert(num_channels * frame == frame * num_channels) by (nonlinear_arith);
    vstd::arithmetic::div_mod::lemma_small_mod(lane as nat, num_channels as nat);
}

} // verus!
