//! The sequence interpreter: a byte-code VM driving one voice.
//!
//! A sequence is a program counter into the bank image plus the state the
//! opcodes act on: tempo, note length, transposition, the selected effect
//! and its counters, and one stack shared by `Call`/`Return` frames (count
//! 0) and `For`/`Next` frames (count > 0).
//!
//! Each [`Sequence::eval`] step consumes one opcode. Opcodes that only
//! change state answer `Cont`, so a frame keeps dispatching until a note,
//! rest or restart suspends it (`Done`) or the sequence ends (`Stop`).
//! Malformed programs - reads past the image, a bad table index, a `Return`
//! against a `For` frame, division by a zero tempo - end the sequence with
//! `Stop`: the voice falls silent and the rest of the synth plays on.
//! A frame dispatches at most [`DISPATCH_BUDGET`] opcodes; a program that
//! is still asking for more (it can only be spinning through jumps) is
//! treated as stopped rather than letting it starve the audio callback.

use vstd::prelude::*;

use crate::effects::EffectState;
use crate::effects::EffectStateModel;
use crate::effects::spec_effect_state_init;
use crate::effects::spec_effect_state_reset;
use crate::effects::spec_step;
use crate::sample_channel::SampleChannel;
use crate::sample_channel::spec_stopped;
use crate::sound_data::Effect;
use crate::sound_data::EffectModel;
use crate::sound_data::NUM_EFFECTS;
use crate::sound_data::effect;
use crate::sound_data::no_effect;
use crate::sound_data::spec_effect;
use crate::sound_model::SoundBank;

verus! {

/// Most opcodes one frame may dispatch before the program is treated as
/// stopped.
pub const DISPATCH_BUDGET: usize = 65536;

/// Per-voice switches the user can flip: whether the two effect deltas are
/// applied and whether the `Restart` opcode may loop the sequence.
#[derive(Clone, Copy, Debug, Eq, PartialEq, Structural)]
pub struct Options {
    pub tremolo: bool,
    pub vibrato: bool,
    pub repeats: bool,
}

impl Options {
    /// Everything on, as the driver ships.
    pub fn new() -> (r: Options)
        ensures
            r == (Options { tremolo: true, vibrato: true, repeats: true }),
    {
        Options { tremolo: true, vibrato: true, repeats: true }
    }
}

/// What one dispatched opcode asks of the frame loop.
#[derive(Clone, Copy, Debug, Eq, PartialEq, Structural)]
pub enum EvalResult {
    /// The frame is spent (a note was started, a rest taken, or a gated
    /// restart reached).
    Done,
    /// Only state changed; dispatch the next opcode within this frame.
    Cont,
    /// The sequence is over; the voice is to be silenced.
    Stop,
}

/// One running voice's VM state.
#[derive(Clone, Debug)]
pub struct Sequence {
    /// Program counter: next opcode byte in the bank image.
    pub addr: usize,
    /// Where the sequence started; `Restart` jumps back here.
    pub start_addr: usize,
    /// 50 Hz frames per beat, set by `Tempo` as `750 / bpm`.
    pub frames_per_beat: usize,
    /// Signed quarter-semitone offset added to every note.
    pub transposition: i32,
    /// Which instrument a note triggers.
    pub instrument_idx: usize,
    /// Frames a note lasts, set by `SetLen` in beats.
    pub note_len: usize,
    /// Frames left before the next dispatch.
    pub ttl: usize,
    /// The selected effect's bend templates.
    pub effect: Effect,
    /// The counters running over those templates.
    pub effect_state: EffectState,
    /// `Call`/`Return` and `For`/`Next` frames: (remaining count, address).
    pub loop_stack: Vec<(u8, usize)>,
}

/// Mathematical image of a [`Sequence`].
#[verifier::ext_equal]
pub struct SequenceModel {
    pub addr: usize,
    pub start_addr: usize,
    pub frames_per_beat: usize,
    pub transposition: i32,
    pub instrument_idx: usize,
    pub note_len: usize,
    pub ttl: usize,
    pub effect: EffectModel,
    pub effect_state: EffectStateModel,
    pub loop_stack: Seq<(u8, usize)>,
}

impl View for Sequence {
    type V = SequenceModel;

    open spec fn view(&self) -> SequenceModel {
        SequenceModel {
            addr: self.addr,
            start_addr: self.start_addr,
            frames_per_beat: self.frames_per_beat,
            transposition: self.transposition,
            instrument_idx: self.instrument_idx,
            note_len: self.note_len,
            ttl: self.ttl,
            effect: self.effect@,
            effect_state: self.effect_state@,
            loop_stack: self.loop_stack@,
        }
    }
}

impl SequenceModel {
    /// The effect rows and their counters have the table shape.
    pub open spec fn wf(self) -> bool {
        self.effect.wf() && self.effect_state.wf()
    }
}

impl Sequence {
    /// The effect rows and their counters have the table shape.
    pub open spec fn wf(self) -> bool {
        self@.wf()
    }
}

/// The operand byte `b` read as the driver's signed 8-bit value.
pub open spec fn spec_signed_byte(b: u8) -> i32 {
    if b < 128 {
        b as i32
    } else {
        (b - 256) as i32
    }
}

/// A fresh sequence at entry point `addr`: no tempo, no transposition,
/// instrument 0, the no-op effect, an empty stack.
pub open spec fn spec_sequence_init(addr: usize) -> SequenceModel {
    SequenceModel {
        addr,
        start_addr: addr,
        frames_per_beat: 0,
        transposition: 0,
        instrument_idx: 0,
        note_len: 0,
        ttl: 0,
        effect: spec_effect(0)->Some_0,
        effect_state: spec_effect_state_init(),
        loop_stack: Seq::empty(),
    }
}

/// What dispatching one opcode does: the new VM state, the new voice
/// state, and whether the frame goes on. The reference for every opcode;
/// [`Sequence::eval`] is proved to match it exactly.
pub open spec fn spec_eval(
    s: SequenceModel,
    bank: SoundBank,
    ch: SampleChannel,
    opts: Options,
) -> (SequenceModel, SampleChannel, EvalResult) {
    let d = bank.data@;
    if s.addr >= d.len() {
        (s, ch, EvalResult::Stop)
    } else {
        let code = d[s.addr as int];
        let s1 = SequenceModel { addr: (s.addr + 1) as usize, ..s };
        if code < 0x80 {
            // Note: rearm the effect, set the pitch, trigger the
            // instrument, arm the frame countdown.
            if s.instrument_idx >= bank.instruments@.len() {
                (s1, ch, EvalResult::Stop)
            } else {
                let pitch = vstd::wrapping::usize_specs::wrapping_add_signed(
                    (code * 4) as usize,
                    s.transposition as isize,
                );
                (
                    SequenceModel {
                        effect_state: spec_effect_state_reset(s.effect_state, s.effect),
                        ttl: s.note_len,
                        ..s1
                    },
                    SampleChannel {
                        instr: Some(bank.instruments@[s.instrument_idx as int]),
                        phase_bits: 0,
                        pitch,
                        ..ch
                    },
                    EvalResult::Done,
                )
            }
        } else if code == 0x88 {
            // Restart: a gate when repeats are off, else back to the top.
            if !opts.repeats {
                (s1, ch, EvalResult::Done)
            } else {
                (SequenceModel { addr: s.start_addr, ..s1 }, ch, EvalResult::Cont)
            }
        } else if code == 0x90 {
            // Rest.
            (s1, spec_stopped_loop(ch), EvalResult::Done)
        } else if code == 0xac {
            // Stop.
            (s1, ch, EvalResult::Stop)
        } else if code == 0xb4 {
            // Return: pop a call frame; an empty stack or a `For` frame
            // ends the sequence.
            if s.loop_stack.len() == 0 {
                (s1, ch, EvalResult::Stop)
            } else {
                let (count, ret_addr) = s.loop_stack.last();
                let s2 = SequenceModel { loop_stack: s.loop_stack.drop_last(), ..s1 };
                if count == 0 {
                    (SequenceModel { addr: ret_addr, ..s2 }, ch, EvalResult::Cont)
                } else {
                    (s2, ch, EvalResult::Stop)
                }
            }
        } else if code == 0xc4 {
            // Next: bounce back while the top frame has count left.
            if s.loop_stack.len() == 0 {
                (s1, ch, EvalResult::Stop)
            } else {
                let (count, loop_addr) = s.loop_stack.last();
                if count == 0 {
                    (
                        SequenceModel { loop_stack: s.loop_stack.drop_last(), ..s1 },
                        ch,
                        EvalResult::Cont,
                    )
                } else {
                    (
                        SequenceModel {
                            addr: loop_addr,
                            loop_stack: s.loop_stack.update(
                                s.loop_stack.len() - 1,
                                ((count - 1) as u8, loop_addr),
                            ),
                            ..s1
                        },
                        ch,
                        EvalResult::Cont,
                    )
                }
            }
        } else if code == 0x80 || code == 0x8c || code == 0x94 || code == 0x9c || code == 0xa8
            || code == 0xb0 || code == 0xb8 || code == 0xbc || code == 0xc0 || code == 0xd0
            || code == 0xd4 {
            // All two-byte opcodes: fetch the operand first.
            if s1.addr >= d.len() {
                (s1, ch, EvalResult::Stop)
            } else {
                let op = d[s1.addr as int];
                let s2 = SequenceModel { addr: (s1.addr + 1) as usize, ..s1 };
                if code == 0x80 {
                    // SetVol, in 64ths.
                    (s2, SampleChannel { volume: op, ..ch }, EvalResult::Cont)
                } else if code == 0x8c {
                    // SetLen, in beats.
                    if op * s.frames_per_beat > usize::MAX {
                        (s2, ch, EvalResult::Stop)
                    } else {
                        (
                            SequenceModel {
                                note_len: (op * s.frames_per_beat) as usize,
                                ..s2
                            },
                            ch,
                            EvalResult::Cont,
                        )
                    }
                } else if code == 0x94 {
                    // Tempo, in beats per minute against 750 frames.
                    if op == 0 {
                        (s2, ch, EvalResult::Stop)
                    } else {
                        (
                            SequenceModel { frames_per_beat: (750int / (op as int)) as usize, ..s2 },
                            ch,
                            EvalResult::Cont,
                        )
                    }
                } else if code == 0x9c {
                    // SetEffect: table entry plus fresh counters.
                    if op >= NUM_EFFECTS {
                        (s2, ch, EvalResult::Stop)
                    } else {
                        (
                            SequenceModel {
                                effect: spec_effect(op as int)->Some_0,
                                effect_state: spec_effect_state_init(),
                                ..s2
                            },
                            ch,
                            EvalResult::Cont,
                        )
                    }
                } else if code == 0xa8 {
                    // LoopFlags.
                    (
                        SequenceModel {
                            effect_state: EffectStateModel {
                                tremolo_loops: op & 1 != 0,
                                vibrato_loops: op & 2 != 0,
                                ..s.effect_state
                            },
                            ..s2
                        },
                        ch,
                        EvalResult::Cont,
                    )
                } else if code == 0xb0 {
                    // Call: push the return address, jump to the entry.
                    if op >= bank.sequences@.len() {
                        (s2, ch, EvalResult::Stop)
                    } else {
                        (
                            SequenceModel {
                                addr: bank.sequences@[op as int],
                                loop_stack: s.loop_stack.push((0u8, s2.addr)),
                                ..s2
                            },
                            ch,
                            EvalResult::Cont,
                        )
                    }
                } else if code == 0xb8 {
                    // TransRel: operand 0 clears, else adds.
                    if op == 0 {
                        (SequenceModel { transposition: 0, ..s2 }, ch, EvalResult::Cont)
                    } else {
                        (
                            SequenceModel {
                                transposition: vstd::wrapping::i32_specs::wrapping_add(
                                    s.transposition,
                                    spec_signed_byte(op),
                                ),
                                ..s2
                            },
                            ch,
                            EvalResult::Cont,
                        )
                    }
                } else if code == 0xbc {
                    // TransAbs.
                    (
                        SequenceModel { transposition: spec_signed_byte(op), ..s2 },
                        ch,
                        EvalResult::Cont,
                    )
                } else if code == 0xc0 {
                    // For: push a counted frame.
                    (
                        SequenceModel {
                            loop_stack: s.loop_stack.push((op, s2.addr)),
                            ..s2
                        },
                        ch,
                        EvalResult::Cont,
                    )
                } else if code == 0xd0 {
                    // SetInstr.
                    (
                        SequenceModel { instrument_idx: op as usize, ..s2 },
                        ch,
                        EvalResult::Cont,
                    )
                } else {
                    // Jump.
                    if op >= bank.sequences@.len() {
                        (s2, ch, EvalResult::Stop)
                    } else {
                        (
                            SequenceModel { addr: bank.sequences@[op as int], ..s2 },
                            ch,
                            EvalResult::Cont,
                        )
                    }
                }
            }
        } else {
            // Unknown opcode: bail out.
            (s1, ch, EvalResult::Stop)
        }
    }
}

/// The Rest opcode's effect on the voice: drop it only when its loop
/// starts at zero.
pub open spec fn spec_stopped_loop(ch: SampleChannel) -> SampleChannel {
    if ch.instr matches Some(ins) && ins.loop_offset == 0 {
        spec_stopped(ch)
    } else {
        ch
    }
}

impl Sequence {
    /// A fresh sequence whose program starts at `addr`.
    pub fn new(addr: usize) -> (r: Sequence)
        ensures
            r@ == spec_sequence_init(addr),
            r.wf(),
    {
        let r = Sequence {
            addr,
            start_addr: addr,
            frames_per_beat: 0,
            transposition: 0,
            instrument_idx: 0,
            note_len: 0,
            ttl: 0,
            effect: no_effect(),
            effect_state: EffectState::new(),
            loop_stack: Vec::new(),
        };
        proof {
            assert(r@ =~~= spec_sequence_init(addr));
        }
        r
    }

    /// Dispatch one opcode; see [`spec_eval`] for what every opcode does.
    pub fn eval(&mut self, bank: &SoundBank, channel: &mut SampleChannel, options: &Options) -> (r:
        EvalResult)
        requires
            old(self).wf(),
        ensures
            final(self).wf(),
            (final(self)@, *final(channel), r) == spec_eval(
                old(self)@,
                *bank,
                *old(channel),
                *options,
            ),
    {
        let ghost s0 = self@;
        let ghost ch0 = *channel;
        if self.addr >= bank.data.len() {
            return EvalResult::Stop;
        }
        let code = bank.data[self.addr];
        self.addr = self.addr + 1;

        if code < 0x80 {
            if self.instrument_idx >= bank.instruments.len() {
                return EvalResult::Stop;
            }
            self.effect_state.reset(&self.effect);
            channel.pitch = ((code as usize) * 4).wrapping_add_signed(
                self.transposition as isize,
            );
            channel.play(&bank.instruments[self.instrument_idx]);
            self.ttl = self.note_len;
            proof {
                assert((self@, *channel, EvalResult::Done) =~~= spec_eval(s0, *bank, ch0, *options));
            }
            return EvalResult::Done;
        }

        match code {
            0x80 => {
                // Set volume.
                if self.addr >= bank.data.len() {
                    return EvalResult::Stop;
                }
                let volume = bank.data[self.addr];
                self.addr = self.addr + 1;
                channel.volume = volume;
            },
            0x88 => {
                // Go back to start.
                if !options.repeats {
                    return EvalResult::Done;
                }
                self.addr = self.start_addr;
            },
            0x8c => {
                // Set note length.
                if self.addr >= bank.data.len() {
                    return EvalResult::Stop;
                }
                let note_len = bank.data[self.addr];
                self.addr = self.addr + 1;
                match (note_len as usize).checked_mul(self.frames_per_beat) {
                    Some(n) => {
                        self.note_len = n;
                    },
                    None => {
                        return EvalResult::Stop;
                    },
                }
            },
            0x90 => {
                // Rest.
                channel.stop_loop();
                proof {
                    assert((self@, *channel, EvalResult::Done) =~~= spec_eval(
                        s0,
                        *bank,
                        ch0,
                        *options,
                    ));
                }
                return EvalResult::Done;
            },
            0x94 => {
                // Set tempo.
                if self.addr >= bank.data.len() {
                    return EvalResult::Stop;
                }
                let bpm = bank.data[self.addr];
                self.addr = self.addr + 1;
                if bpm == 0 {
                    return EvalResult::Stop;
                }
                self.frames_per_beat = 750 / (bpm as usize);
            },
            0x9c => {
                // Set effect.
                if self.addr >= bank.data.len() {
                    return EvalResult::Stop;
                }
                let idx = bank.data[self.addr];
                self.addr = self.addr + 1;
                match effect(idx as usize) {
                    Some(e) => {
                        self.effect = e;
                        self.effect_state = EffectState::new();
                    },
                    None => {
                        return EvalResult::Stop;
                    },
                }
            },
            0xa8 => {
                // Effects looping flags.
                if self.addr >= bank.data.len() {
                    return EvalResult::Stop;
                }
                let loop_flags = bank.data[self.addr];
                self.addr = self.addr + 1;
                self.effect_state.tremolo_loops = loop_flags & 1 != 0;
                self.effect_state.vibrato_loops = loop_flags & 2 != 0;
            },
            0xac => {
                // Stop.
                return EvalResult::Stop;
            },
            0xb0 => {
                // Call.
                if self.addr >= bank.data.len() {
                    return EvalResult::Stop;
                }
                let seq_idx = bank.data[self.addr];
                self.addr = self.addr + 1;
                if (seq_idx as usize) >= bank.sequences.len() {
                    return EvalResult::Stop;
                }
                self.loop_stack.push((0u8, self.addr));
                self.addr = bank.sequences[seq_idx as usize];
            },
            0xb4 => {
                // Return: a `For` frame on top means the program is
                // malformed, so the sequence ends instead of matching the
                // driver's assertion failure.
                match self.loop_stack.pop() {
                    Some((count, ret_addr)) => {
                        if count != 0 {
                            return EvalResult::Stop;
                        }
                        self.addr = ret_addr;
                    },
                    None => {
                        return EvalResult::Stop;
                    },
                }
            },
            0xb8 => {
                // Add transposition.
                if self.addr >= bank.data.len() {
                    return EvalResult::Stop;
                }
                let op = bank.data[self.addr];
                self.addr = self.addr + 1;
                if op == 0 {
                    self.transposition = 0;
                } else {
                    let delta: i32 = if op < 128 {
                        op as i32
                    } else {
                        (op as i32) - 256
                    };
                    self.transposition = self.transposition.wrapping_add(delta);
                }
            },
            0xbc => {
                // Set transposition.
                if self.addr >= bank.data.len() {
                    return EvalResult::Stop;
                }
                let op = bank.data[self.addr];
                self.addr = self.addr + 1;
                self.transposition = if op < 128 {
                    op as i32
                } else {
                    (op as i32) - 256
                };
            },
            0xc0 => {
                // For loop.
                if self.addr >= bank.data.len() {
                    return EvalResult::Stop;
                }
                let count = bank.data[self.addr];
                self.addr = self.addr + 1;
                self.loop_stack.push((count, self.addr));
            },
            0xc4 => {
                // Next: an empty stack means the program is malformed, so
                // the sequence ends.
                if self.loop_stack.len() == 0 {
                    return EvalResult::Stop;
                }
                let top = self.loop_stack.len() - 1;
                let (count, loop_addr) = self.loop_stack[top];
                if count == 0 {
                    self.loop_stack.pop();
                } else {
                    self.loop_stack.set(top, (count - 1, loop_addr));
                    self.addr = loop_addr;
                }
                proof {
                    assert((self@, *channel, EvalResult::Cont) =~~= spec_eval(
                        s0,
                        *bank,
                        ch0,
                        *options,
                    ));
                }
            },
            0xd0 => {
                // Set instrument.
                if self.addr >= bank.data.len() {
                    return EvalResult::Stop;
                }
                let instr_idx = bank.data[self.addr];
                self.addr = self.addr + 1;
                self.instrument_idx = instr_idx as usize;
            },
            0xd4 => {
                // Jump.
                if self.addr >= bank.data.len() {
                    return EvalResult::Stop;
                }
                let seq_idx = bank.data[self.addr];
                self.addr = self.addr + 1;
                if (seq_idx as usize) >= bank.sequences.len() {
                    return EvalResult::Stop;
                }
                self.addr = bank.sequences[seq_idx as usize];
            },
            _ => {
                // Unknown opcode: bail out.
                return EvalResult::Stop;
            },
        }

        proof {
            assert((self@, *channel, EvalResult::Cont) =~~= spec_eval(s0, *bank, ch0, *options));
        }
        EvalResult::Cont
    }
}

/// The repeat gate: with repeats switched off, a `Restart` opcode only
/// ends the frame - the program counter moves past the opcode instead of
/// revisiting the start, and nothing else changes.
pub proof fn lemma_repeat_gate(
    s: SequenceModel,
    bank: SoundBank,
    ch: SampleChannel,
    opts: Options,
)
    requires
        !opts.repeats,
        s.addr < bank.data@.len(),
        s.addr < usize::MAX,
        bank.data@[s.addr as int] == 0x88,
    ensures
        spec_eval(s, bank, ch, opts) == (
            SequenceModel { addr: (s.addr + 1) as usize, ..s },
            ch,
            EvalResult::Done,
        ),
        spec_eval(s, bank, ch, opts).0.addr != s.start_addr || s.start_addr == s.addr + 1,
{
}

/// Dispatching with a fuel budget: run [`spec_eval`] until it suspends the
/// frame, the sequence ends, or the budget runs out (then the program is
/// treated as stopped).
pub open spec fn spec_run(
    s: SequenceModel,
    bank: SoundBank,
    ch: SampleChannel,
    opts: Options,
    fuel: nat,
) -> (SequenceModel, SampleChannel, EvalResult)
    decreases fuel,
{
    let (s2, ch2, r) = spec_eval(s, bank, ch, opts);
    if r is Cont {
        if fuel <= 1 {
            (s2, ch2, EvalResult::Stop)
        } else {
            spec_run(s2, bank, ch2, opts, (fuel - 1) as nat)
        }
    } else {
        (s2, ch2, r)
    }
}

/// One 50 Hz timestep: dispatch until the frame suspends (unless the note
/// countdown is still running), rearm the countdown, and report whether
/// the sequence continues; a stopped sequence silences its voice at once.
pub open spec fn spec_update(
    s: SequenceModel,
    bank: SoundBank,
    ch: SampleChannel,
    opts: Options,
) -> (SequenceModel, SampleChannel, bool) {
    if s.ttl > 0 {
        (s, ch, true)
    } else {
        let (s2, ch2, r) = spec_run(s, bank, ch, opts, DISPATCH_BUDGET as nat);
        let s3 = SequenceModel { ttl: s2.note_len, ..s2 };
        if r is Done {
            (s3, ch2, true)
        } else {
            (s3, spec_stopped(ch2), false)
        }
    }
}

/// A sequence that ends takes its voice with it: whenever the timestep
/// reports the sequence over, the voice holds no instrument any more.
pub proof fn lemma_ended_sequence_is_silent(
    s: SequenceModel,
    bank: SoundBank,
    ch: SampleChannel,
    opts: Options,
)
    ensures
        !spec_update(s, bank, ch, opts).2 ==> spec_update(s, bank, ch, opts).1.instr is None,
{
}

impl Sequence {
    /// Perform a timestep of the sequence, usually synchronised with a
    /// vertical blanking interval; see [`spec_update`]. Returns whether
    /// the sequence continues.
    #[verifier::loop_isolation(false)]
    pub fn update(&mut self, bank: &SoundBank, channel: &mut SampleChannel, options: &Options) -> (
        running: bool)
        requires
            old(self).wf(),
        ensures
            final(self).wf(),
            (final(self)@, *final(channel), running) == spec_update(
                old(self)@,
                *bank,
                *old(channel),
                *options,
            ),
    {
        let ghost s0 = self@;
        let ghost ch0 = *channel;
        if self.ttl > 0 {
            return true;
        }

        let mut result = self.eval(bank, channel, options);
        let mut budget: usize = DISPATCH_BUDGET - 1;
        while result == EvalResult::Cont && budget > 0
            invariant
                self.wf(),
                result is Cont && budget > 0 ==> spec_run(
                    s0,
                    *bank,
                    ch0,
                    *options,
                    DISPATCH_BUDGET as nat,
                ) == spec_run(self@, *bank, *channel, *options, budget as nat),
                result is Cont && budget == 0 ==> spec_run(
                    s0,
                    *bank,
                    ch0,
                    *options,
                    DISPATCH_BUDGET as nat,
                ) == (self@, *channel, EvalResult::Stop),
                !(result is Cont) ==> spec_run(s0, *bank, ch0, *options, DISPATCH_BUDGET as nat)
                    == (self@, *channel, result),
            decreases budget,
        {
            result = self.eval(bank, channel, options);
            budget = budget - 1;
        }

        self.ttl = self.note_len;

        if result == EvalResult::Done {
            true
        } else {
            channel.stop_hard();
            false
        }
    }
}

/// A full frame tick: run the timestep, count the note down, then (while
/// the sequence runs) advance the enabled effects and push their deltas to
/// the voice. Per the driver's cross-wiring, the vibrato switch advances
/// the vibrato bends through `step_tremolo` and pushes the period delta;
/// the tremolo switch advances the tremolo bends through `step_vibrato`
/// and pushes the volume delta. A note countdown already at zero stays at
/// zero.
pub open spec fn spec_step_frame(
    s: SequenceModel,
    bank: SoundBank,
    ch: SampleChannel,
    opts: Options,
) -> (SequenceModel, SampleChannel, bool) {
    let (s1, ch1, running) = spec_update(s, bank, ch, opts);
    if !running {
        (s1, ch1, false)
    } else {
        let s2 = SequenceModel {
            ttl: if s1.ttl > 0 {
                (s1.ttl - 1) as usize
            } else {
                0
            },
            ..s1
        };
        let (s3, ch3) = if opts.vibrato {
            let (rate, vstates) = spec_step(
                s2.effect.vibratos,
                s2.effect_state.vibratos,
                s2.effect_state.vibrato_loops,
            );
            let pa = vstd::wrapping::i16_specs::wrapping_add(s2.effect_state.period_adjust, rate);
            (
                SequenceModel {
                    effect_state: EffectStateModel {
                        vibratos: vstates,
                        period_adjust: pa,
                        ..s2.effect_state
                    },
                    ..s2
                },
                SampleChannel { pitch_adjust: pa, ..ch1 },
            )
        } else {
            (s2, ch1)
        };
        let (s4, ch4) = if opts.tremolo {
            let (rate, tstates) = spec_step(
                s3.effect.tremolos,
                s3.effect_state.tremolos,
                s3.effect_state.tremolo_loops,
            );
            let va = vstd::wrapping::i16_specs::wrapping_add(s3.effect_state.vol_adjust, rate);
            (
                SequenceModel {
                    effect_state: EffectStateModel {
                        tremolos: tstates,
                        vol_adjust: va,
                        ..s3.effect_state
                    },
                    ..s3
                },
                SampleChannel { volume_adjust: va, ..ch3 },
            )
        } else {
            (s3, ch3)
        };
        (s4, ch4, true)
    }
}

impl Sequence {
    /// One 50 Hz frame of this voice; see [`spec_step_frame`].
    pub fn step_frame(
        &mut self,
        bank: &SoundBank,
        channel: &mut SampleChannel,
        options: &Options,
    ) -> (running: bool)
        requires
            old(self).wf(),
        ensures
            final(self).wf(),
            (final(self)@, *final(channel), running) == spec_step_frame(
                old(self)@,
                *bank,
                *old(channel),
                *options,
            ),
    {
        let ghost s0 = self@;
        let ghost ch0 = *channel;
        let running = self.update(bank, channel, options);
        if running {
            if self.ttl > 0 {
                self.ttl = self.ttl - 1;
            }
            if options.vibrato {
                self.effect_state.step_tremolo(&self.effect);
                channel.pitch_adjust = self.effect_state.period_adjust;
            }
            if options.tremolo {
                self.effect_state.step_vibrato(&self.effect);
                channel.volume_adjust = self.effect_state.vol_adjust;
            }
            proof {
                assert((self@, *channel, true) =~~= spec_step_frame(s0, *bank, ch0, *options));
            }
        }
        running
    }
}

} // verus!
