use speedball2_sound_player::sample_channel::SampleChannel;
use speedball2_sound_player::sequence::{EvalResult, Options, Sequence};
use speedball2_sound_player::sound_model::{Instrument, SoundBank};

fn test_instrument() -> Instrument {
    Instrument {
        is_one_shot: false,
        loop_offset: 0,
        sample_len: 1,
        sample_addr: 0,
        base_octave: 0,
    }
}

fn bank_with(data: Vec<u8>, sequences: Vec<usize>) -> SoundBank {
    SoundBank {
        data,
        instruments: vec![test_instrument()],
        sequences,
    }
}

#[test]
fn trivial_sequence() {
    // Tempo 150, length 4 beats, instrument 0, volume 40, note 0x3c, stop.
    let bank = bank_with(
        vec![0x94, 150, 0x8c, 4, 0xd0, 0, 0x80, 40, 0x3c, 0xac],
        vec![0],
    );
    let mut seq = Sequence::new(0);
    let mut channel = SampleChannel::new();
    let options = Options::new();

    assert!(seq.update(&bank, &mut channel, &options));
    assert_eq!(seq.frames_per_beat, 5); // 750 / 150
    assert_eq!(seq.note_len, 20); // 4 * 5
    assert_eq!(seq.ttl, 20);
    assert_eq!(channel.volume, 40);
    assert_eq!(channel.pitch, 0x3c * 4);
    assert_eq!(channel.instr, Some(test_instrument()));

    // The note runs note_len frames; the next dispatch hits Stop and the
    // voice dies.
    for _ in 0..20 {
        assert!(seq.step_frame(&bank, &mut channel, &options));
    }
    assert!(!seq.step_frame(&bank, &mut channel, &options));
    assert_eq!(channel.instr, None);
}

#[test]
fn for_next_loop() {
    // For 3; Jump 1; Next; Stop - with sequences[1] pointing at the Next,
    // so the Jump is the loop body and runs four times in all.
    let bank = bank_with(vec![0xc0, 3, 0xd4, 1, 0xc4, 0xac], vec![0, 4]);
    let mut seq = Sequence::new(0);
    let mut channel = SampleChannel::new();
    let options = Options::new();

    assert_eq!(seq.eval(&bank, &mut channel, &options), EvalResult::Cont);
    assert_eq!(seq.loop_stack, vec![(3u8, 2usize)]);

    let mut jumps = 0;
    for count in [2u8, 1, 0].iter() {
        // Jump to the fragment, then Next bounces back with one count spent.
        assert_eq!(seq.eval(&bank, &mut channel, &options), EvalResult::Cont);
        jumps += 1;
        assert_eq!(seq.addr, 4);
        assert_eq!(seq.eval(&bank, &mut channel, &options), EvalResult::Cont);
        assert_eq!(seq.loop_stack, vec![(*count, 2usize)]);
        assert_eq!(seq.addr, 2);
    }
    // Fourth pass: Jump once more, then Next pops the spent frame.
    assert_eq!(seq.eval(&bank, &mut channel, &options), EvalResult::Cont);
    jumps += 1;
    assert_eq!(seq.eval(&bank, &mut channel, &options), EvalResult::Cont);
    assert!(seq.loop_stack.is_empty());
    assert_eq!(seq.addr, 5);
    assert_eq!(jumps, 4);

    assert_eq!(seq.eval(&bank, &mut channel, &options), EvalResult::Stop);
}

#[test]
fn call_and_return() {
    // Call 2 at address 0; sequences[2] holds a lone Return at address 3.
    let bank = bank_with(vec![0xb0, 0x02, 0xac, 0xb4], vec![0, 0, 3]);
    let mut seq = Sequence::new(0);
    let mut channel = SampleChannel::new();
    let options = Options::new();

    assert_eq!(seq.eval(&bank, &mut channel, &options), EvalResult::Cont);
    assert_eq!(seq.loop_stack, vec![(0u8, 2usize)]);
    assert_eq!(seq.addr, 3);
    // Return restores the address after the Call operand.
    assert_eq!(seq.eval(&bank, &mut channel, &options), EvalResult::Cont);
    assert!(seq.loop_stack.is_empty());
    assert_eq!(seq.addr, 2);
    assert_eq!(seq.eval(&bank, &mut channel, &options), EvalResult::Stop);
}

#[test]
fn return_on_empty_stack_stops() {
    let bank = bank_with(vec![0xb0, 0x02, 0xac, 0xb4], vec![0, 0, 3]);
    let mut seq = Sequence::new(3);
    let mut channel = SampleChannel::new();
    let options = Options::new();
    assert_eq!(seq.eval(&bank, &mut channel, &options), EvalResult::Stop);
}

#[test]
fn return_against_for_frame_stops() {
    let bank = bank_with(vec![0xc0, 2, 0xb4], vec![0]);
    let mut seq = Sequence::new(0);
    let mut channel = SampleChannel::new();
    let options = Options::new();
    assert_eq!(seq.eval(&bank, &mut channel, &options), EvalResult::Cont);
    assert_eq!(seq.eval(&bank, &mut channel, &options), EvalResult::Stop);
}

#[test]
fn repeat_gate() {
    let bank = bank_with(vec![0x88], vec![0]);
    let mut channel = SampleChannel::new();

    // Repeats off: the restart is an end-of-frame and the program counter
    // moves past the opcode instead of revisiting the start.
    let mut gated = Sequence::new(0);
    let no_repeats = Options { tremolo: true, vibrato: true, repeats: false };
    assert_eq!(gated.eval(&bank, &mut channel, &no_repeats), EvalResult::Done);
    assert_eq!(gated.addr, 1);

    // Repeats on: the program counter goes back to the start.
    let mut looping = Sequence::new(0);
    let repeats = Options::new();
    assert_eq!(looping.eval(&bank, &mut channel, &repeats), EvalResult::Cont);
    assert_eq!(looping.addr, 0);
}

#[test]
fn transposition_shifts_notes() {
    // TransAbs +4 then note 0x30; then TransRel -2 twice and TransRel 0.
    let bank = bank_with(
        vec![0xbc, 4, 0xd0, 0, 0x30, 0xb8, 0xfe, 0xb8, 0xfe, 0x30, 0xb8, 0, 0x30, 0xac],
        vec![0],
    );
    let mut seq = Sequence::new(0);
    let mut channel = SampleChannel::new();
    let options = Options::new();

    assert!(seq.update(&bank, &mut channel, &options));
    assert_eq!(seq.transposition, 4);
    assert_eq!(channel.pitch, 0x30 * 4 + 4);

    assert!(seq.update(&bank, &mut channel, &options));
    assert_eq!(seq.transposition, 0); // 4 - 2 - 2
    assert_eq!(channel.pitch, 0x30 * 4);

    assert!(seq.update(&bank, &mut channel, &options));
    assert_eq!(seq.transposition, 0); // operand 0 clears
    assert_eq!(channel.pitch, 0x30 * 4);
}

#[test]
fn malformed_programs_stop() {
    let mut channel = SampleChannel::new();
    let options = Options::new();

    // Unknown opcode.
    let bank = bank_with(vec![0x84], vec![0]);
    assert_eq!(
        Sequence::new(0).eval(&bank, &mut channel, &options),
        EvalResult::Stop
    );
    // Tempo of zero beats per minute.
    let bank = bank_with(vec![0x94, 0], vec![0]);
    assert_eq!(
        Sequence::new(0).eval(&bank, &mut channel, &options),
        EvalResult::Stop
    );
    // Program counter past the image.
    let bank = bank_with(vec![0xac], vec![0]);
    assert_eq!(
        Sequence::new(9).eval(&bank, &mut channel, &options),
        EvalResult::Stop
    );
    // Operand missing at the end of the image.
    let bank = bank_with(vec![0x94], vec![0]);
    assert_eq!(
        Sequence::new(0).eval(&bank, &mut channel, &options),
        EvalResult::Stop
    );
    // Jump to a sequence index outside the table.
    let bank = bank_with(vec![0xd4, 9], vec![0]);
    assert_eq!(
        Sequence::new(0).eval(&bank, &mut channel, &options),
        EvalResult::Stop
    );
    // Effect index outside the table.
    let bank = bank_with(vec![0x9c, 99], vec![0]);
    assert_eq!(
        Sequence::new(0).eval(&bank, &mut channel, &options),
        EvalResult::Stop
    );
    // Note with an instrument index outside the table.
    let bank = bank_with(vec![0xd0, 7, 0x3c], vec![0]);
    let mut seq = Sequence::new(0);
    assert_eq!(seq.eval(&bank, &mut channel, &options), EvalResult::Cont);
    assert_eq!(seq.eval(&bank, &mut channel, &options), EvalResult::Stop);
}

#[test]
fn loop_flags_set_both_switches() {
    let bank = bank_with(vec![0xa8, 3, 0xa8, 0, 0xac], vec![0]);
    let mut seq = Sequence::new(0);
    let mut channel = SampleChannel::new();
    let options = Options::new();
    assert_eq!(seq.eval(&bank, &mut channel, &options), EvalResult::Cont);
    assert!(seq.effect_state.tremolo_loops);
    assert!(seq.effect_state.vibrato_loops);
    assert_eq!(seq.eval(&bank, &mut channel, &options), EvalResult::Cont);
    assert!(!seq.effect_state.tremolo_loops);
    assert!(!seq.effect_state.vibrato_loops);
}

#[test]
fn runaway_program_is_cut_off() {
    // A sequence that jumps to itself forever never suspends its frame;
    // the dispatch budget ends it instead of hanging the caller.
    let bank = bank_with(vec![0xd4, 0], vec![0]);
    let mut seq = Sequence::new(0);
    let mut channel = SampleChannel::new();
    let options = Options::new();
    assert!(!seq.update(&bank, &mut channel, &options));
}

#[test]
fn note_length_overflow_stops() {
    let bank = bank_with(vec![0x8c, 200, 0xac], vec![0]);
    let mut seq = Sequence::new(0);
    seq.frames_per_beat = usize::MAX / 2;
    let mut channel = SampleChannel::new();
    let options = Options::new();
    assert_eq!(seq.eval(&bank, &mut channel, &options), EvalResult::Stop);
}

#[test]
fn rest_stops_zero_loop_offset_voice() {
    let bank = bank_with(vec![0x90, 0xac], vec![0]);
    let options = Options::new();

    // loop_offset 0: the Rest silences the voice at once.
    let mut seq = Sequence::new(0);
    let mut channel = SampleChannel::new();
    channel.instr = Some(test_instrument());
    assert_eq!(seq.eval(&bank, &mut channel, &options), EvalResult::Done);
    assert_eq!(channel.instr, None);

    // A non-zero loop offset keeps the voice running.
    let mut seq = Sequence::new(0);
    let mut channel = SampleChannel::new();
    let held = Instrument { loop_offset: 1, sample_len: 2, ..test_instrument() };
    channel.instr = Some(held);
    assert_eq!(seq.eval(&bank, &mut channel, &options), EvalResult::Done);
    assert_eq!(channel.instr, Some(held));
}

#[test]
fn vibrato_accumulates_period_adjust() {
    // Tempo 150, length 1 beat, effect 1 (first vibrato bend rate +10,
    // pause 0, length 4), instrument 0, note 0x3c.
    let bank = bank_with(
        vec![0x94, 150, 0x8c, 1, 0x9c, 1, 0xd0, 0, 0x3c, 0xac],
        vec![0],
    );
    let mut seq = Sequence::new(0);
    let mut channel = SampleChannel::new();
    let options = Options::new();

    for _ in 0..4 {
        assert!(seq.step_frame(&bank, &mut channel, &options));
    }
    assert_eq!(channel.pitch_adjust, 40);
    // The emitted period is the table entry for base octave 1 shifted up
    // one octave plus the accumulated bend.
    assert_eq!(channel.period(), Some(426 + 40));
}

#[test]
fn disabled_vibrato_freezes_pitch_adjust() {
    let bank = bank_with(
        vec![0x94, 150, 0x8c, 1, 0x9c, 1, 0xd0, 0, 0x3c, 0xac],
        vec![0],
    );
    let mut seq = Sequence::new(0);
    let mut channel = SampleChannel::new();
    let options = Options { tremolo: true, vibrato: false, repeats: true };

    for _ in 0..4 {
        assert!(seq.step_frame(&bank, &mut channel, &options));
    }
    assert_eq!(channel.pitch_adjust, 0);
    assert_eq!(channel.period(), Some(426));
}

#[test]
fn tremolo_accumulates_volume_adjust() {
    // Effect 2: first tremolo bend rate -4, pause 1, length 8.
    let bank = bank_with(
        vec![0x94, 150, 0x8c, 1, 0x9c, 2, 0xd0, 0, 0x3c, 0xac],
        vec![0],
    );
    let mut seq = Sequence::new(0);
    let mut channel = SampleChannel::new();
    let options = Options::new();

    // Frame 1 ticks the pause down, frame 2 fires -4.
    assert!(seq.step_frame(&bank, &mut channel, &options));
    assert_eq!(channel.volume_adjust, 0);
    assert!(seq.step_frame(&bank, &mut channel, &options));
    assert_eq!(channel.volume_adjust, -4);
}
