use speedball2_sound_player::sample_channel::{SampleChannel, SampleStep};
use speedball2_sound_player::sound_channel::SoundChannel;
use speedball2_sound_player::sound_model::{Instrument, SoundBank};
use speedball2_sound_player::synth::{stereo_slot, Sound, Synth};

fn bank_with_sample(sample: &[u8]) -> (SoundBank, Instrument) {
    // Image: 16 bytes of padding, then the sample bytes.
    let mut data = vec![0u8; 16];
    data.extend_from_slice(sample);
    let instr = Instrument {
        is_one_shot: true,
        loop_offset: 0,
        sample_len: (sample.len() / 2) as u16,
        sample_addr: 16,
        base_octave: 0,
    };
    let bank = SoundBank {
        data,
        instruments: vec![instr],
        sequences: vec![0],
    };
    (bank, instr)
}

#[test]
fn one_shot_sample_runs_out() {
    // A one-shot two-byte sample +64, -64: both bytes are fetched in
    // order, the neighbour at the sample end reads as 0, and the voice is
    // dropped once the position passes the end.
    let (bank, instr) = bank_with_sample(&[64, 192]);
    let mut channel = SampleChannel::new();
    channel.play(&instr);

    assert_eq!(
        channel.advance(&bank, 0),
        SampleStep::Sample { left: 64, right: 192 }
    );
    assert_eq!(
        channel.advance(&bank, 1),
        SampleStep::Sample { left: 192, right: 0 }
    );
    assert_eq!(channel.advance(&bank, 2), SampleStep::Ended);
    assert_eq!(channel.instr, None);
    assert!(!channel.is_playing());
    assert_eq!(channel.advance(&bank, 3), SampleStep::NoVoice);
}

#[test]
fn looped_sample_rewinds_by_loop_length() {
    let (bank, mut instr) = bank_with_sample(&[1, 2, 3, 4]);
    instr.is_one_shot = false;
    instr.loop_offset = 1;
    let mut channel = SampleChannel::new();
    channel.play(&instr);

    // Past the end: rewind by 2 * sample_len - loop_offset = 3.
    assert_eq!(channel.advance(&bank, 4), SampleStep::Rewind { amount: 3 });
    assert_eq!(channel.advance(&bank, 5), SampleStep::Rewind { amount: 3 });
    // Back in range the wrap lands at loop_offset: byte 2, neighbour 3.
    assert_eq!(
        channel.advance(&bank, 1),
        SampleStep::Sample { left: 2, right: 3 }
    );
    // At the boundary of a looped sample the neighbour is the loop start.
    assert_eq!(
        channel.advance(&bank, 3),
        SampleStep::Sample { left: 4, right: 2 }
    );
}

#[test]
fn stop_marks_the_copy_one_shot() {
    let (bank, mut instr) = bank_with_sample(&[1, 2]);
    instr.is_one_shot = false;
    instr.loop_offset = 0;
    let mut channel = SampleChannel::new();
    channel.play(&instr);

    channel.stop();
    // The bank's instrument is untouched; the voice's copy dies at the
    // next loop point.
    assert!(channel.instr.unwrap().is_one_shot);
    assert_eq!(channel.advance(&bank, 2), SampleStep::Ended);
}

#[test]
fn stop_hard_and_stop_loop() {
    let (_, mut instr) = bank_with_sample(&[1, 2]);
    let mut channel = SampleChannel::new();
    channel.play(&instr);
    channel.stop_hard();
    assert_eq!(channel.instr, None);

    // stop_loop drops the voice only when the loop starts at zero.
    instr.is_one_shot = false;
    instr.loop_offset = 1;
    channel.play(&instr);
    channel.stop_loop();
    assert!(channel.instr.is_some());
    instr.loop_offset = 0;
    channel.play(&instr);
    channel.stop_loop();
    assert_eq!(channel.instr, None);
}

#[test]
fn malformed_sample_is_silenced() {
    // Sample data sticking out of the image ends the voice.
    let (bank, mut instr) = bank_with_sample(&[1, 2]);
    instr.sample_addr = bank.data.len() - 1;
    let mut channel = SampleChannel::new();
    channel.play(&instr);
    assert_eq!(channel.advance(&bank, 0), SampleStep::Ended);
    assert_eq!(channel.instr, None);
}

#[test]
fn period_applies_pitch_adjust_with_wrap() {
    let (_, instr) = bank_with_sample(&[1, 2]);
    let mut channel = SampleChannel::new();
    assert_eq!(channel.period(), None);

    channel.play(&instr);
    // Default pitch 192, base octave 0 shifted up one octave: entry 240.
    assert_eq!(channel.period(), Some(852));
    channel.pitch_adjust = -52;
    assert_eq!(channel.period(), Some(800));
    channel.pitch_adjust = -32768;
    assert_eq!(channel.period(), Some(852u16.wrapping_add_signed(-32768)));

    // A pitch outside the table plays nothing.
    channel.pitch = 100000;
    assert_eq!(channel.period(), None);
}

#[test]
fn frame_ticks_follow_the_span_protocol() {
    // Sample rate 200 gives 4 samples per frame. Filling 8 samples from a
    // fresh channel (tick due at once) delivers 3 ticks: at sample 0 and
    // after each of the two whole frames.
    let (bank, _) = bank_with_sample(&[1, 2]);
    let mut channel = SoundChannel::new();
    let mut remaining: usize = 8;
    let mut ticks = 0;
    loop {
        let (span, boundary) = channel.next_span(remaining);
        remaining -= span;
        if boundary {
            channel.frame_tick(&bank, 200);
            ticks += 1;
        } else {
            channel.consume(span);
            break;
        }
    }
    assert_eq!(ticks, 3);
    assert_eq!(channel.samples_remaining, 4);
}

#[test]
fn sound_channel_drops_finished_sequence() {
    // A lone Stop opcode: the first frame tick ends the sequence and
    // silences the voice.
    let bank = SoundBank {
        data: vec![0xac],
        instruments: vec![],
        sequences: vec![0],
    };
    let mut channel = SoundChannel::new();
    channel.play_seq(&bank, 0);
    assert!(channel.is_active());
    channel.frame_tick(&bank, 200);
    assert!(!channel.is_active());
    assert_eq!(channel.samples_remaining, 4);
}

#[test]
fn synth_routes_sounds_to_voices() {
    let bank = SoundBank {
        data: vec![0xac, 0xac],
        instruments: vec![],
        sequences: vec![0, 1],
    };
    let mut synth = Synth::new();
    assert!(!synth.any_active());

    let sound = Sound { sequences: [0, 1, 0, 1] };
    synth.play_sound(&bank, &sound);
    assert!(synth.channels[0].sequence.is_none());
    assert!(synth.channels[1].sequence.is_some());
    assert!(synth.channels[2].sequence.is_none());
    assert!(synth.channels[3].sequence.is_some());
    assert!(synth.any_active());
}

#[test]
fn synth_plays_instruments_and_sequences_on_voice_zero() {
    let (bank, instr) = bank_with_sample(&[1, 2]);
    let mut synth = Synth::new();
    synth.play_instr(&instr);
    assert_eq!(synth.channels[0].sample_channel.instr, Some(instr));

    let mut synth = Synth::new();
    synth.play_seq(&bank, 0);
    assert!(synth.channels[0].sequence.is_some());
    // An out-of-range index leaves the synth alone.
    let mut synth = Synth::new();
    synth.play_seq(&bank, 99);
    assert!(synth.channels[0].sequence.is_none());
}

#[test]
fn stereo_slots_interleave_lanes() {
    // Even channels write lane 0, odd channels lane 1.
    assert_eq!(stereo_slot(0, 2, 0), Some(0));
    assert_eq!(stereo_slot(1, 2, 0), Some(1));
    assert_eq!(stereo_slot(2, 2, 5), Some(10));
    assert_eq!(stereo_slot(3, 2, 5), Some(11));
    // With more lanes the stride grows but only lanes 0 and 1 are hit.
    for frame in 0..8 {
        for ch in 0..4 {
            let slot = stereo_slot(ch, 4, frame).unwrap();
            assert_eq!(slot % 4, ch % 2);
        }
    }
}
