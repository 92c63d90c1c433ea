use speedball2_sound_player::sound_model::{long, word, SoundBank};

fn synthetic_image() -> Vec<u8> {
    // Big-endian long 0x40 at offset 0 (sequence table), 0x80 at offset 4
    // (instrument table), one all-zero instrument record at 0x80.
    let mut data = vec![0u8; 256];
    data[3] = 0x40;
    data[7] = 0x80;
    data
}

#[test]
fn word_reads_big_endian() {
    let data = vec![0x12, 0x34, 0xff, 0x01];
    assert_eq!(word(&data, 0), 0x1234);
    assert_eq!(word(&data, 1), 0x34ff);
    assert_eq!(word(&data, 2), 0xff01);
}

#[test]
fn long_reads_big_endian() {
    let data = vec![0x12, 0x34, 0x56, 0x78, 0x9a];
    assert_eq!(long(&data, 0), 0x12345678);
    assert_eq!(long(&data, 1), 0x3456789a);
}

#[test]
fn bank_header() {
    let bank = SoundBank::new(synthetic_image(), 1, 1).expect("valid image");
    assert_eq!(bank.sequences, vec![0usize]);
    assert_eq!(bank.instruments.len(), 1);
    let instr = &bank.instruments[0];
    assert!(!instr.is_one_shot);
    assert_eq!(instr.loop_offset, 0);
    assert_eq!(instr.sample_len, 0);
    assert_eq!(instr.sample_addr, 0);
    assert_eq!(instr.base_octave, 0);
}

#[test]
fn parse_round_trip() {
    // Two sequence entries and two instrument records with distinct
    // values; re-reading the tables gives back exactly the image's longs
    // and decoded records.
    let mut data = vec![0u8; 0x100];
    data[3] = 0x10; // sequence table at 0x10
    data[7] = 0x20; // instrument table at 0x20
    // sequence entries 0x0000_0042 and 0x0000_0099
    data[0x13] = 0x42;
    data[0x17] = 0x99;
    // instrument 0: one-shot, loop_offset 3, sample_len 5, addr 0x60, octave 2
    data[0x21] = 1;
    data[0x23] = 3;
    data[0x25] = 5;
    data[0x29] = 0x60;
    data[0x2d] = 2;
    // instrument 1: looped, loop_offset 7, sample_len 9, addr 0x70, octave 1
    data[0x2e + 1] = 0;
    data[0x2e + 3] = 7;
    data[0x2e + 5] = 9;
    data[0x2e + 9] = 0x70;
    data[0x2e + 13] = 1;

    let bank = SoundBank::new(data, 2, 2).expect("valid image");
    assert_eq!(bank.sequences, vec![0x42usize, 0x99usize]);
    let i0 = &bank.instruments[0];
    assert!(i0.is_one_shot);
    assert_eq!(i0.loop_offset, 3);
    assert_eq!(i0.sample_len, 5);
    assert_eq!(i0.sample_addr, 0x60);
    assert_eq!(i0.base_octave, 2);
    let i1 = &bank.instruments[1];
    assert!(!i1.is_one_shot);
    assert_eq!(i1.loop_offset, 7);
    assert_eq!(i1.sample_len, 9);
    assert_eq!(i1.sample_addr, 0x70);
    assert_eq!(i1.base_octave, 1);
}

#[test]
fn bank_rejects_short_image() {
    assert!(SoundBank::new(vec![0u8; 7], 0, 0).is_none());
}

#[test]
fn bank_rejects_table_outside_image() {
    // Sequence table at 0x40 with 100 entries runs past 256 bytes.
    assert!(SoundBank::new(synthetic_image(), 100, 1).is_none());
    // Instrument table at 0x80 with 10 records needs 140 bytes.
    assert!(SoundBank::new(synthetic_image(), 1, 10).is_none());
}

#[test]
fn bank_accepts_empty_tables() {
    let bank = SoundBank::new(synthetic_image(), 0, 0).expect("valid image");
    assert!(bank.sequences.is_empty());
    assert!(bank.instruments.is_empty());
}
