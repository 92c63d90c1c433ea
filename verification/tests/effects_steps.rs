use speedball2_sound_player::effects::{BendState, EffectState};
use speedball2_sound_player::sound_data::{effect, pitch_period, Bend, NUM_EFFECTS};

fn single(rate: i16, pause: u8, length: u8) -> (Vec<Bend>, Vec<BendState>) {
    let bend = Bend { rate, pause, length };
    let states = vec![BendState::from(&bend)];
    (vec![bend], states)
}

#[test]
fn bend_without_pause_fires_length_times() {
    // length + pause = 4 scans spend the bend; later scans skip it.
    let (bends, mut states) = single(10, 0, 4);
    for _ in 0..4 {
        assert_eq!(EffectState::step(&bends, &mut states, false), 10);
    }
    assert_eq!(states[0].length_count, 0);
    for _ in 0..3 {
        assert_eq!(EffectState::step(&bends, &mut states, false), 0);
    }
    assert_eq!(states[0].length_count, 0);
}

#[test]
fn bend_with_pause_alternates() {
    let (bends, mut states) = single(5, 1, 2);
    let fired: Vec<i16> = (0..6)
        .map(|_| EffectState::step(&bends, &mut states, false))
        .collect();
    assert_eq!(fired, vec![0, 5, 0, 5, 0, 0]);
    assert_eq!(states[0].length_count, 0);
}

#[test]
fn spent_array_rewinds_when_looping() {
    let (bends, mut states) = single(7, 0, 1);
    assert_eq!(EffectState::step(&bends, &mut states, true), 7);
    // Spent now; the next scan falls off the end and rearms the array.
    assert_eq!(EffectState::step(&bends, &mut states, true), 0);
    assert_eq!(states[0].length_count, 1);
    assert_eq!(EffectState::step(&bends, &mut states, true), 7);
}

#[test]
fn first_live_bend_shadows_the_second() {
    let bends = vec![
        Bend { rate: 3, pause: 0, length: 1 },
        Bend { rate: 9, pause: 0, length: 1 },
    ];
    let mut states = vec![BendState::from(&bends[0]), BendState::from(&bends[1])];
    assert_eq!(EffectState::step(&bends, &mut states, false), 3);
    assert_eq!(EffectState::step(&bends, &mut states, false), 9);
    assert_eq!(EffectState::step(&bends, &mut states, false), 0);
}

#[test]
fn effect_table_shape() {
    for idx in 0..NUM_EFFECTS {
        let e = effect(idx).expect("table entry");
        assert_eq!(e.tremolos.len(), 2);
        assert_eq!(e.vibratos.len(), 3);
    }
    assert!(effect(NUM_EFFECTS).is_none());
}

#[test]
fn effect_zero_is_noop() {
    let e = effect(0).expect("table entry");
    assert!(e.tremolos.iter().all(|b| b.rate == 0));
    assert!(e.vibratos.iter().all(|b| b.rate == 0));
}

#[test]
fn pitch_table_values() {
    // Lowest entry: top-octave 213 scaled seven octaves down.
    assert_eq!(pitch_period(0), Some(27264));
    // Start of the octave row used by a base-octave-0 default note.
    assert_eq!(pitch_period(240), Some(852));
    assert_eq!(pitch_period(288), Some(426));
    // Highest entry, and one past the end.
    assert_eq!(pitch_period(383), Some(108));
    assert_eq!(pitch_period(384), None);
}

#[test]
fn pitch_table_periods_fall() {
    let mut prev = pitch_period(0).unwrap();
    for i in 1..384 {
        let p = pitch_period(i).unwrap();
        assert!(p <= prev, "period table must not rise at {}", i);
        prev = p;
    }
}
