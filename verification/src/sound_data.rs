//! Static data of the driver: the pitch table and the effect table.
//!
//! The pitch table holds Amiga Paula period ticks, one entry per
//! quarter-semitone, eight octaves deep. It is laid out as one top-octave
//! row of `OCTAVE_SIZE` entries; every octave below doubles the periods of
//! the row above, so entry `i` equals the row value at `i % OCTAVE_SIZE`
//! shifted up by the octave depth. Index 0 is the lowest note (largest
//! period); periods fall as the index rises.
//!
//! The effect table is indexed by the `SetEffect` opcode operand; entry 0
//! is the no-op effect whose bends all carry rate 0.

use vstd::prelude::*;

verus! {

/// Quarter-semitones per octave.
pub const OCTAVE_SIZE: usize = 48;

/// Octaves covered by the pitch table.
pub const PITCH_OCTAVES: usize = 8;

/// Entries in the pitch table.
pub const PITCH_TABLE_LEN: usize = 384;

/// Top-octave period for quarter-semitone `j` of the octave.
pub open spec fn spec_quarter_period(j: int) -> u16
    recommends
        0 <= j < 48,
{
    if j == 0 {
        213
    } else if j == 1 {
        210
    } else if j == 2 {
        207
    } else if j == 3 {
        204
    } else if j == 4 {
        201
    } else if j == 5 {
        198
    } else if j == 6 {
        195
    } else if j == 7 {
        193
    } else if j == 8 {
        190
    } else if j == 9 {
        187
    } else if j == 10 {
        184
    } else if j == 11 {
        182
    } else if j == 12 {
        179
    } else if j == 13 {
        177
    } else if j == 14 {
        174
    } else if j == 15 {
        172
    } else if j == 16 {
        169
    } else if j == 17 {
        167
    } else if j == 18 {
        164
    } else if j == 19 {
        162
    } else if j == 20 {
        160
    } else if j == 21 {
        157
    } else if j == 22 {
        155
    } else if j == 23 {
        153
    } else if j == 24 {
        151
    } else if j == 25 {
        148
    } else if j == 26 {
        146
    } else if j == 27 {
        144
    } else if j == 28 {
        142
    } else if j == 29 {
        140
    } else if j == 30 {
        138
    } else if j == 31 {
        136
    } else if j == 32 {
        134
    } else if j == 33 {
        132
    } else if j == 34 {
        130
    } else if j == 35 {
        128
    } else if j == 36 {
        127
    } else if j == 37 {
        125
    } else if j == 38 {
        123
    } else if j == 39 {
        121
    } else if j == 40 {
        120
    } else if j == 41 {
        118
    } else if j == 42 {
        116
    } else if j == 43 {
        114
    } else if j == 44 {
        113
    } else if j == 45 {
        111
    } else if j == 46 {
        110
    } else if j == 47 {
        108
    } else {
        0
    }
}

/// Power of two that scales the top-octave row down to octave row `row`:
/// row 0 is the lowest octave, seven octaves below the top row.
pub open spec fn spec_octave_scale(row: int) -> u16
    recommends
        0 <= row < 8,
{
    if row == 0 {
        128
    } else if row == 1 {
        64
    } else if row == 2 {
        32
    } else if row == 3 {
        16
    } else if row == 4 {
        8
    } else if row == 5 {
        4
    } else if row == 6 {
        2
    } else {
        1
    }
}

/// Period tick count at pitch-table index `i`.
pub open spec fn spec_pitch_period(i: int) -> u16
    recommends
        0 <= i < 384,
{
    (spec_quarter_period(i % 48) * spec_octave_scale(i / 48)) as u16
}

/// Table lookup as the driver sees it: `None` past the end of the table.
pub open spec fn spec_pitch_lookup(i: int) -> Option<u16> {
    if 0 <= i < 384 {
        Some(spec_pitch_period(i))
    } else {
        None
    }
}

fn quarter_period(j: usize) -> (r: u16)
    requires
        j < 48,
    ensures
        r == spec_quarter_period(j as int),
        108 <= r <= 213,
{
    match j {
        0 => 213,
        1 => 210,
        2 => 207,
        3 => 204,
        4 => 201,
        5 => 198,
        6 => 195,
        7 => 193,
        8 => 190,
        9 => 187,
        10 => 184,
        11 => 182,
        12 => 179,
        13 => 177,
        14 => 174,
        15 => 172,
        16 => 169,
        17 => 167,
        18 => 164,
        19 => 162,
        20 => 160,
        21 => 157,
        22 => 155,
        23 => 153,
        24 => 151,
        25 => 148,
        26 => 146,
        27 => 144,
        28 => 142,
        29 => 140,
        30 => 138,
        31 => 136,
        32 => 134,
        33 => 132,
        34 => 130,
        35 => 128,
        36 => 127,
        37 => 125,
        38 => 123,
        39 => 121,
        40 => 120,
        41 => 118,
        42 => 116,
        43 => 114,
        44 => 113,
        45 => 111,
        46 => 110,
        47 => 108,
        _ => 108,
    }
}

fn octave_scale(row: usize) -> (r: u16)
    requires
        row < 8,
    ensures
        r == spec_octave_scale(row as int),
        1 <= r <= 128,
{
    match row {
        0 => 128,
        1 => 64,
        2 => 32,
        3 => 16,
        4 => 8,
        5 => 4,
        6 => 2,
        _ => 1,
    }
}

/// Period ticks for pitch-table index `i`, `None` when the index falls
/// outside the table.
pub fn pitch_period(i: usize) -> (r: Option<u16>)
    ensures
        r == spec_pitch_lookup(i as int),
{
    if i >= PITCH_TABLE_LEN {
        return None;
    }
    let q = quarter_period(i % 48);
    let s = octave_scale(i / 48);
    Some(q * s)
}

/// One segment of a tremolo or vibrato modulation: a per-frame delta
/// (`rate`) applied `length` times, with `pause` skipped frames after each
/// application.
#[derive(Clone, Copy, Debug, Eq, PartialEq, Structural)]
pub struct Bend {
    pub rate: i16,
    pub pause: u8,
    pub length: u8,
}

/// A selectable effect: two tremolo bends feeding volume deltas and three
/// vibrato bends feeding period deltas.
#[derive(Clone, Debug)]
pub struct Effect {
    pub tremolos: Vec<Bend>,
    pub vibratos: Vec<Bend>,
}

/// Mathematical image of an [`Effect`]: its two bend rows as sequences.
#[verifier::ext_equal]
pub struct EffectModel {
    pub tremolos: Seq<Bend>,
    pub vibratos: Seq<Bend>,
}

impl View for Effect {
    type V = EffectModel;

    open spec fn view(&self) -> EffectModel {
        EffectModel { tremolos: self.tremolos@, vibratos: self.vibratos@ }
    }
}

impl EffectModel {
    /// Every effect carries exactly two tremolo and three vibrato bends.
    pub open spec fn wf(self) -> bool {
        self.tremolos.len() == 2 && self.vibratos.len() == 3
    }
}

impl Effect {
    /// Every effect carries exactly two tremolo and three vibrato bends.
    pub open spec fn wf(self) -> bool {
        self@.wf()
    }
}

/// A bend that modulates nothing.
pub open spec fn spec_zero_bend() -> Bend {
    Bend { rate: 0, pause: 0, length: 0 }
}

/// The effect table. Entry 0 is the no-op effect; the others pair tremolo
/// rows with vibrato rows of matching shape.
pub open spec fn spec_effect(idx: int) -> Option<EffectModel> {
    if idx == 0 {
        Some(
            EffectModel {
                tremolos: seq![spec_zero_bend(), spec_zero_bend()],
                vibratos: seq![spec_zero_bend(), spec_zero_bend(), spec_zero_bend()],
            },
        )
    } else if idx == 1 {
        Some(
            EffectModel {
                tremolos: seq![spec_zero_bend(), spec_zero_bend()],
                vibratos: seq![
                    Bend { rate: 10, pause: 0, length: 4 },
                    Bend { rate: -10i16, pause: 0, length: 8 },
                    Bend { rate: 10, pause: 0, length: 4 },
                ],
            },
        )
    } else if idx == 2 {
        Some(
            EffectModel {
                tremolos: seq![
                    Bend { rate: -4i16, pause: 1, length: 8 },
                    Bend { rate: 4, pause: 1, length: 8 },
                ],
                vibratos: seq![spec_zero_bend(), spec_zero_bend(), spec_zero_bend()],
            },
        )
    } else if idx == 3 {
        Some(
            EffectModel {
                tremolos: seq![
                    Bend { rate: -2i16, pause: 0, length: 12 },
                    Bend { rate: 2, pause: 0, length: 12 },
                ],
                vibratos: seq![
                    Bend { rate: 6, pause: 1, length: 6 },
                    Bend { rate: -6i16, pause: 1, length: 12 },
                    Bend { rate: 6, pause: 1, length: 6 },
                ],
            },
        )
    } else {
        None
    }
}

/// Number of effects in the table.
pub const NUM_EFFECTS: usize = 4;

fn bend(rate: i16, pause: u8, length: u8) -> (r: Bend)
    ensures
        r == (Bend { rate, pause, length }),
{
    Bend { rate, pause, length }
}

/// The no-op effect, entry 0 of the table.
pub fn no_effect() -> (e: Effect)
    ensures
        Some(e@) == spec_effect(0),
        e.wf(),
{
    let mut tremolos: Vec<Bend> = Vec::new();
    let mut vibratos: Vec<Bend> = Vec::new();
    tremolos.push(bend(0, 0, 0));
    tremolos.push(bend(0, 0, 0));
    vibratos.push(bend(0, 0, 0));
    vibratos.push(bend(0, 0, 0));
    vibratos.push(bend(0, 0, 0));
    let e = Effect { tremolos, vibratos };
    proof {
        assert(Some(e@) =~~= spec_effect(0));
    }
    e
}

/// Build effect `idx` of the table; `None` when the index is out of range.
pub fn effect(idx: usize) -> (r: Option<Effect>)
    ensures
        r is Some <==> idx < NUM_EFFECTS,
        r matches Some(e) ==> e.wf() && Some(e@) == spec_effect(idx as int),
{
    let mut tremolos: Vec<Bend> = Vec::new();
    let mut vibratos: Vec<Bend> = Vec::new();
    match idx {
        0 => {
            return Some(no_effect());
        },
        1 => {
            tremolos.push(bend(0, 0, 0));
            tremolos.push(bend(0, 0, 0));
            vibratos.push(bend(10, 0, 4));
            vibratos.push(bend(-10, 0, 8));
            vibratos.push(bend(10, 0, 4));
        },
        2 => {
            tremolos.push(bend(-4, 1, 8));
            tremolos.push(bend(4, 1, 8));
            vibratos.push(bend(0, 0, 0));
            vibratos.push(bend(0, 0, 0));
            vibratos.push(bend(0, 0, 0));
        },
        3 => {
            tremolos.push(bend(-2, 0, 12));
            tremolos.push(bend(2, 0, 12));
            vibratos.push(bend(6, 1, 6));
            vibratos.push(bend(-6, 1, 12));
            vibratos.push(bend(6, 1, 6));
        },
        _ => {
            return None;
        },
    }
    let e = Effect { tremolos, vibratos };
    proof {
        assert(Some(e@) =~~= spec_effect(idx as int));
    }
    Some(e)
}

} // verus!
