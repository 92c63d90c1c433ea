//! Tremolo and vibrato state machines.
//!
//! An [`EffectState`] steps one bend array per frame. Exactly one bend can
//! fire per step: the first bend that is neither pausing nor exhausted
//! fires, hands back its rate, and rearms its pause counter; bends before
//! it tick their pauses down. When every bend is spent the whole array is
//! rewound from its templates if the matching loop flag is set.
//!
//! Naming quirk of the driver, kept on purpose: `step_tremolo` advances the
//! *vibrato* bends (feeding the period delta) and `step_vibrato` advances
//! the *tremolo* bends (feeding the volume delta). The opcode-selected
//! tables are wired so that the ear still hears tremolo as volume and
//! vibrato as pitch.

use vstd::prelude::*;

use crate::sound_data::Bend;
use crate::sound_data::Effect;

verus! {

/// Mutable counters of one bend: frames of pause left before the next
/// firing, and firings left.
#[derive(Clone, Copy, Debug, Eq, PartialEq, Structural)]
pub struct BendState {
    pub pause_count: u8,
    pub length_count: u8,
}

/// The state a bend template rearms to.
pub open spec fn spec_bend_init(b: Bend) -> BendState {
    BendState { pause_count: b.pause, length_count: b.length }
}

/// A bend fires when it is not pausing and still has firings left.
pub open spec fn spec_bend_fires(s: BendState) -> bool {
    s.pause_count == 0 && s.length_count > 0
}

/// A scanned bend that did not fire ticks its pause down.
pub open spec fn spec_pause_tick(s: BendState) -> BendState {
    if s.pause_count > 0 {
        BendState { pause_count: (s.pause_count - 1) as u8, length_count: s.length_count }
    } else {
        s
    }
}

/// The bend that fired: one firing spent, pause rearmed from the template.
pub open spec fn spec_bend_fired(b: Bend, s: BendState) -> BendState
    recommends
        s.length_count > 0,
{
    BendState { pause_count: b.pause, length_count: (s.length_count - 1) as u8 }
}

/// Index of the first bend that fires, or `states.len()` when none does.
pub open spec fn spec_fire_index(states: Seq<BendState>) -> int
    decreases states.len(),
{
    if states.len() == 0 {
        0
    } else if spec_bend_fires(states[0]) {
        0
    } else {
        1 + spec_fire_index(states.skip(1))
    }
}

/// The first firing index is the first index that fires: everything
/// before it does not fire, and it fires itself unless the array is
/// spent.
pub proof fn lemma_fire_index(states: Seq<BendState>)
    ensures
        0 <= spec_fire_index(states) <= states.len(),
        spec_fire_index(states) < states.len() ==> spec_bend_fires(
            states[spec_fire_index(states)],
        ),
        forall|j: int| 0 <= j < spec_fire_index(states) ==> !spec_bend_fires(states[j]),
    decreases states.len(),
{
    if states.len() > 0 && !spec_bend_fires(states[0]) {
        let rest = states.skip(1);
        lemma_fire_index(rest);
        let idx = spec_fire_index(states);
        assert forall|j: int| 0 <= j < idx implies !spec_bend_fires(states[j]) by {
            if j > 0 {
                assert(rest[j - 1] == states[j]);
            }
        }
        if idx < states.len() {
            assert(rest[idx - 1] == states[idx]);
        }
    }
}

/// What one `EffectState::step` call does to a bend array: the rate handed
/// back and the new states.
pub open spec fn spec_step(bends: Seq<Bend>, states: Seq<BendState>, loops: bool) -> (
    i16,
    Seq<BendState>,
)
    recommends
        bends.len() == states.len(),
{
    let idx = spec_fire_index(states);
    if idx < states.len() {
        (
            bends[idx].rate,
            states.map(
                |j: int, s: BendState|
                    if j < idx {
                        spec_pause_tick(s)
                    } else if j == idx {
                        spec_bend_fired(bends[idx], s)
                    } else {
                        s
                    },
            ),
        )
    } else if loops {
        (0, bends.map(|j: int, b: Bend| spec_bend_init(b)))
    } else {
        (0, states.map(|j: int, s: BendState| spec_pause_tick(s)))
    }
}

/// Aggregate modulation state of one voice: counters for the two tremolo
/// and three vibrato bends of the selected effect, the loop flags, and the
/// accumulated volume and period deltas (both in the driver's raw units;
/// volume is in 64ths).
#[derive(Clone, Debug)]
pub struct EffectState {
    pub tremolos: Vec<BendState>,
    pub vibratos: Vec<BendState>,
    pub tremolo_loops: bool,
    pub vibrato_loops: bool,
    pub vol_adjust: i16,
    pub period_adjust: i16,
}

/// Mathematical image of an [`EffectState`]: the counter rows as
/// sequences, plus the flags and accumulators.
#[verifier::ext_equal]
pub struct EffectStateModel {
    pub tremolos: Seq<BendState>,
    pub vibratos: Seq<BendState>,
    pub tremolo_loops: bool,
    pub vibrato_loops: bool,
    pub vol_adjust: i16,
    pub period_adjust: i16,
}

impl View for EffectState {
    type V = EffectStateModel;

    open spec fn view(&self) -> EffectStateModel {
        EffectStateModel {
            tremolos: self.tremolos@,
            vibratos: self.vibratos@,
            tremolo_loops: self.tremolo_loops,
            vibrato_loops: self.vibrato_loops,
            vol_adjust: self.vol_adjust,
            period_adjust: self.period_adjust,
        }
    }
}

impl EffectStateModel {
    /// Counters for exactly two tremolo and three vibrato bends.
    pub open spec fn wf(self) -> bool {
        self.tremolos.len() == 2 && self.vibratos.len() == 3
    }
}

/// The model of a freshly selected effect: everything spent and cleared.
pub open spec fn spec_effect_state_init() -> EffectStateModel {
    EffectStateModel {
        tremolos: seq![
            BendState { pause_count: 0, length_count: 0 },
            BendState { pause_count: 0, length_count: 0 },
        ],
        vibratos: seq![
            BendState { pause_count: 0, length_count: 0 },
            BendState { pause_count: 0, length_count: 0 },
            BendState { pause_count: 0, length_count: 0 },
        ],
        tremolo_loops: false,
        vibrato_loops: false,
        vol_adjust: 0,
        period_adjust: 0,
    }
}

/// The model after [`EffectState::reset`]: counters rearmed from the
/// effect's templates, accumulators cleared, flags kept.
pub open spec fn spec_effect_state_reset(
    s: EffectStateModel,
    e: crate::sound_data::EffectModel,
) -> EffectStateModel {
    EffectStateModel {
        tremolos: e.tremolos.map(|j: int, b: Bend| spec_bend_init(b)),
        vibratos: e.vibratos.map(|j: int, b: Bend| spec_bend_init(b)),
        tremolo_loops: s.tremolo_loops,
        vibrato_loops: s.vibrato_loops,
        vol_adjust: 0,
        period_adjust: 0,
    }
}

impl BendState {
    /// A spent counter pair: pauses nothing, fires nothing.
    pub fn new() -> (r: BendState)
        ensures
            r == (BendState { pause_count: 0, length_count: 0 }),
    {
        BendState { pause_count: 0, length_count: 0 }
    }

    /// Counters armed from a bend template.
    pub fn from(bend: &Bend) -> (r: BendState)
        ensures
            r == spec_bend_init(*bend),
    {
        BendState { pause_count: bend.pause, length_count: bend.length }
    }
}

impl EffectState {
    /// Counters for exactly two tremolo and three vibrato bends.
    pub open spec fn wf(self) -> bool {
        self.tremolos@.len() == 2 && self.vibratos@.len() == 3
    }

    /// The state set when a new effect is selected: everything spent and
    /// cleared, loop flags off.
    pub fn new() -> (r: EffectState)
        ensures
            r.wf(),
            r@ == spec_effect_state_init(),
    {
        let mut tremolos: Vec<BendState> = Vec::new();
        tremolos.push(BendState::new());
        tremolos.push(BendState::new());
        let mut vibratos: Vec<BendState> = Vec::new();
        vibratos.push(BendState::new());
        vibratos.push(BendState::new());
        vibratos.push(BendState::new());
        let r = EffectState {
            tremolos,
            vibratos,
            tremolo_loops: false,
            vibrato_loops: false,
            vol_adjust: 0,
            period_adjust: 0,
        };
        proof {
            assert(r@ =~~= spec_effect_state_init());
        }
        r
    }

    /// Rearm every counter from the effect's templates and clear both
    /// accumulators; the loop flags are kept. Done when a new note starts.
    pub fn reset(&mut self, effect: &Effect)
        requires
            old(self).wf(),
            effect.wf(),
        ensures
            final(self).wf(),
            final(self)@ == spec_effect_state_reset(old(self)@, effect@),
    {
        let mut tremolos: Vec<BendState> = Vec::new();
        let mut vibratos: Vec<BendState> = Vec::new();
        tremolos.push(BendState::from(&effect.tremolos[0]));
        tremolos.push(BendState::from(&effect.tremolos[1]));
        vibratos.push(BendState::from(&effect.vibratos[0]));
        vibratos.push(BendState::from(&effect.vibratos[1]));
        vibratos.push(BendState::from(&effect.vibratos[2]));
        proof {
            assert(tremolos@ =~= effect.tremolos@.map(|j: int, b: Bend| spec_bend_init(b)));
            assert(vibratos@ =~= effect.vibratos@.map(|j: int, b: Bend| spec_bend_init(b)));
        }
        self.tremolos = tremolos;
        self.vibratos = vibratos;
        self.vol_adjust = 0;
        self.period_adjust = 0;
        proof {
            assert(self@ =~~= spec_effect_state_reset(old(self)@, effect@));
        }
    }

    /// Scan a bend array once and hand back the rate of the bend that
    /// fired, 0 when none did; rewind from the templates when the array is
    /// spent and `loops` is set.
    #[verifier::loop_isolation(false)]
    pub fn step(bends: &Vec<Bend>, bend_states: &mut Vec<BendState>, loops: bool) -> (r: i16)
        requires
            bends@.len() == old(bend_states)@.len(),
        ensures
            (r, final(bend_states)@) == spec_step(bends@, old(bend_states)@, loops),
    {
        let ghost orig = bend_states@;
        let n = bend_states.len();
        let mut i: usize = 0;
        proof {
            lemma_fire_index(orig);
        }
        while i < n
            invariant
                n == orig.len() == bends@.len(),
                bend_states@.len() == n,
                i <= n,
                forall|j: int| 0 <= j < i ==> !spec_bend_fires(orig[j]),
                forall|j: int| 0 <= j < i ==> bend_states@[j] == spec_pause_tick(orig[j]),
                forall|j: int| i <= j < n ==> bend_states@[j] == orig[j],
                0 <= spec_fire_index(orig) <= n,
                spec_fire_index(orig) < n ==> spec_bend_fires(orig[spec_fire_index(orig)]),
                forall|j: int| 0 <= j < spec_fire_index(orig) ==> !spec_bend_fires(orig[j]),
            decreases n - i,
        {
            let s = bend_states[i];
            if s.pause_count > 0 {
                bend_states.set(
                    i,
                    BendState { pause_count: s.pause_count - 1, length_count: s.length_count },
                );
                i = i + 1;
                continue ;
            }
            if s.length_count == 0 {
                i = i + 1;
                continue ;
            }
            let fx = bends[i];
            bend_states.set(
                i,
                BendState { pause_count: fx.pause, length_count: s.length_count - 1 },
            );
            proof {
                assert(s == orig[i as int]);
                assert(spec_bend_fires(orig[i as int]));
                assert(spec_fire_index(orig) == i) by {
                    let idx = spec_fire_index(orig);
                    if idx < i {
                        assert(spec_bend_fires(orig[idx]));
                        assert(!spec_bend_fires(orig[idx]));
                    }
                    if idx > i {
                        assert(!spec_bend_fires(orig[i as int]));
                    }
                }
                let (sr, sst) = spec_step(bends@, orig, loops);
                assert(bend_states@ =~= sst);
            }
            return fx.rate;
        }
        proof {
            assert(spec_fire_index(orig) == n) by {
                if spec_fire_index(orig) < n {
                    assert(!spec_bend_fires(orig[spec_fire_index(orig)]));
                }
            }
        }
        if loops {
            let mut j: usize = 0;
            while j < n
                invariant
                    n == orig.len() == bends@.len(),
                    bend_states@.len() == n,
                    j <= n,
                    forall|k: int| 0 <= k < j ==> bend_states@[k] == spec_bend_init(bends@[k]),
                decreases n - j,
            {
                bend_states.set(j, BendState::from(&bends[j]));
                j = j + 1;
            }
            proof {
                let (sr, sst) = spec_step(bends@, orig, loops);
                assert(bend_states@ =~= sst);
            }
        } else {
            proof {
                let (sr, sst) = spec_step(bends@, orig, loops);
                assert(bend_states@ =~= sst);
            }
        }
        0
    }

    /// Advance the *vibrato* bends and fold the fired rate into the period
    /// delta with the driver's wrapping 16-bit addition.
    pub fn step_tremolo(&mut self, effect: &Effect)
        requires
            old(self).wf(),
            effect.wf(),
        ensures
            final(self).wf(),
            ({
                let (rate, states) = spec_step(
                    effect.vibratos@,
                    old(self).vibratos@,
                    old(self).vibrato_loops,
                );
                &&& final(self).vibratos@ == states
                &&& final(self).period_adjust == vstd::wrapping::i16_specs::wrapping_add(
                    old(self).period_adjust,
                    rate,
                )
            }),
            final(self).tremolos == old(self).tremolos,
            final(self).tremolo_loops == old(self).tremolo_loops,
            final(self).vibrato_loops == old(self).vibrato_loops,
            final(self).vol_adjust == old(self).vol_adjust,
    {
        let rate = EffectState::step(&effect.vibratos, &mut self.vibratos, self.vibrato_loops);
        self.period_adjust = self.period_adjust.wrapping_add(rate);
    }

    /// Advance the *tremolo* bends and fold the fired rate into the volume
    /// delta with the driver's wrapping 16-bit addition.
    pub fn step_vibrato(&mut self, effect: &Effect)
        requires
            old(self).wf(),
            effect.wf(),
        ensures
            final(self).wf(),
            ({
                let (rate, states) = spec_step(
                    effect.tremolos@,
                    old(self).tremolos@,
                    old(self).tremolo_loops,
                );
                &&& final(self).tremolos@ == states
                &&& final(self).vol_adjust == vstd::wrapping::i16_specs::wrapping_add(
                    old(self).vol_adjust,
                    rate,
                )
            }),
            final(self).vibratos == old(self).vibratos,
            final(self).tremolo_loops == old(self).tremolo_loops,
            final(self).vibrato_loops == old(self).vibrato_loops,
            final(self).period_adjust == old(self).period_adjust,
    {
        let rate = EffectState::step(&effect.tremolos, &mut self.tremolos, self.tremolo_loops);
        self.vol_adjust = self.vol_adjust.wrapping_add(rate);
    }
}

/// The bend states after `n` scans of the same bend array.
pub open spec fn spec_step_iter(
    bends: Seq<Bend>,
    states: Seq<BendState>,
    loops: bool,
    n: nat,
) -> Seq<BendState>
    decreases n,
{
    if n == 0 {
        states
    } else {
        spec_step_iter(bends, spec_step(bends, states, loops).1, loops, (n - 1) as nat)
    }
}

/// Stepping an effect is a pure function of its inputs: equal bend arrays,
/// equal counters and an equal loop flag give the same fired rate at every
/// scan and the same counters after any number of scans.
pub proof fn lemma_effect_step_deterministic(
    bends: Seq<Bend>,
    s1: Seq<BendState>,
    s2: Seq<BendState>,
    loops: bool,
    n: nat,
)
    requires
        s1 == s2,
    ensures
        spec_step(bends, s1, loops) == spec_step(bends, s2, loops),
        spec_step_iter(bends, s1, loops, n) == spec_step_iter(bends, s2, loops, n),
{
}

/// One scan of a one-bend array, written out by the three cases of the
/// scan: fire, fall off the end and rewind, fall off the end and tick.
pub proof fn lemma_step_single(b: Bend, s: BendState, loops: bool)
    ensures
        spec_bend_fires(s) ==> spec_step(seq![b], seq![s], loops) == (
        b.rate,
        seq![spec_bend_fired(b, s)],
        ),
        !spec_bend_fires(s) && loops ==> spec_step(seq![b], seq![s], loops) == (
        0i16,
        seq![spec_bend_init(b)],
        ),
        !spec_bend_fires(s) && !loops ==> spec_step(seq![b], seq![s], loops) == (
        0i16,
        seq![spec_pause_tick(s)],
        ),
{
    let states = seq![s];
    assert(states.skip(1) =~= Seq::<BendState>::empty());
    assert(spec_fire_index(Seq::<BendState>::empty()) == 0);
    if spec_bend_fires(s) {
        assert(spec_fire_index(states) == 0);
        assert(spec_step(seq![b], states, loops).1 =~= seq![spec_bend_fired(b, s)]);
    } else {
        assert(spec_fire_index(states) == 1);
        if loops {
            assert(spec_step(seq![b], states, loops).1 =~= seq![spec_bend_init(b)]);
        } else {
            assert(spec_step(seq![b], states, loops).1 =~= seq![spec_pause_tick(s)]);
        }
    }
}

/// Scans compose: `m + n` scans are `m` scans followed by `n` scans.
pub proof fn lemma_step_iter_add(
    bends: Seq<Bend>,
    states: Seq<BendState>,
    loops: bool,
    m: nat,
    n: nat,
)
    ensures
        spec_step_iter(bends, states, loops, m + n) == spec_step_iter(
            bends,
            spec_step_iter(bends, states, loops, m),
            loops,
            n,
        ),
    decreases m,
{
    if m > 0 {
        lemma_step_iter_add(bends, spec_step(bends, states, loops).1, loops, (m - 1) as nat, n);
    }
}

/// `q` scans of a pausing one-bend array only tick the pause down.
proof fn lemma_bend_pause_phase(b: Bend, q: u8, l: u8)
    ensures
        spec_step_iter(
            seq![b],
            seq![BendState { pause_count: q, length_count: l }],
            false,
            q as nat,
        ) == seq![BendState { pause_count: 0, length_count: l }],
    decreases q,
{
    if q > 0 {
        let s = BendState { pause_count: q, length_count: l };
        lemma_step_single(b, s, false);
        assert(spec_pause_tick(s) == BendState {
            pause_count: (q - 1) as u8,
            length_count: l,
        });
        lemma_bend_pause_phase(b, (q - 1) as u8, l);
    }
}

/// From counters `(q, l)` with `l` firings left, a one-bend array runs dry
/// in exactly `q + 1 + (l - 1) * (b.pause + 1)` scans, ending rearmed but
/// spent.
proof fn lemma_bend_exhaust_from(b: Bend, q: u8, l: u8)
    requires
        l >= 1,
    ensures
        spec_step_iter(
            seq![b],
            seq![BendState { pause_count: q, length_count: l }],
            false,
            (q + 1 + (l - 1) * (b.pause + 1)) as nat,
        ) == seq![BendState { pause_count: b.pause, length_count: 0 }],
    decreases l,
{
    let start = seq![BendState { pause_count: q, length_count: l }];
    lemma_bend_pause_phase(b, q, l);
    let paused = BendState { pause_count: 0, length_count: l };
    lemma_step_single(b, paused, false);
    let fired = BendState { pause_count: b.pause, length_count: (l - 1) as u8 };
    assert(spec_bend_fired(b, paused) == fired);
    lemma_step_iter_add(seq![b], start, false, q as nat, 1);
    assert(spec_step_iter(seq![b], seq![paused], false, 1) == spec_step(
        seq![b],
        seq![paused],
        false,
    ).1) by {
        reveal_with_fuel(spec_step_iter, 2);
    }
    assert(spec_step_iter(seq![b], start, false, (q + 1) as nat) == seq![fired]);
    if l == 1 {
        assert((q + 1 + (l - 1) * (b.pause + 1)) == q + 1) by (nonlinear_arith)
            requires l == 1;
    } else {
        lemma_bend_exhaust_from(b, b.pause, (l - 1) as u8);
        lemma_step_iter_add(
            seq![b],
            start,
            false,
            (q + 1) as nat,
            (b.pause + 1 + (l - 2) * (b.pause + 1)) as nat,
        );
        assert((q + 1 + (l - 1) * (b.pause + 1)) == (q + 1) + (b.pause + 1 + (l - 2) * (b.pause
            + 1))) by (nonlinear_arith)
            requires l >= 2;
    }
}

/// A spent bend never fires again: with no firings left, a scan hands back
/// rate 0 and leaves no firings, whether it ticks a leftover pause or not.
pub proof fn lemma_spent_bend_skipped(b: Bend, s: BendState)
    requires
        s.length_count == 0,
    ensures
        spec_step(seq![b], seq![s], false).0 == 0,
        spec_step(seq![b], seq![s], false).1[0].length_count == 0,
        spec_step(seq![b], seq![s], false).1.len() == 1,
{
    lemma_step_single(b, s, false);
}

/// The bend-step law: starting from its template, a non-looping one-bend
/// array has spent all its firings after `length * (pause + 1)` scans
/// (`length + pause` scans whenever `pause` is 0 or `length` is at most 1),
/// and every later scan skips the bend.
pub proof fn lemma_bend_step_law(b: Bend)
    ensures
        spec_step_iter(
            seq![b],
            seq![spec_bend_init(b)],
            false,
            (b.length * (b.pause + 1)) as nat,
        )[0].length_count == 0,
        b.pause == 0 || b.length <= 1 ==> spec_step_iter(
            seq![b],
            seq![spec_bend_init(b)],
            false,
            (b.length + b.pause) as nat,
        )[0].length_count == 0,
{
    if b.length == 0 {
        lemma_bend_pause_phase(b, b.pause, 0);
        assert(b.length * (b.pause + 1) == 0) by (nonlinear_arith)
            requires b.length == 0;
    } else {
        lemma_bend_exhaust_from(b, b.pause, b.length);
        assert(b.pause + 1 + (b.length - 1) * (b.pause + 1) == b.length * (b.pause + 1))
            by (nonlinear_arith)
            requires b.length >= 1;
        if b.pause == 0 || b.length <= 1 {
            assert(b.length * (b.pause + 1) == b.length + b.pause) by (nonlinear_arith)
                requires b.length >= 1 && (b.pause == 0 || b.length <= 1);
        }
    }
}

} // verus!
