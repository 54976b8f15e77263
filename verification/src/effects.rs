//! Keyboard lighting effects: four closed variants, each a small state
//! machine that is advanced once per animation tick and keeps a board
//! snapshot of what it currently shows.
//!
//! Every variant is modelled by a ghost [`EffectView`]; the transition
//! function [`EffectView::stepped`] says exactly what one tick does to that
//! model, and the executable `update` methods are proved to follow it.
//!
//! Timing: effects are ticked every [`ANIMATION_SLEEP_MS`] milliseconds, and
//! persisted durations are multiples of 100 ms converted to that tick unit.

use vstd::prelude::*;

use crate::board::AnimatorKeyColour;
use crate::board::BoardView;
use crate::board::KeyColour;
use crate::board::KeyboardData;
use crate::board::KEYS_PER_ROW;
use crate::board::TOTAL_KEYS;
use crate::board::clamp_channel;
use crate::board::div_trunc;

verus! {

/// Milliseconds between two animation ticks (about 30 frames per second).
pub const ANIMATION_SLEEP_MS: u64 = 33;

/// The value channel `j` (0 red, 1 green, 2 blue) of a colour accumulator
/// reaches after `i` additions of `step`, starting from `start`.
pub open spec fn accum(start: int, step: int, i: int) -> int
    decreases i,
{
    if i <= 0 {
        start
    } else {
        accum(start, step, i - 1) + step
    }
}

/// Bounds on an accumulated channel: each addend stays within one full
/// channel, so `i` additions stay within `i + 1` full channels.
pub proof fn lemma_accum_bound(start: int, step: int, i: int)
    requires
        -255_000_000 <= start <= 255_000_000,
        -255_000_000 <= step <= 255_000_000,
        0 <= i,
    ensures
        -255_000_000 - 255_000_000 * i <= accum(start, step, i) <= 255_000_000 + 255_000_000 * i,
    decreases i,
{
    if i > 0 {
        lemma_accum_bound(start, step, i - 1);
        assert(255_000_000 * i == 255_000_000 * (i - 1) + 255_000_000) by (nonlinear_arith);
    }
}

/// Truncating division never grows a channel's magnitude, so a step derived
/// from a channel difference stays within one full channel.
pub proof fn lemma_div_trunc_range(a: int, d: int)
    requires
        d >= 1,
        -255_000_000 <= a <= 255_000_000,
    ensures
        -255_000_000 <= div_trunc(a, d) <= 255_000_000,
{
    if a >= 0 {
        assert(0 <= a / d <= a) by (nonlinear_arith)
            requires
                a >= 0,
                d >= 1,
        ;
    } else {
        assert(0 <= (-a) / d <= -a) by (nonlinear_arith)
            requires
                a < 0,
                d >= 1,
        ;
    }
}

/// The abstract state of an effect: everything its next ticks depend on.
pub ghost enum EffectView {
    Static { board: BoardView, params: Seq<u8> },
    StaticGradient { board: BoardView, params: Seq<u8> },
    WaveGradient { board: BoardView, params: Seq<u8>, band: Seq<AnimatorKeyColour> },
    BreathSingle {
        board: BoardView,
        params: Seq<u8>,
        step_duration_ms: u64,
        start_ms: u64,
        step: u8,
        target: AnimatorKeyColour,
        current: AnimatorKeyColour,
        increment: AnimatorKeyColour,
    },
}

impl EffectView {
    /// The board snapshot the effect currently shows.
    pub open spec fn board(self) -> BoardView {
        match self {
            EffectView::Static { board, .. } => board,
            EffectView::StaticGradient { board, .. } => board,
            EffectView::WaveGradient { board, .. } => board,
            EffectView::BreathSingle { board, .. } => board,
        }
    }

    /// The parameter bytes the effect was constructed from.
    pub open spec fn params(self) -> Seq<u8> {
        match self {
            EffectView::Static { params, .. } => params,
            EffectView::StaticGradient { params, .. } => params,
            EffectView::WaveGradient { params, .. } => params,
            EffectView::BreathSingle { params, .. } => params,
        }
    }

    /// The effect's unique display name, also used in saved effect records.
    pub open spec fn name(self) -> Seq<char> {
        match self {
            EffectView::Static { .. } => "Static"@,
            EffectView::StaticGradient { .. } => "Static Gradient"@,
            EffectView::WaveGradient { .. } => "Wave Gradient"@,
            EffectView::BreathSingle { .. } => "Breathing Single"@,
        }
    }

    /// What one animation tick at wall-clock time `now_ms` does to the
    /// effect: the static variants stand still, the wave shows its band and
    /// rotates it, and the breathing cycle runs its four-state transition.
    pub open spec fn stepped(self, now_ms: u64) -> EffectView {
        match self {
            EffectView::Static { .. } => self,
            EffectView::StaticGradient { .. } => self,
            EffectView::WaveGradient { board, params, band } => EffectView::WaveGradient {
                board: BoardView {
                    keys: Seq::new(TOTAL_KEYS as nat, |k: int| band[k % 15].spec_clamped()),
                    brightness: board.brightness,
                },
                params,
                band: spec_band_rotated(band),
            },
            EffectView::BreathSingle {
                board,
                params,
                step_duration_ms,
                start_ms,
                step,
                target,
                current,
                increment,
            } => {
                let (next_colour, next_step, next_start) = spec_breath_transition(
                    step_duration_ms,
                    start_ms,
                    step,
                    target,
                    current,
                    increment,
                    now_ms,
                );
                EffectView::BreathSingle {
                    board: BoardView {
                        keys: Seq::new(TOTAL_KEYS as nat, |k: int| next_colour.spec_clamped()),
                        brightness: board.brightness,
                    },
                    params,
                    step_duration_ms,
                    start_ms: next_start,
                    step: next_step,
                    target,
                    current: next_colour,
                    increment,
                }
            },
        }
    }

    /// Effects keep their name and parameters for their whole lifetime: a
    /// tick never changes what a layer would save.
    pub proof fn lemma_stepped_keeps_identity(self, now_ms: u64)
        ensures
            self.stepped(now_ms).name() == self.name(),
            self.stepped(now_ms).params() == self.params(),
    {
    }
}

// -- Static: one colour, no animation --

/// One colour applied to the whole board; ticks never change it.
pub struct Static {
    kbd: KeyboardData,
    args: Vec<u8>,
}

impl View for Static {
    type V = EffectView;

    closed spec fn view(&self) -> EffectView {
        EffectView::Static { board: self.kbd@, params: self.args@ }
    }
}

/// The model a fresh `Static` effect starts in: the first three parameter
/// bytes applied to every key.
pub open spec fn spec_static_new(p: Seq<u8>) -> EffectView
    recommends
        p.len() >= 3,
{
    EffectView::Static {
        board: BoardView {
            keys: Seq::new(
                TOTAL_KEYS as nat,
                |i: int| KeyColour { red: p[0], green: p[1], blue: p[2] },
            ),
            brightness: 0,
        },
        params: p.subrange(0, 3),
    }
}

impl Static {
    /// Construction stores exactly the three colour bytes and one colour per
    /// key.
    pub open spec fn wf(self) -> bool {
        &&& self@.board().keys.len() == TOTAL_KEYS
        &&& self@.params().len() == 3
    }

    /// Builds the effect from its parameter bytes: red, green, blue.
    pub fn new(args: &Vec<u8>) -> (e: Static)
        requires
            args@.len() >= 3,
        ensures
            e.wf(),
            e@ == spec_static_new(args@),
    {
        let mut kbd = KeyboardData::new();
        kbd.set_kbd_colour(args[0], args[1], args[2]);
        let mut kept: Vec<u8> = Vec::new();
        kept.push(args[0]);
        kept.push(args[1]);
        kept.push(args[2]);
        proof {
            assert(kept@ =~= args@.subrange(0, 3));
            assert(kbd@.keys =~= spec_static_new(args@).board().keys);
        }
        Static { kbd, args: kept }
    }

    /// One tick: a static colour never changes.
    pub fn update(&mut self)
        requires
            old(self).wf(),
        ensures
            final(self).wf(),
            *final(self) == *old(self),
    {
    }
}

// -- Static gradient: two colours blended across the columns --

/// Channel `j` (0 red, 1 green, 2 blue) of gradient column `i`, in
/// fixed-point units: column 0 is the first colour and each further column
/// adds one fourteenth of the channel difference.
pub open spec fn grad_channel(p: Seq<u8>, j: int, i: int) -> int
    recommends
        p.len() >= 6,
        0 <= j < 3,
{
    let c1 = p[j] * 1_000_000;
    let c2 = p[3 + j] * 1_000_000;
    accum(c1, div_trunc(c2 - c1, 14), i)
}

/// The colour byte triple gradient column `i` shows.
pub open spec fn grad_colour(p: Seq<u8>, i: int) -> KeyColour
    recommends
        p.len() >= 6,
{
    KeyColour {
        red: clamp_channel(grad_channel(p, 0, i)),
        green: clamp_channel(grad_channel(p, 1, i)),
        blue: clamp_channel(grad_channel(p, 2, i)),
    }
}

/// The model a fresh `StaticGradient` effect starts in: every key of column
/// `c` shows `grad_colour(p, c)`.
pub open spec fn spec_static_gradient_new(p: Seq<u8>) -> EffectView
    recommends
        p.len() >= 7,
{
    EffectView::StaticGradient {
        board: BoardView {
            keys: Seq::new(TOTAL_KEYS as nat, |i: int| grad_colour(p, i % 15)),
            brightness: 0,
        },
        params: p.subrange(0, 7),
    }
}

/// Two colours blended across the 15 key columns; ticks never change it.
pub struct StaticGradient {
    kbd: KeyboardData,
    args: Vec<u8>,
}

impl View for StaticGradient {
    type V = EffectView;

    closed spec fn view(&self) -> EffectView {
        EffectView::StaticGradient { board: self.kbd@, params: self.args@ }
    }
}

impl StaticGradient {
    /// Construction stores exactly the seven parameter bytes and one colour
    /// per key.
    pub open spec fn wf(self) -> bool {
        &&& self@.board().keys.len() == TOTAL_KEYS
        &&& self@.params().len() == 7
    }

    /// Builds the effect from its parameter bytes: colour one, colour two,
    /// and the reserved direction byte.
    pub fn new(args: &Vec<u8>) -> (e: StaticGradient)
        requires
            args@.len() >= 7,
        ensures
            e.wf(),
            e@ == spec_static_gradient_new(args@),
    {
        let mut kbd = KeyboardData::new();
        let mut c1 = AnimatorKeyColour::from_rgb(args[0], args[1], args[2]);
        let c2 = AnimatorKeyColour::from_rgb(args[3], args[4], args[5]);
        let delta = c2.minus(c1).divide(14);
        let mut i: usize = 0;
        while i < KEYS_PER_ROW
            invariant
                args@.len() >= 7,
                kbd.wf(),
                kbd@.brightness == 0,
                i <= 15,
                c1.red == grad_channel(args@, 0, i as int),
                c1.green == grad_channel(args@, 1, i as int),
                c1.blue == grad_channel(args@, 2, i as int),
                delta.red == div_trunc(args@[3] * 1_000_000 - args@[0] * 1_000_000, 14),
                delta.green == div_trunc(args@[4] * 1_000_000 - args@[1] * 1_000_000, 14),
                delta.blue == div_trunc(args@[5] * 1_000_000 - args@[2] * 1_000_000, 14),
                forall|k: int|
                    0 <= k < TOTAL_KEYS ==> kbd@.keys[k] == if k % 15 < i {
                        grad_colour(args@, k % 15)
                    } else {
                        KeyColour { red: 255, green: 255, blue: 255 }
                    },
            decreases 15 - i,
        {
            proof {
                lemma_div_trunc_range(args@[3] * 1_000_000 - args@[0] * 1_000_000, 14);
                lemma_div_trunc_range(args@[4] * 1_000_000 - args@[1] * 1_000_000, 14);
                lemma_div_trunc_range(args@[5] * 1_000_000 - args@[2] * 1_000_000, 14);
                lemma_accum_bound(
                    args@[0] * 1_000_000,
                    div_trunc(args@[3] * 1_000_000 - args@[0] * 1_000_000, 14),
                    i as int,
                );
                lemma_accum_bound(
                    args@[1] * 1_000_000,
                    div_trunc(args@[4] * 1_000_000 - args@[1] * 1_000_000, 14),
                    i as int,
                );
                lemma_accum_bound(
                    args@[2] * 1_000_000,
                    div_trunc(args@[5] * 1_000_000 - args@[2] * 1_000_000, 14),
                    i as int,
                );
            }
            let clamped = c1.get_clamped_colour();
            kbd.set_col_colour(i, clamped.red, clamped.green, clamped.blue);
            c1 = c1.plus(delta);
            i = i + 1;
        }
        let mut kept: Vec<u8> = Vec::new();
        let mut j: usize = 0;
        while j < 7
            invariant
                args@.len() >= 7,
                j <= 7,
                kept@.len() == j,
                forall|t: int| 0 <= t < j ==> kept@[t] == args@[t],
            decreases 7 - j,
        {
            kept.push(args[j]);
            j = j + 1;
        }
        proof {
            assert(kept@ =~= args@.subrange(0, 7));
            assert(kbd@.keys =~= spec_static_gradient_new(args@).board().keys);
        }
        StaticGradient { kbd, args: kept }
    }

    /// One tick: a static gradient never changes.
    pub fn update(&mut self)
        requires
            old(self).wf(),
        ensures
            final(self).wf(),
            *final(self) == *old(self),
    {
    }
}

// -- Wave gradient: a scrolling closed triangular colour band --

/// Channel `j` of band entry `i` right after construction: the first 15
/// entries walk from colour one towards colour two in fifteenths of the
/// difference, the next 15 walk back with the same step.
pub open spec fn wave_band_channel(p: Seq<u8>, j: int, i: int) -> int
    recommends
        p.len() >= 6,
        0 <= j < 3,
        0 <= i < 30,
{
    let c1 = p[j] * 1_000_000;
    let c2 = p[3 + j] * 1_000_000;
    let d = div_trunc(c2 - c1, 15);
    if i < 15 {
        accum(c1, d, i)
    } else {
        accum(c2, -d, i - 15)
    }
}

/// Band entry `i` right after construction.
pub open spec fn wave_band_entry(p: Seq<u8>, i: int) -> AnimatorKeyColour
    recommends
        p.len() >= 6,
        0 <= i < 30,
{
    AnimatorKeyColour {
        red: wave_band_channel(p, 0, i) as i64,
        green: wave_band_channel(p, 1, i) as i64,
        blue: wave_band_channel(p, 2, i) as i64,
    }
}

/// The model a fresh `WaveGradient` effect starts in: an untouched (all
/// white) board and the full 30-entry colour band.
pub open spec fn spec_wave_gradient_new(p: Seq<u8>) -> EffectView
    recommends
        p.len() >= 7,
{
    EffectView::WaveGradient {
        board: BoardView {
            keys: Seq::new(
                TOTAL_KEYS as nat,
                |i: int| KeyColour { red: 255, green: 255, blue: 255 },
            ),
            brightness: 0,
        },
        params: p.subrange(0, 7),
        band: Seq::new(30, |i: int| wave_band_entry(p, i)),
    }
}

/// The band after one tick: rotated right by exactly one position, so entry
/// `i` now holds what entry `i - 1` (mod 30) held before.
pub open spec fn spec_band_rotated(band: Seq<AnimatorKeyColour>) -> Seq<AnimatorKeyColour>
    recommends
        band.len() == 30,
{
    Seq::new(
        30,
        |i: int|
            if i == 0 {
                band[29]
            } else {
                band[i - 1]
            },
    )
}

/// Two colours forming a gradient, animated across the keyboard: each tick
/// shows the first 15 band entries on the 15 columns, then rotates the band.
pub struct WaveGradient {
    kbd: KeyboardData,
    args: Vec<u8>,
    colour_band: Vec<AnimatorKeyColour>,
}

impl View for WaveGradient {
    type V = EffectView;

    closed spec fn view(&self) -> EffectView {
        EffectView::WaveGradient {
            board: self.kbd@,
            params: self.args@,
            band: self.colour_band@,
        }
    }
}

impl WaveGradient {
    /// Construction stores exactly the seven parameter bytes, one colour per
    /// key and a 30-entry band.
    pub open spec fn wf(self) -> bool {
        &&& self@.board().keys.len() == TOTAL_KEYS
        &&& self@.params().len() == 7
        &&& self.spec_band().len() == 30
    }

    /// The effect's colour band, as abstract state.
    pub open spec fn spec_band(self) -> Seq<AnimatorKeyColour> {
        self@->WaveGradient_band
    }

    /// Builds the effect from its parameter bytes: colour one, colour two,
    /// and the reserved direction byte.
    pub fn new(args: &Vec<u8>) -> (e: WaveGradient)
        requires
            args@.len() >= 7,
        ensures
            e.wf(),
            e@ == spec_wave_gradient_new(args@),
    {
        let kbd = KeyboardData::new();
        let mut band: Vec<AnimatorKeyColour> = Vec::new();
        let mut c1 = AnimatorKeyColour::from_rgb(args[0], args[1], args[2]);
        let mut c2 = AnimatorKeyColour::from_rgb(args[3], args[4], args[5]);
        let delta = c2.minus(c1).divide(15);
        let ghost dr = div_trunc(args@[3] * 1_000_000 - args@[0] * 1_000_000, 15);
        let ghost dg = div_trunc(args@[4] * 1_000_000 - args@[1] * 1_000_000, 15);
        let ghost db = div_trunc(args@[5] * 1_000_000 - args@[2] * 1_000_000, 15);
        let mut i: usize = 0;
        while i < 15
            invariant
                args@.len() >= 7,
                i <= 15,
                band@.len() == i,
                dr == div_trunc(args@[3] * 1_000_000 - args@[0] * 1_000_000, 15),
                dg == div_trunc(args@[4] * 1_000_000 - args@[1] * 1_000_000, 15),
                db == div_trunc(args@[5] * 1_000_000 - args@[2] * 1_000_000, 15),
                delta.red == dr,
                delta.green == dg,
                delta.blue == db,
                c1.red == accum(args@[0] * 1_000_000, dr, i as int),
                c1.green == accum(args@[1] * 1_000_000, dg, i as int),
                c1.blue == accum(args@[2] * 1_000_000, db, i as int),
                forall|k: int| 0 <= k < i ==> band@[k] == wave_band_entry(args@, k),
            decreases 15 - i,
        {
            proof {
                lemma_div_trunc_range(args@[3] * 1_000_000 - args@[0] * 1_000_000, 15);
                lemma_div_trunc_range(args@[4] * 1_000_000 - args@[1] * 1_000_000, 15);
                lemma_div_trunc_range(args@[5] * 1_000_000 - args@[2] * 1_000_000, 15);
                lemma_accum_bound(args@[0] * 1_000_000, dr, i as int);
                lemma_accum_bound(args@[1] * 1_000_000, dg, i as int);
                lemma_accum_bound(args@[2] * 1_000_000, db, i as int);
            }
            band.push(c1);
            c1 = c1.plus(delta);
            i = i + 1;
        }
        let mut j: usize = 0;
        while j < 15
            invariant
                args@.len() >= 7,
                j <= 15,
                band@.len() == 15 + j,
                dr == div_trunc(args@[3] * 1_000_000 - args@[0] * 1_000_000, 15),
                dg == div_trunc(args@[4] * 1_000_000 - args@[1] * 1_000_000, 15),
                db == div_trunc(args@[5] * 1_000_000 - args@[2] * 1_000_000, 15),
                delta.red == dr,
                delta.green == dg,
                delta.blue == db,
                c2.red == accum(args@[3] * 1_000_000, -dr, j as int),
                c2.green == accum(args@[4] * 1_000_000, -dg, j as int),
                c2.blue == accum(args@[5] * 1_000_000, -db, j as int),
                forall|k: int| 0 <= k < 15 + j ==> band@[k] == wave_band_entry(args@, k),
            decreases 15 - j,
        {
            proof {
                lemma_div_trunc_range(args@[3] * 1_000_000 - args@[0] * 1_000_000, 15);
                lemma_div_trunc_range(args@[4] * 1_000_000 - args@[1] * 1_000_000, 15);
                lemma_div_trunc_range(args@[5] * 1_000_000 - args@[2] * 1_000_000, 15);
                lemma_accum_bound(args@[3] * 1_000_000, -dr, j as int);
                lemma_accum_bound(args@[4] * 1_000_000, -dg, j as int);
                lemma_accum_bound(args@[5] * 1_000_000, -db, j as int);
            }
            band.push(c2);
            c2 = c2.minus(delta);
            j = j + 1;
        }
        let mut kept: Vec<u8> = Vec::new();
        let mut t: usize = 0;
        while t < 7
            invariant
                args@.len() >= 7,
                t <= 7,
                kept@.len() == t,
                forall|k: int| 0 <= k < t ==> kept@[k] == args@[k],
            decreases 7 - t,
        {
            kept.push(args[t]);
            t = t + 1;
        }
        proof {
            assert(kept@ =~= args@.subrange(0, 7));
            assert(band@ =~= spec_wave_gradient_new(args@)->WaveGradient_band);
            assert(kbd@.keys =~= spec_wave_gradient_new(args@).board().keys);
        }
        WaveGradient { kbd, args: kept, colour_band: band }
    }

    /// One tick: shows band entries 0 to 14 on columns 0 to 14 (clamped to
    /// colour bytes), then rotates the band right by one position.
    pub fn update(&mut self)
        requires
            old(self).wf(),
        ensures
            final(self).wf(),
            final(self)@.params() == old(self)@.params(),
            final(self).spec_band() == spec_band_rotated(old(self).spec_band()),
            final(self)@.board().brightness == old(self)@.board().brightness,
            final(self)@.board().keys == Seq::new(
                TOTAL_KEYS as nat,
                |k: int| old(self).spec_band()[k % 15].spec_clamped(),
            ),
    {
        let mut i: usize = 0;
        while i < KEYS_PER_ROW
            invariant
                old(self).wf(),
                self.wf(),
                i <= 15,
                self.args@ == old(self).args@,
                self.colour_band@ == old(self).colour_band@,
                self.kbd@.brightness == old(self).kbd@.brightness,
                forall|k: int|
                    0 <= k < TOTAL_KEYS ==> self.kbd@.keys[k] == if k % 15 < i {
                        old(self).colour_band@[k % 15].spec_clamped()
                    } else {
                        old(self).kbd@.keys[k]
                    },
            decreases 15 - i,
        {
            let c = self.colour_band[i].get_clamped_colour();
            self.kbd.set_col_colour(i, c.red, c.green, c.blue);
            i = i + 1;
        }
        let last = match self.colour_band.pop() {
            Some(c) => c,
            None => AnimatorKeyColour { red: 0, green: 0, blue: 0 },
        };
        self.colour_band.insert(0, last);
        proof {
            assert(self.colour_band@ =~= spec_band_rotated(old(self).colour_band@));
            assert(self.kbd@.keys =~= Seq::new(
                TOTAL_KEYS as nat,
                |k: int| old(self).spec_band()[k % 15].spec_clamped(),
            ));
        }
    }

    /// One band entry, for inspection: entry `i` of the 30-entry band.
    pub fn band_entry(&self, i: usize) -> (c: AnimatorKeyColour)
        requires
            self.wf(),
            i < 30,
        ensures
            c == self.spec_band()[i as int],
    {
        self.colour_band[i]
    }
}

// -- Breathing (one colour): fading in and out --

/// The all-zero animator colour (keyboard dark).
pub open spec fn spec_zero_colour() -> AnimatorKeyColour {
    AnimatorKeyColour { red: 0, green: 0, blue: 0 }
}

/// Componentwise sum of two animator colours.
pub open spec fn spec_colour_plus(a: AnimatorKeyColour, b: AnimatorKeyColour) -> AnimatorKeyColour {
    AnimatorKeyColour {
        red: (a.red + b.red) as i64,
        green: (a.green + b.green) as i64,
        blue: (a.blue + b.blue) as i64,
    }
}

/// Componentwise difference of two animator colours.
pub open spec fn spec_colour_minus(a: AnimatorKeyColour, b: AnimatorKeyColour) -> AnimatorKeyColour {
    AnimatorKeyColour {
        red: (a.red - b.red) as i64,
        green: (a.green - b.green) as i64,
        blue: (a.blue - b.blue) as i64,
    }
}

/// Componentwise minimum: caps `a` at `cap`.
pub open spec fn spec_colour_min(a: AnimatorKeyColour, cap: AnimatorKeyColour) -> AnimatorKeyColour {
    AnimatorKeyColour {
        red: if a.red <= cap.red { a.red } else { cap.red },
        green: if a.green <= cap.green { a.green } else { cap.green },
        blue: if a.blue <= cap.blue { a.blue } else { cap.blue },
    }
}

/// Componentwise maximum: raises `a` to at least `floor`.
pub open spec fn spec_colour_max(a: AnimatorKeyColour, floor: AnimatorKeyColour) -> AnimatorKeyColour {
    AnimatorKeyColour {
        red: if a.red >= floor.red { a.red } else { floor.red },
        green: if a.green >= floor.green { a.green } else { floor.green },
        blue: if a.blue >= floor.blue { a.blue } else { floor.blue },
    }
}

/// Milliseconds elapsed since `start`; a clock that moved backwards counts
/// as no time elapsed.
pub open spec fn spec_breath_elapsed(now: u64, start: u64) -> u64 {
    if now >= start {
        (now - start) as u64
    } else {
        0u64
    }
}

/// One tick of the four-state breathing cycle, as (colour, state, cycle
/// start time) after the tick:
///
/// - state 0 (off): colour black; advances to state 1 once the step
///   duration has elapsed.
/// - state 1 (rising): colour grows by the per-tick increment, capped
///   channelwise at the target; once every channel has reached the target it
///   snaps to the target exactly, enters state 2 and resets the timer.
/// - state 2 (on): colour is the target; advances to state 3 once the step
///   duration has elapsed.
/// - state 3 (falling): colour shrinks by the increment, floored channelwise
///   at black; once every channel has reached black it snaps to black,
///   re-enters state 0 and resets the timer.
///
/// A colour whose channels disagree in direction against the target is "not
/// yet there" and keeps its state.  Any other state is left untouched.
pub open spec fn spec_breath_transition(
    dur: u64,
    start: u64,
    step: u8,
    target: AnimatorKeyColour,
    current: AnimatorKeyColour,
    inc: AnimatorKeyColour,
    now: u64,
) -> (AnimatorKeyColour, u8, u64) {
    if step == 0 {
        if spec_breath_elapsed(now, start) >= dur {
            (spec_zero_colour(), 1u8, start)
        } else {
            (spec_zero_colour(), 0u8, start)
        }
    } else if step == 1 {
        let raw = spec_colour_plus(current, inc);
        if raw.spec_ge(target) {
            (target, 2u8, now)
        } else {
            (spec_colour_min(raw, target), 1u8, start)
        }
    } else if step == 2 {
        if spec_breath_elapsed(now, start) >= dur {
            (target, 3u8, start)
        } else {
            (target, 2u8, start)
        }
    } else if step == 3 {
        let raw = spec_colour_minus(current, inc);
        if raw.spec_le(spec_zero_colour()) {
            (spec_zero_colour(), 0u8, now)
        } else {
            (spec_colour_max(raw, spec_zero_colour()), 3u8, start)
        }
    } else {
        (current, step, start)
    }
}

/// The model a fresh `BreathSingle` effect starts in: board dark, state 0,
/// the cycle timer started at `now`.  The fourth parameter byte times 100 is
/// the step duration in milliseconds; the per-tick increment is the target
/// divided by the number of whole ticks in that duration (at least one).
pub open spec fn spec_breath_new(p: Seq<u8>, now: u64) -> EffectView
    recommends
        p.len() >= 4,
{
    let dur = p[3] * 100;
    let t = dur / 33;
    let ticks = if t == 0 {
        1
    } else {
        t
    };
    EffectView::BreathSingle {
        board: BoardView {
            keys: Seq::new(TOTAL_KEYS as nat, |i: int| KeyColour { red: 0, green: 0, blue: 0 }),
            brightness: 0,
        },
        params: p.subrange(0, 4),
        step_duration_ms: dur as u64,
        start_ms: now,
        step: 0,
        target: AnimatorKeyColour {
            red: (p[0] * 1_000_000) as i64,
            green: (p[1] * 1_000_000) as i64,
            blue: (p[2] * 1_000_000) as i64,
        },
        current: spec_zero_colour(),
        increment: AnimatorKeyColour {
            red: ((p[0] * 1_000_000) / ticks) as i64,
            green: ((p[1] * 1_000_000) / ticks) as i64,
            blue: ((p[2] * 1_000_000) / ticks) as i64,
        },
    }
}

/// One colour fading in and out on the whole board; a four-state cycle
/// machine timed in ticks and milliseconds.
pub struct BreathSingle {
    kbd: KeyboardData,
    args: Vec<u8>,
    step_duration_ms: u64,
    static_start_ms: u64,
    curr_step: u8,
    target_colour: AnimatorKeyColour,
    current_colour: AnimatorKeyColour,
    animator_step_colour: AnimatorKeyColour,
}

impl View for BreathSingle {
    type V = EffectView;

    closed spec fn view(&self) -> EffectView {
        EffectView::BreathSingle {
            board: self.kbd@,
            params: self.args@,
            step_duration_ms: self.step_duration_ms,
            start_ms: self.static_start_ms,
            step: self.curr_step,
            target: self.target_colour,
            current: self.current_colour,
            increment: self.animator_step_colour,
        }
    }
}

impl BreathSingle {
    /// Construction stores exactly the four parameter bytes; the cycle state
    /// and its colours stay within one byte's worth of fixed-point units.
    pub open spec fn wf(self) -> bool {
        &&& self@.board().keys.len() == TOTAL_KEYS
        &&& self@.params().len() == 4
        &&& self@->BreathSingle_step <= 3
        &&& self@->BreathSingle_target.in_colour_range()
        &&& self@->BreathSingle_current.in_colour_range()
        &&& self@->BreathSingle_increment.in_colour_range()
    }

    /// Builds the effect from its parameter bytes: red, green, blue, and the
    /// duration in 100 ms units.  `now_ms` starts the cycle timer.
    pub fn new(args: &Vec<u8>, now_ms: u64) -> (e: BreathSingle)
        requires
            args@.len() >= 4,
        ensures
            e.wf(),
            e@ == spec_breath_new(args@, now_ms),
    {
        let mut kbd = KeyboardData::new();
        kbd.set_kbd_colour(0, 0, 0);
        let dur: u64 = (args[3] as u64) * 100;
        let mut ticks: u64 = dur / 33;
        if ticks == 0 {
            ticks = 1;
        }
        let target = AnimatorKeyColour::from_rgb(args[0], args[1], args[2]);
        let increment = target.divide(ticks as i64);
        let mut kept: Vec<u8> = Vec::new();
        kept.push(args[0]);
        kept.push(args[1]);
        kept.push(args[2]);
        kept.push(args[3]);
        proof {
            assert(kept@ =~= args@.subrange(0, 4));
            assert(kbd@.keys =~= spec_breath_new(args@, now_ms).board().keys);
        }
        BreathSingle {
            kbd,
            args: kept,
            step_duration_ms: dur,
            static_start_ms: now_ms,
            curr_step: 0,
            target_colour: target,
            current_colour: AnimatorKeyColour { red: 0, green: 0, blue: 0 },
            animator_step_colour: increment,
        }
    }

    /// The state the cycle machine is in: 0 off, 1 rising, 2 on, 3 falling.
    pub fn current_step(&self) -> (s: u8)
        ensures
            s == self@->BreathSingle_step,
    {
        self.curr_step
    }

    /// One tick of the breathing cycle at wall-clock time `now_ms`: runs the
    /// four-state transition and paints the whole board with the clamped
    /// cycle colour.
    pub fn update(&mut self, now_ms: u64)
        requires
            old(self).wf(),
        ensures
            final(self).wf(),
            final(self)@ == old(self)@.stepped(now_ms),
    {
        match self.curr_step {
            0 => {
                self.current_colour = AnimatorKeyColour { red: 0, green: 0, blue: 0 };
                if elapsed_ms(now_ms, self.static_start_ms) >= self.step_duration_ms {
                    self.curr_step = 1;
                }
            },
            1 => {
                let raw = self.current_colour.plus(self.animator_step_colour);
                if raw.ge(self.target_colour) {
                    self.current_colour = self.target_colour;
                    self.curr_step = 2;
                    self.static_start_ms = now_ms;
                } else {
                    self.current_colour = raw.clamp_upper(self.target_colour);
                }
            },
            2 => {
                self.current_colour = self.target_colour;
                if elapsed_ms(now_ms, self.static_start_ms) >= self.step_duration_ms {
                    self.curr_step = 3;
                }
            },
            3 => {
                let raw = self.current_colour.minus(self.animator_step_colour);
                if raw.le(AnimatorKeyColour { red: 0, green: 0, blue: 0 }) {
                    self.current_colour = AnimatorKeyColour { red: 0, green: 0, blue: 0 };
                    self.curr_step = 0;
                    self.static_start_ms = now_ms;
                } else {
                    self.current_colour = raw.clamp_lower(
                        AnimatorKeyColour { red: 0, green: 0, blue: 0 },
                    );
                }
            },
            _ => {},
        }
        let col = self.current_colour.get_clamped_colour();
        self.kbd.set_kbd_colour(col.red, col.green, col.blue);
        proof {
            assert(self.kbd@.keys =~= old(self)@.stepped(now_ms).board().keys);
        }
    }
}

/// Law: in the off state the cycle shows black, keeps its timer, and
/// advances to the rising state exactly when the step duration has elapsed.
pub proof fn lemma_breath_off_phase(
    dur: u64,
    start: u64,
    target: AnimatorKeyColour,
    current: AnimatorKeyColour,
    inc: AnimatorKeyColour,
    now: u64,
)
    ensures
        ({
            let (c, s, st) = spec_breath_transition(dur, start, 0, target, current, inc, now);
            &&& c == spec_zero_colour()
            &&& st == start
            &&& (s == 1 <==> spec_breath_elapsed(now, start) >= dur)
            &&& (s == 0 || s == 1)
        }),
{
}

/// Law: the rising state never overshoots the target, and entering the on
/// state happens with the colour exactly at the target and the timer reset.
pub proof fn lemma_breath_rising_no_overshoot(
    dur: u64,
    start: u64,
    target: AnimatorKeyColour,
    current: AnimatorKeyColour,
    inc: AnimatorKeyColour,
    now: u64,
)
    ensures
        ({
            let (c, s, st) = spec_breath_transition(dur, start, 1, target, current, inc, now);
            &&& c.spec_le(target)
            &&& (s == 2 ==> c == target && st == now)
            &&& (s == 1 ==> st == start)
            &&& (s == 1 || s == 2)
        }),
{
}

/// Law: the falling state never drops below black, and re-entering the off
/// state happens with the colour exactly at black and the timer reset.
pub proof fn lemma_breath_falling_returns_black(
    dur: u64,
    start: u64,
    target: AnimatorKeyColour,
    current: AnimatorKeyColour,
    inc: AnimatorKeyColour,
    now: u64,
)
    ensures
        ({
            let (c, s, st) = spec_breath_transition(dur, start, 3, target, current, inc, now);
            &&& spec_zero_colour().spec_le(c)
            &&& (s == 0 ==> c == spec_zero_colour() && st == now)
            &&& (s == 3 ==> st == start)
            &&& (s == 0 || s == 3)
        }),
{
}

/// Elapsed milliseconds since `start`, saturating at zero.
fn elapsed_ms(now: u64, start: u64) -> (r: u64)
    ensures
        r == spec_breath_elapsed(now, start),
{
    if now >= start {
        now - start
    } else {
        0
    }
}

// -- The closed effect union --

/// A keyboard lighting effect: one of the four variants, dispatched by
/// exhaustive match so no variant can be forgotten.
pub enum Effect {
    Static(Static),
    StaticGradient(StaticGradient),
    WaveGradient(WaveGradient),
    BreathSingle(BreathSingle),
}

impl View for Effect {
    type V = EffectView;

    closed spec fn view(&self) -> EffectView {
        match self {
            Effect::Static(e) => e@,
            Effect::StaticGradient(e) => e@,
            Effect::WaveGradient(e) => e@,
            Effect::BreathSingle(e) => e@,
        }
    }
}

impl Effect {
    /// The variant's own well-formedness; the view always matches the
    /// executable variant.
    pub closed spec fn wf(self) -> bool {
        match self {
            Effect::Static(e) => e.wf() && self@ is Static,
            Effect::StaticGradient(e) => e.wf() && self@ is StaticGradient,
            Effect::WaveGradient(e) => e.wf() && self@ is WaveGradient,
            Effect::BreathSingle(e) => e.wf() && self@ is BreathSingle,
        }
    }

    /// Facts every well-formed effect's model satisfies, available without
    /// opening the variant.
    pub proof fn lemma_wf_model(self)
        requires
            self.wf(),
        ensures
            self@.board().keys.len() == TOTAL_KEYS,
            self@ is Static ==> self@.params().len() == 3,
            self@ is StaticGradient ==> self@.params().len() == 7,
            self@ is WaveGradient ==> self@.params().len() == 7,
            self@ is BreathSingle ==> self@.params().len() == 4,
    {
    }

    /// One animation tick at wall-clock time `now_ms`.
    pub fn update(&mut self, now_ms: u64)
        requires
            old(self).wf(),
        ensures
            final(self).wf(),
            final(self)@ == old(self)@.stepped(now_ms),
    {
        match self {
            Effect::Static(e) => e.update(),
            Effect::StaticGradient(e) => e.update(),
            Effect::WaveGradient(e) => e.update(),
            Effect::BreathSingle(e) => e.update(now_ms),
        }
    }

    /// The colour the effect currently shows at flat key index `index`.
    pub fn key_at(&self, index: usize) -> (k: KeyColour)
        requires
            self.wf(),
            index < TOTAL_KEYS,
        ensures
            k == self@.board().keys[index as int],
    {
        match self {
            Effect::Static(e) => e.kbd.get_key_at(index),
            Effect::StaticGradient(e) => e.kbd.get_key_at(index),
            Effect::WaveGradient(e) => e.kbd.get_key_at(index),
            Effect::BreathSingle(e) => e.kbd.get_key_at(index),
        }
    }

    /// The parameter bytes the effect was constructed from, for saving and
    /// replaying it.
    pub fn get_varargs(&self) -> (r: Vec<u8>)
        ensures
            r@ == self@.params(),
    {
        match self {
            Effect::Static(e) => copy_bytes(&e.args),
            Effect::StaticGradient(e) => copy_bytes(&e.args),
            Effect::WaveGradient(e) => copy_bytes(&e.args),
            Effect::BreathSingle(e) => copy_bytes(&e.args),
        }
    }

    /// The flat colour bytes of the board the effect currently shows.
    pub fn get_state(&self) -> (r: Vec<u8>)
        requires
            self.wf(),
        ensures
            r@ == crate::board::spec_colour_bytes(self@.board().keys),
    {
        match self {
            Effect::Static(e) => e.kbd.update_kbd(),
            Effect::StaticGradient(e) => e.kbd.update_kbd(),
            Effect::WaveGradient(e) => e.kbd.update_kbd(),
            Effect::BreathSingle(e) => e.kbd.update_kbd(),
        }
    }

    /// The effect's unique display name.
    pub fn get_name(&self) -> (r: String)
        ensures
            r@ == self@.name(),
    {
        match self {
            Effect::Static(_) => "Static".to_owned(),
            Effect::StaticGradient(_) => "Static Gradient".to_owned(),
            Effect::WaveGradient(_) => "Wave Gradient".to_owned(),
            Effect::BreathSingle(_) => "Breathing Single".to_owned(),
        }
    }
}

/// Byte-for-byte copy of a parameter vector.
fn copy_bytes(v: &Vec<u8>) -> (r: Vec<u8>)
    ensures
        r@ == v@,
{
    let mut r: Vec<u8> = Vec::new();
    let mut i: usize = 0;
    while i < v.len()
        invariant
            i <= v@.len(),
            r@.len() == i,
            forall|j: int| 0 <= j < i ==> r@[j] == v@[j],
        decreases v@.len() - i,
    {
        r.push(v[i]);
        i = i + 1;
    }
    proof {
        assert(r@ =~= v@);
    }
    r
}

// -- Building effects from a name and parameter bytes --

/// Which effect a `SetEffect` request name builds: the four request names,
/// each with its least parameter count; any other name, or too few
/// parameters, builds nothing.
pub open spec fn spec_effect_from_request_name(name: Seq<char>, p: Seq<u8>, now: u64) -> Option<
    EffectView,
> {
    if name == "static"@ {
        if p.len() >= 3 {
            Some(spec_static_new(p))
        } else {
            None
        }
    } else if name == "static_gradient"@ {
        if p.len() >= 7 {
            Some(spec_static_gradient_new(p))
        } else {
            None
        }
    } else if name == "wave_gradient"@ {
        if p.len() >= 7 {
            Some(spec_wave_gradient_new(p))
        } else {
            None
        }
    } else if name == "breathing_single"@ {
        if p.len() >= 4 {
            Some(spec_breath_new(p, now))
        } else {
            None
        }
    } else {
        None
    }
}

/// Builds the effect a `SetEffect` request asks for.  Unknown names and too
/// few parameter bytes yield `None`; the daemon answers those with a failure
/// response instead of crashing.
pub fn effect_from_request_name(name: &String, params: &Vec<u8>, now_ms: u64) -> (r: Option<
    Effect,
>)
    ensures
        match r {
            Some(e) => e.wf() && spec_effect_from_request_name(name@, params@, now_ms) == Some(
                e@,
            ),
            None => spec_effect_from_request_name(name@, params@, now_ms) is None,
        },
{
    if *name == "static".to_owned() {
        if params.len() >= 3 {
            Some(Effect::Static(Static::new(params)))
        } else {
            None
        }
    } else if *name == "static_gradient".to_owned() {
        if params.len() >= 7 {
            Some(Effect::StaticGradient(StaticGradient::new(params)))
        } else {
            None
        }
    } else if *name == "wave_gradient".to_owned() {
        if params.len() >= 7 {
            Some(Effect::WaveGradient(WaveGradient::new(params)))
        } else {
            None
        }
    } else if *name == "breathing_single".to_owned() {
        if params.len() >= 4 {
            Some(Effect::BreathSingle(BreathSingle::new(params, now_ms)))
        } else {
            None
        }
    } else {
        None
    }
}

/// Which effect a saved record's display name rebuilds, from its name and
/// parameter bytes; unknown names rebuild nothing and the record is skipped.
pub open spec fn spec_effect_from_save_name(name: Seq<char>, p: Seq<u8>, now: u64) -> Option<
    EffectView,
> {
    if name == "Static"@ {
        if p.len() >= 3 {
            Some(spec_static_new(p))
        } else {
            None
        }
    } else if name == "Static Gradient"@ {
        if p.len() >= 7 {
            Some(spec_static_gradient_new(p))
        } else {
            None
        }
    } else if name == "Wave Gradient"@ {
        if p.len() >= 7 {
            Some(spec_wave_gradient_new(p))
        } else {
            None
        }
    } else if name == "Breathing Single"@ {
        if p.len() >= 4 {
            Some(spec_breath_new(p, now))
        } else {
            None
        }
    } else {
        None
    }
}

/// Rebuilds an effect from a saved record's display name and parameters.
pub fn effect_from_save_name(name: &String, params: &Vec<u8>, now_ms: u64) -> (r: Option<Effect>)
    ensures
        match r {
            Some(e) => e.wf() && spec_effect_from_save_name(name@, params@, now_ms) == Some(e@),
            None => spec_effect_from_save_name(name@, params@, now_ms) is None,
        },
{
    if *name == "Static".to_owned() {
        if params.len() >= 3 {
            Some(Effect::Static(Static::new(params)))
        } else {
            None
        }
    } else if *name == "Static Gradient".to_owned() {
        if params.len() >= 7 {
            Some(Effect::StaticGradient(StaticGradient::new(params)))
        } else {
            None
        }
    } else if *name == "Wave Gradient".to_owned() {
        if params.len() >= 7 {
            Some(Effect::WaveGradient(WaveGradient::new(params)))
        } else {
            None
        }
    } else if *name == "Breathing Single".to_owned() {
        if params.len() >= 4 {
            Some(Effect::BreathSingle(BreathSingle::new(params, now_ms)))
        } else {
            None
        }
    } else {
        None
    }
}

} // verus!
