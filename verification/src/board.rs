//! Board model: a fixed 6 x 15 grid of RGB key colours plus a global
//! brightness byte, together with the sub-integer colour type used by the
//! animated effects.
//!
//! Animated effects need finer than one-byte steps per tick, so
//! [`AnimatorKeyColour`] stores each channel as a fixed-point value scaled by
//! [`FIX_ONE`]: the byte value 255 is stored as `255 * FIX_ONE`.  Converting
//! back to a [`KeyColour`] clamps each channel into the byte range and drops
//! the fractional part.

use vstd::prelude::*;

verus! {

/// Number of key columns on the keyboard.
pub const KEYS_PER_ROW: usize = 15;

/// Number of key rows on the keyboard.
pub const ROWS: usize = 6;

/// Total number of keys (rows times columns).
pub const TOTAL_KEYS: usize = 90;

/// Fixed-point scale: one colour-byte unit of an animator channel.
pub const FIX_ONE: i64 = 1_000_000;

/// A full channel (byte value 255) in fixed-point units.
pub const CHANNEL_FULL: i64 = 255 * FIX_ONE;

/// Generous bound on animator channels; every operation in this crate keeps
/// channels far below it, and staying within it rules out `i64` overflow.
pub const CHANNEL_BOUND: i64 = 32 * 255 * FIX_ONE;

// -- RGB key channel --

/// The colour channels for one key.
#[derive(Clone, Copy, PartialEq, Eq, Structural, Debug)]
pub struct KeyColour {
    /// Red channel
    pub red: u8,
    /// Green channel
    pub green: u8,
    /// Blue channel
    pub blue: u8,
}

/// Truncating division of a fixed-point channel: rounds toward zero, as the
/// hardware-independent animation math requires for both signs.
pub open spec fn div_trunc(a: int, d: int) -> int
    recommends
        d > 0,
{
    if a >= 0 {
        a / d
    } else {
        -((-a) / d)
    }
}

/// What a fixed-point channel becomes as a colour byte: clamped to the byte
/// range, then truncated to whole units.
pub open spec fn clamp_channel(v: int) -> u8 {
    if v >= 255_000_000 {
        255u8
    } else if v <= 0 {
        0u8
    } else {
        (v / 1_000_000) as u8
    }
}

/// Same as `KeyColour`, but with fixed-point channels, for accurate frame by
/// frame colour blending in animations.
#[derive(Clone, Copy, PartialEq, Eq, Structural, Debug)]
pub struct AnimatorKeyColour {
    pub red: i64,
    pub green: i64,
    pub blue: i64,
}

impl AnimatorKeyColour {
    /// All channels within the generous overflow-free bound.
    pub open spec fn bounded(self) -> bool {
        &&& -CHANNEL_BOUND <= self.red <= CHANNEL_BOUND
        &&& -CHANNEL_BOUND <= self.green <= CHANNEL_BOUND
        &&& -CHANNEL_BOUND <= self.blue <= CHANNEL_BOUND
    }

    /// All channels within one byte's worth of fixed-point units.
    pub open spec fn in_colour_range(self) -> bool {
        &&& 0 <= self.red <= CHANNEL_FULL
        &&& 0 <= self.green <= CHANNEL_FULL
        &&& 0 <= self.blue <= CHANNEL_FULL
    }

    /// Componentwise `>=`: true only when every channel has reached the other
    /// colour's channel.
    pub open spec fn spec_ge(self, other: AnimatorKeyColour) -> bool {
        &&& self.red >= other.red
        &&& self.green >= other.green
        &&& self.blue >= other.blue
    }

    /// Componentwise `<=`.
    pub open spec fn spec_le(self, other: AnimatorKeyColour) -> bool {
        &&& self.red <= other.red
        &&& self.green <= other.green
        &&& self.blue <= other.blue
    }

    /// The colour byte triple this animator colour shows on the board.
    pub open spec fn spec_clamped(self) -> KeyColour {
        KeyColour {
            red: clamp_channel(self.red as int),
            green: clamp_channel(self.green as int),
            blue: clamp_channel(self.blue as int),
        }
    }

    /// Builds an animator colour from colour bytes.
    pub fn from_rgb(r: u8, g: u8, b: u8) -> (c: AnimatorKeyColour)
        ensures
            c.red == r * 1_000_000,
            c.green == g * 1_000_000,
            c.blue == b * 1_000_000,
            c.in_colour_range(),
    {
        AnimatorKeyColour {
            red: r as i64 * FIX_ONE,
            green: g as i64 * FIX_ONE,
            blue: b as i64 * FIX_ONE,
        }
    }

    /// Componentwise sum.
    pub fn plus(self, rhs: AnimatorKeyColour) -> (r: AnimatorKeyColour)
        requires
            self.bounded(),
            rhs.bounded(),
        ensures
            r.red == self.red + rhs.red,
            r.green == self.green + rhs.green,
            r.blue == self.blue + rhs.blue,
    {
        AnimatorKeyColour {
            red: self.red + rhs.red,
            green: self.green + rhs.green,
            blue: self.blue + rhs.blue,
        }
    }

    /// Componentwise difference.
    pub fn minus(self, rhs: AnimatorKeyColour) -> (r: AnimatorKeyColour)
        requires
            self.bounded(),
            rhs.bounded(),
        ensures
            r.red == self.red - rhs.red,
            r.green == self.green - rhs.green,
            r.blue == self.blue - rhs.blue,
    {
        AnimatorKeyColour {
            red: self.red - rhs.red,
            green: self.green - rhs.green,
            blue: self.blue - rhs.blue,
        }
    }

    /// Componentwise division, truncating toward zero.
    pub fn divide(self, divisor: i64) -> (r: AnimatorKeyColour)
        requires
            divisor > 0,
            self.bounded(),
        ensures
            r.red == div_trunc(self.red as int, divisor as int),
            r.green == div_trunc(self.green as int, divisor as int),
            r.blue == div_trunc(self.blue as int, divisor as int),
    {
        AnimatorKeyColour {
            red: div_channel(self.red, divisor),
            green: div_channel(self.green, divisor),
            blue: div_channel(self.blue, divisor),
        }
    }

    /// Componentwise `>=` against another colour.
    pub fn ge(self, other: AnimatorKeyColour) -> (r: bool)
        ensures
            r == self.spec_ge(other),
    {
        self.red >= other.red && self.green >= other.green && self.blue >= other.blue
    }

    /// Componentwise `<=` against another colour.
    pub fn le(self, other: AnimatorKeyColour) -> (r: bool)
        ensures
            r == self.spec_le(other),
    {
        self.red <= other.red && self.green <= other.green && self.blue <= other.blue
    }

    /// Caps each channel at the corresponding channel of `cap`.
    pub fn clamp_upper(self, cap: AnimatorKeyColour) -> (r: AnimatorKeyColour)
        ensures
            r.red == if self.red <= cap.red { self.red } else { cap.red },
            r.green == if self.green <= cap.green { self.green } else { cap.green },
            r.blue == if self.blue <= cap.blue { self.blue } else { cap.blue },
    {
        AnimatorKeyColour {
            red: if self.red <= cap.red { self.red } else { cap.red },
            green: if self.green <= cap.green { self.green } else { cap.green },
            blue: if self.blue <= cap.blue { self.blue } else { cap.blue },
        }
    }

    /// Raises each channel to at least the corresponding channel of `floor`.
    pub fn clamp_lower(self, floor: AnimatorKeyColour) -> (r: AnimatorKeyColour)
        ensures
            r.red == if self.red >= floor.red { self.red } else { floor.red },
            r.green == if self.green >= floor.green { self.green } else { floor.green },
            r.blue == if self.blue >= floor.blue { self.blue } else { floor.blue },
    {
        AnimatorKeyColour {
            red: if self.red >= floor.red { self.red } else { floor.red },
            green: if self.green >= floor.green { self.green } else { floor.green },
            blue: if self.blue >= floor.blue { self.blue } else { floor.blue },
        }
    }

    /// Clamps each channel into the byte range and truncates to a `KeyColour`.
    pub fn get_clamped_colour(&self) -> (k: KeyColour)
        ensures
            k == self.spec_clamped(),
    {
        KeyColour {
            red: clamp_channel_exec(self.red),
            green: clamp_channel_exec(self.green),
            blue: clamp_channel_exec(self.blue),
        }
    }
}

/// Truncating division on one channel; division itself runs on the
/// non-negative magnitude.
fn div_channel(a: i64, d: i64) -> (r: i64)
    requires
        d > 0,
        -CHANNEL_BOUND <= a <= CHANNEL_BOUND,
    ensures
        r == div_trunc(a as int, d as int),
{
    if a >= 0 {
        ((a as u64) / (d as u64)) as i64
    } else {
        let m = ((-a) as u64) / (d as u64);
        -(m as i64)
    }
}

/// Clamps one fixed-point channel to a colour byte.
fn clamp_channel_exec(v: i64) -> (r: u8)
    ensures
        r == clamp_channel(v as int),
{
    if v >= CHANNEL_FULL {
        255
    } else if v <= 0 {
        0
    } else {
        ((v as u64) / (FIX_ONE as u64)) as u8
    }
}

/// Colour bytes of a key sequence in row-major, RGB-channel order: three
/// bytes per key, the flat format the device interface takes.
pub open spec fn spec_colour_bytes(keys: Seq<KeyColour>) -> Seq<u8> {
    Seq::new(
        keys.len() * 3,
        |i: int|
            {
                let k = keys[i / 3];
                if i % 3 == 0 {
                    k.red
                } else if i % 3 == 1 {
                    k.green
                } else {
                    k.blue
                }
            },
    )
}

/// Appends the three channel bytes of each key of `keys` to `out`.
fn push_colour_bytes(out: &mut Vec<u8>, keys: &Vec<KeyColour>)
    ensures
        final(out)@ == old(out)@ + spec_colour_bytes(keys@),
{
    let ghost prefix = out@;
    let mut i: usize = 0;
    while i < keys.len()
        invariant
            i <= keys@.len(),
            out@.len() == prefix.len() + 3 * i,
            forall|j: int| 0 <= j < prefix.len() ==> out@[j] == prefix[j],
            forall|j: int|
                prefix.len() <= j < out@.len() ==> out@[j] == spec_colour_bytes(keys@)[j - prefix.len()],
        decreases keys@.len() - i,
    {
        let k = keys[i];
        out.push(k.red);
        out.push(k.green);
        out.push(k.blue);
        i = i + 1;
    }
    proof {
        assert(out@ =~= prefix + spec_colour_bytes(keys@));
    }
}

// -- Rows and the whole board --

/// A horizontal row of 15 keys on the keyboard.
#[derive(Debug)]
pub struct RowData {
    keys: Vec<KeyColour>,
}

impl View for RowData {
    type V = Seq<KeyColour>;

    closed spec fn view(&self) -> Seq<KeyColour> {
        self.keys@
    }
}

impl RowData {
    /// A row holds exactly one colour per key column.
    pub open spec fn wf(self) -> bool {
        self@.len() == KEYS_PER_ROW
    }

    /// Generates a fresh keyboard row, with each key being white (FF,FF,FF).
    pub fn new() -> (row: RowData)
        ensures
            row.wf(),
            forall|i: int|
                0 <= i < KEYS_PER_ROW ==> row@[i] == (KeyColour { red: 255, green: 255, blue: 255 }),
    {
        let mut keys: Vec<KeyColour> = Vec::new();
        let mut i: usize = 0;
        while i < KEYS_PER_ROW
            invariant
                i <= 15,
                keys@.len() == i,
                forall|j: int|
                    0 <= j < i ==> keys@[j] == (KeyColour { red: 255, green: 255, blue: 255 }),
            decreases 15 - i,
        {
            keys.push(KeyColour { red: 255, green: 255, blue: 255 });
            i = i + 1;
        }
        RowData { keys }
    }

    /// Sets one key colour within the row.
    ///
    /// `pos` counts key columns from the left side of the keyboard.
    pub fn set_key_color(&mut self, pos: usize, r: u8, g: u8, b: u8)
        requires
            old(self).wf(),
            pos < KEYS_PER_ROW,
        ensures
            final(self).wf(),
            final(self)@ == old(self)@.update(pos as int, KeyColour { red: r, green: g, blue: b }),
    {
        self.keys.set(pos, KeyColour { red: r, green: g, blue: b });
    }

    /// Sets the entire key row to one colour.
    pub fn set_row_color(&mut self, r: u8, g: u8, b: u8)
        requires
            old(self).wf(),
        ensures
            final(self).wf(),
            forall|i: int|
                0 <= i < KEYS_PER_ROW ==> final(self)@[i] == (KeyColour { red: r, green: g, blue: b }),
    {
        let mut i: usize = 0;
        while i < KEYS_PER_ROW
            invariant
                old(self).wf(),
                self.wf(),
                i <= 15,
                forall|j: int| 0 <= j < i ==> self@[j] == (KeyColour { red: r, green: g, blue: b }),
            decreases 15 - i,
        {
            self.set_key_color(i, r, g, b);
            i = i + 1;
        }
    }

    /// The row's colour bytes: three bytes per key, RGB order.
    pub fn get_row_data(&self) -> (out: Vec<u8>)
        ensures
            out@ == spec_colour_bytes(self@),
    {
        let mut out: Vec<u8> = Vec::new();
        push_colour_bytes(&mut out, &self.keys);
        proof {
            assert(out@ =~= spec_colour_bytes(self@));
        }
        out
    }
}

/// The whole board: all key colours plus the global brightness byte.
///
/// The view presents the grid as one flat sequence of 90 colours in row-major
/// order; position (row, col) stands at index `row * 15 + col`.
pub ghost struct BoardView {
    pub keys: Seq<KeyColour>,
    pub brightness: u8,
}

/// The board model written to the keyboard every tick.
#[derive(Debug)]
pub struct KeyboardData {
    keys: Vec<KeyColour>,
    brightness: u8,
}

impl View for KeyboardData {
    type V = BoardView;

    closed spec fn view(&self) -> BoardView {
        BoardView { keys: self.keys@, brightness: self.brightness }
    }
}

impl KeyboardData {
    /// The board holds exactly one colour per key.
    pub open spec fn wf(self) -> bool {
        self@.keys.len() == TOTAL_KEYS
    }

    /// A fresh board: every key white (FF,FF,FF), brightness zero.
    pub fn new() -> (kbd: KeyboardData)
        ensures
            kbd.wf(),
            kbd@.brightness == 0,
            forall|i: int|
                0 <= i < TOTAL_KEYS ==> kbd@.keys[i] == (KeyColour { red: 255, green: 255, blue: 255 }),
    {
        let mut keys: Vec<KeyColour> = Vec::new();
        let mut i: usize = 0;
        while i < TOTAL_KEYS
            invariant
                i <= 90,
                keys@.len() == i,
                forall|j: int|
                    0 <= j < i ==> keys@[j] == (KeyColour { red: 255, green: 255, blue: 255 }),
            decreases 90 - i,
        {
            keys.push(KeyColour { red: 255, green: 255, blue: 255 });
            i = i + 1;
        }
        KeyboardData { keys, brightness: 0 }
    }

    /// Records the global brightness byte in the board model.  The caller is
    /// responsible for pushing it to the device interface.
    pub fn set_brightness(&mut self, val: u8)
        ensures
            final(self)@.brightness == val,
            final(self)@.keys == old(self)@.keys,
    {
        self.brightness = val;
    }

    /// The global brightness byte last recorded in the board model.
    pub fn get_brightness(&self) -> (val: u8)
        ensures
            val == self@.brightness,
    {
        self.brightness
    }

    /// The flat device payload for the whole board: 270 bytes, row-major,
    /// RGB-channel order.  The caller writes them through the device
    /// interface.
    pub fn update_kbd(&self) -> (out: Vec<u8>)
        requires
            self.wf(),
        ensures
            out@ == spec_colour_bytes(self@.keys),
            out@.len() == 270,
    {
        let mut out: Vec<u8> = Vec::new();
        push_colour_bytes(&mut out, &self.keys);
        proof {
            assert(out@ =~= spec_colour_bytes(self@.keys));
        }
        out
    }

    /// Sets a specific key in the keyboard matrix to a colour.  Out-of-range
    /// positions leave the board untouched.
    pub fn set_key_colour(&mut self, row: usize, col: usize, r: u8, g: u8, b: u8)
        requires
            old(self).wf(),
        ensures
            final(self).wf(),
            final(self)@.brightness == old(self)@.brightness,
            row < ROWS && col < KEYS_PER_ROW ==> final(self)@.keys == old(self)@.keys.update(
                row * 15 + col,
                KeyColour { red: r, green: g, blue: b },
            ),
            !(row < ROWS && col < KEYS_PER_ROW) ==> *final(self) == *old(self),
    {
        if row >= ROWS {
            return ;
        }
        if col >= KEYS_PER_ROW {
            return ;
        }
        self.keys.set(row * 15 + col, KeyColour { red: r, green: g, blue: b });
    }

    /// Sets a horizontal row on the keyboard to a colour.  An out-of-range
    /// row leaves the board untouched.
    pub fn set_row_colour(&mut self, row: usize, r: u8, g: u8, b: u8)
        requires
            old(self).wf(),
        ensures
            final(self).wf(),
            final(self)@.brightness == old(self)@.brightness,
            row < ROWS ==> forall|i: int|
                0 <= i < TOTAL_KEYS ==> final(self)@.keys[i] == if row * 15 <= i < row * 15 + 15 {
                    KeyColour { red: r, green: g, blue: b }
                } else {
                    old(self)@.keys[i]
                },
            row >= ROWS ==> *final(self) == *old(self),
    {
        if row >= ROWS {
            return ;
        }
        let mut col: usize = 0;
        while col < KEYS_PER_ROW
            invariant
                old(self).wf(),
                self.wf(),
                row < 6,
                col <= 15,
                self@.brightness == old(self)@.brightness,
                forall|i: int|
                    0 <= i < TOTAL_KEYS ==> self@.keys[i] == if row * 15 <= i < row * 15 + col {
                        KeyColour { red: r, green: g, blue: b }
                    } else {
                        old(self)@.keys[i]
                    },
            decreases 15 - col,
        {
            self.keys.set(row * 15 + col, KeyColour { red: r, green: g, blue: b });
            col = col + 1;
        }
    }

    /// Sets a vertical column on the keyboard to a colour.  An out-of-range
    /// column leaves the board untouched.
    pub fn set_col_colour(&mut self, col: usize, r: u8, g: u8, b: u8)
        requires
            old(self).wf(),
        ensures
            final(self).wf(),
            final(self)@.brightness == old(self)@.brightness,
            col < KEYS_PER_ROW ==> forall|i: int|
                0 <= i < TOTAL_KEYS ==> final(self)@.keys[i] == if i % 15 == col {
                    KeyColour { red: r, green: g, blue: b }
                } else {
                    old(self)@.keys[i]
                },
            col >= KEYS_PER_ROW ==> *final(self) == *old(self),
    {
        if col >= KEYS_PER_ROW {
            return ;
        }
        let mut row: usize = 0;
        while row < ROWS
            invariant
                old(self).wf(),
                self.wf(),
                col < 15,
                row <= 6,
                self@.brightness == old(self)@.brightness,
                forall|i: int|
                    0 <= i < TOTAL_KEYS ==> self@.keys[i] == if i % 15 == col && i / 15 < row {
                        KeyColour { red: r, green: g, blue: b }
                    } else {
                        old(self)@.keys[i]
                    },
            decreases 6 - row,
        {
            self.keys.set(row * 15 + col, KeyColour { red: r, green: g, blue: b });
            row = row + 1;
        }
    }

    /// Sets the entire keyboard to a colour.
    pub fn set_kbd_colour(&mut self, r: u8, g: u8, b: u8)
        requires
            old(self).wf(),
        ensures
            final(self).wf(),
            final(self)@.brightness == old(self)@.brightness,
            forall|i: int|
                0 <= i < TOTAL_KEYS ==> final(self)@.keys[i] == (KeyColour { red: r, green: g, blue: b }),
    {
        let mut i: usize = 0;
        while i < TOTAL_KEYS
            invariant
                old(self).wf(),
                self.wf(),
                i <= 90,
                self@.brightness == old(self)@.brightness,
                forall|j: int|
                    0 <= j < i ==> self@.keys[j] == (KeyColour { red: r, green: g, blue: b }),
                forall|j: int| i <= j < TOTAL_KEYS ==> self@.keys[j] == old(self)@.keys[j],
            decreases 90 - i,
        {
            self.keys.set(i, KeyColour { red: r, green: g, blue: b });
            i = i + 1;
        }
    }

    /// Returns the key colour at a flat row-major index.
    pub fn get_key_at(&self, index: usize) -> (k: KeyColour)
        requires
            self.wf(),
            index < TOTAL_KEYS,
        ensures
            k == self@.keys[index as int],
    {
        self.keys[index]
    }

    /// Overwrites the key colour at a flat row-major index; used when
    /// combining effect layers.  An out-of-range index leaves the board
    /// untouched.
    pub fn set_key_at(&mut self, index: usize, col: KeyColour)
        requires
            old(self).wf(),
        ensures
            final(self).wf(),
            final(self)@.brightness == old(self)@.brightness,
            index < TOTAL_KEYS ==> final(self)@.keys == old(self)@.keys.update(index as int, col),
            index >= TOTAL_KEYS ==> *final(self) == *old(self),
    {
        if index >= TOTAL_KEYS {
            return ;
        }
        self.keys.set(index, col);
    }
}

} // verus!
