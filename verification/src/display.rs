//! The clock face: up to three driver chips, two digit tiles on each, and
//! the tables that say which LEDs make up a segment and which segments make
//! up a symbol.

use vstd::prelude::*;
use vstd::slice::slice_subrange;
use crate::bits::{bit_of, mask_bit};
use crate::driver::addresses::COLOR_OFFSET;
use crate::driver::{
    IS31FL3731,
    LED_COUNT,
    enable_leds_writes,
    extend,
    payloads,
    set_color_byte_writes,
    setup_writes,
};

verus! {

/// Number of segments of a digit tile.
pub const SEGMENT_COUNT: usize = 44;

/// Number of driver chips the clock face has room for.
pub const DRIVER_COUNT: usize = 3;

/// Number of tiles that show a symbol.
pub const SYMBOL_TILES: u8 = 4;

/// Number of tiles that the drivers can address.
pub const TILES: u8 = 6;

/// The LEDs of a second tile on a chip lie this far after those of the
/// first.
pub const TILE_STRIDE: u8 = 8;

/// The LEDs of each segment on the first tile of a chip. A row holds
/// as many LEDs as [`SEGMENT_SIZES`] says; the rest of it is padding.
pub const SEGMENT_LEDS: [[u8; 3]; 44] = [
    [1, 2, 18],
    [3, 19, 0],
    [4, 20, 0],
    [5, 6, 21],
    [0, 0, 0],
    [17, 34, 0],
    [35, 0, 0],
    [36, 0, 0],
    [22, 37, 0],
    [7, 0, 0],
    [16, 0, 0],
    [33, 50, 0],
    [51, 0, 0],
    [52, 0, 0],
    [38, 53, 0],
    [23, 0, 0],
    [49, 0, 0],
    [67, 0, 0],
    [68, 0, 0],
    [54, 0, 0],
    [32, 48, 0],
    [65, 66, 82],
    [69, 70, 85],
    [39, 55, 0],
    [81, 0, 0],
    [83, 0, 0],
    [84, 0, 0],
    [86, 0, 0],
    [64, 0, 0],
    [97, 98, 0],
    [99, 0, 0],
    [100, 0, 0],
    [101, 102, 0],
    [71, 0, 0],
    [80, 0, 0],
    [113, 114, 0],
    [115, 0, 0],
    [116, 0, 0],
    [117, 118, 0],
    [87, 0, 0],
    [96, 129, 130],
    [112, 131, 0],
    [119, 132, 0],
    [103, 133, 134],
];

/// How many LEDs each segment has.
pub const SEGMENT_SIZES: [usize; 44] = [
    3, 2, 2, 3, 1, 2, 1, 1, 2, 1,
    1, 2, 1, 1, 2, 1, 1, 1, 1, 1,
    2, 3, 3, 2, 1, 1, 1, 1, 1, 2,
    1, 1, 2, 1, 1, 2, 1, 1, 2, 1,
    3, 2, 2, 3,
];

/// The segments of the digits 0 to 9, one bit per segment, least
/// significant bit of the first byte first.
pub const DIGIT_MASKS: [[u8; 6]; 10] = [
    [0x2f, 0x49, 0x69, 0x29, 0x49, 0x0f],
    [0xc7, 0x30, 0x06, 0xc6, 0x30, 0x06],
    [0x0f, 0x41, 0x6e, 0x27, 0x08, 0x0f],
    [0x0f, 0x41, 0x6e, 0x0e, 0x41, 0x0f],
    [0x29, 0x49, 0x6f, 0x0e, 0x41, 0x08],
    [0x2f, 0x08, 0x67, 0x0e, 0x41, 0x0f],
    [0x2f, 0x08, 0x67, 0x2f, 0x49, 0x0f],
    [0x0f, 0x41, 0x4c, 0xc6, 0x30, 0x06],
    [0x2f, 0x49, 0x6f, 0x2f, 0x49, 0x0f],
    [0x2f, 0x49, 0x6f, 0x0e, 0x41, 0x0f],
];

/// The segments of the letters C and H.
pub const CH_MASKS: [[u8; 6]; 2] = [
    [0x2f, 0x09, 0x21, 0x21, 0x48, 0x0f],
    [0x29, 0x49, 0x6f, 0x2f, 0x49, 0x09],
];

/// The LEDs that no tile uses; they stay switched off.
pub const UNUSED_LEDS: [u8; 4] = [128, 135, 136, 143];

/// Intensity of the LED that the LED test has lit.
pub const LED_TEST_COLOR: u8 = 0x36;

/// Period of the LED test, in milliseconds.
pub const LED_TEST_PERIOD_MS: u64 = 200;

/// The LEDs of one segment.
pub struct Segment {
    pub leds: &'static [u8],
}

/// The segments of one symbol.
pub struct Symbol {
    mask: [u8; 6],
}

/// The writes for one driver chip.
pub struct Batch {
    /// Which of the clock face's drivers the writes go to.
    pub driver: usize,
    /// The writes, in order.
    pub writes: Vec<Vec<u8>>,
}

/// The clock face.
pub struct ClockDisplay<I2C> {
    pub drivers: [Option<IS31FL3731<I2C>>; 3],
}

/// The LEDs of segment `segment_id` on the first tile of a chip.
pub open spec fn segment_leds(segment_id: int) -> Seq<u8> {
    SEGMENT_LEDS[segment_id]@.take(SEGMENT_SIZES[segment_id] as int)
}

impl Segment {
    /// Looks up a segment.
    pub fn get(segment_id: usize) -> (segment: Segment)
        requires
            segment_id < SEGMENT_COUNT,
        ensures
            segment.leds@ == segment_leds(segment_id as int),
    {
        let table: &'static [[u8; 3]; 44] = &SEGMENT_LEDS;
        let row: &'static [u8; 3] = &table[segment_id];
        Segment { leds: slice_subrange(row.as_slice(), 0, SEGMENT_SIZES[segment_id]) }
    }
}

impl View for Symbol {
    type V = Seq<u8>;

    /// The six bytes of the mask.
    closed spec fn view(&self) -> Seq<u8> {
        self.mask@
    }
}

impl Symbol {
    /// The digit `symbol_id`.
    pub fn digit(symbol_id: usize) -> (symbol: Symbol)
        requires
            symbol_id < 10,
        ensures
            symbol@ == DIGIT_MASKS[symbol_id as int]@,
    {
        Symbol { mask: DIGIT_MASKS[symbol_id] }
    }

    /// The letter C for 0, the letter H for 1.
    pub fn ch(symbol_id: usize) -> (symbol: Symbol)
        requires
            symbol_id < 2,
        ensures
            symbol@ == CH_MASKS[symbol_id as int]@,
    {
        Symbol { mask: CH_MASKS[symbol_id] }
    }

    /// Tells whether the symbol lights segment `segment_id`.
    pub fn lights(&self, segment_id: usize) -> (lit: bool)
        requires
            segment_id < SEGMENT_COUNT,
        ensures
            lit == bit_of(self@, segment_id as int),
    {
        mask_bit(&self.mask, segment_id)
    }
}

impl Batch {
    /// The bytes of each write, in order.
    pub open spec fn payloads(self) -> Seq<Seq<u8>> {
        payloads(self.writes@)
    }
}

/// The driver and the payloads of each batch, in order.
pub open spec fn batch_views(batches: Seq<Batch>) -> Seq<(usize, Seq<Seq<u8>>)> {
    Seq::new(batches.len(), |i: int| (batches[i].driver, batches[i].payloads()))
}

/// Every entry of [`SEGMENT_LEDS`] is an LED of the first tile.
pub proof fn lemma_segment_leds_in_range(segment_id: int, k: int)
    requires
        0 <= segment_id < SEGMENT_COUNT,
        0 <= k < 3,
    ensures
        SEGMENT_LEDS[segment_id][k] <= 134,
        1 <= SEGMENT_SIZES[segment_id] <= 3,
{
}

impl<I2C> ClockDisplay<I2C> {
    /// Whether the clock face has a chip in place `driver`.
    pub open spec fn present(self, driver: int) -> bool {
        0 <= driver < DRIVER_COUNT && self.drivers[driver] is Some
    }

    /// The writes that give segment `segment_id` of tile `sub_display` the
    /// intensity `color`: one per LED of the segment, or none where the
    /// tile's chip is missing. Tile `t` is on chip `t / 2`; the second tile
    /// of a chip has its LEDs [`TILE_STRIDE`] further on.
    pub open spec fn segment_writes(self, sub_display: u8, segment_id: int, color: u8) -> Seq<
        Seq<u8>,
    > {
        if self.present(sub_display as int / 2) {
            Seq::new(
                segment_leds(segment_id).len(),
                |k: int|
                    seq![
                        (COLOR_OFFSET + segment_leds(segment_id)[k] + TILE_STRIDE * (sub_display
                            % 2)) as u8,
                        color,
                    ],
            )
        } else {
            Seq::empty()
        }
    }

    /// The writes that draw the first `upto` segments of a symbol on tile
    /// `sub_display`: lit segments get `color`, the others 0.
    pub open spec fn symbol_writes(self, sub_display: u8, mask: Seq<u8>, color: u8, upto: int) -> Seq<
        Seq<u8>,
    >
        decreases upto,
    {
        if upto <= 0 {
            Seq::empty()
        } else {
            self.symbol_writes(sub_display, mask, color, upto - 1) + self.segment_writes(
                sub_display,
                upto - 1,
                if bit_of(mask, upto - 1) { color } else { 0u8 },
            )
        }
    }

    /// One batch of the same `writes` for each chip that is there among the
    /// first `upto` places, in the order of the places.
    pub open spec fn for_each_chip(self, writes: Seq<Seq<u8>>, upto: int) -> Seq<
        (usize, Seq<Seq<u8>>),
    >
        decreases upto,
    {
        if upto <= 0 {
            Seq::empty()
        } else if self.present(upto - 1) {
            self.for_each_chip(writes, upto - 1).push(((upto - 1) as usize, writes))
        } else {
            self.for_each_chip(writes, upto - 1)
        }
    }

    /// The batches that bring up the chips: for each chip that is there,
    /// its setup followed by switching on all LEDs but the unused ones.
    pub open spec fn setup_batches(self) -> Seq<(usize, Seq<Seq<u8>>)> {
        self.for_each_chip(
            setup_writes() + enable_leds_writes(UNUSED_LEDS@),
            DRIVER_COUNT as int,
        )
    }

    /// The writes of one step of the LED test on one chip: LED `cnt` is
    /// lit and the one before it, if there is one, goes dark.
    pub open spec fn led_test_writes(cnt: u8) -> Seq<Seq<u8>> {
        if cnt > 0 {
            set_color_byte_writes(cnt, LED_TEST_COLOR) + set_color_byte_writes(
                (cnt - 1) as u8,
                0x00,
            )
        } else {
            set_color_byte_writes(cnt, LED_TEST_COLOR)
        }
    }

    /// Puts the chips in their places.
    pub fn new(drivers: [Option<IS31FL3731<I2C>>; 3]) -> (display: ClockDisplay<I2C>)
        ensures
            display.drivers == drivers,
    {
        ClockDisplay { drivers }
    }

    /// The writes that bring up every chip that is there, chip by chip.
    pub fn setup(&self) -> (batches: Vec<Batch>)
        ensures
            batch_views(batches@) == self.setup_batches(),
    {
        let mut batches: Vec<Batch> = Vec::new();
        let mut i: usize = 0;
        let ghost each = setup_writes() + enable_leds_writes(UNUSED_LEDS@);
        assert(batch_views(batches@) =~= self.for_each_chip(each, 0));
        while i < DRIVER_COUNT
            invariant
                i <= DRIVER_COUNT,
                each == setup_writes() + enable_leds_writes(UNUSED_LEDS@),
                batch_views(batches@) == self.for_each_chip(each, i as int),
            decreases DRIVER_COUNT - i,
        {
            if let Some(driver) = &self.drivers[i] {
                let mut writes = driver.setup();
                let unused: [u8; 4] = UNUSED_LEDS;
                extend(&mut writes, driver.enable_leds(unused.as_slice()));
                let ghost before = batches@;
                let batch = Batch { driver: i, writes };
                batches.push(batch);
                assert(batch_views(batches@) =~= batch_views(before).push(
                    (i, batch.payloads()),
                ));
            }
            i = i + 1;
        }
        batches
    }

    /// One step of the LED test: on every chip that is there LED `cnt` is
    /// lit and the one before it goes dark. Returns the writes and the LED
    /// of the next step, which wraps after the last LED of a chip.
    pub fn led_test_step(&self, cnt: u8) -> (step: (Vec<Batch>, u8))
        requires
            COLOR_OFFSET + cnt <= u8::MAX,
        ensures
            batch_views(step.0@) == self.for_each_chip(
                Self::led_test_writes(cnt),
                DRIVER_COUNT as int,
            ),
            step.1 == (cnt + 1) % (LED_COUNT as int),
    {
        let mut batches: Vec<Batch> = Vec::new();
        let mut i: usize = 0;
        assert(batch_views(batches@) =~= self.for_each_chip(Self::led_test_writes(cnt), 0));
        while i < DRIVER_COUNT
            invariant
                i <= DRIVER_COUNT,
                COLOR_OFFSET + cnt <= u8::MAX,
                batch_views(batches@) == self.for_each_chip(
                    Self::led_test_writes(cnt),
                    i as int,
                ),
            decreases DRIVER_COUNT - i,
        {
            if let Some(driver) = &self.drivers[i] {
                let mut writes = driver.set_color_byte(cnt, LED_TEST_COLOR);
                if cnt > 0 {
                    extend(&mut writes, driver.set_color_byte(cnt - 1, 0x00));
                }
                let ghost before = batches@;
                let batch = Batch { driver: i, writes };
                batches.push(batch);
                assert(batch_views(batches@) =~= batch_views(before).push(
                    (i, batch.payloads()),
                ));
            }
            i = i + 1;
        }
        (batches, ((cnt as usize + 1) % LED_COUNT) as u8)
    }

    /// The writes that give one segment of one tile the intensity `color`.
    pub fn draw_segment(&self, sub_display: u8, segment_id: usize, color: u8) -> (batch: Batch)
        requires
            sub_display < TILES,
            segment_id < SEGMENT_COUNT,
        ensures
            batch.driver == sub_display / 2,
            batch.payloads() == self.segment_writes(sub_display, segment_id as int, color),
    {
        let segment = Segment::get(segment_id);
        let driver_no: usize = (sub_display / 2) as usize;
        let tile: u8 = sub_display % 2;
        let mut writes: Vec<Vec<u8>> = Vec::new();
        let mut k: usize = 0;
        assert(segment.leds@.len() == SEGMENT_SIZES[segment_id as int]) by {
            lemma_segment_leds_in_range(segment_id as int, 0);
        }
        while k < segment.leds.len()
            invariant
                k <= segment.leds@.len(),
                segment_id < SEGMENT_COUNT,
                segment.leds@ == segment_leds(segment_id as int),
                driver_no == sub_display / 2,
                driver_no < DRIVER_COUNT,
                tile == sub_display % 2,
                payloads(writes@) == if self.present(driver_no as int) {
                    self.segment_writes(sub_display, segment_id as int, color).take(k as int)
                } else {
                    Seq::empty()
                },
            decreases segment.leds@.len() - k,
        {
            let led: u8 = segment.leds[k];
            proof {
                lemma_segment_leds_in_range(segment_id as int, k as int);
                assert(led == SEGMENT_LEDS[segment_id as int][k as int]);
            }
            if let Some(driver) = &self.drivers[driver_no] {
                let ghost before = payloads(writes@);
                extend(&mut writes, driver.set_color_byte(led + TILE_STRIDE * tile, color));
                assert(payloads(writes@) =~= self.segment_writes(
                    sub_display,
                    segment_id as int,
                    color,
                ).take(k + 1));
            }
            k = k + 1;
        }
        proof {
            let all = self.segment_writes(sub_display, segment_id as int, color);
            assert(self.present(driver_no as int) ==> all.take(k as int) =~= all);
        }
        Batch { driver: driver_no, writes }
    }

    /// The writes that draw `symbol` on tile `sub_display`: every segment
    /// of the tile is written, lit ones with `color`, the others with 0.
    pub fn draw(&self, sub_display: u8, symbol: &Symbol, color: u8) -> (batch: Batch)
        requires
            sub_display < SYMBOL_TILES,
        ensures
            batch.driver == sub_display / 2,
            batch.payloads() == self.symbol_writes(
                sub_display,
                symbol@,
                color,
                SEGMENT_COUNT as int,
            ),
    {
        let mut writes: Vec<Vec<u8>> = Vec::new();
        let mut i: usize = 0;
        assert(payloads(writes@) =~= self.symbol_writes(sub_display, symbol@, color, 0));
        while i < SEGMENT_COUNT
            invariant
                i <= SEGMENT_COUNT,
                sub_display < SYMBOL_TILES,
                payloads(writes@) == self.symbol_writes(sub_display, symbol@, color, i as int),
            decreases SEGMENT_COUNT - i,
        {
            let shade: u8 = if symbol.lights(i) { color } else { 0x00 };
            let segment = self.draw_segment(sub_display, i, shade);
            extend(&mut writes, segment.writes);
            i = i + 1;
        }
        Batch { driver: (sub_display / 2) as usize, writes }
    }

    /// The writes that draw the digit `symbol_id` on tile `sub_display`.
    pub fn draw_symbol(&self, sub_display: u8, symbol_id: usize, color: u8) -> (batch: Batch)
        requires
            sub_display < SYMBOL_TILES,
            symbol_id < 10,
        ensures
            batch.driver == sub_display / 2,
            batch.payloads() == self.symbol_writes(
                sub_display,
                DIGIT_MASKS[symbol_id as int]@,
                color,
                SEGMENT_COUNT as int,
            ),
    {
        let symbol = Symbol::digit(symbol_id);
        self.draw(sub_display, &symbol, color)
    }

    /// The writes that draw the letter C (`symbol_id` 0) or H (1) on tile
    /// `sub_display`.
    #[allow(non_snake_case)]
    pub fn draw_CH(&self, sub_display: u8, symbol_id: usize, color: u8) -> (batch: Batch)
        requires
            sub_display < SYMBOL_TILES,
            symbol_id < 2,
        ensures
            batch.driver == sub_display / 2,
            batch.payloads() == self.symbol_writes(
                sub_display,
                CH_MASKS[symbol_id as int]@,
                color,
                SEGMENT_COUNT as int,
            ),
    {
        let symbol = Symbol::ch(symbol_id);
        self.draw(sub_display, &symbol, color)
    }
}

} // verus!
