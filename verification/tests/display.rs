use clocklib::display::{
    ClockDisplay, Segment, Symbol, CH_MASKS, DIGIT_MASKS, SEGMENT_COUNT, SEGMENT_LEDS,
    SEGMENT_SIZES,
};
use clocklib::driver::IS31FL3731;

fn face() -> ClockDisplay<()> {
    ClockDisplay::new([Some(IS31FL3731::new((), 0x76)), Some(IS31FL3731::new((), 0x74)), None])
}

fn bit(mask: &[u8; 6], index: usize) -> bool {
    (mask[index / 8] >> (index % 8)) & 1 == 1
}

fn expected_symbol(mask: &[u8; 6], sub_display: u8, color: u8) -> Vec<Vec<u8>> {
    let mut writes = Vec::new();
    for segment in 0..SEGMENT_COUNT {
        let shade = if bit(mask, segment) { color } else { 0 };
        for k in 0..SEGMENT_SIZES[segment] {
            writes.push(vec![0x24 + SEGMENT_LEDS[segment][k] + 8 * (sub_display % 2), shade]);
        }
    }
    writes
}

#[test]
fn segments_list_their_leds() {
    assert_eq!(Segment::get(0).leds, [1, 2, 18]);
    assert_eq!(Segment::get(1).leds, [3, 19]);
    assert_eq!(Segment::get(4).leds, [0]);
    assert_eq!(Segment::get(21).leds, [65, 66, 82]);
    assert_eq!(Segment::get(39).leds, [87]);
    assert_eq!(Segment::get(43).leds, [103, 133, 134]);
}

#[test]
fn no_led_belongs_to_two_segments() {
    let mut seen = [false; 144];
    let mut count = 0;
    for segment in 0..SEGMENT_COUNT {
        for &led in Segment::get(segment).leds {
            assert!(!seen[led as usize]);
            seen[led as usize] = true;
            count += 1;
        }
    }
    assert_eq!(count, 70);
}

#[test]
fn symbols_read_their_mask_least_significant_bit_first() {
    let one = Symbol::digit(1);
    let lit: Vec<usize> = (0..SEGMENT_COUNT).filter(|&s| one.lights(s)).collect();
    assert_eq!(lit, vec![0, 1, 2, 6, 7, 12, 13, 17, 18, 25, 26, 30, 31, 36, 37, 41, 42]);
    for digit in 0..10 {
        let symbol = Symbol::digit(digit);
        for segment in 0..SEGMENT_COUNT {
            assert_eq!(symbol.lights(segment), bit(&DIGIT_MASKS[digit], segment));
        }
    }
    for letter in 0..2 {
        let symbol = Symbol::ch(letter);
        for segment in 0..SEGMENT_COUNT {
            assert_eq!(symbol.lights(segment), bit(&CH_MASKS[letter], segment));
        }
    }
}

#[test]
fn draw_segment_writes_each_led_of_the_first_tile() {
    let batch = face().draw_segment(0, 0, 0x55);
    assert_eq!(batch.driver, 0);
    assert_eq!(batch.writes, vec![vec![0x25, 0x55], vec![0x26, 0x55], vec![0x36, 0x55]]);
}

#[test]
fn draw_segment_shifts_the_second_tile() {
    let batch = face().draw_segment(3, 43, 0x10);
    assert_eq!(batch.driver, 1);
    assert_eq!(
        batch.writes,
        vec![vec![0x24 + 103 + 8, 0x10], vec![0x24 + 133 + 8, 0x10], vec![0x24 + 134 + 8, 0x10]]
    );
}

#[test]
fn draw_segment_on_a_missing_chip_writes_nothing() {
    let batch = face().draw_segment(4, 0, 0x55);
    assert_eq!(batch.driver, 2);
    assert!(batch.writes.is_empty());
    let batch = face().draw_segment(5, 7, 0x55);
    assert_eq!(batch.driver, 2);
    assert!(batch.writes.is_empty());
}

#[test]
fn draw_symbol_writes_every_segment() {
    for digit in 0..10 {
        for tile in 0..4u8 {
            let batch = face().draw_symbol(tile, digit, 0x40);
            assert_eq!(batch.driver, (tile / 2) as usize);
            assert_eq!(batch.writes.len(), 70);
            assert_eq!(batch.writes, expected_symbol(&DIGIT_MASKS[digit], tile, 0x40));
        }
    }
}

#[test]
fn draw_symbol_of_one_starts_with_a_lit_segment() {
    let batch = face().draw_symbol(0, 1, 0xFF);
    assert_eq!(batch.writes[0], vec![0x25, 0xFF]);
    assert_eq!(batch.writes[1], vec![0x26, 0xFF]);
    assert_eq!(batch.writes[2], vec![0x36, 0xFF]);
    let batch = face().draw_symbol(0, 4, 0xFF);
    assert_eq!(batch.writes[3], vec![0x27, 0x00]);
}

#[test]
fn draw_ch_writes_the_letters() {
    for letter in 0..2 {
        let batch = face().draw_CH(1, letter, 0x20);
        assert_eq!(batch.driver, 0);
        assert_eq!(batch.writes, expected_symbol(&CH_MASKS[letter], 1, 0x20));
    }
}

#[test]
fn draw_symbol_on_a_missing_chip_writes_nothing() {
    let lonely: ClockDisplay<()> = ClockDisplay::new([None, Some(IS31FL3731::new((), 0x74)), None]);
    assert!(lonely.draw_symbol(0, 8, 0x40).writes.is_empty());
    assert_eq!(lonely.draw_symbol(2, 8, 0x40).writes.len(), 70);
}

#[test]
fn setup_brings_up_the_chips_that_are_there() {
    let batches = face().setup();
    assert_eq!(batches.len(), 2);
    assert_eq!(batches[0].driver, 0);
    assert_eq!(batches[1].driver, 1);
    let chip = IS31FL3731::new((), 0);
    let mut expected = chip.setup();
    expected.extend(chip.enable_leds(&[128, 135, 136, 143]));
    assert_eq!(expected.len(), 11);
    assert_eq!(batches[0].writes, expected);
    assert_eq!(batches[1].writes, expected);
    assert_eq!(expected[10][17..], [0x7Eu8, 0x7E]);
}

#[test]
fn setup_of_an_empty_face_is_empty() {
    let empty: ClockDisplay<()> = ClockDisplay::new([None, None, None]);
    assert!(empty.setup().is_empty());
}
