use clocklib::driver::{Error, IS31FL3731};

fn chip() -> IS31FL3731<()> {
    IS31FL3731::new((), 0x74)
}

fn dark_block() -> Vec<u8> {
    let mut block = vec![0x24];
    block.extend([0u8; 144]);
    block
}

#[test]
fn new_keeps_the_address() {
    assert_eq!(chip().address, 0x74);
}

#[test]
fn select_page_writes_the_command_register() {
    assert_eq!(chip().select_page(3), vec![vec![0xFD, 3]]);
}

#[test]
fn write_register_selects_the_page_first() {
    assert_eq!(chip().write_register(0x0B, 0x05, 0x11), vec![vec![0xFD, 0x0B], vec![0x05, 0x11]]);
}

#[test]
fn shutdown_register_holds_zero_while_shut_down() {
    assert_eq!(chip().shutdown(true), vec![vec![0xFD, 0x0B], vec![0x0A, 0x00]]);
    assert_eq!(chip().shutdown(false), vec![vec![0xFD, 0x0B], vec![0x0A, 0xFF]]);
}

#[test]
fn select_mode_writes_the_mode_register() {
    assert_eq!(chip().select_mode(0x08), vec![vec![0xFD, 0x0B], vec![0x00, 0x08]]);
}

#[test]
fn display_frame_takes_frames_up_to_eight() {
    let writes = chip().display_frame::<()>(8).unwrap();
    assert_eq!(writes, vec![vec![0xFD, 0x0B], vec![0x01, 8]]);
    let writes = chip().display_frame::<()>(0).unwrap();
    assert_eq!(writes, vec![vec![0xFD, 0x0B], vec![0x01, 0]]);
}

#[test]
fn display_frame_refuses_frames_above_eight() {
    match chip().display_frame::<()>(9) {
        Err(Error::InvalidFrame(9)) => {}
        other => panic!("unexpected {:?}", other),
    }
    match chip().display_frame::<()>(255) {
        Err(Error::InvalidFrame(255)) => {}
        other => panic!("unexpected {:?}", other),
    }
}

#[test]
fn setup_wakes_the_chip_and_darkens_page_zero() {
    let expected = vec![
        vec![0xFD, 0x0B],
        vec![0x0A, 0xFF],
        vec![0xFD, 0x0B],
        vec![0x01, 0x00],
        vec![0xFD, 0x0B],
        vec![0x00, 0x00],
        vec![0xFD, 0x00],
        vec![0xFD, 0x00],
        dark_block(),
    ];
    assert_eq!(chip().setup(), expected);
}

#[test]
fn enable_leds_clears_the_bits_of_the_disabled_ones() {
    let writes = chip().enable_leds(&[128, 135, 136, 143]);
    let mut block = vec![0x00];
    block.extend([0xFFu8; 16]);
    block.extend([0x7Eu8, 0x7E]);
    assert_eq!(writes, vec![vec![0xFD, 0x00], block]);
}

#[test]
fn enable_leds_with_nothing_disabled_is_all_on() {
    let writes = chip().enable_leds(&[]);
    let mut block = vec![0x00];
    block.extend([0xFFu8; 18]);
    assert_eq!(writes, vec![vec![0xFD, 0x00], block]);
}

#[test]
fn enable_leds_takes_repeats_and_any_order() {
    let writes = chip().enable_leds(&[9, 0, 9, 1]);
    assert_eq!(writes[1][1], 0xFC);
    assert_eq!(writes[1][2], 0xFD);
    assert_eq!(writes[1][3..], [0xFFu8; 16]);
}

#[test]
fn clear_color_is_a_dark_block() {
    assert_eq!(chip().clear_color(), vec![vec![0xFD, 0x00], dark_block()]);
}

#[test]
fn set_color_writes_the_page_then_the_block() {
    let mut color = [0u8; 144];
    for (i, c) in color.iter_mut().enumerate() {
        *c = i as u8;
    }
    let writes = chip().set_color(2, &color);
    assert_eq!(writes.len(), 2);
    assert_eq!(writes[0], vec![0xFD, 2]);
    assert_eq!(writes[1].len(), 145);
    assert_eq!(writes[1][0], 0x24);
    assert_eq!(writes[1][1..], color);
}

#[test]
fn set_onoff_writes_the_page_then_the_block() {
    let mut onoff = [0u8; 18];
    onoff[17] = 0x81;
    let writes = chip().set_onoff(1, &onoff);
    assert_eq!(writes.len(), 2);
    assert_eq!(writes[0], vec![0xFD, 1]);
    assert_eq!(writes[1].len(), 19);
    assert_eq!(writes[1][0], 0x00);
    assert_eq!(writes[1][1..], onoff);
}

#[test]
fn set_color_byte_offsets_into_the_intensities() {
    assert_eq!(chip().set_color_byte(3, 0x40), vec![vec![0x27, 0x40]]);
    assert_eq!(chip().set_color_byte(219, 1), vec![vec![0xFF, 1]]);
}

#[test]
fn set_onoff_byte_offsets_into_the_switches() {
    assert_eq!(chip().set_onoff_byte(17, 0x7E), vec![vec![17, 0x7E]]);
}

#[test]
fn fill_with_a_shade_switches_everything_on() {
    let writes = chip().fill(5);
    let mut color = vec![0x24];
    color.extend([5u8; 144]);
    let mut onoff = vec![0x00];
    onoff.extend([0xFFu8; 18]);
    assert_eq!(writes, vec![vec![0xFD, 0x00], color, vec![0xFD, 0x00], onoff]);
}

#[test]
fn fill_with_black_switches_everything_off() {
    let writes = chip().fill(0);
    let mut onoff = vec![0x00];
    onoff.extend([0x00u8; 18]);
    assert_eq!(writes, vec![vec![0xFD, 0x00], dark_block(), vec![0xFD, 0x00], onoff]);
}

#[test]
fn a_bus_error_becomes_a_driver_error() {
    match Error::from(7u32) {
        Error::I2cError(7) => {}
        other => panic!("unexpected {:?}", other),
    }
}
