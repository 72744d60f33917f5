use clocklib::dispatch::State;
use clocklib::refresh::{
    after_wait, blink_step, render, BlinkData, Cell, ScreenRefresh, Wake, BLINK_PERIOD_MS,
    HIGHLIGHT, REFRESH_TIMEOUT_MS,
};
use clocklib::time::DateTime;

fn five_past_one() -> DateTime {
    DateTime { year: 0, month: 1, weekday: 0, day: 1, hours: 13, minutes: 5, seconds: 0 }
}

fn colors(cells: [Cell; 4]) -> [u8; 4] {
    [cells[0].color, cells[1].color, cells[2].color, cells[3].color]
}

fn digits(cells: [Cell; 4]) -> [usize; 4] {
    [cells[0].digit, cells[1].digit, cells[2].digit, cells[3].digit]
}

#[test]
fn periods() {
    assert_eq!(BLINK_PERIOD_MS, 500);
    assert_eq!(REFRESH_TIMEOUT_MS, 20_000);
    assert_eq!(HIGHLIGHT, 0x02);
}

#[test]
fn blink_alternates_frames_while_setting() {
    let (request, frame) = blink_step(State::SettingTime(0), 0);
    assert_eq!(request, Some(ScreenRefresh::Blink(BlinkData { position: 0, frame: 0 })));
    assert_eq!(frame, 1);
    let (request, frame) = blink_step(State::SettingTime(1), frame);
    assert_eq!(request, Some(ScreenRefresh::Blink(BlinkData { position: 1, frame: 1 })));
    assert_eq!(frame, 0);
}

#[test]
fn blink_is_inert_while_idle() {
    assert_eq!(blink_step(State::Idle, 0), (None, 0));
    assert_eq!(blink_step(State::Idle, 1), (None, 0));
}

#[test]
fn blink_frame_stays_a_parity() {
    let (_, frame) = blink_step(State::SettingTime(0), 255);
    assert_eq!(frame, 0);
    let (_, frame) = blink_step(State::SettingTime(0), 2);
    assert_eq!(frame, 1);
}

#[test]
fn render_without_blink_uses_the_brightness() {
    let cells = render(five_past_one(), 3, None);
    assert_eq!(digits(cells), [1, 3, 0, 5]);
    assert_eq!(colors(cells), [0x40; 4]);
    let cells = render(five_past_one(), 0, None);
    assert_eq!(colors(cells), [0x05; 4]);
    let cells = render(five_past_one(), 5, None);
    assert_eq!(colors(cells), [0x90; 4]);
}

#[test]
fn render_flashes_the_minutes_on_frame_zero() {
    let blink = Some(BlinkData { position: 0, frame: 0 });
    assert_eq!(colors(render(five_past_one(), 3, blink)), [0x40, 0x40, 0x02, 0x02]);
    let blink = Some(BlinkData { position: 0, frame: 1 });
    assert_eq!(colors(render(five_past_one(), 3, blink)), [0x40; 4]);
}

#[test]
fn render_flashes_the_hours_on_frame_one() {
    let blink = Some(BlinkData { position: 1, frame: 1 });
    assert_eq!(colors(render(five_past_one(), 3, blink)), [0x02, 0x02, 0x40, 0x40]);
    let blink = Some(BlinkData { position: 1, frame: 0 });
    assert_eq!(colors(render(five_past_one(), 3, blink)), [0x40; 4]);
}

#[test]
fn render_ignores_other_positions() {
    let blink = Some(BlinkData { position: 2, frame: 0 });
    assert_eq!(colors(render(five_past_one(), 1, blink)), [0x10; 4]);
}

#[test]
fn a_blink_request_is_remembered() {
    let data = BlinkData { position: 1, frame: 1 };
    assert_eq!(after_wait(None, Wake::Refresh(ScreenRefresh::Blink(data))), Some(data));
    let older = BlinkData { position: 0, frame: 0 };
    assert_eq!(after_wait(Some(older), Wake::Refresh(ScreenRefresh::Blink(data))), Some(data));
}

#[test]
fn an_edit_leaves_the_blink_memory_alone() {
    let data = BlinkData { position: 0, frame: 1 };
    assert_eq!(after_wait(Some(data), Wake::Refresh(ScreenRefresh::TimeChanged)), Some(data));
    assert_eq!(after_wait(None, Wake::Refresh(ScreenRefresh::TimeChanged)), None);
}

#[test]
fn a_plain_request_or_the_timeout_forgets_the_blink() {
    let data = BlinkData { position: 0, frame: 0 };
    assert_eq!(after_wait(Some(data), Wake::Refresh(ScreenRefresh::Normal)), None);
    assert_eq!(after_wait(Some(data), Wake::Timeout), None);
}

#[test]
fn a_second_plain_request_changes_nothing_more() {
    let data = BlinkData { position: 0, frame: 0 };
    let once = after_wait(Some(data), Wake::Refresh(ScreenRefresh::Normal));
    let twice = after_wait(once, Wake::Refresh(ScreenRefresh::Normal));
    assert_eq!(once, twice);
    let time = five_past_one();
    assert_eq!(render(time, 3, once), render(time, 3, twice));
}
