//! The IS31FL3731 LED matrix driver chip, bus-free: each method computes
//! the write transactions that the operation consists of, in order, and
//! the caller puts them on the two-wire bus at the chip's address.

use vstd::prelude::*;
use crate::bits::{bit_of, clear_bit, lemma_bits_determine_bytes, lemma_pack_bits, pack};

pub mod addresses;
pub mod config_registers;
pub mod modes;

verus! {

/// Number of LEDs one chip drives.
pub const LED_COUNT: usize = 144;

/// Number of on/off registers of a frame page.
pub const ENABLE_BYTES: usize = 18;

/// Number of picture frames the chip stores.
pub const FRAME_COUNT: u8 = 8;

/// One chip on a bus. The bus handle is only carried, never used here.
pub struct IS31FL3731<I2C> {
    pub i2c: I2C,
    pub address: u8,
}

/// What can go wrong with an operation on the chip.
#[derive(Clone, Copy, Debug)]
pub enum Error<I2cError> {
    /// The bus reported an error.
    I2cError(I2cError),
    /// No LED at this location.
    InvalidLocation(u8),
    /// No frame of this number.
    InvalidFrame(u8),
}

impl<E> From<E> for Error<E> {
    /// Wraps an error of the bus.
    fn from(error: E) -> (wrapped: Error<E>) {
        Error::I2cError(error)
    }
}

impl<E> vstd::std_specs::convert::FromSpecImpl<E> for Error<E> {
    open spec fn obeys_from_spec() -> bool {
        true
    }

    open spec fn from_spec(error: E) -> Error<E> {
        Error::I2cError(error)
    }
}

/// The bytes of each write, in order.
pub open spec fn payloads(writes: Seq<Vec<u8>>) -> Seq<Seq<u8>> {
    Seq::new(writes.len(), |i: int| writes[i]@)
}

/// Selecting a page of the register file.
pub open spec fn select_page_writes(bank: u8) -> Seq<Seq<u8>> {
    seq![seq![addresses::BANK_ADDRESS, bank]]
}

/// Writing one register of a page: select the page, then write the value.
pub open spec fn write_register_writes(bank: u8, register: u8, value: u8) -> Seq<Seq<u8>> {
    select_page_writes(bank).push(seq![register, value])
}

/// Software shutdown on or off: the shutdown register holds 0 while the
/// chip is shut down and 0xff while it runs.
pub open spec fn shutdown_writes(shutdown: bool) -> Seq<Seq<u8>> {
    write_register_writes(
        addresses::CONFIG_BANK,
        config_registers::SHUTDOWN,
        if shutdown { 0x00u8 } else { 0xffu8 },
    )
}

/// Showing a stored frame.
pub open spec fn display_frame_writes(frame: u8) -> Seq<Seq<u8>> {
    write_register_writes(addresses::CONFIG_BANK, config_registers::FRAME, frame)
}

/// Selecting the display mode.
pub open spec fn select_mode_writes(mode: u8) -> Seq<Seq<u8>> {
    write_register_writes(addresses::CONFIG_BANK, config_registers::MODE, mode)
}

/// Writing all intensities of a frame page in one block.
pub open spec fn set_color_writes(page: u8, color: Seq<u8>) -> Seq<Seq<u8>> {
    select_page_writes(page).push(seq![addresses::COLOR_OFFSET] + color)
}

/// Writing all on/off bits of a frame page in one block.
pub open spec fn set_onoff_writes(page: u8, onoff: Seq<u8>) -> Seq<Seq<u8>> {
    select_page_writes(page).push(seq![addresses::ENABLE_OFFSET] + onoff)
}

/// Writing the intensity of one LED of the selected page.
pub open spec fn set_color_byte_writes(index: u8, value: u8) -> Seq<Seq<u8>> {
    seq![seq![(addresses::COLOR_OFFSET + index) as u8, value]]
}

/// Writing one on/off register of the selected page.
pub open spec fn set_onoff_byte_writes(index: u8, value: u8) -> Seq<Seq<u8>> {
    seq![seq![(addresses::ENABLE_OFFSET + index) as u8, value]]
}

/// A block of `len` equal bytes.
pub open spec fn uniform(len: nat, value: u8) -> Seq<u8> {
    Seq::new(len, |i: int| value)
}

/// Bringing the chip up: leave shutdown, show frame 0 in picture mode,
/// select page 0 and turn every LED of it dark.
pub open spec fn setup_writes() -> Seq<Seq<u8>> {
    shutdown_writes(false) + display_frame_writes(0) + select_mode_writes(modes::PICTURE_MODE)
        + select_page_writes(0) + set_color_writes(0, uniform(LED_COUNT as nat, 0))
}

/// Whether LED `led` stays on when the LEDs in `disabled` are switched off.
pub open spec fn stays_on(disabled: Seq<u8>, led: int) -> bool {
    !exists|k: int| 0 <= k < disabled.len() && disabled[k] == led
}

/// On/off register `register` when every LED but those in `disabled` is on:
/// bit `p` of it belongs to LED `8 * register + p`.
pub open spec fn enable_byte(disabled: Seq<u8>, register: int) -> u8 {
    pack(
        stays_on(disabled, 8 * register),
        stays_on(disabled, 8 * register + 1),
        stays_on(disabled, 8 * register + 2),
        stays_on(disabled, 8 * register + 3),
        stays_on(disabled, 8 * register + 4),
        stays_on(disabled, 8 * register + 5),
        stays_on(disabled, 8 * register + 6),
        stays_on(disabled, 8 * register + 7),
    )
}

/// The on/off block that switches on every LED but those in `disabled`.
pub open spec fn enable_mask(disabled: Seq<u8>) -> Seq<u8> {
    Seq::new(ENABLE_BYTES as nat, |register: int| enable_byte(disabled, register))
}

/// Switching on every LED but those in `disabled`.
pub open spec fn enable_leds_writes(disabled: Seq<u8>) -> Seq<Seq<u8>> {
    set_onoff_writes(0, enable_mask(disabled))
}

/// In the on/off block of [`enable_mask`] the bit of an LED is set exactly
/// when the LED is not among the disabled ones.
pub proof fn lemma_enable_mask_bits(disabled: Seq<u8>)
    ensures
        enable_mask(disabled).len() == ENABLE_BYTES,
        forall|led: int|
            0 <= led < LED_COUNT ==> #[trigger] bit_of(enable_mask(disabled), led) == stays_on(
                disabled,
                led,
            ),
{
    assert forall|led: int| 0 <= led < LED_COUNT implies #[trigger] bit_of(
        enable_mask(disabled),
        led,
    ) == stays_on(disabled, led) by {
        let register = led / 8;
        lemma_pack_bits(
            stays_on(disabled, 8 * register),
            stays_on(disabled, 8 * register + 1),
            stays_on(disabled, 8 * register + 2),
            stays_on(disabled, 8 * register + 3),
            stays_on(disabled, 8 * register + 4),
            stays_on(disabled, 8 * register + 5),
            stays_on(disabled, 8 * register + 6),
            stays_on(disabled, 8 * register + 7),
        );
        assert(enable_mask(disabled)[register] == enable_byte(disabled, register));
        assert(led == 8 * register + led % 8);
    }
}

/// Filling the frame with one shade: every intensity set to it, every LED on
/// unless the shade is 0.
pub open spec fn fill_writes(shade: u8) -> Seq<Seq<u8>> {
    set_color_writes(0, uniform(LED_COUNT as nat, shade)) + set_onoff_writes(
        0,
        uniform(ENABLE_BYTES as nat, if shade > 0 { 0xffu8 } else { 0x00u8 }),
    )
}

/// The payloads of a list with one more write.
pub proof fn lemma_payloads_push(writes: Seq<Vec<u8>>, write: Vec<u8>)
    ensures
        payloads(writes.push(write)) == payloads(writes).push(write@),
{
    assert(payloads(writes.push(write)) =~= payloads(writes).push(write@));
}

/// The payloads of two lists joined.
pub proof fn lemma_payloads_concat(first: Seq<Vec<u8>>, second: Seq<Vec<u8>>)
    ensures
        payloads(first + second) == payloads(first) + payloads(second),
{
    assert(payloads(first + second) =~= payloads(first) + payloads(second));
}

/// A write of two bytes.
fn pair(first: u8, second: u8) -> (write: Vec<u8>)
    ensures
        write@ == seq![first, second],
{
    let mut write: Vec<u8> = Vec::new();
    write.push(first);
    write.push(second);
    assert(write@ =~= seq![first, second]);
    write
}

/// A write of a register offset followed by a block of data.
fn block<const N: usize>(offset: u8, data: &[u8; N]) -> (write: Vec<u8>)
    ensures
        write@ == seq![offset] + data@,
{
    let mut write: Vec<u8> = Vec::new();
    write.push(offset);
    let mut i: usize = 0;
    while i < N
        invariant
            i <= N,
            write@ == seq![offset] + data@.take(i as int),
        decreases N - i,
    {
        write.push(data[i]);
        i = i + 1;
        assert(write@ =~= seq![offset] + data@.take(i as int));
    }
    assert(data@.take(N as int) =~= data@);
    write
}

/// Appends `more` to `writes`.
pub(crate) fn extend(writes: &mut Vec<Vec<u8>>, more: Vec<Vec<u8>>)
    ensures
        payloads(final(writes)@) == payloads(old(writes)@) + payloads(more@),
{
    let mut more = more;
    let ghost before = writes@;
    let ghost added = more@;
    writes.append(&mut more);
    proof {
        lemma_payloads_concat(before, added);
    }
}

impl<I2C> IS31FL3731<I2C> {
    /// Binds a bus handle to the chip at `address`.
    pub fn new(i2c: I2C, address: u8) -> (chip: IS31FL3731<I2C>)
        ensures
            chip.i2c == i2c,
            chip.address == address,
    {
        IS31FL3731 { i2c, address }
    }

    /// The writes that bring the chip up with every LED dark.
    pub fn setup(&self) -> (writes: Vec<Vec<u8>>)
        ensures
            payloads(writes@) == setup_writes(),
    {
        let mut writes = self.shutdown(false);
        extend(&mut writes, self.display_frame_unchecked(0));
        extend(&mut writes, self.select_mode(modes::PICTURE_MODE));
        extend(&mut writes, self.select_page(0));
        let dark: [u8; 144] = [0x00; 144];
        assert(dark@ =~= uniform(LED_COUNT as nat, 0));
        extend(&mut writes, self.set_color(0, &dark));
        writes
    }

    /// The writes that switch on every LED but those listed in
    /// `disabled_leds`.
    pub fn enable_leds(&self, disabled_leds: &[u8]) -> (writes: Vec<Vec<u8>>)
        requires
            forall|k: int| 0 <= k < disabled_leds@.len() ==> disabled_leds@[k] < LED_COUNT,
        ensures
            payloads(writes@) == enable_leds_writes(disabled_leds@),
    {
        let mut all_on: [u8; 18] = [0xFF; 18];
        proof {
            lemma_all_on(all_on@);
            assert(disabled_leds@.take(0) =~= Seq::<u8>::empty());
        }
        let mut n: usize = 0;
        while n < disabled_leds.len()
            invariant
                n <= disabled_leds@.len(),
                forall|k: int| 0 <= k < disabled_leds@.len() ==> disabled_leds@[k] < LED_COUNT,
                forall|led: int|
                    0 <= led < LED_COUNT ==> #[trigger] bit_of(all_on@, led) == stays_on(
                        disabled_leds@.take(n as int),
                        led,
                    ),
            decreases disabled_leds@.len() - n,
        {
            let disabled: u8 = disabled_leds[n];
            let ghost before = all_on@;
            clear_bit(&mut all_on, disabled as usize);
            assert forall|led: int| 0 <= led < LED_COUNT implies #[trigger] bit_of(all_on@, led)
                == stays_on(disabled_leds@.take(n + 1), led) by {
                let shorter = disabled_leds@.take(n as int);
                let longer = disabled_leds@.take(n + 1);
                assert(bit_of(all_on@, led) == (led != disabled && bit_of(before, led)));
                if led == disabled {
                    assert(longer[n as int] == led);
                } else if !stays_on(longer, led) {
                    let k = choose|k: int| 0 <= k < longer.len() && longer[k] == led;
                    assert(0 <= k < shorter.len() && shorter[k] == led);
                } else if !stays_on(shorter, led) {
                    let k = choose|k: int| 0 <= k < shorter.len() && shorter[k] == led;
                    assert(0 <= k < longer.len() && longer[k] == led);
                }
            }
            n = n + 1;
        }
        proof {
            assert(disabled_leds@.take(n as int) =~= disabled_leds@);
            lemma_enable_mask_bits(disabled_leds@);
            lemma_bits_determine_bytes(all_on@, enable_mask(disabled_leds@));
        }
        self.set_onoff(0, &all_on)
    }

    /// The writes that show stored frame `frame`, or `InvalidFrame` for a
    /// number above [`FRAME_COUNT`].
    pub fn display_frame<E>(&self, frame: u8) -> (result: Result<Vec<Vec<u8>>, Error<E>>)
        ensures
            frame > FRAME_COUNT ==> result == Err::<Vec<Vec<u8>>, Error<E>>(
                Error::InvalidFrame(frame),
            ),
            frame <= FRAME_COUNT ==> result is Ok && payloads(result->Ok_0@)
                == display_frame_writes(frame),
    {
        if frame > FRAME_COUNT {
            return Err(Error::InvalidFrame(frame));
        }
        Ok(self.display_frame_unchecked(frame))
    }

    /// The writes of [`IS31FL3731::display_frame`], for any frame number.
    fn display_frame_unchecked(&self, frame: u8) -> (writes: Vec<Vec<u8>>)
        ensures
            payloads(writes@) == display_frame_writes(frame),
    {
        self.write_register(addresses::CONFIG_BANK, config_registers::FRAME, frame)
    }

    /// The writes that select display mode `mode`.
    pub fn select_mode(&self, mode: u8) -> (writes: Vec<Vec<u8>>)
        ensures
            payloads(writes@) == select_mode_writes(mode),
    {
        self.write_register(addresses::CONFIG_BANK, config_registers::MODE, mode)
    }

    /// The writes that set `register` of page `bank` to `value`.
    pub fn write_register(&self, bank: u8, register: u8, value: u8) -> (writes: Vec<Vec<u8>>)
        ensures
            payloads(writes@) == write_register_writes(bank, register, value),
    {
        let mut writes = self.select_page(bank);
        let ghost before = writes@;
        let write = pair(register, value);
        writes.push(write);
        proof {
            lemma_payloads_push(before, write);
        }
        writes
    }

    /// The write that selects page `bank`.
    pub fn select_page(&self, bank: u8) -> (writes: Vec<Vec<u8>>)
        ensures
            payloads(writes@) == select_page_writes(bank),
    {
        let mut writes: Vec<Vec<u8>> = Vec::new();
        let write = pair(addresses::BANK_ADDRESS, bank);
        writes.push(write);
        assert(payloads(writes@) =~= select_page_writes(bank));
        writes
    }

    /// The writes that shut the chip down or wake it up.
    pub fn shutdown(&self, shutdown: bool) -> (writes: Vec<Vec<u8>>)
        ensures
            payloads(writes@) == shutdown_writes(shutdown),
    {
        let mut writes = self.select_page(addresses::CONFIG_BANK);
        let ghost before = writes@;
        let value: u8 = if shutdown { 0x00 } else { 0xff };
        let write = pair(config_registers::SHUTDOWN, value);
        writes.push(write);
        proof {
            lemma_payloads_push(before, write);
        }
        writes
    }

    /// The writes that give every LED of page 0 the intensity `shade` and
    /// switch all of them on, or off where the shade is 0.
    pub fn fill(&self, shade: u8) -> (writes: Vec<Vec<u8>>)
        ensures
            payloads(writes@) == fill_writes(shade),
    {
        let color: [u8; 144] = [shade; 144];
        assert(color@ =~= uniform(LED_COUNT as nat, shade));
        let mut writes = self.set_color(0, &color);
        let onoff_one: u8 = if shade > 0 { 0xFF } else { 0x00 };
        let onoff: [u8; 18] = [onoff_one; 18];
        assert(onoff@ =~= uniform(ENABLE_BYTES as nat, onoff_one));
        extend(&mut writes, self.set_onoff(0, &onoff));
        writes
    }

    /// The writes that turn every LED of page 0 dark.
    pub fn clear_color(&self) -> (writes: Vec<Vec<u8>>)
        ensures
            payloads(writes@) == set_color_writes(0, uniform(LED_COUNT as nat, 0)),
    {
        let dark: [u8; 144] = [0x00; 144];
        assert(dark@ =~= uniform(LED_COUNT as nat, 0));
        self.set_color(0, &dark)
    }

    /// The writes that store the intensities `color` in page `page`.
    pub fn set_color(&self, page: u8, color: &[u8; 144]) -> (writes: Vec<Vec<u8>>)
        ensures
            payloads(writes@) == set_color_writes(page, color@),
    {
        let mut writes = self.select_page(page);
        let ghost before = writes@;
        let write = block(addresses::COLOR_OFFSET, color);
        writes.push(write);
        proof {
            lemma_payloads_push(before, write);
        }
        writes
    }

    /// The write that sets the intensity of LED `index` of the selected page.
    pub fn set_color_byte(&self, index: u8, value: u8) -> (writes: Vec<Vec<u8>>)
        requires
            addresses::COLOR_OFFSET + index <= u8::MAX,
        ensures
            payloads(writes@) == set_color_byte_writes(index, value),
    {
        let mut writes: Vec<Vec<u8>> = Vec::new();
        let write = pair(addresses::COLOR_OFFSET + index, value);
        writes.push(write);
        assert(payloads(writes@) =~= set_color_byte_writes(index, value));
        writes
    }

    /// The writes that store the on/off bits `onoff` in page `page`.
    pub fn set_onoff(&self, page: u8, onoff: &[u8; 18]) -> (writes: Vec<Vec<u8>>)
        ensures
            payloads(writes@) == set_onoff_writes(page, onoff@),
    {
        let mut writes = self.select_page(page);
        let ghost before = writes@;
        let write = block(addresses::ENABLE_OFFSET, onoff);
        writes.push(write);
        proof {
            lemma_payloads_push(before, write);
        }
        writes
    }

    /// The write that sets on/off register `index` of the selected page.
    pub fn set_onoff_byte(&self, index: u8, value: u8) -> (writes: Vec<Vec<u8>>)
        ensures
            payloads(writes@) == set_onoff_byte_writes(index, value),
    {
        let mut writes: Vec<Vec<u8>> = Vec::new();
        let write = pair(addresses::ENABLE_OFFSET + index, value);
        writes.push(write);
        assert(payloads(writes@) =~= set_onoff_byte_writes(index, value));
        writes
    }
}

/// Every bit of a block of 0xff bytes is set.
proof fn lemma_all_on(block: Seq<u8>)
    requires
        block.len() == ENABLE_BYTES,
        forall|k: int| 0 <= k < block.len() ==> block[k] == 0xff,
    ensures
        forall|led: int| 0 <= led < LED_COUNT ==> #[trigger] bit_of(block, led),
{
    assert forall|led: int| 0 <= led < LED_COUNT implies #[trigger] bit_of(block, led) by {
        let p = (led % 8) as u8;
        assert(block[led / 8] == 0xff);
        assert((0xffu8 >> p) & 1u8 == 1u8) by (bit_vector)
            requires
                p < 8,
        ;
    }
}

} // verus!
