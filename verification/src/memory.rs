//! The memory and port map: the 64 KiB address space, the two input ports
//! and the shift register that the game uses through its output ports.

use vstd::prelude::*;
use vstd::arithmetic::power2::{lemma2_to64, pow2};
use crate::bits::{
    bit_is_set, get_high_byte, get_low_byte, high_byte, lemma_set_then_clear, lemma_with_bit,
    low_byte, make_word, set_bit, with_bit, word, wrap16,
};
use crate::error::EmulatorError;

verus! {

/// The number of bytes in the address space.
pub const ADDRESS_SPACE_SIZE: usize = 65536;

/// The address of the first byte of video memory.
pub const VIDEO_RAM_START: u16 = 0x2400;

/// The number of bytes of video memory: 224 columns of 32 bytes, each byte
/// a vertical strip of eight pixels.
pub const VIDEO_RAM_SIZE: usize = 7168;

/// The first input port: coin slot, start buttons, first player's controls.
pub const INPUT_PORT_1: u8 = 1;

/// The second input port: second player's controls.
pub const INPUT_PORT_2: u8 = 2;

/// The input port on which the shift register's result is read.
pub const SHIFT_RESULT_PORT: u8 = 3;

/// The output port that sets the shift amount.
pub const SHIFT_AMOUNT_PORT: u8 = 2;

/// The output port that feeds a byte into the shift register.
pub const SHIFT_DATA_PORT: u8 = 4;

/// The port registers.
#[derive(Clone, Copy, PartialEq, Eq, Debug, Structural)]
pub struct Ports {
    /// The shift amount, 0 to 7.
    pub shift_amount: u8,
    /// The 16 bits of the shift register.
    pub shift_register: u16,
    /// The eight bits of input port 1.
    pub input_1: u8,
    /// The eight bits of input port 2.
    pub input_2: u8,
}

impl Ports {
    /// The registers at power-on: nothing pressed, nothing shifted.
    pub open spec fn reset() -> Ports {
        Ports { shift_amount: 0, shift_register: 0, input_1: 0, input_2: 0 }
    }

    /// What the shift register shows: its 16 bits shifted right by
    /// `8 - shift_amount`, of which the low eight are kept.
    pub open spec fn shift_result(self) -> u8 {
        ((self.shift_register as int / pow2((8 - self.shift_amount % 8) as nat) as int) % 256) as u8
    }

    /// What a read of `port` returns. A port that is not wired reads zero.
    pub open spec fn read(self, port: u8) -> u8 {
        if port == INPUT_PORT_1 {
            self.input_1
        } else if port == INPUT_PORT_2 {
            self.input_2
        } else if port == SHIFT_RESULT_PORT {
            self.shift_result()
        } else {
            0
        }
    }

    /// The registers after `value` is written to `port`. The shift amount
    /// takes the low three bits of the value. A byte of shift data becomes
    /// the high byte of the register, whose old high byte becomes the low
    /// byte. A write to any other port changes nothing.
    pub open spec fn write(self, port: u8, value: u8) -> Ports {
        if port == SHIFT_AMOUNT_PORT {
            Ports { shift_amount: value % 8, ..self }
        } else if port == SHIFT_DATA_PORT {
            Ports { shift_register: word(value, high_byte(self.shift_register)), ..self }
        } else {
            self
        }
    }

    /// The registers after bit `bit` of input port `port` is set to `on`.
    /// Only ports 1 and 2 have input bits, numbered 0 to 7; any other
    /// request changes nothing.
    pub open spec fn with_input_bit(self, port: u8, bit: u8, on: bool) -> Ports {
        if bit >= 8 {
            self
        } else if port == INPUT_PORT_1 {
            Ports { input_1: with_bit(self.input_1, bit, on), ..self }
        } else if port == INPUT_PORT_2 {
            Ports { input_2: with_bit(self.input_2, bit, on), ..self }
        } else {
            self
        }
    }
}

/// The mathematical model of the memory and port map.
pub struct Bus {
    /// The address space, one byte per address.
    pub bytes: Seq<u8>,
    /// The port registers.
    pub ports: Ports,
}

impl Bus {
    /// Every 16-bit address names exactly one byte.
    pub open spec fn wf(self) -> bool {
        self.bytes.len() == 65536
    }

    /// The byte at `address`.
    pub open spec fn read(self, address: u16) -> u8 {
        self.bytes[address as int]
    }

    /// The bus after `value` is stored at `address`.
    pub open spec fn write(self, address: u16, value: u8) -> Bus {
        Bus { bytes: self.bytes.update(address as int, value), ..self }
    }

    /// The word at `address`: low byte first, high byte at the next address,
    /// which after 0xffff is 0.
    pub open spec fn read_word(self, address: u16) -> u16 {
        word(self.read(wrap16(address + 1)), self.read(address))
    }

    /// The bus after the word `value` is stored at `address`, low byte first.
    pub open spec fn write_word(self, address: u16, value: u16) -> Bus {
        self.write(address, low_byte(value)).write(wrap16(address + 1), high_byte(value))
    }

    /// What the processor reads from `port`.
    pub open spec fn port_in(self, port: u8) -> u8 {
        self.ports.read(port)
    }

    /// The bus after the processor writes `value` to `port`.
    pub open spec fn port_out(self, port: u8, value: u8) -> Bus {
        Bus { ports: self.ports.write(port, value), ..self }
    }

    /// The bus after an input bit is set or cleared.
    pub open spec fn with_input_bit(self, port: u8, bit: u8, on: bool) -> Bus {
        Bus { ports: self.ports.with_input_bit(port, bit, on), ..self }
    }

    /// The bus after `image` is copied to the addresses from `at` on.
    pub open spec fn load(self, image: Seq<u8>, at: u16) -> Bus {
        Bus {
            bytes: Seq::new(
                65536,
                |i: int|
                    if at <= i < at + image.len() {
                        image[i - at]
                    } else {
                        self.bytes[i]
                    },
            ),
            ..self
        }
    }

    /// Byte `index` of video memory, counted from its start.
    pub open spec fn video_byte(self, index: int) -> u8 {
        self.bytes[VIDEO_RAM_START + index]
    }
}

/// The memory and port map.
pub struct Memory {
    bytes: [u8; 65536],
    ports: Ports,
}

impl View for Memory {
    type V = Bus;

    closed spec fn view(&self) -> Bus {
        Bus { bytes: self.bytes@, ports: self.ports }
    }
}

impl Memory {
    /// A memory is always a whole address space.
    pub proof fn lemma_view_wf(self)
        ensures
            self@.wf(),
    {
    }

    /// A memory of zero bytes with the port registers at reset.
    pub fn new() -> (r: Memory)
        ensures
            r@.wf(),
            forall|i: int| 0 <= i < 65536 ==> r@.bytes[i] == 0,
            r@.ports == Ports::reset(),
    {
        Memory {
            bytes: [0u8; 65536],
            ports: Ports { shift_amount: 0, shift_register: 0, input_1: 0, input_2: 0 },
        }
    }

    /// The byte at `address`.
    pub fn read_byte(&self, address: u16) -> (r: u8)
        ensures
            r == self@.read(address),
    {
        self.bytes[address as usize]
    }

    /// Stores `value` at `address`.
    pub fn write_byte(&mut self, address: u16, value: u8)
        ensures
            final(self)@ == old(self)@.write(address, value),
    {
        self.bytes[address as usize] = value;
    }

    /// The word at `address`, low byte first.
    pub fn read_word(&self, address: u16) -> (r: u16)
        ensures
            r == self@.read_word(address),
    {
        let low = self.read_byte(address);
        let high = self.read_byte(address.wrapping_add(1));
        make_word(high, low)
    }

    /// Stores the word `value` at `address`, low byte first.
    pub fn write_word(&mut self, address: u16, value: u16)
        ensures
            final(self)@ == old(self)@.write_word(address, value),
    {
        self.write_byte(address, get_low_byte(value));
        self.write_byte(address.wrapping_add(1), get_high_byte(value));
    }

    /// What the processor reads from `port`; zero from a port that is not
    /// wired.
    pub fn read_port(&self, port: u8) -> (r: u8)
        ensures
            r == self@.port_in(port),
    {
        if port == INPUT_PORT_1 {
            self.ports.input_1
        } else if port == INPUT_PORT_2 {
            self.ports.input_2
        } else if port == SHIFT_RESULT_PORT {
            shift_out(self.ports.shift_register, self.ports.shift_amount)
        } else {
            0
        }
    }

    /// Writes `value` to `port`; a write to a port that is not wired is
    /// ignored.
    pub fn write_port(&mut self, port: u8, value: u8)
        ensures
            final(self)@ == old(self)@.port_out(port, value),
    {
        if port == SHIFT_AMOUNT_PORT {
            assert(value & 0x07 == value % 8) by (bit_vector);
            self.ports.shift_amount = value & 0x07;
        } else if port == SHIFT_DATA_PORT {
            let kept = get_high_byte(self.ports.shift_register);
            self.ports.shift_register = make_word(value, kept);
        }
    }

    /// The port registers as they stand.
    pub fn ports(&self) -> (r: Ports)
        ensures
            r == self@.ports,
    {
        self.ports
    }

    /// Sets or clears one bit of an input port. Ports 1 and 2 have bits 0
    /// to 7; any other request is ignored.
    pub fn set_input_bit(&mut self, port: u8, bit: u8, on: bool)
        ensures
            final(self)@ == old(self)@.with_input_bit(port, bit, on),
    {
        if bit < 8 {
            if port == INPUT_PORT_1 {
                self.ports.input_1 = set_bit(self.ports.input_1, bit, on);
            } else if port == INPUT_PORT_2 {
                self.ports.input_2 = set_bit(self.ports.input_2, bit, on);
            }
        }
    }

    /// Copies `image` into memory from address `at` on. An empty image, or
    /// one that would reach past the last address, is refused and memory is
    /// left as it was.
    pub fn load_image(&mut self, image: &[u8], at: u16) -> (r: Result<(), EmulatorError>)
        ensures
            image@.len() == 0 ==> r == Err::<(), EmulatorError>(EmulatorError::EmptyImage),
            image@.len() > 0 && at + image@.len() > 65536 ==> r == Err::<(), EmulatorError>(
                EmulatorError::ImageTooLarge,
            ),
            0 < image@.len() && at + image@.len() <= 65536 ==> r == Ok::<(), EmulatorError>(()),
            r is Ok ==> final(self)@ == old(self)@.load(image@, at),
            r is Err ==> final(self)@ == old(self)@,
    {
        let n = image.len();
        if n == 0 {
            return Err(EmulatorError::EmptyImage);
        }
        if n > ADDRESS_SPACE_SIZE - at as usize {
            return Err(EmulatorError::ImageTooLarge);
        }
        let start = at as usize;
        let mut i: usize = 0;
        while i < n
            invariant
                i <= n,
                n == image@.len(),
                start == at,
                start + n <= 65536,
                self.ports == old(self).ports,
                forall|j: int|
                    0 <= j < 65536 ==> self.bytes@[j] == (if start <= j < start + i {
                        image@[j - start]
                    } else {
                        old(self).bytes@[j]
                    }),
            decreases n - i,
        {
            self.bytes[start + i] = image[i];
            i = i + 1;
        }
        assert(self.bytes@ =~= old(self)@.load(image@, at).bytes);
        Ok(())
    }

    /// Byte `index` of video memory, counted from its start.
    pub fn video_byte(&self, index: usize) -> (r: u8)
        requires
            index < VIDEO_RAM_SIZE,
        ensures
            r == self@.video_byte(index as int),
    {
        self.bytes[VIDEO_RAM_START as usize + index]
    }
}

/// The shift register's 16 bits shifted right by `8 - amount`, low eight
/// bits kept.
fn shift_out(register: u16, amount: u8) -> (r: u8)
    ensures
        r == (Ports {
            shift_amount: amount,
            shift_register: register,
            input_1: 0,
            input_2: 0,
        }).shift_result(),
{
    let a: u8 = amount & 0x07;
    assert(a == amount % 8 && a < 8) by (bit_vector)
        requires
            a == amount & 0x07,
    ;
    let distance: u16 = (8 - a) as u16;
    proof {
        lemma2_to64();
    }
    assert(1 <= distance <= 8 ==> (register >> distance) & 0xff == (if distance == 1 {
        (register / 2) % 256
    } else if distance == 2 {
        (register / 4) % 256
    } else if distance == 3 {
        (register / 8) % 256
    } else if distance == 4 {
        (register / 16) % 256
    } else if distance == 5 {
        (register / 32) % 256
    } else if distance == 6 {
        (register / 64) % 256
    } else if distance == 7 {
        (register / 128) % 256
    } else {
        (register / 256) % 256
    })) by (bit_vector);
    ((register >> distance) & 0xff) as u8
}

/// Every address names one byte of its own: a byte written is the byte
/// read back, and no other address and no port register is touched.
pub proof fn lemma_write_then_read(bus: Bus, address: u16, value: u8, other: u16)
    requires
        bus.wf(),
    ensures
        bus.write(address, value).wf(),
        bus.write(address, value).read(address) == value,
        other != address ==> bus.write(address, value).read(other) == bus.read(other),
        bus.write(address, value).ports == bus.ports,
{
}

/// A word written is the word read back, also across the last address.
pub proof fn lemma_write_word_then_read(bus: Bus, address: u16, value: u16)
    requires
        bus.wf(),
    ensures
        bus.write_word(address, value).wf(),
        bus.write_word(address, value).read_word(address) == value,
{
    let next = wrap16(address + 1);
    assert(next != address);
    crate::bits::lemma_word_of_bytes(value);
}

/// Video memory is no store of its own: a byte written to an address of
/// the video range is at once the byte that the picture is read from.
pub proof fn lemma_video_write_is_visible(bus: Bus, index: int, value: u8)
    requires
        bus.wf(),
        0 <= index < VIDEO_RAM_SIZE,
    ensures
        bus.write((VIDEO_RAM_START + index) as u16, value).video_byte(index) == value,
        forall|i: int|
            0 <= i < VIDEO_RAM_SIZE && i != index ==> bus.write(
                (VIDEO_RAM_START + index) as u16,
                value,
            ).video_byte(i) == #[trigger] bus.video_byte(i),
{
}

/// A loaded image is read back byte for byte, and the bytes around it are
/// as they were.
pub proof fn lemma_load_then_read(bus: Bus, image: Seq<u8>, at: u16, address: u16)
    requires
        bus.wf(),
        at + image.len() <= 65536,
    ensures
        bus.load(image, at).wf(),
        at <= address < at + image.len() ==> bus.load(image, at).read(address) == image[address
            - at],
        !(at <= address < at + image.len()) ==> bus.load(image, at).read(address) == bus.read(
            address,
        ),
{
}

/// The shift register as the game sees it. After the amount `amount` and
/// then the data bytes `first` and `second` have been written, the result
/// port shows the high eight bits of the 16-bit word made of `second`
/// (high) and `first` (low), shifted left by the low three bits of
/// `amount`.
pub proof fn lemma_shift_register(ports: Ports, amount: u8, first: u8, second: u8)
    ensures
        ports.write(SHIFT_AMOUNT_PORT, amount).write(SHIFT_DATA_PORT, first).write(
            SHIFT_DATA_PORT,
            second,
        ).read(SHIFT_RESULT_PORT) == ((word(second, first) * pow2((amount % 8) as nat)) / 256)
            % 256,
{
    lemma2_to64();
    let w = word(second, first);
    let a = amount % 8;
    let after = ports.write(SHIFT_AMOUNT_PORT, amount).write(SHIFT_DATA_PORT, first).write(
        SHIFT_DATA_PORT,
        second,
    );
    assert(after.shift_register == w);
    assert(after.shift_amount == a);
    assert(a < 8 ==> (if a == 0 {
        (w * 1 / 256) % 256 == (w / 256) % 256
    } else if a == 1 {
        (w * 2 / 256) % 256 == (w / 128) % 256
    } else if a == 2 {
        (w * 4 / 256) % 256 == (w / 64) % 256
    } else if a == 3 {
        (w * 8 / 256) % 256 == (w / 32) % 256
    } else if a == 4 {
        (w * 16 / 256) % 256 == (w / 16) % 256
    } else if a == 5 {
        (w * 32 / 256) % 256 == (w / 8) % 256
    } else if a == 6 {
        (w * 64 / 256) % 256 == (w / 4) % 256
    } else {
        (w * 128 / 256) % 256 == (w / 2) % 256
    })) by (bit_vector);
}

/// Setting an input bit and then clearing it leaves every other bit of that
/// port, and everything else on the bus, as it was: the port reads as it
/// did before with the one bit clear.
pub proof fn lemma_input_bit_round_trip(bus: Bus, port: u8, bit: u8, other: u8)
    requires
        port == INPUT_PORT_1 || port == INPUT_PORT_2,
        bit < 8,
        other < 8,
    ensures
        ({
            let after = bus.with_input_bit(port, bit, true).with_input_bit(port, bit, false);
            &&& after == bus.with_input_bit(port, bit, false)
            &&& after.bytes == bus.bytes
            &&& after.ports.shift_amount == bus.ports.shift_amount
            &&& after.ports.shift_register == bus.ports.shift_register
            &&& port == INPUT_PORT_1 ==> after.ports.input_2 == bus.ports.input_2
            &&& port == INPUT_PORT_2 ==> after.ports.input_1 == bus.ports.input_1
            &&& !bit_is_set(after.port_in(port), bit)
            &&& other != bit ==> bit_is_set(after.port_in(port), other) == bit_is_set(
                bus.port_in(port),
                other,
            )
        }),
{
    let v = bus.port_in(port);
    lemma_set_then_clear(v, bit);
    lemma_with_bit(v, bit, false, other);
    lemma_with_bit(v, bit, false, bit);
}

} // verus!
