//! The serial protocol of the real-time clock: the register values that clock
//! a command out bit by bit, and the assembly of the bits clocked back in.
use vstd::prelude::*;

verus! {

/// Data line input.
pub const RTC_DATA_OUT: u8 = 0x01;
/// Chip select released (direction set).
pub const RTC_CS_0: u8 = 0x40;
/// Chip select asserted.
pub const RTC_CS_1: u8 = 0x44;
/// Clock low.
pub const RTC_SCK_0: u8 = 0x20;
/// Clock high.
pub const RTC_SCK_1: u8 = 0x22;
/// Data line driven by the console.
pub const RTC_DATA_SELECT: u8 = 0x10;
/// Data line driven high.
pub const RTC_SIO_1: u8 = 0x11;

/// Bit `k` (0 = most significant) of `b`.
pub open spec fn msb_bit(b: u8, k: int) -> u8 {
    ((b as int / pow2_8(7 - k)) % 2) as u8
}

/// `2` to the power `e`, for `e` up to 8.
pub open spec fn pow2_8(e: int) -> int {
    if e <= 0 {
        1
    } else if e == 1 {
        2
    } else if e == 2 {
        4
    } else if e == 3 {
        8
    } else if e == 4 {
        16
    } else if e == 5 {
        32
    } else if e == 6 {
        64
    } else if e == 7 {
        128
    } else {
        256
    }
}

/// Write `i` of the clocked-out part of a transfer of `command`: two writes
/// to start, then per bit (most significant first) one with the clock low and
/// one with it high, the data line carrying the bit.
pub open spec fn command_write(command: Seq<u8>, i: int) -> u8 {
    if i == 0 {
        RTC_CS_0 | RTC_SCK_1 | RTC_SIO_1
    } else if i == 1 {
        RTC_CS_1 | RTC_SCK_1 | RTC_SIO_1
    } else {
        let j = i - 2;
        let bit = msb_bit(command[j / 16], (j % 16) / 2);
        if j % 2 == 0 {
            RTC_CS_1 | RTC_SCK_0 | RTC_DATA_SELECT | bit
        } else {
            RTC_CS_1 | RTC_SCK_1 | RTC_DATA_SELECT | bit
        }
    }
}

/// The register writes that select the clock and shift `command` out.
pub fn command_writes(command: &[u8]) -> (w: Vec<u8>)
    requires
        command.len() * 16 + 2 <= usize::MAX,
    ensures
        w@.len() == 2 + 16 * command@.len(),
        forall|i: int| 0 <= i < w@.len() ==> #[trigger] w@[i] == command_write(command@, i),
{
    let mut w: Vec<u8> = Vec::new();
    w.push(RTC_CS_0 | RTC_SCK_1 | RTC_SIO_1);
    w.push(RTC_CS_1 | RTC_SCK_1 | RTC_SIO_1);
    let mut n: usize = 0;
    while n < command.len()
        invariant
            n <= command@.len(),
            command.len() * 16 + 2 <= usize::MAX,
            w@.len() == 2 + 16 * n,
            forall|i: int| 0 <= i < w@.len() ==> #[trigger] w@[i] == command_write(command@, i),
        decreases command@.len() - n,
    {
        let b: u8 = command[n];
        let mut k: u8 = 0;
        let mut weight: u8 = 128;
        while k < 8
            invariant
                n < command@.len(),
                b == command@[n as int],
                k <= 8,
                k < 8 ==> weight as int == pow2_8(7 - k),
                w@.len() == 2 + 16 * n + 2 * k,
                forall|i: int| 0 <= i < w@.len() ==> #[trigger] w@[i] == command_write(command@, i),
            decreases 8 - k,
        {
            let bit: u8 = (b / weight) % 2;
            let ghost base: int = 2 + 16 * n + 2 * k;
            w.push(RTC_CS_1 | RTC_SCK_0 | RTC_DATA_SELECT | bit);
            w.push(RTC_CS_1 | RTC_SCK_1 | RTC_DATA_SELECT | bit);
            proof {
                assert((base - 2) / 16 == n as int);
                assert(((base - 2) % 16) / 2 == k as int);
                assert((base + 1 - 2) / 16 == n as int);
                assert(((base + 1 - 2) % 16) / 2 == k as int);
            }
            k = k + 1;
            weight = weight / 2;
        }
        n = n + 1;
    }
    w
}

/// The register writes that clock one result byte in: per bit, clock low then
/// high; the data line is sampled after each pair.
pub fn read_byte_writes() -> (w: [u8; 2])
    ensures
        w@ == seq![RTC_CS_1 | RTC_SCK_0, RTC_CS_1 | RTC_SCK_1],
{
    let w = [RTC_CS_1 | RTC_SCK_0, RTC_CS_1 | RTC_SCK_1];
    assert(w@ =~= seq![RTC_CS_1 | RTC_SCK_0, RTC_CS_1 | RTC_SCK_1]);
    w
}

/// The write that releases the clock after a transfer.
pub const RTC_END: u8 = RTC_CS_0 | RTC_SCK_1;

/// The value of eight sampled bits, least significant first.
pub open spec fn bits_value(bits: Seq<bool>, n: int) -> int
    decreases n,
{
    if n <= 0 {
        0
    } else {
        bits_value(bits, n - 1) + if bits[n - 1] {
            pow2_8(n - 1)
        } else {
            0
        }
    }
}

/// A result byte after its eight bits were clocked in, least significant
/// first: the bits read as set are or-ed into the byte's previous value.
pub fn assemble_byte(initial: u8, bits: &[bool; 8]) -> (r: u8)
    ensures
        r == initial | (bits_value(bits@, 8) as u8),
        bits_value(bits@, 8) < 256,
{
    let mut v: u16 = 0;
    let mut i: usize = 0;
    let mut weight: u16 = 1;
    while i < 8
        invariant
            i <= 8,
            v as int == bits_value(bits@, i as int),
            v < weight,
            weight as int == pow2_8(i as int),
        decreases 8 - i,
    {
        if bits[i] {
            v = v + weight;
        }
        i = i + 1;
        weight = weight * 2;
    }
    initial | (v as u8)
}

} // verus!
