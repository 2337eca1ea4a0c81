//! Interrupt numbering and dispatch: which table slot an interrupt occupies,
//! how enabling and disabling change the enable registers, and which pending
//! interrupt the handler serves first.
use vstd::prelude::*;

verus! {

/// Interrupt numbers from this one on live in the auxiliary registers.
pub const AUX_INTERRUPT: u8 = 32;
/// Mask of the index within a register.
pub const INTERRUPT_INDEX_MASK: u8 = 31;

/// The interrupt sources.
#[derive(Debug, Clone, Copy, PartialEq, Eq, Structural)]
pub enum Interrupt {
    VBlank,
    HBlank,
    VCounterMatch,
    Timer0,
    Timer1,
    Timer2,
    Timer3,
    RTC,
    DMA0,
    DMA1,
    DMA2,
    DMA3,
    Keypad,
    Slot2,
    IPCSync,
    IPCEmpty,
    IPCNonEmpty,
    Slot1TransferComplete,
    Slot1IREQMC,
    HingeOpen,
    SPI,
    Wifi,
    NDMA0,
    NDMA1,
    NDMA2,
    NDMA3,
    GPIO180,
    GPIO181,
    GPIO182,
    HeadphoneConnect,
    Powerbutton,
    SoundEnableOutput,
    SDMMC,
    SDMMCData1,
    SDIO,
    SDIOData1,
    AES,
    I2C,
    MicrophoneExt,
}

impl Interrupt {
    /// The interrupt's number: its bit in the main registers, or 32 plus its
    /// bit in the auxiliary ones.
    pub open spec fn spec_number(self) -> u8 {
        match self {
            Interrupt::VBlank => 0,
            Interrupt::HBlank => 1,
            Interrupt::VCounterMatch => 2,
            Interrupt::Timer0 => 3,
            Interrupt::Timer1 => 4,
            Interrupt::Timer2 => 5,
            Interrupt::Timer3 => 6,
            Interrupt::RTC => 7,
            Interrupt::DMA0 => 8,
            Interrupt::DMA1 => 9,
            Interrupt::DMA2 => 10,
            Interrupt::DMA3 => 11,
            Interrupt::Keypad => 12,
            Interrupt::Slot2 => 13,
            Interrupt::IPCSync => 16,
            Interrupt::IPCEmpty => 17,
            Interrupt::IPCNonEmpty => 18,
            Interrupt::Slot1TransferComplete => 19,
            Interrupt::Slot1IREQMC => 20,
            Interrupt::HingeOpen => 22,
            Interrupt::SPI => 23,
            Interrupt::Wifi => 24,
            Interrupt::NDMA0 => 28,
            Interrupt::NDMA1 => 29,
            Interrupt::NDMA2 => 30,
            Interrupt::NDMA3 => 31,
            Interrupt::GPIO180 => 32,
            Interrupt::GPIO181 => 33,
            Interrupt::GPIO182 => 34,
            Interrupt::HeadphoneConnect => 37,
            Interrupt::Powerbutton => 38,
            Interrupt::SoundEnableOutput => 39,
            Interrupt::SDMMC => 40,
            Interrupt::SDMMCData1 => 41,
            Interrupt::SDIO => 42,
            Interrupt::SDIOData1 => 43,
            Interrupt::AES => 44,
            Interrupt::I2C => 45,
            Interrupt::MicrophoneExt => 46,
        }
    }

    /// The interrupt's number.
    pub fn number(self) -> (n: u8)
        ensures
            n == self.spec_number(),
    {
        match self {
            Interrupt::VBlank => 0,
            Interrupt::HBlank => 1,
            Interrupt::VCounterMatch => 2,
            Interrupt::Timer0 => 3,
            Interrupt::Timer1 => 4,
            Interrupt::Timer2 => 5,
            Interrupt::Timer3 => 6,
            Interrupt::RTC => 7,
            Interrupt::DMA0 => 8,
            Interrupt::DMA1 => 9,
            Interrupt::DMA2 => 10,
            Interrupt::DMA3 => 11,
            Interrupt::Keypad => 12,
            Interrupt::Slot2 => 13,
            Interrupt::IPCSync => 16,
            Interrupt::IPCEmpty => 17,
            Interrupt::IPCNonEmpty => 18,
            Interrupt::Slot1TransferComplete => 19,
            Interrupt::Slot1IREQMC => 20,
            Interrupt::HingeOpen => 22,
            Interrupt::SPI => 23,
            Interrupt::Wifi => 24,
            Interrupt::NDMA0 => 28,
            Interrupt::NDMA1 => 29,
            Interrupt::NDMA2 => 30,
            Interrupt::NDMA3 => 31,
            Interrupt::GPIO180 => 32,
            Interrupt::GPIO181 => 33,
            Interrupt::GPIO182 => 34,
            Interrupt::HeadphoneConnect => 37,
            Interrupt::Powerbutton => 38,
            Interrupt::SoundEnableOutput => 39,
            Interrupt::SDMMC => 40,
            Interrupt::SDMMCData1 => 41,
            Interrupt::SDIO => 42,
            Interrupt::SDIOData1 => 43,
            Interrupt::AES => 44,
            Interrupt::I2C => 45,
            Interrupt::MicrophoneExt => 46,
        }
    }
}

/// Where an interrupt lives: in the auxiliary registers or the main ones, and
/// at which bit.
#[derive(Debug, Clone, Copy, PartialEq, Eq, Structural)]
pub struct InterruptSlot {
    pub aux: bool,
    pub index: u8,
}

/// The slot of an interrupt number.
pub open spec fn spec_slot(n: u8) -> InterruptSlot {
    InterruptSlot { aux: n > INTERRUPT_INDEX_MASK, index: n % 32 }
}

/// Interrupt numbers 0 to 31 are the bits of the main registers, 32 to 63
/// those of the auxiliary (DSi) registers, in the same order.
pub proof fn law_slot_numbering(n: u8)
    requires
        n < 64,
    ensures
        spec_slot(n).aux == (n >= 32),
        spec_slot(n).index == (if n >= 32 { n - 32 } else { n as int }),
{
}

/// The slot of an interrupt: its table and its bit there.
pub fn slot_of(interrupt: Interrupt) -> (s: InterruptSlot)
    ensures
        s == spec_slot(interrupt.spec_number()),
        s.index < 32,
{
    let n: u8 = interrupt.number();
    let index: u8 = n & INTERRUPT_INDEX_MASK;
    assert(index == n % 32) by (bit_vector)
        requires
            index == n & 31u8,
    ;
    InterruptSlot { aux: n > INTERRUPT_INDEX_MASK, index }
}

/// The enable register after enabling bit `index`.
pub fn enable_bit(register: u32, index: u8) -> (r: u32)
    requires
        index < 32,
    ensures
        r == register | (1u32 << index),
{
    register | (1u32 << index)
}

/// The enable register after disabling bit `index`.
pub fn disable_bit(register: u32, index: u8) -> (r: u32)
    requires
        index < 32,
    ensures
        r == register & !(1u32 << index),
{
    register & !(1u32 << index)
}

/// `2` to the power `e`.
pub open spec fn weight(e: nat) -> nat
    decreases e,
{
    if e == 0 {
        1
    } else {
        2 * weight((e - 1) as nat)
    }
}

/// The index of the highest set bit of a positive number.
pub open spec fn highest_bit(x: nat) -> nat
    decreases x,
{
    if x <= 1 {
        0
    } else {
        1 + highest_bit(x / 2)
    }
}

/// The index of the highest set bit of a positive word.
pub fn highest_set_bit(x: u32) -> (r: u8)
    requires
        x > 0,
    ensures
        r == highest_bit(x as nat),
        r < 32,
{
    let mut v: u32 = x;
    let mut r: u8 = 0;
    assert(weight(0) == 1) by {
        reveal_with_fuel(weight, 1);
    }
    assert(weight(0) * v == v);
    while v > 1
        invariant
            1 <= v <= x,
            r + highest_bit(v as nat) == highest_bit(x as nat),
            weight(r as nat) * v <= x,
            r < 32,
        decreases v,
    {
        proof {
            lemma_highest_bit_bounds(v as nat);
        }
        assert(weight((r + 1) as nat) * (v / 2) <= x) by (nonlinear_arith)
            requires
                weight(r as nat) * v <= x,
                weight((r + 1) as nat) == 2 * weight(r as nat),
                v > 1,
        ;
        if r == 31 {
            proof {
                lemma_weight_32();
                assert(weight(32) * (v / 2) <= x);
                assert(v / 2 >= 1);
                assert(weight(32) <= weight(32) * (v / 2)) by (nonlinear_arith)
                    requires
                        v / 2 >= 1,
                ;
            }
        }
        v = v / 2;
        r = r + 1;
    }
    r
}

proof fn lemma_weight_32()
    ensures
        weight(32) == 0x1_0000_0000,
{
    reveal_with_fuel(weight, 33);
}

/// A positive number lies between the power of two of its highest bit and
/// the next power of two.
pub proof fn lemma_highest_bit_bounds(x: nat)
    requires
        x >= 1,
    ensures
        weight(highest_bit(x)) <= x < weight(highest_bit(x) + 1),
    decreases x,
{
    if x > 1 {
        lemma_highest_bit_bounds(x / 2);
    }
}

/// The interrupt the handler serves: the highest pending and enabled one of
/// the main registers, else of the auxiliary ones.
pub open spec fn spec_next_interrupt(enable: u32, request: u32, aux_enable: u32, aux_request: u32) -> Option<InterruptSlot> {
    if enable & request != 0 {
        Some(InterruptSlot { aux: false, index: highest_bit((enable & request) as nat) as u8 })
    } else if aux_enable & aux_request != 0 {
        Some(InterruptSlot { aux: true, index: highest_bit((aux_enable & aux_request) as nat) as u8 })
    } else {
        None
    }
}

/// The interrupt the handler serves next, if any.
pub fn next_interrupt(enable: u32, request: u32, aux_enable: u32, aux_request: u32) -> (s: Option<InterruptSlot>)
    ensures
        s == spec_next_interrupt(enable, request, aux_enable, aux_request),
{
    let pending: u32 = enable & request;
    if pending != 0 {
        return Some(InterruptSlot { aux: false, index: highest_set_bit(pending) });
    }
    let aux_pending: u32 = aux_enable & aux_request;
    if aux_pending != 0 {
        return Some(InterruptSlot { aux: true, index: highest_set_bit(aux_pending) });
    }
    None
}

/// The word written to a request register to acknowledge bit `index`.
pub fn acknowledge_mask(index: u8) -> (m: u32)
    requires
        index < 32,
    ensures
        m == 1u32 << index,
{
    1u32 << index
}

/// The served interrupt is the highest one pending: all pending bits lie at or
/// below it, and it is set.
pub proof fn law_serves_highest_pending(enable: u32, request: u32, aux_enable: u32, aux_request: u32)
    requires
        enable & request != 0,
    ensures
        spec_next_interrupt(enable, request, aux_enable, aux_request) matches Some(s) && !s.aux
            && weight(s.index as nat) <= (enable & request) < weight(s.index as nat + 1),
{
    let p = (enable & request) as nat;
    lemma_highest_bit_bounds(p);
    lemma_highest_bit_below_32(p);
}

proof fn lemma_highest_bit_below_32(x: nat)
    requires
        1 <= x < 0x1_0000_0000,
    ensures
        highest_bit(x) < 32,
{
    lemma_highest_bit_bounds(x);
    if highest_bit(x) >= 32 {
        lemma_weight_monotone(32, highest_bit(x));
        lemma_weight_32();
    }
}

proof fn lemma_weight_monotone(a: nat, b: nat)
    requires
        a <= b,
    ensures
        weight(a) <= weight(b),
    decreases b,
{
    if a < b {
        lemma_weight_monotone(a, (b - 1) as nat);
    }
}

} // verus!
