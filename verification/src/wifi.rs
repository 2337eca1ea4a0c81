//! The DSi wifi firmware image format and SDIO command arguments.
use vstd::prelude::*;
use crate::bytes::{le_u16_at, le_u32_at, read_le_u16, read_le_u32};

verus! {

/// Offset of the firmware count in a firmware bundle.
pub const FIRMWARE_COUNT_OFFSET: usize = 0xa2;

/// Offset of the first firmware entry (32 bytes each) of a bundle.
pub const FIRMWARE_TABLE_OFFSET: usize = 0xa4;

/// Size of one firmware entry.
pub const FIRMWARE_ENTRY_LEN: usize = 32;

/// Index of the first of the first `count` entries at or after `i` whose
/// version byte (at offset 8) is `version`; `count` when there is none.
pub open spec fn first_matching_entry(fw: Seq<u8>, version: u8, count: int, i: int) -> int
    decreases count - i,
{
    if i >= count {
        count
    } else if 0xa4 + 8 + 32 * i < fw.len() && fw[0xa4 + 8 + 32 * i] == version {
        i
    } else {
        first_matching_entry(fw, version, count, i + 1)
    }
}

proof fn lemma_first_matching_entry(fw: Seq<u8>, version: u8, count: int, i: int)
    requires
        i <= count,
    ensures
        i <= first_matching_entry(fw, version, count, i) <= count,
        first_matching_entry(fw, version, count, i) < count ==> {
            let k = first_matching_entry(fw, version, count, i);
            0xa4 + 8 + 32 * k < fw.len() && fw[0xa4 + 8 + 32 * k] == version
        },
    decreases count - i,
{
    if i < count && !(0xa4 + 8 + 32 * i < fw.len() && fw[0xa4 + 8 + 32 * i] == version) {
        lemma_first_matching_entry(fw, version, count, i + 1);
    }
}

/// Where the firmware for a card of `version` starts in the bundle `fw`: the
/// offset stored in the first entry whose version byte matches, when the bundle
/// holds such an entry with a complete offset field and the offset lies within
/// the bundle.
pub open spec fn firmware_start(fw: Seq<u8>, version: u8) -> Option<int> {
    if fw.len() <= 0xa2 {
        None
    } else {
        let count = fw[0xa2] as int;
        let k = first_matching_entry(fw, version, count, 0);
        let entry = 0xa4 + 32 * k;
        if k >= count || entry + 4 > fw.len() {
            None
        } else {
            let off = le_u32_at(fw, entry);
            if off > fw.len() {
                None
            } else {
                Some(off)
            }
        }
    }
}

/// The part of the firmware bundle `firmware` that holds the firmware for a
/// card of version `version`, from its start to the end of the bundle.
pub fn find_firmware_for_card(version: u8, firmware: &[u8]) -> (r: Option<&[u8]>)
    ensures
        firmware_start(firmware@, version) is None <==> r is None,
        r matches Some(s) ==> s@ == firmware@.subrange(
            firmware_start(firmware@, version)->0,
            firmware@.len() as int,
        ),
{
    if firmware.len() <= FIRMWARE_COUNT_OFFSET {
        return None;
    }
    let count: usize = firmware[FIRMWARE_COUNT_OFFSET] as usize;
    let mut i: usize = 0;
    while i < count
        invariant
            i <= count,
            count == firmware@[0xa2] as int,
            firmware@.len() > 0xa2,
            first_matching_entry(firmware@, version, count as int, 0) == first_matching_entry(
                firmware@,
                version,
                count as int,
                i as int,
            ),
        ensures
            i <= count,
            first_matching_entry(firmware@, version, count as int, 0) == if i < count {
                i as int
            } else {
                count as int
            },
        decreases count - i,
    {
        let pos: usize = FIRMWARE_TABLE_OFFSET + 8 + i * FIRMWARE_ENTRY_LEN;
        if pos < firmware.len() && firmware[pos] == version {
            assert(first_matching_entry(firmware@, version, count as int, i as int) == i);
            break;
        }
        i = i + 1;
    }
    proof {
        lemma_first_matching_entry(firmware@, version, count as int, i as int);
    }
    if i >= count {
        return None;
    }
    let entry: usize = FIRMWARE_TABLE_OFFSET + i * FIRMWARE_ENTRY_LEN;
    if entry > firmware.len() || firmware.len() - entry < 4 {
        return None;
    }
    let offset: usize = read_le_u32(firmware, entry) as usize;
    if offset > firmware.len() {
        return None;
    }
    Some(&firmware[offset..firmware.len()])
}

/// Where the interest area address is stored in the firmware image `fw`: after
/// the 4-byte header, the table of identifiers (8 bytes each, their number in
/// header byte 1) and the number of bytes the header's halfword announces.
pub open spec fn interest_slot(fw: Seq<u8>) -> int {
    le_u16_at(fw, 2) + 4 + fw[1] * 8
}

/// The address of the firmware's interest area, when the image is long enough
/// to hold it and it is not 0.
pub fn find_interest_addr(firmware: &[u8]) -> (r: Option<u32>)
    ensures
        r is None <==> (firmware@.len() < 4 || interest_slot(firmware@) + 4 > firmware@.len()
            || le_u32_at(firmware@, interest_slot(firmware@)) == 0),
        r matches Some(a) ==> a == le_u32_at(firmware@, interest_slot(firmware@)) && a != 0,
{
    if firmware.len() < 4 {
        return None;
    }
    let id_count: usize = firmware[1] as usize;
    let skip: usize = read_le_u16(firmware, 2) as usize;
    let offset: usize = skip + 4 + id_count * 8;
    if offset > firmware.len() || firmware.len() - offset < 4 {
        return None;
    }
    let value: u32 = read_le_u32(firmware, offset);
    if value == 0 {
        None
    } else {
        Some(value)
    }
}

/// The four loadable parts of a firmware image.
#[derive(Clone, Copy)]
pub enum FirmwarePart {
    PartA,
    PartB,
    PartC,
    PartD,
}

impl FirmwarePart {
    /// Position of the part's entry in the image's part table.
    pub open spec fn spec_index(self) -> int {
        match self {
            FirmwarePart::PartA => 0,
            FirmwarePart::PartB => 1,
            FirmwarePart::PartC => 2,
            FirmwarePart::PartD => 3,
        }
    }

    /// Position of the part's entry in the image's part table.
    pub fn index(&self) -> (i: usize)
        ensures
            i == self.spec_index(),
    {
        match self {
            FirmwarePart::PartA => 0,
            FirmwarePart::PartB => 1,
            FirmwarePart::PartC => 2,
            FirmwarePart::PartD => 3,
        }
    }
}

/// Start of the 16-byte table entry of `part`: offset, length, flags and load
/// address, each a little-endian word.
pub open spec fn part_entry(part: FirmwarePart) -> int {
    4 + part.spec_index() * 16
}

/// The image holds a complete table entry for `part`.
pub open spec fn part_entry_present(fw: Seq<u8>, part: FirmwarePart) -> bool {
    part_entry(part) + 16 <= fw.len()
}

/// The part of the image a complete table entry describes lies inside it.
pub open spec fn part_in_image(fw: Seq<u8>, part: FirmwarePart) -> bool {
    let e = part_entry(part);
    le_u32_at(fw, e) + le_u32_at(fw, e + 4) <= fw.len()
}

/// The bytes of `part` in the firmware image and the address they are loaded
/// to, when the image holds the part's table entry and the part itself.
pub fn get_wifi_part<'a>(firmware: &'a [u8], part: FirmwarePart) -> (r: Option<(&'a [u8], u32)>)
    ensures
        r is None <==> !(part_entry_present(firmware@, part) && part_in_image(firmware@, part)),
        r matches Some((bytes, dest)) ==> {
            let e = part_entry(part);
            &&& bytes@ == firmware@.subrange(
                le_u32_at(firmware@, e),
                le_u32_at(firmware@, e) + le_u32_at(firmware@, e + 4),
            )
            &&& dest == le_u32_at(firmware@, e + 12)
        },
{
    let entry: usize = 4 + part.index() * 16;
    if entry > firmware.len() || firmware.len() - entry < 16 {
        return None;
    }
    let offset: usize = read_le_u32(firmware, entry) as usize;
    let len: usize = read_le_u32(firmware, entry + 4) as usize;
    let destination: u32 = read_le_u32(firmware, entry + 12);
    if offset > firmware.len() || len > firmware.len() - offset {
        return None;
    }
    Some((&firmware[offset..offset + len], destination))
}

/// The two SDIO functions of the wifi card.
#[derive(Clone, Copy)]
pub enum SDIOFunc {
    Zero,
    One,
}

impl SDIOFunc {
    /// Function number.
    pub open spec fn number(self) -> int {
        match self {
            SDIOFunc::Zero => 0,
            SDIOFunc::One => 1,
        }
    }

    /// The function-number field of a CMD52 argument (bits 28..31).
    pub fn bits(&self) -> (b: u32)
        ensures
            b == self.number() * 0x1000_0000,
    {
        match self {
            SDIOFunc::Zero => 0,
            SDIOFunc::One => 0x1000_0000u32,
        }
    }
}

/// Argument of a CMD52 that reads the byte at `addr` of function `func`: the
/// function number, then the 17-bit address in bits 9..26.
pub fn sdio_read_arg(func: SDIOFunc, addr: u32) -> (arg: u32)
    ensures
        arg == func.number() * 0x1000_0000 + (addr % 0x2_0000) * 0x200,
{
    let f: u32 = func.bits();
    let a: u32 = (addr & 0x1FFFFu32) << 9u32;
    assert(a == (addr % 0x2_0000) * 0x200) by (bit_vector)
        requires
            a == (addr & 0x1FFFFu32) << 9u32,
    ;
    assert(f | a == f + a) by (bit_vector)
        requires
            f == 0 || f == 0x1000_0000,
            a < 0x400_0000,
    ;
    f | a
}

/// Argument of a CMD52 that writes `value` to the byte at `addr` of function
/// `func`: the read argument plus the write flag (bit 31) and the value.
pub fn sdio_write_arg(func: SDIOFunc, addr: u32, value: u8) -> (arg: u32)
    ensures
        arg == 0x8000_0000 + func.number() * 0x1000_0000 + (addr % 0x2_0000) * 0x200 + value,
{
    let base: u32 = sdio_read_arg(func, addr);
    let r: u32 = base | (1u32 << 31u32) | (value as u32);
    assert(r == 0x8000_0000 + base + value) by (bit_vector)
        requires
            r == base | (1u32 << 31u32) | (value as u32),
            base % 0x200 == 0,
            base < 0x2000_0000,
    ;
    r
}

/// Length of a card-memory transfer of `len` bytes: rounded up to whole words.
pub fn padded_transfer_len(len: usize) -> (r: u32)
    requires
        len + 3 <= u32::MAX,
    ensures
        r % 4 == 0,
        len <= r < len + 4,
{
    let l: u32 = len as u32 + 3;
    let r: u32 = l & !3u32;
    assert(r % 4 == 0 && l - 3 <= r <= l) by (bit_vector)
        requires
            r == l & !3u32,
            l >= 3,
    ;
    r
}

/// Most bytes written to card memory by one transfer when uploading a binary.
pub const UPLOAD_CHUNK_LEN: usize = 0x1F0;

/// One transfer of a binary upload: bytes `start..end` of the binary, written
/// to card address `addr`.
pub struct UploadChunk {
    pub addr: u32,
    pub start: usize,
    pub end: usize,
}

/// The transfers that upload a binary of `len` bytes to card address `addr`:
/// consecutive pieces of `UPLOAD_CHUNK_LEN` bytes (the last one shorter), each
/// written at `addr` plus its offset in the binary. The address of every piece
/// must fit in 32 bits.
pub fn upload_chunks(addr: u32, len: usize) -> (chunks: Vec<UploadChunk>)
    requires
        len > 0 ==> addr + ((len - 1) / (UPLOAD_CHUNK_LEN as int)) * UPLOAD_CHUNK_LEN <= u32::MAX,
    ensures
        chunks@.len() == (len + UPLOAD_CHUNK_LEN - 1) / (UPLOAD_CHUNK_LEN as int),
        forall|i: int|
            #![trigger chunks@[i]]
            0 <= i < chunks@.len() ==> {
                &&& chunks@[i].start == i * UPLOAD_CHUNK_LEN
                &&& chunks@[i].end == if len < (i + 1) * UPLOAD_CHUNK_LEN {
                    len as int
                } else {
                    (i + 1) * UPLOAD_CHUNK_LEN
                }
                &&& chunks@[i].addr == addr + i * UPLOAD_CHUNK_LEN
            },
{
    let mut chunks: Vec<UploadChunk> = Vec::new();
    let mut start: usize = 0;
    let ghost mut i: int = 0;
    while start < len
        invariant
            start <= len,
            start < len ==> start == i * UPLOAD_CHUNK_LEN,
            start < len ==> i < (len + UPLOAD_CHUNK_LEN - 1) / (UPLOAD_CHUNK_LEN as int),
            start == len ==> i == (len + UPLOAD_CHUNK_LEN - 1) / (UPLOAD_CHUNK_LEN as int),
            0 <= i,
            len > 0 ==> addr + ((len - 1) / (UPLOAD_CHUNK_LEN as int)) * UPLOAD_CHUNK_LEN <= u32::MAX,
            chunks@.len() == i,
            forall|j: int|
                #![trigger chunks@[j]]
                0 <= j < i ==> {
                    &&& chunks@[j].start == j * UPLOAD_CHUNK_LEN
                    &&& chunks@[j].end == if len < (j + 1) * UPLOAD_CHUNK_LEN {
                        len as int
                    } else {
                        (j + 1) * UPLOAD_CHUNK_LEN
                    }
                    &&& chunks@[j].addr == addr + j * UPLOAD_CHUNK_LEN
                },
        decreases len - start,
    {
        let end: usize = if len - start < UPLOAD_CHUNK_LEN {
            len
        } else {
            start + UPLOAD_CHUNK_LEN
        };
        assert(addr + start <= u32::MAX) by (nonlinear_arith)
            requires
                start == i * UPLOAD_CHUNK_LEN,
                start < len,
                i >= 0,
                addr + ((len - 1) / (UPLOAD_CHUNK_LEN as int)) * UPLOAD_CHUNK_LEN <= u32::MAX,
        ;
        chunks.push(UploadChunk { addr: addr + start as u32, start, end });
        proof {
            i = i + 1;
        }
        if end == len {
            assert(i == (len + UPLOAD_CHUNK_LEN - 1) / (UPLOAD_CHUNK_LEN as int)) by (nonlinear_arith)
                requires
                    start == (i - 1) * UPLOAD_CHUNK_LEN,
                    0 < len - start <= UPLOAD_CHUNK_LEN,
            ;
        } else {
            assert(i < (len + UPLOAD_CHUNK_LEN - 1) / (UPLOAD_CHUNK_LEN as int)) by (nonlinear_arith)
                requires
                    start == (i - 1) * UPLOAD_CHUNK_LEN,
                    len - start > UPLOAD_CHUNK_LEN,
            ;
        }
        start = end;
    }
    chunks
}

/// Where a part lies in a firmware image and where it is loaded: its start,
/// its end and its load address, when the image holds its table entry and the
/// part itself.
pub open spec fn spec_part_location(fw: Seq<u8>, part: FirmwarePart) -> Option<(int, int, u32)> {
    let e = part_entry(part);
    if part_entry_present(fw, part) && part_in_image(fw, part) {
        Some((le_u32_at(fw, e), le_u32_at(fw, e) + le_u32_at(fw, e + 4), le_u32_at(fw, e + 12) as u32))
    } else {
        None
    }
}

/// Where a part lies in a firmware image and where it is loaded.
pub fn part_location(fw: &[u8], part: FirmwarePart) -> (r: Option<(usize, usize, u32)>)
    ensures
        match spec_part_location(fw@, part) {
            Some((a, b, d)) => r == Some((a as usize, b as usize, d)) && 0 <= a <= b <= fw@.len(),
            None => r is None,
        },
{
    let entry: usize = 4 + part.index() * 16;
    if entry > fw.len() || fw.len() - entry < 16 {
        return None;
    }
    let offset: usize = read_le_u32(fw, entry) as usize;
    let len: usize = read_le_u32(fw, entry + 4) as usize;
    let destination: u32 = read_le_u32(fw, entry + 12);
    if offset > fw.len() || len > fw.len() - offset {
        return None;
    }
    Some((offset, offset + len, destination))
}

/// Where the wifi bring-up stands: the step whose outcome it waits for.
#[derive(Clone, Copy, PartialEq, Eq, Structural, Debug)]
pub enum WifiPhase {
    RestartCard,
    InitFunc0,
    InitFunc1,
    PartD,
    PartC,
    Execute,
    PartA,
    PartB,
    WriteEntry,
    WriteMode,
    WriteFlags,
    StartFirmware,
    WaitReady,
    Done,
}

/// What the driver does next in the wifi bring-up. Each action but the last
/// reports back whether it failed.
#[derive(Clone, Copy, PartialEq, Eq, Structural, Debug)]
pub enum WifiAction {
    /// Power-cycle and re-identify the card.
    RestartCard,
    /// Configure SDIO function 0.
    InitFunc0,
    /// Configure SDIO function 1.
    InitFunc1,
    /// Write bytes `start..end` of the bundle to card memory at `dest`.
    Upload { dest: u32, start: usize, end: usize },
    /// Stream bytes `start..end` of the bundle to the card's decompressor,
    /// which unpacks them to `dest`.
    UploadLz { dest: u32, start: usize, end: usize },
    /// Run the code at `entry` on the card with argument `arg`.
    Execute { entry: u32, arg: u32 },
    /// Write a little-endian word to card memory.
    WriteWord { addr: u32, value: u32 },
    /// Tell the card to start its firmware.
    StartFirmware,
    /// Wait until the word at `addr` in card memory reads 1.
    WaitReady { addr: u32 },
    /// The bring-up ended with this code: 0 on success.
    Finished(u32),
}

/// The wifi bring-up: the card restart, the firmware upload and start.
#[derive(Clone, Copy, PartialEq, Eq, Structural, Debug)]
pub struct WifiBringUp {
    pub phase: WifiPhase,
    /// Where the card's firmware starts in the bundle.
    pub fw_start: usize,
    /// Card address of the firmware's interest area.
    pub interest: u32,
    /// Load address of part C.
    pub dest_c: u32,
    /// Load address of part B.
    pub dest_b: u32,
    /// The code the bring-up ended with, once it ended.
    pub result: u32,
}

/// The firmware of the card inside the bundle, from its recorded start on.
pub open spec fn card_firmware(bundle: Seq<u8>, fw_start: int) -> Seq<u8> {
    bundle.subrange(fw_start, bundle.len() as int)
}

/// The action that uploads `part` of the firmware starting at `fw_start` in
/// `bundle`, or `None` when the image lacks it.
pub open spec fn spec_part_upload(bundle: Seq<u8>, fw_start: int, part: FirmwarePart, lz: bool) -> Option<(WifiAction, u32)> {
    if fw_start > bundle.len() {
        None
    } else {
        match spec_part_location(card_firmware(bundle, fw_start), part) {
            Some((a, b, d)) => Some(
                (
                    if lz {
                        WifiAction::UploadLz { dest: d, start: (fw_start + a) as usize, end: (fw_start + b) as usize }
                    } else {
                        WifiAction::Upload { dest: d, start: (fw_start + a) as usize, end: (fw_start + b) as usize }
                    },
                    d,
                ),
            ),
            None => None,
        }
    }
}

impl WifiBringUp {
    /// A bring-up that starts by restarting the card.
    pub fn new() -> (r: (WifiBringUp, WifiAction))
        ensures
            r.0.phase == WifiPhase::RestartCard,
            r.0.fw_start == 0 && r.0.interest == 0 && r.0.dest_c == 0 && r.0.dest_b == 0,
            r.0.result == 0,
            r.1 == WifiAction::RestartCard,
    {
        (
            WifiBringUp { phase: WifiPhase::RestartCard, fw_start: 0, interest: 0, dest_c: 0, dest_b: 0, result: 0 },
            WifiAction::RestartCard,
        )
    }

    /// The bring-up ends with `code`: everything else it carries stays.
    pub open spec fn finished(self, next: WifiBringUp, act: WifiAction, code: u32) -> bool {
        &&& next == (WifiBringUp { phase: WifiPhase::Done, result: code, ..self })
        &&& act == WifiAction::Finished(code)
    }

    /// The bring-up goes on to `phase` with `act`: everything else it carries
    /// stays.
    pub open spec fn moves(self, next: WifiBringUp, act: WifiAction, phase: WifiPhase, a: WifiAction) -> bool {
        &&& next == (WifiBringUp { phase, ..self })
        &&& act == a
    }

    fn finish(&mut self, code: u32) -> (act: WifiAction)
        ensures
            old(self).finished(*final(self), act, code),
    {
        self.phase = WifiPhase::Done;
        self.result = code;
        WifiAction::Finished(code)
    }

    /// The next part upload, or the end with `code` when the image lacks the
    /// part.
    pub open spec fn spec_upload_or_fail(self, bundle: Seq<u8>, part: FirmwarePart, lz: bool, code: u32, phase: WifiPhase, next: WifiBringUp, act: WifiAction) -> bool {
        match spec_part_upload(bundle, self.fw_start as int, part, lz) {
            Some((a, _)) => self.moves(next, act, phase, a),
            None => self.finished(next, act, code),
        }
    }

    /// The upload of part C or B, whose load address the bring-up keeps for
    /// later steps; the end with `code` when the image lacks the part.
    pub open spec fn spec_upload_keeping(self, bundle: Seq<u8>, part: FirmwarePart, code: u32, phase: WifiPhase, next: WifiBringUp, act: WifiAction) -> bool {
        match spec_part_upload(bundle, self.fw_start as int, part, false) {
            Some((a, d)) => {
                &&& act == a
                &&& next == (if part == FirmwarePart::PartC {
                    WifiBringUp { phase, dest_c: d, ..self }
                } else {
                    WifiBringUp { phase, dest_b: d, ..self }
                })
            },
            None => self.finished(next, act, code),
        }
    }

    /// One step of the bring-up: the outcome of the last action decides the
    /// next. `bundle` is the firmware bundle and `version` the card version.
    /// Only the identification of the card's firmware sets where it starts and
    /// its interest address, and only the uploads of parts C and B set their
    /// load addresses; every end records its code.
    pub open spec fn step_spec(self, bundle: Seq<u8>, version: u8, failed: bool, next: WifiBringUp, act: WifiAction) -> bool {
        match self.phase {
            WifiPhase::RestartCard => if failed {
                self.finished(next, act, 1)
            } else {
                self.moves(next, act, WifiPhase::InitFunc0, WifiAction::InitFunc0)
            },
            WifiPhase::InitFunc0 => if failed {
                self.finished(next, act, 2)
            } else {
                self.moves(next, act, WifiPhase::InitFunc1, WifiAction::InitFunc1)
            },
            WifiPhase::InitFunc1 => if failed {
                self.finished(next, act, 3)
            } else {
                match firmware_start(bundle, version) {
                    None => self.finished(next, act, 4),
                    Some(start) => {
                        let fw = bundle.subrange(start, bundle.len() as int);
                        if fw.len() < 4 || interest_slot(fw) + 4 > fw.len() || le_u32_at(fw, interest_slot(fw)) == 0 {
                            self.finished(next, act, 5)
                        } else {
                            let found = WifiBringUp {
                                fw_start: start as usize,
                                interest: le_u32_at(fw, interest_slot(fw)) as u32,
                                ..self
                            };
                            if found.interest == 0xFFFF_FFFF {
                                found.moves(next, act, WifiPhase::StartFirmware, WifiAction::StartFirmware)
                            } else {
                                found.spec_upload_or_fail(bundle, FirmwarePart::PartD, false, 6, WifiPhase::PartD, next, act)
                            }
                        }
                    },
                }
            },
            WifiPhase::PartD => if failed {
                self.finished(next, act, 6)
            } else {
                self.spec_upload_keeping(bundle, FirmwarePart::PartC, 7, WifiPhase::PartC, next, act)
            },
            WifiPhase::PartC => if failed {
                self.finished(next, act, 7)
            } else {
                self.moves(next, act, WifiPhase::Execute, WifiAction::Execute {
                    entry: ((self.dest_c + 0x40_0000) % 0x1_0000_0000) as u32,
                    arg: self.dest_c,
                })
            },
            WifiPhase::Execute => if failed {
                self.finished(next, act, 8)
            } else {
                self.spec_upload_or_fail(bundle, FirmwarePart::PartA, true, 9, WifiPhase::PartA, next, act)
            },
            WifiPhase::PartA => if failed {
                self.finished(next, act, 9)
            } else {
                self.spec_upload_keeping(bundle, FirmwarePart::PartB, 10, WifiPhase::PartB, next, act)
            },
            WifiPhase::PartB => if failed {
                self.finished(next, act, 10)
            } else {
                self.moves(next, act, WifiPhase::WriteEntry, WifiAction::WriteWord {
                    addr: ((self.interest + 0x18) % 0x1_0000_0000) as u32,
                    value: self.dest_b,
                })
            },
            WifiPhase::WriteEntry => if failed {
                self.finished(next, act, 11)
            } else {
                self.moves(next, act, WifiPhase::WriteMode, WifiAction::WriteWord {
                    addr: ((self.interest + 0x6C) % 0x1_0000_0000) as u32,
                    value: 0x80,
                })
            },
            WifiPhase::WriteMode => if failed {
                self.finished(next, act, 11)
            } else {
                self.moves(next, act, WifiPhase::WriteFlags, WifiAction::WriteWord {
                    addr: ((self.interest + 0x74) % 0x1_0000_0000) as u32,
                    value: 0x63,
                })
            },
            WifiPhase::WriteFlags => if failed {
                self.finished(next, act, 11)
            } else {
                self.moves(next, act, WifiPhase::StartFirmware, WifiAction::StartFirmware)
            },
            WifiPhase::StartFirmware => if failed {
                self.finished(next, act, 12)
            } else {
                self.moves(next, act, WifiPhase::WaitReady, WifiAction::WaitReady {
                    addr: ((self.interest + 0x58) % 0x1_0000_0000) as u32,
                })
            },
            WifiPhase::WaitReady => self.finished(next, act, 0),
            WifiPhase::Done => next == self && act == WifiAction::Finished(self.result),
        }
    }

    fn upload_or_fail(&mut self, bundle: &[u8], part: FirmwarePart, lz: bool, code: u32, phase: WifiPhase) -> (act: WifiAction)
        ensures
            old(self).spec_upload_or_fail(bundle@, part, lz, code, phase, *final(self), act),
            spec_part_upload(bundle@, old(self).fw_start as int, part, lz) matches Some((_, d)) ==> act
                matches WifiAction::Upload { dest, .. } ==> dest == d,
            spec_part_upload(bundle@, old(self).fw_start as int, part, lz) matches Some((_, d)) ==> act
                matches WifiAction::UploadLz { dest, .. } ==> dest == d,
    {
        if self.fw_start > bundle.len() {
            return self.finish(code);
        }
        let fw = &bundle[self.fw_start..bundle.len()];
        assert(fw@ == card_firmware(bundle@, self.fw_start as int));
        match part_location(fw, part) {
            Some((a, b, d)) => {
                self.phase = phase;
                let start: usize = self.fw_start + a;
                let end: usize = self.fw_start + b;
                if lz {
                    WifiAction::UploadLz { dest: d, start, end }
                } else {
                    WifiAction::Upload { dest: d, start, end }
                }
            },
            None => self.finish(code),
        }
    }

    /// Takes the outcome of the last action and decides the next one.
    pub fn step(&mut self, bundle: &[u8], version: u8, failed: bool) -> (act: WifiAction)
        ensures
            old(self).step_spec(bundle@, version, failed, *final(self), act),
    {
        match self.phase {
            WifiPhase::RestartCard => {
                if failed {
                    return self.finish(1);
                }
                self.phase = WifiPhase::InitFunc0;
                WifiAction::InitFunc0
            },
            WifiPhase::InitFunc0 => {
                if failed {
                    return self.finish(2);
                }
                self.phase = WifiPhase::InitFunc1;
                WifiAction::InitFunc1
            },
            WifiPhase::InitFunc1 => {
                if failed {
                    return self.finish(3);
                }
                let fw = match find_firmware_for_card(version, bundle) {
                    Some(fw) => fw,
                    None => {
                        return self.finish(4);
                    },
                };
                let interest = match find_interest_addr(fw) {
                    Some(a) => a,
                    None => {
                        return self.finish(5);
                    },
                };
                self.fw_start = bundle.len() - fw.len();
                self.interest = interest;
                proof {
                    let start = firmware_start(bundle@, version)->0;
                    assert(self.fw_start == start);
                }
                if interest != 0xFFFF_FFFF {
                    self.upload_or_fail(bundle, FirmwarePart::PartD, false, 6, WifiPhase::PartD)
                } else {
                    self.phase = WifiPhase::StartFirmware;
                    WifiAction::StartFirmware
                }
            },
            WifiPhase::PartD => {
                if failed {
                    return self.finish(6);
                }
                let act = self.upload_or_fail(bundle, FirmwarePart::PartC, false, 7, WifiPhase::PartC);
                if let WifiAction::Upload { dest, .. } = act {
                    self.dest_c = dest;
                }
                act
            },
            WifiPhase::PartC => {
                if failed {
                    return self.finish(7);
                }
                self.phase = WifiPhase::Execute;
                WifiAction::Execute { entry: self.dest_c.wrapping_add(0x40_0000), arg: self.dest_c }
            },
            WifiPhase::Execute => {
                if failed {
                    return self.finish(8);
                }
                self.upload_or_fail(bundle, FirmwarePart::PartA, true, 9, WifiPhase::PartA)
            },
            WifiPhase::PartA => {
                if failed {
                    return self.finish(9);
                }
                let act = self.upload_or_fail(bundle, FirmwarePart::PartB, false, 10, WifiPhase::PartB);
                if let WifiAction::Upload { dest, .. } = act {
                    self.dest_b = dest;
                }
                act
            },
            WifiPhase::PartB => {
                if failed {
                    return self.finish(10);
                }
                self.phase = WifiPhase::WriteEntry;
                WifiAction::WriteWord { addr: self.interest.wrapping_add(0x18), value: self.dest_b }
            },
            WifiPhase::WriteEntry => {
                if failed {
                    return self.finish(11);
                }
                self.phase = WifiPhase::WriteMode;
                WifiAction::WriteWord { addr: self.interest.wrapping_add(0x6C), value: 0x80 }
            },
            WifiPhase::WriteMode => {
                if failed {
                    return self.finish(11);
                }
                self.phase = WifiPhase::WriteFlags;
                WifiAction::WriteWord { addr: self.interest.wrapping_add(0x74), value: 0x63 }
            },
            WifiPhase::WriteFlags => {
                if failed {
                    return self.finish(11);
                }
                self.phase = WifiPhase::StartFirmware;
                WifiAction::StartFirmware
            },
            WifiPhase::StartFirmware => {
                if failed {
                    return self.finish(12);
                }
                self.phase = WifiPhase::WaitReady;
                WifiAction::WaitReady { addr: self.interest.wrapping_add(0x58) }
            },
            WifiPhase::WaitReady => self.finish(0),
            WifiPhase::Done => WifiAction::Finished(self.result),
        }
    }
}

/// A bring-up reports success only from its last step, after the firmware was
/// started and reported ready; every failure carries a nonzero code.
pub proof fn law_wifi_success_only_at_end(s: WifiBringUp, bundle: Seq<u8>, version: u8, failed: bool, next: WifiBringUp, act: WifiAction)
    requires
        s.phase != WifiPhase::Done,
        s.step_spec(bundle, version, failed, next, act),
        act == WifiAction::Finished(0),
    ensures
        s.phase == WifiPhase::WaitReady,
{
}

/// Once the bring-up has ended, it keeps reporting the same code.
pub proof fn law_wifi_done_is_final(s: WifiBringUp, bundle: Seq<u8>, version: u8, failed: bool, next: WifiBringUp, act: WifiAction)
    requires
        s.phase == WifiPhase::Done,
        s.step_spec(bundle, version, failed, next, act),
    ensures
        next == s,
        act == WifiAction::Finished(s.result),
{
}

/// The step that ends the bring-up records the code it reports, so that the
/// ended bring-up keeps reporting the code of the step that failed first.
pub proof fn law_wifi_end_records_code(s: WifiBringUp, bundle: Seq<u8>, version: u8, failed: bool, next: WifiBringUp, act: WifiAction, code: u32)
    requires
        s.step_spec(bundle, version, failed, next, act),
        act == WifiAction::Finished(code),
    ensures
        next.phase == WifiPhase::Done,
        next.result == code,
{
}

/// Where the card's firmware starts and its interest address are found once,
/// when the card has been identified; no other step changes them, so the
/// writes to the interest area and the wait for the ready word all go to the
/// address found then.
pub proof fn law_wifi_keeps_firmware_location(s: WifiBringUp, bundle: Seq<u8>, version: u8, failed: bool, next: WifiBringUp, act: WifiAction)
    requires
        s.phase != WifiPhase::InitFunc1,
        s.step_spec(bundle, version, failed, next, act),
    ensures
        next.fw_start == s.fw_start,
        next.interest == s.interest,
        act matches WifiAction::WaitReady { addr } ==> addr == ((s.interest + 0x58) % 0x1_0000_0000) as u32,
{
}

/// Mailbox command: write to card memory.
pub const MBOX_WRITE_MEMORY: u32 = 3;
/// Mailbox command: run code on the card.
pub const MBOX_EXECUTE: u32 = 4;
/// Mailbox command: start the decompressor.
pub const MBOX_LZ_START: u32 = 0xD;
/// Mailbox command: feed the decompressor.
pub const MBOX_LZ_DATA: u32 = 0xE;

/// The byte writes that put a word in the mailbox: its bytes, least
/// significant first, at consecutive addresses from 0xFC when the last one is
/// to raise the card's interrupt, else from 0.
pub fn mailbox_writes(val: u32, send_irq: bool) -> (w: [(u32, u8); 4])
    ensures
        forall|i: int|
            0 <= i < 4 ==> #[trigger] w@[i] == (
                ((if send_irq {
                    0xFCu32
                } else {
                    0u32
                }) + i) as u32,
                ((val as int / pow256(i)) % 256) as u8,
            ),
{
    let base: u32 = if send_irq {
        0xFC
    } else {
        0
    };
    let w = [
        (base, (val % 0x100) as u8),
        (base + 1, ((val / 0x100) % 0x100) as u8),
        (base + 2, ((val / 0x1_0000) % 0x100) as u8),
        (base + 3, ((val / 0x100_0000) % 0x100) as u8),
    ];
    assert(w@[0] == (base, ((val as int / pow256(0)) % 256) as u8));
    w
}

/// `256` to the power `k`, for `k` below 4.
pub open spec fn pow256(k: int) -> int {
    if k == 0 {
        1
    } else if k == 1 {
        0x100
    } else if k == 2 {
        0x1_0000
    } else {
        0x100_0000
    }
}

/// A transfer through the mailbox: the command words, then the payload bytes,
/// all but the last written to address 0 and the last to 0xFF.
pub struct MailboxMessage {
    pub words: Vec<u32>,
    pub bytes: Vec<u8>,
}

/// The payload of a transfer: the data, padded with zeros to whole words.
pub open spec fn padded_payload(data: Seq<u8>, len: int) -> Seq<u8> {
    Seq::new(len as nat, |i: int| if i < data.len() { data[i] } else { 0u8 })
}

fn padded_bytes(data: &[u8], len: u32) -> (b: Vec<u8>)
    requires
        data@.len() <= len,
    ensures
        b@ == padded_payload(data@, len as int),
{
    let mut b: Vec<u8> = Vec::new();
    let mut i: u32 = 0;
    while i < len
        invariant
            i <= len,
            data@.len() <= len,
            b@ == padded_payload(data@, i as int),
        decreases len - i,
    {
        if (i as usize) < data.len() {
            b.push(data[i as usize]);
        } else {
            b.push(0);
        }
        i = i + 1;
        assert(b@ =~= padded_payload(data@, i as int));
    }
    b
}

/// The transfer that writes `data` to card memory at `addr`; nothing for no
/// data.
pub fn memory_write_message(addr: u32, data: &[u8]) -> (m: Option<MailboxMessage>)
    requires
        data.len() + 3 <= u32::MAX,
    ensures
        data@.len() == 0 <==> m is None,
        m matches Some(msg) ==> {
            let len = msg.words@[2];
            &&& msg.words@.len() == 3
            &&& msg.words@[0] == MBOX_WRITE_MEMORY
            &&& msg.words@[1] == addr
            &&& len % 4 == 0 && data@.len() <= len < data@.len() + 4
            &&& msg.bytes@ == padded_payload(data@, len as int)
        },
{
    if data.len() == 0 {
        return None;
    }
    let len: u32 = padded_transfer_len(data.len());
    let mut words: Vec<u32> = Vec::new();
    words.push(MBOX_WRITE_MEMORY);
    words.push(addr);
    words.push(len);
    Some(MailboxMessage { words, bytes: padded_bytes(data, len) })
}

/// The transfer that feeds `data` to the card's decompressor; nothing for no
/// data.
pub fn lz_data_message(data: &[u8]) -> (m: Option<MailboxMessage>)
    requires
        data.len() + 3 <= u32::MAX,
    ensures
        data@.len() == 0 <==> m is None,
        m matches Some(msg) ==> {
            let len = msg.words@[1];
            &&& msg.words@.len() == 2
            &&& msg.words@[0] == MBOX_LZ_DATA
            &&& len % 4 == 0 && data@.len() <= len < data@.len() + 4
            &&& msg.bytes@ == padded_payload(data@, len as int)
        },
{
    if data.len() == 0 {
        return None;
    }
    let len: u32 = padded_transfer_len(data.len());
    let mut words: Vec<u32> = Vec::new();
    words.push(MBOX_LZ_DATA);
    words.push(len);
    Some(MailboxMessage { words, bytes: padded_bytes(data, len) })
}

/// The pieces a compressed part is streamed in.
pub const LZ_CHUNK_LEN: usize = 0x1F8;

} // verus!
