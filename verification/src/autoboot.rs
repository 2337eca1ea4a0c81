//! The boot hand-over area that earlier boot stages leave in main memory, and
//! the "Unlaunch" parameters that name the program to start.
use vstd::prelude::*;
use crate::bytes::{le_u16_at, le_u32_at, read_le_u16, read_le_u32};

verus! {

/// The little-endian 64-bit value stored at `off`.
pub open spec fn le_u64_at(b: Seq<u8>, off: int) -> int {
    le_u32_at(b, off) + le_u32_at(b, off + 4) * 0x1_0000_0000
}

fn read_le_u64(b: &[u8], off: usize) -> (r: u64)
    requires
        off + 8 <= b.len(),
    ensures
        r == le_u64_at(b@, off as int),
{
    let lo: u32 = read_le_u32(b, off);
    let hi: u32 = read_le_u32(b, off + 4);
    (hi as u64) * 0x1_0000_0000u64 + (lo as u64)
}

/// Size of the optional-boot record.
pub const OPT_BOOT_LEN: usize = 0x300;
/// Size of the official-boot record.
pub const OFFICIAL_BOOT_LEN: usize = 0x100;
/// Size of the Unlaunch record.
pub const UNLAUNCH_BOOT_LEN: usize = 0x400;
/// Size of the Unlaunch parameters, the length their checksum covers.
pub const UNLAUNCH_PARAMS_LEN: usize = 0x3F0;
/// Where the Unlaunch record starts in the hand-over area.
pub const UNLAUNCH_OFFSET: usize = 0x800;
/// Size of the whole hand-over area.
pub const BOOT_METHODS_LEN: usize = 0xC00;
/// UTF-16 units in the Unlaunch file path.
pub const FILE_PATH_UNITS: usize = 0x104;
/// Where the file path starts in the Unlaunch parameters.
pub const FILE_PATH_OFFSET: usize = 0x28;

/// The boot record of the optional (warm) boot method.
#[derive(Debug, Clone, Copy, PartialEq, Eq, Structural)]
pub struct OptBoot {
    pub title_id: u64,
    pub flags: u8,
    pub old_dev: u16,
    pub unknown: u16,
    pub crc: u16,
    pub unknown2: u16,
}

impl OptBoot {
    /// The record stored at `off`.
    pub fn parse(b: &[u8], off: usize) -> (r: OptBoot)
        requires
            off + OPT_BOOT_LEN <= b.len(),
        ensures
            r.title_id == le_u64_at(b@, off as int),
            r.flags == b@[off + 9],
            r.old_dev == le_u16_at(b@, off + 10),
            r.unknown == le_u16_at(b@, off + 12),
            r.crc == le_u16_at(b@, off + 16),
            r.unknown2 == le_u16_at(b@, off + 18),
    {
        OptBoot {
            title_id: read_le_u64(b, off),
            flags: b[off + 9],
            old_dev: read_le_u16(b, off + 10),
            unknown: read_le_u16(b, off + 12),
            crc: read_le_u16(b, off + 16),
            unknown2: read_le_u16(b, off + 18),
        }
    }
}

/// The boot record of the official boot method.
#[derive(Debug, Clone, Copy, PartialEq, Eq, Structural)]
pub struct OfficialBoot {
    pub gamecode: u32,
    pub unknown: u8,
    pub crc_length: u8,
    pub crc: u16,
    pub old_title_id: u64,
    pub new_title_id: u64,
    pub flags: u32,
    pub unknown2: u32,
}

impl OfficialBoot {
    /// The record stored at `off`.
    pub fn parse(b: &[u8], off: usize) -> (r: OfficialBoot)
        requires
            off + OFFICIAL_BOOT_LEN <= b.len(),
        ensures
            r.gamecode == le_u32_at(b@, off as int),
            r.unknown == b@[off + 4],
            r.crc_length == b@[off + 5],
            r.crc == le_u16_at(b@, off + 6),
            r.old_title_id == le_u64_at(b@, off + 8),
            r.new_title_id == le_u64_at(b@, off + 16),
            r.flags == le_u32_at(b@, off + 24),
            r.unknown2 == le_u32_at(b@, off + 28),
    {
        OfficialBoot {
            gamecode: read_le_u32(b, off),
            unknown: b[off + 4],
            crc_length: b[off + 5],
            crc: read_le_u16(b, off + 6),
            old_title_id: read_le_u64(b, off + 8),
            new_title_id: read_le_u64(b, off + 16),
            flags: read_le_u32(b, off + 24),
            unknown2: read_le_u32(b, off + 28),
        }
    }
}

/// Unlaunch flag: boot the named program at once.
pub const UNLAUNCH_BOOT: u32 = 1 << 0;
/// Unlaunch flag: use the given background colours.
pub const UNLAUNCH_USE_BG_COLORS: u32 = 1 << 1;

/// The parameters handed to Unlaunch to override its default boot choice.
#[derive(Debug, PartialEq, Eq)]
pub struct UnlaunchParams {
    pub flags: u32,
    pub upper_bg_color: u16,
    pub lower_bg_color: u16,
    /// The UTF-16 path of the program to boot.
    pub file_path: Vec<u16>,
}

/// The UTF-16 units stored from `off` on.
pub open spec fn utf16_units(b: Seq<u8>, off: int, n: int) -> Seq<u16> {
    Seq::new(n as nat, |i: int| le_u16_at(b, off + 2 * i) as u16)
}

/// The characters a UTF-16 sequence decodes to, or `None` where it holds an
/// unpaired surrogate.
pub open spec fn utf16_decode(u: Seq<u16>) -> Option<Seq<char>>
    decreases u.len(),
{
    if u.len() == 0 {
        Some(Seq::empty())
    } else if u[0] < 0xD800 || u[0] >= 0xE000 {
        match utf16_decode(u.drop_first()) {
            Some(rest) => Some(seq![u[0] as char] + rest),
            None => None,
        }
    } else if u[0] < 0xDC00 && u.len() >= 2 && 0xDC00 <= u[1] && u[1] < 0xE000 {
        match utf16_decode(u.subrange(2, u.len() as int)) {
            Some(rest) => Some(
                seq![(0x1_0000 + (u[0] - 0xD800) * 0x400 + (u[1] - 0xDC00)) as char] + rest,
            ),
            None => None,
        }
    } else {
        None
    }
}

/// `String::from_utf16`: the string the units decode to, or nothing when
/// they hold an unpaired surrogate. The contract states the standard UTF-16
/// decoding that its documentation describes.
#[verifier::external_body]
fn string_from_utf16(units: &[u16]) -> (r: Option<String>)
    ensures
        match utf16_decode(units@) {
            Some(cs) => r is Some && r->0@ == cs,
            None => r is None,
        },
{
    String::from_utf16(units).ok()
}

impl UnlaunchParams {
    /// The parameters stored at `off`.
    pub fn parse(b: &[u8], off: usize) -> (r: UnlaunchParams)
        requires
            off + UNLAUNCH_PARAMS_LEN <= b.len(),
        ensures
            r.flags == le_u32_at(b@, off as int),
            r.upper_bg_color == le_u16_at(b@, off + 4),
            r.lower_bg_color == le_u16_at(b@, off + 6),
            r.file_path@ == utf16_units(b@, off + FILE_PATH_OFFSET, FILE_PATH_UNITS as int),
    {
        let mut path: Vec<u16> = Vec::new();
        let mut i: usize = 0;
        while i < FILE_PATH_UNITS
            invariant
                i <= FILE_PATH_UNITS,
                off + UNLAUNCH_PARAMS_LEN <= b.len(),
                path@ == utf16_units(b@, off + FILE_PATH_OFFSET, i as int),
            decreases FILE_PATH_UNITS - i,
        {
            let u: u16 = read_le_u16(b, off + FILE_PATH_OFFSET + 2 * i);
            path.push(u);
            i = i + 1;
            assert(path@ =~= utf16_units(b@, off + FILE_PATH_OFFSET, i as int));
        }
        UnlaunchParams {
            flags: read_le_u32(b, off),
            upper_bg_color: read_le_u16(b, off + 4),
            lower_bg_color: read_le_u16(b, off + 6),
            file_path: path,
        }
    }

    /// The file path as a string; empty when it is not valid UTF-16.
    pub fn parse_path(&self) -> (s: String)
        ensures
            s@ == match utf16_decode(self.file_path@) {
                Some(cs) => cs,
                None => Seq::<char>::empty(),
            },
    {
        match string_from_utf16(self.file_path.as_slice()) {
            Some(s) => s,
            None => String::new(),
        }
    }
}

/// The signature that marks a valid Unlaunch record: "AutoLoadInfo".
pub open spec fn unlaunch_signature() -> Seq<u8> {
    seq![0x41u8, 0x75, 0x74, 0x6F, 0x4C, 0x6F, 0x61, 0x64, 0x49, 0x6E, 0x66, 0x6F]
}

/// The record through which a program is started with Unlaunch.
#[derive(Debug, PartialEq, Eq)]
pub struct UnlaunchBoot {
    pub signature: Vec<u8>,
    /// Length the checksum covers; should be the size of the parameters.
    pub crc_len: u16,
    /// Checksum of the parameters.
    pub crc: u16,
    pub params: UnlaunchParams,
}

impl UnlaunchBoot {
    /// The record stored at `off`.
    pub fn parse(b: &[u8], off: usize) -> (r: UnlaunchBoot)
        requires
            off + UNLAUNCH_BOOT_LEN <= b.len(),
        ensures
            r.signature@ == b@.subrange(off as int, off + 12),
            r.crc_len == le_u16_at(b@, off + 12),
            r.crc == le_u16_at(b@, off + 14),
            r.params.flags == le_u32_at(b@, off + 16),
            r.params.upper_bg_color == le_u16_at(b@, off + 20),
            r.params.lower_bg_color == le_u16_at(b@, off + 22),
            r.params.file_path@ == utf16_units(b@, off + 16 + FILE_PATH_OFFSET, FILE_PATH_UNITS as int),
    {
        let signature = crate::bytes::copy_range(b, off, off + 12);
        UnlaunchBoot {
            signature,
            crc_len: read_le_u16(b, off + 12),
            crc: read_le_u16(b, off + 14),
            params: UnlaunchParams::parse(b, off + 16),
        }
    }

    /// The record carries the signature, covers exactly the parameters, and
    /// its checksum equals `computed`, the checksum of the parameter bytes.
    pub open spec fn valid(self, computed: u16) -> bool {
        &&& self.signature@ == unlaunch_signature()
        &&& self.crc_len == UNLAUNCH_PARAMS_LEN
        &&& computed == self.crc
    }

    /// The parameters, when the record is valid. `computed` is the BIOS
    /// CRC-16 (initial value 0xFFFF) of the `crc_len` bytes that follow the
    /// header.
    pub fn parameters(&self, computed: u16) -> (p: Option<&UnlaunchParams>)
        ensures
            self.valid(computed) ==> p == Some(&self.params),
            !self.valid(computed) ==> p is None,
    {
        let sig: [u8; 12] = [0x41u8, 0x75, 0x74, 0x6F, 0x4C, 0x6F, 0x61, 0x64, 0x49, 0x6E, 0x66, 0x6F];
        assert(sig@ =~= unlaunch_signature());
        if self.signature.len() != 12 {
            return None;
        }
        let mut i: usize = 0;
        while i < 12
            invariant
                i <= 12,
                self.signature@.len() == 12,
                sig@ == unlaunch_signature(),
                forall|j: int| 0 <= j < i ==> self.signature@[j] == sig@[j],
            decreases 12 - i,
        {
            if self.signature[i] != sig[i] {
                return None;
            }
            i = i + 1;
        }
        assert(self.signature@ =~= unlaunch_signature());
        if self.crc_len != 0x3F0 {
            return None;
        }
        if computed != self.crc {
            return None;
        }
        Some(&self.params)
    }
}

/// The hand-over area: the records of the three boot methods.
#[derive(Debug, PartialEq, Eq)]
pub struct BootMethods {
    pub optional: OptBoot,
    pub official: OfficialBoot,
    pub unlaunch: UnlaunchBoot,
}

impl BootMethods {
    /// Reads the hand-over area from its bytes; `None` when they are too few.
    pub fn parse(b: &[u8]) -> (r: Option<BootMethods>)
        ensures
            b@.len() < BOOT_METHODS_LEN <==> r is None,
            r matches Some(m) ==> m.optional == OptBoot::parse_spec(b@, 0) && m.official
                == OfficialBoot::parse_spec(b@, OPT_BOOT_LEN as int) && m.unlaunch.crc_len
                == le_u16_at(b@, UNLAUNCH_OFFSET + 12) && m.unlaunch.crc == le_u16_at(
                b@,
                UNLAUNCH_OFFSET + 14,
            ) && m.unlaunch.signature@ == b@.subrange(
                UNLAUNCH_OFFSET as int,
                UNLAUNCH_OFFSET + 12,
            ),
    {
        if b.len() < BOOT_METHODS_LEN {
            return None;
        }
        Some(
            BootMethods {
                optional: OptBoot::parse(b, 0),
                official: OfficialBoot::parse(b, OPT_BOOT_LEN),
                unlaunch: UnlaunchBoot::parse(b, UNLAUNCH_OFFSET),
            },
        )
    }
}

impl OptBoot {
    /// The record stored at `off`.
    pub open spec fn parse_spec(b: Seq<u8>, off: int) -> OptBoot {
        OptBoot {
            title_id: le_u64_at(b, off) as u64,
            flags: b[off + 9],
            old_dev: le_u16_at(b, off + 10) as u16,
            unknown: le_u16_at(b, off + 12) as u16,
            crc: le_u16_at(b, off + 16) as u16,
            unknown2: le_u16_at(b, off + 18) as u16,
        }
    }
}

impl OfficialBoot {
    /// The record stored at `off`.
    pub open spec fn parse_spec(b: Seq<u8>, off: int) -> OfficialBoot {
        OfficialBoot {
            gamecode: le_u32_at(b, off) as u32,
            unknown: b[off + 4],
            crc_length: b[off + 5],
            crc: le_u16_at(b, off + 6) as u16,
            old_title_id: le_u64_at(b, off + 8) as u64,
            new_title_id: le_u64_at(b, off + 16) as u64,
            flags: le_u32_at(b, off + 24) as u32,
            unknown2: le_u32_at(b, off + 28) as u32,
        }
    }
}

} // verus!
