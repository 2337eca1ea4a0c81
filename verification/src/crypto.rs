//! AES-CTR counter arithmetic, NAND key derivation and module decryption plans.
use vstd::prelude::*;

verus! {

/// A 128-bit counter stored as four little-endian 32-bit words.
pub open spec fn key_value(k: Seq<u32>) -> int {
    k[0] + k[1] * 0x1_0000_0000 + k[2] * 0x1_0000_0000_0000_0000 + k[3]
        * 0x1_0000_0000_0000_0000_0000_0000
}

/// 2^128.
pub open spec fn two_pow_128() -> int {
    0x1_0000_0000_0000_0000int * 0x1_0000_0000_0000_0000int
}

/// Adds `add` to the 128-bit counter `key`, wrapping around at 2^128.
pub fn add_on_key(key: &mut [u32; 4], add: u32)
    ensures
        key_value(final(key)@) == (key_value(old(key)@) + add) % two_pow_128(),
{
    let s0: u64 = key[0] as u64 + add as u64;
    let w0: u32 = (s0 % 0x1_0000_0000u64) as u32;
    let c0: u64 = s0 / 0x1_0000_0000u64;
    let s1: u64 = key[1] as u64 + c0;
    let w1: u32 = (s1 % 0x1_0000_0000u64) as u32;
    let c1: u64 = s1 / 0x1_0000_0000u64;
    let s2: u64 = key[2] as u64 + c1;
    let w2: u32 = (s2 % 0x1_0000_0000u64) as u32;
    let c2: u64 = s2 / 0x1_0000_0000u64;
    let s3: u64 = key[3] as u64 + c2;
    let w3: u32 = (s3 % 0x1_0000_0000u64) as u32;
    let ghost k = key@;
    proof {
        vstd::arithmetic::div_mod::lemma_fundamental_div_mod(s0 as int, 0x1_0000_0000);
        vstd::arithmetic::div_mod::lemma_fundamental_div_mod(s1 as int, 0x1_0000_0000);
        vstd::arithmetic::div_mod::lemma_fundamental_div_mod(s2 as int, 0x1_0000_0000);
        vstd::arithmetic::div_mod::lemma_fundamental_div_mod(s3 as int, 0x1_0000_0000);
    }
    key[0] = w0;
    key[1] = w1;
    key[2] = w2;
    key[3] = w3;
    let ghost c3: int = s3 as int / 0x1_0000_0000;
    assert(two_pow_128() == 0x1_0000_0000_0000_0000_0000_0000 * 0x1_0000_0000);
    assert(key@[0] == w0 && key@[1] == w1 && key@[2] == w2 && key@[3] == w3);
    assert(w0 + c0 * 0x1_0000_0000 == k[0] + add);
    assert(w1 + c1 * 0x1_0000_0000 == k[1] + c0);
    assert(w2 + c2 * 0x1_0000_0000 == k[2] + c1);
    assert(w3 + c3 * 0x1_0000_0000 == k[3] + c2);
    assert(key_value(key@) + c3 * two_pow_128() == key_value(k) + add);
    assert(0 <= key_value(key@) < two_pow_128());
    assert(c3 == 0 || c3 == 1);
    assert((key_value(k) + add) % two_pow_128() == key_value(key@)) by {
        vstd::arithmetic::div_mod::lemma_fundamental_div_mod_converse(
            key_value(k) + add,
            two_pow_128(),
            c3,
            key_value(key@),
        );
    }
}

/// The AES-CTR counter for NAND sector `sector`: the base counter advanced by
/// 32 blocks per sector, the sector offset kept to 32 bits.
pub fn nand_sector_counter(ctr_base: &[u32; 4], sector: u32) -> (k: [u32; 4])
    ensures
        key_value(k@) == (key_value(ctr_base@) + (sector * 32) % 0x1_0000_0000) % two_pow_128(),
{
    let mut key: [u32; 4] = *ctr_base;
    let offset: u32 = ((sector as u64 * 32u64) % 0x1_0000_0000u64) as u32;
    add_on_key(&mut key, offset);
    key
}

/// Consecutive sectors use consecutive runs of 32 counter blocks, as long as
/// the sector offset fits in 32 bits.
pub proof fn law_sector_counters_advance(base: Seq<u32>, sector: u32)
    requires
        base.len() == 4,
        (sector + 1) * 32 < 0x1_0000_0000,
    ensures
        (key_value(base) + ((sector + 1) * 32) % 0x1_0000_0000) % two_pow_128() == ((key_value(base)
            + (sector * 32) % 0x1_0000_0000) % two_pow_128() + 32) % two_pow_128(),
{
    vstd::arithmetic::div_mod::lemma_add_mod_noop(
        key_value(base) + sector * 32,
        32,
        two_pow_128(),
    );
    vstd::arithmetic::div_mod::lemma_mod_twice(key_value(base) + sector * 32 + 32, two_pow_128());
    assert(32int % two_pow_128() == 32) by {
        assert(two_pow_128() > 32);
    }
}

/// The AES control word that prepares NAND decryption with key slot
/// `keyslot` (taken modulo 4): counter mode, the slot, and the key-select bit.
pub fn nand_crypt_control(keyslot: usize) -> (c: u32)
    ensures
        c == 0x2000_0000 + (keyslot % 4) * 0x400_0000 + 0x100_0000,
{
    0x2000_0000u32 + ((keyslot % 4) as u32) * 0x400_0000u32 + 0x100_0000u32
}

/// SCFG_EXT with the AES engine and the new sound circuit made accessible.
pub fn nand_scfg_ext(current: u32) -> (r: u32)
    ensures
        r == current | 0x2_0000u32 | 0x4u32,
{
    current | 0x2_0000u32 | 0x4u32
}

/// The key X of the NAND key slot derived from the console id.
pub fn nand_key_x(console_id: [u32; 2]) -> (k: [u32; 4])
    ensures
        k@ == seq![
            console_id[0],
            console_id[0] ^ 0x24EE6906u32,
            console_id[1] ^ 0xE65B601Du32,
            console_id[1],
        ],
{
    let k = [console_id[0], console_id[0] ^ 0x24EE6906u32, console_id[1] ^ 0xE65B601Du32, console_id[1]];
    assert(k@ =~= seq![
        console_id[0],
        console_id[0] ^ 0x24EE6906u32,
        console_id[1] ^ 0xE65B601Du32,
        console_id[1],
    ]);
    k
}

/// The key X of key slot 0 for a title: two fixed words, the title id, and the
/// title id byte-swapped.
pub fn title_key_x(tid: u32) -> (k: [u32; 4])
    ensures
        k@ == seq![0x746E694Eu32, 0x6F646E65u32, tid, swap_bytes_spec(tid)],
{
    let k = [0x746E694Eu32, 0x6F646E65u32, tid, swap_bytes(tid)];
    assert(k@ =~= seq![0x746E694Eu32, 0x6F646E65u32, tid, swap_bytes_spec(tid)]);
    k
}

/// `x` with its four bytes in reverse order.
pub open spec fn swap_bytes_spec(x: u32) -> u32 {
    ((x & 0xFFu32) << 24u32) | ((x & 0xFF00u32) << 8u32) | ((x >> 8u32) & 0xFF00u32) | (x
        >> 24u32)
}

/// Reverses the byte order of `x`.
pub fn swap_bytes(x: u32) -> (r: u32)
    ensures
        r == swap_bytes_spec(x),
{
    ((x & 0xFFu32) << 24u32) | ((x & 0xFF00u32) << 8u32) | ((x >> 8u32) & 0xFF00u32) | (x >> 24u32)
}

/// The AES control word that selects key slot `slot`: bits 26..28 cleared and
/// the slot or-ed in at bit 26 (a slot of 4 or more also sets higher bits),
/// and the key-select bit 24 set.
pub fn key_slot_control(current: u32, slot: u32) -> (r: u32)
    ensures
        r == (current & !(3u32 << 26u32)) | (1u32 << 24u32) | (slot << 26u32),
        slot < 4 ==> (r >> 26u32) & 3 == slot,
        r & (1u32 << 24u32) != 0,
{
    let r: u32 = (current & !(3u32 << 26u32)) | (1u32 << 24u32) | (slot << 26u32);
    assert((slot < 4 ==> (r >> 26u32) & 3 == slot) && r & (1u32 << 24u32) != 0) by (bit_vector)
        requires
            r == (current & !(3u32 << 26u32)) | (1u32 << 24u32) | (slot << 26u32),
    ;
    r
}

/// Most 32-bit words decrypted with one DMA transfer: 0xFFFF blocks of 16 bytes.
pub const MODCRYPT_CHUNK_WORDS: usize = 0xFFFF * 4;

/// One transfer of a module decryption: `words` words starting `offset` words
/// into the module, decrypted with counter `iv`, in `blocks` AES blocks.
pub struct CryptChunk {
    pub offset: usize,
    pub words: usize,
    pub iv: [u32; 4],
    pub blocks: u16,
}

/// Number of transfers for a module of `len` words.
pub open spec fn chunk_count(len: int) -> int {
    (len + MODCRYPT_CHUNK_WORDS - 1) / (MODCRYPT_CHUNK_WORDS as int)
}

/// Number of words before chunk `i` of a module of `len` words.
pub open spec fn chunk_offset(i: int) -> int {
    i * MODCRYPT_CHUNK_WORDS
}

/// `chunks` is the transfer plan for a module of `len` words decrypted from
/// counter `key`.
pub open spec fn is_chunk_plan(len: int, key: Seq<u32>, chunks: Seq<CryptChunk>) -> bool {
    &&& chunks.len() == chunk_count(len)
    &&& forall|i: int|
        #![trigger chunks[i]]
        0 <= i < chunks.len() ==> {
            &&& chunks[i].offset == chunk_offset(i)
            &&& chunks[i].words == if len - chunk_offset(i) < MODCRYPT_CHUNK_WORDS {
                len - chunk_offset(i)
            } else {
                MODCRYPT_CHUNK_WORDS as int
            }
            &&& chunks[i].blocks == chunks[i].words / 4
            &&& key_value(chunks[i].iv@) == (key_value(key) + chunk_offset(i) / 4) % two_pow_128()
        }
}

/// The transfers that decrypt a module of `len` words in place, in order: full
/// chunks of `MODCRYPT_CHUNK_WORDS` words and a final shorter one. Each chunk's
/// counter is the initial counter advanced by the blocks before it.
pub fn modcrypt_chunks(len: usize, key: [u32; 4]) -> (chunks: Vec<CryptChunk>)
    ensures
        is_chunk_plan(len as int, key@, chunks@),
{
    let n: usize = len / MODCRYPT_CHUNK_WORDS + if len % MODCRYPT_CHUNK_WORDS == 0 {
        0
    } else {
        1
    };
    assert(n == chunk_count(len as int)) by (nonlinear_arith)
        requires
            n == len / MODCRYPT_CHUNK_WORDS + if len % MODCRYPT_CHUNK_WORDS == 0 {
                0int
            } else {
                1int
            },
    ;
    let mut chunks: Vec<CryptChunk> = Vec::new();
    let mut ctr = key;
    proof {
        assert(0 <= key_value(key@) < two_pow_128());
        vstd::arithmetic::div_mod::lemma_small_mod(key_value(key@) as nat, two_pow_128() as nat);
        assert(chunk_offset(0) / 4 == 0);
    }
    let mut i: usize = 0;
    while i < n
        invariant
            i <= n,
            n == chunk_count(len as int),
            chunks@.len() == i,
            i < n ==> key_value(ctr@) == (key_value(key@) + chunk_offset(i as int) / 4)
                % two_pow_128(),
            forall|j: int|
                #![trigger chunks@[j]]
                0 <= j < i ==> {
                    &&& chunks@[j].offset == chunk_offset(j)
                    &&& chunks@[j].words == if len - chunk_offset(j) < MODCRYPT_CHUNK_WORDS {
                        len - chunk_offset(j)
                    } else {
                        MODCRYPT_CHUNK_WORDS as int
                    }
                    &&& chunks@[j].blocks == chunks@[j].words / 4
                    &&& key_value(chunks@[j].iv@) == (key_value(key@) + chunk_offset(j) / 4)
                        % two_pow_128()
                },
        decreases n - i,
    {
        assert(i * MODCRYPT_CHUNK_WORDS < len) by (nonlinear_arith)
            requires
                i < n,
                n == chunk_count(len as int),
        ;
        let offset: usize = i * MODCRYPT_CHUNK_WORDS;
        let remaining: usize = len - offset;
        let words: usize = if remaining < MODCRYPT_CHUNK_WORDS {
            remaining
        } else {
            MODCRYPT_CHUNK_WORDS
        };
        let blocks: usize = words / 4;
        let iv = ctr;
        add_on_key(&mut ctr, blocks as u32);
        chunks.push(CryptChunk { offset, words, iv, blocks: blocks as u16 });
        if i + 1 < n {
            assert(words == MODCRYPT_CHUNK_WORDS) by (nonlinear_arith)
                requires
                    i + 1 < n,
                    n == chunk_count(len as int),
                    remaining == len - i * MODCRYPT_CHUNK_WORDS,
                    words == if remaining < MODCRYPT_CHUNK_WORDS {
                        remaining
                    } else {
                        MODCRYPT_CHUNK_WORDS
                    },
            ;
            proof {
                let t = two_pow_128();
                let base = key_value(key@);
                let o = chunk_offset(i as int) / 4;
                assert(chunk_offset(i as int) / 4 == i * 65535) by (nonlinear_arith)
                    requires
                        chunk_offset(i as int) == i * 262140,
                ;
                assert(chunk_offset(i as int + 1) / 4 == (i + 1) * 65535) by (nonlinear_arith)
                    requires
                        chunk_offset(i as int + 1) == (i + 1) * 262140,
                ;
                assert(chunk_offset(i as int + 1) / 4 == o + blocks);
                vstd::arithmetic::div_mod::lemma_add_mod_noop(base + o, blocks as int, t);
                vstd::arithmetic::div_mod::lemma_mod_twice(base + o, t);
                vstd::arithmetic::div_mod::lemma_small_mod(blocks as nat, t as nat);
                vstd::arithmetic::div_mod::lemma_add_mod_noop(
                    (base + o) % t,
                    blocks as int,
                    t,
                );
            }
        }
        i = i + 1;
    }
    chunks
}

/// The transfers of a decryption plan cover the module exactly, each one
/// starting where the previous one ended, and each counter continues where the
/// previous transfer's blocks left it.
pub proof fn law_chunks_tile_module(len: int, key: Seq<u32>, chunks: Seq<CryptChunk>)
    requires
        len >= 0,
        is_chunk_plan(len, key, chunks),
    ensures
        forall|i: int|
            0 <= i < chunks.len() - 1 ==> #[trigger] chunks[i].offset + chunks[i].words
                == chunks[i + 1].offset,
        forall|i: int|
            0 <= i < chunks.len() - 1 ==> key_value(#[trigger] chunks[i + 1].iv@) == (key_value(
                chunks[i].iv@,
            ) + chunks[i].blocks) % two_pow_128(),
        chunks.len() > 0 ==> chunks[chunks.len() - 1].offset + chunks[chunks.len() - 1].words
            == len,
        chunks.len() == 0 <==> len == 0,
{
    assert forall|i: int| 0 <= i < chunks.len() - 1 implies #[trigger] chunks[i].offset
        + chunks[i].words == chunks[i + 1].offset by {
        let c = chunks[i];
        let d = chunks[i + 1];
        assert(i + 1 < chunk_count(len));
        assert(len - chunk_offset(i) >= MODCRYPT_CHUNK_WORDS) by (nonlinear_arith)
            requires
                i + 1 < (len + MODCRYPT_CHUNK_WORDS - 1) / (MODCRYPT_CHUNK_WORDS as int),
                chunk_offset(i) == i * MODCRYPT_CHUNK_WORDS,
                len >= 0,
        ;
    }
    assert forall|i: int| 0 <= i < chunks.len() - 1 implies key_value(#[trigger] chunks[i + 1].iv@)
        == (key_value(chunks[i].iv@) + chunks[i].blocks) % two_pow_128() by {
        let t = two_pow_128();
        let base = key_value(key);
        assert(i + 1 < chunk_count(len));
        assert(len - chunk_offset(i) >= MODCRYPT_CHUNK_WORDS) by (nonlinear_arith)
            requires
                i + 1 < (len + MODCRYPT_CHUNK_WORDS - 1) / (MODCRYPT_CHUNK_WORDS as int),
                chunk_offset(i) == i * MODCRYPT_CHUNK_WORDS,
                len >= 0,
        ;
        assert(chunk_offset(i) / 4 == i * 65535) by (nonlinear_arith)
            requires
                chunk_offset(i) == i * 262140,
        ;
        assert(chunk_offset(i + 1) / 4 == (i + 1) * 65535) by (nonlinear_arith)
            requires
                chunk_offset(i + 1) == (i + 1) * 262140,
        ;
        vstd::arithmetic::div_mod::lemma_add_mod_noop(base + i * 65535, 65535, t);
        vstd::arithmetic::div_mod::lemma_small_mod(65535, t as nat);
        vstd::arithmetic::div_mod::lemma_mod_twice(base + i * 65535, t);
        vstd::arithmetic::div_mod::lemma_add_mod_noop((base + i * 65535) % t, 65535, t);
    }
    if chunks.len() > 0 {
        let k = chunks.len() - 1;
        assert(len - chunk_offset(k) <= MODCRYPT_CHUNK_WORDS) by (nonlinear_arith)
            requires
                k == (len + MODCRYPT_CHUNK_WORDS - 1) / (MODCRYPT_CHUNK_WORDS as int) - 1,
                chunk_offset(k) == k * MODCRYPT_CHUNK_WORDS,
                len >= 0,
        ;
    }
    assert(chunks.len() == 0 <==> len == 0) by (nonlinear_arith)
        requires
            chunks.len() == (len + MODCRYPT_CHUNK_WORDS - 1) / (MODCRYPT_CHUNK_WORDS as int),
            len >= 0,
    ;
}

/// The header fields of a DSi title that decide how its modules are decrypted.
pub struct ModcryptHeader {
    pub ntr_rom_size: u32,
    pub arm9_offset: u32,
    pub arm9_load: u32,
    pub arm9i_offset: u32,
    pub arm9i_load: u32,
    pub arm7i_offset: u32,
    pub arm7i_load: u32,
    pub modcrypt1_offset: u32,
    pub modcrypt1_len: u32,
    pub modcrypt2_offset: u32,
    pub modcrypt2_len: u32,
    pub arm9_sha1: [u32; 5],
    pub arm7_sha1: [u32; 5],
}

/// Outcome of decrypting the modules of a title.
#[derive(PartialEq, Eq, Structural, Clone, Copy)]
pub enum ModCryptResult {
    Success,
    Module1Error,
    Module2Error,
}

impl ModCryptResult {
    /// The code reported to the other CPU.
    pub fn code(&self) -> (c: u32)
        ensures
            c == match *self {
                ModCryptResult::Success => 0u32,
                ModCryptResult::Module1Error => 1u32,
                ModCryptResult::Module2Error => 2u32,
            },
    {
        match self {
            ModCryptResult::Success => 0,
            ModCryptResult::Module1Error => 1,
            ModCryptResult::Module2Error => 2,
        }
    }
}

/// A memory region to decrypt in place: `words` words at `address`, with
/// initial counter `key`.
pub struct ModcryptRegion {
    pub address: u32,
    pub words: usize,
    pub key: [u32; 4],
}

/// Module 1 is present: it has a length and does not start at the end of the
/// NDS part of the ROM.
pub open spec fn module1_present(h: ModcryptHeader) -> bool {
    h.modcrypt1_len > 0 && h.ntr_rom_size != h.modcrypt1_offset
}

/// Module 2 is present.
pub open spec fn module2_present(h: ModcryptHeader) -> bool {
    h.modcrypt2_len > 0 && h.ntr_rom_size != h.modcrypt2_offset
}

/// Module 1 covers neither the ARM9i nor the ARM9 binary.
pub open spec fn module1_misplaced(h: ModcryptHeader) -> bool {
    h.arm9i_offset != h.modcrypt1_offset && h.arm9_offset != h.modcrypt1_offset
}

/// Module 2 does not cover the ARM7i binary.
pub open spec fn module2_misplaced(h: ModcryptHeader) -> bool {
    h.arm7i_offset != h.modcrypt2_offset
}

/// `r` decrypts module 1 of `h`: the binary it covers, keyed by the first 16
/// bytes of the ARM9 hash.
pub open spec fn is_module1_region(h: ModcryptHeader, r: ModcryptRegion) -> bool {
    &&& r.address == if h.arm9i_offset == h.modcrypt1_offset {
        h.arm9i_load
    } else {
        h.arm9_load
    }
    &&& r.words == h.modcrypt1_len / 4
    &&& r.key@ == h.arm9_sha1@.subrange(0, 4)
}

/// `r` decrypts module 2 of `h`: the ARM7i binary, keyed by the ARM7 hash.
pub open spec fn is_module2_region(h: ModcryptHeader, r: ModcryptRegion) -> bool {
    &&& r.address == h.arm7i_load
    &&& r.words == h.modcrypt2_len / 4
    &&& r.key@ == h.arm7_sha1@.subrange(0, 4)
}

fn first_four(a: &[u32; 5]) -> (k: [u32; 4])
    ensures
        k@ == a@.subrange(0, 4),
{
    let k = [a[0], a[1], a[2], a[3]];
    assert(k@ =~= a@.subrange(0, 4));
    k
}

/// Decides which modules of a title are decrypted, in order, and what is
/// reported: module 1 first (it fails the whole job when misplaced), then
/// module 2 (when misplaced, module 1 has been decrypted already).
pub fn plan_modcrypt(h: &ModcryptHeader) -> (res: (Vec<ModcryptRegion>, ModCryptResult))
    ensures
        module1_present(*h) && module1_misplaced(*h) ==> res.0@.len() == 0 && res.1
            == ModCryptResult::Module1Error,
        !(module1_present(*h) && module1_misplaced(*h)) ==> {
            let n1: int = if module1_present(*h) {
                1
            } else {
                0
            };
            &&& module1_present(*h) ==> is_module1_region(*h, res.0@[0])
            &&& if module2_present(*h) && module2_misplaced(*h) {
                res.0@.len() == n1 && res.1 == ModCryptResult::Module2Error
            } else {
                &&& res.1 == ModCryptResult::Success
                &&& res.0@.len() == n1 + if module2_present(*h) {
                    1int
                } else {
                    0
                }
                &&& module2_present(*h) ==> is_module2_region(*h, res.0@[n1])
            }
        },
{
    let mut regions: Vec<ModcryptRegion> = Vec::new();
    let l1: u32 = h.modcrypt1_len;
    let l2: u32 = h.modcrypt2_len;
    assert(l1 >> 2u32 == l1 / 4 && l2 >> 2u32 == l2 / 4) by (bit_vector);
    if h.modcrypt1_len > 0 && h.ntr_rom_size != h.modcrypt1_offset {
        if h.arm9i_offset != h.modcrypt1_offset && h.arm9_offset != h.modcrypt1_offset {
            return (regions, ModCryptResult::Module1Error);
        }
        let address: u32 = if h.arm9i_offset == h.modcrypt1_offset {
            h.arm9i_load
        } else {
            h.arm9_load
        };
        regions.push(
            ModcryptRegion {
                address,
                words: (h.modcrypt1_len >> 2u32) as usize,
                key: first_four(&h.arm9_sha1),
            },
        );
    }
    if h.modcrypt2_len > 0 && h.ntr_rom_size != h.modcrypt2_offset {
        if h.arm7i_offset != h.modcrypt2_offset {
            return (regions, ModCryptResult::Module2Error);
        }
        regions.push(
            ModcryptRegion {
                address: h.arm7i_load,
                words: (h.modcrypt2_len >> 2u32) as usize,
                key: first_four(&h.arm7_sha1),
            },
        );
    }
    (regions, ModCryptResult::Success)
}

/// The key words that set up the AES engine for a DSi-mode title: key X and
/// key Y of the module key slot, key X of the NAND key slot and the last word
/// of its key Y.
pub struct TitleKeys {
    pub module_key_x: [u32; 4],
    pub module_key_y: [u32; 4],
    pub nand_key_x: [u32; 4],
    pub nand_key_y_last: u32,
}

/// The keys loaded for a title with title id `tid` and ARM9i hash `arm9i_sha1`,
/// on the console `console_id`; `None` for a title that is not in DSi mode,
/// which gets no keys.
pub fn title_keys(dsi_mode: bool, tid: u32, arm9i_sha1: &[u32; 5], console_id: [u32; 2]) -> (r:
    Option<TitleKeys>)
    ensures
        !dsi_mode <==> r is None,
        r matches Some(k) ==> {
            &&& k.module_key_x@ == seq![0x746E694Eu32, 0x6F646E65u32, tid, swap_bytes_spec(tid)]
            &&& k.module_key_y@ == arm9i_sha1@.subrange(0, 4)
            &&& k.nand_key_x@ == seq![
                console_id[0],
                console_id[0] ^ 0x24EE6906u32,
                console_id[1] ^ 0xE65B601Du32,
                console_id[1],
            ]
            &&& k.nand_key_y_last == 0xE1A00005u32
        },
{
    if !dsi_mode {
        return None;
    }
    Some(
        TitleKeys {
            module_key_x: title_key_x(tid),
            module_key_y: first_four(arm9i_sha1),
            nand_key_x: nand_key_x(console_id),
            nand_key_y_last: 0xE1A00005u32,
        },
    )
}

} // verus!
