//! ProTracker MOD modules: row decoding, header parsing and the incremental loader.
use vstd::prelude::*;
use crate::bytes::{be_u16_at, read_be_u16, copy_range, append_bytes};

verus! {

/// Size in bytes of the fixed MOD header (title, sample table, order list, signature).
pub const MOD_HEADER_LEN: usize = 1084;

/// Size in bytes of one pattern: 64 rows of 4 channels of 4 bytes.
pub const MOD_PATTERN_LEN: usize = 1024;

/// Number of sample slots in a MOD header.
pub const MOD_SAMPLE_COUNT: usize = 31;

/// Number of entries of the order list.
pub const MOD_FRAME_COUNT: usize = 128;

/// Size in bytes of one entry of the sample table.
pub const MOD_SAMPLE_INFO_LEN: usize = 30;

/// One channel of one pattern row: 4 packed bytes.
#[derive(Clone, Copy)]
pub struct MODROW(pub [u8; 4]);

/// The effect of a row: its command nibble and its parameter byte.
pub struct Command {
    pub kind: u8,
    pub value: u8,
}

impl MODROW {
    /// The 12-bit note period: low byte in byte 1, high nibble in the low nibble of byte 0.
    pub fn period(&self) -> (r: u16)
        ensures
            r == self.0[1] + 256 * (self.0[0] % 16),
    {
        let b0: u8 = self.0[0];
        let b1: u8 = self.0[1];
        let r: u16 = (b1 as u16) | (((b0 as u16) & 0xfu16) << 8u16);
        assert(r == b1 + 256 * (b0 % 16)) by (bit_vector)
            requires
                r == (b1 as u16) | (((b0 as u16) & 0xfu16) << 8u16),
        ;
        r
    }

    /// The sample number: high nibble of byte 0, then high nibble of byte 2.
    pub fn sample_index(&self) -> (r: u8)
        ensures
            r == 16 * (self.0[0] / 16) + self.0[2] / 16,
    {
        let b0: u8 = self.0[0];
        let b2: u8 = self.0[2];
        let r: u8 = (b0 & 0xF0u8) | ((b2 & 0xF0u8) >> 4u8);
        assert(r == 16 * (b0 / 16) + b2 / 16) by (bit_vector)
            requires
                r == (b0 & 0xF0u8) | ((b2 & 0xF0u8) >> 4u8),
        ;
        r
    }

    /// The effect command: low nibble of byte 2, parameter in byte 3.
    pub fn command(&self) -> (c: Command)
        ensures
            c.kind == self.0[2] % 16,
            c.value == self.0[3],
    {
        let b2: u8 = self.0[2];
        let k: u8 = b2 & 0xFu8;
        assert(k == b2 % 16) by (bit_vector)
            requires
                k == b2 & 0xFu8,
        ;
        Command { kind: k, value: self.0[3] }
    }
}

/// One pattern: 64 rows of 4 channels, stored row by row.
pub struct MODPattern(pub Vec<MODROW>);

impl MODPattern {
    /// The pattern stored in the 1024 bytes of `b`.
    pub fn from_bytes(b: &[u8]) -> (p: MODPattern)
        requires
            b@.len() == MOD_PATTERN_LEN,
        ensures
            p.0@.len() == 256,
            forall|i: int|
                #![trigger p.0@[i]]
                0 <= i < 256 ==> p.0@[i].0@ == b@.subrange(4 * i, 4 * i + 4),
    {
        let mut rows: Vec<MODROW> = Vec::new();
        let mut i: usize = 0;
        while i < 256
            invariant
                i <= 256,
                b@.len() == MOD_PATTERN_LEN,
                rows@.len() == i,
                forall|j: int|
                    #![trigger rows@[j]]
                    0 <= j < i ==> rows@[j].0@ == b@.subrange(4 * j, 4 * j + 4),
            decreases 256 - i,
        {
            let row = MODROW([b[4 * i], b[4 * i + 1], b[4 * i + 2], b[4 * i + 3]]);
            assert(row.0@ =~= b@.subrange(4 * i as int, 4 * i as int + 4));
            rows.push(row);
            i = i + 1;
        }
        MODPattern(rows)
    }

    /// The four channels of row `index`.
    pub fn row(&self, index: usize) -> (r: [MODROW; 4])
        requires
            index < 64,
            self.0@.len() == 256,
        ensures
            r@ == self.0@.subrange(4 * index as int, 4 * index as int + 4),
    {
        let r = [self.0[4 * index], self.0[4 * index + 1], self.0[4 * index + 2], self.0[4
            * index + 3]];
        assert(r@ =~= self.0@.subrange(4 * index as int, 4 * index as int + 4));
        r
    }
}

/// One entry of the sample table, with its big-endian fields decoded and the
/// length converted from words to bytes.
pub struct MODSampleData {
    pub name: Vec<u8>,
    pub length: u16,
    pub finetune: u8,
    pub volume: u8,
    pub repeat_point: u16,
    pub repeat_length: u16,
}

/// `s` is the sample table entry stored at `off` in `b`. The length is stored in
/// words; it is doubled, keeping 16 bits.
pub open spec fn sample_data_matches(s: MODSampleData, b: Seq<u8>, off: int) -> bool {
    &&& s.name@ == b.subrange(off, off + 22)
    &&& s.length == (2 * be_u16_at(b, off + 22)) % 0x1_0000
    &&& s.finetune == b[off + 24]
    &&& s.volume == b[off + 25]
    &&& s.repeat_point == be_u16_at(b, off + 26)
    &&& s.repeat_length == be_u16_at(b, off + 28)
}

impl MODSampleData {
    /// Decodes the sample table entry stored at `off`.
    pub fn parse(b: &[u8], off: usize) -> (s: MODSampleData)
        requires
            off + MOD_SAMPLE_INFO_LEN <= b.len(),
        ensures
            sample_data_matches(s, b@, off as int),
    {
        let name = copy_range(b, off, off + 22);
        let words: u16 = read_be_u16(b, off + 22);
        let length: u16 = words << 1u16;
        assert(length == (2 * words) % 0x1_0000) by (bit_vector)
            requires
                length == words << 1u16,
        ;
        MODSampleData {
            name,
            length,
            finetune: b[off + 24],
            volume: b[off + 25],
            repeat_point: read_be_u16(b, off + 26),
            repeat_length: read_be_u16(b, off + 28),
        }
    }
}

/// The largest entry of `s` (0 for an empty sequence).
pub open spec fn seq_max(s: Seq<u8>) -> int
    decreases s.len(),
{
    if s.len() == 0 {
        0
    } else {
        let m = seq_max(s.drop_last());
        if s.last() > m {
            s.last() as int
        } else {
            m
        }
    }
}

proof fn lemma_seq_max_bounds(s: Seq<u8>)
    ensures
        0 <= seq_max(s) <= 255,
        forall|i: int| 0 <= i < s.len() ==> s[i] <= seq_max(s),
        s.len() > 0 ==> exists|i: int| 0 <= i < s.len() && s[i] == seq_max(s),
    decreases s.len(),
{
    if s.len() > 0 {
        lemma_seq_max_bounds(s.drop_last());
        assert forall|i: int| 0 <= i < s.len() implies s[i] <= seq_max(s) by {
            if i < s.len() - 1 {
                assert(s[i] == s.drop_last()[i]);
            }
        }
        if s.len() > 1 && s.last() <= seq_max(s.drop_last()) {
            let j = choose|j: int| 0 <= j < s.drop_last().len() && s.drop_last()[j] == seq_max(s.drop_last());
            assert(s[j] == seq_max(s));
        } else {
            assert(s[s.len() - 1] == seq_max(s));
        }
    }
}

/// The number of patterns a module with order list `frames` stores: one more than
/// the largest pattern number it plays.
pub open spec fn pattern_count(frames: Seq<u8>) -> int {
    seq_max(frames) + 1
}

/// The parsed header of a module, with the patterns and sample data that follow it.
pub struct MODHeader {
    pub song_name: Vec<u8>,
    pub sample_info: Vec<MODSampleData>,
    pub song_length: u8,
    pub frames: Vec<u8>,
    pub signature: Vec<u8>,
    pub patterns: Vec<MODPattern>,
    pub samples: Vec<Vec<u8>>,
}

/// `h` is the header stored in the first 1084 bytes of `b`, with no patterns or
/// sample data loaded yet.
pub open spec fn header_matches(h: MODHeader, b: Seq<u8>) -> bool {
    &&& h.song_name@ == b.subrange(0, 20)
    &&& h.sample_info@.len() == MOD_SAMPLE_COUNT
    &&& forall|i: int|
        #![trigger h.sample_info@[i]]
        0 <= i < MOD_SAMPLE_COUNT ==> sample_data_matches(h.sample_info@[i], b, 20 + 30 * i)
    &&& h.song_length == b[950]
    &&& h.frames@ == b.subrange(952, 1080)
    &&& h.signature@ == b.subrange(1080, 1084)
    &&& h.patterns@.len() == 0
    &&& h.samples@.len() == MOD_SAMPLE_COUNT
    &&& forall|i: int| #![trigger h.samples@[i]] 0 <= i < MOD_SAMPLE_COUNT ==> h.samples@[i]@.len() == 0
}

/// Sum of the byte lengths of the first `n` sample table entries.
pub open spec fn sample_len_sum(s: Seq<MODSampleData>, n: int) -> int
    decreases n,
{
    if n <= 0 {
        0
    } else {
        sample_len_sum(s, n - 1) + s[n - 1].length
    }
}

/// Sum of the lengths of the first `n` loaded sample buffers.
pub open spec fn buffer_len_sum(s: Seq<Vec<u8>>, n: int) -> int
    decreases n,
{
    if n <= 0 {
        0
    } else {
        buffer_len_sum(s, n - 1) + s[n - 1]@.len()
    }
}

proof fn lemma_sample_len_sum_bounds(s: Seq<MODSampleData>, n: int)
    requires
        0 <= n <= s.len(),
    ensures
        0 <= sample_len_sum(s, n) <= n * 0xFFFF,
    decreases n,
{
    if n > 0 {
        lemma_sample_len_sum_bounds(s, n - 1);
    }
}

proof fn lemma_sample_len_sum_mono(s: Seq<MODSampleData>, m: int, n: int)
    requires
        0 <= m <= n <= s.len(),
    ensures
        sample_len_sum(s, m) <= sample_len_sum(s, n),
    decreases n - m,
{
    if m < n {
        lemma_sample_len_sum_mono(s, m, n - 1);
    }
}

/// Loaded buffers before `n` have exactly their announced lengths, so their total
/// is the announced total.
proof fn lemma_loaded_prefix(b: Seq<Vec<u8>>, s: Seq<MODSampleData>, n: int)
    requires
        0 <= n <= s.len(),
        n <= b.len(),
        forall|i: int| 0 <= i < n ==> #[trigger] b[i]@.len() == s[i].length,
    ensures
        buffer_len_sum(b, n) == sample_len_sum(s, n),
    decreases n,
{
    if n > 0 {
        lemma_loaded_prefix(b, s, n - 1);
        assert(b[n - 1]@.len() == s[n - 1].length);
    }
}

impl MODHeader {
    /// Decodes the 1084-byte header at the start of `b`.
    pub fn parse(b: &[u8]) -> (h: MODHeader)
        requires
            MOD_HEADER_LEN <= b@.len(),
        ensures
            header_matches(h, b@),
    {
        let song_name = copy_range(b, 0, 20);
        let mut sample_info: Vec<MODSampleData> = Vec::new();
        let mut i: usize = 0;
        while i < MOD_SAMPLE_COUNT
            invariant
                i <= MOD_SAMPLE_COUNT,
                MOD_HEADER_LEN <= b@.len(),
                sample_info@.len() == i,
                forall|j: int|
                    #![trigger sample_info@[j]]
                    0 <= j < i ==> sample_data_matches(sample_info@[j], b@, 20 + 30 * j),
            decreases MOD_SAMPLE_COUNT - i,
        {
            let s = MODSampleData::parse(b, 20 + 30 * i);
            sample_info.push(s);
            i = i + 1;
        }
        let mut samples: Vec<Vec<u8>> = Vec::new();
        let mut k: usize = 0;
        while k < MOD_SAMPLE_COUNT
            invariant
                k <= MOD_SAMPLE_COUNT,
                samples@.len() == k,
                forall|j: int| #![trigger samples@[j]] 0 <= j < k ==> samples@[j]@.len() == 0,
            decreases MOD_SAMPLE_COUNT - k,
        {
            samples.push(Vec::new());
            k = k + 1;
        }
        MODHeader {
            song_name,
            sample_info,
            song_length: b[950],
            frames: copy_range(b, 952, 1080),
            signature: copy_range(b, 1080, 1084),
            patterns: Vec::new(),
            samples,
        }
    }

    /// Number of bytes of pattern data that follow the header.
    pub fn pattern_bytes(&self) -> (n: usize)
        ensures
            n == pattern_count(self.frames@) * MOD_PATTERN_LEN,
    {
        let mut m: u8 = 0;
        let mut i: usize = 0;
        while i < self.frames.len()
            invariant
                i <= self.frames@.len(),
                m == seq_max(self.frames@.subrange(0, i as int)),
            decreases self.frames@.len() - i,
        {
            let ghost prefix = self.frames@.subrange(0, i as int + 1);
            assert(prefix.drop_last() =~= self.frames@.subrange(0, i as int));
            if self.frames[i] > m {
                m = self.frames[i];
            }
            i = i + 1;
        }
        assert(self.frames@.subrange(0, self.frames@.len() as int) =~= self.frames@);
        (m as usize + 1) * MOD_PATTERN_LEN
    }

    /// Total byte length of all samples the sample table announces.
    pub fn sample_bytes(&self) -> (n: usize)
        requires
            self.sample_info@.len() == MOD_SAMPLE_COUNT,
        ensures
            n == sample_len_sum(self.sample_info@, MOD_SAMPLE_COUNT as int),
    {
        let mut total: usize = 0;
        let mut i: usize = 0;
        while i < MOD_SAMPLE_COUNT
            invariant
                i <= MOD_SAMPLE_COUNT,
                self.sample_info@.len() == MOD_SAMPLE_COUNT,
                total == sample_len_sum(self.sample_info@, i as int),
            decreases MOD_SAMPLE_COUNT - i,
        {
            proof {
                lemma_sample_len_sum_bounds(self.sample_info@, i as int);
            }
            total = total + self.sample_info[i].length as usize;
            i = i + 1;
        }
        total
    }
}

/// `n` zero bytes.
fn zeros(n: usize) -> (v: Vec<u8>)
    ensures
        v@ == Seq::new(n as nat, |i: int| 0u8),
{
    let mut v: Vec<u8> = Vec::new();
    let mut i: usize = 0;
    while i < n
        invariant
            i <= n,
            v@ == Seq::new(i as nat, |j: int| 0u8),
        decreases n - i,
    {
        v.push(0);
        i = i + 1;
        assert(v@ =~= Seq::new(i as nat, |j: int| 0u8));
    }
    v
}

impl MODSampleData {
    /// An empty sample table entry: zero name, zero length, no repeat.
    pub fn empty() -> (s: MODSampleData)
        ensures
            s.name@ == Seq::new(22, |i: int| 0u8),
            s.length == 0 && s.finetune == 0 && s.volume == 0,
            s.repeat_point == 0 && s.repeat_length == 0,
    {
        MODSampleData {
            name: zeros(22),
            length: 0,
            finetune: 0,
            volume: 0,
            repeat_point: 0,
            repeat_length: 0,
        }
    }
}

impl Default for MODHeader {
    /// An all-zero header with empty sample slots and no patterns.
    fn default() -> (h: MODHeader)
        ensures
            h.song_name@ == Seq::new(20, |i: int| 0u8),
            h.sample_info@.len() == MOD_SAMPLE_COUNT,
            forall|i: int|
                #![trigger h.sample_info@[i]]
                0 <= i < MOD_SAMPLE_COUNT ==> h.sample_info@[i].length == 0
                    && h.sample_info@[i].name@ == Seq::new(22, |j: int| 0u8)
                    && h.sample_info@[i].finetune == 0 && h.sample_info@[i].volume == 0
                    && h.sample_info@[i].repeat_point == 0 && h.sample_info@[i].repeat_length == 0,
            h.song_length == 0,
            h.frames@ == Seq::new(128, |i: int| 0u8),
            h.signature@ == Seq::new(4, |i: int| 0u8),
            h.patterns@.len() == 0,
            h.samples@.len() == MOD_SAMPLE_COUNT,
            forall|i: int| #![trigger h.samples@[i]] 0 <= i < MOD_SAMPLE_COUNT ==> h.samples@[i]@.len() == 0,
    {
        let mut sample_info: Vec<MODSampleData> = Vec::new();
        let mut samples: Vec<Vec<u8>> = Vec::new();
        let mut i: usize = 0;
        while i < MOD_SAMPLE_COUNT
            invariant
                i <= MOD_SAMPLE_COUNT,
                sample_info@.len() == i,
                samples@.len() == i,
                forall|j: int|
                    #![trigger sample_info@[j]]
                    0 <= j < i ==> sample_info@[j].length == 0
                        && sample_info@[j].name@ == Seq::new(22, |k: int| 0u8)
                        && sample_info@[j].finetune == 0 && sample_info@[j].volume == 0
                        && sample_info@[j].repeat_point == 0 && sample_info@[j].repeat_length == 0,
                forall|j: int| #![trigger samples@[j]] 0 <= j < i ==> samples@[j]@.len() == 0,
            decreases MOD_SAMPLE_COUNT - i,
        {
            sample_info.push(MODSampleData::empty());
            samples.push(Vec::new());
            i = i + 1;
        }
        MODHeader {
            song_name: zeros(20),
            sample_info,
            song_length: 0,
            frames: zeros(MOD_FRAME_COUNT),
            signature: zeros(4),
            patterns: Vec::new(),
            samples,
        }
    }
}

/// `ps` are the patterns stored one after the other in `b`.
pub open spec fn patterns_match(ps: Seq<MODPattern>, b: Seq<u8>) -> bool {
    &&& b.len() == ps.len() * MOD_PATTERN_LEN
    &&& forall|p: int|
        #![trigger ps[p]]
        0 <= p < ps.len() ==> {
            &&& ps[p].0@.len() == 256
            &&& forall|r: int|
                #![trigger ps[p].0@[r]]
                0 <= r < 256 ==> ps[p].0@[r].0@ == b.subrange(
                    p * 1024 + 4 * r,
                    p * 1024 + 4 * r + 4,
                )
        }
}

/// Splits pattern data into its patterns.
pub fn patterns_from_bytes(b: &[u8]) -> (ps: Vec<MODPattern>)
    requires
        b@.len() % 1024 == 0,
    ensures
        patterns_match(ps@, b@),
{
    let count: usize = b.len() / MOD_PATTERN_LEN;
    let mut ps: Vec<MODPattern> = Vec::new();
    let mut p: usize = 0;
    while p < count
        invariant
            p <= count,
            count * 1024 == b.len(),
            ps@.len() == p,
            forall|q: int|
                #![trigger ps@[q]]
                0 <= q < p ==> {
                    &&& ps@[q].0@.len() == 256
                    &&& forall|r: int|
                        #![trigger ps@[q].0@[r]]
                        0 <= r < 256 ==> ps@[q].0@[r].0@ == b@.subrange(
                            q * 1024 + 4 * r,
                            q * 1024 + 4 * r + 4,
                        )
                },
        decreases count - p,
    {
        let start: usize = p * MOD_PATTERN_LEN;
        let chunk = &b[start..start + MOD_PATTERN_LEN];
        let pat = MODPattern::from_bytes(chunk);
        assert forall|r: int| 0 <= r < 256 implies pat.0@[r].0@ == b@.subrange(
            p * 1024 + 4 * r,
            p * 1024 + 4 * r + 4,
        ) by {
            assert(pat.0@[r].0@ =~= b@.subrange(p * 1024 + 4 * r, p * 1024 + 4 * r + 4));
        }
        ps.push(pat);
        p = p + 1;
    }
    ps
}

/// Index of the first sample at or after `from` whose announced length is not 0
/// (the sample count when there is none).
pub open spec fn first_nonempty(info: Seq<MODSampleData>, from: int) -> int
    decreases MOD_SAMPLE_COUNT - from,
{
    if from >= MOD_SAMPLE_COUNT {
        MOD_SAMPLE_COUNT as int
    } else if info[from].length > 0 {
        from
    } else {
        first_nonempty(info, from + 1)
    }
}

proof fn lemma_first_nonempty_range(info: Seq<MODSampleData>, from: int)
    requires
        0 <= from,
    ensures
        from <= first_nonempty(info, from) || from > MOD_SAMPLE_COUNT,
        first_nonempty(info, from) <= MOD_SAMPLE_COUNT,
        first_nonempty(info, from) < MOD_SAMPLE_COUNT ==> info[first_nonempty(info, from)].length > 0,
        forall|i: int| from <= i < first_nonempty(info, from) ==> info[i].length == 0,
    decreases MOD_SAMPLE_COUNT - from,
{
    if from < MOD_SAMPLE_COUNT && info[from].length == 0 {
        lemma_first_nonempty_range(info, from + 1);
    }
}

/// What the loader needs from the file before its next step.
pub enum LoaderRequest {
    /// Seek to the start of the file, then read up to this many bytes.
    SeekAndRead(usize),
    /// Read up to this many bytes.
    Read(usize),
    /// The next step reads nothing.
    NoRead,
}

/// Loads a module a little at a time: each call of `process` consumes the result
/// of at most one read, so that loading can be interleaved with other work.
pub enum MODAsyncLoader {
    NotStarted,
    LoadingHeader { progress: usize, wip_header: Vec<u8> },
    LoadingPatterns { progress: usize, wip_patterns: Vec<u8>, pattern_len: usize, header: MODHeader },
    LoadingSamples { progress: usize, sample: usize, header: MODHeader },
    Consumed,
}

/// The header fields and sample table have the sizes of the format.
pub open spec fn header_shape(h: MODHeader) -> bool {
    &&& h.sample_info@.len() == MOD_SAMPLE_COUNT
    &&& h.frames@.len() == MOD_FRAME_COUNT
    &&& h.samples@.len() == MOD_SAMPLE_COUNT
}

/// `a` and `b` agree on everything but the loaded patterns and sample data.
pub open spec fn same_tables(a: MODHeader, b: MODHeader) -> bool {
    &&& a.song_name@ == b.song_name@
    &&& a.sample_info@ == b.sample_info@
    &&& a.song_length == b.song_length
    &&& a.frames@ == b.frames@
    &&& a.signature@ == b.signature@
}

impl MODAsyncLoader {
    /// A loader that has not read anything yet.
    pub fn new() -> (l: MODAsyncLoader)
        ensures
            l is NotStarted,
            l.wf(),
    {
        MODAsyncLoader::NotStarted
    }

    /// The invariant of every state the loader goes through.
    pub open spec fn wf(&self) -> bool {
        match *self {
            MODAsyncLoader::NotStarted => true,
            MODAsyncLoader::LoadingHeader { progress, wip_header } => {
                &&& wip_header@.len() == progress
                &&& progress <= MOD_HEADER_LEN
            },
            MODAsyncLoader::LoadingPatterns { progress, wip_patterns, pattern_len, header } => {
                &&& header_shape(header)
                &&& header.patterns@.len() == 0
                &&& forall|i: int|
                    #![trigger header.samples@[i]]
                    0 <= i < MOD_SAMPLE_COUNT ==> header.samples@[i]@.len() == 0
                &&& pattern_len == pattern_count(header.frames@) * MOD_PATTERN_LEN
                &&& wip_patterns@.len() == progress
                &&& progress <= pattern_len
            },
            MODAsyncLoader::LoadingSamples { progress, sample, header } => {
                &&& header_shape(header)
                &&& header.patterns@.len() == pattern_count(header.frames@)
                &&& sample <= MOD_SAMPLE_COUNT
                &&& forall|i: int|
                    #![trigger header.samples@[i]]
                    0 <= i < MOD_SAMPLE_COUNT ==> {
                        &&& i < sample ==> header.samples@[i]@.len()
                            == header.sample_info@[i].length
                        &&& i > sample ==> header.samples@[i]@.len() == 0
                        &&& i == sample ==> header.samples@[i]@.len() == progress
                    }
                &&& sample < MOD_SAMPLE_COUNT ==> progress <= header.sample_info@[sample as int].length
                &&& sample == MOD_SAMPLE_COUNT ==> progress == 0
            },
            MODAsyncLoader::Consumed => true,
        }
    }

    /// The most bytes the next step will read.
    pub open spec fn read_limit(&self) -> int {
        match *self {
            MODAsyncLoader::NotStarted => MOD_HEADER_LEN as int,
            MODAsyncLoader::LoadingHeader { progress, .. } => MOD_HEADER_LEN - progress,
            MODAsyncLoader::LoadingPatterns { progress, pattern_len, .. } => pattern_len - progress,
            MODAsyncLoader::LoadingSamples { sample, header, .. } => {
                let n = first_nonempty(header.sample_info@, sample as int);
                if n < MOD_SAMPLE_COUNT {
                    header.sample_info@[n].length - header.samples@[n]@.len()
                } else {
                    0
                }
            },
            MODAsyncLoader::Consumed => 0,
        }
    }

    /// The next step reads from the file.
    pub open spec fn reads(&self) -> bool {
        match *self {
            MODAsyncLoader::LoadingSamples { sample, header, .. } => first_nonempty(
                header.sample_info@,
                sample as int,
            ) < MOD_SAMPLE_COUNT,
            MODAsyncLoader::Consumed => false,
            _ => true,
        }
    }

    /// What the caller has to do with the file before calling `process`.
    pub fn pending_read(&self) -> (r: LoaderRequest)
        requires
            self.wf(),
        ensures
            self is NotStarted ==> r == LoaderRequest::SeekAndRead(MOD_HEADER_LEN),
            !(self is NotStarted) && self.reads() ==> (r matches LoaderRequest::Read(n) && n == self.read_limit()),
            !self.reads() ==> r is NoRead,
    {
        match self {
            MODAsyncLoader::NotStarted => LoaderRequest::SeekAndRead(MOD_HEADER_LEN),
            MODAsyncLoader::LoadingHeader { progress, .. } => LoaderRequest::Read(
                MOD_HEADER_LEN - *progress,
            ),
            MODAsyncLoader::LoadingPatterns { progress, pattern_len, .. } => LoaderRequest::Read(
                *pattern_len - *progress,
            ),
            MODAsyncLoader::LoadingSamples { progress, sample, header } => {
                let next = Self::skip_empty(header, *sample);
                if next < MOD_SAMPLE_COUNT {
                    LoaderRequest::Read(
                        header.sample_info[next].length as usize - header.samples[next].len(),
                    )
                } else {
                    LoaderRequest::NoRead
                }
            },
            MODAsyncLoader::Consumed => LoaderRequest::NoRead,
        }
    }

    /// The first sample at or after `sample` with a non-zero length.
    fn skip_empty(header: &MODHeader, sample: usize) -> (next: usize)
        requires
            header_shape(*header),
            sample <= MOD_SAMPLE_COUNT,
            forall|i: int|
                #![trigger header.samples@[i]]
                sample < i < MOD_SAMPLE_COUNT ==> header.samples@[i]@.len() == 0,
        ensures
            next == first_nonempty(header.sample_info@, sample as int),
            sample <= next <= MOD_SAMPLE_COUNT,
            next < MOD_SAMPLE_COUNT ==> header.samples@[next as int]@.len()
                <= header.sample_info@[next as int].length || next == sample,
    {
        let mut next: usize = sample;
        while next < MOD_SAMPLE_COUNT && header.sample_info[next].length == 0
            invariant
                sample <= next <= MOD_SAMPLE_COUNT,
                header_shape(*header),
                first_nonempty(header.sample_info@, sample as int) == first_nonempty(
                    header.sample_info@,
                    next as int,
                ),
            decreases MOD_SAMPLE_COUNT - next,
        {
            next = next + 1;
        }
        next
    }

    /// How one step moves the loader from `self` to `next`, given the outcome of the
    /// read that `pending_read` asked for, and what the step hands back.
    pub open spec fn step(
        self,
        next: MODAsyncLoader,
        outcome: Result<Vec<u8>, ()>,
        res: Option<MODHeader>,
    ) -> bool {
        match self {
            MODAsyncLoader::NotStarted => match outcome {
                Err(_) => next is Consumed && res is None,
                Ok(d) => {
                    &&& res is None
                    &&& next matches MODAsyncLoader::LoadingHeader { progress, wip_header }
                    &&& wip_header@ == d@
                    &&& progress == d@.len()
                },
            },
            MODAsyncLoader::LoadingHeader { wip_header: w, .. } => match outcome {
                Err(_) => next is Consumed && res is None,
                Ok(d) => {
                    let all = w@ + d@;
                    &&& res is None
                    &&& if all.len() == MOD_HEADER_LEN {
                        &&& next matches MODAsyncLoader::LoadingPatterns {
                            progress,
                            wip_patterns,
                            pattern_len,
                            header,
                        }
                        &&& progress == 0
                        &&& wip_patterns@.len() == 0
                        &&& header_matches(header, all)
                        &&& pattern_len == pattern_count(header.frames@) * MOD_PATTERN_LEN
                    } else {
                        &&& next matches MODAsyncLoader::LoadingHeader { progress, wip_header }
                        &&& wip_header@ == all
                        &&& progress == all.len()
                    }
                },
            },
            MODAsyncLoader::LoadingPatterns { wip_patterns: w, pattern_len: n, header: h, .. } => match outcome {
                Err(_) => next is Consumed && res is None,
                Ok(d) => {
                    let all = w@ + d@;
                    &&& res is None
                    &&& if all.len() == n {
                        &&& next matches MODAsyncLoader::LoadingSamples { progress, sample, header }
                        &&& progress == 0
                        &&& sample == 0
                        &&& same_tables(header, h)
                        &&& header.samples@ == h.samples@
                        &&& patterns_match(header.patterns@, all)
                    } else {
                        &&& next matches MODAsyncLoader::LoadingPatterns {
                            progress,
                            wip_patterns,
                            pattern_len,
                            header,
                        }
                        &&& wip_patterns@ == all
                        &&& progress == all.len()
                        &&& pattern_len == n
                        &&& header == h
                    }
                },
            },
            MODAsyncLoader::LoadingSamples { sample: s, header: h, .. } => {
                let k = first_nonempty(h.sample_info@, s as int);
                if k >= MOD_SAMPLE_COUNT {
                    next is Consumed && res == Some(h)
                } else {
                    match outcome {
                        Err(_) => next is Consumed && res is None,
                        Ok(d) => {
                            let buf = h.samples@[k]@ + d@;
                            &&& res is None
                            &&& next matches MODAsyncLoader::LoadingSamples { progress, sample, header }
                            &&& same_tables(header, h)
                            &&& header.patterns@ == h.patterns@
                            &&& header.samples@.len() == h.samples@.len()
                            &&& header.samples@[k]@ == buf
                            &&& forall|i: int|
                                #![trigger header.samples@[i]]
                                0 <= i < header.samples@.len() && i != k ==> header.samples@[i]
                                    == h.samples@[i]
                            &&& if buf.len() == h.sample_info@[k].length {
                                sample == k + 1 && progress == 0
                            } else {
                                sample == k && progress == buf.len()
                            }
                        },
                    }
                }
            },
            MODAsyncLoader::Consumed => next is Consumed && res is None,
        }
    }

    /// Performs one step: takes the outcome of the read that `pending_read` asked
    /// for (the bytes read, or the failure of the seek or read) and advances.
    /// When the last sample has been loaded the module is handed back. A failed
    /// read ends loading.
    pub fn process(&mut self, outcome: Result<Vec<u8>, ()>) -> (res: Option<MODHeader>)
        requires
            old(self).wf(),
            outcome matches Ok(d) ==> d@.len() <= old(self).read_limit(),
        ensures
            final(self).wf(),
            old(self).step(*final(self), outcome, res),
    {
        let mut state = MODAsyncLoader::Consumed;
        core::mem::swap(&mut state, self);
        match state {
            MODAsyncLoader::NotStarted => {
                match outcome {
                    Err(_) => {
                        assert(self.wf());
                        None
                    },
                    Ok(d) => {
                        let n: usize = d.len();
                        *self = MODAsyncLoader::LoadingHeader { progress: n, wip_header: d };
                        assert(self.wf());
                        None
                    },
                }
            },
            MODAsyncLoader::LoadingHeader { progress, wip_header } => {
                match outcome {
                    Err(_) => None,
                    Ok(d) => {
                        let mut all = wip_header;
                        append_bytes(&mut all, d.as_slice());
                        if all.len() == MOD_HEADER_LEN {
                            let header = MODHeader::parse(all.as_slice());
                            let pattern_len = header.pattern_bytes();
                            *self = MODAsyncLoader::LoadingPatterns {
                                progress: 0,
                                wip_patterns: Vec::new(),
                                pattern_len,
                                header,
                            };
                            assert(self.wf());
                        } else {
                            *self = MODAsyncLoader::LoadingHeader {
                                progress: all.len(),
                                wip_header: all,
                            };
                        }
                        None
                    },
                }
            },
            MODAsyncLoader::LoadingPatterns { progress, wip_patterns, pattern_len, header } => {
                match outcome {
                    Err(_) => None,
                    Ok(d) => {
                        let mut all = wip_patterns;
                        append_bytes(&mut all, d.as_slice());
                        if all.len() == pattern_len {
                            let mut header = header;
                            header.patterns = patterns_from_bytes(all.as_slice());
                            *self = MODAsyncLoader::LoadingSamples { progress: 0, sample: 0, header };
                            assert(self.wf());
                        } else {
                            *self = MODAsyncLoader::LoadingPatterns {
                                progress: all.len(),
                                wip_patterns: all,
                                pattern_len,
                                header,
                            };
                        }
                        None
                    },
                }
            },
            MODAsyncLoader::LoadingSamples { progress, sample, header } => {
                let next = Self::skip_empty(&header, sample);
                if next >= MOD_SAMPLE_COUNT {
                    return Some(header);
                }
                match outcome {
                    Err(_) => None,
                    Ok(d) => {
                        let mut header = header;
                        let ghost old_header = header;
                        let mut buf = header.samples.remove(next);
                        append_bytes(&mut buf, d.as_slice());
                        let filled: usize = buf.len();
                        let full = filled == header.sample_info[next].length as usize;
                        header.samples.insert(next, buf);
                        proof {
                            lemma_first_nonempty_range(old_header.sample_info@, sample as int);
                            assert forall|i: int| 0 <= i < next implies #[trigger] header.samples@[i]@.len()
                                == header.sample_info@[i].length by {
                                assert(header.samples@[i] == old_header.samples@[i]);
                                if i >= sample {
                                    assert(old_header.sample_info@[i].length == 0);
                                }
                            }
                        }
                        assert(header.samples@ =~= old_header.samples@.update(
                            next as int,
                            header.samples@[next as int],
                        ));
                        if full {
                            *self = MODAsyncLoader::LoadingSamples {
                                progress: 0,
                                sample: next + 1,
                                header,
                            };
                            assert(self.wf());
                        } else {
                            *self = MODAsyncLoader::LoadingSamples {
                                progress: filled,
                                sample: next,
                                header,
                            };
                            assert(self.wf());
                        }
                        None
                    },
                }
            },
            MODAsyncLoader::Consumed => None,
        }
    }

    /// Bytes loaded so far and bytes to load in all, as `progress` reports them.
    pub open spec fn progress_spec(&self) -> (usize, usize) {
        match *self {
            MODAsyncLoader::LoadingHeader { progress, .. } => (progress, usize::MAX),
            MODAsyncLoader::LoadingPatterns { progress, pattern_len, header, .. } => (
                (MOD_HEADER_LEN + progress) as usize,
                (MOD_HEADER_LEN + sample_len_sum(header.sample_info@, MOD_SAMPLE_COUNT as int)
                    + pattern_len) as usize,
            ),
            MODAsyncLoader::LoadingSamples { progress, sample, header } => (
                (MOD_HEADER_LEN + header.patterns@.len() * MOD_PATTERN_LEN + buffer_len_sum(
                    header.samples@,
                    sample as int,
                ) + progress) as usize,
                (MOD_HEADER_LEN + sample_len_sum(header.sample_info@, MOD_SAMPLE_COUNT as int)
                    + header.patterns@.len() * MOD_PATTERN_LEN) as usize,
            ),
            _ => (0, usize::MAX),
        }
    }

    /// Progress of loading: bytes loaded so far, and bytes to load in all (the
    /// largest `usize` while the total is not known yet). What has been loaded
    /// never exceeds the total.
    pub fn progress(&self) -> (r: (usize, usize))
        requires
            self.wf(),
        ensures
            r == self.progress_spec(),
            r.0 <= r.1,
    {
        match self {
            MODAsyncLoader::NotStarted => (0, usize::MAX),
            MODAsyncLoader::LoadingHeader { progress, .. } => (*progress, usize::MAX),
            MODAsyncLoader::LoadingPatterns { progress, pattern_len, header, .. } => {
                proof {
                    lemma_seq_max_bounds(header.frames@);
                    lemma_sample_len_sum_bounds(header.sample_info@, MOD_SAMPLE_COUNT as int);
                }
                let sample_len: usize = header.sample_bytes();
                (MOD_HEADER_LEN + *progress, MOD_HEADER_LEN + sample_len + *pattern_len)
            },
            MODAsyncLoader::LoadingSamples { progress, sample, header } => {
                proof {
                    lemma_seq_max_bounds(header.frames@);
                    lemma_sample_len_sum_bounds(header.sample_info@, MOD_SAMPLE_COUNT as int);
                    lemma_loaded_prefix(header.samples@, header.sample_info@, *sample as int);
                    lemma_sample_len_sum_mono(header.sample_info@, *sample as int, MOD_SAMPLE_COUNT as int);
                    if *sample < MOD_SAMPLE_COUNT {
                        lemma_sample_len_sum_mono(header.sample_info@, *sample as int + 1, MOD_SAMPLE_COUNT as int);
                    }
                }
                let sample_len: usize = header.sample_bytes();
                let pattern_len: usize = header.patterns.len() * MOD_PATTERN_LEN;
                let mut found: usize = 0;
                let mut i: usize = 0;
                while i < *sample
                    invariant
                        i <= *sample <= MOD_SAMPLE_COUNT,
                        header_shape(*header),
                        forall|j: int|
                            0 <= j < *sample ==> #[trigger] header.samples@[j]@.len()
                                == header.sample_info@[j].length,
                        found == buffer_len_sum(header.samples@, i as int),
                        found <= sample_len_sum(header.sample_info@, i as int),
                        sample_len_sum(header.sample_info@, *sample as int) <= sample_len_sum(
                            header.sample_info@,
                            MOD_SAMPLE_COUNT as int,
                        ),
                        sample_len_sum(header.sample_info@, MOD_SAMPLE_COUNT as int) <= 31
                            * 0xFFFF,
                        buffer_len_sum(header.samples@, *sample as int) == sample_len_sum(
                            header.sample_info@,
                            *sample as int,
                        ),
                    decreases *sample - i,
                {
                    proof {
                        lemma_loaded_prefix(header.samples@, header.sample_info@, i as int + 1);
                        lemma_sample_len_sum_mono(header.sample_info@, i as int + 1, *sample as int);
                    }
                    found = found + header.samples[i].len();
                    i = i + 1;
                }
                (MOD_HEADER_LEN + pattern_len + found + *progress, MOD_HEADER_LEN + sample_len
                    + pattern_len)
            },
            MODAsyncLoader::Consumed => (0, usize::MAX),
        }
    }

    /// `true` once the loader has finished or failed.
    pub fn done(&self) -> (b: bool)
        ensures
            b == (*self is Consumed),
    {
        match self {
            MODAsyncLoader::Consumed => true,
            _ => false,
        }
    }
}

} // verus!

verus! {

proof fn lemma_buffer_sum_frame(a: Seq<Vec<u8>>, b: Seq<Vec<u8>>, n: int)
    requires
        0 <= n <= a.len(),
        n <= b.len(),
        forall|i: int| 0 <= i < n ==> #[trigger] a[i]@.len() == b[i]@.len(),
    ensures
        buffer_len_sum(a, n) == buffer_len_sum(b, n),
    decreases n,
{
    if n > 0 {
        lemma_buffer_sum_frame(a, b, n - 1);
        assert(a[n - 1]@.len() == b[n - 1]@.len());
    }
}

proof fn lemma_buffer_sum_zeros(b: Seq<Vec<u8>>, m: int, n: int)
    requires
        0 <= m <= n <= b.len(),
        forall|i: int| m <= i < n ==> #[trigger] b[i]@.len() == 0,
    ensures
        buffer_len_sum(b, n) == buffer_len_sum(b, m),
    decreases n - m,
{
    if m < n {
        lemma_buffer_sum_zeros(b, m, n - 1);
        assert(b[n - 1]@.len() == 0);
    }
}

/// A module that the loader hands back is complete: every sample buffer has
/// the length its table entry announces, and every pattern the order list names
/// is there.
pub proof fn law_finished_module_is_complete(
    l: MODAsyncLoader,
    next: MODAsyncLoader,
    outcome: Result<Vec<u8>, ()>,
    res: Option<MODHeader>,
)
    requires
        l.wf(),
        l.step(next, outcome, res),
        res is Some,
    ensures
        next is Consumed,
        res->0.patterns@.len() == pattern_count(res->0.frames@),
        forall|i: int|
            #![trigger res->0.samples@[i]]
            0 <= i < MOD_SAMPLE_COUNT ==> res->0.samples@[i]@.len() == res->0.sample_info@[i].length,
{
    match l {
        MODAsyncLoader::LoadingSamples { progress, sample, header } => {
            lemma_first_nonempty_range(header.sample_info@, sample as int);
            assert forall|i: int| 0 <= i < MOD_SAMPLE_COUNT implies #[trigger] res->0.samples@[i]@.len()
                == res->0.sample_info@[i].length by {
                if i >= sample {
                    assert(header.sample_info@[i].length == 0);
                }
            }
        },
        _ => {},
    }
}

/// What one step of the loader can give: a module only from the sample stage,
/// after which loading is over; a failed seek or read ends loading with
/// nothing; any other step hands back nothing and leaves the loader in one of
/// its loading stages. No step goes back to the start.
pub proof fn law_loader_step_outcomes(
    l: MODAsyncLoader,
    next: MODAsyncLoader,
    outcome: Result<Vec<u8>, ()>,
    res: Option<MODHeader>,
)
    requires
        l.step(next, outcome, res),
    ensures
        res is Some ==> l is LoadingSamples && next is Consumed,
        l.reads() && outcome is Err ==> res is None && next is Consumed,
        !(next is NotStarted),
        res is None && !(next is Consumed) ==> (next is LoadingHeader || next is LoadingPatterns
            || next is LoadingSamples),
{
}

/// Once the loader has finished or failed it stays so, reads nothing and
/// hands back nothing, whatever it is given.
pub proof fn law_consumed_is_final(
    next: MODAsyncLoader,
    outcome: Result<Vec<u8>, ()>,
    res: Option<MODHeader>,
)
    requires
        MODAsyncLoader::Consumed.step(next, outcome, res),
    ensures
        next is Consumed,
        res is None,
        !MODAsyncLoader::Consumed.reads(),
{
}

/// A step that does not end loading never moves the progress count back.
pub proof fn law_progress_never_decreases(
    l: MODAsyncLoader,
    next: MODAsyncLoader,
    outcome: Result<Vec<u8>, ()>,
    res: Option<MODHeader>,
)
    requires
        l.wf(),
        next.wf(),
        l.step(next, outcome, res),
        outcome matches Ok(d) ==> d@.len() <= l.read_limit(),
        !(next is Consumed),
    ensures
        next.progress_spec().0 >= l.progress_spec().0,
{
    match l {
        MODAsyncLoader::LoadingPatterns { progress: p, wip_patterns: w, pattern_len: n, header: h } => {
            lemma_seq_max_bounds(h.frames@);
            lemma_sample_len_sum_bounds(h.sample_info@, MOD_SAMPLE_COUNT as int);
            match next {
                MODAsyncLoader::LoadingSamples { progress, sample, header } => {
                    assert(buffer_len_sum(header.samples@, 0) == 0);
                    let all = w@ + outcome->Ok_0@;
                    assert(all.len() == n);
                    assert(header.patterns@.len() * 1024 == n);
                    assert(n <= 256 * 1024);
                    assert(buffer_len_sum(header.samples@, sample as int) == 0);
                    assert(next.progress_spec().0 == 1084 + n);
                    assert(l.progress_spec().0 == 1084 + p);
                },
                MODAsyncLoader::LoadingPatterns { progress, pattern_len, .. } => {
                    assert(progress >= p);
                    assert(pattern_len == n);
                    assert(n <= 256 * 1024);
                    assert(next.progress_spec().0 == 1084 + progress);
                    assert(l.progress_spec().0 == 1084 + p);
                },
                _ => { assert(false); },
            }
        },
        MODAsyncLoader::LoadingSamples { progress: p, sample: s, header: h } => {
            let k = first_nonempty(h.sample_info@, s as int);
            lemma_first_nonempty_range(h.sample_info@, s as int);
            lemma_seq_max_bounds(h.frames@);
            lemma_sample_len_sum_bounds(h.sample_info@, MOD_SAMPLE_COUNT as int);
            lemma_loaded_prefix(h.samples@, h.sample_info@, s as int);
            lemma_sample_len_sum_mono(h.sample_info@, s as int, MOD_SAMPLE_COUNT as int);
            match next {
                MODAsyncLoader::LoadingSamples { progress, sample, header } => {
                    let d = outcome->Ok_0;
                    assert(h.samples@[s as int]@.len() == p);
                    // Entries before `k` are unchanged, and those from `s` to `k` are empty.
                    lemma_buffer_sum_frame(header.samples@, h.samples@, k);
                    lemma_buffer_sum_frame(header.samples@, h.samples@, s as int);
                    if k > s {
                        assert(h.sample_info@[s as int].length == 0);
                        lemma_buffer_sum_zeros(h.samples@, s as int, k);
                    }
                    lemma_loaded_prefix(header.samples@, header.sample_info@, sample as int);
                    lemma_sample_len_sum_mono(header.sample_info@, sample as int, MOD_SAMPLE_COUNT as int);
                    if sample < MOD_SAMPLE_COUNT {
                        lemma_sample_len_sum_mono(header.sample_info@, sample as int + 1, MOD_SAMPLE_COUNT as int);
                    }
                    lemma_sample_len_sum_mono(h.sample_info@, s as int + 1, MOD_SAMPLE_COUNT as int);
                    let found_old = buffer_len_sum(h.samples@, s as int);
                    let found_new = buffer_len_sum(header.samples@, sample as int);
                    assert(buffer_len_sum(h.samples@, s as int + 1) == found_old + p);
                    if k > s {
                        lemma_buffer_sum_zeros(h.samples@, s as int + 1, k);
                    }
                    assert(buffer_len_sum(header.samples@, k) >= found_old + p || k == s);
                    if sample == k + 1 {
                        assert(found_new == buffer_len_sum(header.samples@, k) + header.samples@[k]@.len());
                        assert(found_new >= found_old + p);
                    } else {
                        assert(found_new + progress >= found_old + p);
                    }
                    assert(found_new == sample_len_sum(header.sample_info@, sample as int));
                    if sample < MOD_SAMPLE_COUNT {
                        assert(sample_len_sum(header.sample_info@, sample as int + 1) == sample_len_sum(
                            header.sample_info@,
                            sample as int,
                        ) + header.sample_info@[sample as int].length);
                    }
                    assert(found_new + progress <= 31 * 0xFFFF);
                    assert(header.patterns@.len() <= 256);
                    let v: int = 1084 + header.patterns@.len() * 1024 + found_new + progress;
                    lemma_sample_len_sum_bounds(header.sample_info@, sample as int);
                    assert(0 <= progress);
                    assert(header.patterns@.len() * 1024 <= 256 * 1024);
                    assert(0 <= v <= 0x7fff_ffff);
                    assert(next.progress_spec().0 == v as usize);
                    assert(v as usize == v);
                    lemma_sample_len_sum_bounds(h.sample_info@, s as int);
                    assert(found_old == sample_len_sum(h.sample_info@, s as int));
                    if s < MOD_SAMPLE_COUNT {
                        assert(sample_len_sum(h.sample_info@, s as int + 1) == sample_len_sum(
                            h.sample_info@,
                            s as int,
                        ) + h.sample_info@[s as int].length);
                    }
                    let w: int = 1084 + h.patterns@.len() * 1024 + found_old + p;
                    assert(0 <= w <= 0x7fff_ffff);
                    assert(l.progress_spec().0 == w as usize);
                    assert(next.progress_spec().0 >= l.progress_spec().0);
                    if sample == k + 1 {
                        assert(buffer_len_sum(header.samples@, k + 1) == buffer_len_sum(
                            header.samples@,
                            k,
                        ) + header.samples@[k]@.len());
                    }
                },
                _ => {},
            }
        },
        MODAsyncLoader::LoadingHeader { progress: p, wip_header: w } => {
            let all = w@ + outcome->Ok_0@;
            assert(all.len() == p + outcome->Ok_0@.len());
        },
        _ => {},
    }
}

} // verus!
