//! Touchscreen sample filtering, pen tracking and key-state packing.
use vstd::prelude::*;

verus! {

broadcast use vstd::seq_lib::group_to_multiset_ensures;

/// `s` is in ascending order.
pub open spec fn sorted(s: Seq<u16>) -> bool {
    forall|i: int, j: int| 0 <= i <= j < s.len() ==> s[i] <= s[j]
}

/// `s` holds the values of `v` in ascending order.
pub open spec fn sorted_perm_of(s: Seq<u16>, v: Seq<u16>) -> bool {
    &&& sorted(s)
    &&& s.to_multiset() == v.to_multiset()
}

proof fn lemma_swap_to_multiset(s: Seq<u16>, i: int, j: int)
    requires
        0 <= i < s.len(),
        0 <= j < s.len(),
    ensures
        s.update(i, s[j]).update(j, s[i]).to_multiset() == s.to_multiset(),
{
    broadcast use vstd::seq_lib::to_multiset_update;
    broadcast use vstd::multiset::group_multiset_axioms;

    let t = s.update(i, s[j]);
    assert(t[j] == s[j]);
    assert(t.to_multiset() == s.to_multiset().insert(s[j]).remove(s[i]));
    assert(t.update(j, s[i]).to_multiset() == t.to_multiset().insert(s[i]).remove(s[j]));
    assert(s.to_multiset().insert(s[j]).remove(s[i]).insert(s[i]).remove(s[j]) =~= s.to_multiset());
}

/// Sorts five samples in place, ascending (insertion sort).
pub fn i_sort(vals: &mut [u16; 5])
    ensures
        sorted_perm_of(final(vals)@, old(vals)@),
{
    let mut i: usize = 1;
    while i < 5
        invariant
            1 <= i <= 5,
            vals@.len() == 5,
            vals@.to_multiset() == old(vals)@.to_multiset(),
            sorted(vals@.subrange(0, i as int)),
        decreases 5 - i,
    {
        let mut j: usize = i;
        assert forall|a: int, b: int| 0 <= a <= b <= i && a != j && b != j implies vals@[a] <= vals@[b] by {
            assert(vals@.subrange(0, i as int)[a] == vals@[a]);
            assert(vals@.subrange(0, i as int)[b] == vals@[b]);
        }
        while j > 0 && vals[j - 1] > vals[j]
            invariant
                1 <= i < 5,
                j <= i,
                vals@.len() == 5,
                vals@.to_multiset() == old(vals)@.to_multiset(),
                // the prefix without position j is sorted, and the element at j is
                // below everything after it in the prefix
                forall|a: int, b: int|
                    0 <= a <= b <= i && a != j && b != j ==> vals@[a] <= vals@[b],
                forall|b: int| j < b <= i ==> vals@[j as int] <= vals@[b],
            decreases j,
        {
            let a: u16 = vals[j - 1];
            let b: u16 = vals[j];
            proof {
                lemma_swap_to_multiset(vals@, j as int - 1, j as int);
            }
            vals[j - 1] = b;
            vals[j] = a;
            j = j - 1;
        }
        let ghost pre = vals@.subrange(0, i as int + 1);
        assert forall|a: int, b: int| 0 <= a <= b < i + 1 implies #[trigger] pre[a]
            <= #[trigger] pre[b] by {
            if b == j && a < j {
                assert(vals@[a] <= vals@[j - 1]);
            }
        }
        i = i + 1;
    }
    assert(vals@.subrange(0, 5) =~= vals@);
}

/// Start of the window of three sorted samples that the filter averages, or
/// `None` when three samples agree and one of them is taken as it is.
pub open spec fn best_window(s: Seq<u16>) -> Option<int> {
    let d_mid = s[3] - s[1];
    let d_low = s[2] - s[0];
    let d_high = s[4] - s[2];
    if d_mid == 0 || d_low == 0 || d_high == 0 {
        None
    } else {
        let (w, d) = if d_low < d_mid {
            (0int, d_low)
        } else {
            (1int, d_mid)
        };
        if d_high < d { Some(2) } else { Some(w) }
    }
}

/// The filtered reading of the sorted samples `s`: the middle of three equal
/// samples (middle, then lower, then upper three are tried), else the
/// 5:6:5-weighted average of the three closest samples, rounded down.
pub open spec fn best_read_of_sorted(s: Seq<u16>) -> int {
    if s[3] - s[1] == 0 {
        s[2] as int
    } else if s[2] - s[0] == 0 {
        s[1] as int
    } else if s[4] - s[2] == 0 {
        s[3] as int
    } else {
        let w = best_window(s)->0;
        (5 * s[w] + 6 * s[w + 1] + 5 * s[w + 2]) / 16
    }
}

/// The weighted average of the chosen window fits in 16 bits.
pub open spec fn best_read_fits(s: Seq<u16>) -> bool {
    best_window(s) matches Some(w) ==> 5 * s[w] + 6 * s[w + 1] + 5 * s[w + 2] <= u16::MAX
}

/// The ascending order on samples.
pub open spec fn sample_leq() -> spec_fn(u16, u16) -> bool {
    |a: u16, b: u16| a <= b
}

/// The samples of `v` in ascending order.
pub open spec fn sorted_samples(v: Seq<u16>) -> Seq<u16> {
    v.sort_by(sample_leq())
}

/// The filtered reading of the samples `v`, in whatever order they came: that
/// of their ascending arrangement.
pub open spec fn best_read(v: Seq<u16>) -> int {
    best_read_of_sorted(sorted_samples(v))
}

/// The ascending arrangement of `v` holds its samples in ascending order, and
/// it is the only one.
pub proof fn lemma_sorted_samples(v: Seq<u16>)
    ensures
        sorted_perm_of(sorted_samples(v), v),
        forall|s: Seq<u16>| sorted_perm_of(s, v) ==> s == sorted_samples(v),
{
    let leq = sample_leq();
    assert(vstd::relations::total_ordering(leq));
    v.lemma_sort_by_ensures(leq);
    let t = sorted_samples(v);
    assert(sorted(t)) by {
        assert forall|i: int, j: int| 0 <= i <= j < t.len() implies t[i] <= t[j] by {
            if i < j {
                assert(leq(t[i], t[j]));
            }
        }
    }
    assert forall|s: Seq<u16>| sorted_perm_of(s, v) implies s == t by {
        assert(vstd::relations::sorted_by(s, leq)) by {
            assert forall|i: int, j: int| 0 <= i < j < s.len() implies #[trigger] leq(s[i], s[j]) by {
                assert(s[i] <= s[j]);
            }
        }
        vstd::seq_lib::lemma_sorted_unique(s, t, leq);
    }
}

/// Picks a likely-good reading out of five noisy samples: sorts them, returns a
/// value that three of them agree on, or else a weighted average of the three
/// closest ones.
pub fn find_best_read(vals: [u16; 5]) -> (r: u16)
    requires
        forall|s: Seq<u16>| sorted_perm_of(s, vals@) ==> best_read_fits(s),
    ensures
        forall|s: Seq<u16>| sorted_perm_of(s, vals@) ==> r == best_read_of_sorted(s),
        r == best_read(vals@),
{
    let mut v = vals;
    i_sort(&mut v);
    proof {
        assert(sorted_perm_of(v@, vals@));
        lemma_sorted_samples(vals@);
        assert forall|s: Seq<u16>| sorted_perm_of(s, vals@) implies s == v@ by {
            vstd::seq_lib::lemma_sorted_unique(s, v@, |a: u16, b: u16| a <= b);
        }
    }
    let mut lo: usize = 1;
    let mut dif: u16 = v[3] - v[1];
    if dif == 0 {
        return v[2];
    }
    let tmp: u16 = v[2] - v[0];
    if tmp == 0 {
        return v[1];
    } else if tmp < dif {
        lo = 0;
        dif = tmp;
    }
    let tmp: u16 = v[4] - v[2];
    if tmp == 0 {
        return v[3];
    } else if tmp < dif {
        lo = 2;
    }
    assert(best_window(v@) == Some(lo as int));
    assert(best_read_fits(v@));
    let sum: u16 = v[lo] * 5 + v[lo + 1] * 6 + v[lo + 2] * 5;
    sum / 16
}

/// The reading of five 12-bit samples never overflows: such samples meet what
/// `find_best_read` asks of them.
pub proof fn lemma_small_samples_fit(v: Seq<u16>)
    requires
        v.len() == 5,
        forall|i: int| 0 <= i < 5 ==> #[trigger] v[i] < 4096,
    ensures
        forall|s: Seq<u16>| sorted_perm_of(s, v) ==> best_read_fits(s),
{
    assert forall|s: Seq<u16>| sorted_perm_of(s, v) implies best_read_fits(s) by {
        vstd::seq_lib::to_multiset_len(s);
        vstd::seq_lib::to_multiset_len(v);
        assert forall|k: int| 0 <= k < s.len() implies #[trigger] s[k] < 4096 by {
            vstd::seq_lib::to_multiset_contains(s, s[k]);
            vstd::seq_lib::to_multiset_contains(v, s[k]);
            assert(s.contains(s[k]));
            let j = choose|j: int| 0 <= j < v.len() && v[j] == s[k];
            assert(v[j] < 4096);
        }
    }
}

/// The filtered reading does not depend on the order in which the samples
/// arrive.
pub proof fn law_best_read_ignores_order(a: Seq<u16>, b: Seq<u16>)
    requires
        a.to_multiset() == b.to_multiset(),
    ensures
        best_read(a) == best_read(b),
{
    lemma_sorted_samples(a);
    lemma_sorted_samples(b);
    assert(sorted_perm_of(sorted_samples(a), b));
}

/// How five sorted samples are filtered. With `dm`, `dl` and `dh` the spreads
/// of the middle, lower and upper three samples: a spread of zero gives the
/// middle of those three (middle, then lower, then upper window tried);
/// otherwise the window of least spread is averaged with weights 5:6:5 and
/// rounded down, ties going to the middle window, then to the lower one.
pub proof fn law_best_read_window(s: Seq<u16>)
    requires
        s.len() == 5,
        sorted(s),
    ensures
        ({
            let dm = s[3] - s[1];
            let dl = s[2] - s[0];
            let dh = s[4] - s[2];
            let r = best_read_of_sorted(s);
            &&& dm == 0 ==> r == s[2]
            &&& dm != 0 && dl == 0 ==> r == s[1]
            &&& dm != 0 && dl != 0 && dh == 0 ==> r == s[3]
            &&& dm != 0 && dl != 0 && dh != 0 && dh < dm && dh < dl ==> r == (5 * s[2] + 6
                * s[3] + 5 * s[4]) / 16
            &&& dm != 0 && dl != 0 && dh != 0 && dl < dm && dl <= dh ==> r == (5 * s[0] + 6
                * s[1] + 5 * s[2]) / 16
            &&& dm != 0 && dl != 0 && dh != 0 && dm <= dl && dm <= dh ==> r == (5 * s[1] + 6
                * s[2] + 5 * s[3]) / 16
        }),
{
}

/// `p` rearranges the positions `0..n`: it takes each of them exactly once.
pub open spec fn is_permutation(p: Seq<int>, n: int) -> bool {
    &&& p.len() == n
    &&& forall|i: int| 0 <= i < n ==> 0 <= #[trigger] p[i] < n
    &&& forall|i: int, j: int| 0 <= i < j < n ==> p[i] != p[j]
}

/// The samples of `v` in the order `p` gives: entry `i` is `v[p[i]]`.
pub open spec fn rearranged(v: Seq<u16>, p: Seq<int>) -> Seq<u16> {
    Seq::new(p.len(), |i: int| v[p[i]])
}

/// Rearranging samples keeps them all, each as often as before.
pub proof fn lemma_rearranged_multiset(v: Seq<u16>, p: Seq<int>)
    requires
        is_permutation(p, v.len() as int),
    ensures
        rearranged(v, p).to_multiset() == v.to_multiset(),
    decreases v.len(),
{
    broadcast use vstd::multiset::group_multiset_axioms;

    let s = rearranged(v, p);
    if v.len() == 0 {
        assert(s =~= v);
    } else {
        let n = v.len() as int;
        let k = p[n - 1];
        let q = Seq::new((n - 1) as nat, |i: int| if p[i] < k { p[i] } else { p[i] - 1 });
        let w = v.remove(k);
        assert forall|i: int| 0 <= i < n - 1 implies 0 <= #[trigger] q[i] < n - 1 by {
            assert(p[i] != p[n - 1]);
        }
        assert forall|i: int, j: int| 0 <= i < j < n - 1 implies q[i] != q[j] by {
            assert(p[i] != p[j]);
            assert(p[i] != p[n - 1]);
            assert(p[j] != p[n - 1]);
        }
        lemma_rearranged_multiset(w, q);
        assert forall|i: int| 0 <= i < n - 1 implies #[trigger] s.drop_last()[i] == rearranged(w, q)[i] by {
            assert(p[i] != p[n - 1]);
        }
        assert(s.drop_last() =~= rearranged(w, q));
        assert(s =~= s.drop_last().push(v[k]));
        assert(w.to_multiset() == v.to_multiset().remove(v[k]));
        assert(v.to_multiset().count(v[k]) > 0) by {
            assert(v.contains(v[k]));
        }
        assert(v.to_multiset().remove(v[k]).insert(v[k]) =~= v.to_multiset());
    }
}

/// The filtered reading does not depend on the order in which the five
/// samples arrive: any rearrangement of them gives the same reading.
pub proof fn law_best_read_ignores_permutation(v: Seq<u16>, p: Seq<int>)
    requires
        is_permutation(p, v.len() as int),
    ensures
        best_read(rearranged(v, p)) == best_read(v),
{
    lemma_rearranged_multiset(v, p);
    law_best_read_ignores_order(rearranged(v, p), v);
}

/// A 12-bit touch sample from the two bytes the TSC shifts out: the top bits in
/// the first byte, the low 3 bits in the top of the second.
pub fn tsc_sample(msb: u8, lsb: u8) -> (r: u16)
    ensures
        r == (msb * 32 + lsb / 32) % 4096,
{
    let r: u16 = (((msb as u16) << 5u16) | ((lsb as u16) >> 5u16)) & 0xFFFu16;
    assert(r == (msb * 32 + lsb / 32) % 4096) by (bit_vector)
        requires
            r == (((msb as u16) << 5u16) | ((lsb as u16) >> 5u16)) & 0xFFFu16,
    ;
    r
}

/// X sample `i` of a codec buffer read: a big-endian pair starting at byte `2 i`.
pub open spec fn cdc_x(raw: Seq<u8>, i: int) -> int {
    raw[2 * i + 1] + 256 * raw[2 * i]
}

/// Y sample `i` of a codec buffer read: a big-endian pair starting at byte `2 i + 10`.
pub open spec fn cdc_y(raw: Seq<u8>, i: int) -> int {
    raw[2 * i + 11] + 256 * raw[2 * i + 10]
}

/// All ten samples of the buffer read are 12-bit values.
pub open spec fn cdc_samples_valid(raw: Seq<u8>) -> bool {
    forall|i: int| 0 <= i < 5 ==> #[trigger] cdc_x(raw, i) < 4096 && #[trigger] cdc_y(raw, i) < 4096
}

/// A 16-bit sample pair has a bit above the low twelve exactly when one of
/// the two is 4096 or more.
proof fn lemma_high_bits(x: u16, y: u16)
    ensures
        ((x | y) & 0xF000u16 > 0) == (x >= 4096 || y >= 4096),
{
    assert(((x | y) & 0xF000u16 > 0) == (x >= 4096 || y >= 4096)) by (bit_vector);
}

/// The touch position in a codec buffer read: five X and five Y samples, each
/// filtered by `find_best_read`. `None` when a sample has bits above the 12th set.
pub fn tsc_position_from_cdc(raw: &[u8; 40]) -> (r: Option<(u16, u16)>)
    ensures
        r is None <==> !cdc_samples_valid(raw@),
        r matches Some((x, y)) ==> forall|s: Seq<u16>|
            sorted_perm_of(s, Seq::new(5, |i: int| cdc_x(raw@, i) as u16)) ==> x
                == best_read_of_sorted(s),
        r matches Some((x, y)) ==> forall|s: Seq<u16>|
            sorted_perm_of(s, Seq::new(5, |i: int| cdc_y(raw@, i) as u16)) ==> y
                == best_read_of_sorted(s),
{
    let mut xs: [u16; 5] = [0u16; 5];
    let mut ys: [u16; 5] = [0u16; 5];
    let mut i: usize = 0;
    while i < 5
        invariant
            i <= 5,
            forall|k: int| 0 <= k < i ==> #[trigger] cdc_x(raw@, k) < 4096,
            forall|k: int| 0 <= k < i ==> #[trigger] cdc_y(raw@, k) < 4096,
            forall|k: int| 0 <= k < i ==> #[trigger] xs@[k] == cdc_x(raw@, k),
            forall|k: int| 0 <= k < i ==> #[trigger] ys@[k] == cdc_y(raw@, k),
        decreases 5 - i,
    {
        let x: u16 = (raw[2 * i + 1] as u16) + 256 * (raw[2 * i] as u16);
        let y: u16 = (raw[2 * i + 11] as u16) + 256 * (raw[2 * i + 10] as u16);
        assert(x == cdc_x(raw@, i as int) && y == cdc_y(raw@, i as int));
        if (x | y) & 0xF000u16 > 0 {
            proof {
                lemma_high_bits(x, y);
            }
            assert(!cdc_samples_valid(raw@)) by {
                assert(cdc_x(raw@, i as int) >= 4096 || cdc_y(raw@, i as int) >= 4096);
            }
            return None;
        }
        proof {
            lemma_high_bits(x, y);
        }
        xs[i] = x;
        ys[i] = y;
        i = i + 1;
    }
    proof {
        assert(xs@ =~= Seq::new(5, |k: int| cdc_x(raw@, k) as u16));
        assert(ys@ =~= Seq::new(5, |k: int| cdc_y(raw@, k) as u16));
        lemma_small_samples_fit(xs@);
        lemma_small_samples_fit(ys@);
    }
    Some((find_best_read(xs), find_best_read(ys)))
}

/// Sum of the first `n` entries of `s`.
pub open spec fn sum_u16(s: Seq<u16>, n: int) -> int
    decreases n,
{
    if n <= 0 {
        0
    } else {
        sum_u16(s, n - 1) + s[n - 1]
    }
}

/// The touch position from the four 5-sample runs read from the TSC directly:
/// the means (rounded down) of the third and fourth runs.
pub fn tsc_position_from_runs(raw: &[u16; 20]) -> (r: (u16, u16))
    requires
        sum_u16(raw@.subrange(10, 15), 5) <= u16::MAX,
        sum_u16(raw@.subrange(15, 20), 5) <= u16::MAX,
    ensures
        r.0 == sum_u16(raw@.subrange(10, 15), 5) / 5,
        r.1 == sum_u16(raw@.subrange(15, 20), 5) / 5,
{
    let mut rawx: u16 = 0;
    let mut rawy: u16 = 0;
    let mut i: usize = 0;
    while i < 5
        invariant
            i <= 5,
            sum_u16(raw@.subrange(10, 15), 5) <= u16::MAX,
            sum_u16(raw@.subrange(15, 20), 5) <= u16::MAX,
            rawx == sum_u16(raw@.subrange(10, 15), i as int),
            rawy == sum_u16(raw@.subrange(15, 20), i as int),
        decreases 5 - i,
    {
        proof {
            lemma_sum_u16_prefix(raw@.subrange(10, 15), i as int + 1, 5);
            lemma_sum_u16_prefix(raw@.subrange(15, 20), i as int + 1, 5);
        }
        rawx = rawx + raw[10 + i];
        rawy = rawy + raw[15 + i];
        i = i + 1;
    }
    (rawx / 5, rawy / 5)
}

proof fn lemma_sum_u16_prefix(s: Seq<u16>, m: int, n: int)
    requires
        0 <= m <= n <= s.len(),
    ensures
        0 <= sum_u16(s, m) <= sum_u16(s, n),
    decreases n - m,
{
    lemma_sum_u16_nonneg(s, m);
    if m < n {
        lemma_sum_u16_prefix(s, m, n - 1);
    }
}

proof fn lemma_sum_u16_nonneg(s: Seq<u16>, n: int)
    requires
        0 <= n <= s.len(),
    ensures
        0 <= sum_u16(s, n),
    decreases n,
{
    if n > 0 {
        lemma_sum_u16_nonneg(s, n - 1);
    }
}

/// Sum of the first `n` X samples of a codec buffer read, each masked to 12 bits.
pub open spec fn masked_x_sum(raw: Seq<u8>, n: int) -> int
    decreases n,
{
    if n <= 0 {
        0
    } else {
        masked_x_sum(raw, n - 1) + cdc_x(raw, n - 1) % 4096
    }
}

/// Sum of the first `n` Y samples of a codec buffer read, each masked to 12 bits.
pub open spec fn masked_y_sum(raw: Seq<u8>, n: int) -> int
    decreases n,
{
    if n <= 0 {
        0
    } else {
        masked_y_sum(raw, n - 1) + cdc_y(raw, n - 1) % 4096
    }
}

proof fn lemma_masked_sums_bounded(raw: Seq<u8>, n: int)
    requires
        0 <= n,
    ensures
        0 <= masked_x_sum(raw, n) <= n * 4095,
        0 <= masked_y_sum(raw, n) <= n * 4095,
    decreases n,
{
    if n > 0 {
        lemma_masked_sums_bounded(raw, n - 1);
    }
}

/// The touch position from a codec buffer read without filtering: the means
/// (rounded down) of the five X and five Y samples, each masked to 12 bits.
pub fn tsc_position_mean(raw: &[u8; 40]) -> (r: (u16, u16))
    ensures
        r.0 == masked_x_sum(raw@, 5) / 5,
        r.1 == masked_y_sum(raw@, 5) / 5,
{
    let mut rawx: u16 = 0;
    let mut rawy: u16 = 0;
    let mut i: usize = 0;
    while i < 5
        invariant
            i <= 5,
            rawx == masked_x_sum(raw@, i as int),
            rawy == masked_y_sum(raw@, i as int),
        decreases 5 - i,
    {
        let x: u16 = (raw[2 * i + 1] as u16) + 256 * (raw[2 * i] as u16);
        let y: u16 = (raw[2 * i + 11] as u16) + 256 * (raw[2 * i + 10] as u16);
        assert(x == cdc_x(raw@, i as int) && y == cdc_y(raw@, i as int));
        let mx: u16 = x & 0xFFFu16;
        let my: u16 = y & 0xFFFu16;
        assert(mx == x % 4096 && my == y % 4096) by (bit_vector)
            requires
                mx == x & 0xFFFu16,
                my == y & 0xFFFu16,
        ;
        proof {
            lemma_masked_sums_bounded(raw@, i as int);
        }
        rawx = rawx + mx;
        rawy = rawy + my;
        i = i + 1;
    }
    (rawx / 5, rawy / 5)
}

/// `|a|`.
pub open spec fn abs_int(a: int) -> int {
    if a < 0 {
        -a
    } else {
        a
    }
}

/// Integer division rounding toward zero, as Rust's `/` on signed integers.
pub open spec fn div_trunc(a: int, b: int) -> int {
    if (a < 0) == (b < 0) || abs_int(a) / abs_int(b) == 0 {
        abs_int(a) / abs_int(b)
    } else {
        -(abs_int(a) / abs_int(b))
    }
}

/// `a` fits in an `i32`.
pub open spec fn fits_i32(a: int) -> bool {
    i32::MIN <= a <= i32::MAX
}

/// Signed division rounding toward zero.
fn div_trunc_i32(a: i32, b: i32) -> (r: i32)
    requires
        b != 0,
        !(a == i32::MIN && b == -1),
    ensures
        r == div_trunc(a as int, b as int),
{
    let ua: u32 = if a < 0 {
        (0i64 - a as i64) as u32
    } else {
        a as u32
    };
    let ub: u32 = if b < 0 {
        (0i64 - b as i64) as u32
    } else {
        b as u32
    };
    let q: u32 = ua / ub;
    if q == 0 {
        0
    } else if (a < 0) == (b < 0) {
        assert(ua == 0x8000_0000 ==> ub >= 2);
        assert(q <= i32::MAX) by (nonlinear_arith)
            requires
                q == ua / ub,
                ub >= 1,
                ua <= 0x8000_0000,
                ua == 0x8000_0000 ==> ub >= 2,
        ;
        q as i32
    } else {
        assert(q <= 0x8000_0000) by (nonlinear_arith)
            requires
                q == ua / ub,
                ub >= 1,
                ua <= 0x8000_0000,
        ;
        (0i64 - q as i64) as i32
    }
}

/// Screen coordinate of raw touch value `raw` under a calibration scale and
/// offset (fixed point, 19 fraction bits), clamped to `0..=max`.
pub open spec fn screen_coord(raw: int, scale: int, offset: int, max: int) -> int {
    let v = (raw * scale - offset + div_trunc(scale, 2)) / 0x8_0000;
    if v < 0 {
        0
    } else if v > max {
        max
    } else {
        v
    }
}

/// The calibrated position arithmetic for `raw` does not overflow 32 bits.
pub open spec fn calibration_fits(raw: int, scale: int, offset: int) -> bool {
    &&& fits_i32(raw * scale)
    &&& fits_i32(raw * scale - offset)
    &&& fits_i32(raw * scale - offset + div_trunc(scale, 2))
}

/// The pressed keys in the layout sent to the other CPU: the ten keys of the
/// (active-low) key input register, then X and Y from the extended register.
pub open spec fn key_bits_spec(keyinput: u16, extkeyin: u16) -> u16 {
    ((!keyinput) & 0x3FFu16) | (((!extkeyin) & 3u16) << 10u16)
}

/// Bit of the packed key state that reports the pen as down.
pub const PEN_DOWN_BIT: u16 = 0x2000;

/// Touch tracking state: debounced pen state, last position and the calibration.
pub struct Controller {
    pub last_pen: bool,
    pub pen_down: bool,
    pub last_x: u8,
    pub last_y: u8,
    pub x_scale: i32,
    pub x_offset: i32,
    pub y_scale: i32,
    pub y_offset: i32,
}

/// The calibration values fit the arithmetic of `Controller::from_calibration`.
pub open spec fn calibration_input_ok(adc1: int, scr1: int, adc2: int, scr2: int) -> bool {
    &&& adc1 != adc2
    &&& {
        let scale = div_trunc((scr2 - scr1) * 0x8_0000, adc2 - adc1);
        &&& fits_i32((adc1 + adc2) * scale)
        &&& fits_i32((adc1 + adc2) * scale - (scr1 + scr2) * 0x8_0000)
    }
}

/// Scale derived from two calibration points: screen distance (in 1/2^19) per ADC step.
pub open spec fn calibration_scale(adc1: int, scr1: int, adc2: int, scr2: int) -> int {
    div_trunc((scr2 - scr1) * 0x8_0000, adc2 - adc1)
}

/// Offset derived from two calibration points.
pub open spec fn calibration_offset(adc1: int, scr1: int, adc2: int, scr2: int) -> int {
    div_trunc(
        (adc1 + adc2) * calibration_scale(adc1, scr1, adc2, scr2) - (scr1 + scr2) * 0x8_0000,
        2,
    )
}

/// One axis of the calibration.
fn calibrate_axis(adc1: u16, scr1: u8, adc2: u16, scr2: u8) -> (r: (i32, i32))
    requires
        calibration_input_ok(adc1 as int, scr1 as int, adc2 as int, scr2 as int),
    ensures
        r.0 == calibration_scale(adc1 as int, scr1 as int, adc2 as int, scr2 as int),
        r.1 == calibration_offset(adc1 as int, scr1 as int, adc2 as int, scr2 as int),
{
    let dscr: i32 = scr2 as i32 - scr1 as i32;
    let num: i32 = dscr << 19i32;
    assert(num == dscr * 0x8_0000) by (bit_vector)
        requires
            num == dscr << 19i32,
            -255 <= dscr <= 255,
    ;
    let den: i32 = adc2 as i32 - adc1 as i32;
    let scale: i32 = div_trunc_i32(num, den);
    let asum: i32 = adc1 as i32 + adc2 as i32;
    let ssum: i32 = scr1 as i32 + scr2 as i32;
    let sshift: i32 = ssum << 19i32;
    assert(sshift == ssum * 0x8_0000) by (bit_vector)
        requires
            sshift == ssum << 19i32,
            0 <= ssum <= 510,
    ;
    let prod: i32 = asum * scale;
    let offset: i32 = div_trunc_i32(prod - sshift, 2);
    (scale, offset)
}

impl Controller {
    /// The controller for the two calibration points stored in the user
    /// settings: raw ADC values and the screen pixels they were touched at.
    pub fn from_calibration(
        adcx1: u16,
        adcy1: u16,
        scrx1: u8,
        scry1: u8,
        adcx2: u16,
        adcy2: u16,
        scrx2: u8,
        scry2: u8,
    ) -> (c: Controller)
        requires
            calibration_input_ok(adcx1 as int, scrx1 as int, adcx2 as int, scrx2 as int),
            calibration_input_ok(adcy1 as int, scry1 as int, adcy2 as int, scry2 as int),
        ensures
            c.x_scale == calibration_scale(adcx1 as int, scrx1 as int, adcx2 as int, scrx2 as int),
            c.x_offset == calibration_offset(adcx1 as int, scrx1 as int, adcx2 as int, scrx2 as int),
            c.y_scale == calibration_scale(adcy1 as int, scry1 as int, adcy2 as int, scry2 as int),
            c.y_offset == calibration_offset(adcy1 as int, scry1 as int, adcy2 as int, scry2 as int),
            !c.last_pen && !c.pen_down && c.last_x == 0 && c.last_y == 0,
    {
        let (x_scale, x_offset) = calibrate_axis(adcx1, scrx1, adcx2, scrx2);
        let (y_scale, y_offset) = calibrate_axis(adcy1, scry1, adcy2, scry2);
        Controller {
            last_pen: false,
            pen_down: false,
            last_x: 0,
            last_y: 0,
            x_scale,
            x_offset,
            y_scale,
            y_offset,
        }
    }

    /// One calibrated, clamped screen coordinate.
    fn to_screen(raw: u16, scale: i32, offset: i32, max: i32) -> (r: u8)
        requires
            calibration_fits(raw as int, scale as int, offset as int),
            0 <= max <= 255,
        ensures
            r == screen_coord(raw as int, scale as int, offset as int, max as int),
    {
        let prod: i32 = raw as i32 * scale;
        let half: i32 = div_trunc_i32(scale, 2);
        let v: i32 = prod - offset + half;
        let shifted: i32 = v >> 19i32;
        assert(shifted == v as int / 0x8_0000) by (bit_vector)
            requires
                shifted == v >> 19i32,
        ;
        let c: i32 = if shifted < 0 {
            0
        } else if shifted > max {
            max
        } else {
            shifted
        };
        c as u8
    }

    /// Samples the keys and the touchscreen once and packs the result for the
    /// other CPU: key bits in the low half (bit 13 when the pen counts as down),
    /// the last X position in bits 16..24 and the last Y in bits 24..32.
    /// `keyinput` and `extkeyin` are the raw active-low key registers,
    /// `touching` whether the touchscreen reports contact, and `touch` the raw
    /// position read while touching (`None` when that read failed).
    /// The pen state is debounced: it goes down after two touching samples in a
    /// row and up after two non-touching ones, and the position is only taken
    /// from the second touching sample on.
    pub fn next_fetch(
        &mut self,
        keyinput: u16,
        extkeyin: u16,
        touching: bool,
        touch: Option<(u16, u16)>,
    ) -> (r: u32)
        requires
            touching ==> (touch matches Some((x, y)) ==> calibration_fits(
                x as int,
                old(self).x_scale as int,
                old(self).x_offset as int,
            ) && calibration_fits(y as int, old(self).y_scale as int, old(self).y_offset as int)),
        ensures
            final(self).x_scale == old(self).x_scale && final(self).x_offset == old(self).x_offset,
            final(self).y_scale == old(self).y_scale && final(self).y_offset == old(self).y_offset,
            final(self).last_pen == touching,
            final(self).pen_down == if touching {
                old(self).last_pen || old(self).pen_down
            } else {
                old(self).last_pen && old(self).pen_down
            },
            (touching && old(self).last_pen) ==> (touch matches Some((tx, ty)) ==> {
                &&& final(self).last_x == screen_coord(
                    tx as int,
                    old(self).x_scale as int,
                    old(self).x_offset as int,
                    255,
                )
                &&& final(self).last_y == screen_coord(
                    ty as int,
                    old(self).y_scale as int,
                    old(self).y_offset as int,
                    191,
                )
            }),
            !(touching && old(self).last_pen && touch is Some) ==> final(self).last_x == old(
                self,
            ).last_x && final(self).last_y == old(self).last_y,
            r == (key_bits_spec(keyinput, extkeyin) + if final(self).pen_down {
                PEN_DOWN_BIT as int
            } else {
                0
            }) + final(self).last_x * 0x1_0000 + final(self).last_y * 0x100_0000,
    {
        let controls: u16 = Self::key_bits(keyinput, extkeyin);
        if touching {
            match touch {
                Some((x, y)) => {
                    let sx: u8 = Self::to_screen(x, self.x_scale, self.x_offset, 255);
                    let sy: u8 = Self::to_screen(y, self.y_scale, self.y_offset, 191);
                    if self.last_pen {
                        self.last_x = sx;
                        self.last_y = sy;
                    }
                },
                None => {},
            }
            if self.last_pen {
                self.pen_down = true;
            }
            self.last_pen = true;
        } else {
            if !self.last_pen {
                self.pen_down = false;
            }
            self.last_pen = false;
        }
        let keys: u16 = if self.pen_down {
            controls ^ PEN_DOWN_BIT
        } else {
            controls
        };
        assert(controls < 0x1000 && controls ^ PEN_DOWN_BIT == controls + 0x2000) by (bit_vector)
            requires
                controls == ((!keyinput) & 0x3FFu16) | (((!extkeyin) & 3u16) << 10u16),
        ;
        let lx: u8 = self.last_x;
        let ly: u8 = self.last_y;
        let r: u32 = keys as u32 | ((lx as u32) << 16u32) | ((ly as u32) << 24u32);
        assert(r == keys + lx * 0x1_0000 + ly * 0x100_0000) by (bit_vector)
            requires
                r == keys as u32 | ((lx as u32) << 16u32) | ((ly as u32) << 24u32),
                keys < 0x4000,
        ;
        r
    }

    /// The pressed keys from the two active-low key registers.
    pub fn key_bits(keyinput: u16, extkeyin: u16) -> (r: u16)
        ensures
            r == key_bits_spec(keyinput, extkeyin),
    {
        ((!keyinput) & 0x3FFu16) | (((!extkeyin) & 3u16) << 10u16)
    }
}

/// Offset of the valid copy of the user settings: of the two copies stored
/// 0x100 bytes apart, the first is used when its update counter is one more
/// (modulo 128) than the second's.
pub fn user_settings_offset(settings_offset: u32, count1: u8, count2: u8) -> (r: u32)
    requires
        count2 < 255,
        settings_offset + 0x100 <= u32::MAX,
    ensures
        r == if count1 % 128 == (count2 + 1) % 128 {
            settings_offset as int
        } else {
            settings_offset + 0x100
        },
{
    let a: u8 = count1 & 0x7fu8;
    let next: u8 = count2 + 1;
    let b: u8 = next & 0x7fu8;
    assert(a == count1 % 128 && b == next % 128) by (bit_vector)
        requires
            a == count1 & 0x7fu8,
            b == next & 0x7fu8,
    ;
    if a == b {
        settings_offset
    } else {
        settings_offset + 0x100
    }
}

} // verus!
