//! Summary statistics over a window of readings: exact integer sums (the
//! numerator of the arithmetic mean) and the median with the upper-middle
//! tie-break for even-length input.
use vstd::prelude::*;
use vstd::relations::{sorted_by, total_ordering};
use vstd::seq_lib::lemma_sorted_unique;

use crate::Reading;

verus! {

/// The ordering that the median is taken under: plain `<=` on the
/// quantized values.
pub open spec fn value_order() -> spec_fn(i64, i64) -> bool {
    |a: i64, b: i64| a <= b
}

/// The sum of a sequence of quantized values, as a mathematical integer.
pub open spec fn sum_of(s: Seq<i64>) -> int
    decreases s.len(),
{
    if s.len() == 0 {
        0
    } else {
        sum_of(s.drop_last()) + s.last()
    }
}

/// The median of a non-empty sequence: the element at rank
/// `floor(len / 2)` of the sequence sorted ascending. For even length this
/// picks the upper-middle element, never an average of the two middle ones.
pub open spec fn median_of(s: Seq<i64>) -> i64
    recommends
        s.len() > 0,
{
    s.sort_by(value_order())[s.len() as int / 2]
}

pub proof fn lemma_value_order_total()
    ensures
        total_ordering(value_order()),
{
}

/// The sum of a sequence of `i64` values is bounded by the length times the
/// extreme `i64` magnitudes, so an `i128` accumulator can never overflow.
pub proof fn lemma_sum_of_bounds(s: Seq<i64>)
    ensures
        -(s.len() as int) * 0x8000_0000_0000_0000 <= sum_of(s),
        sum_of(s) <= (s.len() as int) * 0x7fff_ffff_ffff_ffff,
    decreases s.len(),
{
    if s.len() > 0 {
        lemma_sum_of_bounds(s.drop_last());
        assert(-(s.len() - 1) * 0x8000_0000_0000_0000 - 0x8000_0000_0000_0000 == -(
        s.len() as int) * 0x8000_0000_0000_0000) by (nonlinear_arith);
        assert((s.len() - 1) * 0x7fff_ffff_ffff_ffff + 0x7fff_ffff_ffff_ffff == (
        s.len() as int) * 0x7fff_ffff_ffff_ffff) by (nonlinear_arith);
    }
}

/// Exact sum of the values, accumulated in an `i128`, which is wide enough
/// for any vector of `i64` values.
pub fn sum_values(data: &Vec<i64>) -> (r: i128)
    ensures
        r as int == sum_of(data@),
{
    let mut total: i128 = 0;
    let mut idx: usize = 0;
    while idx < data.len()
        invariant
            idx <= data@.len(),
            total as int == sum_of(data@.subrange(0, idx as int)),
        decreases data@.len() - idx,
    {
        proof {
            let prefix = data@.subrange(0, idx as int + 1);
            assert(prefix.drop_last() =~= data@.subrange(0, idx as int));
            assert(prefix.last() == data@[idx as int]);
            lemma_sum_of_bounds(data@.subrange(0, idx as int));
            assert(idx as int * 0x8000_0000_0000_0000 <= 0xffff_ffff_ffff_ffff
                * 0x8000_0000_0000_0000) by (nonlinear_arith)
                requires
                    0 <= idx <= 0xffff_ffff_ffff_ffff,
            ;
            assert(idx as int * 0x7fff_ffff_ffff_ffff <= 0xffff_ffff_ffff_ffff
                * 0x7fff_ffff_ffff_ffff) by (nonlinear_arith)
                requires
                    0 <= idx <= 0xffff_ffff_ffff_ffff,
            ;
        }
        total = total + data[idx] as i128;
        idx = idx + 1;
    }
    proof {
        assert(data@.subrange(0, data@.len() as int) =~= data@);
    }
    total
}

/// A copy of the values, sorted ascending: same multiset of elements,
/// ordered by `value_order`.
fn sorted_copy(data: &Vec<i64>) -> (out: Vec<i64>)
    ensures
        out@.to_multiset() == data@.to_multiset(),
        sorted_by(out@, value_order()),
        out@.len() == data@.len(),
{
    broadcast use vstd::seq_lib::group_to_multiset_ensures;
    broadcast use vstd::seq_lib::to_multiset_insert;

    let mut out: Vec<i64> = Vec::new();
    let mut idx: usize = 0;
    while idx < data.len()
        invariant
            idx <= data@.len(),
            out@.len() == idx,
            out@.to_multiset() == data@.subrange(0, idx as int).to_multiset(),
            sorted_by(out@, value_order()),
        decreases data@.len() - idx,
    {
        let x: i64 = data[idx];
        let mut pos: usize = 0;
        while pos < out.len() && out[pos] <= x
            invariant
                pos <= out@.len(),
                forall|k: int| 0 <= k < pos ==> out@[k] <= x,
            decreases out@.len() - pos,
        {
            pos = pos + 1;
        }
        proof {
            if (pos as int) < out@.len() {
                assert forall|k: int| pos <= k < out@.len() implies x < out@[k] by {
                    if (pos as int) < k {
                        assert(value_order()(out@[pos as int], out@[k]));
                        assert(out@[pos as int] <= out@[k]);
                    }
                }
            }
        }
        let ghost pre = out@;
        out.insert(pos, x);
        proof {
            assert(out@ == pre.insert(pos as int, x));
            assert(forall|i: int, j: int|
                0 <= i < j < out@.len() ==> #[trigger] value_order()(out@[i], out@[j])) by {
                assert(forall|k: int| 0 <= k < pos ==> out@[k] == pre[k]);
                assert(out@[pos as int] == x);
                assert(forall|k: int| pos < k < out@.len() ==> out@[k] == pre[k - 1]);
            }
            vstd::seq_lib::to_multiset_insert(pre, pos as int, x);
            let prior = data@.subrange(0, idx as int);
            let prefix = data@.subrange(0, idx as int + 1);
            assert(prefix =~= prior.insert(prior.len() as int, x));
            vstd::seq_lib::to_multiset_insert(prior, prior.len() as int, x);
        }
        idx = idx + 1;
    }
    proof {
        assert(data@.subrange(0, data@.len() as int) =~= data@);
    }
    out
}

/// The median of the values: `None` exactly when the input is empty,
/// otherwise the element at rank `floor(len / 2)` of the ascending order —
/// the upper-middle element for even-length input.
pub fn median(data: &Vec<i64>) -> (r: Option<i64>)
    ensures
        r is None <==> data@.len() == 0,
        data@.len() > 0 ==> r == Some(median_of(data@)),
{
    if data.len() == 0 {
        return None;
    }
    let sorted = sorted_copy(data);
    proof {
        lemma_value_order_total();
        data@.lemma_sort_by_ensures(value_order());
        lemma_sorted_unique(sorted@, data@.sort_by(value_order()), value_order());
        assert(sorted@ =~= data@.sort_by(value_order()));
    }
    let target: usize = data.len() / 2;
    Some(sorted[target])
}

/// The temperature column of a window of readings.
pub open spec fn temperatures_of(s: Seq<Reading>) -> Seq<i64> {
    s.map_values(|r: Reading| r.temperature_q)
}

/// The humidity column of a window of readings.
pub open spec fn humidities_of(s: Seq<Reading>) -> Seq<i64> {
    s.map_values(|r: Reading| r.humidity_q)
}

/// Summary statistics over one window of readings, in quantized units.
/// The mean is carried as an exact numerator (`*_sum_q`) together with
/// `sample_count`; dividing by `4 * sample_count` yields the mean of the
/// decoded values. The medians are quantized values themselves and are
/// `None` exactly when the window is empty.
pub struct WindowStats {
    pub sample_count: usize,
    pub temperature_sum_q: i128,
    pub humidity_sum_q: i128,
    pub median_temperature_q: Option<i64>,
    pub median_humidity_q: Option<i64>,
}

/// `stats` are exactly the statistics of the window `s`: the counts and
/// exact sums behind the two means, and the upper-middle medians, each
/// quantity ordered independently of the other.
pub open spec fn stats_match(stats: WindowStats, s: Seq<Reading>) -> bool {
    &&& stats.sample_count == s.len()
    &&& stats.temperature_sum_q as int == sum_of(temperatures_of(s))
    &&& stats.humidity_sum_q as int == sum_of(humidities_of(s))
    &&& (stats.median_temperature_q is None <==> s.len() == 0)
    &&& (stats.median_humidity_q is None <==> s.len() == 0)
    &&& (s.len() > 0 ==> stats.median_temperature_q == Some(median_of(temperatures_of(s))))
    &&& (s.len() > 0 ==> stats.median_humidity_q == Some(median_of(humidities_of(s))))
}

/// Statistics of a window: exact sums and counts for the two means, and the
/// upper-middle median of each quantity, each quantity ordered
/// independently of the other.
pub fn window_stats(samples: &Vec<Reading>) -> (r: WindowStats)
    ensures
        stats_match(r, samples@),
{
    let mut temps: Vec<i64> = Vec::new();
    let mut hums: Vec<i64> = Vec::new();
    let mut idx: usize = 0;
    while idx < samples.len()
        invariant
            idx <= samples@.len(),
            temps@ == temperatures_of(samples@.subrange(0, idx as int)),
            hums@ == humidities_of(samples@.subrange(0, idx as int)),
        decreases samples@.len() - idx,
    {
        let ghost pre_t = temps@;
        let ghost pre_h = hums@;
        temps.push(samples[idx].temperature_q);
        hums.push(samples[idx].humidity_q);
        proof {
            let prior = samples@.subrange(0, idx as int);
            let prefix = samples@.subrange(0, idx as int + 1);
            assert(prefix =~= prior.push(samples@[idx as int]));
            assert(temps@ =~= temperatures_of(prefix));
            assert(hums@ =~= humidities_of(prefix));
        }
        idx = idx + 1;
    }
    proof {
        assert(samples@.subrange(0, samples@.len() as int) =~= samples@);
    }
    let temperature_sum_q = sum_values(&temps);
    let humidity_sum_q = sum_values(&hums);
    let median_temperature_q = median(&temps);
    let median_humidity_q = median(&hums);
    WindowStats {
        sample_count: samples.len(),
        temperature_sum_q,
        humidity_sum_q,
        median_temperature_q,
        median_humidity_q,
    }
}

/// The median of a window that is already ascending is its element at rank
/// `floor(len / 2)`: for even length the upper-middle element, never an
/// average of the two middle ones.
pub proof fn lemma_median_of_sorted(s: Seq<i64>)
    requires
        s.len() > 0,
        sorted_by(s, value_order()),
    ensures
        median_of(s) == s[s.len() as int / 2],
{
    lemma_value_order_total();
    s.lemma_sort_by_ensures(value_order());
    lemma_sorted_unique(s.sort_by(value_order()), s, value_order());
}

/// The median of a non-empty sequence is one of its elements: the median is
/// selected, never interpolated, also for even-length input.
pub proof fn lemma_median_is_element(s: Seq<i64>)
    requires
        s.len() > 0,
    ensures
        s.contains(median_of(s)),
{
    lemma_value_order_total();
    s.lemma_sort_by_ensures(value_order());
    let sorted = s.sort_by(value_order());
    vstd::seq_lib::to_multiset_len(sorted);
    vstd::seq_lib::to_multiset_len(s);
    assert(sorted.len() == s.len());
    let mid = s.len() as int / 2;
    assert(sorted.contains(sorted[mid]));
    assert(s.contains(sorted[mid]));
}

} // verus!
