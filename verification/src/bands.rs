//! Nominal octave and third-octave band center frequencies, in hertz.

use vstd::prelude::*;

verus! {

/// A sequence of frequencies is strictly increasing.
pub open spec fn strictly_increasing(s: Seq<u32>) -> bool {
    forall|a: int, b: int| 0 <= a < b < s.len() ==> s[a] < s[b]
}

/// The nominal octave band centers, 63 Hz through 16000 Hz.
pub open spec fn octave_table() -> Seq<u32> {
    seq![63u32, 125u32, 250u32, 500u32, 1000u32, 2000u32, 4000u32, 8000u32, 16000u32]
}

/// The nominal third-octave band centers, 63 Hz through 16000 Hz.
pub open spec fn third_octave_table() -> Seq<u32> {
    seq![
        63u32, 80u32, 100u32, 125u32, 160u32, 200u32, 250u32, 315u32, 400u32,
        500u32, 630u32, 800u32, 1000u32, 1250u32, 1600u32, 2000u32, 2500u32,
        3150u32, 4000u32, 5000u32, 6300u32, 8000u32, 10000u32, 12500u32, 16000u32,
    ]
}

/// The members of `s` that lie in the inclusive range `[start, end]`, in order.
pub open spec fn band_filter(s: Seq<u32>, start: u32, end: u32) -> Seq<u32> {
    s.filter(|f: u32| start <= f && f <= end)
}

proof fn lemma_band_filter_empty(start: u32, end: u32)
    ensures
        band_filter(Seq::<u32>::empty(), start, end) == Seq::<u32>::empty(),
{
    reveal_with_fuel(Seq::<_>::filter, 1);
}

proof fn lemma_band_filter_push(s: Seq<u32>, x: u32, start: u32, end: u32)
    ensures
        band_filter(s.push(x), start, end) == if start <= x && x <= end {
            band_filter(s, start, end).push(x)
        } else {
            band_filter(s, start, end)
        },
{
    reveal_with_fuel(Seq::<_>::filter, 1);
    assert(s.push(x).drop_last() =~= s);
}

/// Selecting a band range keeps only nominal members: every selected value is
/// drawn from the table, the selection is strictly increasing, and every
/// selected value lies in the inclusive range.
pub proof fn lemma_band_filter_properties(s: Seq<u32>, start: u32, end: u32)
    requires
        strictly_increasing(s),
    ensures
        strictly_increasing(band_filter(s, start, end)),
        forall|k: int|
            0 <= k < band_filter(s, start, end).len() ==> s.contains(
                #[trigger] band_filter(s, start, end)[k],
            ),
        forall|k: int|
            0 <= k < band_filter(s, start, end).len() ==> start <= #[trigger] band_filter(
                s,
                start,
                end,
            )[k] <= end,
    decreases s.len(),
{
    if s.len() == 0 {
        assert(s =~= Seq::<u32>::empty());
        lemma_band_filter_empty(start, end);
    } else {
        let sub = s.drop_last();
        let last = s.last();
        assert(sub.push(last) =~= s);
        assert(strictly_increasing(sub)) by {
            assert forall|a: int, b: int| 0 <= a < b < sub.len() implies sub[a] < sub[b] by {
                assert(s[a] < s[b]);
            }
        }
        lemma_band_filter_properties(sub, start, end);
        lemma_band_filter_push(sub, last, start, end);
        let f = band_filter(s, start, end);
        let g = band_filter(sub, start, end);
        assert forall|k: int| 0 <= k < f.len() implies s.contains(f[k]) && start <= f[k] <= end by {
            if k < g.len() {
                assert(f[k] == g[k]);
                let j = choose|j: int| 0 <= j < sub.len() && sub[j] == g[k];
                assert(s[j] == f[k]);
            } else {
                assert(f[k] == last);
                assert(s[s.len() - 1] == last);
            }
        }
        assert forall|a: int, b: int| 0 <= a < b < f.len() implies f[a] < f[b] by {
            if b < g.len() {
                assert(g[a] < g[b]);
            } else {
                assert(f[b] == last);
                assert(f[a] == g[a]);
                assert(sub.contains(g[a]));
                let j = choose|j: int| 0 <= j < sub.len() && sub[j] == g[a];
                assert(s[j] < s[s.len() - 1]);
            }
        }
    }
}

/// Selecting a range that covers every member keeps the whole sequence.
pub proof fn lemma_band_filter_all(s: Seq<u32>, start: u32, end: u32)
    requires
        forall|k: int| 0 <= k < s.len() ==> start <= #[trigger] s[k] <= end,
    ensures
        band_filter(s, start, end) == s,
    decreases s.len(),
{
    if s.len() == 0 {
        assert(s =~= Seq::<u32>::empty());
        lemma_band_filter_empty(start, end);
    } else {
        let sub = s.drop_last();
        assert(sub.push(s.last()) =~= s);
        lemma_band_filter_all(sub, start, end);
        lemma_band_filter_push(sub, s.last(), start, end);
        assert(band_filter(s, start, end) =~= s);
    }
}

fn octave_values() -> (v: Vec<u32>)
    ensures
        v@ == octave_table(),
{
    let mut v: Vec<u32> = Vec::new();
    v.push(63);
    v.push(125);
    v.push(250);
    v.push(500);
    v.push(1000);
    v.push(2000);
    v.push(4000);
    v.push(8000);
    v.push(16000);
    proof {
        assert(v@ =~= octave_table());
    }
    v
}

fn third_octave_values() -> (v: Vec<u32>)
    ensures
        v@ == third_octave_table(),
{
    let mut v: Vec<u32> = Vec::new();
    v.push(63);
    v.push(80);
    v.push(100);
    v.push(125);
    v.push(160);
    v.push(200);
    v.push(250);
    v.push(315);
    v.push(400);
    v.push(500);
    v.push(630);
    v.push(800);
    v.push(1000);
    v.push(1250);
    v.push(1600);
    v.push(2000);
    v.push(2500);
    v.push(3150);
    v.push(4000);
    v.push(5000);
    v.push(6300);
    v.push(8000);
    v.push(10000);
    v.push(12500);
    v.push(16000);
    proof {
        assert(v@ =~= third_octave_table());
    }
    v
}

fn filter_bands(table: &Vec<u32>, start: u32, end: u32) -> (v: Vec<u32>)
    requires
        strictly_increasing(table@),
    ensures
        v@ == band_filter(table@, start, end),
        strictly_increasing(v@),
        forall|k: int| 0 <= k < v@.len() ==> table@.contains(#[trigger] v@[k]),
        forall|k: int| 0 <= k < v@.len() ==> start <= #[trigger] v@[k] <= end,
{
    let mut v: Vec<u32> = Vec::new();
    proof {
        assert(table@.take(0) =~= Seq::<u32>::empty());
        lemma_band_filter_empty(start, end);
    }
    let mut i: usize = 0;
    while i < table.len()
        invariant
            0 <= i <= table@.len(),
            v@ == band_filter(table@.take(i as int), start, end),
        decreases table@.len() - i,
    {
        let f = table[i];
        proof {
            assert(table@.take(i as int + 1) =~= table@.take(i as int).push(table@[i as int]));
            lemma_band_filter_push(table@.take(i as int), table@[i as int], start, end);
        }
        if start <= f && f <= end {
            v.push(f);
        }
        i += 1;
    }
    proof {
        assert(table@.take(table@.len() as int) =~= table@);
        lemma_band_filter_properties(table@, start, end);
    }
    v
}

/// Returns the nominal octave band frequencies inside a given inclusive range.
///
/// `start` is the lowest admitted frequency, `end` the highest.
pub fn octave(start: u32, end: u32) -> (v: Vec<u32>)
    ensures
        v@ == band_filter(octave_table(), start, end),
        strictly_increasing(v@),
        forall|k: int| 0 <= k < v@.len() ==> octave_table().contains(#[trigger] v@[k]),
        forall|k: int| 0 <= k < v@.len() ==> start <= #[trigger] v@[k] <= end,
{
    let table = octave_values();
    filter_bands(&table, start, end)
}

/// Returns the nominal third-octave band frequencies inside a given inclusive
/// range.
///
/// `start` is the lowest admitted frequency, `end` the highest.
pub fn third_octave(start: u32, end: u32) -> (v: Vec<u32>)
    ensures
        v@ == band_filter(third_octave_table(), start, end),
        strictly_increasing(v@),
        forall|k: int| 0 <= k < v@.len() ==> third_octave_table().contains(#[trigger] v@[k]),
        forall|k: int| 0 <= k < v@.len() ==> start <= #[trigger] v@[k] <= end,
{
    let table = third_octave_values();
    filter_bands(&table, start, end)
}

} // verus!
