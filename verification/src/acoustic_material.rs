//! Frequency-indexed absorption tables and their band lookup.
//!
//! A material pairs each band center frequency with an absorption
//! coefficient. The library selects coefficients by frequency but never
//! interprets them numerically: each coefficient is carried as an opaque
//! 32-bit payload chosen by the caller, who owns the numeric encoding.

use vstd::prelude::*;
use crate::bands::{band_filter, lemma_band_filter_all, octave, octave_table, strictly_increasing};

verus! {

/// Payload of the default absorption coefficient: the IEEE-754
/// single-precision pattern of one hundredth.
pub const DEFAULT_ABSORPTION: u32 = 0x3C23_D70A;

/// Raw absorption input: a list of `(frequency, coefficient)` pairs.
pub struct AbsorptionData(Vec<(u32, u32)>);

impl View for AbsorptionData {
    type V = Seq<(u32, u32)>;

    closed spec fn view(&self) -> Seq<(u32, u32)> {
        self.0@
    }
}

impl AbsorptionData {
    pub fn new(absorption: Vec<(u32, u32)>) -> (d: Self)
        ensures
            d@ == absorption@,
    {
        Self(absorption)
    }
}

/// The mathematical content of a material: two parallel sequences of equal
/// length, the frequencies strictly increasing.
pub struct MaterialView {
    pub frequencies: Seq<u32>,
    pub absorption: Seq<u32>,
}

/// What a band lookup reports for a query frequency: the clamped coefficient
/// at either end of the table, or the two bracketing table entries between
/// which the caller interpolates.
#[derive(Clone, Copy, Debug, PartialEq, Eq, Structural)]
pub enum AbsorptionQuery {
    /// The query lies at or below the lowest band; its coefficient applies.
    Lowest { coefficient: u32 },
    /// The query lies above the highest band; its coefficient applies.
    Highest { coefficient: u32 },
    /// The query lies inside the table, bracketed by two adjacent bands.
    Between {
        lower_frequency: u32,
        lower_coefficient: u32,
        upper_frequency: u32,
        upper_coefficient: u32,
    },
}

/// Octave band absorption coefficients, 63 Hz to 16000 Hz by default.
pub struct AcousticMaterial {
    absorption: Vec<u32>,
    frequencies: Vec<u32>,
}

impl View for AcousticMaterial {
    type V = MaterialView;

    closed spec fn view(&self) -> MaterialView {
        MaterialView { frequencies: self.frequencies@, absorption: self.absorption@ }
    }
}

impl AcousticMaterial {
    #[verifier::type_invariant]
    closed spec fn inv(self) -> bool {
        &&& self.frequencies@.len() >= 1
        &&& self.frequencies@.len() == self.absorption@.len()
        &&& strictly_increasing(self.frequencies@)
    }

    /// Builds a material over the nominal octave bands; the caller supplies
    /// one coefficient per band.
    pub fn new(absorption: Vec<u32>) -> (m: Self)
        requires
            absorption@.len() == octave_table().len(),
        ensures
            m@.frequencies == octave_table(),
            m@.absorption == absorption@,
    {
        proof {
            lemma_band_filter_all(octave_table(), 63, 16000);
        }
        let frequencies = octave(63, 16000);
        Self { absorption, frequencies }
    }

    /// Builds a material from `(frequency, coefficient)` pairs, which must be
    /// nonempty and strictly increasing in frequency.
    pub fn from_absorption_data(data: AbsorptionData) -> (m: Self)
        requires
            data@.len() >= 1,
            forall|a: int, b: int| 0 <= a < b < data@.len() ==> data@[a].0 < data@[b].0,
        ensures
            m@.frequencies.len() == data@.len(),
            m@.absorption.len() == data@.len(),
            forall|k: int| 0 <= k < data@.len() ==> m@.frequencies[k] == #[trigger] data@[k].0,
            forall|k: int| 0 <= k < data@.len() ==> m@.absorption[k] == #[trigger] data@[k].1,
    {
        let mut absorption: Vec<u32> = Vec::new();
        let mut frequencies: Vec<u32> = Vec::new();
        let n = data.0.len();
        let mut i: usize = 0;
        while i < n
            invariant
                0 <= i <= n,
                n == data@.len(),
                frequencies@.len() == i,
                absorption@.len() == i,
                forall|k: int| 0 <= k < i ==> frequencies@[k] == #[trigger] data@[k].0,
                forall|k: int| 0 <= k < i ==> absorption@[k] == #[trigger] data@[k].1,
            decreases n - i,
        {
            let pair = data.0[i];
            frequencies.push(pair.0);
            absorption.push(pair.1);
            i += 1;
        }
        proof {
            assert forall|a: int, b: int|
                0 <= a < b < frequencies@.len() implies frequencies@[a] < frequencies@[b] by {
                assert(frequencies@[a] == data@[a].0);
                assert(frequencies@[b] == data@[b].0);
            }
        }
        Self { absorption, frequencies }
    }

    /// Looks a query frequency up in the table: clamped below the first band
    /// or above the last, otherwise bracketed by the two adjacent bands whose
    /// frequencies surround the query.
    pub fn absorption_function(&self, frequency: u32) -> (r: AbsorptionQuery)
        ensures
            ({
                let fs = self@.frequencies;
                let ab = self@.absorption;
                match r {
                    AbsorptionQuery::Lowest { coefficient } => {
                        &&& fs.len() >= 1
                        &&& frequency <= fs[0]
                        &&& coefficient == ab[0]
                    },
                    AbsorptionQuery::Highest { coefficient } => {
                        &&& fs.len() >= 1
                        &&& frequency > fs[fs.len() - 1]
                        &&& coefficient == ab[fs.len() - 1]
                    },
                    AbsorptionQuery::Between {
                        lower_frequency,
                        lower_coefficient,
                        upper_frequency,
                        upper_coefficient,
                    } => {
                        exists|i: int|
                            {
                                &&& 1 <= i < fs.len()
                                &&& fs[i - 1] < frequency <= #[trigger] fs[i]
                                &&& lower_frequency == fs[i - 1]
                                &&& lower_coefficient == ab[i - 1]
                                &&& upper_frequency == fs[i]
                                &&& upper_coefficient == ab[i]
                            }
                    },
                }
            }),
    {
        proof {
            use_type_invariant(&*self);
        }
        let n = self.frequencies.len();
        let mut i: usize = 0;
        while i < n && self.frequencies[i] < frequency
            invariant
                0 <= i <= n,
                n == self@.frequencies.len(),
                self.inv(),
                forall|j: int| 0 <= j < i ==> self@.frequencies[j] < frequency,
            decreases n - i,
        {
            i += 1;
        }
        if i == 0 {
            AbsorptionQuery::Lowest { coefficient: self.absorption[0] }
        } else if i < n {
            let r = AbsorptionQuery::Between {
                lower_frequency: self.frequencies[i - 1],
                lower_coefficient: self.absorption[i - 1],
                upper_frequency: self.frequencies[i],
                upper_coefficient: self.absorption[i],
            };
            proof {
                let fs = self@.frequencies;
                assert(fs[i as int - 1] < frequency <= fs[i as int]);
            }
            r
        } else {
            AbsorptionQuery::Highest { coefficient: self.absorption[n - 1] }
        }
    }
}

impl Default for AcousticMaterial {
    /// The default material: every nominal octave band at the default
    /// absorption payload.
    fn default() -> (m: Self)
        ensures
            m@.frequencies == octave_table(),
            m@.absorption.len() == octave_table().len(),
            forall|k: int|
                0 <= k < m@.absorption.len() ==> m@.absorption[k] == DEFAULT_ABSORPTION,
    {
        let mut absorption: Vec<u32> = Vec::new();
        let mut i: usize = 0;
        while i < 9
            invariant
                0 <= i <= 9,
                absorption@.len() == i,
                forall|k: int| 0 <= k < i ==> absorption@[k] == DEFAULT_ABSORPTION,
            decreases 9 - i,
        {
            absorption.push(DEFAULT_ABSORPTION);
            i += 1;
        }
        AcousticMaterial::new(absorption)
    }
}

/// The tracer queries materials no higher than 8000 Hz; higher frequencies
/// are clamped to 8000 Hz so the table is never extrapolated beyond its
/// calibrated range.
pub fn clamp_query_frequency(frequency: u32) -> (c: u32)
    ensures
        c == if frequency > 8000 { 8000u32 } else { frequency },
{
    if frequency > 8000 {
        8000
    } else {
        frequency
    }
}

} // verus!
