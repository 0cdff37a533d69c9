use vstd::prelude::*;
use crate::calendar::{CalendarDate, DateError};
use crate::random::{
    is_alphanumeric,
    random_alphanumeric,
    random_i32,
    random_i32_in,
    random_i64,
    random_u16_in,
    random_u64,
};

verus! {

/// First year (inclusive) of the range that generated dates are drawn from.
pub const YEAR_LO: i32 = 1;

/// End (exclusive) of the range of generated years.
pub const YEAR_HI: i32 = 9999;

/// First day of the year (inclusive) that generated dates are drawn from.
pub const ORDINAL_LO: u16 = 1;

/// End (exclusive) of the range of generated days of the year.
pub const ORDINAL_HI: u16 = 365;

/// Bit pattern of the double 1.0.
pub const ONE_BITS: u64 = 0x3FF0_0000_0000_0000;

/// One synthetic row: fifteen columns of five kinds. The double-precision
/// columns `f4`..`f7` hold IEEE-754 bit patterns.
#[derive(Debug)]
pub struct Record {
    pub f1: i64,
    pub f2: i64,
    pub f3: i32,
    pub f4: u64,
    pub f5: u64,
    pub f6: u64,
    pub f7: u64,
    pub f8: String,
    pub f9: String,
    pub f10: CalendarDate,
    pub f11: CalendarDate,
    pub f12: CalendarDate,
    pub f13: String,
    pub f14: String,
    pub f15: String,
}

/// A generated string: exactly `len` ASCII letters and digits.
pub open spec fn is_random_text(s: Seq<char>, len: nat) -> bool {
    &&& s.len() == len
    &&& forall|i: int| 0 <= i < s.len() ==> is_alphanumeric(#[trigger] s[i])
}

/// A generated date: a calendar date whose year lies in [1, 9999) and whose
/// day of the year lies in [1, 365).
pub open spec fn is_random_date(d: CalendarDate) -> bool {
    &&& d.wf()
    &&& YEAR_LO <= d.spec_year() < YEAR_HI
    &&& ORDINAL_LO <= d.spec_ordinal() < ORDINAL_HI
}

/// The bit pattern of a double in [1, 2): exponent of 1.0, any mantissa.
pub open spec fn is_unit_double_bits(b: u64) -> bool {
    ONE_BITS <= b < 0x4000_0000_0000_0000
}

/// The bit pattern of the double in [1, 2) whose mantissa is the top 52
/// bits of `x`.
pub open spec fn double_bits_from(x: u64) -> u64 {
    (ONE_BITS + x / 4096) as u64
}

impl Record {
    /// Every date column names a real calendar date.
    pub open spec fn wf(&self) -> bool {
        &&& self.f10.wf()
        &&& self.f11.wf()
        &&& self.f12.wf()
    }

    /// What every generated record satisfies for strings of length `len`.
    pub open spec fn is_generated(&self, len: nat) -> bool {
        &&& is_unit_double_bits(self.f4)
        &&& is_unit_double_bits(self.f5)
        &&& is_unit_double_bits(self.f6)
        &&& is_unit_double_bits(self.f7)
        &&& is_random_text(self.f8@, len)
        &&& is_random_text(self.f9@, len)
        &&& is_random_date(self.f10)
        &&& is_random_date(self.f11)
        &&& is_random_date(self.f12)
        &&& is_random_text(self.f13@, len)
        &&& is_random_text(self.f14@, len)
        &&& is_random_text(self.f15@, len)
    }
}

/// The double in [1, 2) whose mantissa is the top 52 bits of `x`.
pub fn double_bits(x: u64) -> (r: u64)
    ensures
        r == double_bits_from(x),
        is_unit_double_bits(r),
{
    ONE_BITS + x / 4096
}

/// Draws a date: a year in [1, 9999) and a day of the year in [1, 365),
/// checked against the calendar. Every such pair is a date, so this never
/// fails.
pub fn random_date(rng: &mut rand::rngs::ThreadRng) -> (r: Result<CalendarDate, DateError>)
    ensures
        r matches Ok(d) && is_random_date(d),
{
    let year = random_i32_in(rng, YEAR_LO, YEAR_HI);
    let ordinal = random_u16_in(rng, ORDINAL_LO, ORDINAL_HI);
    CalendarDate::from_ordinal_date(year, ordinal)
}

/// Draws one record with strings of length `len`.
pub fn random_record(rng: &mut rand::rngs::ThreadRng, len: usize) -> (r: Result<
    Record,
    DateError,
>)
    ensures
        r matches Ok(rec) && rec.wf() && rec.is_generated(len as nat),
{
    let f1 = random_i64(rng);
    let f2 = random_i64(rng);
    let f3 = random_i32(rng);
    let f4 = double_bits(random_u64(rng));
    let f5 = double_bits(random_u64(rng));
    let f6 = double_bits(random_u64(rng));
    let f7 = double_bits(random_u64(rng));
    let f8 = random_alphanumeric(rng, len);
    let f9 = random_alphanumeric(rng, len);
    let f10 = random_date(rng)?;
    let f11 = random_date(rng)?;
    let f12 = random_date(rng)?;
    let f13 = random_alphanumeric(rng, len);
    let f14 = random_alphanumeric(rng, len);
    let f15 = random_alphanumeric(rng, len);
    Ok(Record { f1, f2, f3, f4, f5, f6, f7, f8, f9, f10, f11, f12, f13, f14, f15 })
}

/// Draws a batch of `count` records with strings of length `len`.
pub fn random_batch(rng: &mut rand::rngs::ThreadRng, count: usize, len: usize) -> (r: Result<
    Vec<Record>,
    DateError,
>)
    ensures
        r matches Ok(b) && b@.len() == count && forall|i: int|
            0 <= i < b@.len() ==> #[trigger] b@[i].wf() && b@[i].is_generated(len as nat),
{
    let mut batch: Vec<Record> = Vec::with_capacity(count);
    let mut i: usize = 0;
    while i < count
        invariant
            i <= count,
            batch@.len() == i,
            forall|k: int|
                0 <= k < batch@.len() ==> #[trigger] batch@[k].wf() && batch@[k].is_generated(
                    len as nat,
                ),
        decreases count - i,
    {
        match random_record(rng, len) {
            Ok(rec) => batch.push(rec),
            Err(e) => return Err(e),
        }
        i = i + 1;
    }
    Ok(batch)
}

} // verus!
