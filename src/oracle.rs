//! Random dates between the Gregorian calendar's adoption and a century past
//! the present day.

use rand::Rng;
use rand_chacha::ChaCha20Rng;
use vstd::prelude::*;

use crate::calendar::{in_supported_range, lemma_earlier_year, lemma_supported_range, years_later, CivilDate, MAX_YEAR};

verus! {

/// How many years past the present day the drawn dates may reach.
pub const YEARS_AHEAD: i16 = 100;

/// 1582-10-15, the first day the Gregorian calendar was in effect.
pub open spec fn gregorian_start() -> CivilDate {
    CivilDate { year: 1582, month: 10, day: 15 }
}

/// The first day that no drawn date reaches: `YEARS_AHEAD` years after `now`.
pub open spec fn upper_bound(now: CivilDate) -> CivilDate {
    years_later(now, YEARS_AHEAD as int)
}

/// Why no date could be drawn.
#[derive(Clone, Copy, Debug, PartialEq, Eq, Structural)]
pub enum DateError {
    /// The present day precedes the adoption of the Gregorian calendar.
    BeforeGregorian,
    /// The upper bound lies past the last supported year.
    OutOfRange,
}

/// The first day of the Gregorian calendar.
pub fn gregorian_start_date() -> (r: CivilDate)
    ensures
        r == gregorian_start(),
        r.wf(),
{
    CivilDate { year: 1582, month: 10, day: 15 }
}

/// The range of day offsets from `now` to draw from: from the Gregorian start
/// (inclusive) to `YEARS_AHEAD` years on (exclusive).
pub fn offset_bounds(now: CivilDate) -> (r: Result<(i32, i32), DateError>)
    requires
        now.wf(),
    ensures
        now.days() < gregorian_start().days() <==> r == Err::<(i32, i32), DateError>(DateError::BeforeGregorian),
        r == Err::<(i32, i32), DateError>(DateError::OutOfRange) <==> (gregorian_start().days() <= now.days() && now.year + YEARS_AHEAD > MAX_YEAR),
        r.is_ok() ==> ({
            let (lo, hi) = r.unwrap();
            &&& lo == gregorian_start().days() - now.days()
            &&& hi == upper_bound(now).days() - now.days()
            &&& lo <= 0 < hi
        }),
{
    let start = gregorian_start_date();
    let start_to_now = start.days_until(&now);
    if start_to_now < 0 {
        return Err(DateError::BeforeGregorian);
    }
    match now.checked_add_years(YEARS_AHEAD) {
        None => Err(DateError::OutOfRange),
        Some(end) => {
            proof {
                lemma_earlier_year(now, end);
            }
            let now_to_end = now.days_until(&end);
            Ok((-start_to_now, now_to_end))
        },
    }
}

/// The date `offset` days from `now`; `now` itself for a zero offset, and `None`
/// where that day falls outside the supported years.
pub fn date_at_offset(now: CivilDate, offset: i32) -> (r: Option<CivilDate>)
    requires
        now.wf(),
    ensures
        r.is_some() <==> in_supported_range(now.days() + offset),
        r.is_some() ==> r.unwrap().wf() && r.unwrap().days() == now.days() + offset,
        offset == 0 ==> r == Some(now),
{
    if offset == 0 {
        proof {
            lemma_supported_range(now);
        }
        Some(now)
    } else {
        now.checked_add_days(offset)
    }
}

/// The ChaCha20 generator of rand_chacha, carried through as an opaque value.
#[verifier::external_type_specification]
#[verifier::external_body]
pub struct ExChaCha20Rng(ChaCha20Rng);

/// Relies on rand's `Rng::gen_range` (here on a ChaCha20 generator): a value
/// drawn from `lo..hi`; it panics on an empty range.
#[verifier::external_body]
fn draw_in_range(rng: &mut ChaCha20Rng, lo: i32, hi: i32) -> (r: i32)
    requires
        lo < hi,
    ensures
        lo <= r < hi,
{
    rng.gen_range(lo..hi)
}

/// A date drawn uniformly from the Gregorian start up to, not including, the
/// day `YEARS_AHEAD` years after `now`.
pub fn generate_date(now: CivilDate, rng: &mut ChaCha20Rng) -> (r: Result<CivilDate, DateError>)
    requires
        now.wf(),
    ensures
        now.days() < gregorian_start().days() <==> r == Err::<CivilDate, DateError>(DateError::BeforeGregorian),
        r == Err::<CivilDate, DateError>(DateError::OutOfRange) <==> (gregorian_start().days() <= now.days() && now.year + YEARS_AHEAD > MAX_YEAR),
        r.is_ok() ==> ({
            let d = r.unwrap();
            &&& d.wf()
            &&& gregorian_start().days() <= d.days()
            &&& d.days() < upper_bound(now).days()
        }),
{
    let (lo, hi) = match offset_bounds(now) {
        Ok(bounds) => bounds,
        Err(e) => return Err(e),
    };
    let offset = draw_in_range(rng, lo, hi);
    proof {
        lemma_supported_range(gregorian_start());
        lemma_supported_range(upper_bound(now));
    }
    match date_at_offset(now, offset) {
        Some(d) => Ok(d),
        None => Err(DateError::OutOfRange),
    }
}

} // verus!
