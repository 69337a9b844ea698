//! Masses and ratios in fixed point, and the conversion between the two ways
//! of saying how wet something is.
//!
//! A mass is a whole number of micrograms. A ratio is a whole number of parts
//! per million, so `RATIO_ONE` stands for 1 (or 100 %). Both are signed: a
//! solved system may hold a negative value, and it is then handed on as it is.

use vstd::prelude::*;

verus! {

/// The ratio 1, in parts per million.
pub const RATIO_ONE: i64 = 1_000_000;

/// The number of micrograms in a gram.
pub const MICROGRAMS_PER_GRAM: i64 = 1_000_000;

/// The number of parts per million in a percent.
pub const PPM_PER_PERCENT: i64 = 10_000;

/// A dimensionless ratio, in parts per million.
#[derive(Clone, Copy, Debug, PartialEq, Eq, PartialOrd, Ord, Hash, Structural)]
pub struct Ratio {
    pub ppm: i64,
}

/// A mass, in micrograms.
#[derive(Clone, Copy, Debug, PartialEq, Eq, PartialOrd, Ord, Hash, Structural)]
pub struct Mass {
    pub micrograms: i64,
}

impl View for Ratio {
    type V = int;

    /// The ratio as a number of parts per million.
    open spec fn view(&self) -> int {
        self.ppm as int
    }
}

impl View for Mass {
    type V = int;

    /// The mass as a number of micrograms.
    open spec fn view(&self) -> int {
        self.micrograms as int
    }
}

/// `a` and `b` are equal, or `b` lies strictly within 0.1 % of `a` around `a`.
///
/// The margin is a thousandth of `a` itself, so the relation is not symmetric,
/// and a negative `a` is close to nothing but itself.
pub open spec fn within_tolerance(a: int, b: int) -> bool {
    a == b || (999 * a < 1000 * b && 1000 * b < 1001 * a)
}

/// The water ratio of something with hydratation `h`: `h / (h + 1)`, rounded down.
pub open spec fn spec_hydratation_to_water_ratio(h: int) -> int {
    (h * RATIO_ONE) / (h + RATIO_ONE)
}

/// The hydratation of something with water ratio `w`: `w / (1 - w)`, rounded up.
pub open spec fn spec_water_ratio_to_hydratation(w: int) -> int {
    (w * RATIO_ONE + (RATIO_ONE - w) - 1) / (RATIO_ONE - w)
}

/// The ratio of `part` to `whole`, in parts per million, by Euclidean division
/// (rounded down where `whole` is positive); `None` where `whole` is zero or
/// the ratio is beyond what a `Ratio` holds.
pub open spec fn spec_ratio_of(part: int, whole: int) -> Option<int> {
    if whole == 0 {
        None
    } else {
        let q = (part * RATIO_ONE) / whole;
        if i64::MIN <= q <= i64::MAX {
            Some(q)
        } else {
            None
        }
    }
}

/// Decides `within_tolerance` on machine integers.
fn close_enough(a: i64, b: i64) -> (r: bool)
    ensures
        r == within_tolerance(a as int, b as int),
{
    let wide_a: i128 = a as i128;
    let wide_b: i128 = b as i128;
    a == b || (999 * wide_a < 1000 * wide_b && 1000 * wide_b < 1001 * wide_a)
}

impl Ratio {
    /// The ratio of `ppm` parts per million.
    pub fn from_ppm(ppm: i64) -> (r: Ratio)
        ensures
            r@ == ppm,
    {
        Ratio { ppm }
    }

    /// The ratio of `percent` percent.
    pub fn from_percent(percent: i32) -> (r: Ratio)
        ensures
            r@ == percent * PPM_PER_PERCENT,
    {
        Ratio { ppm: (percent as i64) * PPM_PER_PERCENT }
    }

    /// Whether the ratio lies between 0 and 1, both included.
    pub open spec fn spec_is_fraction(&self) -> bool {
        0 <= self@ <= RATIO_ONE
    }

    /// Whether the ratio lies between 0 and 1, both included.
    #[verifier::when_used_as_spec(spec_is_fraction)]
    pub fn is_fraction(&self) -> (r: bool)
        ensures
            r == self.spec_is_fraction(),
    {
        0 <= self.ppm && self.ppm <= RATIO_ONE
    }

    /// Whether `other` equals `self` or lies strictly within 0.1 % of it.
    pub fn approx_eq(&self, other: &Ratio) -> (r: bool)
        ensures
            r == within_tolerance(self@, other@),
    {
        close_enough(self.ppm, other.ppm)
    }
}

impl Mass {
    /// The mass of `micrograms` micrograms.
    pub fn from_micrograms(micrograms: i64) -> (m: Mass)
        ensures
            m@ == micrograms,
    {
        Mass { micrograms }
    }

    /// The mass of `grams` grams.
    pub fn from_grams(grams: i32) -> (m: Mass)
        ensures
            m@ == grams * MICROGRAMS_PER_GRAM,
    {
        Mass { micrograms: (grams as i64) * MICROGRAMS_PER_GRAM }
    }

    /// Whether `other` equals `self` or lies strictly within 0.1 % of it.
    pub fn approx_eq(&self, other: &Mass) -> (r: bool)
        ensures
            r == within_tolerance(self@, other@),
    {
        close_enough(self.micrograms, other.micrograms)
    }

    /// The ratio of this mass to `whole`; `None` where `whole` is zero or the
    /// ratio is beyond what a `Ratio` holds.
    pub fn ratio_to(&self, whole: &Mass) -> (r: Option<Ratio>)
        ensures
            match r {
                Some(q) => spec_ratio_of(self@, whole@) == Some(q@),
                None => spec_ratio_of(self@, whole@) is None,
            },
    {
        let one: i128 = RATIO_ONE as i128;
        let scaled: i128 = (self.micrograms as i128) * one;
        match scaled.checked_div_euclid(whole.micrograms as i128) {
            Some(q) => {
                if q < (i64::MIN as i128) || q > (i64::MAX as i128) {
                    None
                } else {
                    Some(Ratio { ppm: q as i64 })
                }
            },
            None => {
                proof {
                    if whole@ != 0 {
                        lemma_quotient_no_larger(self@ * RATIO_ONE, whole@);
                    }
                }
                None
            },
        }
    }
}

/// Computes the water ratio (water to the whole) from the hydratation (water
/// to what is not water), rounding down.
///
/// The result is below 1 whatever the hydratation.
pub fn hydratation_to_water_ratio(hydratation: Ratio) -> (water_ratio: Ratio)
    requires
        hydratation@ >= 0,
    ensures
        water_ratio@ == spec_hydratation_to_water_ratio(hydratation@),
        0 <= water_ratio@ < RATIO_ONE,
{
    let h: i128 = hydratation.ppm as i128;
    let one: i128 = RATIO_ONE as i128;
    let q: i128 = (h * one) / (h + one);
    proof {
        lemma_water_ratio_below_one(h as int);
    }
    Ratio { ppm: q as i64 }
}

/// Computes the hydratation (water to what is not water) from the water ratio
/// (water to the whole), rounding up, so that `hydratation_to_water_ratio`
/// gives the water ratio back.
///
/// Pure water has no finite hydratation: for the water ratio 1 the result is
/// `None`.
pub fn water_ratio_to_hydratation(water_ratio: Ratio) -> (hydratation: Option<Ratio>)
    requires
        water_ratio.is_fraction(),
    ensures
        match hydratation {
            Some(h) => water_ratio@ < RATIO_ONE && h@ == spec_water_ratio_to_hydratation(
                water_ratio@,
            ) && h@ >= 0,
            None => water_ratio@ == RATIO_ONE,
        },
{
    if water_ratio.ppm == RATIO_ONE {
        return None;
    }
    let w: i64 = water_ratio.ppm;
    let rest: i64 = RATIO_ONE - w;
    assert(w * RATIO_ONE <= 999_999 * 1_000_000) by (nonlinear_arith)
        requires
            0 <= w <= 999_999,
    ;
    assert(w * RATIO_ONE >= 0) by (nonlinear_arith)
        requires
            0 <= w,
    ;
    let q: i64 = (w * RATIO_ONE + rest - 1) / rest;
    proof {
        lemma_hydratation_bounds(w as int);
    }
    Some(Ratio { ppm: q })
}

/// The water ratio computed from a hydratation is a ratio below 1.
pub proof fn lemma_water_ratio_below_one(h: int)
    requires
        h >= 0,
    ensures
        0 <= spec_hydratation_to_water_ratio(h) < RATIO_ONE,
{
    let s = RATIO_ONE as int;
    assert(0 <= (h * s) / (h + s) < s) by (nonlinear_arith)
        requires
            h >= 0,
            s > 0,
    {
        assert(h * s >= 0);
        assert(h * s < s * (h + s));
    }
}

/// The hydratation computed from a water ratio below 1 is not negative, and
/// fits the machine integer that holds it.
pub proof fn lemma_hydratation_bounds(w: int)
    requires
        0 <= w < RATIO_ONE,
    ensures
        0 <= spec_water_ratio_to_hydratation(w) <= 999_999 * 1_000_000,
{
    let s = RATIO_ONE as int;
    let d = s - w;
    let n = w * s + d - 1;
    assert(0 <= n / d <= 999_999 * 1_000_000) by (nonlinear_arith)
        requires
            0 <= w < s,
            s == 1_000_000,
            d == s - w,
            n == w * s + d - 1,
    {
        assert(n >= 0);
        assert(d >= 1);
        assert(n / d <= n);
        assert(w * s <= 999_999 * 1_000_000);
        // n <= w*s + d - 1; we need n / d <= 999_999_000_000
        assert(n < (999_999 * 1_000_000 + 1) * d);
    }
}

/// What a division by a positive number leaves out is less than the divisor.
proof fn lemma_quotient_bounds(x: int, d: int)
    requires
        d > 0,
    ensures
        d * (x / d) <= x < d * (x / d) + d,
{
    vstd::arithmetic::div_mod::lemma_fundamental_div_mod(x, d);
    vstd::arithmetic::div_mod::lemma_mod_bound(x, d);
}

/// A number that lies between `q` and `q + 1` times the divisor has the quotient `q`.
proof fn lemma_quotient_is(x: int, d: int, q: int)
    requires
        d > 0,
        q * d <= x < q * d + d,
    ensures
        x / d == q,
{
    vstd::arithmetic::div_mod::lemma_fundamental_div_mod_converse(x, d, q, x - q * d);
}

/// A quotient is no larger in size than what was divided.
proof fn lemma_quotient_no_larger(x: int, d: int)
    requires
        d != 0,
    ensures
        x >= 0 ==> -x <= x / d <= x,
        x < 0 ==> x <= x / d <= -x,
{
    let q = x / d;
    let r = x % d;
    assert(x == d * q + r && 0 <= r && (d > 0 ==> r < d) && (d < 0 ==> r < -d))
        by (nonlinear_arith)
        requires
            d != 0,
            q == x / d,
            r == x % d,
    ;
    assert((x >= 0 ==> -x <= q <= x) && (x < 0 ==> x <= q <= -x)) by (nonlinear_arith)
        requires
            d != 0,
            x == d * q + r,
            0 <= r,
            d > 0 ==> r < d,
            d < 0 ==> r < -d,
    ;
}

/// A multiple of the divisor divides without remainder.
pub proof fn lemma_exact_quotient(q: int, d: int)
    requires
        d != 0,
    ensures
        (q * d) / d == q,
{
    let x = q * d;
    let got = x / d;
    let r = x % d;
    assert(x == d * got + r && 0 <= r && (d > 0 ==> r < d) && (d < 0 ==> r < -d))
        by (nonlinear_arith)
        requires
            d != 0,
            got == x / d,
            r == x % d,
    ;
    assert(got == q) by (nonlinear_arith)
        requires
            d != 0,
            x == q * d,
            x == d * got + r,
            0 <= r,
            d > 0 ==> r < d,
            d < 0 ==> r < -d,
    {
        assert(d * (q - got) == r);
        if q - got >= 1 {
            assert(d > 0 ==> d * (q - got) >= d);
            assert(d < 0 ==> d * (q - got) <= d);
        }
        if q - got <= -1 {
            assert(d > 0 ==> d * (q - got) <= -d);
            assert(d < 0 ==> d * (q - got) >= -d);
        }
    }
}

/// Round trip from the water ratio: converting a water ratio below 1 to a
/// hydratation and back gives the water ratio again, exactly.
pub proof fn lemma_water_ratio_round_trip(water_ratio: Ratio)
    requires
        0 <= water_ratio@ < RATIO_ONE,
    ensures
        spec_hydratation_to_water_ratio(spec_water_ratio_to_hydratation(water_ratio@))
            == water_ratio@,
        within_tolerance(
            water_ratio@,
            spec_hydratation_to_water_ratio(spec_water_ratio_to_hydratation(water_ratio@)),
        ),
{
    let s = RATIO_ONE as int;
    let w = water_ratio@;
    let d = s - w;
    let n = w * s + d - 1;
    let h = n / d;
    lemma_quotient_bounds(n, d);
    assert(h * s >= w * (h + s) && h * s < w * (h + s) + (h + s) && h >= 0)
        by (nonlinear_arith)
        requires
            0 <= w < s,
            d == s - w,
            n == w * s + d - 1,
            d * h <= n < d * h + d,
    ;
    lemma_quotient_is(h * s, h + s, w);
}

/// Round trip from the hydratation: converting a hydratation to a water ratio
/// and back never gives more than the hydratation, and what gets lost is less
/// than `(1 + h)^2` parts per million.
pub proof fn lemma_hydratation_round_trip(hydratation: Ratio)
    requires
        hydratation@ >= 0,
    ensures
        ({
            let h = hydratation@;
            let back = spec_water_ratio_to_hydratation(spec_hydratation_to_water_ratio(h));
            &&& 0 <= back <= h
            &&& (h - back) * RATIO_ONE * RATIO_ONE < (h + RATIO_ONE) * (h + RATIO_ONE)
        }),
{
    let s = RATIO_ONE as int;
    let h = hydratation@;
    let w = (h * s) / (h + s);
    lemma_water_ratio_below_one(h);
    lemma_quotient_bounds(h * s, h + s);
    let d = s - w;
    let n = w * s + d - 1;
    let back = n / d;
    lemma_quotient_bounds(n, d);
    assert(back <= h && back >= 0) by (nonlinear_arith)
        requires
            h >= 0,
            s > 0,
            0 <= w < s,
            (h + s) * w <= h * s,
            d == s - w,
            n == w * s + d - 1,
            d * back <= n < d * back + d,
    {
        // h * d >= w * s, so h * d + d > n
        assert(h * d >= w * s);
        assert(d * back < d * (h + 1));
    }
    assert((h - back) * s * s < (h + s) * (h + s)) by (nonlinear_arith)
        requires
            h >= 0,
            s > 0,
            0 <= w < s,
            0 <= back <= h,
            (h + s) * w <= h * s < (h + s) * w + (h + s),
            d == s - w,
            n == w * s + d - 1,
            d * back <= n < d * back + d,
    {
        // the remainder of the first division
        let r = h * s - (h + s) * w;
        assert(0 <= r < h + s);
        // back * d >= w * s, so (h - back) * d <= h * d - w * s == r
        assert(d * back >= w * s);
        assert((h - back) * d <= r);
        // d * (h + s) >= s * s
        assert(d * (h + s) >= s * s);
        assert((h - back) * (s * s) <= (h - back) * (d * (h + s)));
        assert((h - back) * (d * (h + s)) == ((h - back) * d) * (h + s));
        assert(((h - back) * d) * (h + s) <= r * (h + s));
        assert(r * (h + s) < (h + s) * (h + s));
        assert((h - back) * s * s == (h - back) * (s * s));
    }
}

/// A hydratation from 2 to 1000 parts per million comes back as it was.
proof fn lemma_small_hydratation_round_trip(h: int)
    requires
        2 <= h <= 1_000,
    ensures
        spec_water_ratio_to_hydratation(spec_hydratation_to_water_ratio(h)) == h,
{
    let s = RATIO_ONE as int;
    // the water ratio is one part per million less than the hydratation
    assert((h - 1) * (h + s) <= h * s < (h - 1) * (h + s) + (h + s)) by (nonlinear_arith)
        requires
            2 <= h <= 1_000,
            s == 1_000_000,
    ;
    lemma_quotient_is(h * s, h + s, h - 1);
    let w = h - 1;
    let d = s - w;
    let n = w * s + d - 1;
    assert(h * d <= n < h * d + d) by (nonlinear_arith)
        requires
            2 <= h <= 1_000,
            s == 1_000_000,
            w == h - 1,
            d == s - w,
            n == w * s + d - 1,
    ;
    lemma_quotient_is(n, d, h);
}

/// A hydratation from 997 998 998 parts per million to just below 1000
/// comes back as one of three values, each within a thousandth of it.
proof fn lemma_large_hydratation_round_trip(h: int)
    requires
        997_998_998 <= h < 1_000_000_000,
    ensures
        within_tolerance(
            h,
            spec_water_ratio_to_hydratation(spec_hydratation_to_water_ratio(h)),
        ),
{
    let s = RATIO_ONE as int;
    let w = (h * s) / (h + s);
    lemma_quotient_bounds(h * s, h + s);
    assert(998_998 <= w <= 999_000 && (w == 998_998 ==> h <= 998_000_999) && (w == 998_999 ==> h
        <= 998_999_999)) by (nonlinear_arith)
        requires
            997_998_998 <= h < 1_000_000_000,
            s == 1_000_000,
            (h + s) * w <= h * s < (h + s) * w + (h + s),
    {
        if w <= 998_997 {
            assert((h + s) * w <= (h + s) * 998_997);
        }
        if w >= 999_001 {
            assert((h + s) * w >= (h + s) * 999_001);
        }
        if w == 998_998 && h >= 998_001_000 {
            assert(h * s >= (h + s) * 998_999);
        }
        if w == 998_999 && h >= 999_000_000 {
            assert(h * s >= (h + s) * 999_000);
        }
    }
    if w == 998_998 {
        lemma_quotient_is(w * s + (s - w) - 1, s - w, 997_003_993);
    } else if w == 998_999 {
        lemma_quotient_is(w * s + (s - w) - 1, s - w, 998_001_000);
    } else {
        lemma_quotient_is(w * s + (s - w) - 1, s - w, 999_000_000);
    }
    lemma_hydratation_round_trip(Ratio { ppm: h as i64 });
}

/// Round trip from the hydratation, within the tolerance: for every
/// hydratation below 1000 (100 000 %) but that of one part per million,
/// converting to a water ratio and back gives a value within 0.1 % of the
/// hydratation.
///
/// One part per million has the water ratio 0, which is the water ratio of
/// what is dry; and the hydratation 1000 comes back as 999.
pub proof fn lemma_hydratation_round_trip_within_tolerance(hydratation: Ratio)
    requires
        0 <= hydratation@ < 1_000_000_000,
        hydratation@ != 1,
    ensures
        within_tolerance(
            hydratation@,
            spec_water_ratio_to_hydratation(spec_hydratation_to_water_ratio(hydratation@)),
        ),
{
    let s = RATIO_ONE as int;
    let h = hydratation@;
    let back = spec_water_ratio_to_hydratation(spec_hydratation_to_water_ratio(h));
    lemma_hydratation_round_trip(hydratation);
    if h == 0 {
    } else if h <= 1_000 {
        lemma_small_hydratation_round_trip(h);
    } else if h < 1_003 {
        // at most one part per million is lost, and that is less than a thousandth
        assert(h - back <= 1) by (nonlinear_arith)
            requires
                s == 1_000_000,
                0 <= back <= h,
                h < 1_003,
                (h - back) * s * s < (h + s) * (h + s),
        {
            assert((h + s) * (h + s) < 2 * (s * s));
            assert((h - back) * (s * s) < 2 * (s * s));
        }
    } else if h <= 997_998_997 {
        assert(h == back || 999 * h < 1000 * back) by (nonlinear_arith)
            requires
                s == 1_000_000,
                0 <= back <= h,
                1_003 <= h <= 997_998_997,
                (h - back) * s * s < (h + s) * (h + s),
        {
            assert((h - 1_003) * (997_998_997 - h) >= 0);
            assert(1000 * ((h + s) * (h + s)) <= h * (s * s));
            assert(1000 * ((h - back) * s * s) < h * (s * s));
            assert((1000 * (h - back)) * (s * s) < h * (s * s));
            assert(1000 * (h - back) < h);
        }
    } else {
        lemma_large_hydratation_round_trip(h);
    }
}

} // verus!
