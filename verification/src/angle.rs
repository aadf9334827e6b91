//! Angles, held by their cosine and sine.
//!
//! No angle is ever measured in radians here. The arc cosine of a number is
//! the angle that has that cosine and a sine that is not negative, doubling
//! uses the double-angle formulas, and a fraction of a full turn is resolved
//! in hundredths from a table of cosines.
use vstd::prelude::*;
use crate::scalar::Scalar;
use crate::scalar::HUNDREDTH;
use crate::scalar::UNIT;

verus! {

/// The raw cosine of `k` hundredths of a turn, for `k` in the first quarter
/// turn (0 to 25), rounded to the nearest billionth.
pub open spec fn quarter_cosine(k: int) -> int {
    if k == 0 {
        1_000_000_000
    } else if k == 1 {
        998_026_728
    } else if k == 2 {
        992_114_701
    } else if k == 3 {
        982_287_251
    } else if k == 4 {
        968_583_161
    } else if k == 5 {
        951_056_516
    } else if k == 6 {
        929_776_486
    } else if k == 7 {
        904_827_052
    } else if k == 8 {
        876_306_680
    } else if k == 9 {
        844_327_926
    } else if k == 10 {
        809_016_994
    } else if k == 11 {
        770_513_243
    } else if k == 12 {
        728_968_627
    } else if k == 13 {
        684_547_106
    } else if k == 14 {
        637_423_990
    } else if k == 15 {
        587_785_252
    } else if k == 16 {
        535_826_795
    } else if k == 17 {
        481_753_674
    } else if k == 18 {
        425_779_292
    } else if k == 19 {
        368_124_553
    } else if k == 20 {
        309_016_994
    } else if k == 21 {
        248_689_887
    } else if k == 22 {
        187_381_315
    } else if k == 23 {
        125_333_234
    } else if k == 24 {
        62_790_520
    } else {
        0
    }
}

/// The raw cosine of `k` hundredths of a turn, for `0 <= k < 100`.
pub open spec fn turn_cosine(k: int) -> int {
    if k <= 25 {
        quarter_cosine(k)
    } else if k <= 50 {
        -quarter_cosine(50 - k)
    } else if k <= 75 {
        -quarter_cosine(k - 50)
    } else {
        quarter_cosine(100 - k)
    }
}

/// The raw sine of `k` hundredths of a turn, for `0 <= k < 100`: the cosine a
/// quarter turn earlier.
pub open spec fn turn_sine(k: int) -> int {
    turn_cosine((k + 75) % 100)
}

/// The hundredth of a turn in which a fraction with raw value `raw` falls,
/// counted within one turn.
pub open spec fn turn_index(raw: int) -> int {
    (raw / (HUNDREDTH as int)) % 100
}

/// An angle, as its cosine and its sine.
#[derive(Clone, Copy, Debug, PartialEq, Eq, Structural)]
pub struct Angle {
    pub cos: Scalar,
    pub sin: Scalar,
}

impl Angle {
    /// The angle between 0 and a half turn whose cosine is `c`, with `c`
    /// first brought into the range from -1 to 1.
    pub open spec fn spec_acos(c: Scalar) -> Angle {
        let cos = if c.raw < -UNIT {
            Scalar::spec_from_int(-1)
        } else if c.raw > UNIT {
            Scalar::spec_from_int(1)
        } else {
            c
        };
        Angle { cos, sin: Scalar::spec_from_int(1).minus(cos.times(cos)).spec_sqrt() }
    }

    /// Twice the angle.
    pub open spec fn spec_double(self) -> Angle {
        let two = Scalar::spec_from_int(2);
        Angle {
            cos: two.times(self.cos).times(self.cos).minus(Scalar::spec_from_int(1)),
            sin: two.times(self.sin).times(self.cos),
        }
    }

    /// The angle that is the given fraction of a full turn, in hundredths.
    pub open spec fn spec_of_turn(fraction: Scalar) -> Angle {
        let k = turn_index(fraction.raw as int);
        Angle { cos: Scalar { raw: turn_cosine(k) as i64 }, sin: Scalar { raw: turn_sine(k) as i64 } }
    }

    /// The angle zero.
    pub fn zero() -> (a: Angle)
        ensures
            a.cos.raw == UNIT,
            a.sin.raw == 0,
    {
        Angle { cos: Scalar { raw: UNIT }, sin: Scalar { raw: 0 } }
    }

    /// The angle between 0 and a half turn whose cosine is `c`. A `c` outside
    /// the range from -1 to 1 is taken as the nearer end of that range.
    pub fn acos(c: Scalar) -> (a: Angle)
        ensures
            a == Angle::spec_acos(c),
    {
        let cos = if c.raw < -UNIT {
            Scalar::from_int(-1)
        } else if c.raw > UNIT {
            Scalar::from_int(1)
        } else {
            c
        };
        Angle { cos, sin: (Scalar::from_int(1) - cos * cos).sqrt() }
    }

    /// Twice the angle, by the double-angle formulas.
    pub fn double(self) -> (a: Angle)
        ensures
            a == self.spec_double(),
    {
        let two = Scalar::from_int(2);
        Angle {
            cos: two * self.cos * self.cos - Scalar::from_int(1),
            sin: two * self.sin * self.cos,
        }
    }

    /// The angle that is the given fraction of a full turn. The fraction is
    /// resolved in hundredths, rounded down, and whole turns are dropped.
    pub fn of_turn(fraction: Scalar) -> (a: Angle)
        ensures
            a == Angle::spec_of_turn(fraction),
    {
        let k: i64 = hundredth_of_turn(fraction.raw);
        let s: i64 = if k >= 25 {
            k - 25
        } else {
            k + 75
        };
        Angle { cos: Scalar { raw: cosine_of_hundredths(k) }, sin: Scalar { raw: cosine_of_hundredths(s) } }
    }

    /// The cosine of the angle.
    pub fn cos(self) -> (c: Scalar)
        ensures
            c == self.cos,
    {
        self.cos
    }

    /// The sine of the angle.
    pub fn sin(self) -> (s: Scalar)
        ensures
            s == self.sin,
    {
        self.sin
    }
}

/// The hundredth of a turn in which a fraction with raw value `raw` falls.
fn hundredth_of_turn(raw: i64) -> (k: i64)
    ensures
        k == turn_index(raw as int),
        0 <= k < 100,
{
    if raw >= 0 {
        (raw / HUNDREDTH) % 100
    } else {
        let p: i64 = -(raw + 1);
        let q: i64 = (p / HUNDREDTH) % 100;
        99 - q
    }
}

/// The table of cosines of the first quarter turn.
fn quarter_cosine_of(k: i64) -> (c: i64)
    requires
        0 <= k <= 25,
    ensures
        c == quarter_cosine(k as int),
{
    match k {
        0 => 1_000_000_000,
        1 => 998_026_728,
        2 => 992_114_701,
        3 => 982_287_251,
        4 => 968_583_161,
        5 => 951_056_516,
        6 => 929_776_486,
        7 => 904_827_052,
        8 => 876_306_680,
        9 => 844_327_926,
        10 => 809_016_994,
        11 => 770_513_243,
        12 => 728_968_627,
        13 => 684_547_106,
        14 => 637_423_990,
        15 => 587_785_252,
        16 => 535_826_795,
        17 => 481_753_674,
        18 => 425_779_292,
        19 => 368_124_553,
        20 => 309_016_994,
        21 => 248_689_887,
        22 => 187_381_315,
        23 => 125_333_234,
        24 => 62_790_520,
        _ => 0,
    }
}

/// The raw cosine of `k` hundredths of a turn.
fn cosine_of_hundredths(k: i64) -> (c: i64)
    requires
        0 <= k < 100,
    ensures
        c == turn_cosine(k as int),
        -UNIT <= c <= UNIT,
{
    if k <= 25 {
        quarter_cosine_of(k)
    } else if k <= 50 {
        -quarter_cosine_of(50 - k)
    } else if k <= 75 {
        -quarter_cosine_of(k - 50)
    } else {
        quarter_cosine_of(100 - k)
    }
}

} // verus!
