use crate::sysfs::{write_of, writes_view, SysfsWrite};
use crate::text::{
    chars_of, decimal, eq_lit, lemma_parse_unsigned_range, lines, lines_chars, parse_unsigned,
    parse_unsigned_chars, push_decimal, push_str, string_of, trim, trim_chars, views,
};
use crate::single_precision::{interpolation_offset, lemma_offset_bounds, lemma_offset_monotone, single_precision_offset};
use vstd::prelude::*;

verus! {

/// A point of a fan curve.
#[derive(Clone, Copy, Debug, PartialEq, Eq)]
pub struct FanPoint {
    /// Temperature in hundredths of a degree, 10000 = 100C
    pub temp: i16,
    /// Duty in hundredths of a percent, 10000 = 100%
    pub duty: u16,
}

/// Linear interpolation between `prev` and `next` at `temp`, in single precision: the
/// slope `dduty / dtemp` and its product with the offset from `prev` each rounded to 24
/// significant bits, and the product rounded to the nearest integer.
pub open spec fn interpolated_duty(prev: FanPoint, next: FanPoint, temp: int) -> int {
    prev.duty + single_precision_offset(next.duty - prev.duty, next.temp - prev.temp, temp - prev.temp)
}

/// Interpolating between `prev` and `next` is defined: the duty does not fall and the
/// temperature span fits an `i16`.
pub open spec fn interpolation_ok(prev: FanPoint, next: FanPoint) -> bool {
    prev.duty <= next.duty && next.temp - prev.temp <= i16::MAX
}

/// The duty between two points at `temp`, when `temp` lies in `[prev.temp, next.temp]`.
pub open spec fn duty_between(prev: FanPoint, next: FanPoint, temp: int) -> Option<u16> {
    if temp == next.temp {
        Some(next.duty)
    } else if temp == prev.temp {
        Some(prev.duty)
    } else if prev.temp < temp && temp < next.temp {
        Some(interpolated_duty(prev, next, temp) as u16)
    } else {
        None
    }
}

/// `duty_between` needs no interpolation that `interpolation_ok` rules out.
pub open spec fn between_ok(prev: FanPoint, next: FanPoint, temp: int) -> bool {
    (prev.temp < temp && temp < next.temp && temp != next.temp && temp != prev.temp)
        ==> interpolation_ok(prev, next)
}

proof fn lemma_interpolation_bounds(prev: FanPoint, next: FanPoint, temp: int)
    requires
        prev.temp < temp < next.temp,
        prev.duty <= next.duty,
        next.temp - prev.temp <= i16::MAX,
    ensures
        prev.duty <= interpolated_duty(prev, next, temp) <= next.duty,
{
    lemma_offset_bounds(next.duty - prev.duty, next.temp - prev.temp, temp - prev.temp);
}

impl FanPoint {
    pub fn new(temp: i16, duty: u16) -> (p: Self)
        ensures
            p.temp == temp,
            p.duty == duty,
    {
        Self { temp, duty }
    }

    /// Find the duty between two points and a given temperature, if the temperature
    /// lies within this range.
    pub fn get_duty_between_points(self, next: FanPoint, temp: i16) -> (r: Option<u16>)
        requires
            between_ok(self, next, temp as int),
        ensures
            r == duty_between(self, next, temp as int),
    {
        if temp == next.temp {
            return Some(next.duty);
        }
        if temp == self.temp {
            return Some(self.duty);
        }
        if self.temp < temp && next.temp > temp {
            return Some(self.interpolate_duties(next, temp));
        }
        None
    }

    /// Interpolates the current duty with that of the given next point and temperature.
    pub fn interpolate_duties(self, next: FanPoint, temp: i16) -> (d: u16)
        requires
            self.temp < temp < next.temp,
            interpolation_ok(self, next),
        ensures
            d == interpolated_duty(self, next, temp as int),
            self.duty <= d <= next.duty,
    {
        proof {
            lemma_interpolation_bounds(self, next, temp as int);
        }
        let dtemp: u64 = (next.temp as i32 - self.temp as i32) as u64;
        let dduty: u64 = (next.duty - self.duty) as u64;
        let toff: u64 = (temp as i32 - self.temp as i32) as u64;
        let offset: u64 = interpolation_offset(dduty, dtemp, toff);
        self.duty + (offset as u16)
    }
}

/// The duty of the first window `(pts[i], pts[i + 1])`, from `i` on, that holds `temp`.
pub open spec fn windows_duty(pts: Seq<FanPoint>, i: int, temp: int) -> Option<u16>
    decreases pts.len() - i,
{
    if i < 0 || i + 1 >= pts.len() {
        None
    } else {
        match duty_between(pts[i], pts[i + 1], temp) {
            Some(d) => Some(d),
            None => windows_duty(pts, i + 1, temp),
        }
    }
}

/// The window that `windows_duty` settles on needs no interpolation ruled out by
/// `interpolation_ok`.
pub open spec fn windows_ok(pts: Seq<FanPoint>, i: int, temp: int) -> bool
    decreases pts.len() - i,
{
    if i < 0 || i + 1 >= pts.len() {
        true
    } else if duty_between(pts[i], pts[i + 1], temp) is Some {
        between_ok(pts[i], pts[i + 1], temp)
    } else {
        windows_ok(pts, i + 1, temp)
    }
}

/// The duty that a fan curve gives at `temp`: below the first point, the first point's
/// duty; else the duty of the first window that holds `temp`; else, at or above the last
/// point, the last point's duty. A curve without points gives none.
pub open spec fn curve_duty(pts: Seq<FanPoint>, temp: int) -> Option<u16> {
    if pts.len() > 0 && temp < pts[0].temp {
        Some(pts[0].duty)
    } else {
        match windows_duty(pts, 0, temp) {
            Some(d) => Some(d),
            None => if pts.len() > 0 && temp >= pts.last().temp {
                Some(pts.last().duty)
            } else {
                None
            },
        }
    }
}

/// `curve_duty` at `temp` needs no interpolation ruled out by `interpolation_ok`.
pub open spec fn curve_ok(pts: Seq<FanPoint>, temp: int) -> bool {
    (pts.len() > 0 && temp < pts[0].temp) || windows_ok(pts, 0, temp)
}

/// Every window of the curve can be interpolated.
pub open spec fn monotone_points(pts: Seq<FanPoint>) -> bool {
    forall|i: int| 0 <= i < pts.len() - 1 ==> #[trigger] interpolation_ok(pts[i], pts[i + 1])
}

/// The temperatures of the points rise strictly.
pub open spec fn strictly_increasing(pts: Seq<FanPoint>) -> bool {
    forall|i: int, j: int| 0 <= i < j < pts.len() ==> pts[i].temp < pts[j].temp
}

proof fn lemma_windows_ok(pts: Seq<FanPoint>, i: int, temp: int)
    requires
        monotone_points(pts),
        0 <= i,
    ensures
        windows_ok(pts, i, temp),
    decreases pts.len() - i,
{
    if i + 1 < pts.len() {
        assert(interpolation_ok(pts[i], pts[i + 1]));
        lemma_windows_ok(pts, i + 1, temp);
    }
}

/// A curve whose windows can all be interpolated gives a duty at every temperature
/// without any interpolation being ruled out.
pub proof fn lemma_monotone_curve_ok(pts: Seq<FanPoint>, temp: int)
    requires
        monotone_points(pts),
    ensures
        curve_ok(pts, temp),
{
    lemma_windows_ok(pts, 0, temp);
}

proof fn lemma_windows_hit_point(pts: Seq<FanPoint>, i: int, k: int)
    requires
        strictly_increasing(pts),
        0 <= i,
        0 < k < pts.len(),
        i <= k - 1,
    ensures
        windows_duty(pts, i, pts[k].temp as int) == Some(pts[k].duty),
    decreases k - i,
{
    if i < k - 1 {
        assert(pts[i + 1].temp < pts[k].temp);
        lemma_windows_hit_point(pts, i + 1, k);
    }
}

proof fn lemma_append_windows_below(pts: Seq<FanPoint>, p: FanPoint, i: int, x: int)
    requires
        pts.len() >= 1,
        pts.last().temp < p.temp,
        0 <= i <= pts.len() - 1,
        x <= pts.last().temp,
    ensures
        windows_duty(pts.push(p), i, x) == (match windows_duty(pts, i, x) {
            Some(v) => Some(v),
            None => if x == pts.last().temp {
                Some(pts.last().duty)
            } else {
                None
            },
        }),
    decreases pts.len() - i,
{
    let p2 = pts.push(p);
    assert(p2[i] == pts[i]);
    if i < pts.len() - 1 {
        assert(p2[i + 1] == pts[i + 1]);
        lemma_append_windows_below(pts, p, i + 1, x);
    } else {
        assert(p2[i + 1] == p);
        assert(windows_duty(p2, i + 1, x) is None);
    }
}

proof fn lemma_append_windows_above(pts: Seq<FanPoint>, p: FanPoint, i: int, x: int)
    requires
        pts.len() >= 1,
        forall|k: int| 0 <= k < pts.len() ==> #[trigger] pts[k].temp < p.temp,
        0 <= i <= pts.len() - 1,
        x >= p.temp,
    ensures
        windows_duty(pts.push(p), i, x) == (if x == p.temp {
            Some(p.duty)
        } else {
            None::<u16>
        }),
    decreases pts.len() - i,
{
    let p2 = pts.push(p);
    assert(p2[i] == pts[i]);
    assert(pts[i].temp < p.temp);
    if i < pts.len() - 1 {
        assert(p2[i + 1] == pts[i + 1]);
        assert(pts[i + 1].temp < p.temp);
        lemma_append_windows_above(pts, p, i + 1, x);
    } else {
        assert(p2[i + 1] == p);
        assert(windows_duty(p2, i + 1, x) is None);
    }
}

/// A curve of a single point gives that point's duty at every temperature.
pub proof fn lemma_single_point_curve(p: FanPoint, x: int)
    ensures
        curve_duty(seq![p], x) == Some(p.duty),
{
    assert(windows_duty(seq![p], 0, x) is None);
}

/// Appending a point above the last one keeps the curve below it and flattens it above:
/// at and above the new point's temperature the duty is the new point's, and at or
/// below the former last point's temperature the duty is the one the curve gave before.
pub proof fn lemma_append_keeps_curve(pts: Seq<FanPoint>, temp: i16, duty: u16, x: int)
    requires
        pts.len() >= 1,
        strictly_increasing(pts),
        pts.last().temp < temp,
    ensures
        curve_duty(pts.push(FanPoint { temp, duty }), temp as int) == Some(duty),
        x > temp ==> curve_duty(pts.push(FanPoint { temp, duty }), x) == Some(duty),
        x <= pts.last().temp ==> curve_duty(pts.push(FanPoint { temp, duty }), x) == curve_duty(pts, x),
{
    let p = FanPoint { temp, duty };
    let p2 = pts.push(p);
    assert(p2[0] == pts[0]);
    assert(p2.last() == p);
    assert forall|k: int| 0 <= k < pts.len() implies #[trigger] pts[k].temp < p.temp by {
        if k < pts.len() - 1 {
            assert(pts[k].temp < pts[pts.len() - 1].temp);
        }
    }
    lemma_append_windows_above(pts, p, 0, temp as int);
    if x > temp {
        lemma_append_windows_above(pts, p, 0, x);
    }
    if x <= pts.last().temp {
        lemma_append_windows_below(pts, p, 0, x);
    }
}

/// A curve with at least two points and strictly rising temperatures gives, at the
/// temperature of each of its points, exactly that point's duty.
pub proof fn lemma_curve_passes_through_points(pts: Seq<FanPoint>, k: int)
    requires
        strictly_increasing(pts),
        pts.len() >= 2,
        0 <= k < pts.len(),
    ensures
        curve_duty(pts, pts[k].temp as int) == Some(pts[k].duty),
{
    if k == 0 {
        assert(pts[0].temp < pts[1].temp);
    } else {
        lemma_windows_hit_point(pts, 0, k);
    }
}

proof fn lemma_interpolation_monotone(prev: FanPoint, next: FanPoint, t1: int, t2: int)
    requires
        prev.temp < t1 <= t2 < next.temp,
        prev.duty <= next.duty,
        next.temp - prev.temp <= i16::MAX,
    ensures
        interpolated_duty(prev, next, t1) <= interpolated_duty(prev, next, t2),
{
    lemma_offset_monotone(next.duty - prev.duty, next.temp - prev.temp, t1 - prev.temp, t2 - prev.temp);
}

proof fn lemma_between_monotone(prev: FanPoint, next: FanPoint, t1: int, t2: int)
    requires
        prev.temp < next.temp,
        prev.temp <= t1 <= t2 <= next.temp,
        interpolation_ok(prev, next),
    ensures
        duty_between(prev, next, t1) is Some,
        duty_between(prev, next, t2) is Some,
        prev.duty <= duty_between(prev, next, t1)->0 <= duty_between(prev, next, t2)->0 <= next.duty,
{
    if prev.temp < t1 < next.temp {
        lemma_interpolation_bounds(prev, next, t1);
    }
    if prev.temp < t2 < next.temp {
        lemma_interpolation_bounds(prev, next, t2);
    }
    if prev.temp < t1 && t2 < next.temp {
        lemma_interpolation_monotone(prev, next, t1, t2);
    }
}

proof fn lemma_windows_bounds(pts: Seq<FanPoint>, i: int, t: int)
    requires
        strictly_increasing(pts),
        monotone_points(pts),
        0 <= i < pts.len() - 1,
        pts[i].temp <= t <= pts.last().temp,
    ensures
        windows_duty(pts, i, t) is Some,
        pts[i].duty <= windows_duty(pts, i, t)->0 <= pts.last().duty,
    decreases pts.len() - i,
{
    assert(interpolation_ok(pts[i], pts[i + 1]));
    assert(pts[i].temp < pts[i + 1].temp);
    if t <= pts[i + 1].temp {
        lemma_between_monotone(pts[i], pts[i + 1], t, t);
        lemma_duty_below_last(pts, i + 1);
    } else {
        lemma_windows_bounds(pts, i + 1, t);
    }
}

proof fn lemma_duty_below_last(pts: Seq<FanPoint>, i: int)
    requires
        monotone_points(pts),
        0 <= i < pts.len(),
    ensures
        pts[i].duty <= pts.last().duty,
    decreases pts.len() - i,
{
    if i < pts.len() - 1 {
        assert(interpolation_ok(pts[i], pts[i + 1]));
        lemma_duty_below_last(pts, i + 1);
    }
}

proof fn lemma_windows_monotone(pts: Seq<FanPoint>, i: int, t1: int, t2: int)
    requires
        strictly_increasing(pts),
        monotone_points(pts),
        0 <= i < pts.len() - 1,
        pts[i].temp <= t1 <= t2 <= pts.last().temp,
    ensures
        windows_duty(pts, i, t1) is Some,
        windows_duty(pts, i, t2) is Some,
        windows_duty(pts, i, t1)->0 <= windows_duty(pts, i, t2)->0,
    decreases pts.len() - i,
{
    assert(interpolation_ok(pts[i], pts[i + 1]));
    assert(pts[i].temp < pts[i + 1].temp);
    if t2 <= pts[i + 1].temp {
        lemma_between_monotone(pts[i], pts[i + 1], t1, t2);
    } else if t1 <= pts[i + 1].temp {
        lemma_between_monotone(pts[i], pts[i + 1], t1, t1);
        lemma_windows_bounds(pts, i + 1, t2);
    } else {
        lemma_windows_monotone(pts, i + 1, t1, t2);
    }
}

/// A curve with at least two points, strictly rising temperatures and duties that never
/// fall gives a duty at every temperature, and the duty never falls as the temperature
/// rises.
pub proof fn lemma_curve_duty_monotone(pts: Seq<FanPoint>, t1: int, t2: int)
    requires
        strictly_increasing(pts),
        monotone_points(pts),
        pts.len() >= 2,
        t1 <= t2,
    ensures
        curve_duty(pts, t1) is Some,
        curve_duty(pts, t2) is Some,
        curve_duty(pts, t1)->0 <= curve_duty(pts, t2)->0,
{
    let first = pts[0].temp as int;
    let last = pts.last().temp as int;
    assert(first < last);
    lemma_duty_below_last(pts, 0);
    if t1 >= first && t2 <= last {
        lemma_windows_monotone(pts, 0, t1, t2);
    } else if t1 >= first && t1 <= last {
        lemma_windows_bounds(pts, 0, t1);
        lemma_windows_after_last(pts, 0, t2);
    } else if t1 > last {
        lemma_windows_after_last(pts, 0, t1);
        lemma_windows_after_last(pts, 0, t2);
    } else if t2 < first {
    } else if t2 <= last {
        lemma_windows_bounds(pts, 0, t2);
    } else {
        lemma_windows_after_last(pts, 0, t2);
    }
}

proof fn lemma_windows_after_last(pts: Seq<FanPoint>, i: int, t: int)
    requires
        strictly_increasing(pts),
        0 <= i,
        t > pts.last().temp,
        pts.len() >= 1,
    ensures
        windows_duty(pts, i, t) is None,
    decreases pts.len() - i,
{
    if i + 1 < pts.len() {
        assert(pts[i + 1].temp <= pts.last().temp);
        assert(pts[i].temp <= pts.last().temp);
        lemma_windows_after_last(pts, i + 1, t);
    }
}

/// A fan curve: points of temperature and duty.
#[derive(Clone, Debug, PartialEq, Eq)]
pub struct FanCurve {
    pub points: Vec<FanPoint>,
}

impl Default for FanCurve {
    fn default() -> (c: Self)
        ensures
            c.points@ == Seq::<FanPoint>::empty(),
    {
        FanCurve { points: Vec::new() }
    }
}

impl FanCurve {
    /// The points of `FanCurve::standard`.
    pub open spec fn spec_standard_points() -> Seq<FanPoint> {
        seq![FanPoint { temp: 4499, duty: 0 }, FanPoint { temp: 4500, duty: 3000 }, FanPoint { temp: 5500, duty: 3500 }, FanPoint { temp: 6500, duty: 4000 }, FanPoint { temp: 7500, duty: 5000 }, FanPoint { temp: 7800, duty: 6000 }, FanPoint { temp: 8100, duty: 7000 }, FanPoint { temp: 8400, duty: 8000 }, FanPoint { temp: 8600, duty: 9000 }, FanPoint { temp: 8800, duty: 10000 }]
    }

    /// The points of `FanCurve::threadripper2`.
    pub open spec fn spec_threadripper2_points() -> Seq<FanPoint> {
        seq![FanPoint { temp: 0, duty: 3000 }, FanPoint { temp: 4000, duty: 4000 }, FanPoint { temp: 4750, duty: 5000 }, FanPoint { temp: 5500, duty: 6500 }, FanPoint { temp: 6250, duty: 8500 }, FanPoint { temp: 6625, duty: 10000 }]
    }

    /// The points of `FanCurve::hedt`.
    pub open spec fn spec_hedt_points() -> Seq<FanPoint> {
        seq![FanPoint { temp: 0, duty: 3000 }, FanPoint { temp: 5000, duty: 3500 }, FanPoint { temp: 6000, duty: 4500 }, FanPoint { temp: 7000, duty: 5500 }, FanPoint { temp: 7400, duty: 6000 }, FanPoint { temp: 7600, duty: 7000 }, FanPoint { temp: 7800, duty: 8000 }, FanPoint { temp: 8100, duty: 10000 }]
    }

    /// The points of `FanCurve::xeon`.
    pub open spec fn spec_xeon_points() -> Seq<FanPoint> {
        seq![FanPoint { temp: 0, duty: 4000 }, FanPoint { temp: 5000, duty: 4000 }, FanPoint { temp: 5500, duty: 4500 }, FanPoint { temp: 6000, duty: 5000 }, FanPoint { temp: 6500, duty: 5500 }, FanPoint { temp: 7000, duty: 6000 }, FanPoint { temp: 7200, duty: 6500 }, FanPoint { temp: 7400, duty: 8000 }, FanPoint { temp: 7600, duty: 8500 }, FanPoint { temp: 7700, duty: 9000 }, FanPoint { temp: 7800, duty: 10000 }]
    }

    /// The standard fan curve
    pub fn standard() -> (c: Self)
        ensures
            c.points@ == Self::spec_standard_points(),
            monotone_points(c.points@),
            strictly_increasing(c.points@),
    {
        let c = Self::default()
            .append(44_99, 00_00)
            .append(45_00, 30_00)
            .append(55_00, 35_00)
            .append(65_00, 40_00)
            .append(75_00, 50_00)
            .append(78_00, 60_00)
            .append(81_00, 70_00)
            .append(84_00, 80_00)
            .append(86_00, 90_00)
            .append(88_00, 100_00);
        assert(c.points@ =~= Self::spec_standard_points());
        c
    }

    /// Fan curve for threadripper 2
    pub fn threadripper2() -> (c: Self)
        ensures
            c.points@ == Self::spec_threadripper2_points(),
            monotone_points(c.points@),
            strictly_increasing(c.points@),
    {
        let c = Self::default()
            .append(00_00, 30_00)
            .append(40_00, 40_00)
            .append(47_50, 50_00)
            .append(55_00, 65_00)
            .append(62_50, 85_00)
            .append(66_25, 100_00);
        assert(c.points@ =~= Self::spec_threadripper2_points());
        c
    }

    /// Fan curve for HEDT systems
    pub fn hedt() -> (c: Self)
        ensures
            c.points@ == Self::spec_hedt_points(),
            monotone_points(c.points@),
            strictly_increasing(c.points@),
    {
        let c = Self::default()
            .append(00_00, 30_00)
            .append(50_00, 35_00)
            .append(60_00, 45_00)
            .append(70_00, 55_00)
            .append(74_00, 60_00)
            .append(76_00, 70_00)
            .append(78_00, 80_00)
            .append(81_00, 100_00);
        assert(c.points@ =~= Self::spec_hedt_points());
        c
    }

    /// Fan curve for xeon
    pub fn xeon() -> (c: Self)
        ensures
            c.points@ == Self::spec_xeon_points(),
            monotone_points(c.points@),
            strictly_increasing(c.points@),
    {
        let c = Self::default()
            .append(00_00, 40_00)
            .append(50_00, 40_00)
            .append(55_00, 45_00)
            .append(60_00, 50_00)
            .append(65_00, 55_00)
            .append(70_00, 60_00)
            .append(72_00, 65_00)
            .append(74_00, 80_00)
            .append(76_00, 85_00)
            .append(77_00, 90_00)
            .append(78_00, 100_00);
        assert(c.points@ =~= Self::spec_xeon_points());
        c
    }

    /// Adds a point to the fan curve
    pub fn append(self, temp: i16, duty: u16) -> (c: Self)
        ensures
            c.points@ == self.points@.push(FanPoint { temp, duty }),
    {
        let mut s = self;
        s.points.push(FanPoint::new(temp, duty));
        s
    }

    pub fn get_duty(&self, temp: i16) -> (r: Option<u16>)
        requires
            curve_ok(self.points@, temp as int),
        ensures
            r == curve_duty(self.points@, temp as int),
    {
        let pts = &self.points;
        let n = pts.len();
        if n > 0 {
            let first = pts[0];
            if temp < first.temp {
                return Some(first.duty);
            }
        }
        let mut i: usize = 0;
        while n > 0 && i < n - 1
            invariant
                n == pts@.len(),
                pts@ == self.points@,
                !(n > 0 && temp < pts@[0].temp),
                i <= n,
                windows_duty(pts@, 0, temp as int) == windows_duty(pts@, i as int, temp as int),
                windows_ok(pts@, 0, temp as int) == windows_ok(pts@, i as int, temp as int),
                windows_ok(pts@, 0, temp as int),
            decreases n - i,
        {
            let prev = pts[i];
            let next = pts[i + 1];
            if let Some(duty) = prev.get_duty_between_points(next, temp) {
                assert(windows_duty(pts@, i as int, temp as int) == Some(duty));
                return Some(duty);
            }
            i = i + 1;
        }
        assert(windows_duty(pts@, i as int, temp as int) is None);
        if n > 0 {
            let last = pts[n - 1];
            if temp >= last.temp {
                return Some(last.duty);
            }
        }
        None
    }
}



proof fn lemma_windows_duty_bounded(pts: Seq<FanPoint>, i: int, t: int, bound: int)
    requires
        monotone_points(pts),
        forall|k: int| 0 <= k < pts.len() ==> #[trigger] pts[k].duty <= bound,
        0 <= i,
    ensures
        windows_duty(pts, i, t) matches Some(d) ==> d <= bound,
    decreases pts.len() - i,
{
    if i + 1 < pts.len() {
        let prev = pts[i];
        let next = pts[i + 1];
        assert(prev.duty <= bound);
        assert(next.duty <= bound);
        if duty_between(prev, next, t) is Some {
            if prev.temp < t && t < next.temp && t != next.temp && t != prev.temp {
                assert(interpolation_ok(pts[i], pts[i + 1]));
                lemma_interpolation_bounds(prev, next, t);
            }
        } else {
            lemma_windows_duty_bounded(pts, i + 1, t, bound);
        }
    }
}

/// A curve whose duties do not fall gives no duty above the highest of its points'.
pub proof fn lemma_curve_duty_bounded(pts: Seq<FanPoint>, t: int, bound: int)
    requires
        monotone_points(pts),
        forall|k: int| 0 <= k < pts.len() ==> #[trigger] pts[k].duty <= bound,
    ensures
        curve_duty(pts, t) matches Some(d) ==> d <= bound,
{
    lemma_windows_duty_bounded(pts, 0, t, bound);
    if pts.len() > 0 {
        assert(pts[0].duty <= bound);
        assert(pts[pts.len() - 1].duty <= bound);
    }
}

/// With duties of at most 100%, the PWM value the fan daemon sets is the duty scaled to
/// 0..=255 without being cut to a byte.
pub proof fn lemma_pwm_in_range(pts: Seq<FanPoint>, t: int)
    requires
        monotone_points(pts),
        forall|k: int| 0 <= k < pts.len() ==> #[trigger] pts[k].duty <= 10000,
    ensures
        curve_duty(pts, t) matches Some(d) ==> d * 255 / 10000 <= 255 && ((d as u32 * 255) / 10000) as u8
            == d * 255 / 10000,
{
    lemma_curve_duty_bounded(pts, t, 10000);
    if let Some(d) = curve_duty(pts, t) {
        assert(d * 255 / 10000 <= 255) by (nonlinear_arith)
            requires
                d <= 10000,
        ;
    }
}

/// Why the fan daemon cannot run.
#[derive(Clone, Debug)]
pub enum FanDaemonError {
    /// The hwmon devices could not be listed, with the reason.
    HwmonDevices(String),
    PlatformHwmonNotFound,
    CpuHwmonNotFound,
}

impl FanDaemonError {
    pub fn message(&self) -> (m: String)
        ensures
            m@ == match *self {
                FanDaemonError::HwmonDevices(why) => "failed to collect hwmon devices: "@ + why@,
                FanDaemonError::PlatformHwmonNotFound => "platform hwmon not found"@,
                FanDaemonError::CpuHwmonNotFound => "cpu hwmon not found"@,
            },
    {
        match self {
            FanDaemonError::HwmonDevices(why) => {
                let mut t = chars_of("failed to collect hwmon devices: ");
                push_str(&mut t, why.as_str());
                string_of(&t)
            },
            FanDaemonError::PlatformHwmonNotFound => string_of(&chars_of("platform hwmon not found")),
            FanDaemonError::CpuHwmonNotFound => string_of(&chars_of("cpu hwmon not found")),
        }
    }
}

/// Which curve a machine runs its fans with, by its DMI product version: Threadripper 2,
/// HEDT and Xeon machines have their own.
pub open spec fn curve_points_for_model(model: Seq<char>) -> Seq<FanPoint> {
    if model == "thelio-major-r1"@ {
        FanCurve::spec_threadripper2_points()
    } else if model == "thelio-major-r2"@ || model == "thelio-major-r2.1"@ || model == "thelio-major-b1"@
        || model == "thelio-major-b2"@ || model == "thelio-major-b3"@ || model == "thelio-mega-r1"@
        || model == "thelio-mega-r1.1"@ {
        FanCurve::spec_hedt_points()
    } else if model == "thelio-massive-b1"@ {
        FanCurve::spec_xeon_points()
    } else {
        FanCurve::spec_standard_points()
    }
}

/// The role of an hwmon device, by its name.
#[derive(Clone, Copy, Debug, PartialEq, Eq, Structural)]
pub enum HwmonRole {
    /// An AMD graphics card, whose temperature counts.
    AmdGpu,
    /// The controller of the fans.
    Platform,
    /// A CPU, whose temperature counts.
    Cpu,
    /// Not used.
    Other,
}

pub open spec fn hwmon_role(name: Seq<char>) -> HwmonRole {
    if name == "amdgpu"@ {
        HwmonRole::AmdGpu
    } else if name == "system76_io"@ || name == "system76_thelio_io"@ {
        HwmonRole::Platform
    } else if name == "coretemp"@ || name == "k10temp"@ {
        HwmonRole::Cpu
    } else {
        HwmonRole::Other
    }
}

pub fn classify_hwmon(name: &str) -> (r: HwmonRole)
    ensures
        r == hwmon_role(name@),
{
    let n = chars_of(name);
    if eq_lit(&n, "amdgpu") {
        HwmonRole::AmdGpu
    } else if eq_lit(&n, "system76_io") || eq_lit(&n, "system76_thelio_io") {
        HwmonRole::Platform
    } else if eq_lit(&n, "coretemp") || eq_lit(&n, "k10temp") {
        HwmonRole::Cpu
    } else {
        HwmonRole::Other
    }
}

/// The hwmon devices the fan daemon uses, by their index in the list it was given.
#[derive(Clone, Debug)]
pub struct Discovered {
    pub amdgpus: Vec<usize>,
    pub platforms: Vec<usize>,
    pub cpus: Vec<usize>,
}

/// The indices of the named devices that have the role, in order.
pub open spec fn with_role(names: Seq<Option<String>>, role: HwmonRole, k: int) -> Seq<usize>
    decreases k,
{
    if k <= 0 {
        Seq::empty()
    } else {
        let rest = with_role(names, role, k - 1);
        match names[k - 1] {
            Some(n) => if hwmon_role(n@) == role {
                rest.push((k - 1) as usize)
            } else {
                rest
            },
            None => rest,
        }
    }
}

/// Sorts the hwmon devices, given by name (none where the name could not be read):
/// the fans need a platform device and a CPU.
pub fn discover(names: &Vec<Option<String>>) -> (r: Result<Discovered, FanDaemonError>)
    ensures
        match r {
            Ok(d) => d.amdgpus@ == with_role(names@, HwmonRole::AmdGpu, names@.len() as int) && d.platforms@
                == with_role(names@, HwmonRole::Platform, names@.len() as int) && d.cpus@ == with_role(
                names@,
                HwmonRole::Cpu,
                names@.len() as int,
            ) && d.platforms@.len() > 0 && d.cpus@.len() > 0,
            Err(FanDaemonError::PlatformHwmonNotFound) => with_role(names@, HwmonRole::Platform, names@.len() as int).len() == 0,
            Err(FanDaemonError::CpuHwmonNotFound) => with_role(names@, HwmonRole::Platform, names@.len() as int).len() > 0
                && with_role(names@, HwmonRole::Cpu, names@.len() as int).len() == 0,
            Err(FanDaemonError::HwmonDevices(_)) => false,
        },
{
    let mut amdgpus: Vec<usize> = Vec::new();
    let mut platforms: Vec<usize> = Vec::new();
    let mut cpus: Vec<usize> = Vec::new();
    let mut i: usize = 0;
    while i < names.len()
        invariant
            i <= names@.len(),
            amdgpus@ == with_role(names@, HwmonRole::AmdGpu, i as int),
            platforms@ == with_role(names@, HwmonRole::Platform, i as int),
            cpus@ == with_role(names@, HwmonRole::Cpu, i as int),
        decreases names@.len() - i,
    {
        match &names[i] {
            Some(n) => {
                let role = classify_hwmon(n.as_str());
                match role {
                    HwmonRole::AmdGpu => amdgpus.push(i),
                    HwmonRole::Platform => platforms.push(i),
                    HwmonRole::Cpu => cpus.push(i),
                    HwmonRole::Other => {},
                }
            },
            None => {},
        }
        i = i + 1;
    }
    if platforms.len() == 0 {
        return Err(FanDaemonError::PlatformHwmonNotFound);
    }
    if cpus.len() == 0 {
        return Err(FanDaemonError::CpuHwmonNotFound);
    }
    Ok(Discovered { amdgpus, platforms, cpus })
}

/// The highest of the temperatures, if any.
pub open spec fn max_of(t: Seq<u32>) -> Option<u32>
    decreases t.len(),
{
    if t.len() == 0 {
        None
    } else {
        match max_of(t.drop_last()) {
            Some(m) => if t.last() > m {
                Some(t.last())
            } else {
                Some(m)
            },
            None => Some(t.last()),
        }
    }
}

pub fn max_temperature(t: &Vec<u32>) -> (m: Option<u32>)
    ensures
        m == max_of(t@),
{
    let mut m: Option<u32> = None;
    let mut i: usize = 0;
    while i < t.len()
        invariant
            i <= t@.len(),
            m == max_of(t@.take(i as int)),
        decreases t@.len() - i,
    {
        proof {
            assert(t@.take(i + 1).drop_last() =~= t@.take(i as int));
        }
        m = match m {
            Some(x) => if t[i] > x {
                Some(t[i])
            } else {
                Some(x)
            },
            None => Some(t[i]),
        };
        i = i + 1;
    }
    assert(t@.take(i as int) =~= t@);
    m
}

/// The temperature once the NVIDIA cards' highest one, in degrees, is taken into
/// account: in thousandths of a degree it replaces a lower one, or stands alone where
/// there was none.
pub open spec fn with_nvidia(temp: Option<u32>, nv: u32) -> Option<u32> {
    if nv == 0 {
        temp
    } else {
        match temp {
            None => Some((nv * 1000) as u32),
            Some(t) => if nv * 1000 > t {
                Some((nv * 1000) as u32)
            } else {
                Some(t)
            },
        }
    }
}

/// Taking the NVIDIA temperature into account keeps the higher of the two readings: the
/// result is at least the sensors' reading and the NVIDIA one in thousandths of a degree,
/// and is one of them; without an NVIDIA reading (0) the sensors' reading stands.
pub proof fn lemma_with_nvidia_is_max(temp: Option<u32>, nv: u32)
    requires
        nv * 1000 <= u32::MAX,
    ensures
        nv == 0 ==> with_nvidia(temp, nv) == temp,
        nv > 0 ==> (with_nvidia(temp, nv) matches Some(r) && r >= nv * 1000 && (temp matches Some(t)
            ==> r >= t && (r == t || r == nv * 1000)) && (temp is None ==> r == nv * 1000)),
{
}

/// The temperatures `nvidia-smi` printed, one per line: the lines that are numbers.
pub open spec fn nvidia_temps(out: Seq<char>) -> Seq<u32> {
    nvidia_temps_of(lines(out), lines(out).len() as int)
}

pub open spec fn nvidia_temps_of(l: Seq<Seq<char>>, k: int) -> Seq<u32>
    decreases k,
{
    if k <= 0 {
        Seq::empty()
    } else {
        match parse_unsigned(l[k - 1], 10, u32::MAX as int) {
            Some(v) => nvidia_temps_of(l, k - 1).push(v as u32),
            None => nvidia_temps_of(l, k - 1),
        }
    }
}

pub fn nvidia_temperatures(stdout: &str) -> (t: Vec<u32>)
    ensures
        t@ == nvidia_temps(stdout@),
{
    let l = lines_chars(&chars_of(stdout));
    let mut t: Vec<u32> = Vec::new();
    let mut i: usize = 0;
    while i < l.len()
        invariant
            i <= l@.len(),
            views(l@) == lines(stdout@),
            t@ == nvidia_temps_of(views(l@), i as int),
        decreases l@.len() - i,
    {
        proof {
            lemma_parse_unsigned_range(l@[i as int]@, 10, u32::MAX as int);
        }
        match parse_unsigned_chars(&l[i], 10, u32::MAX as u64) {
            Some(v) => t.push(v as u32),
            None => {},
        }
        i = i + 1;
    }
    t
}

/// The fan daemon: the curve it follows and whether it reads NVIDIA temperatures.
#[derive(Clone, Debug)]
pub struct FanDaemon {
    pub curve: FanCurve,
    pub nvidia_exists: bool,
    /// Set once reading the NVIDIA temperatures failed; they are not read again.
    pub displayed_warning: bool,
}

impl FanDaemon {
    /// The daemon's curve can be followed at every temperature.
    pub open spec fn wf(&self) -> bool {
        monotone_points(self.curve.points@)
    }

    /// The daemon for a machine, given its DMI product version file's text.
    pub fn new(nvidia_exists: bool, product_version: &str) -> (d: Self)
        ensures
            d.wf(),
            d.curve.points@ == curve_points_for_model(trim(product_version@)),
            d.nvidia_exists == nvidia_exists,
            !d.displayed_warning,
    {
        let model = trim_chars(&chars_of(product_version));
        let curve = if eq_lit(&model, "thelio-major-r1") {
            FanCurve::threadripper2()
        } else if eq_lit(&model, "thelio-major-r2") || eq_lit(&model, "thelio-major-r2.1") || eq_lit(
            &model,
            "thelio-major-b1",
        ) || eq_lit(&model, "thelio-major-b2") || eq_lit(&model, "thelio-major-b3") || eq_lit(
            &model,
            "thelio-mega-r1",
        ) || eq_lit(&model, "thelio-mega-r1.1") {
            FanCurve::hedt()
        } else if eq_lit(&model, "thelio-massive-b1") {
            FanCurve::xeon()
        } else {
            FanCurve::standard()
        };
        FanDaemon { curve, nvidia_exists, displayed_warning: false }
    }

    /// Whether the NVIDIA temperatures are to be read on this step.
    pub fn wants_nvidia(&self) -> (b: bool)
        ensures
            b == (self.nvidia_exists && !self.displayed_warning),
    {
        self.nvidia_exists && !self.displayed_warning
    }

    /// The highest temperature of the CPUs and AMD graphics cards, in thousandths of a
    /// degree, raised by the NVIDIA cards' when they were read (`None` when reading them
    /// failed, which stops further reads).
    pub fn get_temp(&mut self, readings: &Vec<u32>, nvidia: Option<Option<Vec<u32>>>) -> (t: Option<u32>)
        requires
            nvidia matches Some(Some(v)) ==> forall|i: int| 0 <= i < v@.len() ==> v@[i] * 1000 <= u32::MAX,
        ensures
            final(self).curve == old(self).curve,
            final(self).nvidia_exists == old(self).nvidia_exists,
            final(self).displayed_warning == (old(self).displayed_warning || (old(self).wants_nvidia_spec()
                && nvidia == Some(None::<Vec<u32>>))),
            t == (if old(self).wants_nvidia_spec() {
                match nvidia {
                    Some(Some(v)) => match max_of(v@) {
                        Some(nv) => with_nvidia(max_of(readings@), nv),
                        None => max_of(readings@),
                    },
                    _ => max_of(readings@),
                }
            } else {
                max_of(readings@)
            }),
    {
        let temp = max_temperature(readings);
        if self.nvidia_exists && !self.displayed_warning {
            match nvidia {
                Some(Some(v)) => {
                    match max_temperature(&v) {
                        Some(nv) => {
                            proof {
                                lemma_max_of_member(v@);
                            }
                            if nv == 0 {
                                return temp;
                            }
                            return match temp {
                                None => Some(nv * 1000),
                                Some(t) => if nv * 1000 > t {
                                    Some(nv * 1000)
                                } else {
                                    Some(t)
                                },
                            };
                        },
                        None => return temp,
                    }
                },
                Some(None) => {
                    self.displayed_warning = true;
                },
                None => {},
            }
        }
        temp
    }

    pub open spec fn wants_nvidia_spec(&self) -> bool {
        self.nvidia_exists && !self.displayed_warning
    }

    /// The PWM duty, from 0 to 255, for a temperature in thousandths of a degree: the
    /// curve's duty at the temperature in hundredths, scaled from 0 to 10000.
    pub fn get_duty(&self, temp: u32) -> (d: Option<u8>)
        requires
            self.wf(),
        ensures
            d == match curve_duty(self.curve.points@, (temp / 10) as i16 as int) {
                Some(duty) => Some(((duty as u32 * 255) / 10000) as u8),
                None => None,
            },
    {
        let t = (temp / 10) as i16;
        proof {
            lemma_monotone_curve_ok(self.curve.points@, t as int);
        }
        match self.curve.get_duty(t) {
            Some(duty) => Some(((duty as u32 * 255) / 10000) as u8),
            None => None,
        }
    }

    /// The writes to each platform hwmon device that set the fans: manual control at
    /// the duty on all four PWM outputs, or automatic control without a duty.
    pub fn set_duty(&self, duty_opt: Option<u8>) -> (w: Vec<SysfsWrite>)
        ensures
            writes_view(w@) == match duty_opt {
                Some(d) => seq![
                    ("pwm1_enable"@, "1"@),
                    ("pwm1"@, decimal(d as nat)),
                    ("pwm2"@, decimal(d as nat)),
                    ("pwm3"@, decimal(d as nat)),
                    ("pwm4"@, decimal(d as nat)),
                ],
                None => seq![("pwm1_enable"@, "2"@)],
            },
    {
        let mut w: Vec<SysfsWrite> = Vec::new();
        match duty_opt {
            Some(d) => {
                let mut v: Vec<char> = Vec::new();
                push_decimal(&mut v, d as u64);
                w.push(write_of(&chars_of("pwm1_enable"), &chars_of("1")));
                w.push(write_of(&chars_of("pwm1"), &v));
                w.push(write_of(&chars_of("pwm2"), &v));
                w.push(write_of(&chars_of("pwm3"), &v));
                w.push(write_of(&chars_of("pwm4"), &v));
            },
            None => {
                w.push(write_of(&chars_of("pwm1_enable"), &chars_of("2")));
            },
        }
        assert(writes_view(w@) =~= match duty_opt {
            Some(d) => seq![
                ("pwm1_enable"@, "1"@),
                ("pwm1"@, decimal(d as nat)),
                ("pwm2"@, decimal(d as nat)),
                ("pwm3"@, decimal(d as nat)),
                ("pwm4"@, decimal(d as nat)),
            ],
            None => seq![("pwm1_enable"@, "2"@)],
        });
        w
    }
}

/// The highest temperature is one of them, and none is higher.
pub proof fn lemma_max_of_member(t: Seq<u32>)
    ensures
        max_of(t) matches Some(m) ==> exists|i: int| 0 <= i < t.len() && t[i] == m,
        max_of(t) matches Some(m) ==> forall|i: int| 0 <= i < t.len() ==> #[trigger] t[i] <= m,
        max_of(t) is None <==> t.len() == 0,
    decreases t.len(),
{
    if t.len() > 0 {
        lemma_max_of_member(t.drop_last());
        assert forall|i: int| 0 <= i < t.len() - 1 implies #[trigger] t[i] == t.drop_last()[i] by {}
        if let Some(m) = max_of(t.drop_last()) {
            let i = choose|i: int| 0 <= i < t.drop_last().len() && t.drop_last()[i] == m;
            assert(t[i] == m);
        }
        assert(t[t.len() - 1] == t.last());
    }
}

} // verus!
