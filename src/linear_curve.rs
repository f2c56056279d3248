use vstd::prelude::*;

use crate::fan_curve::{clamp_percent, clamp_speed, FanCurve};

verus! {

/// Temperatures strictly increase along the sequence.
pub open spec fn sorted_points(s: Seq<(i32, u8)>) -> bool {
    forall|i: int, j: int| 0 <= i < j < s.len() ==> s[i].0 < s[j].0
}

/// Every percent of the sequence is at most 100.
pub open spec fn bounded_speeds(s: Seq<(i32, u8)>) -> bool {
    forall|i: int| 0 <= i < s.len() ==> s[i].1 <= 100
}

pub open spec fn has_temp(s: Seq<(i32, u8)>, t: i32) -> bool {
    exists|i: int| 0 <= i < s.len() && s[i].0 == t
}

/// The points of a sequence as a map from temperature to percent.
pub open spec fn point_map(s: Seq<(i32, u8)>) -> Map<i32, u8> {
    Map::new(
        |t: i32| has_temp(s, t),
        |t: i32| s[choose|i: int| 0 <= i < s.len() && s[i].0 == t].1,
    )
}

/// The map a list of points gives when inserted one after the other, each
/// percent clamped; a later point replaces an earlier one at the same
/// temperature.
pub open spec fn built_map(pts: Seq<(i32, u8)>) -> Map<i32, u8>
    decreases pts.len(),
{
    if pts.len() == 0 {
        Map::empty()
    } else {
        built_map(pts.drop_last()).insert(
            pts.last().0,
            clamp_percent(pts.last().1 as int) as u8,
        )
    }
}

/// The number of points below the temperature `t`.
pub open spec fn count_below(s: Seq<(i32, u8)>, t: i32) -> nat
    decreases s.len(),
{
    if s.len() == 0 {
        0
    } else {
        count_below(s.drop_last(), t) + if s.last().0 < t {
            1nat
        } else {
            0nat
        }
    }
}

/// `a / b` rounded to the nearest integer, halves rounded up (`b != 0`).
pub open spec fn round_div(a: int, b: int) -> int {
    if b > 0 {
        (2 * a + b) / (2 * b)
    } else {
        (-2 * a - b) / (-2 * b)
    }
}

/// The speed on the line through `(x1, y1)` and `(x2, y2)` at `t`:
/// `round(((y1 - y2) * t + x1 * y2 - x2 * y1) / (x1 - x2))`, clamped to
/// `[0, 100]`.
pub open spec fn interpolated(x1: int, y1: int, x2: int, y2: int, t: int) -> int {
    clamp_percent(round_div((y1 - y2) * t + x1 * y2 - x2 * y1, x1 - x2))
}

/// The speed a sorted list of points gives at `t`: the percent of a point at
/// `t`; else the interpolation between the nearest points below and above;
/// else the percent of the only neighbour; 100 when there is no point.
pub open spec fn curve_speed(s: Seq<(i32, u8)>, t: i32) -> u8 {
    let i = count_below(s, t) as int;
    if s.len() == 0 {
        100
    } else if i < s.len() && s[i].0 == t {
        clamp_percent(s[i].1 as int) as u8
    } else if i == 0 {
        clamp_percent(s[0].1 as int) as u8
    } else if i == s.len() {
        clamp_percent(s[i - 1].1 as int) as u8
    } else {
        interpolated(s[i - 1].0 as int, s[i - 1].1 as int, s[i].0 as int, s[i].1 as int, t as int) as u8
    }
}

proof fn lemma_count_below_split(s: Seq<(i32, u8)>, t: i32)
    requires
        sorted_points(s),
    ensures
        count_below(s, t) <= s.len(),
        forall|j: int| 0 <= j < count_below(s, t) ==> s[j].0 < t,
        forall|j: int| count_below(s, t) <= j < s.len() ==> s[j].0 >= t,
    decreases s.len(),
{
    if s.len() > 0 {
        let p = s.drop_last();
        lemma_count_below_split(p, t);
        let c = count_below(p, t) as int;
        if s.last().0 < t {
            if c < p.len() {
                assert(p[c].0 < s.last().0);
            }
            assert(count_below(s, t) == s.len());
        } else {
            assert(count_below(s, t) == c);
            assert forall|j: int| c <= j < s.len() implies s[j].0 >= t by {
                if j < p.len() {
                    assert(p[j] == s[j]);
                }
            }
            assert forall|j: int| 0 <= j < c implies s[j].0 < t by {
                assert(p[j] == s[j]);
            }
        }
    }
}

proof fn lemma_split_is_count(s: Seq<(i32, u8)>, t: i32, i: int)
    requires
        sorted_points(s),
        0 <= i <= s.len(),
        forall|j: int| 0 <= j < i ==> s[j].0 < t,
        forall|j: int| i <= j < s.len() ==> s[j].0 >= t,
    ensures
        count_below(s, t) == i,
{
    lemma_count_below_split(s, t);
    let c = count_below(s, t) as int;
    if c < i {
        assert(s[c].0 < t);
    }
    if i < c {
        assert(s[i].0 < t);
    }
}

proof fn lemma_point_map_at(s: Seq<(i32, u8)>, i: int)
    requires
        sorted_points(s),
        0 <= i < s.len(),
    ensures
        point_map(s).contains_key(s[i].0),
        point_map(s)[s[i].0] == s[i].1,
{
    assert(has_temp(s, s[i].0));
    let j = choose|j: int| 0 <= j < s.len() && s[j].0 == s[i].0;
    if j < i {
        assert(s[j].0 < s[i].0);
    }
    if i < j {
        assert(s[i].0 < s[j].0);
    }
}

proof fn lemma_point_map_len(s: Seq<(i32, u8)>)
    requires
        sorted_points(s),
    ensures
        point_map(s).dom().finite(),
        point_map(s).len() == s.len(),
{
    let keys = s.map_values(|p: (i32, u8)| p.0);
    assert(keys.no_duplicates()) by {
        assert forall|i: int, j: int| 0 <= i < keys.len() && 0 <= j < keys.len() && i != j
            implies keys[i] != keys[j] by {
            if i < j {
                assert(s[i].0 < s[j].0);
            } else {
                assert(s[j].0 < s[i].0);
            }
        }
    }
    assert(point_map(s).dom() =~= keys.to_set()) by {
        assert forall|t: i32| point_map(s).dom().contains(t) implies keys.to_set().contains(t) by {
            let i = choose|i: int| 0 <= i < s.len() && s[i].0 == t;
            assert(keys[i] == t);
        }
        assert forall|t: i32| keys.to_set().contains(t) implies point_map(s).dom().contains(t) by {
            let i = choose|i: int| 0 <= i < keys.len() && keys[i] == t;
            assert(s[i].0 == t);
        }
    }
    keys.unique_seq_to_set();
}

/// A piecewise-linear fan curve over an ordered set of points.
#[derive(Debug)]
pub struct LinearCurve {
    points: Vec<(i32, u8)>,
}

impl View for LinearCurve {
    type V = Seq<(i32, u8)>;

    /// The points in increasing order of temperature.
    closed spec fn view(&self) -> Seq<(i32, u8)> {
        self.points@
    }
}

impl LinearCurve {
    /// Builds a curve by adding the given points in order.
    pub fn new(points: &[(i32, u8)]) -> (r: LinearCurve)
        ensures
            r.wf(),
            r.points() == built_map(points@),
    {
        let mut curve = LinearCurve { points: Vec::new() };
        assert(point_map(curve@) =~= Map::empty());
        let mut i: usize = 0;
        while i < points.len()
            invariant
                i <= points.len(),
                curve.wf(),
                curve.points() == built_map(points@.subrange(0, i as int)),
            decreases points.len() - i,
        {
            curve.add_point(points[i]);
            assert(points@.subrange(0, i + 1).drop_last() =~= points@.subrange(0, i as int));
            i = i + 1;
        }
        assert(points@.subrange(0, points.len() as int) =~= points@);
        curve
    }

    /// The curve's points in increasing order of temperature.
    pub fn points_list(&self) -> (r: Vec<(i32, u8)>)
        ensures
            r@ == self@,
    {
        crate::fan_curve::copy_points(&self.points)
    }

    /// The index of the first point whose temperature is not below `t`.
    fn find_index(&self, t: i32) -> (i: usize)
        requires
            self.wf(),
        ensures
            i as int == count_below(self@, t),
            i <= self@.len(),
    {
        let mut i: usize = 0;
        while i < self.points.len() && self.points[i].0 < t
            invariant
                i <= self.points.len(),
                forall|j: int| 0 <= j < i ==> self@[j].0 < t,
            decreases self.points.len() - i,
        {
            i = i + 1;
        }
        proof {
            if i < self@.len() {
                assert forall|j: int| i <= j < self@.len() implies self@[j].0 >= t by {
                    if j > i {
                        assert(self@[i as int].0 < self@[j].0);
                    }
                }
            }
            lemma_split_is_count(self@, t, i as int);
        }
        i
    }

    fn insert_point(&mut self, point: (i32, u8))
        requires
            old(self).wf(),
        ensures
            final(self).wf(),
            final(self).points() == old(self).points().insert(
                point.0,
                clamp_percent(point.1 as int) as u8,
            ),
    {
        let speed = clamp_speed(point.1);
        let ghost s = self@;
        let i = self.find_index(point.0);
        proof {
            lemma_count_below_split(s, point.0);
        }
        if i < self.points.len() && self.points[i].0 == point.0 {
            self.points.set(i, (point.0, speed));
            let ghost s2 = self@;
            assert(s2 == s.update(i as int, (point.0, speed)));
            assert(sorted_points(s2));
            proof {
                assert forall|t: i32| #[trigger] point_map(s2).contains_key(t) <==> point_map(s).insert(point.0, speed).contains_key(t) by {
                    if has_temp(s, t) && t != point.0 {
                        let j = choose|j: int| 0 <= j < s.len() && s[j].0 == t;
                        assert(s2[j].0 == t);
                    }
                    if has_temp(s2, t) && t != point.0 {
                        let j = choose|j: int| 0 <= j < s2.len() && s2[j].0 == t;
                        assert(s[j].0 == t);
                    }
                    if t == point.0 {
                        assert(s2[i as int].0 == t);
                    }
                }
                assert forall|t: i32| #[trigger] point_map(s2).contains_key(t) implies point_map(s2)[t] == point_map(s).insert(point.0, speed)[t] by {
                    let j = choose|j: int| 0 <= j < s2.len() && s2[j].0 == t;
                    lemma_point_map_at(s2, j);
                    if t != point.0 {
                        lemma_point_map_at(s, j);
                    }
                }
                assert(point_map(s2) =~= point_map(s).insert(point.0, speed));
            }
        } else {
            self.points.insert(i, (point.0, speed));
            let ghost s2 = self@;
            assert(s2 == s.insert(i as int, (point.0, speed)));
            assert(sorted_points(s2));
            proof {
                assert forall|t: i32| #[trigger] point_map(s2).contains_key(t) <==> point_map(s).insert(point.0, speed).contains_key(t) by {
                    if has_temp(s, t) && t != point.0 {
                        let j = choose|j: int| 0 <= j < s.len() && s[j].0 == t;
                        if j < i {
                            assert(s2[j].0 == t);
                        } else {
                            assert(s2[j + 1].0 == t);
                        }
                    }
                    if has_temp(s2, t) && t != point.0 {
                        let j = choose|j: int| 0 <= j < s2.len() && s2[j].0 == t;
                        if j < i {
                            assert(s[j].0 == t);
                        } else {
                            assert(s[j - 1].0 == t);
                        }
                    }
                    if t == point.0 {
                        assert(s2[i as int].0 == t);
                    }
                }
                assert forall|t: i32| #[trigger] point_map(s2).contains_key(t) implies point_map(s2)[t] == point_map(s).insert(point.0, speed)[t] by {
                    let j = choose|j: int| 0 <= j < s2.len() && s2[j].0 == t;
                    lemma_point_map_at(s2, j);
                    if t != point.0 {
                        if j < i {
                            lemma_point_map_at(s, j);
                        } else {
                            lemma_point_map_at(s, j - 1);
                        }
                    }
                }
                assert(point_map(s2) =~= point_map(s).insert(point.0, speed));
            }
        }
    }
}

impl FanCurve for LinearCurve {
    open spec fn wf(&self) -> bool {
        sorted_points(self@) && bounded_speeds(self@)
    }

    open spec fn points(&self) -> Map<i32, u8> {
        point_map(self@)
    }

    open spec fn speed_for(&self, temp: i32) -> u8 {
        curve_speed(self@, temp)
    }

    open spec fn after_reading(&self, temp: i32) -> Self {
        *self
    }

    fn add_point(&mut self, point: (i32, u8)) {
        self.insert_point(point);
    }

    fn update_point(&mut self, point: (i32, u8)) {
        self.insert_point(point);
    }

    fn remove_point(&mut self, temp: i32) {
        let ghost s = self@;
        let i = self.find_index(temp);
        proof {
            lemma_count_below_split(s, temp);
        }
        if i < self.points.len() && self.points[i].0 == temp {
            self.points.remove(i);
            let ghost s2 = self@;
            assert(s2 == s.remove(i as int));
            proof {
                assert forall|t: i32| #[trigger] point_map(s2).contains_key(t) <==> point_map(s).remove(temp).contains_key(t) by {
                    if has_temp(s, t) && t != temp {
                        let j = choose|j: int| 0 <= j < s.len() && s[j].0 == t;
                        if j < i {
                            assert(s2[j].0 == t);
                        } else {
                            assert(s2[j - 1].0 == t);
                        }
                    }
                    if has_temp(s2, t) {
                        let j = choose|j: int| 0 <= j < s2.len() && s2[j].0 == t;
                        if j < i {
                            assert(s[j].0 == t);
                        } else {
                            assert(s[j + 1].0 == t);
                        }
                    }
                }
                assert forall|t: i32| #[trigger] point_map(s2).contains_key(t) implies point_map(s2)[t] == point_map(s).remove(temp)[t] by {
                    let j = choose|j: int| 0 <= j < s2.len() && s2[j].0 == t;
                    lemma_point_map_at(s2, j);
                    if j < i {
                        lemma_point_map_at(s, j);
                    } else {
                        lemma_point_map_at(s, j + 1);
                    }
                }
                assert(point_map(s2) =~= point_map(s).remove(temp));
            }
        } else {
            proof {
                assert(!has_temp(s, temp)) by {
                    if has_temp(s, temp) {
                        let j = choose|j: int| 0 <= j < s.len() && s[j].0 == temp;
                        if j < i {
                        } else if j > i {
                            assert(s[i as int].0 < s[j].0);
                        }
                    }
                }
                assert(point_map(s) =~= point_map(s).remove(temp));
            }
        }
    }

    fn points_num(&self) -> (r: usize) {
        proof {
            lemma_point_map_len(self@);
        }
        self.points.len()
    }

    fn get_speed(&mut self, temp: i32) -> (r: u8) {
        let i = self.find_index(temp);
        let n = self.points.len();
        if n == 0 {
            100
        } else if i < n && self.points[i].0 == temp {
            clamp_speed(self.points[i].1)
        } else if i == 0 {
            clamp_speed(self.points[0].1)
        } else if i == n {
            clamp_speed(self.points[n - 1].1)
        } else {
            proof {
                lemma_count_below_split(self@, temp);
            }
            linear_interpolation(self.points[i - 1], self.points[i], temp)
        }
    }
}

/// The speed at `temp` on the line through two points, rounded to the
/// nearest percent and clamped to `[0, 100]`.
pub fn linear_interpolation(pre: (i32, u8), suc: (i32, u8), temp: i32) -> (r: u8)
    requires
        pre.0 < suc.0,
    ensures
        r as int == interpolated(pre.0 as int, pre.1 as int, suc.0 as int, suc.1 as int, temp as int),
{
    let x1 = pre.0 as i64;
    let y1 = pre.1 as i64;
    let x2 = suc.0 as i64;
    let y2 = suc.1 as i64;
    let t = temp as i64;
    proof {
        assert(-256 * 0x8000_0000 <= (y1 - y2) * t <= 256 * 0x8000_0000) by (nonlinear_arith)
            requires
                -255 <= y1 - y2 <= 255,
                -0x8000_0000 <= t < 0x8000_0000,
        ;
        assert(-256 * 0x8000_0000 <= x1 * y2 <= 256 * 0x8000_0000) by (nonlinear_arith)
            requires
                0 <= y2 <= 255,
                -0x8000_0000 <= x1 < 0x8000_0000,
        ;
        assert(-256 * 0x8000_0000 <= x2 * y1 <= 256 * 0x8000_0000) by (nonlinear_arith)
            requires
                0 <= y1 <= 255,
                -0x8000_0000 <= x2 < 0x8000_0000,
        ;
    }
    let num = (y1 - y2) * t + x1 * y2 - x2 * y1;
    let den = x1 - x2;
    assert(-3 * 256 * 0x8000_0000 <= num <= 3 * 256 * 0x8000_0000);
    assert(-0x1_0000_0000 <= den < 0);
    // den < 0: round(num / den) is floor((-2 num - den) / (-2 den))
    let a = (0 - num) * 2 - den;
    let b = (0 - den) * 2;
    if a < 0 {
        proof {
            assert(a / b < 0) by (nonlinear_arith)
                requires
                    a < 0,
                    b > 0,
            ;
        }
        0
    } else {
        let q = (a as u64) / (b as u64);
        if q > 100 {
            100
        } else {
            q as u8
        }
    }
}

/// A curve whose only point is `(0, 100)` gives 100 everywhere.
pub proof fn lemma_single_point(curve: LinearCurve, t: i32)
    requires
        curve.wf(),
        curve.points() == map![0i32 => 100u8],
    ensures
        curve.speed_for(t) == 100,
{
    lemma_point_map_len(curve@);
    assert(curve@.len() == 1);
    lemma_point_map_at(curve@, 0);
    assert(curve@[0] == (0i32, 100u8));
    lemma_count_below_split(curve@, t);
}

/// Every curve with at least one point gives a speed in `[0, 100]` at every
/// temperature.
pub proof fn lemma_speed_in_range(curve: LinearCurve, temp: i32)
    requires
        curve.wf(),
        curve@.len() >= 1,
    ensures
        0 <= curve.speed_for(temp) <= 100,
{
}

} // verus!
