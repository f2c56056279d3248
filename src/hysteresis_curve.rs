use vstd::prelude::*;

use crate::fan_curve::{clamp_percent, FanCurve, FanCurveInfo};
use crate::linear_curve::{built_map, LinearCurve};

verus! {

/// Whether a reading at `temp` after the reading at `last_temp` leaves the
/// deadband: the rise reaches `upper`, or the fall (or no change) reaches
/// `lower`.
pub open spec fn leaves_deadband(last_temp: i32, temp: i32, lower: u32, upper: u32) -> bool {
    let delta = temp - last_temp;
    if delta > 0 {
        delta >= upper
    } else {
        -delta >= lower
    }
}

/// A curve that keeps its last speed while the temperature stays within a
/// deadband around the temperature of its last update.
#[derive(Debug)]
pub struct HysteresisCurve<C: FanCurve> {
    pub curve: C,
    /// The temperature and speed of the last update.
    pub last_update: Option<(i32, u8)>,
    /// The fall that triggers an update.
    pub lower_threshold: u32,
    /// The rise that triggers an update.
    pub upper_threshold: u32,
}

impl<C: FanCurve> HysteresisCurve<C> {
    /// Whether a reading at `temp` evaluates the inner curve.
    pub open spec fn resamples(&self, temp: i32) -> bool {
        match self.last_update {
            None => true,
            Some(last) => leaves_deadband(last.0, temp, self.lower_threshold, self.upper_threshold),
        }
    }

    /// Wraps a curve, with no reading taken yet.
    pub fn from_curve(curve: C, lower_threshold: u32, upper_threshold: u32) -> (r: HysteresisCurve<C>)
        ensures
            r.curve == curve,
            r.last_update is None,
            r.lower_threshold == lower_threshold,
            r.upper_threshold == upper_threshold,
    {
        HysteresisCurve { curve, last_update: None, lower_threshold, upper_threshold }
    }

    /// Evaluates the inner curve and records the reading.
    fn update(&mut self, temp: i32) -> (r: u8)
        requires
            old(self).wf(),
        ensures
            final(self).wf(),
            r == old(self).curve.speed_for(temp),
            final(self).curve == old(self).curve.after_reading(temp),
            final(self).curve.points() == old(self).curve.points(),
            final(self).last_update == Some((temp, r)),
            final(self).lower_threshold == old(self).lower_threshold,
            final(self).upper_threshold == old(self).upper_threshold,
    {
        let speed = self.curve.get_speed(temp);
        self.last_update = Some((temp, speed));
        speed
    }
}

impl HysteresisCurve<LinearCurve> {
    /// A hysteresis curve over a linear curve built from the given points.
    pub fn new(points: &[(i32, u8)], lower_threshold: u32, upper_threshold: u32) -> (r: HysteresisCurve<LinearCurve>)
        ensures
            r.wf(),
            r.points() == built_map(points@),
            r.last_update is None,
            r.lower_threshold == lower_threshold,
            r.upper_threshold == upper_threshold,
    {
        HysteresisCurve {
            curve: LinearCurve::new(points),
            last_update: None,
            lower_threshold,
            upper_threshold,
        }
    }

    /// A hysteresis curve over a linear curve built from a curve
    /// description; a missing threshold is 0.
    pub fn from_info(info: &FanCurveInfo) -> (r: HysteresisCurve<LinearCurve>)
        ensures
            r.wf(),
            r.points() == built_map(info.points@),
            r.last_update is None,
            r.lower_threshold == (match info.lower_threshold { Some(v) => v, None => 0 }),
            r.upper_threshold == (match info.upper_threshold { Some(v) => v, None => 0 }),
    {
        let lower = match info.lower_threshold {
            Some(v) => v,
            None => 0,
        };
        let upper = match info.upper_threshold {
            Some(v) => v,
            None => 0,
        };
        HysteresisCurve::<LinearCurve>::new(info.points.as_slice(), lower, upper)
    }

    /// The curve that always asks for full speed.
    pub fn full_speed() -> (r: HysteresisCurve<LinearCurve>)
        ensures
            r.wf(),
            r.points() == map![0i32 => 100u8],
            r.last_update is None,
            forall|t: i32| r.speed_for(t) == 100,
    {
        let mut curve = LinearCurve::new(&[]);
        curve.add_point((0, 100));
        proof {
            assert(built_map(Seq::<(i32, u8)>::empty()) =~= Map::empty());
            assert(curve.points() =~= map![0i32 => 100u8]);
            assert forall|t: i32| curve.speed_for(t) == 100 by {
                crate::linear_curve::lemma_single_point(curve, t);
            }
        }
        HysteresisCurve::from_curve(curve, 0, 0)
    }
}

impl<C: FanCurve> FanCurve for HysteresisCurve<C> {
    open spec fn wf(&self) -> bool {
        self.curve.wf()
    }

    open spec fn points(&self) -> Map<i32, u8> {
        self.curve.points()
    }

    open spec fn speed_for(&self, temp: i32) -> u8 {
        if self.resamples(temp) {
            self.curve.speed_for(temp)
        } else {
            self.last_update.unwrap().1
        }
    }

    open spec fn after_reading(&self, temp: i32) -> Self {
        if self.resamples(temp) {
            HysteresisCurve {
                curve: self.curve.after_reading(temp),
                last_update: Some((temp, self.curve.speed_for(temp))),
                lower_threshold: self.lower_threshold,
                upper_threshold: self.upper_threshold,
            }
        } else {
            *self
        }
    }

    fn add_point(&mut self, point: (i32, u8)) {
        self.curve.add_point(point);
    }

    fn update_point(&mut self, point: (i32, u8)) {
        self.curve.add_point(point);
    }

    fn remove_point(&mut self, temp: i32) {
        self.curve.remove_point(temp);
    }

    fn points_num(&self) -> (r: usize) {
        self.curve.points_num()
    }

    fn get_speed(&mut self, temp: i32) -> (r: u8) {
        match self.last_update {
            Some(last) => {
                let delta: i64 = temp as i64 - last.0 as i64;
                let threshold: u32 = if delta > 0 {
                    self.upper_threshold
                } else {
                    self.lower_threshold
                };
                let magnitude: i64 = if delta < 0 {
                    -delta
                } else {
                    delta
                };
                if magnitude >= threshold as i64 {
                    self.update(temp)
                } else {
                    last.1
                }
            },
            None => self.update(temp),
        }
    }
}

/// Within the deadband around the last update `(t0, s0)` (a rise below the
/// upper threshold, or a fall or no change below the lower threshold) the
/// curve keeps returning `s0` and its state does not change.
pub proof fn lemma_deadband_keeps_speed<C: FanCurve>(curve: HysteresisCurve<C>, temp: i32)
    requires
        curve.last_update is Some,
        temp > curve.last_update.unwrap().0 ==> temp - curve.last_update.unwrap().0 < curve.upper_threshold,
        temp <= curve.last_update.unwrap().0 ==> curve.last_update.unwrap().0 - temp < curve.lower_threshold,
    ensures
        curve.speed_for(temp) == curve.last_update.unwrap().1,
        curve.after_reading(temp) == curve,
{
}

/// Outside the deadband the curve evaluates the inner curve and records the
/// reading, so that the next deadband is centred on `temp`.
pub proof fn lemma_boundary_resamples<C: FanCurve>(curve: HysteresisCurve<C>, temp: i32)
    requires
        curve.last_update is Some,
        temp > curve.last_update.unwrap().0 ==> temp - curve.last_update.unwrap().0 >= curve.upper_threshold,
        temp <= curve.last_update.unwrap().0 ==> curve.last_update.unwrap().0 - temp >= curve.lower_threshold,
    ensures
        curve.speed_for(temp) == curve.curve.speed_for(temp),
        curve.after_reading(temp).last_update == Some((temp, curve.curve.speed_for(temp))),
{
}

} // verus!
