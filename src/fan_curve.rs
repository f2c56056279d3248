use vstd::prelude::*;

verus! {

/// Clamps a fan speed to the percent range `[0, 100]`.
pub open spec fn clamp_percent(v: int) -> int {
    if v < 0 {
        0
    } else if v > 100 {
        100
    } else {
        v
    }
}

/// Executable counterpart of `clamp_percent` for stored speeds.
pub fn clamp_speed(speed: u8) -> (r: u8)
    ensures
        r as int == clamp_percent(speed as int),
{
    if speed > 100 {
        100
    } else {
        speed
    }
}

/// A speed-from-temperature function whose points can be edited.
///
/// `points` is the set of `(temperature, percent)` points the curve is built
/// on; `speed_for` is what the next reading at a temperature returns and
/// `after_reading` is the curve's state once that reading has been taken
/// (a stateful curve such as a hysteresis curve remembers its last reading).
pub trait FanCurve: Sized {
    spec fn wf(&self) -> bool;

    spec fn points(&self) -> Map<i32, u8>;

    spec fn speed_for(&self, temp: i32) -> u8;

    spec fn after_reading(&self, temp: i32) -> Self;

    /// Adds a point, its percent clamped to `[0, 100]`; an existing point at
    /// the same temperature is replaced.
    fn add_point(&mut self, point: (i32, u8))
        requires
            old(self).wf(),
        ensures
            final(self).wf(),
            final(self).points() == old(self).points().insert(
                point.0,
                clamp_percent(point.1 as int) as u8,
            ),
    ;

    /// Replaces the point at the given temperature, or adds it.
    fn update_point(&mut self, point: (i32, u8))
        requires
            old(self).wf(),
        ensures
            final(self).wf(),
            final(self).points() == old(self).points().insert(
                point.0,
                clamp_percent(point.1 as int) as u8,
            ),
    ;

    /// Removes the point at the given temperature, if any.
    fn remove_point(&mut self, temp: i32)
        requires
            old(self).wf(),
        ensures
            final(self).wf(),
            final(self).points() == old(self).points().remove(temp),
    ;

    /// The number of points of the curve.
    fn points_num(&self) -> (r: usize)
        requires
            self.wf(),
        ensures
            r as int == self.points().len(),
    ;

    /// The fan speed for the given temperature.
    fn get_speed(&mut self, temp: i32) -> (r: u8)
        requires
            old(self).wf(),
        ensures
            final(self).wf(),
            r == old(self).speed_for(temp),
            *final(self) == old(self).after_reading(temp),
            final(self).points() == old(self).points(),
    ;
}

/// The fan-control mode of a device.
#[derive(Debug, Clone, Copy, PartialEq, Eq, Structural)]
pub enum FanMode {
    /// The driver manages the fans.
    Auto,
    /// The fan speed follows the device's fan curve.
    Curve,
    /// A fixed fan speed in percent.
    Manual(u8),
}

impl FanMode {
    /// A manual speed is at most 100 percent.
    pub open spec fn wf(self) -> bool {
        match self {
            FanMode::Manual(s) => s <= 100,
            _ => true,
        }
    }

    /// The mode clamped on entry: a manual speed above 100 becomes 100.
    pub open spec fn clamped(self) -> FanMode {
        match self {
            FanMode::Manual(s) => FanMode::Manual(clamp_percent(s as int) as u8),
            _ => self,
        }
    }

    /// Clamps a manual speed to `[0, 100]`.
    pub fn clamp(self) -> (r: FanMode)
        ensures
            r == self.clamped(),
            r.wf(),
    {
        match self {
            FanMode::Manual(s) => FanMode::Manual(clamp_speed(s)),
            _ => self,
        }
    }
}

/// The data a hysteresis curve over a linear curve is made from.
#[derive(Debug)]
pub struct FanCurveInfo {
    pub points: Vec<(i32, u8)>,
    pub lower_threshold: Option<u32>,
    pub upper_threshold: Option<u32>,
}

/// Copies a list of curve points.
pub fn copy_points(points: &Vec<(i32, u8)>) -> (r: Vec<(i32, u8)>)
    ensures
        r@ == points@,
{
    let mut r: Vec<(i32, u8)> = Vec::new();
    let mut i: usize = 0;
    while i < points.len()
        invariant
            i <= points.len(),
            r@ == points@.subrange(0, i as int),
        decreases points.len() - i,
    {
        r.push(points[i]);
        i = i + 1;
    }
    assert(r@ =~= points@);
    r
}

impl View for FanCurveInfo {
    type V = (Seq<(i32, u8)>, Option<u32>, Option<u32>);

    /// The points, then the lower and the upper threshold.
    open spec fn view(&self) -> (Seq<(i32, u8)>, Option<u32>, Option<u32>) {
        (self.points@, self.lower_threshold, self.upper_threshold)
    }
}

impl FanCurveInfo {
    /// A copy of the curve description.
    pub fn duplicate(&self) -> (r: FanCurveInfo)
        ensures
            r@ == self@,
    {
        FanCurveInfo {
            points: copy_points(&self.points),
            lower_threshold: self.lower_threshold,
            upper_threshold: self.upper_threshold,
        }
    }
}

} // verus!
