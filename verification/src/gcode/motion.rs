//! Motion parameters that M201, M203, M204 and M92 set (single-precision bit patterns; axes
//! in the order X, Y, Z, E).

use vstd::prelude::*;

verus! {

/// Accelerations that M204 sets.
#[derive(Debug, Clone, Copy, PartialEq, Eq, Structural)]
pub struct AccelParams {
    pub travel_bits: u32,
    pub print_bits: u32,
    pub retract_bits: u32,
}

impl Default for AccelParams {
    /// Travel 3000.0, print 1500.0, retract 3000.0.
    fn default() -> (r: Self)
        ensures
            r == (AccelParams { travel_bits: 0x453b_8000, print_bits: 0x44bb_8000, retract_bits: 0x453b_8000 }),
    {
        AccelParams { travel_bits: 0x453b_8000, print_bits: 0x44bb_8000, retract_bits: 0x453b_8000 }
    }
}

/// Motion parameters per axis.
#[derive(Debug, Clone, Copy)]
pub struct MotionParams {
    /// Maximum velocities (M203).
    pub max_velocity_bits: [u32; 4],
    /// Maximum accelerations (M201).
    pub acceleration_bits: [u32; 4],
    /// M204 accelerations.
    pub accel_params: AccelParams,
    /// Steps per millimetre (M92).
    pub steps_per_mm_bits: [u32; 4],
}

/// `a` with each given value replacing its axis.
pub open spec fn replaced(a: [u32; 4], x: Option<u32>, y: Option<u32>, z: Option<u32>, e: Option<u32>) -> Seq<u32> {
    seq![
        match x { Some(v) => v, None => a@[0] },
        match y { Some(v) => v, None => a@[1] },
        match z { Some(v) => v, None => a@[2] },
        match e { Some(v) => v, None => a@[3] },
    ]
}

fn replace_axes(a: &mut [u32; 4], x: Option<u32>, y: Option<u32>, z: Option<u32>, e: Option<u32>)
    ensures
        final(a)@ == replaced(*old(a), x, y, z, e),
{
    if let Some(v) = x {
        a[0] = v;
    }
    if let Some(v) = y {
        a[1] = v;
    }
    if let Some(v) = z {
        a[2] = v;
    }
    if let Some(v) = e {
        a[3] = v;
    }
    assert(a@ =~= replaced(*old(a), x, y, z, e));
}

impl MotionParams {
    /// Velocities 300.0, 300.0, 10.0, 60.0; accelerations 3000.0, 3000.0, 100.0, 5000.0; the
    /// default M204 accelerations; steps 80.0, 80.0, 400.0, 100.0.
    pub fn new() -> (r: Self)
        ensures
            r.max_velocity_bits@ == seq![0x4396_0000u32, 0x4396_0000, 0x4120_0000, 0x4270_0000],
            r.acceleration_bits@ == seq![0x453b_8000u32, 0x453b_8000, 0x42c8_0000, 0x459c_4000],
            r.accel_params == (AccelParams { travel_bits: 0x453b_8000, print_bits: 0x44bb_8000, retract_bits: 0x453b_8000 }),
            r.steps_per_mm_bits@ == seq![0x42a0_0000u32, 0x42a0_0000, 0x43c8_0000, 0x42c8_0000],
    {
        let r = MotionParams {
            max_velocity_bits: [0x4396_0000, 0x4396_0000, 0x4120_0000, 0x4270_0000],
            acceleration_bits: [0x453b_8000, 0x453b_8000, 0x42c8_0000, 0x459c_4000],
            accel_params: AccelParams::default(),
            steps_per_mm_bits: [0x42a0_0000, 0x42a0_0000, 0x43c8_0000, 0x42c8_0000],
        };
        assert(r.max_velocity_bits@ =~= seq![0x4396_0000u32, 0x4396_0000, 0x4120_0000, 0x4270_0000]);
        assert(r.acceleration_bits@ =~= seq![0x453b_8000u32, 0x453b_8000, 0x42c8_0000, 0x459c_4000]);
        assert(r.steps_per_mm_bits@ =~= seq![0x42a0_0000u32, 0x42a0_0000, 0x43c8_0000, 0x42c8_0000]);
        r
    }

    /// M201: the given accelerations replace those of their axes.
    pub fn apply_acceleration(&mut self, x: Option<u32>, y: Option<u32>, z: Option<u32>, e: Option<u32>)
        ensures
            final(self).acceleration_bits@ == replaced(old(self).acceleration_bits, x, y, z, e),
            final(self).max_velocity_bits == old(self).max_velocity_bits,
            final(self).accel_params == old(self).accel_params,
            final(self).steps_per_mm_bits == old(self).steps_per_mm_bits,
    {
        replace_axes(&mut self.acceleration_bits, x, y, z, e);
    }

    /// M203: the given velocities replace those of their axes.
    pub fn apply_max_velocity(&mut self, x: Option<u32>, y: Option<u32>, z: Option<u32>, e: Option<u32>)
        ensures
            final(self).max_velocity_bits@ == replaced(old(self).max_velocity_bits, x, y, z, e),
            final(self).acceleration_bits == old(self).acceleration_bits,
            final(self).accel_params == old(self).accel_params,
            final(self).steps_per_mm_bits == old(self).steps_per_mm_bits,
    {
        replace_axes(&mut self.max_velocity_bits, x, y, z, e);
    }

    /// M204: the given accelerations replace the travel, print and retract ones.
    pub fn apply_accel_params(&mut self, travel: Option<u32>, print: Option<u32>, retract: Option<u32>)
        ensures
            final(self).accel_params == (AccelParams {
                travel_bits: match travel { Some(v) => v, None => old(self).accel_params.travel_bits },
                print_bits: match print { Some(v) => v, None => old(self).accel_params.print_bits },
                retract_bits: match retract { Some(v) => v, None => old(self).accel_params.retract_bits },
            }),
            final(self).max_velocity_bits == old(self).max_velocity_bits,
            final(self).acceleration_bits == old(self).acceleration_bits,
            final(self).steps_per_mm_bits == old(self).steps_per_mm_bits,
    {
        if let Some(v) = travel {
            self.accel_params.travel_bits = v;
        }
        if let Some(v) = print {
            self.accel_params.print_bits = v;
        }
        if let Some(v) = retract {
            self.accel_params.retract_bits = v;
        }
    }

    /// M92: the given step counts replace those of their axes.
    pub fn apply_steps_per_mm(&mut self, x: Option<u32>, y: Option<u32>, z: Option<u32>, e: Option<u32>)
        ensures
            final(self).steps_per_mm_bits@ == replaced(old(self).steps_per_mm_bits, x, y, z, e),
            final(self).max_velocity_bits == old(self).max_velocity_bits,
            final(self).acceleration_bits == old(self).acceleration_bits,
            final(self).accel_params == old(self).accel_params,
    {
        replace_axes(&mut self.steps_per_mm_bits, x, y, z, e);
    }

    /// The velocity limit of an axis (0 to 3), where there is one.
    pub fn axis_max_velocity(&self, axis: usize) -> (r: Option<u32>)
        ensures
            axis < 4 ==> r == Some(self.max_velocity_bits@[axis as int]),
            axis >= 4 ==> r is None,
    {
        if axis < 4 {
            Some(self.max_velocity_bits[axis])
        } else {
            None
        }
    }
}

impl Default for MotionParams {
    fn default() -> (r: Self)
        ensures
            r.max_velocity_bits@ == seq![0x4396_0000u32, 0x4396_0000, 0x4120_0000, 0x4270_0000],
            r.steps_per_mm_bits@ == seq![0x42a0_0000u32, 0x42a0_0000, 0x43c8_0000, 0x42c8_0000],
    {
        MotionParams::new()
    }
}

} // verus!
