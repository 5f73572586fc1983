use vstd::prelude::*;

verus! {

/// Index of a cell on a unit sphere rasterized by azimuth and elevation.
#[derive(Debug, Clone, Copy, PartialEq, Eq, Structural)]
pub struct UnitSphericalCellIndex3 {
    azimuth: i32,
    elevation: i32,
}

impl UnitSphericalCellIndex3 {
    pub closed spec fn azimuth_spec(&self) -> i32 {
        self.azimuth
    }

    pub closed spec fn elevation_spec(&self) -> i32 {
        self.elevation
    }

    pub fn new(azimuth: i32, elevation: i32) -> (r: Self)
        ensures
            r.azimuth_spec() == azimuth,
            r.elevation_spec() == elevation,
    {
        Self { azimuth, elevation }
    }

    pub fn azimuth(&self) -> (r: i32)
        ensures
            r == self.azimuth_spec(),
    {
        self.azimuth
    }

    pub fn elevation(&self) -> (r: i32)
        ensures
            r == self.elevation_spec(),
    {
        self.elevation
    }
}

} // verus!
