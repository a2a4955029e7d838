//! The presentation surface as the orchestrator sees it: the extent of the
//! swapchain images, how many there are, and the orthographic projection
//! derived from the extent.
use vstd::prelude::*;

verus! {

/// Projection bounds are kept exactly, in units of `1 / PROJECTION_UNITS`:
/// the half-width of the view is `0.0025` per pixel, that is one unit.
pub const PROJECTION_UNITS: i64 = 400;

/// Distance of the near and far planes from the origin, in whole units.
pub const DEPTH_RANGE: i64 = 100;

/// A surface extent in pixels.
#[derive(Clone, Copy, PartialEq, Eq, Structural, Debug)]
pub struct Extent {
    pub width: u32,
    pub height: u32,
}

/// An orthographic projection, each bound in units of `1 / PROJECTION_UNITS`.
#[derive(Clone, Copy, PartialEq, Eq, Structural, Debug)]
pub struct Projection {
    pub left: i64,
    pub right: i64,
    pub bottom: i64,
    pub top: i64,
    pub near: i64,
    pub far: i64,
}

impl Projection {
    /// The symmetric bounds for `extent`: each horizontal bound is
    /// `width / 400` away from the centre, each vertical bound `height / 400`,
    /// and the depth range is `[-100, 100]`.
    pub open spec fn spec_for_extent(extent: Extent) -> Projection {
        Projection {
            left: -(extent.width as int) as i64,
            right: extent.width as i64,
            bottom: -(extent.height as int) as i64,
            top: extent.height as i64,
            near: (-DEPTH_RANGE * PROJECTION_UNITS) as i64,
            far: (DEPTH_RANGE * PROJECTION_UNITS) as i64,
        }
    }

    pub fn for_extent(extent: Extent) -> (p: Projection)
        ensures
            p == Self::spec_for_extent(extent),
            p.right == extent.width,
            p.top == extent.height,
            p.left == -p.right,
            p.bottom == -p.top,
    {
        let w = extent.width as i64;
        let h = extent.height as i64;
        Projection {
            left: -w,
            right: w,
            bottom: -h,
            top: h,
            near: -DEPTH_RANGE * PROJECTION_UNITS,
            far: DEPTH_RANGE * PROJECTION_UNITS,
        }
    }
}

/// What rebuilding the swapchain for a new extent came to. Any other failure
/// of the rebuild is fatal and never reaches the orchestrator.
#[derive(Clone, Copy, PartialEq, Eq, Structural, Debug)]
pub enum RebuildOutcome {
    /// The swapchain was recreated with `image_count` images of `extent`.
    Rebuilt { extent: Extent, image_count: u32 },
    /// The surface reported the requested extent as unsupported.
    ExtentNotSupported,
}

/// The configuration of the presentation surface.
#[derive(Clone, Copy, PartialEq, Eq, Structural, Debug)]
pub struct SurfaceConfig {
    pub extent: Extent,
    pub image_count: u32,
    pub projection: Projection,
}

impl SurfaceConfig {
    /// The configuration of a swapchain of `image_count` images of `extent`.
    pub open spec fn spec_new(extent: Extent, image_count: u32) -> SurfaceConfig {
        SurfaceConfig { extent, image_count, projection: Projection::spec_for_extent(extent) }
    }

    /// The configuration after a rebuild came to `outcome`: replaced as a
    /// whole when it succeeded, unchanged when the extent was unsupported.
    pub open spec fn spec_rebuilt(self, outcome: RebuildOutcome) -> SurfaceConfig {
        match outcome {
            RebuildOutcome::Rebuilt { extent, image_count } => Self::spec_new(extent, image_count),
            RebuildOutcome::ExtentNotSupported => self,
        }
    }

    pub fn new(extent: Extent, image_count: u32) -> (s: SurfaceConfig)
        ensures
            s == Self::spec_new(extent, image_count),
    {
        SurfaceConfig { extent, image_count, projection: Projection::for_extent(extent) }
    }

    pub fn rebuild(&mut self, outcome: RebuildOutcome)
        ensures
            *final(self) == old(self).spec_rebuilt(outcome),
    {
        match outcome {
            RebuildOutcome::Rebuilt { extent, image_count } => {
                *self = SurfaceConfig::new(extent, image_count);
            },
            RebuildOutcome::ExtentNotSupported => {},
        }
    }
}

} // verus!
