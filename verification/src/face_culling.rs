//! Face culling is the operation of removing triangles if they are facing the
//! screen in a specific direction with a specific mode.

use vstd::prelude::*;

verus! {

/// Should face culling be enabled?
#[derive(Copy, Clone, Debug, PartialEq, Eq, Structural)]
pub enum FaceCullingState {
    /// Enable face culling.
    On,
    /// Disable face culling.
    Off,
}

/// Face culling order.
///
/// If the vertices of a triangle wind up in the same direction as the order,
/// the triangle shows its front side, otherwise its back side.
#[derive(Copy, Clone, Debug, PartialEq, Eq, Structural)]
pub enum FaceCullingOrder {
    /// Clockwise order.
    CW,
    /// Counter-clockwise order.
    CCW,
}

/// Side to show and side to cull.
#[derive(Copy, Clone, Debug, PartialEq, Eq, Structural)]
pub enum FaceCullingMode {
    /// Cull the front side only.
    Front,
    /// Cull the back side only.
    Back,
    /// Always cull any triangle.
    Both,
}

/// Face culling setup.
#[derive(Copy, Clone, Debug, PartialEq, Eq, Structural)]
pub struct FaceCulling {
    /// Face culling order.
    pub order: FaceCullingOrder,
    /// Face culling mode.
    pub mode: FaceCullingMode,
}

impl FaceCulling {
    /// Create a new [`FaceCulling`].
    pub fn new(order: FaceCullingOrder, mode: FaceCullingMode) -> (culling: Self)
        ensures
            culling.order == order,
            culling.mode == mode,
    {
        FaceCulling { order, mode }
    }

    /// The winding order that marks the front side.
    pub fn order(&self) -> (order: FaceCullingOrder)
        ensures
            order == self.order,
    {
        self.order
    }

    /// The side that is culled.
    pub fn mode(&self) -> (mode: FaceCullingMode)
        ensures
            mode == self.mode,
    {
        self.mode
    }
}

impl Default for FaceCulling {
    /// Counter-clockwise triangles are front-facing and back faces are culled.
    fn default() -> (culling: Self)
        ensures
            culling.order == FaceCullingOrder::CCW,
            culling.mode == FaceCullingMode::Back,
    {
        FaceCulling::new(FaceCullingOrder::CCW, FaceCullingMode::Back)
    }
}

} // verus!
