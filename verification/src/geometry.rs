use vstd::prelude::*;

verus! {

/// Scale of the scene: this many pixels of a window make one metre.
pub const PIXELS_PER_METER: u32 = 900;

/// Number of depth steps that make one metre.
pub const DEPTH_STEPS_PER_METER: u32 = 3;

/// Depth, in steps, of the first window registered.
pub const FIRST_DEPTH_STEP: i64 = -24;

/// Position and size of a window as the display server reports them.
#[derive(Clone, Copy, Debug, PartialEq, Eq, Structural)]
pub struct Geometry {
    pub x: i16,
    pub y: i16,
    pub width: u16,
    pub height: u16,
}

/// Where a newly tracked window is put in the scene. `x_pixels` and
/// `y_pixels` are offsets of the window's centre in pixels, `depth_steps`
/// counts thirds of a metre along the depth axis.
#[derive(Clone, Copy, Debug, PartialEq, Eq, Structural)]
pub struct Placement {
    pub x_pixels: i32,
    pub y_pixels: i32,
    pub depth_steps: i64,
}

impl Geometry {
    /// The window lies entirely outside a screen of the size of `root`:
    /// it ends at or before the left or top edge, or starts at or beyond the
    /// right or bottom edge.
    pub open spec fn offscreen(self, root: Geometry) -> bool {
        ||| self.x + self.width <= 0
        ||| self.y + self.height <= 0
        ||| self.x >= root.width
        ||| self.y >= root.height
    }

    /// Horizontal offset of the window's centre from the screen's centre.
    pub open spec fn centre_x(self, root: Geometry) -> int {
        self.x + self.width / 2 - root.width / 2
    }

    /// Vertical offset of the window's centre from the line at three
    /// quarters of the screen's height.
    pub open spec fn centre_y(self, root: Geometry) -> int {
        self.y + self.height / 2 - (root.height * 3) / 4
    }

    /// The placement of a window that is registered when `registered`
    /// windows are already tracked.
    pub open spec fn placement(self, root: Geometry, registered: nat) -> Placement {
        Placement {
            x_pixels: self.centre_x(root) as i32,
            y_pixels: self.centre_y(root) as i32,
            depth_steps: (registered + FIRST_DEPTH_STEP) as i64,
        }
    }

    pub fn is_offscreen(&self, root: &Geometry) -> (out: bool)
        ensures
            out == self.offscreen(*root),
    {
        let x: i32 = self.x as i32;
        let y: i32 = self.y as i32;
        let width: i32 = self.width as i32;
        let height: i32 = self.height as i32;
        let root_width: i32 = root.width as i32;
        let root_height: i32 = root.height as i32;
        x + width <= 0 || y + height <= 0 || x >= root_width || y >= root_height
    }

    /// Computes the initial placement from the window's position and the
    /// number of windows registered before it.
    pub fn initial_placement(&self, root: &Geometry, registered: usize) -> (place: Placement)
        requires
            registered <= i64::MAX + FIRST_DEPTH_STEP,
        ensures
            place == self.placement(*root, registered as nat),
            place.x_pixels == self.centre_x(*root),
            place.y_pixels == self.centre_y(*root),
            place.depth_steps == registered + FIRST_DEPTH_STEP,
    {
        let x: i32 = self.x as i32;
        let y: i32 = self.y as i32;
        let width: i32 = self.width as i32;
        let height: i32 = self.height as i32;
        let root_width: i32 = root.width as i32;
        let root_height: i32 = root.height as i32;
        let count: u64 = registered as u64;
        let depth: i64 = if count >= 24 {
            (count - 24) as i64
        } else {
            (count as i64) - 24
        };
        Placement {
            x_pixels: x + width / 2 - root_width / 2,
            y_pixels: y + height / 2 - (root_height * 3) / 4,
            depth_steps: depth,
        }
    }
}

/// Windows registered at different times never share a depth, so two
/// windows at the same screen position do not overlap in the scene.
pub proof fn lemma_depth_distinct(a: Geometry, b: Geometry, root: Geometry, first: nat, second: nat)
    requires
        first != second,
        first <= i64::MAX + FIRST_DEPTH_STEP,
        second <= i64::MAX + FIRST_DEPTH_STEP,
    ensures
        a.placement(root, first).depth_steps != b.placement(root, second).depth_steps,
        first < second ==> a.placement(root, first).depth_steps < b.placement(root, second).depth_steps,
{
}

} // verus!
