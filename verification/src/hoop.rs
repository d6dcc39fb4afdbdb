//! Hoop geometry: the collider rectangles that make up the hoop, laid out
//! on the pixel grid of its sprite, and the law that the two rim sensors
//! are stacked top-above-bottom with a gap between them — the order the
//! score detector relies on.

use vstd::prelude::*;

verus! {

/// Width of the hoop sprite, in thousandths of a pixel.
pub const HOOP_WIDTH_MILLI: i64 = 400_000;

/// Height of the hoop sprite, in thousandths of a pixel: one and a half
/// times the width.
pub const HOOP_HEIGHT_MILLI: i64 = 600_000;

/// Size of one cell of the sprite's pixel grid, in thousandths of a pixel:
/// the sprite is 32 cells wide.
pub const HOOP_PIXEL_SIZE_MILLI: i64 = 12_500;

/// An axis-aligned collider rectangle, as the physics engine takes it:
/// a center position and half-extents, in thousandths of a pixel,
/// relative to the hoop's own origin.
pub struct ColliderRect {
    pub center_x_milli: i64,
    pub center_y_milli: i64,
    pub half_width_milli: i64,
    pub half_height_milli: i64,
}

/// Length of a run of grid cells, in thousandths of a pixel.
pub open spec fn pixel_len_milli(cells: u32) -> int {
    cells * HOOP_PIXEL_SIZE_MILLI
}

/// Horizontal center of a collider whose lower-left corner sits at grid
/// column `x`: the grid origin is the sprite's lower-left corner, positions
/// are relative to the sprite's center.
pub open spec fn pixel_center_x_milli(x: u32, collider_width_milli: int) -> int {
    pixel_len_milli(x) - HOOP_WIDTH_MILLI / 2 + collider_width_milli / 2
}

/// Vertical center of a collider whose lower-left corner sits at grid
/// row `y`.
pub open spec fn pixel_center_y_milli(y: u32, collider_height_milli: int) -> int {
    pixel_len_milli(y) - HOOP_HEIGHT_MILLI / 2 + collider_height_milli / 2
}

/// The collider rectangle covering `width` by `height` grid cells with its
/// lower-left corner at grid cell `(offset_x, offset_y)`.
pub open spec fn spec_collider_rect(width: u32, height: u32, offset_x: u32, offset_y: u32)
    -> ColliderRect {
    ColliderRect {
        center_x_milli: pixel_center_x_milli(offset_x, pixel_len_milli(width)) as i64,
        center_y_milli: pixel_center_y_milli(offset_y, pixel_len_milli(height)) as i64,
        half_width_milli: (pixel_len_milli(width) / 2) as i64,
        half_height_milli: (pixel_len_milli(height) / 2) as i64,
    }
}

/// Computes the collider rectangle for a run of grid cells: the physics
/// engine spawns a fixed cuboid of these half-extents at this position,
/// parented to the hoop.
pub fn create_collider(width: u32, height: u32, offset_x: u32, offset_y: u32) -> (r: ColliderRect)
    ensures
        r == spec_collider_rect(width, height, offset_x, offset_y),
{
    let w_milli = (width as i64) * HOOP_PIXEL_SIZE_MILLI;
    let h_milli = (height as i64) * HOOP_PIXEL_SIZE_MILLI;
    ColliderRect {
        center_x_milli: (offset_x as i64) * HOOP_PIXEL_SIZE_MILLI - HOOP_WIDTH_MILLI / 2 + w_milli
            / 2,
        center_y_milli: (offset_y as i64) * HOOP_PIXEL_SIZE_MILLI - HOOP_HEIGHT_MILLI / 2
            + h_milli / 2,
        half_width_milli: w_milli / 2,
        half_height_milli: h_milli / 2,
    }
}

/// The five colliders the hoop is built from: three solid parts the ball
/// bounces off, and the two non-colliding rim sensors the score detector
/// listens to.
pub struct HoopLayout {
    pub backboard: ColliderRect,
    pub front_rim: ColliderRect,
    pub back_rim: ColliderRect,
    pub top_sensor: ColliderRect,
    pub bottom_sensor: ColliderRect,
}

/// The hoop's layout on its sprite's pixel grid.
pub open spec fn spec_hoop_layout() -> HoopLayout {
    HoopLayout {
        backboard: spec_collider_rect(1, 8, 9, 40),
        front_rim: spec_collider_rect(1, 1, 18, 40),
        back_rim: spec_collider_rect(1, 1, 10, 40),
        top_sensor: spec_collider_rect(7, 1, 11, 42),
        bottom_sensor: spec_collider_rect(7, 1, 11, 38),
    }
}

/// Computes the hoop's collider layout. The engine side spawns a body per
/// rectangle, marks the two sensors as non-colliding trigger volumes, and
/// parents all five to the hoop sprite.
pub fn spawn_hoop() -> (h: HoopLayout)
    ensures
        h == spec_hoop_layout(),
{
    HoopLayout {
        backboard: create_collider(1, 8, 9, 40),
        front_rim: create_collider(1, 1, 18, 40),
        back_rim: create_collider(1, 1, 10, 40),
        top_sensor: create_collider(7, 1, 11, 42),
        bottom_sensor: create_collider(7, 1, 11, 38),
    }
}

/// The two rim sensors are stacked along the direction of a successful
/// pass-through: the top sensor's whole volume lies strictly above the
/// bottom sensor's, they do not overlap, and they cover the same
/// horizontal span — so a ball that falls cleanly through the rim meets
/// the top sensor first and the bottom sensor after it.
pub proof fn lemma_hoop_sensors_stacked()
    ensures
        spec_hoop_layout().top_sensor.center_y_milli - spec_hoop_layout().top_sensor.half_height_milli
            > spec_hoop_layout().bottom_sensor.center_y_milli
            + spec_hoop_layout().bottom_sensor.half_height_milli,
        spec_hoop_layout().top_sensor.center_x_milli
            == spec_hoop_layout().bottom_sensor.center_x_milli,
        spec_hoop_layout().top_sensor.half_width_milli
            == spec_hoop_layout().bottom_sensor.half_width_milli,
{
}

} // verus!
