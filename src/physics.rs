//! The gravity collision check: a falling player quad against one obstacle.

use vstd::prelude::*;

use crate::geometry::{Extent, Point};

verus! {

/// The length in pixels of `cells` cells of `cell_size` pixels each.
pub open spec fn span(cell_size: u16, cells: u16) -> int {
    cell_size as int * cells as int
}

/// The y coordinate of the obstacle's top edge.
pub open spec fn block_top(block_pos: Point, quad_size: u16, block_length: Extent) -> int {
    block_pos.y + span(quad_size, block_length.h)
}

/// The player's column `[px, px + size]` and the obstacle's `[ox, ox + w]`
/// share more than an edge.
pub open spec fn overlaps_horizontally(
    player_pos: Point,
    block_pos: Point,
    quad_size: u16,
    block_length: Extent,
) -> bool {
    player_pos.x + quad_size > block_pos.x
        && player_pos.x < block_pos.x + span(quad_size, block_length.w)
}

/// The player's top edge is above the obstacle's bottom edge and the player's
/// bottom edge is at or below the obstacle's top edge: the player has come
/// down into the obstacle from above.
pub open spec fn reaches_from_above(
    player_pos: Point,
    block_pos: Point,
    quad_size: u16,
    block_length: Extent,
) -> bool {
    player_pos.y + quad_size > block_pos.y
        && player_pos.y <= block_top(block_pos, quad_size, block_length)
}

/// What the check answers: the resting position on top of the obstacle when
/// the player at `player_pos` intersects it from above, or nothing.
pub open spec fn gravity_collision(
    player_pos: Point,
    block_pos: Point,
    quad_size: u16,
    block_length: Extent,
) -> Option<Point> {
    if overlaps_horizontally(player_pos, block_pos, quad_size, block_length)
        && reaches_from_above(player_pos, block_pos, quad_size, block_length) {
        Some(Point { x: player_pos.x, y: block_top(block_pos, quad_size, block_length) as i32 })
    } else {
        None
    }
}

/// The number of pixels spanned by `cells` cells of `cell_size` pixels.
pub fn cells_to_pixels(cell_size: u16, cells: u16) -> (r: i64)
    ensures
        r == span(cell_size, cells),
        0 <= r <= 65535 * 65535,
{
    proof {
        assert(0 <= cell_size as int * cells as int <= 65535 * 65535) by (nonlinear_arith)
            requires
                0 <= cell_size <= 65535,
                0 <= cells <= 65535,
        ;
    }
    cell_size as i64 * cells as i64
}

/// Checks the player's proposed position (already moved down by gravity)
/// against one obstacle. The player is a square of `quad_size` pixels with
/// its lower-left corner at `player_pos`; the obstacle has its lower-left
/// corner at `block_pos` and spans `block_length` cells of `quad_size`.
///
/// Returns `Some` of the position that puts the player's bottom edge on the
/// obstacle's top edge, with x unchanged, exactly when the two overlap
/// horizontally and the player comes in from above; `None` means the proposed
/// position stands. Coordinates grow upward, so the obstacle's top edge is at
/// `block_pos.y` plus its height.
pub fn check_player_gravity_collission(
    player_pos: Point,
    block_pos: Point,
    quad_size: u16,
    block_length: Extent,
) -> (r: Option<Point>)
    requires
        quad_size >= 1,
        block_length.w >= 1,
        block_length.h >= 1,
        block_top(block_pos, quad_size, block_length) <= i32::MAX,
    ensures
        r == gravity_collision(player_pos, block_pos, quad_size, block_length),
{
    let width = cells_to_pixels(quad_size, block_length.w);
    let height = cells_to_pixels(quad_size, block_length.h);
    let px = player_pos.x as i64;
    let py = player_pos.y as i64;
    let size = quad_size as i64;
    if px + size > block_pos.x as i64 && px < block_pos.x as i64 + width && py + size
        > block_pos.y as i64 && py <= block_pos.y as i64 + height {
        let top = (block_pos.y as i64 + height) as i32;
        Some(Point { x: player_pos.x, y: top })
    } else {
        None
    }
}

/// When the player's column misses the obstacle's, there is no collision,
/// whatever the heights.
pub proof fn lemma_apart_never_collide(
    player_pos: Point,
    block_pos: Point,
    quad_size: u16,
    block_length: Extent,
)
    requires
        !overlaps_horizontally(player_pos, block_pos, quad_size, block_length),
    ensures
        gravity_collision(player_pos, block_pos, quad_size, block_length) is None,
{
}

/// A player of 50 by 50 pixels at `player` falls 3 pixels onto a block at least
/// one cell high whose column it overlaps: the check puts it on the block's top
/// edge exactly when that edge lies between the fallen and the unfallen
/// height. Left out: a player already below the top edge but still inside the
/// block after the fall, which the check lifts back onto the top.
pub proof fn lemma_lands_on_top(player: Point, block_pos: Point, block_length: Extent)
    requires
        block_length.h >= 1,
        block_top(block_pos, 50, block_length) <= i32::MAX,
        player.y - 3 >= i32::MIN,
        overlaps_horizontally(
            Point { x: player.x, y: (player.y - 3) as i32 },
            block_pos,
            50,
            block_length,
        ),
        !(player.y < block_top(block_pos, 50, block_length) && player.y - 3 + 50 > block_pos.y),
    ensures
        gravity_collision(Point { x: player.x, y: (player.y - 3) as i32 }, block_pos, 50, block_length)
            == Some(Point { x: player.x, y: block_top(block_pos, 50, block_length) as i32 })
            <==> player.y - 3 <= block_top(block_pos, 50, block_length) <= player.y,
{
    assert(span(50, block_length.h) >= 50) by (nonlinear_arith)
        requires
            block_length.h >= 1,
    ;
}

/// A player put on the obstacle's top edge stays there: falling `gravity` from
/// the resting position meets the obstacle again and gives the same resting
/// position. Left out: a fall as long as the player and obstacle heights
/// together, which passes through the obstacle in one step.
pub proof fn lemma_rest_is_stable(
    proposed: Point,
    block_pos: Point,
    quad_size: u16,
    block_length: Extent,
    gravity: int,
    rest: Point,
)
    requires
        gravity_collision(proposed, block_pos, quad_size, block_length) == Some(rest),
        block_top(block_pos, quad_size, block_length) <= i32::MAX,
        0 <= gravity < quad_size + span(quad_size, block_length.h),
        rest.y - gravity >= i32::MIN,
    ensures
        gravity_collision(
            Point { x: rest.x, y: (rest.y - gravity) as i32 },
            block_pos,
            quad_size,
            block_length,
        ) == Some(rest),
{
}

} // verus!
