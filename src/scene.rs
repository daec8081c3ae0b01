//! The scene: a player that walks and falls, one static block, and the batch
//! that draws them, kept in step once per tick.

use vstd::prelude::*;

use crate::geometry::{Color, Extent, Point};
use crate::physics::{
    block_top, check_player_gravity_collission, gravity_collision, lemma_rest_is_stable, span,
};
use crate::renderer::{QuadInfo, Renderer, place_quad};

verus! {

/// Edge of one grid cell, in pixels.
pub const QUAD_SIZE: u16 = 50;

/// Pixels the player walks per tick while a direction is held.
pub const PLAYER_SPEED: i32 = 5;

/// Pixels the player falls per tick.
pub const GRAVITY: i32 = 3;

/// The block's lower-left corner.
pub const BLOCK_X: i32 = 200;
pub const BLOCK_Y: i32 = 230;

/// The block's size in cells.
pub const BLOCK_WIDTH: u16 = 6;
pub const BLOCK_HEIGHT: u16 = 1;

/// Something in the scene that owns a quad slot and has a position.
pub trait Entity {
    /// The entity's quad slot.
    spec fn id(&self) -> usize;

    /// The entity's lower-left corner.
    spec fn position(&self) -> Point;

    fn get_id(&self) -> (r: usize)
        ensures
            r == self.id(),
    ;

    fn get_pos(&self) -> (r: &Point)
        ensures
            *r == self.position(),
    ;
}

/// The player: its slot, its position, and its motion state.
pub struct Player {
    index: usize,
    pos: Point,
    speed: i32,
    is_left_pressed: bool,
    is_right_pressed: bool,
    gravity: i32,
}

/// A static obstacle: its slot, its position and its size in cells.
pub struct Block {
    index: usize,
    pos: Point,
    length: Extent,
}

impl Entity for Player {
    closed spec fn id(&self) -> usize {
        self.index
    }

    closed spec fn position(&self) -> Point {
        self.pos
    }

    fn get_id(&self) -> (r: usize) {
        self.index
    }

    fn get_pos(&self) -> (r: &Point) {
        &self.pos
    }
}

impl Entity for Block {
    closed spec fn id(&self) -> usize {
        self.index
    }

    closed spec fn position(&self) -> Point {
        self.pos
    }

    fn get_id(&self) -> (r: usize) {
        self.index
    }

    fn get_pos(&self) -> (r: &Point) {
        &self.pos
    }
}

/// The keys the scene reacts to: `A` walks left, `D` walks right.
#[derive(Clone, Copy, Debug, PartialEq, Eq, Structural)]
pub enum Key {
    A,
    D,
    Other,
}

/// The x coordinate after one tick of walking: right first, then left.
pub open spec fn walked_x(x: int, speed: int, left: bool, right: bool) -> int {
    x + (if right { speed } else { 0 }) - (if left { speed } else { 0 })
}

/// Where one tick takes a player at `pos`: walk, fall by `gravity`, and rest
/// on the block instead when the fall meets it.
pub open spec fn next_position(
    pos: Point,
    speed: int,
    gravity: int,
    left: bool,
    right: bool,
    block_pos: Point,
    cell: u16,
    length: Extent,
) -> Point {
    let proposed = Point {
        x: walked_x(pos.x as int, speed, left, right) as i32,
        y: (pos.y - gravity) as i32,
    };
    match gravity_collision(proposed, block_pos, cell, length) {
        Some(rest) => rest,
        None => proposed,
    }
}

/// The player, the block and the batch that draws them.
pub struct Scene {
    renderer: Renderer,
    player: Player,
    block: Block,
}

impl Scene {
    /// The batch's quads; the accessors below give the rest of the state.
    pub closed spec fn quads(&self) -> Seq<QuadInfo> {
        self.renderer.quads()
    }

    pub closed spec fn cell(&self) -> u16 {
        self.renderer.cell_size()
    }

    pub closed spec fn player_slot(&self) -> usize {
        self.player.index
    }

    pub closed spec fn block_slot(&self) -> usize {
        self.block.index
    }

    pub closed spec fn player_pos(&self) -> Point {
        self.player.pos
    }

    pub closed spec fn block_pos(&self) -> Point {
        self.block.pos
    }

    pub closed spec fn block_length(&self) -> Extent {
        self.block.length
    }

    pub closed spec fn speed(&self) -> i32 {
        self.player.speed
    }

    pub closed spec fn gravity(&self) -> i32 {
        self.player.gravity
    }

    pub closed spec fn left_held(&self) -> bool {
        self.player.is_left_pressed
    }

    pub closed spec fn right_held(&self) -> bool {
        self.player.is_right_pressed
    }

    /// The batch holds the player's and the block's quads where their
    /// records say, and the block's top edge is a valid coordinate.
    pub closed spec fn wf(&self) -> bool {
        &&& self.renderer.wf()
        &&& self.player.index < self.renderer.quads().len()
        &&& self.block.index < self.renderer.quads().len()
        &&& self.player.index != self.block.index
        &&& self.renderer.quads()[self.player.index as int].pos == self.player.pos
        &&& self.renderer.quads()[self.player.index as int].extent == (Extent { w: 1, h: 1 })
        &&& self.renderer.quads()[self.block.index as int].pos == self.block.pos
        &&& self.renderer.quads()[self.block.index as int].extent == self.block.length
        &&& self.renderer.cell_size() >= 1
        &&& self.block.length.w >= 1
        &&& self.block.length.h >= 1
        &&& block_top(self.block.pos, self.renderer.cell_size(), self.block.length) <= i32::MAX
        &&& 0 <= self.player.speed
        &&& 0 <= self.player.gravity
    }

    /// Whether the next tick's arithmetic stays within `i32`.
    pub open spec fn step_fits(&self) -> bool {
        let x = self.player_pos().x as int;
        let s = self.speed() as int;
        &&& self.right_held() ==> x + s <= i32::MAX
        &&& i32::MIN <= walked_x(x, s, self.left_held(), self.right_held())
        &&& i32::MIN <= self.player_pos().y - self.gravity()
    }
}

impl Scene {
    /// `other` has this scene's cell size, slots, block, motion constants and
    /// held keys.
    pub open spec fn keeps_setup(&self, other: &Scene) -> bool {
        &&& other.cell() == self.cell()
        &&& other.player_slot() == self.player_slot()
        &&& other.block_slot() == self.block_slot()
        &&& other.block_pos() == self.block_pos()
        &&& other.block_length() == self.block_length()
        &&& other.speed() == self.speed()
        &&& other.gravity() == self.gravity()
    }

    /// The starting scene for a viewport of `width` by `height` pixels: the
    /// player (slot 0, one green cell) at the viewport's centre, and a white
    /// block of 6 by 1 cells (slot 1) at (200, 230); cells of 50 pixels, walk
    /// speed 5, gravity 3, no key held.
    pub fn new(width: u32, height: u32) -> (r: Scene)
        ensures
            r.wf(),
            r.cell() == QUAD_SIZE,
            r.player_slot() == 0,
            r.block_slot() == 1,
            r.player_pos() == (Point { x: (width / 2) as i32, y: (height / 2) as i32 }),
            r.block_pos() == (Point { x: BLOCK_X, y: BLOCK_Y }),
            r.block_length() == (Extent { w: BLOCK_WIDTH, h: BLOCK_HEIGHT }),
            r.speed() == PLAYER_SPEED,
            r.gravity() == GRAVITY,
            !r.left_held(),
            !r.right_held(),
            r.quads() == seq![
                QuadInfo {
                    pos: r.player_pos(),
                    extent: Extent { w: 1, h: 1 },
                    color: Color { r: 0, g: 255, b: 0 },
                },
                QuadInfo {
                    pos: r.block_pos(),
                    extent: r.block_length(),
                    color: Color { r: 255, g: 255, b: 255 },
                },
            ],
    {
        let mut renderer = Renderer::new(QUAD_SIZE);
        let player_pos = Point { x: (width / 2) as i32, y: (height / 2) as i32 };
        let block_pos = Point { x: BLOCK_X, y: BLOCK_Y };
        let length = Extent { w: BLOCK_WIDTH, h: BLOCK_HEIGHT };
        let index = renderer.create_quad(player_pos, Color { r: 0, g: 255, b: 0 });
        let block_index = renderer.create_block(block_pos, length, Color { r: 255, g: 255, b: 255 });
        let r = Scene {
            renderer,
            player: Player {
                index,
                pos: player_pos,
                speed: PLAYER_SPEED,
                is_left_pressed: false,
                is_right_pressed: false,
                gravity: GRAVITY,
            },
            block: Block { index: block_index, pos: block_pos, length },
        };
        proof {
            assert(r.renderer.quads() =~= r.quads());
            assert(r.quads() =~= seq![
                QuadInfo {
                    pos: player_pos,
                    extent: Extent { w: 1, h: 1 },
                    color: Color { r: 0, g: 255, b: 0 },
                },
                QuadInfo { pos: block_pos, extent: length, color: Color { r: 255, g: 255, b: 255 } },
            ]);
        }
        r
    }

    /// Records a key going down or up. `A` sets the left flag and `D` the right
    /// one; the result says whether the key was one of them.
    pub fn input(&mut self, key: Key, is_pressed: bool) -> (r: bool)
        requires
            old(self).wf(),
        ensures
            final(self).wf(),
            old(self).keeps_setup(final(self)),
            final(self).quads() == old(self).quads(),
            final(self).player_pos() == old(self).player_pos(),
            r == (key != Key::Other),
            final(self).left_held() == if key == Key::A {
                is_pressed
            } else {
                old(self).left_held()
            },
            final(self).right_held() == if key == Key::D {
                is_pressed
            } else {
                old(self).right_held()
            },
    {
        match key {
            Key::A => {
                self.player.is_left_pressed = is_pressed;
                true
            },
            Key::D => {
                self.player.is_right_pressed = is_pressed;
                true
            },
            Key::Other => false,
        }
    }

    /// Whether `update` may run: the next tick's coordinates fit in `i32`.
    pub fn can_update(&self) -> (r: bool)
        requires
            self.wf(),
        ensures
            r == self.step_fits(),
    {
        let x = self.player.pos.x as i64;
        let s = self.player.speed as i64;
        let right = if self.player.is_right_pressed { s } else { 0 };
        let left = if self.player.is_left_pressed { s } else { 0 };
        (!self.player.is_right_pressed || x + s <= i32::MAX as i64)
            && i32::MIN as i64 <= x + right - left
            && i32::MIN as i64 <= self.player.pos.y as i64 - self.player.gravity as i64
    }

    /// One simulation tick: walk right then left by the speed for each held
    /// key, then fall by gravity, resting on the block's top edge instead when
    /// the fallen position meets the block. Only the player's quad moves.
    pub fn update(&mut self)
        requires
            old(self).wf(),
            old(self).step_fits(),
        ensures
            final(self).wf(),
            old(self).keeps_setup(final(self)),
            final(self).left_held() == old(self).left_held(),
            final(self).right_held() == old(self).right_held(),
            final(self).player_pos() == next_position(
                old(self).player_pos(),
                old(self).speed() as int,
                old(self).gravity() as int,
                old(self).left_held(),
                old(self).right_held(),
                old(self).block_pos(),
                old(self).cell(),
                old(self).block_length(),
            ),
            final(self).quads() == place_quad(
                old(self).quads(),
                old(self).player_slot() as int,
                final(self).player_pos(),
            ),
    {
        let ghost start = self.renderer.quads();
        let index = self.player.index;
        if self.player.is_right_pressed {
            self.renderer.update_quad_data(index, Point { x: self.player.speed, y: 0 });
            self.player.pos = Point { x: self.player.pos.x + self.player.speed, y: self.player.pos.y };
        }
        if self.player.is_left_pressed {
            self.renderer.update_quad_data(index, Point { x: -self.player.speed, y: 0 });
            self.player.pos = Point { x: self.player.pos.x - self.player.speed, y: self.player.pos.y };
        }
        let after_gravity = Point { x: self.player.pos.x, y: self.player.pos.y - self.player.gravity };
        let cell = self.renderer.quad_size();
        match check_player_gravity_collission(after_gravity, self.block.pos, cell, self.block.length) {
            Some(new_player_pos) => {
                self.renderer.change_quad_data(index, new_player_pos);
                self.player.pos = new_player_pos;
            },
            None => {
                self.renderer.update_quad_data(index, Point { x: 0, y: -self.player.gravity });
                self.player.pos = after_gravity;
            },
        }
        proof {
            assert(self.renderer.quads() =~= place_quad(start, index as int, self.player.pos));
        }
    }
}

impl Scene {
    /// The batch, for export.
    pub fn renderer(&self) -> (r: &Renderer)
        requires
            self.wf(),
        ensures
            r.wf(),
            r.quads() == self.quads(),
            r.cell_size() == self.cell(),
    {
        &self.renderer
    }

    /// The player.
    pub fn player(&self) -> (r: &Player)
        ensures
            r.id() == self.player_slot(),
            r.position() == self.player_pos(),
    {
        &self.player
    }

    /// The block.
    pub fn block(&self) -> (r: &Block)
        ensures
            r.id() == self.block_slot(),
            r.position() == self.block_pos(),
    {
        &self.block
    }
}

/// With no key held, a tick leaves a player that rests on the block where it
/// is, as long as one fall is shorter than the player and the block together.
pub proof fn lemma_tick_keeps_rest(
    proposed: Point,
    speed: int,
    gravity: int,
    block_pos: Point,
    cell: u16,
    length: Extent,
    rest: Point,
)
    requires
        gravity_collision(proposed, block_pos, cell, length) == Some(rest),
        block_top(block_pos, cell, length) <= i32::MAX,
        0 <= gravity < cell + span(cell, length.h),
        rest.y - gravity >= i32::MIN,
    ensures
        next_position(rest, speed, gravity, false, false, block_pos, cell, length) == rest,
{
    lemma_rest_is_stable(proposed, block_pos, cell, length, gravity, rest);
    assert(walked_x(rest.x as int, speed, false, false) == rest.x);
}

} // verus!
