//! The demo's world and its per-frame systems: startup spawning, the
//! periodic sprite-count log, sprite rotation, camera motion, and
//! mouse-wheel zoom.

use vstd::prelude::*;
use vstd::pervasive::VecAdditionalExecFns;
use vstd::arithmetic::div_mod::lemma_fundamental_div_mod_converse;

use crate::angle::rotate_angle;
use crate::camera::{Camera, DT_LIMIT, POS_LIMIT, TRIG_ONE};
use crate::camera;
use crate::rng::{draw_below, draw_spin};
use crate::sprite::{
    sprite_rotated, Sprite, RADIAN_TURNS, RATE_LIMIT, SPRITE_SCALE_RANGE, SPRITE_Z_RANGE,
};
use crate::timer::RepeatTimer;
use crate::zoom;
use crate::zoom::zoom_after;

verus! {

/// The sprite-count log fires once per second: a thousand ticks.
pub const TIMER_PERIOD: u64 = 1_000;

/// Largest accepted map edge, in pixels.
pub const MAP_LIMIT: u64 = 1_048_576;

/// Largest accepted tile edge, in pixels.
pub const TILE_LIMIT: u64 = 1_048_576;

/// Half the number of grid cells along one edge.
pub open spec fn grid_half(map_size: int) -> int {
    map_size / 32
}

/// The number of grid cells along one edge.
pub open spec fn grid_width(map_size: int) -> int {
    2 * grid_half(map_size)
}

/// The number of sprites the startup system spawns.
pub open spec fn grid_count(map_size: int) -> int {
    grid_width(map_size) * grid_width(map_size)
}

/// What startup guarantees of the sprite at index `k`: it sits on its grid
/// cell, and its randomized attributes lie in their ranges.
pub open spec fn spawned_sprite_ok(s: Sprite, k: int, map_size: int, tile_size: int) -> bool {
    let half = grid_half(map_size);
    let width = grid_width(map_size);
    let tile = tile_size * 1000;
    &&& s.x == (k % width - half) * tile
    &&& s.y == (k / width - half) * tile
    &&& s.z < SPRITE_Z_RANGE
    &&& s.angle < RADIAN_TURNS
    &&& s.scale < SPRITE_SCALE_RANGE
    &&& s.rate < RATE_LIMIT
}

/// Everything the systems touch: the spawned sprites, the camera, and the
/// log timer.
pub struct World {
    pub sprites: Vec<Sprite>,
    pub camera: Camera,
    pub timer: RepeatTimer,
}

impl World {
    /// The world's internal invariant.
    pub open spec fn wf(self) -> bool {
        &&& self.camera.wf()
        &&& self.timer.wf()
        &&& forall|k: int| 0 <= k < self.sprites@.len() ==> (#[trigger] self.sprites@[k]).wf()
    }
}

/// The startup system: spawns the camera, the log timer, and a
/// `grid_width * grid_width` grid of sprites centred on the origin, one
/// tile apart, with randomized depth, angle, scale, spin and rate.
pub fn setup(map_size: u64, tile_size: u64) -> (w: World)
    requires
        map_size <= MAP_LIMIT,
        tile_size <= TILE_LIMIT,
    ensures
        w.wf(),
        w.sprites@.len() == grid_count(map_size as int),
        forall|k: int|
            0 <= k < w.sprites@.len() ==> spawned_sprite_ok(
                #[trigger] w.sprites@[k],
                k,
                map_size as int,
                tile_size as int,
            ),
        w.camera.x == 0 && w.camera.y == 0 && w.camera.z == camera::CAMERA_Z,
        w.camera.heading == 0 && w.camera.render_angle == 0,
        w.camera.scale == zoom::SCALE_MAX,
        w.timer.period == TIMER_PERIOD && w.timer.elapsed == 0,
{
    let half: u64 = map_size / 32;
    let width: u64 = 2 * half;
    let tile: i64 = (tile_size * 1000) as i64;
    let mut sprites: Vec<Sprite> = Vec::new();
    let mut row: u64 = 0;
    proof {
        assert(grid_count(map_size as int) == (width as int) * (width as int));
    }
    while row < width
        invariant
            half == grid_half(map_size as int),
            width == grid_width(map_size as int),
            width <= 65536,
            tile == (tile_size as int) * 1000,
            0 <= tile <= 0x4000_0000,
            row <= width,
            sprites@.len() == (row as int) * (width as int),
            forall|k: int|
                0 <= k < sprites@.len() ==> spawned_sprite_ok(
                    #[trigger] sprites@[k],
                    k,
                    map_size as int,
                    tile_size as int,
                ),
        decreases width - row,
    {
        let mut col: u64 = 0;
        while col < width
            invariant
                half == grid_half(map_size as int),
                width == grid_width(map_size as int),
                width <= 65536,
                tile == (tile_size as int) * 1000,
                0 <= tile <= 0x4000_0000,
                row < width,
                col <= width,
                sprites@.len() == (row as int) * (width as int) + (col as int),
                forall|k: int|
                    0 <= k < sprites@.len() ==> spawned_sprite_ok(
                        #[trigger] sprites@[k],
                        k,
                        map_size as int,
                        tile_size as int,
                    ),
            decreases width - col,
        {
            proof {
                assert((row as int) * (width as int) + (width as int) <= 65536 * 65536)
                    by (nonlinear_arith)
                    requires
                        0 <= row as int,
                        (row as int) + 1 <= width as int,
                        0 <= width as int <= 65536,
                ;
                assert(-(65536 * 0x4000_0000) <= ((col as int) - (half as int)) * (tile as int)
                    <= 65536 * 0x4000_0000)
                    by (nonlinear_arith)
                    requires
                        -65536 <= (col as int) - (half as int) <= 65536,
                        0 <= tile as int <= 0x4000_0000,
                ;
                assert(-(65536 * 0x4000_0000) <= ((row as int) - (half as int)) * (tile as int)
                    <= 65536 * 0x4000_0000)
                    by (nonlinear_arith)
                    requires
                        -65536 <= (row as int) - (half as int) <= 65536,
                        0 <= tile as int <= 0x4000_0000,
                ;
            }
            let sx: i64 = (col as i64 - half as i64) * tile;
            let sy: i64 = (row as i64 - half as i64) * tile;
            let s = Sprite {
                x: sx,
                y: sy,
                z: draw_below(SPRITE_Z_RANGE),
                angle: draw_below(RADIAN_TURNS),
                scale: draw_below(SPRITE_SCALE_RANGE),
                dir: draw_spin(),
                rate: draw_below(RATE_LIMIT),
            };
            sprites.push(s);
            proof {
                let k = (row as int) * (width as int) + (col as int);
                lemma_fundamental_div_mod_converse(k, width as int, row as int, col as int);
                assert(spawned_sprite_ok(sprites@[k], k, map_size as int, tile_size as int));
            }
            col = col + 1;
        }
        proof {
            assert((row as int) * (width as int) + (width as int) == ((row as int) + 1) * (
            width as int)) by (nonlinear_arith);
        }
        row = row + 1;
    }
    World {
        sprites,
        camera: Camera::spawn(),
        timer: RepeatTimer::new(TIMER_PERIOD),
    }
}

/// The per-frame log system: advances the one-second timer by `dt` and,
/// whenever the interval elapses, reports the current number of sprites to
/// be logged. Touches nothing else.
pub fn tick(world: &mut World, dt: u64) -> (log: Option<usize>)
    requires
        old(world).wf(),
    ensures
        final(world).wf(),
        final(world).sprites@ == old(world).sprites@,
        final(world).camera == old(world).camera,
        final(world).timer.period == old(world).timer.period,
        final(world).timer.elapsed as int == (old(world).timer.elapsed + dt) % (
        old(world).timer.period as int),
        log == if old(world).timer.elapsed + dt >= old(world).timer.period {
            Some(old(world).sprites.len())
        } else {
            None::<usize>
        },
{
    let fired = world.timer.tick(dt);
    if fired {
        Some(world.sprites.len())
    } else {
        None
    }
}

/// The per-frame rotation system: spins every sprite by its own rate and
/// direction for `dt` ticks. Touches nothing else.
pub fn rotate_entity(world: &mut World, dt: u64)
    requires
        old(world).wf(),
    ensures
        final(world).wf(),
        final(world).sprites@.len() == old(world).sprites@.len(),
        forall|k: int|
            0 <= k < old(world).sprites@.len() ==> final(world).sprites@[k] == sprite_rotated(
                old(world).sprites@[k],
                dt as int,
            ),
        final(world).camera == old(world).camera,
        final(world).timer == old(world).timer,
{
    let n = world.sprites.len();
    let mut i: usize = 0;
    while i < n
        invariant
            old(world).wf(),
            n == old(world).sprites@.len(),
            world.sprites@.len() == n,
            i <= n,
            forall|k: int|
                0 <= k < i ==> world.sprites@[k] == sprite_rotated(
                    old(world).sprites@[k],
                    dt as int,
                ),
            forall|k: int| i <= k < n ==> world.sprites@[k] == old(world).sprites@[k],
            world.camera == old(world).camera,
            world.timer == old(world).timer,
        decreases n - i,
    {
        let s = world.sprites[i];
        let turned = rotate_angle(s.angle, s.dir, s.rate, dt);
        world.sprites.set(i, Sprite { angle: turned, ..s });
        i = i + 1;
    }
}

/// The per-frame camera system: integrates the logical pose (turn, then
/// move forward along the new heading) and advances the render rotation.
/// The caller passes the new heading's unit vector as a fixed-point
/// cosine/sine pair. Touches nothing else.
pub fn move_camera(world: &mut World, dt: u64, fwd_c: i64, fwd_s: i64)
    requires
        old(world).wf(),
        dt <= DT_LIMIT,
        -POS_LIMIT <= old(world).camera.x <= POS_LIMIT,
        -POS_LIMIT <= old(world).camera.y <= POS_LIMIT,
        -TRIG_ONE <= fwd_c <= TRIG_ONE,
        -TRIG_ONE <= fwd_s <= TRIG_ONE,
    ensures
        final(world).wf(),
        final(world).camera == camera::advanced(
            old(world).camera,
            dt as int,
            fwd_c as int,
            fwd_s as int,
        ),
        final(world).sprites@ == old(world).sprites@,
        final(world).timer == old(world).timer,
{
    world.camera.advance(dt, fwd_c, fwd_s);
}

/// The per-frame zoom system: applies every pending mouse-wheel event to
/// the projection scale in order, each step clamped to the allowed range.
/// Returns how many window-resize notifications the caller must
/// re-broadcast: one per event. Touches nothing else.
pub fn zoom_camera(world: &mut World, wheel: &Vec<i64>) -> (resizes: usize)
    requires
        old(world).wf(),
    ensures
        final(world).wf(),
        final(world).camera.scale as int == zoom_after(old(world).camera.scale as int, wheel@),
        final(world).camera == (Camera { scale: final(world).camera.scale, ..old(world).camera }),
        final(world).sprites@ == old(world).sprites@,
        final(world).timer == old(world).timer,
        resizes == wheel@.len(),
{
    let n = wheel.len();
    let mut i: usize = 0;
    proof {
        assert(wheel@.skip(0) =~= wheel@);
    }
    while i < n
        invariant
            n == wheel@.len(),
            i <= n,
            old(world).wf(),
            zoom::SCALE_MIN <= world.camera.scale <= zoom::SCALE_MAX,
            zoom_after(old(world).camera.scale as int, wheel@) == zoom_after(
                world.camera.scale as int,
                wheel@.skip(i as int),
            ),
            world.camera == (Camera { scale: world.camera.scale, ..old(world).camera }),
            world.sprites@ == old(world).sprites@,
            world.timer == old(world).timer,
        decreases n - i,
    {
        proof {
            assert(wheel@.skip(i as int)[0] == wheel@[i as int]);
            assert(wheel@.skip(i as int).drop_first() =~= wheel@.skip(i as int + 1));
        }
        let stepped = zoom::zoom_step(world.camera.scale, wheel[i]);
        world.camera.scale = stepped;
        i = i + 1;
    }
    proof {
        assert(wheel@.skip(n as int) =~= Seq::<i64>::empty());
    }
    n
}

/// Every sprite count observed during a run equals the spawned grid count:
/// the first observation is the grid count, and no frame adds or removes a
/// sprite, so each later observation repeats the one before it.
pub proof fn lemma_logged_count_constant(counts: Seq<int>, map_size: int)
    requires
        counts.len() > 0,
        counts[0] == grid_count(map_size),
        forall|i: int| 0 < i < counts.len() ==> #[trigger] counts[i] == counts[i - 1],
    ensures
        forall|i: int| 0 <= i < counts.len() ==> counts[i] == grid_count(map_size),
{
    assert forall|i: int| 0 <= i < counts.len() implies counts[i] == grid_count(map_size) by {
        lemma_count_up_to(counts, map_size, i);
    }
}

proof fn lemma_count_up_to(counts: Seq<int>, map_size: int, i: int)
    requires
        0 <= i < counts.len(),
        counts[0] == grid_count(map_size),
        forall|j: int| 0 < j < counts.len() ==> #[trigger] counts[j] == counts[j - 1],
    ensures
        counts[i] == grid_count(map_size),
    decreases i,
{
    if i > 0 {
        lemma_count_up_to(counts, map_size, i - 1);
    }
}

} // verus!
