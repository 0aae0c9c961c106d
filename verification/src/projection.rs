//! Perspective projection: the ray fan, fisheye correction and screen
//! columns.
//!
//! A fan of rays is cast across the field of view, one per whole degree.
//! Each raw distance is flattened onto the view plane by the cosine of the
//! ray's angular offset from the view center, so walls seen at the fan's
//! edges do not appear falsely farther. A corrected distance then maps to a
//! column height by an inverse relation: the smaller the distance, the
//! taller the column.

use vstd::prelude::*;
use crate::grid::GameMap;
use crate::player::Player;
use crate::ray::{ray_cast, Lighting, Ray};
use crate::trig::{abs_cos, abs_cos_deg};
use crate::{DIST_LIMIT, HEIGHT_SCALE, TRIG_ONE};

verus! {

/// One sampled ray of a frame's fan: the fisheye-corrected distance, the
/// raw cast distance (drawn on the top-down view), and the side
/// classification of the hit.
#[derive(Clone, Copy, Debug)]
pub struct RayHit {
    pub distance: u64,
    pub raw: u64,
    pub side: Lighting,
}

/// One screen column, left-to-right in cast order: a height and the shading
/// side of the wall it shows.
#[derive(Clone, Copy, Debug)]
pub struct Column {
    pub height: u64,
    pub side: Lighting,
}

/// Fisheye correction: a radial distance projected onto the view plane by
/// the cosine of the angular offset from the view's center.
pub open spec fn corrected_dist(raw: int, offset: int) -> int {
    raw * abs_cos_deg(offset) / TRIG_ONE as int
}

/// At the field of view's center the correction is the identity: a zero
/// offset leaves the raw distance unchanged.
pub proof fn lemma_center_correction_identity(raw: int)
    ensures
        corrected_dist(raw, 0) == raw,
{
    crate::trig::lemma_trig_cardinal();
    vstd::arithmetic::div_mod::lemma_div_multiples_vanish(raw, TRIG_ONE as int);
    assert(raw * TRIG_ONE == TRIG_ONE * raw);
}

/// The fan's center ray is the view center itself, uncorrected: its
/// recorded distance and side are exactly those of the raw cast along the
/// player's heading.
pub proof fn lemma_fan_center_exact(
    map: GameMap,
    ox: int,
    oy: int,
    heading: int,
    half_fov: int,
    hit: RayHit,
)
    requires
        0 <= heading < 360,
        0 <= half_fov,
        fan_matches(map, ox, oy, heading, half_fov, half_fov, hit),
    ensures
        hit.distance == ray_cast(map, ox, oy, heading).distance,
        hit.side == ray_cast(map, ox, oy, heading).side,
{
    vstd::arithmetic::div_mod::lemma_mod_multiples_vanish(1, heading, 360);
    vstd::arithmetic::div_mod::lemma_small_mod(heading as nat, 360);
    assert(fan_heading(heading, half_fov, half_fov) == heading);
    assert(fan_offset(half_fov, half_fov) == 0);
    lemma_center_correction_identity(ray_cast(map, ox, oy, heading).distance);
}

/// Apply the fisheye correction to a raw ray distance.
pub fn fisheye_correct(raw: u64, offset: u32) -> (r: u64)
    requires
        raw <= DIST_LIMIT,
        offset < 90,
    ensures
        r == corrected_dist(raw as int, offset as int),
        r <= raw,
{
    let c = abs_cos(offset);
    proof {
        crate::trig::lemma_trig_range(offset as int);
        assert(raw * c <= raw * TRIG_ONE) by (nonlinear_arith)
            requires
                0 <= c <= TRIG_ONE,
                0 <= raw,
        ;
        assert(0 <= raw * c) by (nonlinear_arith)
            requires
                0 <= c,
                0 <= raw,
        ;
        vstd::arithmetic::div_mod::lemma_div_is_ordered(raw * c, raw * TRIG_ONE, TRIG_ONE as int);
        vstd::arithmetic::div_mod::lemma_div_by_multiple(raw as int, TRIG_ONE as int);
        vstd::arithmetic::div_mod::lemma_div_pos_is_pos(raw * c, TRIG_ONE as int);
    }
    (raw * c) / 1_000_000
}

/// Column height for a corrected distance: inverse in the distance, with
/// the zero-distance degenerate case pinned to the tallest column.
pub open spec fn column_height_of(corrected: int) -> int {
    if corrected <= 0 {
        HEIGHT_SCALE as int
    } else {
        HEIGHT_SCALE as int / corrected
    }
}

/// Column height is strictly decreasing in the corrected distance over the
/// whole range of distances a cast can report: nearer walls always draw
/// strictly taller columns, with no crossovers.
pub proof fn lemma_height_strictly_decreasing(d1: int, d2: int)
    requires
        0 < d1 < d2 <= DIST_LIMIT,
    ensures
        column_height_of(d1) > column_height_of(d2),
{
    let k = HEIGHT_SCALE as int;
    let q2 = k / d2;
    vstd::arithmetic::div_mod::lemma_fundamental_div_mod(k, d2);
    vstd::arithmetic::div_mod::lemma_mod_bound(k, d2);
    vstd::arithmetic::div_mod::lemma_div_is_ordered_by_denominator(k, d2, DIST_LIMIT as int);
    assert(k / DIST_LIMIT as int == 3_000_000);
    assert(d2 * q2 >= q2 * d1 + q2) by (nonlinear_arith)
        requires
            0 <= q2,
            d1 + 1 <= d2,
    ;
    assert(k >= (q2 + 1) * d1 + 1) by (nonlinear_arith)
        requires
            k >= q2 * d1 + q2,
            q2 >= d1 + 1,
            0 < d1,
    ;
    vstd::arithmetic::div_mod::lemma_div_is_ordered((q2 + 1) * d1, k, d1);
    vstd::arithmetic::div_mod::lemma_div_by_multiple(q2 + 1, d1);
}

/// Compute the column height of a corrected distance.
pub fn column_height(corrected: u64) -> (h: u64)
    ensures
        h == column_height_of(corrected as int),
{
    if corrected == 0 {
        HEIGHT_SCALE
    } else {
        HEIGHT_SCALE / corrected
    }
}

/// The heading of fan ray `i`: the view center shifted by the offset
/// `i - half_fov`, wrapped to a whole-degree angle.
pub open spec fn fan_heading(heading: int, half_fov: int, i: int) -> int {
    (heading + 360 + (i - half_fov)) % 360
}

/// The absolute angular offset of fan ray `i` from the view center.
pub open spec fn fan_offset(half_fov: int, i: int) -> int {
    if i >= half_fov {
        i - half_fov
    } else {
        half_fov - i
    }
}

/// Does `hit` record what fan ray `i` from `(ox, oy)` must report: the
/// fisheye-corrected cast distance and its side classification?
pub open spec fn fan_matches(
    map: GameMap,
    ox: int,
    oy: int,
    heading: int,
    half_fov: int,
    i: int,
    hit: RayHit,
) -> bool {
    let o = ray_cast(map, ox, oy, fan_heading(heading, half_fov, i));
    &&& hit.distance == corrected_dist(o.distance, fan_offset(half_fov, i))
    &&& hit.raw == o.distance
    &&& hit.side == o.side
    &&& hit.distance <= DIST_LIMIT
    &&& hit.raw <= DIST_LIMIT
}

/// Cast the field-of-view fan: one ray per whole degree from
/// `-half_fov` to `+half_fov` around the player's heading, fisheye-corrected,
/// in left-to-right cast order.
pub fn cast_fan(player: &Player, map: &GameMap, half_fov: u32) -> (fan: Vec<RayHit>)
    requires
        player.wf(),
        map.wf(),
        half_fov < 90,
    ensures
        fan@.len() == 2 * half_fov + 1,
        forall|i: int|
            0 <= i < fan@.len() ==> fan_matches(
                *map,
                player.pos_x as int,
                player.pos_y as int,
                player.heading as int,
                half_fov as int,
                i,
                #[trigger] fan@[i],
            ),
{
    let total: u32 = 2 * half_fov + 1;
    let mut fan: Vec<RayHit> = Vec::new();
    let mut i: u32 = 0;
    while i < total
        invariant
            player.wf(),
            map.wf(),
            half_fov < 90,
            total == 2 * half_fov + 1,
            i <= total,
            fan@.len() == i,
            forall|k: int|
                0 <= k < fan@.len() ==> fan_matches(
                    *map,
                    player.pos_x as int,
                    player.pos_y as int,
                    player.heading as int,
                    half_fov as int,
                    k,
                    #[trigger] fan@[k],
                ),
        decreases total - i,
    {
        let heading_i: u32 = (player.heading + 360 + i - half_fov) % 360;
        let offset: u32 = if i >= half_fov {
            i - half_fov
        } else {
            half_fov - i
        };
        let ray = Ray {
            origin_x: player.pos_x,
            origin_y: player.pos_y,
            heading: heading_i,
            length: 0,
        };
        let (raw, side) = ray.collision(map);
        let corrected = fisheye_correct(raw, offset);
        fan.push(RayHit { distance: corrected, raw, side });
        proof {
            assert(heading_i == fan_heading(
                player.heading as int,
                half_fov as int,
                i as int,
            ));
            assert(offset == fan_offset(half_fov as int, i as int));
        }
        i = i + 1;
    }
    fan
}

/// Turn a fan into its screen columns, one per ray in the same order.
pub fn project_columns(fan: &Vec<RayHit>) -> (cols: Vec<Column>)
    ensures
        cols@.len() == fan@.len(),
        forall|i: int|
            0 <= i < cols@.len() ==> (#[trigger] cols@[i]).height == column_height_of(
                fan@[i].distance as int,
            ) && cols@[i].side == fan@[i].side,
{
    let mut cols: Vec<Column> = Vec::new();
    let mut i: usize = 0;
    while i < fan.len()
        invariant
            i <= fan@.len(),
            cols@.len() == i,
            forall|k: int|
                0 <= k < cols@.len() ==> (#[trigger] cols@[k]).height == column_height_of(
                    fan@[k].distance as int,
                ) && cols@[k].side == fan@[k].side,
        decreases fan@.len() - i,
    {
        let hit = fan[i];
        let h = column_height(hit.distance);
        cols.push(Column { height: h, side: hit.side });
        i = i + 1;
    }
    cols
}

} // verus!
