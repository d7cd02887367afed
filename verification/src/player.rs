//! The player's per-tick rules: auto-run, the jump edge, airborne roll, the
//! landing snap, and the respawn bookkeeping.

use vstd::prelude::*;

use crate::collision::{classify_contacts, spec_classify_contacts};
use crate::grid::COORD_LIMIT;
use crate::level::BlockKind;
use crate::world::{
    Camera, Jump, PlayerEntity, World, WorldView, PLAYER_ROTATION_RATE, PLAYER_SPEED,
    STARTING_CAMERA_X, STARTING_CAMERA_Y, STARTING_PLAYER_X, STARTING_PLAYER_Y,
};

verus! {

/// A tick never spans more than this many milliseconds.
pub const TIME_LIMIT: u64 = 1_000_000;

/// The rotation accumulator stays well inside the `i64` range so the landing
/// snap's arithmetic cannot overflow.
pub const ROTATION_LIMIT: i64 = 0x4000_0000_0000;

/// Count of respawns since the level session opened, and whether the session
/// is live.
#[derive(Clone, Copy, Debug, PartialEq, Eq, Structural)]
pub struct LevelState {
    /// Respawns since the session opened.
    pub attempts: u32,
    /// Whether the level session's entities are live.
    pub active: bool,
}

impl LevelState {
    /// The state before any level session has opened.
    pub fn initial() -> (s: LevelState)
        ensures
            s.attempts == 0,
            !s.active,
    {
        LevelState { attempts: 0, active: false }
    }
}

/// The at-most-one per tick signal that the player died and must respawn.
#[derive(Default, Clone, Copy, Debug, PartialEq, Eq, Structural)]
pub struct RespawnPlayerEvent;

/// How far the auto-run carries the player in one tick of `dt` milliseconds.
pub open spec fn spec_linear_delta(dt: u64) -> int {
    PLAYER_SPEED * dt / 1000
}

/// Auto-run: the player and the level camera advance by the same amount.
pub open spec fn spec_movement_linear(p: PlayerEntity, cam: Camera, dt: u64, active: bool) -> (
    PlayerEntity,
    Camera,
) {
    if active {
        (
            PlayerEntity { x: (p.x + spec_linear_delta(dt)) as i64, ..p },
            Camera { x: (cam.x + spec_linear_delta(dt)) as i64, ..cam },
        )
    } else {
        (p, cam)
    }
}

/// Advance the auto-running player and its camera by the same distance, so
/// the camera follows the player one to one; outside an active session
/// nothing moves.
pub fn player_movement_linear(p: &mut PlayerEntity, cam: &mut Camera, dt_ms: u64, active: bool)
    requires
        dt_ms <= TIME_LIMIT,
        -COORD_LIMIT < old(p).x < COORD_LIMIT,
        -COORD_LIMIT < old(cam).x < COORD_LIMIT,
    ensures
        (*final(p), *final(cam)) == spec_movement_linear(*old(p), *old(cam), dt_ms, active),
        active ==> final(p).x == old(p).x + spec_linear_delta(dt_ms) && final(cam).x == old(cam).x
            + spec_linear_delta(dt_ms),
{
    if active {
        proof {
            assert(PLAYER_SPEED == 450);
            assert((PLAYER_SPEED as u64) * dt_ms <= 450 * TIME_LIMIT) by (nonlinear_arith)
                requires dt_ms <= TIME_LIMIT, TIME_LIMIT == 1_000_000;
        }
        let step: u64 = (PLAYER_SPEED as u64) * dt_ms / 1000;
        let d = step as i64;
        p.x = p.x + d;
        cam.x = cam.x + d;
    }
}

/// The jump edge: pressing jump while grounded launches the player; while
/// airborne, or outside an active session, the input changes nothing.
pub open spec fn spec_movement_jump(p: PlayerEntity, pressed: bool, active: bool) -> PlayerEntity {
    if active && pressed && !p.jump.is_jumping {
        PlayerEntity {
            vel_x: 0,
            vel_y: p.jump.value,
            jump: (Jump { is_jumping: true, ..p.jump }),
            ..p
        }
    } else {
        p
    }
}

/// Apply one tick of jump input: a press while grounded sets the vertical
/// velocity to the stored impulse exactly once and marks the player
/// airborne; holding the key while airborne re-triggers nothing.
pub fn player_movement_jump(p: &mut PlayerEntity, jump_pressed: bool, active: bool)
    ensures
        *final(p) == spec_movement_jump(*old(p), jump_pressed, active),
{
    if active && jump_pressed && !p.jump.is_jumping {
        p.vel_x = 0;
        p.vel_y = p.jump.value;
        p.jump.is_jumping = true;
    }
}

/// Airborne roll: the raw accumulator and the displayed rotation both drop
/// by the angular rate times the elapsed time; grounded, nothing turns.
pub open spec fn spec_jump_animation(p: PlayerEntity, dt: u64) -> PlayerEntity {
    if p.jump.is_jumping {
        let rot = (p.jump.rotation_value - PLAYER_ROTATION_RATE * dt) as i64;
        PlayerEntity { rotation: rot, jump: (Jump { rotation_value: rot, ..p.jump }), ..p }
    } else {
        p
    }
}

/// Accumulate one tick of visual roll while airborne; the displayed rotation
/// follows the raw accumulator. While grounded the rotation stays frozen.
pub fn player_jump_animation(p: &mut PlayerEntity, dt_ms: u64)
    requires
        dt_ms <= TIME_LIMIT,
        -ROTATION_LIMIT <= old(p).jump.rotation_value <= ROTATION_LIMIT,
    ensures
        *final(p) == spec_jump_animation(*old(p), dt_ms),
        old(p).jump.is_jumping ==> final(p).jump.rotation_value == old(p).jump.rotation_value
            - PLAYER_ROTATION_RATE * dt_ms,
{
    if p.jump.is_jumping {
        let rot = p.jump.rotation_value - PLAYER_ROTATION_RATE * (dt_ms as i64);
        p.jump.rotation_value = rot;
        p.rotation = rot;
    }
}

/// Truncating division, as the machine division of two's-complement
/// integers rounds: toward zero.
pub open spec fn trunc_div(a: int, b: int) -> int {
    if a >= 0 {
        a / b
    } else {
        -((-a) / b)
    }
}

/// Truncating remainder, the machine remainder of two's-complement
/// integers: it carries the dividend's sign.
pub open spec fn trunc_rem(a: int, b: int) -> int {
    if a >= 0 {
        a % b
    } else {
        -((-a) % b)
    }
}

/// Divide rounding toward zero.
fn trunc_div_i64(a: i64, b: i64) -> (q: i64)
    requires
        b > 0,
        i64::MIN < a,
    ensures
        q == trunc_div(a as int, b as int),
{
    if a >= 0 {
        a / b
    } else {
        -((-a) / b)
    }
}

/// Remainder with the dividend's sign.
fn trunc_rem_i64(a: i64, b: i64) -> (r: i64)
    requires
        b > 0,
        i64::MIN < a,
    ensures
        r == trunc_rem(a as int, b as int),
{
    if a >= 0 {
        a % b
    } else {
        -((-a) % b)
    }
}

/// Where the displayed rotation lands when the player touches ground: the
/// raw accumulator (thousandths of a degree) is truncated to whole degrees,
/// dropped by ninety degrees plus its own truncating remainder by ninety,
/// and scaled back up.
pub open spec fn spec_ceil_to_full_rotation(rot: int) -> int {
    let inum = trunc_div(rot, 1000);
    (inum - 90 - trunc_rem(inum, 90)) * 1000
}

/// Snap the raw rotation accumulator to the ninety-degree boundary the
/// landing animation freezes at. The result is always a multiple of a
/// quarter turn, and for a non-negative accumulator it sits at least a
/// quarter turn below it.
pub fn ceil_to_full_rotation(rotation_value: i64) -> (r: i64)
    requires
        -ROTATION_LIMIT <= rotation_value <= ROTATION_LIMIT,
    ensures
        r == spec_ceil_to_full_rotation(rotation_value as int),
        r % 90000 == 0,
        rotation_value >= 0 ==> r <= rotation_value - 90000,
{
    let inum = trunc_div_i64(rotation_value, 1000);
    let m = trunc_rem_i64(inum, 90);
    let snapped = inum - 90 - m;
    proof {
        let i = inum as int;
        if i >= 0 {
            vstd::arithmetic::div_mod::lemma_fundamental_div_mod(i, 90);
            assert(snapped == 90 * (i / 90 - 1));
            vstd::arithmetic::div_mod::lemma_mod_multiples_basic(i / 90 - 1, 90000);
            assert((90 * (i / 90 - 1)) * 1000 == (i / 90 - 1) * 90000) by (nonlinear_arith);
        } else {
            vstd::arithmetic::div_mod::lemma_fundamental_div_mod(-i, 90);
            assert(snapped == 90 * (-((-i) / 90) - 1));
            vstd::arithmetic::div_mod::lemma_mod_multiples_basic(-((-i) / 90) - 1, 90000);
            assert((90 * (-((-i) / 90) - 1)) * 1000 == (-((-i) / 90) - 1) * 90000)
                by (nonlinear_arith);
        }
        if rotation_value >= 0 {
            vstd::arithmetic::div_mod::lemma_fundamental_div_mod(rotation_value as int, 1000);
        }
    }
    snapped * 1000
}

/// Landing: a ground contact grounds the player and freezes the displayed
/// rotation at the snapped boundary; the raw accumulator keeps its value.
pub open spec fn spec_reset_player_jump(p: PlayerEntity, ground_contact: bool) -> PlayerEntity {
    if ground_contact {
        PlayerEntity {
            rotation: spec_ceil_to_full_rotation(p.jump.rotation_value as int) as i64,
            jump: (Jump { is_jumping: false, ..p.jump }),
            ..p
        }
    } else {
        p
    }
}

/// Apply a tick's ground-contact result: on contact the player is grounded
/// and its displayed rotation snaps to the quarter-turn boundary; without
/// contact nothing changes.
pub fn reset_player_jump(p: &mut PlayerEntity, ground_contact: bool)
    requires
        -ROTATION_LIMIT <= old(p).jump.rotation_value <= ROTATION_LIMIT,
    ensures
        *final(p) == spec_reset_player_jump(*old(p), ground_contact),
{
    if ground_contact {
        p.jump.is_jumping = false;
        p.rotation = ceil_to_full_rotation(p.jump.rotation_value);
    }
}

/// Respawn: a death this tick puts the player and the level camera back at
/// their starting positions; the rest of the player's state carries over.
pub open spec fn spec_reset_player_state(
    p: PlayerEntity,
    cam: Camera,
    respawn: Option<RespawnPlayerEvent>,
) -> (PlayerEntity, Camera) {
    if respawn is Some {
        (
            PlayerEntity { x: STARTING_PLAYER_X, y: STARTING_PLAYER_Y, ..p },
            Camera { x: STARTING_CAMERA_X, y: STARTING_CAMERA_Y, ..cam },
        )
    } else {
        (p, cam)
    }
}

/// Move the player and the level camera back to their fixed starting
/// positions when a respawn was requested this tick.
pub fn reset_player_state(
    p: &mut PlayerEntity,
    cam: &mut Camera,
    respawn: &Option<RespawnPlayerEvent>,
)
    ensures
        (*final(p), *final(cam)) == spec_reset_player_state(*old(p), *old(cam), *respawn),
{
    if respawn.is_some() {
        p.x = STARTING_PLAYER_X;
        p.y = STARTING_PLAYER_Y;
        cam.x = STARTING_CAMERA_X;
        cam.y = STARTING_CAMERA_Y;
    }
}

/// Attempt counting: one respawn request raises the counter by one.
pub open spec fn spec_update_attempts(ls: LevelState, respawn: Option<RespawnPlayerEvent>) -> LevelState {
    if respawn is Some {
        LevelState { attempts: (ls.attempts + 1) as u32, ..ls }
    } else {
        ls
    }
}

/// Count this tick's respawn, if one was requested.
pub fn update_attempts(ls: &mut LevelState, respawn: &Option<RespawnPlayerEvent>)
    requires
        respawn is Some ==> old(ls).attempts < u32::MAX,
    ensures
        *final(ls) == spec_update_attempts(*old(ls), *respawn),
{
    if respawn.is_some() {
        ls.attempts = ls.attempts + 1;
    }
}

/// The rotation accumulator keeps this much headroom below its hard bound,
/// so one more tick of roll cannot push it out.
pub const ROTATION_TICK_LIMIT: i64 = ROTATION_LIMIT - 300_000_000;

/// One whole tick of the level session's player rules, in the order the
/// scheduler guarantees: auto-run, jump input, roll accumulation, then
/// contact classification, the landing snap, the attempt count, and the
/// respawn reset.
pub open spec fn spec_level_tick(
    p: PlayerEntity,
    cam: Camera,
    ls: LevelState,
    dt: u64,
    pressed: bool,
    kinds: Seq<BlockKind>,
) -> (PlayerEntity, Camera, LevelState, Option<RespawnPlayerEvent>) {
    let (p1, cam1) = spec_movement_linear(p, cam, dt, ls.active);
    let p2 = spec_movement_jump(p1, pressed, ls.active);
    let p3 = spec_jump_animation(p2, dt);
    let events = spec_classify_contacts(kinds);
    let p4 = spec_reset_player_jump(p3, events.ground_contact);
    let ls1 = spec_update_attempts(ls, events.respawn);
    let (p5, cam2) = spec_reset_player_state(p4, cam1, events.respawn);
    (p5, cam2, ls1, events.respawn)
}

/// Run one tick of the player rules on the live level session: the player
/// auto-runs with the camera in tow, a jump edge fires at most once, the
/// airborne roll accumulates before any landing snaps it, a hazard contact
/// requests at most one respawn, counted and applied in the same tick.
/// With no player or no level camera live — mid-transition frames — the
/// tick does nothing.
pub fn level_tick(
    w: &mut World,
    ls: &mut LevelState,
    dt_ms: u64,
    jump_pressed: bool,
    contact_kinds: &Vec<BlockKind>,
) -> (r: Option<RespawnPlayerEvent>)
    requires
        dt_ms <= TIME_LIMIT,
        old(ls).attempts < u32::MAX,
        old(w).player matches Some(p) ==> -COORD_LIMIT < p.x < COORD_LIMIT
            && -ROTATION_TICK_LIMIT <= p.jump.rotation_value <= ROTATION_TICK_LIMIT,
        old(w).level_camera matches Some(c) ==> -COORD_LIMIT < c.x < COORD_LIMIT,
    ensures
        old(w).player is Some && old(w).level_camera is Some ==> ({
            let (p1, cam1, ls1, r1) = spec_level_tick(
                old(w).player->Some_0,
                old(w).level_camera->Some_0,
                *old(ls),
                dt_ms,
                jump_pressed,
                contact_kinds@,
            );
            final(w)@ == (WorldView {
                player: Some(p1),
                level_camera: Some(cam1),
                ..old(w)@
            }) && *final(ls) == ls1 && r == r1
        }),
        !(old(w).player is Some && old(w).level_camera is Some) ==> final(w)@ == old(w)@
            && *final(ls) == *old(ls) && r is None,
{
    let active = ls.active;
    match (&mut w.player, &mut w.level_camera) {
        (Some(p), Some(cam)) => {
            player_movement_linear(p, cam, dt_ms, active);
            player_movement_jump(p, jump_pressed, active);
            player_jump_animation(p, dt_ms);
            let events = classify_contacts(contact_kinds);
            reset_player_jump(p, events.ground_contact);
            update_attempts(ls, &events.respawn);
            reset_player_state(p, cam, &events.respawn);
            events.respawn
        },
        _ => { None },
    }
}

/// While grounded the rotation stays frozen: a tick of the roll animation
/// changes nothing about a grounded player.
pub proof fn lemma_rotation_frozen_while_grounded(p: PlayerEntity, dt: u64)
    requires
        !p.jump.is_jumping,
    ensures
        spec_jump_animation(p, dt) == p,
{
}

/// Jump input is ignored while airborne: the jump system leaves an airborne
/// player untouched, held key or not.
pub proof fn lemma_jump_ignored_while_airborne(p: PlayerEntity, pressed: bool, active: bool)
    requires
        p.jump.is_jumping,
    ensures
        spec_movement_jump(p, pressed, active) == p,
{
}

/// A held jump key fires at most once: feeding the jump system its own
/// output with the key still down changes nothing more.
pub proof fn lemma_jump_edge_once(p: PlayerEntity, active: bool)
    ensures
        spec_movement_jump(spec_movement_jump(p, true, active), true, active)
            == spec_movement_jump(p, true, active),
{
}

/// The total time of a run of ticks, in milliseconds.
pub open spec fn spec_time_sum(dts: Seq<u64>) -> int
    decreases dts.len(),
{
    if dts.len() == 0 {
        0
    } else {
        dts[0] + spec_time_sum(dts.skip(1))
    }
}

/// Where a run of roll-animation ticks leaves the player.
pub open spec fn spec_animate_many(p: PlayerEntity, dts: Seq<u64>) -> PlayerEntity
    decreases dts.len(),
{
    if dts.len() == 0 {
        p
    } else {
        spec_animate_many(spec_jump_animation(p, dts[0]), dts.skip(1))
    }
}

/// A run of ticks never takes negative time.
proof fn lemma_time_sum_nonneg(dts: Seq<u64>)
    ensures
        spec_time_sum(dts) >= 0,
    decreases dts.len(),
{
    if dts.len() > 0 {
        lemma_time_sum_nonneg(dts.skip(1));
    }
}

/// Airborne roll accumulates monotonically at the fixed angular rate: over
/// any run of ticks spanning `t` milliseconds in all, an airborne player
/// stays airborne and its rotation accumulator drops by exactly the angular
/// rate times `t` — in particular it never climbs back.
pub proof fn lemma_rotation_accumulates(p: PlayerEntity, dts: Seq<u64>)
    requires
        p.jump.is_jumping,
        p.jump.rotation_value <= ROTATION_LIMIT,
        p.jump.rotation_value - PLAYER_ROTATION_RATE * spec_time_sum(dts) >= i64::MIN,
    ensures
        spec_animate_many(p, dts).jump.is_jumping,
        spec_animate_many(p, dts).jump.rotation_value == p.jump.rotation_value
            - PLAYER_ROTATION_RATE * spec_time_sum(dts),
        spec_animate_many(p, dts).jump.rotation_value <= p.jump.rotation_value,
        spec_animate_many(p, dts).rotation == spec_animate_many(p, dts).jump.rotation_value
            || dts.len() == 0,
    decreases dts.len(),
{
    if dts.len() > 0 {
        lemma_time_sum_nonneg(dts.skip(1));
        let p1 = spec_jump_animation(p, dts[0]);
        lemma_rotation_accumulates(p1, dts.skip(1));
    }
}

} // verus!
