//! The entities the game tracks: the player, the cameras, the placed blocks,
//! and the world that owns them.
//!
//! Positions are whole world units, time is milliseconds, and the visual
//! rotation is kept in thousandths of a degree, so every per-tick rule is
//! exact integer arithmetic.

use vstd::prelude::*;

use crate::level::BlockKind;

verus! {

/// Vertical impulse a jump gives the player, in world units per second.
pub const PLAYER_JUMP_VALUE: i64 = 900;

/// Constant horizontal speed of the auto-running player, in world units per
/// second.
pub const PLAYER_SPEED: i64 = 450;

/// How fast the airborne player rolls, in thousandths of a degree per
/// millisecond (225 degrees per second, accumulated downward).
pub const PLAYER_ROTATION_RATE: i64 = 225;

/// Where a fresh player spawns.
pub const STARTING_PLAYER_X: i64 = -600;

/// Where a fresh player spawns.
pub const STARTING_PLAYER_Y: i64 = -220;

/// Where the level camera spawns.
pub const STARTING_CAMERA_X: i64 = -300;

/// Where the level camera spawns.
pub const STARTING_CAMERA_Y: i64 = 0;

/// A camera's scale of one, in thousandths.
pub const CAMERA_SCALE_ONE: i64 = 1000;

/// The player's jump state: the stored impulse, whether the player is
/// airborne, and the raw accumulated roll in thousandths of a degree.
#[derive(Clone, Copy, Debug, PartialEq, Eq, Structural)]
pub struct Jump {
    /// Impulse applied on a jump edge, world units per second.
    pub value: i64,
    /// True while airborne; a fresh spawn starts airborne.
    pub is_jumping: bool,
    /// Raw accumulated visual roll, thousandths of a degree; never reset on
    /// landing, only the displayed rotation snaps.
    pub rotation_value: i64,
}

/// The zero-or-one player of an active level session.
#[derive(Clone, Copy, Debug, PartialEq, Eq, Structural)]
pub struct PlayerEntity {
    /// World position.
    pub x: i64,
    /// World position.
    pub y: i64,
    /// Horizontal velocity, world units per second.
    pub vel_x: i64,
    /// Vertical velocity, world units per second.
    pub vel_y: i64,
    /// Displayed visual rotation, thousandths of a degree; follows the raw
    /// accumulator while airborne and freezes at a snapped value on landing.
    pub rotation: i64,
    /// Jump state.
    pub jump: Jump,
}

/// A camera rig: position and uniform zoom scale (thousandths).
#[derive(Clone, Copy, Debug, PartialEq, Eq, Structural)]
pub struct Camera {
    /// World position.
    pub x: i64,
    /// World position.
    pub y: i64,
    /// Uniform zoom scale, thousandths.
    pub scale: i64,
}

/// A placed block tile: immutable once placed, alive for the session that
/// spawned it.
#[derive(Debug, PartialEq, Eq)]
pub struct Block {
    /// Visual asset selector.
    pub id: u8,
    /// What the block does.
    pub kind: BlockKind,
    /// World position.
    pub x: i64,
    /// World position.
    pub y: i64,
    /// Display name: a descriptor block carries its record's name, a tile
    /// placed in the editor none.
    pub name: Option<String>,
}

/// Every entity the game tracks, grouped by who spawned it: the fixed
/// startup set, the live level session, and the live editor session.
#[derive(Debug)]
pub struct World {
    /// Spawned once at startup, never despawned.
    pub static_blocks: Vec<Block>,
    /// Spawned by opening a level session, despawned by closing it.
    pub level_blocks: Vec<Block>,
    /// Placed while an editor session is live, despawned by closing it.
    pub editor_blocks: Vec<Block>,
    /// Zero-or-one player, owned by the level session.
    pub player: Option<PlayerEntity>,
    /// Zero-or-one level camera, owned by the level session.
    pub level_camera: Option<Camera>,
    /// Whether the level session's attempts readout exists.
    pub attempts_text: bool,
    /// Zero-or-one editor camera, owned by the editor session.
    pub editor_camera: Option<Camera>,
    /// Whether the editor's block-selector panel exists.
    pub editor_ui: bool,
}

/// The mathematical model of a `World`: the same entities with the block
/// lists as sequences.
#[verifier::ext_equal]
pub ghost struct WorldView {
    /// Spawned once at startup.
    pub static_blocks: Seq<Block>,
    /// Owned by the live level session.
    pub level_blocks: Seq<Block>,
    /// Owned by the live editor session.
    pub editor_blocks: Seq<Block>,
    /// Zero-or-one player.
    pub player: Option<PlayerEntity>,
    /// Zero-or-one level camera.
    pub level_camera: Option<Camera>,
    /// Whether the attempts readout exists.
    pub attempts_text: bool,
    /// Zero-or-one editor camera.
    pub editor_camera: Option<Camera>,
    /// Whether the editor's selector panel exists.
    pub editor_ui: bool,
}

impl View for World {
    type V = WorldView;

    open spec fn view(&self) -> WorldView {
        WorldView {
            static_blocks: self.static_blocks@,
            level_blocks: self.level_blocks@,
            editor_blocks: self.editor_blocks@,
            player: self.player,
            level_camera: self.level_camera,
            attempts_text: self.attempts_text,
            editor_camera: self.editor_camera,
            editor_ui: self.editor_ui,
        }
    }
}

/// One if present, zero if not.
pub open spec fn opt_count<T>(o: Option<T>) -> int {
    if o is Some {
        1
    } else {
        0
    }
}

/// One if true, zero if not.
pub open spec fn flag_count(b: bool) -> int {
    if b {
        1
    } else {
        0
    }
}

/// How many entities are live in the world.
pub open spec fn entity_count(w: WorldView) -> int {
    w.static_blocks.len() + w.level_blocks.len() + w.editor_blocks.len() + opt_count(w.player)
        + opt_count(w.level_camera) + flag_count(w.attempts_text) + opt_count(w.editor_camera)
        + flag_count(w.editor_ui)
}

/// The player a fresh level session spawns: at the starting position,
/// running, airborne, not yet rolled.
pub open spec fn spec_initial_player() -> PlayerEntity {
    PlayerEntity {
        x: STARTING_PLAYER_X,
        y: STARTING_PLAYER_Y,
        vel_x: 10,
        vel_y: 0,
        rotation: 0,
        jump: Jump { value: PLAYER_JUMP_VALUE, is_jumping: true, rotation_value: 0 },
    }
}

/// The camera a fresh level session spawns.
pub open spec fn spec_initial_level_camera() -> Camera {
    Camera { x: STARTING_CAMERA_X, y: STARTING_CAMERA_Y, scale: CAMERA_SCALE_ONE }
}

/// The camera a fresh editor session spawns, at the origin.
pub open spec fn spec_initial_editor_camera() -> Camera {
    Camera { x: 0, y: 0, scale: CAMERA_SCALE_ONE }
}

/// Build the player a fresh level session spawns.
pub fn initial_player() -> (p: PlayerEntity)
    ensures
        p == spec_initial_player(),
{
    PlayerEntity {
        x: STARTING_PLAYER_X,
        y: STARTING_PLAYER_Y,
        vel_x: 10,
        vel_y: 0,
        rotation: 0,
        jump: Jump { value: PLAYER_JUMP_VALUE, is_jumping: true, rotation_value: 0 },
    }
}

/// Build the camera a fresh level session spawns.
pub fn initial_level_camera() -> (c: Camera)
    ensures
        c == spec_initial_level_camera(),
{
    Camera { x: STARTING_CAMERA_X, y: STARTING_CAMERA_Y, scale: CAMERA_SCALE_ONE }
}

/// Build the camera a fresh editor session spawns.
pub fn initial_editor_camera() -> (c: Camera)
    ensures
        c == spec_initial_editor_camera(),
{
    Camera { x: 0, y: 0, scale: CAMERA_SCALE_ONE }
}

} // verus!
