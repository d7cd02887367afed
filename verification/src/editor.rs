//! The in-game level editor: block selection, grid-snapped placement, and
//! the editor camera's pan and zoom.

use vstd::prelude::*;

use crate::grid::{spec_snap, snap_coord, COORD_LIMIT};
use crate::level::{kind_of_tag, spec_kind_of_tag, MAX_BLOCK_ID};
use crate::modes::{GameState, GameStateVariant};
use crate::player::TIME_LIMIT;
use crate::world::{Block, Camera, World, WorldView};

verus! {

/// How fast the editor camera pans, in world units per second.
pub const CAMERA_PAN_SPEED: i64 = 1000;

/// How fast the editor camera zooms, in thousandths of scale per
/// millisecond per scrolled line.
pub const CAMERA_ZOOM_SPEED: i64 = 10;

/// A scroll event's line count stays within this bound.
pub const SCROLL_LINE_LIMIT: i64 = 1_000_000;

/// At most this many scroll events arrive in one tick.
pub const SCROLL_EVENT_LIMIT: usize = 4096;

/// The editor's session state: whether its entities are live, which block
/// the user will place next, and whether placement is frozen by a hovered
/// selector button.
#[derive(Clone, Copy, Debug, PartialEq, Eq, Structural)]
pub struct EditorState {
    /// Whether the editor session's entities are live.
    pub active: bool,
    /// The block kind the next placement spawns.
    pub picked_block_id: u8,
    /// True while the pointer hovers a selector button.
    pub freeze_block_placing: bool,
}

impl EditorState {
    /// The state before any editor session has opened.
    pub fn initial() -> (s: EditorState)
        ensures
            !s.active,
            s.picked_block_id == 0,
            !s.freeze_block_placing,
    {
        EditorState { active: false, picked_block_id: 0, freeze_block_placing: false }
    }
}

/// What the pointer did to one selector button this tick.
#[derive(Clone, Copy, Debug, PartialEq, Eq, Structural)]
pub enum ButtonInteraction {
    /// The button was clicked: it becomes the selection.
    Clicked,
    /// The pointer hovers the button: placement freezes.
    Hovered,
    /// The pointer left the button: placement thaws.
    Idle,
}

/// How one selector-button interaction changes the editor state: a click
/// selects that button's block and places no tile, a hover freezes
/// placement, and a departed pointer thaws it.
pub open spec fn spec_button_clicked(
    es: EditorState,
    interaction: ButtonInteraction,
    button_id: u8,
) -> EditorState {
    match interaction {
        ButtonInteraction::Clicked => EditorState { picked_block_id: button_id, ..es },
        ButtonInteraction::Hovered => EditorState { freeze_block_placing: true, ..es },
        ButtonInteraction::Idle => EditorState { freeze_block_placing: false, ..es },
    }
}

/// Apply one selector-button interaction to the editor state.
pub fn button_clicked(es: &mut EditorState, interaction: ButtonInteraction, button_id: u8)
    requires
        button_id <= MAX_BLOCK_ID,
    ensures
        *final(es) == spec_button_clicked(*old(es), interaction, button_id),
        final(es).picked_block_id <= MAX_BLOCK_ID || final(es).picked_block_id
            == old(es).picked_block_id,
{
    match interaction {
        ButtonInteraction::Clicked => {
            es.picked_block_id = button_id;
        },
        ButtonInteraction::Hovered => {
            es.freeze_block_placing = true;
        },
        ButtonInteraction::Idle => {
            es.freeze_block_placing = false;
        },
    }
}

/// The tile one placement spawns: the selected kind, snapped to the
/// placement grid on both axes.
pub open spec fn spec_placed_block(es: EditorState, px: int, py: int) -> Block {
    Block {
        id: es.picked_block_id,
        kind: spec_kind_of_tag(es.picked_block_id),
        x: spec_snap(px, 0) as i64,
        y: spec_snap(py, 0) as i64,
        name: None,
    }
}

/// Block placement: a primary-press with the pointer over the viewport,
/// while the editor session is live, placement is not frozen and the editor
/// camera exists, appends one snapped tile; under any other circumstances
/// the world is untouched.
pub open spec fn spec_place_blocks(
    v: WorldView,
    es: EditorState,
    pointer: Option<(i64, i64)>,
    pressed: bool,
) -> WorldView {
    match pointer {
        Some(pt) => {
            if es.active && !es.freeze_block_placing && pressed && v.editor_camera is Some {
                WorldView { editor_blocks: v.editor_blocks.push(spec_placed_block(es, pt.0 as int, pt.1 as int)), ..v }
            } else {
                v
            }
        },
        None => v,
    }
}

/// Place the selected block at the pointer, snapped to the grid. The
/// pointer position arrives already converted to world space, `None` when
/// the pointer was outside the viewport — then, or when placement is frozen
/// or no editor session is live, nothing spawns.
pub fn place_blocks(
    w: &mut World,
    es: &EditorState,
    pointer: Option<(i64, i64)>,
    pressed: bool,
)
    requires
        pointer matches Some(pt) ==> -COORD_LIMIT < pt.0 < COORD_LIMIT && -COORD_LIMIT < pt.1
            < COORD_LIMIT,
    ensures
        final(w)@ == spec_place_blocks(old(w)@, *es, pointer, pressed),
{
    if !es.active {
        return ;
    }
    if es.freeze_block_placing {
        return ;
    }
    if !pressed {
        return ;
    }
    if w.editor_camera.is_none() {
        return ;
    }
    match pointer {
        Some((px, py)) => {
            let bx = snap_coord(px, 0);
            let by = snap_coord(py, 0);
            let kind = kind_of_tag(es.picked_block_id);
            w.editor_blocks.push(
                Block { id: es.picked_block_id, kind, x: bx, y: by, name: None },
            );
        },
        None => {},
    }
}

/// Where the leftmost drawn grid line sits.
pub const GRID_LINE_BASE: i64 = -1280;

/// The drawn grid's phase offset from the axes.
pub const GRID_LINE_OFFSET: i64 = 32;

/// How many grid lines are drawn along each axis.
pub const GRID_LINE_COUNT: usize = 50;

/// The editor camera scale (thousandths) below which the grid is drawn.
pub const GRID_VISIBLE_SCALE: i64 = 2000;

/// The coordinates of the editor's visual grid lines: when the camera is
/// zoomed in closer than the visibility threshold, fifty lines per axis,
/// one block apart, anchored at the base plus the phase offset; zoomed out
/// further, none.
pub fn editor_grid_lines(cam: &Camera) -> (r: Option<Vec<i64>>)
    ensures
        (r is Some) <==> cam.scale < GRID_VISIBLE_SCALE,
        r matches Some(v) ==> v@.len() == GRID_LINE_COUNT && forall|i: int|
            0 <= i < v@.len() ==> v@[i] == GRID_LINE_BASE + GRID_LINE_OFFSET + i
                * crate::grid::BLOCK_SIZE,
{
    if cam.scale < GRID_VISIBLE_SCALE {
        let mut lines: Vec<i64> = Vec::new();
        let mut i: usize = 0;
        while i < GRID_LINE_COUNT
            invariant
                0 <= i <= GRID_LINE_COUNT,
                lines@.len() == i,
                forall|k: int| 0 <= k < lines@.len() ==> lines@[k] == GRID_LINE_BASE
                    + GRID_LINE_OFFSET + k * crate::grid::BLOCK_SIZE,
            decreases GRID_LINE_COUNT - i,
        {
            lines.push(GRID_LINE_BASE + GRID_LINE_OFFSET + (i as i64) * crate::grid::BLOCK_SIZE);
            i += 1;
        }
        Some(lines)
    } else {
        None
    }
}

/// Directional pan input held this tick.
#[derive(Clone, Copy, Debug, PartialEq, Eq, Structural)]
pub struct PanInput {
    /// Pan toward negative x.
    pub left: bool,
    /// Pan toward positive x.
    pub right: bool,
    /// Pan toward positive y.
    pub up: bool,
    /// Pan toward negative y.
    pub down: bool,
}

/// How far a held pan key carries the camera in one tick of `dt`
/// milliseconds.
pub open spec fn spec_pan_delta(dt: u64) -> int {
    CAMERA_PAN_SPEED * dt / 1000
}

/// Camera pan: each held direction key moves the camera by the pan speed
/// times the elapsed time, opposite keys cancelling; outside a live editor
/// session the camera holds still.
pub open spec fn spec_camera_movement(
    cam: Camera,
    pan: PanInput,
    dt: u64,
    in_editor: bool,
) -> Camera {
    if in_editor {
        let d = spec_pan_delta(dt);
        Camera {
            x: (cam.x - (if pan.left { d } else { 0int }) + (if pan.right { d } else { 0int })) as i64,
            y: (cam.y - (if pan.down { d } else { 0int }) + (if pan.up { d } else { 0int })) as i64,
            ..cam
        }
    } else {
        cam
    }
}

/// Pan the editor camera by this tick's held direction keys.
pub fn camera_movement(
    cam: &mut Camera,
    pan: &PanInput,
    dt_ms: u64,
    gs: &GameState,
    es: &EditorState,
)
    requires
        dt_ms <= TIME_LIMIT,
        -COORD_LIMIT < old(cam).x < COORD_LIMIT,
        -COORD_LIMIT < old(cam).y < COORD_LIMIT,
    ensures
        *final(cam) == spec_camera_movement(
            *old(cam),
            *pan,
            dt_ms,
            gs.variant == GameStateVariant::Editor && es.active,
        ),
{
    if gs.variant == GameStateVariant::Editor && es.active {
        proof {
            assert(CAMERA_PAN_SPEED == 1000);
            assert((CAMERA_PAN_SPEED as u64) * dt_ms <= 1000 * TIME_LIMIT) by (nonlinear_arith)
                requires dt_ms <= TIME_LIMIT, TIME_LIMIT == 1_000_000;
        }
        let step: u64 = (CAMERA_PAN_SPEED as u64) * dt_ms / 1000;
        let d = step as i64;
        if pan.left {
            cam.x = cam.x - d;
        }
        if pan.right {
            cam.x = cam.x + d;
        }
        if pan.down {
            cam.y = cam.y - d;
        }
        if pan.up {
            cam.y = cam.y + d;
        }
    }
}

/// The unit a scroll event is measured in.
#[derive(Clone, Copy, Debug, PartialEq, Eq, Structural)]
pub enum ScrollUnit {
    /// Whole lines; the only unit the zoom responds to.
    Line,
    /// Pixels; reported by some devices, ignored by the zoom.
    Pixel,
}

/// One scroll-wheel event.
#[derive(Clone, Copy, Debug, PartialEq, Eq, Structural)]
pub struct ScrollEvent {
    /// The unit of `y`.
    pub unit: ScrollUnit,
    /// The scrolled amount.
    pub y: i64,
}

/// The line-scroll total of a tick's scroll events; pixel-unit events do
/// not count.
pub open spec fn spec_line_scroll_sum(evs: Seq<ScrollEvent>) -> int
    decreases evs.len(),
{
    if evs.len() == 0 {
        0
    } else {
        spec_line_scroll_sum(evs.drop_last()) + (if evs.last().unit == ScrollUnit::Line {
            evs.last().y as int
        } else {
            0int
        })
    }
}

/// Camera zoom: in a live editor session the scale drops by the zoom speed
/// times the elapsed time for every scrolled line; elsewhere, and for
/// pixel-unit events, nothing changes.
pub open spec fn spec_camera_zoom(
    cam: Camera,
    evs: Seq<ScrollEvent>,
    dt: u64,
    in_editor: bool,
) -> Camera {
    if in_editor {
        Camera { scale: (cam.scale - CAMERA_ZOOM_SPEED * dt * spec_line_scroll_sum(evs)) as i64, ..cam }
    } else {
        cam
    }
}

/// Every line contributes a bounded amount to the scroll total.
proof fn lemma_line_scroll_sum_bound(evs: Seq<ScrollEvent>)
    requires
        forall|i: int| 0 <= i < evs.len() ==> -SCROLL_LINE_LIMIT <= (#[trigger] evs[i]).y
            <= SCROLL_LINE_LIMIT,
    ensures
        -SCROLL_LINE_LIMIT * evs.len() <= spec_line_scroll_sum(evs) <= SCROLL_LINE_LIMIT
            * evs.len(),
    decreases evs.len(),
{
    if evs.len() == 0 {
    } else {
        lemma_line_scroll_sum_bound(evs.drop_last());
        assert(SCROLL_LINE_LIMIT * (evs.len() - 1) + SCROLL_LINE_LIMIT == SCROLL_LINE_LIMIT
            * evs.len()) by (nonlinear_arith);
    }
}

/// Zoom the editor camera by this tick's scroll events, responding to
/// line-unit events only.
pub fn camera_zoom(
    cam: &mut Camera,
    scrolls: &Vec<ScrollEvent>,
    dt_ms: u64,
    gs: &GameState,
    es: &EditorState,
)
    requires
        dt_ms <= TIME_LIMIT,
        scrolls@.len() <= SCROLL_EVENT_LIMIT,
        forall|i: int| 0 <= i < scrolls@.len() ==> -SCROLL_LINE_LIMIT <= (#[trigger] scrolls@[i]).y
            <= SCROLL_LINE_LIMIT,
        -COORD_LIMIT < old(cam).scale < COORD_LIMIT,
    ensures
        *final(cam) == spec_camera_zoom(
            *old(cam),
            scrolls@,
            dt_ms,
            gs.variant == GameStateVariant::Editor && es.active,
        ),
{
    if gs.variant == GameStateVariant::Editor && es.active {
        let ghost scale0 = old(cam).scale as int;
        let mut i: usize = 0;
        while i < scrolls.len()
            invariant
                0 <= i <= scrolls@.len(),
                scrolls@.len() <= SCROLL_EVENT_LIMIT,
                forall|k: int| 0 <= k < scrolls@.len() ==> -SCROLL_LINE_LIMIT <= (
                #[trigger] scrolls@[k]).y <= SCROLL_LINE_LIMIT,
                dt_ms <= TIME_LIMIT,
                -COORD_LIMIT < scale0 < COORD_LIMIT,
                cam.scale == scale0 - CAMERA_ZOOM_SPEED * dt_ms * spec_line_scroll_sum(
                    scrolls@.take(i as int),
                ),
                cam.x == old(cam).x,
                cam.y == old(cam).y,
            decreases scrolls@.len() - i,
        {
            let ev = scrolls[i];
            proof {
                lemma_line_scroll_sum_bound(scrolls@.take(i as int));
                lemma_line_scroll_sum_bound(scrolls@.take(i as int + 1));
                assert(scrolls@.take(i as int + 1).drop_last() =~= scrolls@.take(i as int));
                let sum_here = spec_line_scroll_sum(scrolls@.take(i as int));
                let sum_next = spec_line_scroll_sum(scrolls@.take(i as int + 1));
                assert(-0x1000_0000_0000_0000 <= CAMERA_ZOOM_SPEED * (dt_ms as int) * sum_here
                    <= 0x1000_0000_0000_0000 && -0x1000_0000_0000_0000 <= CAMERA_ZOOM_SPEED * (
                dt_ms as int) * sum_next <= 0x1000_0000_0000_0000) by (nonlinear_arith)
                    requires
                        -SCROLL_LINE_LIMIT * (i as int) <= sum_here <= SCROLL_LINE_LIMIT * (
                        i as int),
                        -SCROLL_LINE_LIMIT * (i as int + 1) <= sum_next <= SCROLL_LINE_LIMIT * (
                        i as int + 1),
                        0 <= i as int + 1 <= SCROLL_EVENT_LIMIT,
                        0 <= dt_ms <= TIME_LIMIT,
                        CAMERA_ZOOM_SPEED == 10,
                        SCROLL_LINE_LIMIT == 1_000_000,
                        SCROLL_EVENT_LIMIT == 4096,
                        TIME_LIMIT == 1_000_000,
                ;
            }
            match ev.unit {
                ScrollUnit::Line => {
                    proof {
                        assert(CAMERA_ZOOM_SPEED * (dt_ms as int) <= 10_000_000 && CAMERA_ZOOM_SPEED
                            * (dt_ms as int) >= 0) by (nonlinear_arith)
                            requires dt_ms <= TIME_LIMIT, TIME_LIMIT == 1_000_000,
                                CAMERA_ZOOM_SPEED == 10,
                        ;
                        assert(-0x1000_0000_0000_0000 <= (CAMERA_ZOOM_SPEED * (dt_ms as int)) * (
                        ev.y as int) <= 0x1000_0000_0000_0000) by (nonlinear_arith)
                            requires
                                0 <= CAMERA_ZOOM_SPEED * (dt_ms as int) <= 10_000_000,
                                -SCROLL_LINE_LIMIT <= ev.y <= SCROLL_LINE_LIMIT,
                                SCROLL_LINE_LIMIT == 1_000_000,
                        ;
                        assert(CAMERA_ZOOM_SPEED * (dt_ms as int) * (ev.y as int) + CAMERA_ZOOM_SPEED
                            * (dt_ms as int) * spec_line_scroll_sum(scrolls@.take(i as int))
                            == CAMERA_ZOOM_SPEED * (dt_ms as int) * spec_line_scroll_sum(
                            scrolls@.take(i as int + 1),
                        )) by (nonlinear_arith)
                            requires
                                spec_line_scroll_sum(scrolls@.take(i as int + 1))
                                    == spec_line_scroll_sum(scrolls@.take(i as int)) + ev.y,
                        ;
                    }
                    let step: i64 = CAMERA_ZOOM_SPEED * (dt_ms as i64);
                    cam.scale = cam.scale - step * ev.y;
                },
                ScrollUnit::Pixel => {
                    proof {
                        assert(scrolls@.take(i as int + 1).last().unit == ScrollUnit::Pixel);
                    }
                },
            }
            i += 1;
        }
        proof {
            assert(scrolls@.take(scrolls@.len() as int) =~= scrolls@);
        }
    }
}

} // verus!
