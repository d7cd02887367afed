use platformer_core::editor::{
    button_clicked, camera_movement, camera_zoom, place_blocks, ButtonInteraction, EditorState,
    PanInput, ScrollEvent, ScrollUnit,
};
use platformer_core::level::BlockKind;
use platformer_core::modes::{editor_open, GameState, GameStateVariant};
use platformer_core::world::Camera;

fn editor_world() -> (platformer_core::world::World, EditorState) {
    let mut w = platformer_core::modes::setup_world();
    let gs = GameState { variant: GameStateVariant::Editor };
    let mut es = EditorState::initial();
    editor_open(&mut w, &gs, &mut es);
    (w, es)
}

#[test]
fn clicking_a_selector_button_picks_its_block() {
    let mut es = EditorState::initial();
    button_clicked(&mut es, ButtonInteraction::Clicked, 2);
    assert_eq!(es.picked_block_id, 2);
    assert!(!es.freeze_block_placing);
}

#[test]
fn hovering_freezes_and_leaving_thaws_placement() {
    let mut es = EditorState::initial();
    button_clicked(&mut es, ButtonInteraction::Hovered, 1);
    assert!(es.freeze_block_placing);
    assert_eq!(es.picked_block_id, 0);
    button_clicked(&mut es, ButtonInteraction::Idle, 1);
    assert!(!es.freeze_block_placing);
}

#[test]
fn placing_snaps_both_axes_and_uses_the_selection() {
    let (mut w, mut es) = editor_world();
    button_clicked(&mut es, ButtonInteraction::Clicked, 1);
    place_blocks(&mut w, &es, Some((40, -300)), true);
    assert_eq!(w.editor_blocks.len(), 1);
    let b = &w.editor_blocks[0];
    assert_eq!((b.x, b.y), (64, -320));
    assert_eq!(b.id, 1);
    assert_eq!(b.kind, BlockKind::Ground);
    assert!(b.name.is_none());
}

#[test]
fn no_placement_when_frozen_or_unpressed_or_off_screen() {
    let (mut w, mut es) = editor_world();
    place_blocks(&mut w, &es, Some((0, 0)), false);
    assert!(w.editor_blocks.is_empty());
    place_blocks(&mut w, &es, None, true);
    assert!(w.editor_blocks.is_empty());
    button_clicked(&mut es, ButtonInteraction::Hovered, 0);
    place_blocks(&mut w, &es, Some((0, 0)), true);
    assert!(w.editor_blocks.is_empty());
}

#[test]
fn no_placement_outside_a_live_editor_session() {
    let mut w = platformer_core::modes::setup_world();
    let es = EditorState::initial();
    place_blocks(&mut w, &es, Some((0, 0)), true);
    assert!(w.editor_blocks.is_empty());
}

#[test]
fn pan_keys_move_the_editor_camera() {
    let gs = GameState { variant: GameStateVariant::Editor };
    let es = EditorState { active: true, picked_block_id: 0, freeze_block_placing: false };
    let mut cam = Camera { x: 0, y: 0, scale: 1000 };
    // 1000 units per second, half a second, left and up held.
    let pan = PanInput { left: true, right: false, up: true, down: false };
    camera_movement(&mut cam, &pan, 500, &gs, &es);
    assert_eq!((cam.x, cam.y), (-500, 500));
    // Opposite keys cancel.
    let both = PanInput { left: true, right: true, up: false, down: false };
    camera_movement(&mut cam, &both, 500, &gs, &es);
    assert_eq!((cam.x, cam.y), (-500, 500));
}

#[test]
fn pan_ignored_outside_editor_mode() {
    let gs = GameState { variant: GameStateVariant::Level };
    let es = EditorState { active: true, picked_block_id: 0, freeze_block_placing: false };
    let mut cam = Camera { x: 0, y: 0, scale: 1000 };
    let pan = PanInput { left: true, right: false, up: false, down: false };
    camera_movement(&mut cam, &pan, 500, &gs, &es);
    assert_eq!(cam.x, 0);
}

#[test]
fn line_scroll_zooms_and_pixel_scroll_is_ignored() {
    let gs = GameState { variant: GameStateVariant::Editor };
    let es = EditorState { active: true, picked_block_id: 0, freeze_block_placing: false };
    let mut cam = Camera { x: 0, y: 0, scale: 1000 };
    let scrolls = vec![
        ScrollEvent { unit: ScrollUnit::Line, y: 1 },
        ScrollEvent { unit: ScrollUnit::Pixel, y: 100 },
    ];
    // Zoom speed 10 per millisecond per line: 50 ms of one line.
    camera_zoom(&mut cam, &scrolls, 50, &gs, &es);
    assert_eq!(cam.scale, 1000 - 10 * 50);
    // Scrolling back out restores the scale.
    let back = vec![ScrollEvent { unit: ScrollUnit::Line, y: -1 }];
    camera_zoom(&mut cam, &back, 50, &gs, &es);
    assert_eq!(cam.scale, 1000);
}

#[test]
fn zoom_ignored_while_level_runs() {
    let gs = GameState { variant: GameStateVariant::Level };
    let es = EditorState { active: false, picked_block_id: 0, freeze_block_placing: false };
    let mut cam = Camera { x: 0, y: 0, scale: 1000 };
    let scrolls = vec![ScrollEvent { unit: ScrollUnit::Line, y: 3 }];
    camera_zoom(&mut cam, &scrolls, 50, &gs, &es);
    assert_eq!(cam.scale, 1000);
}
