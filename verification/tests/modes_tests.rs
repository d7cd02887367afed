use platformer_core::editor::EditorState;
use platformer_core::level::{BlockKind, LevelError};
use platformer_core::modes::{
    editor_close, editor_open, initial_game_state, level_close, level_open, mode_tick,
    open_level_from_text, setup_world, GameState, GameStateVariant,
};
use platformer_core::player::LevelState;
use platformer_core::world::World;

const THREE_RECORDS: &str = r#"[
    {"id": 1, "name": "G1", "marker_type": 1, "coords": [0, -320]},
    {"id": 0, "name": "S1", "marker_type": 0, "coords": [64, -320]},
    {"id": 2, "name": "C1", "marker_type": 2, "coords": [128, -320]}
]"#;

fn entity_count(w: &World) -> usize {
    w.static_blocks.len() + w.level_blocks.len() + w.editor_blocks.len()
        + w.player.iter().count() + w.level_camera.iter().count()
        + usize::from(w.attempts_text) + w.editor_camera.iter().count()
        + usize::from(w.editor_ui)
}

#[test]
fn startup_world_has_one_permanent_ground() {
    let w = setup_world();
    assert_eq!(w.static_blocks.len(), 1);
    assert_eq!(w.static_blocks[0].kind, BlockKind::Ground);
    assert_eq!((w.static_blocks[0].x, w.static_blocks[0].y), (0, -320));
    assert_eq!(w.static_blocks[0].name.as_deref(), Some("Ground"));
    assert_eq!(entity_count(&w), 1);
}

#[test]
fn early_mode_selects_the_starting_variant() {
    assert_eq!(initial_game_state(1).variant, GameStateVariant::Level);
    assert_eq!(initial_game_state(2).variant, GameStateVariant::Editor);
    assert_eq!(initial_game_state(0).variant, GameStateVariant::Editor);
}

#[test]
fn opening_editor_twice_is_a_no_op() {
    let mut w = setup_world();
    let gs = GameState { variant: GameStateVariant::Editor };
    let mut es = EditorState::initial();

    editor_open(&mut w, &gs, &mut es);
    assert!(es.active);
    assert!(w.editor_camera.is_some());
    assert!(w.editor_ui);
    let count = entity_count(&w);

    editor_open(&mut w, &gs, &mut es);
    assert_eq!(entity_count(&w), count);
    assert!(es.active);
}

#[test]
fn opening_level_spawns_exactly_the_descriptor_set() {
    let mut w = setup_world();
    let gs = GameState { variant: GameStateVariant::Level };
    let mut ls = LevelState::initial();
    let before = entity_count(&w);

    let records = open_level_from_text(&mut w, &gs, &mut ls, THREE_RECORDS).expect("loads");
    assert_eq!(records.len(), 3);
    assert_eq!(w.level_blocks.len(), 3);
    assert!(w.player.is_some());
    assert!(w.level_camera.is_some());
    assert!(w.attempts_text);
    assert_eq!(ls.attempts, 0);
    assert!(ls.active);
    // One player, one camera, the readout, and one block per record.
    assert_eq!(entity_count(&w), before + 3 + 3);
}

#[test]
fn opening_level_twice_is_a_no_op() {
    let mut w = setup_world();
    let gs = GameState { variant: GameStateVariant::Level };
    let mut ls = LevelState::initial();
    open_level_from_text(&mut w, &gs, &mut ls, THREE_RECORDS).expect("loads");
    let count = entity_count(&w);
    open_level_from_text(&mut w, &gs, &mut ls, THREE_RECORDS).expect("parses again");
    assert_eq!(entity_count(&w), count);
}

#[test]
fn closing_level_despawns_exactly_what_it_spawned() {
    let mut w = setup_world();
    let mut ls = LevelState::initial();
    let open_gs = GameState { variant: GameStateVariant::Level };
    open_level_from_text(&mut w, &open_gs, &mut ls, THREE_RECORDS).expect("loads");
    ls.attempts = 5;

    let close_gs = GameState { variant: GameStateVariant::Editor };
    level_close(&mut w, &close_gs, &mut ls);
    assert!(w.player.is_none());
    assert!(w.level_camera.is_none());
    assert!(w.level_blocks.is_empty());
    assert!(!w.attempts_text);
    assert!(!ls.active);
    // Closing keeps the attempt count; only a fresh open resets it.
    assert_eq!(ls.attempts, 5);
    assert_eq!(entity_count(&w), 1);
}

#[test]
fn rejected_descriptor_leaves_world_untouched() {
    let mut w = setup_world();
    let gs = GameState { variant: GameStateVariant::Level };
    let mut ls = LevelState::initial();
    let r = open_level_from_text(&mut w, &gs, &mut ls, r#"[{"id": 7}]"#);
    assert_eq!(r.unwrap_err(), LevelError::MalformedRecord);
    assert!(w.player.is_none());
    assert!(w.level_blocks.is_empty());
    assert!(!ls.active);
    assert_eq!(entity_count(&w), 1);
}

#[test]
fn round_trip_editor_level_editor_restores_the_editor_set() {
    let mut w = setup_world();
    let mut es = EditorState::initial();
    let mut ls = LevelState::initial();

    // Boot into the editor.
    let editor_gs = GameState { variant: GameStateVariant::Editor };
    let no_records = Vec::new();
    mode_tick(&mut w, &editor_gs, &mut es, &mut ls, &no_records);
    assert!(es.active && !ls.active);
    let editor_count = entity_count(&w);
    let editor_camera = w.editor_camera;

    // Switch to a level session.
    let level_gs = GameState { variant: GameStateVariant::Level };
    let records = platformer_core::level::parse_level_descriptor(THREE_RECORDS).expect("loads");
    mode_tick(&mut w, &level_gs, &mut es, &mut ls, &records);
    assert!(!es.active && ls.active);
    assert!(w.editor_camera.is_none());
    assert!(!w.editor_ui);
    assert_eq!(w.level_blocks.len(), 3);

    // And back to the editor.
    mode_tick(&mut w, &editor_gs, &mut es, &mut ls, &no_records);
    assert!(es.active && !ls.active);
    assert!(w.player.is_none());
    assert!(w.level_camera.is_none());
    assert!(w.level_blocks.is_empty());
    assert!(!w.attempts_text);
    assert_eq!(entity_count(&w), editor_count);
    assert_eq!(w.editor_camera, editor_camera);
    assert!(w.editor_ui);
}

#[test]
fn closing_an_inactive_session_is_a_no_op() {
    let mut w = setup_world();
    let mut es = EditorState::initial();
    let mut ls = LevelState::initial();
    let gs = GameState { variant: GameStateVariant::Level };
    editor_close(&mut w, &gs, &mut es);
    assert_eq!(entity_count(&w), 1);
    let gs2 = GameState { variant: GameStateVariant::Editor };
    level_close(&mut w, &gs2, &mut ls);
    assert_eq!(entity_count(&w), 1);
}

#[test]
fn level_open_maps_tags_verbatim_coordinates() {
    let mut w = setup_world();
    let gs = GameState { variant: GameStateVariant::Level };
    let mut ls = LevelState::initial();
    let records = platformer_core::level::parse_level_descriptor(THREE_RECORDS).expect("parses");
    level_open(&mut w, &gs, &mut ls, &records);
    assert_eq!(w.level_blocks[0].kind, BlockKind::Ground);
    assert_eq!((w.level_blocks[0].x, w.level_blocks[0].y), (0, -320));
    assert_eq!(w.level_blocks[0].name.as_deref(), Some("G1"));
    assert_eq!(w.level_blocks[1].kind, BlockKind::Hazard);
    assert_eq!((w.level_blocks[1].x, w.level_blocks[1].y), (64, -320));
    assert_eq!(w.level_blocks[1].name.as_deref(), Some("S1"));
    assert_eq!(w.level_blocks[2].kind, BlockKind::Clipped);
    assert_eq!((w.level_blocks[2].x, w.level_blocks[2].y), (128, -320));
    assert_eq!(w.level_blocks[2].name.as_deref(), Some("C1"));
}
