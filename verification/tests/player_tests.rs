use platformer_core::player::{
    ceil_to_full_rotation, player_jump_animation, player_movement_jump, player_movement_linear,
    reset_player_jump, reset_player_state, update_attempts, LevelState, RespawnPlayerEvent,
};
use platformer_core::world::{Camera, Jump, PlayerEntity};

fn grounded_player() -> PlayerEntity {
    PlayerEntity {
        x: 0,
        y: -220,
        vel_x: 10,
        vel_y: 0,
        rotation: 0,
        jump: Jump { value: 900, is_jumping: false, rotation_value: 0 },
    }
}

#[test]
fn jump_edge_fires_once_from_grounded() {
    let mut p = grounded_player();
    player_movement_jump(&mut p, true, true);
    assert!(p.jump.is_jumping);
    assert_eq!(p.vel_y, 900);
    assert_eq!(p.vel_x, 0);

    // Holding the key while airborne must not re-trigger the impulse.
    p.vel_y = -123;
    player_movement_jump(&mut p, true, true);
    assert_eq!(p.vel_y, -123);
    assert!(p.jump.is_jumping);
}

#[test]
fn jump_needs_active_session_and_press() {
    let mut p = grounded_player();
    player_movement_jump(&mut p, false, true);
    assert!(!p.jump.is_jumping);
    player_movement_jump(&mut p, true, false);
    assert!(!p.jump.is_jumping);
}

#[test]
fn rotation_accumulates_while_airborne() {
    let mut p = grounded_player();
    p.jump.is_jumping = true;
    // 225 thousandths of a degree per millisecond, one second of flight.
    player_jump_animation(&mut p, 1000);
    assert_eq!(p.jump.rotation_value, -225_000);
    assert_eq!(p.rotation, -225_000);
    player_jump_animation(&mut p, 500);
    assert_eq!(p.jump.rotation_value, -337_500);
}

#[test]
fn rotation_frozen_while_grounded() {
    let mut p = grounded_player();
    p.rotation = -90_000;
    p.jump.rotation_value = -100_000;
    player_jump_animation(&mut p, 1000);
    assert_eq!(p.rotation, -90_000);
    assert_eq!(p.jump.rotation_value, -100_000);
}

#[test]
fn ceil_to_full_rotation_exact_rule() {
    // 233 degrees: 233 - 90 - (233 % 90 = 53) = 90.
    assert_eq!(ceil_to_full_rotation(233_000), 90_000);
    // Negative accumulation keeps the machine remainder's sign:
    // -233 - 90 - (-53) = -270.
    assert_eq!(ceil_to_full_rotation(-233_000), -270_000);
    assert_eq!(ceil_to_full_rotation(0), -90_000);
    assert_eq!(ceil_to_full_rotation(90_000), 0);
    // Sub-degree amounts truncate toward zero first.
    assert_eq!(ceil_to_full_rotation(233_999), 90_000);
    assert_eq!(ceil_to_full_rotation(-500), -90_000);
}

#[test]
fn landing_snaps_display_and_grounds_player() {
    let mut p = grounded_player();
    p.jump.is_jumping = true;
    p.jump.rotation_value = -233_000;
    p.rotation = -233_000;
    reset_player_jump(&mut p, true);
    assert!(!p.jump.is_jumping);
    assert_eq!(p.rotation, -270_000);
    // The raw accumulator keeps its value; only the display snaps.
    assert_eq!(p.jump.rotation_value, -233_000);
}

#[test]
fn no_contact_leaves_flight_alone() {
    let mut p = grounded_player();
    p.jump.is_jumping = true;
    p.rotation = -10_000;
    reset_player_jump(&mut p, false);
    assert!(p.jump.is_jumping);
    assert_eq!(p.rotation, -10_000);
}

#[test]
fn auto_run_moves_player_and_camera_together() {
    let mut p = grounded_player();
    let mut cam = Camera { x: -300, y: 0, scale: 1000 };
    // 450 units per second for 2 seconds.
    player_movement_linear(&mut p, &mut cam, 2000, true);
    assert_eq!(p.x, 900);
    assert_eq!(cam.x, -300 + 900);
    // Inactive session: nothing moves.
    player_movement_linear(&mut p, &mut cam, 2000, false);
    assert_eq!(p.x, 900);
    assert_eq!(cam.x, 600);
}

#[test]
fn respawn_resets_positions_but_not_rotation() {
    let mut p = grounded_player();
    p.x = 4242;
    p.y = 100;
    p.rotation = -90_000;
    let mut cam = Camera { x: 4542, y: 0, scale: 1000 };
    reset_player_state(&mut p, &mut cam, &Some(RespawnPlayerEvent));
    assert_eq!((p.x, p.y), (-600, -220));
    assert_eq!((cam.x, cam.y), (-300, 0));
    assert_eq!(p.rotation, -90_000);
}

#[test]
fn no_respawn_keeps_positions() {
    let mut p = grounded_player();
    p.x = 777;
    let mut cam = Camera { x: 1077, y: 0, scale: 1000 };
    reset_player_state(&mut p, &mut cam, &None);
    assert_eq!(p.x, 777);
    assert_eq!(cam.x, 1077);
}

#[test]
fn attempts_count_one_per_respawn_event() {
    let mut ls = LevelState { attempts: 0, active: true };
    update_attempts(&mut ls, &Some(RespawnPlayerEvent));
    assert_eq!(ls.attempts, 1);
    update_attempts(&mut ls, &None);
    assert_eq!(ls.attempts, 1);
    update_attempts(&mut ls, &Some(RespawnPlayerEvent));
    assert_eq!(ls.attempts, 2);
}
