use wokemon::{Foot, GaitTimer, HeldKeys, Move, MoveDirection, Player, Position, Viewport};

const RELEASED: HeldKeys = HeldKeys { up: false, down: false, left: false, right: false };
const VIEW: Viewport = Viewport { half_width: 400_000, half_height: 300_000 };

#[test]
fn a_new_player_rests_in_the_centre() {
    let player = Player::new(105, 150, 50_000);
    assert_eq!(
        player,
        Player {
            movement: Move { foot: None, direction: None },
            timer: GaitTimer { period: 105, elapsed: 0 },
            frame: 0,
            position: Position { x: 0, y: 0 },
            speed: 150,
            margin: 50_000,
        }
    );
}

#[test]
fn releasing_all_keys_resets_the_foot_at_any_phase_of_the_timer() {
    for elapsed in [0u64, 1, 52, 104, 105, 1_000, u64::MAX] {
        let mut player = Player::new(105, 150, 50_000);
        player.movement = Move { foot: Some(Foot::Right), direction: Some(MoveDirection::Up) };
        player.timer.elapsed = elapsed;
        player.frame = 6;
        player.position = Position { x: 7, y: 9 };
        player.tick(RELEASED, 16, VIEW);
        assert_eq!(player.movement, Move { foot: None, direction: None });
        assert_eq!(player.timer, GaitTimer { period: 105, elapsed });
        assert_eq!(player.frame, 2);
        assert_eq!(player.position, Position { x: 7, y: 9 });
    }
}

#[test]
fn a_tick_steers_animates_and_moves() {
    let mut player = Player::new(105, 150, 50_000);
    let keys = HeldKeys { right: true, up: true, ..RELEASED };
    player.tick(keys, 100, VIEW);
    assert_eq!(
        player,
        Player {
            movement: Move { foot: None, direction: Some(MoveDirection::Right) },
            timer: GaitTimer { period: 105, elapsed: 100 },
            frame: 0,
            position: Position { x: 15_000, y: 0 },
            speed: 150,
            margin: 50_000,
        }
    );
    player.tick(keys, 10, VIEW);
    assert_eq!(
        player,
        Player {
            movement: Move { foot: Some(Foot::Right), direction: Some(MoveDirection::Right) },
            timer: GaitTimer { period: 105, elapsed: 5 },
            frame: 0,
            position: Position { x: 16_500, y: 0 },
            speed: 150,
            margin: 50_000,
        }
    );
    player.tick(keys, 100, VIEW);
    assert_eq!(player.movement.foot, Some(Foot::Left));
    assert_eq!(player.frame, 4);
    assert_eq!(player.timer.elapsed, 0);
    assert_eq!(player.position, Position { x: 31_500, y: 0 });
    player.tick(keys, 105, VIEW);
    assert_eq!(player.movement.foot, None);
    assert_eq!(player.frame, 12);
    assert_eq!(player.position, Position { x: 47_250, y: 0 });
}

#[test]
fn turning_keeps_the_foot_and_takes_the_new_direction_at_once() {
    let mut player = Player::new(100, 1, 0);
    player.tick(HeldKeys { down: true, ..RELEASED }, 100, VIEW);
    assert_eq!(player.movement.foot, Some(Foot::Right));
    assert_eq!(player.frame, 1);
    player.tick(HeldKeys { left: true, down: true, ..RELEASED }, 100, VIEW);
    assert_eq!(player.movement, Move { foot: Some(Foot::Left), direction: Some(MoveDirection::Left) });
    assert_eq!(player.frame, 15);
    assert_eq!(player.position, Position { x: -100, y: -100 });
}

#[test]
fn walking_then_stopping_rests_the_frame_over_the_following_ticks() {
    let mut player = Player::new(100, 1, 0);
    let keys = HeldKeys { up: true, ..RELEASED };
    player.tick(keys, 100, VIEW);
    player.tick(keys, 100, VIEW);
    assert_eq!(player.frame, 6);
    assert_eq!(player.movement.foot, Some(Foot::Left));
    player.tick(RELEASED, 100, VIEW);
    assert_eq!(player.frame, 2);
    assert_eq!(player.movement, Move { foot: None, direction: None });
    assert_eq!(player.timer.elapsed, 0);
    player.tick(RELEASED, 100, VIEW);
    assert_eq!(player.frame, 2);
    player.tick(keys, 150, VIEW);
    assert_eq!(player.frame, 2);
    assert_eq!(player.movement.foot, Some(Foot::Right));
    assert_eq!(player.timer.elapsed, 50);
}

#[test]
fn stopping_on_a_left_foot_frame_takes_three_ticks_to_rest() {
    let mut player = Player::new(100, 1, 0);
    let keys = HeldKeys { right: true, ..RELEASED };
    player.tick(keys, 100, VIEW);
    player.tick(keys, 100, VIEW);
    player.tick(keys, 100, VIEW);
    assert_eq!(player.frame, 12);
    player.tick(RELEASED, 1, VIEW);
    assert_eq!(player.frame, 8);
    player.tick(RELEASED, 1, VIEW);
    assert_eq!(player.frame, 4);
    player.tick(RELEASED, 1, VIEW);
    assert_eq!(player.frame, 0);
    player.tick(RELEASED, 1, VIEW);
    assert_eq!(player.frame, 0);
}

#[test]
fn a_player_at_the_boundary_keeps_walking_in_place() {
    let mut player = Player::new(105, 5, 50_000);
    player.position = Position { x: 349_500, y: 0 };
    player.tick(HeldKeys { right: true, ..RELEASED }, 1000, VIEW);
    assert_eq!(player.position, Position { x: 349_500, y: 0 });
    assert_eq!(player.movement, Move { foot: Some(Foot::Right), direction: Some(MoveDirection::Right) });
    assert_eq!(player.timer.elapsed, 895);
}

#[test]
fn sustained_up_beside_the_right_boundary_moves_only_y() {
    let mut player = Player::new(105, 150, 50_000);
    player.position = Position { x: 349_999, y: -10 };
    let keys = HeldKeys { up: true, ..RELEASED };
    for step in 1i64..=20 {
        player.tick(keys, 16, VIEW);
        assert_eq!(player.position, Position { x: 349_999, y: -10 + 2_400 * step });
    }
}

#[test]
fn the_viewport_is_read_afresh_on_every_tick() {
    let mut player = Player::new(105, 1, 0);
    let keys = HeldKeys { right: true, ..RELEASED };
    let narrow = Viewport { half_width: 100, half_height: 100 };
    player.tick(keys, 99, narrow);
    assert_eq!(player.position.x, 99);
    player.tick(keys, 1, narrow);
    assert_eq!(player.position.x, 99);
    player.tick(keys, 1, VIEW);
    assert_eq!(player.position.x, 100);
}

#[test]
fn a_player_inside_the_viewport_stays_inside() {
    let mut player = Player::new(7, 13, 10);
    let view = Viewport { half_width: 500, half_height: 300 };
    let pattern = [
        HeldKeys { right: true, ..RELEASED },
        HeldKeys { up: true, ..RELEASED },
        HeldKeys { right: true, up: true, ..RELEASED },
        HeldKeys { down: true, ..RELEASED },
        HeldKeys { left: true, ..RELEASED },
        RELEASED,
    ];
    for round in 0usize..600 {
        player.tick(pattern[(round / 40) % 6], (round % 5) as u64, view);
        assert!(player.position.x.abs() < 490);
        assert!(player.position.y.abs() < 290);
        assert!(player.frame < 16);
    }
}

#[test]
fn after_a_tick_no_foot_leads_without_a_direction() {
    let mut player = Player::new(105, 150, 50_000);
    player.movement = Move { foot: Some(Foot::Left), direction: None };
    player.tick(RELEASED, 105, VIEW);
    assert_eq!(player.movement, Move { foot: None, direction: None });
    player.movement = Move { foot: Some(Foot::Left), direction: None };
    player.tick(HeldKeys { left: true, ..RELEASED }, 105, VIEW);
    assert_eq!(player.movement, Move { foot: None, direction: Some(MoveDirection::Left) });
    assert_eq!(player.frame, 7);
}
