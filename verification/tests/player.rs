use falling::config::{Playfield, PlayerSetup};
use falling::geometry::Position;
use falling::player::{Direction, Key, Player, Transition};

const FIELD: Playfield = Playfield { width: 800_000_000, height: 700_000_000 };
const SETUP: PlayerSetup = PlayerSetup { size: 30_000_000, speed: 500, margin: 10_000_000 };

fn fresh() -> Player {
    Player::new(FIELD, SETUP)
}

#[test]
fn new_player_is_centred_above_the_bottom() {
    let player = fresh();
    assert_eq!(player.position, Position { x: 385_000_000, y: 660_000_000 });
    assert_eq!(player.direction, Direction::Still);
    assert_eq!(player.size, 30_000_000);
    assert_eq!(player.speed, 500);
    assert!(!player.is_left_pressed);
    assert!(!player.is_right_pressed);
    assert!(!player.is_dead);
}

#[test]
fn centre_uses_whole_halves() {
    let player = Player::new(
        Playfield { width: 11, height: 20 },
        PlayerSetup { size: 3, speed: 1, margin: 0 },
    );
    // 11 / 2 - 3 / 2 = 5 - 1
    assert_eq!(player.position, Position { x: 4, y: 17 });
}

#[test]
fn pressing_sets_flag_and_direction() {
    let mut player = fresh();
    player.handle_button(Key::Left, Transition::Press);
    assert!(player.is_left_pressed);
    assert_eq!(player.direction, Direction::Left);
    player.handle_button(Key::Right, Transition::Press);
    assert!(player.is_right_pressed);
    assert!(player.is_left_pressed);
    assert_eq!(player.direction, Direction::Right);
}

#[test]
fn releasing_right_while_both_held_yields_left() {
    let mut player = fresh();
    player.handle_button(Key::Left, Transition::Press);
    player.handle_button(Key::Right, Transition::Press);
    player.handle_button(Key::Right, Transition::Release);
    assert_eq!(player.direction, Direction::Left);
    assert!(player.is_left_pressed);
    assert!(!player.is_right_pressed);
}

#[test]
fn releasing_left_while_right_held_yields_right() {
    let mut player = fresh();
    player.handle_button(Key::Right, Transition::Press);
    player.handle_button(Key::Left, Transition::Press);
    player.handle_button(Key::Left, Transition::Release);
    assert_eq!(player.direction, Direction::Right);
}

#[test]
fn releasing_both_yields_still() {
    let mut player = fresh();
    player.handle_button(Key::Left, Transition::Press);
    player.handle_button(Key::Right, Transition::Press);
    player.handle_button(Key::Left, Transition::Release);
    player.handle_button(Key::Right, Transition::Release);
    assert_eq!(player.direction, Direction::Still);
    let mut other = fresh();
    other.handle_button(Key::Left, Transition::Press);
    other.handle_button(Key::Right, Transition::Press);
    other.handle_button(Key::Right, Transition::Release);
    other.handle_button(Key::Left, Transition::Release);
    assert_eq!(other.direction, Direction::Still);
}

#[test]
fn releasing_a_key_that_is_not_held_keeps_the_other_side() {
    let mut player = fresh();
    player.handle_button(Key::Right, Transition::Press);
    player.handle_button(Key::Left, Transition::Release);
    assert_eq!(player.direction, Direction::Right);
}

#[test]
fn other_keys_change_nothing() {
    let mut player = fresh();
    player.handle_button(Key::Left, Transition::Press);
    let before = player;
    player.handle_button(Key::Other, Transition::Press);
    player.handle_button(Key::Reset, Transition::Press);
    player.handle_button(Key::Other, Transition::Release);
    assert_eq!(player, before);
}

#[test]
fn moving_right_adds_speed_times_dt() {
    let mut player = fresh();
    player.handle_button(Key::Right, Transition::Press);
    player.advance(8_333, FIELD.width);
    assert_eq!(player.position.x, 385_000_000 + 500 * 8_333);
    assert_eq!(player.position.y, 660_000_000);
}

#[test]
fn moving_left_subtracts_speed_times_dt() {
    let mut player = fresh();
    player.handle_button(Key::Left, Transition::Press);
    player.advance(10_000, FIELD.width);
    assert_eq!(player.position.x, 385_000_000 - 5_000_000);
}

#[test]
fn standing_still_does_not_move() {
    let mut player = fresh();
    player.advance(1_000_000, FIELD.width);
    assert_eq!(player.position.x, 385_000_000);
}

#[test]
fn reaching_the_right_wall_exactly_does_not_wrap() {
    let mut player = fresh();
    player.handle_button(Key::Right, Transition::Press);
    // 385 + 385 = 770 = 800 - 30
    player.advance(770_000, FIELD.width);
    assert_eq!(player.position.x, 770_000_000);
}

#[test]
fn passing_the_right_wall_wraps_to_zero() {
    let mut player = fresh();
    player.handle_button(Key::Right, Transition::Press);
    player.advance(770_001, FIELD.width);
    assert_eq!(player.position.x, 0);
}

#[test]
fn reaching_the_left_wall_exactly_does_not_wrap() {
    let mut player = fresh();
    player.handle_button(Key::Left, Transition::Press);
    player.advance(770_000, FIELD.width);
    assert_eq!(player.position.x, 0);
}

#[test]
fn passing_the_left_wall_wraps_to_the_right_wall() {
    let mut player = fresh();
    player.handle_button(Key::Left, Transition::Press);
    player.advance(770_001, FIELD.width);
    assert_eq!(player.position.x, 770_000_000);
}

#[test]
fn right_key_held_over_many_steps_wraps_rather_than_stops() {
    let mut player = fresh();
    player.handle_button(Key::Right, Transition::Press);
    let mut wrapped_at = None;
    for step in 0..200 {
        let before = player.position.x;
        player.advance(8_333, FIELD.width);
        assert!(0 <= player.position.x && player.position.x <= 770_000_000);
        if player.position.x < before {
            wrapped_at = Some(step);
            assert_eq!(player.position.x, 0);
            break;
        }
    }
    // 385_000_000 / (500 * 8_333) = 92.4: the 93rd step passes the wall.
    assert_eq!(wrapped_at, Some(92));
}

#[test]
fn negative_or_zero_dt_does_not_move_the_player() {
    let mut player = fresh();
    player.handle_button(Key::Right, Transition::Press);
    player.advance(0, FIELD.width);
    assert_eq!(player.position.x, 385_000_000);
    player.advance(-5_000, FIELD.width);
    assert_eq!(player.position.x, 385_000_000);
    player.advance(i64::MIN, FIELD.width);
    assert_eq!(player.position.x, 385_000_000);
}

#[test]
fn huge_dt_wraps_without_overflow() {
    let mut player = fresh();
    player.handle_button(Key::Right, Transition::Press);
    player.advance(i64::MAX, FIELD.width);
    assert_eq!(player.position.x, 0);
    player.handle_button(Key::Left, Transition::Press);
    player.advance(i64::MAX, FIELD.width);
    assert_eq!(player.position.x, 770_000_000);
}

#[test]
fn mark_collided_is_idempotent() {
    let mut player = fresh();
    player.mark_collided();
    assert!(player.is_dead);
    let once = player;
    player.mark_collided();
    assert_eq!(player, once);
}

#[test]
fn move_right_ignores_the_direction() {
    let mut player = fresh();
    player.move_right(10_000, FIELD.width);
    assert_eq!(player.position.x, 390_000_000);
    assert_eq!(player.direction, Direction::Still);
    player.handle_button(Key::Left, Transition::Press);
    player.move_right(10_000, FIELD.width);
    assert_eq!(player.position.x, 395_000_000);
    assert_eq!(player.direction, Direction::Left);
}

#[test]
fn move_right_wraps_to_the_left_wall_and_never_clamps() {
    let mut player = fresh();
    player.move_right(770_000, FIELD.width);
    assert_eq!(player.position.x, 770_000_000);
    player.move_right(1, FIELD.width);
    assert_eq!(player.position.x, 0);
    let mut other = fresh();
    other.move_right(770_001, FIELD.width);
    assert_eq!(other.position.x, 0);
    assert_eq!(other.position.y, 660_000_000);
}

#[test]
fn move_left_wraps_to_the_right_wall_and_never_clamps() {
    let mut player = fresh();
    player.move_left(770_000, FIELD.width);
    assert_eq!(player.position.x, 0);
    player.move_left(1, FIELD.width);
    assert_eq!(player.position.x, 770_000_000);
    let mut other = fresh();
    other.move_left(10, FIELD.width);
    assert_eq!(other.position.x, 385_000_000 - 5_000);
}

#[test]
fn moves_take_no_step_for_a_negative_dt() {
    let mut player = fresh();
    player.move_right(-1, FIELD.width);
    player.move_left(-1, FIELD.width);
    player.move_right(0, FIELD.width);
    assert_eq!(player, fresh());
}

#[test]
fn reset_direction_follows_the_held_keys() {
    let mut player = fresh();
    player.is_left_pressed = true;
    player.is_right_pressed = true;
    player.direction = Direction::Right;
    let before = player;
    player.reset_direction();
    assert_eq!(player.direction, Direction::Left);
    assert_eq!(player, Player { direction: Direction::Left, ..before });
    player.is_left_pressed = false;
    player.reset_direction();
    assert_eq!(player.direction, Direction::Right);
    player.is_right_pressed = false;
    player.reset_direction();
    assert_eq!(player.direction, Direction::Still);
    assert_eq!(player.position, before.position);
}

#[test]
fn press_and_release_functions_match_the_key_events() {
    let mut by_call = fresh();
    let mut by_event = fresh();
    by_call.left_pressed();
    by_event.handle_button(Key::Left, Transition::Press);
    assert_eq!(by_call, by_event);
    by_call.right_pressed();
    by_event.handle_button(Key::Right, Transition::Press);
    assert_eq!(by_call, by_event);
    by_call.right_released();
    by_event.handle_button(Key::Right, Transition::Release);
    assert_eq!(by_call, by_event);
    assert_eq!(by_call.direction, Direction::Left);
    by_call.left_released();
    by_event.handle_button(Key::Left, Transition::Release);
    assert_eq!(by_call, by_event);
    assert_eq!(by_call.direction, Direction::Still);
}
