use falling::faller::Faller;
use falling::geometry::Position;

#[test]
fn entering_faller_sits_just_above_the_top_edge() {
    let faller = Faller::entering(120, 40, 7);
    assert_eq!(faller.position, Position { x: 120, y: -40 });
    assert_eq!(faller.size, 40);
    assert_eq!(faller.velocity, 7);
    assert!(!faller.is_dead);
}

#[test]
fn faller_falls_by_velocity_times_dt() {
    let mut faller = Faller::entering(5, 10, 300);
    faller.advance(8_333, 700_000_000);
    assert_eq!(faller.position, Position { x: 5, y: -10 + 300 * 8_333 });
    assert!(!faller.is_dead);
}

#[test]
fn faller_at_the_bottom_edge_is_still_alive() {
    let mut faller = Faller { position: Position { x: 0, y: 90 }, velocity: 10, size: 5, is_dead: false };
    faller.advance(1, 100);
    assert_eq!(faller.position.y, 100);
    assert!(!faller.is_dead);
}

#[test]
fn faller_past_the_bottom_edge_is_dead() {
    let mut faller = Faller { position: Position { x: 0, y: 90 }, velocity: 11, size: 5, is_dead: false };
    faller.advance(1, 100);
    assert_eq!(faller.position.y, 101);
    assert!(faller.is_dead);
}

#[test]
fn dead_faller_stays_dead() {
    let mut faller = Faller { position: Position { x: 0, y: 0 }, velocity: 1, size: 5, is_dead: true };
    faller.advance(1, 100);
    assert!(faller.is_dead);
    assert_eq!(faller.position.y, 1);
}

#[test]
fn negative_or_zero_dt_does_not_move_the_faller() {
    let mut faller = Faller::entering(0, 10, 300);
    faller.advance(0, 100);
    assert_eq!(faller.position.y, -10);
    faller.advance(-1_000, 100);
    assert_eq!(faller.position.y, -10);
    assert!(!faller.is_dead);
}

#[test]
fn faller_never_moves_sideways() {
    let mut faller = Faller::entering(77, 10, 300);
    for _ in 0..50 {
        faller.advance(1_000, 1_000_000_000);
        assert_eq!(faller.position.x, 77);
    }
}

#[test]
fn fall_stops_at_the_largest_coordinate() {
    let mut faller = Faller::entering(0, 10, i64::MAX);
    faller.advance(i64::MAX, 100);
    assert_eq!(faller.position.y, i64::MAX);
    assert!(faller.is_dead);
}

#[test]
fn fall_is_exact_up_to_the_largest_coordinate() {
    let mut faller = Faller { position: Position { x: 0, y: i64::MAX - 10 }, velocity: 5, size: 1, is_dead: false };
    faller.advance(2, i64::MAX);
    assert_eq!(faller.position.y, i64::MAX);
    assert!(!faller.is_dead);
    faller.advance(1, i64::MAX);
    assert_eq!(faller.position.y, i64::MAX);
    assert_eq!(faller.velocity, 5);
    assert_eq!(faller.size, 1);
}
