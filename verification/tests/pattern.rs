use falling::config::{Playfield, Wave};
use falling::faller::Faller;
use falling::geometry::Position;
use falling::pattern::{Pattern, Step};

const FIELD: Playfield = Playfield { width: 100, height: 200 };
const WAVE: Wave = Wave { size: 30, velocity: 7, gap: 40 };

fn drain(mut pattern: Pattern) -> Vec<Step> {
    let mut steps = Vec::new();
    while let Some(step) = pattern.next_step() {
        steps.push(step);
    }
    steps
}

fn spawned(step: &Step) -> Vec<Faller> {
    match step {
        Step::Wait => panic!("expected a spawn step"),
        Step::Spawn(fallers) => fallers.clone(),
    }
}

fn twin_at(x: i64) -> Vec<Faller> {
    vec![
        Faller { position: Position { x, y: -30 }, velocity: 7, size: 30, is_dead: false },
        Faller { position: Position { x: x + 40, y: -30 }, velocity: 7, size: 30, is_dead: false },
    ]
}

#[test]
fn wave_has_two_steps_per_column() {
    // 100 * 2 / 30 = 6 columns
    let pattern = Pattern::generate(WAVE, FIELD);
    assert_eq!(pattern.remaining(), 12);
}

#[test]
fn wave_alternates_spawn_and_wait() {
    let steps = drain(Pattern::generate(WAVE, FIELD));
    assert_eq!(steps.len(), 12);
    for (index, step) in steps.iter().enumerate() {
        match step {
            Step::Spawn(fallers) => {
                assert_eq!(index % 2, 0);
                assert_eq!(fallers.len(), 2);
            }
            Step::Wait => assert_eq!(index % 2, 1),
        }
    }
}

#[test]
fn wave_sweeps_from_the_left_wall_in_half_sizes() {
    let steps = drain(Pattern::generate(WAVE, FIELD));
    let columns: Vec<i64> = vec![0, 15, 30, 45, 60, 75];
    for (column, x) in columns.iter().enumerate() {
        assert_eq!(spawned(&steps[2 * column]), twin_at(*x));
    }
}

#[test]
fn odd_sizes_round_the_column_down() {
    let wave = Wave { size: 7, velocity: 1, gap: 0 };
    let field = Playfield { width: 20, height: 20 };
    // 20 * 2 / 7 = 5 columns at 0, 3, 7, 10, 14
    let steps = drain(Pattern::generate(wave, field));
    assert_eq!(steps.len(), 10);
    let places: Vec<i64> = (0..5).map(|column| spawned(&steps[2 * column])[0].position.x).collect();
    assert_eq!(places, vec![0, 3, 7, 10, 14]);
    let twins: Vec<i64> = (0..5).map(|column| spawned(&steps[2 * column])[1].position.x).collect();
    assert_eq!(twins, places);
}

#[test]
fn two_generations_are_identical() {
    let first = drain(Pattern::generate(WAVE, FIELD));
    let second = drain(Pattern::generate(WAVE, FIELD));
    assert_eq!(first.len(), second.len());
    for (a, b) in first.iter().zip(second.iter()) {
        match (a, b) {
            (Step::Wait, Step::Wait) => {}
            (Step::Spawn(x), Step::Spawn(y)) => assert_eq!(x, y),
            _ => panic!("steps differ in kind"),
        }
    }
}

#[test]
fn next_step_takes_one_step_at_a_time() {
    let mut pattern = Pattern::generate(WAVE, FIELD);
    assert_eq!(spawned(&pattern.next_step().unwrap()), twin_at(0));
    assert_eq!(pattern.remaining(), 11);
    assert!(matches!(pattern.next_step(), Some(Step::Wait)));
    assert_eq!(pattern.remaining(), 10);
    assert_eq!(spawned(&pattern.next_step().unwrap()), twin_at(15));
}

#[test]
fn exhausted_pattern_gives_nothing() {
    let mut pattern = Pattern::generate(WAVE, FIELD);
    for _ in 0..12 {
        assert!(pattern.next_step().is_some());
    }
    assert_eq!(pattern.remaining(), 0);
    assert!(pattern.next_step().is_none());
    assert!(pattern.next_step().is_none());
}

#[test]
fn standard_wave_has_fifty_three_columns() {
    let wave = Wave { size: 30_000_000, velocity: 300, gap: 400_000_000 };
    let field = Playfield { width: 800_000_000, height: 700_000_000 };
    let steps = drain(Pattern::generate(wave, field));
    assert_eq!(steps.len(), 106);
    let last = spawned(&steps[104]);
    assert_eq!(last[0].position, Position { x: 780_000_000, y: -30_000_000 });
    assert_eq!(last[1].position, Position { x: 1_180_000_000, y: -30_000_000 });
}
