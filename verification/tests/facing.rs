use roguelike_core::direction::Direction;
use roguelike_core::facing::Facing;
use roguelike_core::timer::TimerMode;

#[test]
fn new_facing_keeps_its_direction() {
    let f = Facing::new(Direction::Up, 1_500_000).expect("a positive period");
    assert_eq!(f.direction(), Direction::Up);
    assert_eq!(f.timer().duration(), 1_500_000);
    assert_eq!(f.timer().elapsed(), 0);
    assert_eq!(f.timer().mode(), TimerMode::Repeating);
}

#[test]
fn zero_period_is_refused() {
    assert_eq!(Facing::new(Direction::Down, 0), None);
}

#[test]
fn facing_turns_when_the_period_has_passed() {
    let mut f = Facing::new(Direction::Down, 1_500_000).expect("a positive period");
    for _ in 0..14 {
        assert!(!f.advance(100_000));
        assert_eq!(f.direction(), Direction::Down);
    }
    assert!(f.advance(100_000));
    assert_eq!(f.direction(), Direction::Left);
    assert_eq!(f.timer().elapsed(), 0);
    assert!(!f.advance(100_000));
    assert_eq!(f.direction(), Direction::Left);
}

#[test]
fn four_fires_from_down_return_to_down() {
    let mut f = Facing::new(Direction::Down, 10).expect("a positive period");
    let mut visited = Vec::new();
    for _ in 0..4 {
        assert!(f.advance(10));
        visited.push(f.direction());
    }
    assert_eq!(
        visited,
        vec![Direction::Left, Direction::Up, Direction::Right, Direction::Down]
    );
}

#[test]
fn long_frame_turns_once() {
    let mut f = Facing::new(Direction::Down, 10).expect("a positive period");
    assert!(f.advance(35));
    assert_eq!(f.direction(), Direction::Left);
    assert_eq!(f.timer().elapsed(), 5);
}
