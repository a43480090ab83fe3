use roguelike::grid::GridVec;

#[test]
fn king_step_reduces_to_signs() {
    assert_eq!(GridVec::new(7, -3).king_step(), GridVec::new(1, -1));
    assert_eq!(GridVec::new(0, 5).king_step(), GridVec::new(0, 1));
    assert_eq!(GridVec::new(0, 0).king_step(), GridVec::new(0, 0));
}

#[test]
fn distances() {
    let a = GridVec::new(-2, 4);
    let b = GridVec::new(5, 1);
    assert_eq!(a.chebyshev_distance(b), 7);
    assert_eq!(b.chebyshev_distance(a), 7);
    assert_eq!(a.distance_squared(b), 58);
}

#[test]
fn sums_and_differences() {
    let a = GridVec::new(3, -4);
    let b = GridVec::new(-1, 10);
    assert_eq!(a.add(b), GridVec::new(2, 6));
    assert_eq!(a.sub(b), GridVec::new(4, -14));
}

#[test]
fn limits_are_noticed() {
    let edge = GridVec::new(i32::MAX, i32::MIN);
    assert!(!edge.can_add(GridVec::new(1, 0)));
    assert!(edge.can_add(GridVec::new(-1, 1)));
    assert!(!edge.can_sub(GridVec::new(0, 1)));
    assert!(edge.can_sub(GridVec::new(1, 0)));
    assert!(!edge.can_measure(GridVec::new(0, 0)));
    assert!(GridVec::new(0, i32::MIN + 1).can_measure(GridVec::new(0, 0)));
}
