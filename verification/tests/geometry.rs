use desk_creature::hiding::Facing;
use desk_creature::render::Anchor;
use desk_creature::util::DeltaTimer;
use desk_creature::util::RectI;
use desk_creature::util::Vec2I;

#[test]
fn vec2i_componentwise_ops() {
    let a = Vec2I::new(3, -4);
    let b = Vec2I::new(10, 7);
    assert_eq!(a.add(b), Vec2I { x: 13, y: 3 });
    assert_eq!(a.sub(b), Vec2I { x: -7, y: -11 });
    assert_eq!(a.mul(3), Vec2I { x: 9, y: -12 });
    assert_eq!(Vec2I::new(9, 7).div(2), Vec2I { x: 4, y: 3 });
}

#[test]
fn vec2i_division_truncates_toward_zero() {
    assert_eq!(Vec2I::new(-9, 9).div(2), Vec2I { x: -4, y: 4 });
    assert_eq!(Vec2I::new(-9, 9).div(-2), Vec2I { x: 4, y: -4 });
    assert_eq!(Vec2I::new(7, -7).div(-3), Vec2I { x: -2, y: 2 });
    assert_eq!(Vec2I::new(i32::MIN, i32::MAX).div(1), Vec2I { x: i32::MIN, y: i32::MAX });
    assert_eq!(Vec2I::new(i32::MIN + 1, 5).div(-1), Vec2I { x: i32::MAX, y: -5 });
}

#[test]
fn rect_extend_lr_grows_both_sides() {
    let mut r = RectI { pos: Vec2I::new(10, 20), dim: Vec2I::new(30, 40) };
    r.extend_lr(5);
    assert_eq!(r, RectI { pos: Vec2I::new(5, 20), dim: Vec2I::new(40, 40) });
    r.extend_lr(-2);
    assert_eq!(r, RectI { pos: Vec2I::new(7, 20), dim: Vec2I::new(36, 40) });
}

#[test]
fn rect_extend_up_keeps_bottom_edge() {
    let mut r = RectI { pos: Vec2I::new(10, 20), dim: Vec2I::new(30, 40) };
    r.extend_up(6);
    assert_eq!(r, RectI { pos: Vec2I::new(10, 14), dim: Vec2I::new(30, 46) });
}

#[test]
fn delta_timer_reports_clamped_steps() {
    let mut t = DeltaTimer::new(100);
    assert_eq!(t.tick(130), 30);
    assert_eq!(t.tick(130), 0);
    // a clock that jumps backwards yields a zero step, not an error
    assert_eq!(t.tick(50), 0);
    assert_eq!(t.tick(60), 10);
}

#[test]
fn anchor_apply_offsets() {
    let pos = Vec2I::new(100, 200);
    let dim = Vec2I::new(40, 60);
    assert_eq!(Anchor::TopLeft.apply(pos, dim), Vec2I::new(100, 200));
    assert_eq!(Anchor::BottomCenter.apply(pos, dim), Vec2I::new(80, 140));
    assert_eq!(Anchor::Center.apply(pos, dim), Vec2I::new(80, 170));
}

#[test]
fn facing_classification() {
    assert!(Facing::Left.is_horizontal());
    assert!(Facing::Right.is_horizontal());
    assert!(!Facing::Up.is_horizontal());
    assert!(Facing::Up.is_vertical());
    assert!(Facing::Down.is_vertical());
    assert!(!Facing::Left.is_vertical());
    assert!(Facing::Up.is_up());
    assert!(Facing::Down.is_down());
    assert!(Facing::Left.is_left());
    assert!(Facing::Right.is_right());
    assert!(!Facing::Right.is_left());
}
