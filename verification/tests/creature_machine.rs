use desk_creature::creature::ClickOutcome;
use desk_creature::creature::Creature;
use desk_creature::creature::CreatureState;
use desk_creature::ext_window::ExtWindowInfo;
use desk_creature::hiding::Facing;
use desk_creature::image_asset::ImageAsset;
use desk_creature::util::RectI;
use desk_creature::util::Vec2I;

fn mk_window() -> ExtWindowInfo {
    ExtWindowInfo {
        hwnd: 7,
        window_name: String::from("editor"),
        img: ImageAsset { data: Vec::new(), dims: Vec2I::new(0, 0) },
        rect: RectI { pos: Vec2I::new(300, 400), dim: Vec2I::new(640, 480) },
    }
}

fn hiding_creature(peek: bool, peek_end_t: u64) -> Creature {
    let mut c = Creature::new(Vec2I::new(100, 100), 0);
    c.state = CreatureState::Hiding {
        target_window: mk_window(),
        pos: Vec2I::new(5, 6),
        facing: Facing::Left,
        peek,
        peek_end_t,
    };
    c
}

#[test]
fn new_creature_idles_at_center() {
    let c = Creature::new(Vec2I::new(100, 100), 40);
    assert_eq!(c.catch_count, 0);
    assert_eq!(c.message_state, 0);
    assert_eq!(c.last_pos, Vec2I::new(100, 100));
    match &c.state {
        CreatureState::Idle { pos, arms_raised, try_talk_at } => {
            assert_eq!(*pos, Some(Vec2I::new(100, 100)));
            assert!(*arms_raised);
            assert_eq!(*try_talk_at, 1040);
        }
        other => panic!("expected Idle, got {:?}", other),
    }
}

#[test]
fn tick_idempotent_for_idle_and_talking() {
    // Idle whose talk timer fires: the second tick at the same time is a no-op.
    let mut c = Creature::new(Vec2I::new(100, 100), 0);
    c.update(1001);
    assert!(matches!(c.state, CreatureState::Talking { .. }));
    let snap = format!("{:?}", c);
    c.update(1001);
    assert_eq!(snap, format!("{:?}", c));
    // Talking that expires: second tick at the same time is a no-op.
    c.update(4500);
    assert!(matches!(c.state, CreatureState::Idle { .. }));
    let snap = format!("{:?}", c);
    c.update(4500);
    assert_eq!(snap, format!("{:?}", c));
}

#[test]
fn tick_idempotent_for_hiding_and_before_timers() {
    // A tick before any timer fires changes nothing at all.
    let mut c = Creature::new(Vec2I::new(100, 100), 0);
    let snap = format!("{:?}", c);
    c.update(900);
    assert_eq!(snap, format!("{:?}", c));
    // A due peek toggle reschedules into the future: second tick is a no-op.
    let mut h = hiding_creature(false, 1000);
    h.update(1500);
    match &h.state {
        CreatureState::Hiding { peek, peek_end_t, .. } => {
            assert!(*peek);
            assert!(1750 <= *peek_end_t && *peek_end_t <= 2250);
        }
        other => panic!("expected Hiding, got {:?}", other),
    }
    let snap = format!("{:?}", h);
    h.update(1500);
    assert_eq!(snap, format!("{:?}", h));
}

#[test]
fn peek_toggle_intervals() {
    // toggling to hidden uses the long interval
    let mut h = hiding_creature(true, 1000);
    h.update(2000);
    match &h.state {
        CreatureState::Hiding { peek, peek_end_t, .. } => {
            assert!(!*peek);
            assert!(4000 <= *peek_end_t && *peek_end_t <= 12000);
        }
        other => panic!("expected Hiding, got {:?}", other),
    }
}

#[test]
fn click_scenario_hide_then_jump_then_hiding() {
    let mut c = Creature::new(Vec2I::new(100, 100), 0);
    assert_eq!(c.click(10), ClickOutcome::HideRequest);
    c.hide_in(10, mk_window(), Vec2I::new(5, 6), Facing::Right);
    match &c.state {
        CreatureState::Jumping { from, to, t_begin, duration, following_state } => {
            assert_eq!(*from, Some(Vec2I::new(100, 100)));
            assert_eq!(*to, Vec2I::new(100, -100));
            assert_eq!(*t_begin, 10);
            assert_eq!(*duration, 800);
            match &**following_state {
                CreatureState::Hiding { pos, facing, peek, peek_end_t, .. } => {
                    assert_eq!(*pos, Vec2I::new(5, 6));
                    assert_eq!(*facing, Facing::Right);
                    assert!(!*peek);
                    assert!(5010 <= *peek_end_t && *peek_end_t <= 10010);
                }
                other => panic!("expected Hiding, got {:?}", other),
            }
        }
        other => panic!("expected Jumping, got {:?}", other),
    }
    // clicks mid-jump are ignored
    assert_eq!(c.click(400), ClickOutcome::Ignored);
    c.update(811);
    assert!(matches!(c.state, CreatureState::Hiding { .. }));
}

#[test]
fn click_scenario_caught_while_peeking() {
    let mut c = hiding_creature(true, 5000);
    assert_eq!(c.click(1000), ClickOutcome::Caught);
    assert_eq!(c.catch_count, 1);
    assert_eq!(c.message_state, 0);
    match &c.state {
        CreatureState::Shocked { from, to, t_begin, following_state } => {
            assert_eq!(*from, Vec2I::new(5, 6));
            assert_eq!(*to, Facing::Left);
            assert_eq!(*t_begin, 1000);
            match &**following_state {
                CreatureState::Jumping { from, to, t_begin, duration, following_state } => {
                    assert_eq!(*from, None);
                    assert_eq!(*to, Vec2I::new(100, 100));
                    assert_eq!(*t_begin, 1500);
                    assert_eq!(*duration, 500);
                    match &**following_state {
                        CreatureState::Idle { pos, arms_raised, try_talk_at } => {
                            assert_eq!(*pos, None);
                            assert!(!*arms_raised);
                            // 300ms after the home jump completes
                            assert_eq!(*try_talk_at, 2300);
                        }
                        other => panic!("expected Idle, got {:?}", other),
                    }
                }
                other => panic!("expected Jumping, got {:?}", other),
            }
        }
        other => panic!("expected Shocked, got {:?}", other),
    }
    // the shock expires into the jump home, which expires into Idle
    c.update(1501);
    assert!(matches!(c.state, CreatureState::Jumping { .. }));
    c.update(2001);
    assert!(matches!(c.state, CreatureState::Idle { .. }));
}

#[test]
fn click_ignored_while_hidden_without_peek() {
    let mut c = hiding_creature(false, 5000);
    let snap = format!("{:?}", c);
    assert_eq!(c.click(1000), ClickOutcome::Ignored);
    assert_eq!(snap, format!("{:?}", c));
}

#[test]
fn chains_settle_after_their_durations() {
    // a single late tick settles the whole due chain -- shock, jump home,
    // the uncovered idle talk timer -- and a second tick at the same
    // timestamp is a no-op
    let mut c = hiding_creature(true, 5000);
    c.click(1000);
    c.update(9999);
    assert!(matches!(c.state, CreatureState::Talking { .. }));
    let snap = format!("{:?}", c);
    c.update(9999);
    assert_eq!(snap, format!("{:?}", c));
}

#[test]
fn talk_message_sequence_from_fresh_creature() {
    let mut c = Creature::new(Vec2I::new(100, 100), 0);
    let mut now: u64 = 1001;
    let mut seen = Vec::new();
    for _ in 0..3 {
        c.update(now);
        if let CreatureState::Talking { id, .. } = &c.state {
            seen.push(*id);
        } else {
            panic!("expected Talking, got {:?}", c.state);
        }
        // let the talk expire, then move far enough ahead that the random
        // retry delay (at most 6 seconds) has certainly passed
        now += 3001;
        c.update(now);
        assert!(matches!(c.state, CreatureState::Idle { .. }));
        now += 20000;
    }
    assert_eq!(seen, vec![2, 1, 1]);
}

#[test]
fn talk_message_sequence_after_catch() {
    let mut c = Creature::new(Vec2I::new(100, 100), 0);
    c.update(1001);
    assert!(matches!(c.state, CreatureState::Talking { id: 2, .. }));
    // catch the creature: put it in a peeking hide and click
    c.state = CreatureState::Hiding {
        target_window: mk_window(),
        pos: Vec2I::new(5, 6),
        facing: Facing::Up,
        peek: true,
        peek_end_t: 9000,
    };
    assert_eq!(c.click(5000), ClickOutcome::Caught);
    assert_eq!(c.catch_count, 1);
    // settle the chain, then let the idle timer fire
    c.update(6001);
    c.update(6001);
    assert!(matches!(c.state, CreatureState::Idle { .. }));
    c.update(30000);
    assert!(matches!(c.state, CreatureState::Talking { id: 3, .. }));
    c.update(33002);
    c.update(60000);
    assert!(matches!(c.state, CreatureState::Talking { id: 1, .. }));
}

#[test]
fn idle_catch_count_only_while_idle() {
    let mut c = Creature::new(Vec2I::new(100, 100), 0);
    assert_eq!(c.idle_catch_count(), Some(0));
    c.update(1001);
    assert_eq!(c.idle_catch_count(), None);
}
