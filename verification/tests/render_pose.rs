use desk_creature::creature::Creature;
use desk_creature::creature::CreatureState;
use desk_creature::ext_window::ExtWindowInfo;
use desk_creature::hiding::Facing;
use desk_creature::image_asset::ImageAsset;
use desk_creature::render::Anchor;
use desk_creature::render::RelativeTo;
use desk_creature::util::RectI;
use desk_creature::util::Vec2I;

fn sprite_dims() -> Vec<Vec2I> {
    vec![Vec2I::new(40, 40); 10]
}

fn text_dims_hidden() -> Vec<Vec2I> {
    // the hidden overlay frame is a tiny placeholder, far below the
    // visibility threshold
    let mut v = vec![Vec2I::new(50, 12); 4];
    v[0] = Vec2I::new(1, 1);
    v
}

fn mk_window() -> ExtWindowInfo {
    ExtWindowInfo {
        hwnd: 7,
        window_name: String::from("editor"),
        img: ImageAsset { data: Vec::new(), dims: Vec2I::new(0, 0) },
        rect: RectI { pos: Vec2I::new(300, 400), dim: Vec2I::new(640, 480) },
    }
}

#[test]
fn idle_pose_uses_stored_point_and_idle_frames() {
    let mut c = Creature::new(Vec2I::new(100, 100), 0);
    let pose = c.update_for_render(10, &sprite_dims(), &text_dims_hidden());
    assert_eq!(pose.pos, Vec2I::new(100, 100));
    assert_eq!(pose.sprite_tex, 1); // arms raised at start
    assert_eq!(pose.text_tex, 0);
    assert_eq!(pose.sprite_anchor, Anchor::Center);
    assert_eq!(pose.text_anchor, Anchor::BottomCenter);
    assert_eq!(pose.relative, RelativeTo::Screen);
    assert_eq!(c.last_pos, Vec2I::new(100, 100));
    // overlay frame 0 is not visible: bounds are exactly the centred sprite
    assert_eq!(pose.bounds, RectI { pos: Vec2I::new(80, 80), dim: Vec2I::new(40, 40) });
}

#[test]
fn talking_pose_mouth_phase_and_overlay_bounds() {
    let mut c = Creature::new(Vec2I::new(100, 100), 0);
    c.state = CreatureState::Talking {
        pos: Vec2I::new(100, 100),
        arms_raised: false,
        t_begin_talking: 0,
        duration: 3000,
        id: 1,
    };
    let pose = c.update_for_render(100, &sprite_dims(), &text_dims_hidden());
    assert_eq!(pose.sprite_tex, 0); // mouth closed
    assert_eq!(pose.text_tex, 1);
    // overlay frame 1 is 50x12: visible, so the rectangle widens by
    // (50-40)/2+5 = 10 per side and grows up by 40/10+12+5 = 21
    assert_eq!(pose.bounds, RectI { pos: Vec2I::new(70, 59), dim: Vec2I::new(60, 61) });
    // the overlay hangs 40*12/20 = 24 above the sprite position
    assert_eq!(pose.text_pos, Vec2I::new(100, 76));
    let pose = c.update_for_render(301, &sprite_dims(), &text_dims_hidden());
    assert_eq!(pose.sprite_tex, 2); // mouth open
    let pose = c.update_for_render(601, &sprite_dims(), &text_dims_hidden());
    assert_eq!(pose.sprite_tex, 0); // closed again after the cycle wraps
    let mut c2 = Creature::new(Vec2I::new(100, 100), 0);
    c2.state = CreatureState::Talking {
        pos: Vec2I::new(100, 100),
        arms_raised: true,
        t_begin_talking: 0,
        duration: 3000,
        id: 2,
    };
    let pose = c2.update_for_render(301, &sprite_dims(), &text_dims_hidden());
    assert_eq!(pose.sprite_tex, 3); // arms raised, mouth open
    assert_eq!(pose.text_tex, 2);
}

#[test]
fn narrow_overlay_never_shrinks_the_bounds() {
    // a visible overlay much narrower than the sprite: the horizontal
    // widening is clamped at zero, so the rectangle still contains the
    // sprite's centred rectangle
    let mut c = Creature::new(Vec2I::new(100, 100), 0);
    c.state = CreatureState::Talking {
        pos: Vec2I::new(100, 100),
        arms_raised: false,
        t_begin_talking: 0,
        duration: 3000,
        id: 1,
    };
    let mut narrow = vec![Vec2I::new(15, 12); 4];
    narrow[0] = Vec2I::new(1, 1);
    let pose = c.update_for_render(100, &sprite_dims(), &narrow);
    // widening clamped at zero; up-extension 40/10+12+5 = 21 still applies
    assert_eq!(pose.bounds, RectI { pos: Vec2I::new(80, 59), dim: Vec2I::new(40, 61) });
}

#[test]
fn hiding_pose_offsets_into_window_and_picks_peek_frame() {
    let mut c = Creature::new(Vec2I::new(100, 100), 0);
    c.state = CreatureState::Hiding {
        target_window: mk_window(),
        pos: Vec2I::new(5, 6),
        facing: Facing::Left,
        peek: false,
        peek_end_t: 9000,
    };
    let pose = c.update_for_render(10, &sprite_dims(), &text_dims_hidden());
    assert_eq!(pose.pos, Vec2I::new(305, 406));
    assert_eq!(pose.sprite_tex, 8); // fully hidden
    for (facing, tex) in [
        (Facing::Left, 5),
        (Facing::Right, 6),
        (Facing::Up, 7),
        (Facing::Down, 7),
    ] {
        c.state = CreatureState::Hiding {
            target_window: mk_window(),
            pos: Vec2I::new(5, 6),
            facing,
            peek: true,
            peek_end_t: 9000,
        };
        let pose = c.update_for_render(10, &sprite_dims(), &text_dims_hidden());
        assert_eq!(pose.sprite_tex, tex);
    }
}

#[test]
fn jump_pose_follows_the_arc() {
    let mut c = Creature::new(Vec2I::new(100, 100), 0);
    c.state = CreatureState::Jumping {
        from: Some(Vec2I::new(0, 0)),
        to: Vec2I::new(1000, 0),
        t_begin: 0,
        duration: 1000,
        following_state: Box::new(CreatureState::Idle {
            pos: None,
            arms_raised: false,
            try_talk_at: 99999,
        }),
    };
    let pose = c.update_for_render(0, &sprite_dims(), &text_dims_hidden());
    assert_eq!(pose.pos, Vec2I::new(0, 0));
    assert_eq!(pose.sprite_tex, 4);
    let pose = c.update_for_render(500, &sprite_dims(), &text_dims_hidden());
    assert_eq!(pose.pos, Vec2I::new(500, -450));
    let pose = c.update_for_render(1000, &sprite_dims(), &text_dims_hidden());
    assert_eq!(pose.pos, Vec2I::new(1000, 0));
    // past the end the position stays pinned to the destination
    let pose = c.update_for_render(5000, &sprite_dims(), &text_dims_hidden());
    assert_eq!(pose.pos, Vec2I::new(1000, 0));
}

#[test]
fn jump_without_origin_starts_at_last_end_pos() {
    let mut c = Creature::new(Vec2I::new(100, 100), 0);
    c.last_end_pos = Vec2I::new(40, 60);
    c.state = CreatureState::Jumping {
        from: None,
        to: Vec2I::new(200, 300),
        t_begin: 0,
        duration: 500,
        following_state: Box::new(CreatureState::Idle {
            pos: None,
            arms_raised: false,
            try_talk_at: 99999,
        }),
    };
    let pose = c.update_for_render(0, &sprite_dims(), &text_dims_hidden());
    assert_eq!(pose.pos, Vec2I::new(40, 60));
}

#[test]
fn shock_pose_recoils_along_the_facing() {
    let mut c = Creature::new(Vec2I::new(100, 100), 0);
    c.state = CreatureState::Shocked {
        from: Vec2I::new(0, 0),
        to: Facing::Right,
        t_begin: 0,
        following_state: Box::new(CreatureState::Idle {
            pos: None,
            arms_raised: false,
            try_talk_at: 99999,
        }),
    };
    // at the start the push is just half the sprite width
    let pose = c.update_for_render(0, &sprite_dims(), &text_dims_hidden());
    assert_eq!(pose.pos, Vec2I::new(20, -20));
    assert_eq!(pose.sprite_tex, 9);
    // at the end the eased push has reached a full extra sprite width
    let pose = c.update_for_render(500, &sprite_dims(), &text_dims_hidden());
    assert_eq!(pose.pos, Vec2I::new(60, -20));
    // a vertical facing pushes down-screen lift only
    c.state = CreatureState::Shocked {
        from: Vec2I::new(0, 0),
        to: Facing::Up,
        t_begin: 0,
        following_state: Box::new(CreatureState::Idle {
            pos: None,
            arms_raised: false,
            try_talk_at: 99999,
        }),
    };
    let pose = c.update_for_render(125, &sprite_dims(), &text_dims_hidden());
    assert_eq!(pose.pos, Vec2I::new(0, -58));
}
