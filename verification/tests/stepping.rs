use fighter::movement::derive_state;
use fighter::units::{HORIZ_VELOCITY, JUMP_VELOCITY, SCENE_MAX_X, SCENE_MIN_X};
use fighter::{Controls, Fighter, Key, Keys, Player, State};

fn keys(left: bool, right: bool, jump: bool, attack: bool) -> Controls {
    Controls { left, left_released: false, right, right_released: false, jump, attack }
}

fn released(left_released: bool, right_released: bool) -> Controls {
    Controls {
        left: false,
        left_released,
        right: false,
        right_released,
        jump: false,
        attack: false,
    }
}

#[test]
fn keys_of_the_players() {
    assert_eq!(
        Keys::of(Player::One),
        Keys { left: Key::A, right: Key::D, jump: Key::W, attack: Key::S }
    );
    assert_eq!(
        Keys::of(Player::Two),
        Keys { left: Key::Left, right: Key::Right, jump: Key::Up, attack: Key::Down }
    );
}

#[test]
fn no_input_changes_nothing() {
    let mut f = Fighter::new(Player::One);
    f.apply_controls(Controls::none());
    assert_eq!(f, Fighter::new(Player::One));
    assert_eq!(Controls::none(), keys(false, false, false, false));
}

#[test]
fn held_keys_set_the_running_speed() {
    let mut f = Fighter::new(Player::One);
    f.apply_controls(keys(true, false, false, false));
    assert_eq!(f.velocity_x, -HORIZ_VELOCITY);
    f.apply_controls(keys(false, true, false, false));
    assert_eq!(f.velocity_x, HORIZ_VELOCITY);
    f.apply_controls(keys(true, true, false, false));
    assert_eq!(f.velocity_x, HORIZ_VELOCITY);
}

#[test]
fn velocity_is_kept_until_the_driving_key_is_released() {
    let mut f = Fighter::new(Player::One);
    f.apply_controls(keys(true, false, false, false));
    f.apply_controls(Controls::none());
    assert_eq!(f.velocity_x, -HORIZ_VELOCITY);
    f.apply_controls(released(true, false));
    assert_eq!(f.velocity_x, 0);
    f.apply_controls(keys(false, true, false, false));
    f.apply_controls(released(false, true));
    assert_eq!(f.velocity_x, 0);
}

#[test]
fn releasing_the_other_key_is_a_no_op() {
    let mut f = Fighter::new(Player::One);
    f.apply_controls(keys(true, false, false, false));
    // Left still held, right released.
    f.apply_controls(Controls { right_released: true, ..keys(true, false, false, false) });
    assert_eq!(f.velocity_x, -HORIZ_VELOCITY);
    // Nothing held, right released while the fighter runs left.
    f.apply_controls(released(false, true));
    assert_eq!(f.velocity_x, -HORIZ_VELOCITY);
    f.apply_controls(keys(false, true, false, false));
    f.apply_controls(Controls { left_released: true, ..keys(false, true, false, false) });
    assert_eq!(f.velocity_x, HORIZ_VELOCITY);
    f.apply_controls(released(true, false));
    assert_eq!(f.velocity_x, HORIZ_VELOCITY);
}

#[test]
fn jump_key_launches_from_the_ground_only() {
    let mut f = Fighter::new(Player::Two);
    f.apply_controls(keys(false, false, true, false));
    assert_eq!(f.velocity_y, JUMP_VELOCITY);
    assert_eq!(f.y, f.ground_y as i64);
    f.step(16, false);
    let rising: i64 = f.velocity_y;
    assert_eq!(rising, 116_080);
    // No second jump in the air.
    f.apply_controls(keys(false, false, true, false));
    assert_eq!(f.velocity_y, rising);
}

#[test]
fn jump_scenario_from_rest() {
    let mut f = Fighter::new(Player::One);
    assert_eq!((f.velocity_x, f.velocity_y), (0, 0));
    assert_eq!(f.current_state, State::Idling);
    f.apply_controls(keys(false, false, true, false));
    assert_eq!(f.velocity_y, JUMP_VELOCITY);
    f.step(16, false);
    assert_eq!(f.y, -15_070_000 + 1_920_000);
    assert_eq!(f.velocity_y, 120_000 - 245 * 16);
    assert_eq!(f.current_state, State::Jumping);
    assert!(f.is_well_formed());
}

#[test]
fn attack_key_starts_an_attack_and_saves_the_state() {
    let mut f = Fighter { current_state: State::Running, ..Fighter::new(Player::One) };
    f.apply_controls(keys(false, false, false, true));
    assert_eq!(f.current_state, State::Attacking);
    assert_eq!(f.previous_state, State::Running);
    assert_eq!(f.current_frame, 32);
    assert_eq!(f.health, 100);
}

#[test]
fn locked_fighters_cannot_attack() {
    for state in [State::Attacking, State::TakingHit] {
        let mut f = Fighter {
            current_state: state,
            previous_state: State::Jumping,
            ..Fighter::new(Player::One)
        };
        f.apply_controls(keys(false, false, false, true));
        assert_eq!(f.current_state, state);
        assert_eq!(f.previous_state, State::Jumping);
    }
}

#[test]
fn locked_fighters_still_steer_and_jump() {
    let mut f = Fighter { current_state: State::TakingHit, ..Fighter::new(Player::One) };
    f.apply_controls(keys(true, false, true, true));
    assert_eq!(f.velocity_x, -HORIZ_VELOCITY);
    assert_eq!(f.velocity_y, JUMP_VELOCITY);
    assert_eq!(f.current_state, State::TakingHit);
}

#[test]
fn dying_fighters_take_no_input() {
    let dying = Fighter { current_state: State::Dying, health: 0, ..Fighter::new(Player::Two) };
    let mut f = dying;
    f.apply_controls(Controls {
        left: true,
        left_released: true,
        right: true,
        right_released: true,
        jump: true,
        attack: true,
    });
    assert_eq!(f, dying);
}

#[test]
fn derived_state_from_physics() {
    assert_eq!(derive_state(true, 0, 1), State::Jumping);
    assert_eq!(derive_state(true, 50_000, 0), State::Falling);
    assert_eq!(derive_state(true, 0, -1), State::Falling);
    assert_eq!(derive_state(false, 50_000, 0), State::Running);
    assert_eq!(derive_state(false, -50_000, 0), State::Running);
    assert_eq!(derive_state(false, 0, 0), State::Idling);
}

#[test]
fn running_moves_by_velocity_times_time() {
    let mut f = Fighter::new(Player::One);
    f.apply_controls(keys(false, true, false, false));
    f.step(100, false);
    assert_eq!(f.x, -25_000_000);
    assert_eq!(f.current_state, State::Running);
    f.step(1, false);
    assert_eq!(f.x, -24_950_000);
    f.apply_controls(keys(true, false, false, false));
    f.step(17, false);
    assert_eq!(f.x, -24_950_000 - 850_000);
    f.step(0, false);
    assert_eq!(f.x, -25_800_000);
    assert_eq!(f.y, f.ground_y as i64);
    assert_eq!(f.velocity_y, 0);
}

#[test]
fn arena_bounds_block_the_whole_move() {
    let mut f = Fighter { x: 48_600_000, ..Fighter::new(Player::One) };
    f.apply_controls(keys(false, true, false, false));
    f.step(3, false);
    // 486 px and 1.5 px more would pass the right edge at 487 px.
    assert_eq!(f.x, 48_600_000);
    assert_eq!(f.velocity_x, HORIZ_VELOCITY);
    assert_eq!(f.current_state, State::Running);
    f.step(2, false);
    assert_eq!(f.x, SCENE_MAX_X);
    f.step(1, false);
    assert_eq!(f.x, SCENE_MAX_X);
    f.apply_controls(keys(true, false, false, false));
    f.step(1, false);
    assert_eq!(f.x, SCENE_MAX_X - 50_000);

    let mut g = Fighter { x: -48_100_000, ..Fighter::new(Player::Two) };
    g.apply_controls(keys(true, false, false, false));
    g.step(3, false);
    assert_eq!(g.x, -48_100_000);
    g.step(2, false);
    assert_eq!(g.x, SCENE_MIN_X);
    g.step(65_535, false);
    assert_eq!(g.x, SCENE_MIN_X);
    assert_eq!(g.velocity_x, -HORIZ_VELOCITY);
}

#[test]
fn fighter_outside_the_arena_can_only_move_into_it() {
    let mut f = Fighter { x: 50_000_000, ..Fighter::new(Player::One) };
    f.apply_controls(keys(false, true, false, false));
    f.step(10, false);
    assert_eq!(f.x, 50_000_000);
    f.apply_controls(keys(true, false, false, false));
    f.step(10, false);
    assert_eq!(f.x, 50_000_000);
    f.step(30, false);
    assert_eq!(f.x, 48_500_000);
}

#[test]
fn gravity_lowers_the_velocity_every_tick_in_the_air() {
    let mut f = Fighter::new(Player::One);
    f.apply_controls(keys(false, false, true, false));
    f.step(16, false);
    assert_eq!((f.y, f.velocity_y), (-13_150_000, 116_080));
    f.step(16, false);
    assert_eq!((f.y, f.velocity_y), (-11_292_720, 112_160));
    let mut last: i64 = f.velocity_y;
    let mut ticks: u32 = 2;
    let mut apex: i64 = f.y;
    while f.y > f.ground_y as i64 {
        f.step(16, false);
        ticks += 1;
        if f.y > f.ground_y as i64 {
            assert_eq!(f.velocity_y, last - 3_920);
            assert!(f.velocity_y < last);
            assert_eq!(
                f.current_state,
                if f.velocity_y > 0 { State::Jumping } else { State::Falling }
            );
        }
        if f.y > apex {
            apex = f.y;
        }
        last = f.velocity_y;
        assert!(f.is_well_formed());
    }
    assert_eq!(ticks, 63);
    assert_eq!(apex, 15_285_200);
    assert_eq!(f.y, -15_070_000);
    assert_eq!(f.velocity_y, 0);
    assert_eq!(f.current_state, State::Idling);
}

#[test]
fn landing_snaps_to_the_ground() {
    let ground: i64 = -15_070_000;
    let mut f = Fighter {
        y: ground + 436_480,
        velocity_y: -123_040,
        current_state: State::Falling,
        ..Fighter::new(Player::One)
    };
    assert!(f.is_well_formed());
    f.step(16, false);
    assert_eq!(f.y, ground);
    assert_eq!(f.velocity_y, 0);
    assert_eq!(f.current_state, State::Idling);
}

#[test]
fn one_long_tick_carries_a_jump_far_and_the_next_lands_it() {
    let mut f = Fighter::new(Player::One);
    f.apply_controls(keys(false, false, true, false));
    f.step(1_000, false);
    assert_eq!(f.y, 104_930_000);
    assert_eq!(f.velocity_y, -125_000);
    assert_eq!(f.current_state, State::Falling);
    assert!(f.is_well_formed());
    f.step(1_000, false);
    assert_eq!(f.y, -15_070_000);
    assert_eq!(f.velocity_y, 0);
}

#[test]
fn longest_tick_stays_in_range() {
    let mut f = Fighter::new(Player::Two);
    f.apply_controls(keys(true, false, true, false));
    f.step(u16::MAX, false);
    assert_eq!(f.y, -13_420_000 + 120_000 * 65_535);
    assert_eq!(f.velocity_y, 120_000 - 245 * 65_535);
    assert!(f.is_well_formed());
    f.step(u16::MAX, false);
    assert_eq!(f.y, -13_420_000);
    assert_eq!(f.velocity_y, 0);
    assert!(f.is_well_formed());
}

#[test]
fn attack_ends_on_its_last_frame() {
    let attacking = Fighter {
        current_state: State::Attacking,
        previous_state: State::Running,
        current_frame: 4,
        ..Fighter::new(Player::One)
    };
    let mut f = attacking;
    f.step(16, false);
    assert_eq!(f.current_state, State::Attacking);
    f.current_frame = 5;
    f.step(16, false);
    // The fighter stands still: it idles, whatever it did before the attack.
    assert_eq!(f.current_state, State::Idling);
    assert_eq!(f.previous_state, State::Running);

    let mut two = Fighter { player: Player::Two, current_frame: 3, ..attacking };
    two.velocity_x = HORIZ_VELOCITY;
    two.step(16, false);
    assert_eq!(two.current_state, State::Running);
}

#[test]
fn attack_of_player_two_does_not_end_on_the_last_frame_of_player_one() {
    let mut f = Fighter {
        current_state: State::Attacking,
        current_frame: 5,
        ..Fighter::new(Player::Two)
    };
    f.step(16, false);
    assert_eq!(f.current_state, State::Attacking);
}

#[test]
fn hit_ends_on_its_last_frame_and_restores_the_saved_state() {
    let mut f = Fighter {
        current_state: State::TakingHit,
        previous_state: State::Running,
        current_frame: 66,
        ..Fighter::new(Player::One)
    };
    f.step(16, false);
    assert_eq!(f.current_state, State::TakingHit);
    f.current_frame = 67;
    f.step(16, false);
    assert_eq!(f.current_state, State::Running);
    // Free again, the state follows the physics.
    f.step(16, false);
    assert_eq!(f.current_state, State::Idling);
}

#[test]
fn hit_does_not_resume_an_attack() {
    let mut f = Fighter {
        current_state: State::TakingHit,
        previous_state: State::Attacking,
        current_frame: 58,
        velocity_x: -HORIZ_VELOCITY,
        ..Fighter::new(Player::Two)
    };
    f.step(16, false);
    assert_eq!(f.current_state, State::Running);
    assert_eq!(f.previous_state, State::Attacking);
}

#[test]
fn fighter_without_health_dies_whatever_it_does() {
    for state in [
        State::Attacking,
        State::Dying,
        State::Falling,
        State::Idling,
        State::Jumping,
        State::Running,
        State::TakingHit,
    ] {
        let mut f = Fighter {
            current_state: state,
            health: 0,
            current_frame: 1,
            ..Fighter::new(Player::One)
        };
        f.step(16, false);
        assert_eq!(f.current_state, State::Dying);
        f.step(16, true);
        assert_eq!(f.current_state, State::Dying);
    }
}

#[test]
fn after_the_match_a_grounded_fighter_comes_to_rest() {
    let mut f = Fighter {
        velocity_x: HORIZ_VELOCITY,
        current_state: State::Running,
        ..Fighter::new(Player::One)
    };
    f.step(10, true);
    assert_eq!(f.x, -29_500_000);
    assert_eq!(f.velocity_x, 0);
    assert_eq!(f.velocity_y, 0);
    assert_eq!(f.current_state, State::Idling);
    f.step(10, true);
    assert_eq!(f.x, -29_500_000);
}

#[test]
fn after_the_match_a_fighter_in_the_air_finishes_its_jump() {
    let mut f = Fighter::new(Player::One);
    f.apply_controls(keys(false, true, true, false));
    f.step(100, true);
    assert_eq!(f.current_state, State::Jumping);
    assert_eq!(f.velocity_x, HORIZ_VELOCITY);
    let mut ticks: u32 = 1;
    while f.y > f.ground_y as i64 {
        f.step(100, true);
        ticks += 1;
    }
    assert_eq!(ticks, 11);
    assert_eq!(f.velocity_x, 0);
    assert_eq!(f.velocity_y, 0);
    assert_eq!(f.current_state, State::Idling);
}

#[test]
fn after_the_match_a_locked_fighter_plays_its_animation_out() {
    let mut f = Fighter {
        current_state: State::Attacking,
        current_frame: 2,
        velocity_x: HORIZ_VELOCITY,
        ..Fighter::new(Player::One)
    };
    f.step(10, true);
    assert_eq!(f.current_state, State::Attacking);
    assert_eq!(f.velocity_x, 0);
    f.current_frame = 5;
    f.step(10, true);
    assert_eq!(f.current_state, State::Idling);
}
