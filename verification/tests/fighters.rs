use fighter::fighter::{attackbox_shape, hurtbox_shape, spawn_ground_y, spawn_x};
use fighter::frames::is_registered_frame;
use fighter::units::{
    GRAVITY, GROUND_Y, HORIZ_VELOCITY, JUMP_VELOCITY, MAX_FALL_VELOCITY, MAX_HEALTH, MAX_HEIGHT,
    SCENE_MAX_X, SCENE_MIN_X,
};
use fighter::{Aabb, BoxShape, Controls, Fighter, Player, State};

fn held(left: bool, right: bool, jump: bool, attack: bool) -> Controls {
    Controls { left, left_released: false, right, right_released: false, jump, attack }
}

#[test]
fn constants_in_fixed_point() {
    assert_eq!(GRAVITY, -245);
    assert_eq!(JUMP_VELOCITY, 120_000);
    assert_eq!(HORIZ_VELOCITY, 50_000);
    assert_eq!(SCENE_MIN_X, -48_200_000);
    assert_eq!(SCENE_MAX_X, 48_700_000);
    assert_eq!(GROUND_Y, -21_120_000);
    assert_eq!(MAX_HEALTH, 100);
    assert_eq!(MAX_FALL_VELOCITY, 120_000 + 245 * 65_535);
    assert_eq!(MAX_HEIGHT, 135_490_847_145);
}

#[test]
fn player_one_spawns_left_and_idle() {
    let f = Fighter::new(Player::One);
    assert_eq!(f.player, Player::One);
    assert_eq!(f.x, -30_000_000);
    assert_eq!(f.y, -15_070_000);
    assert_eq!(f.ground_y, -15_070_000);
    assert_eq!(f.velocity_x, 0);
    assert_eq!(f.velocity_y, 0);
    assert_eq!(f.current_state, State::Idling);
    assert_eq!(f.previous_state, State::Idling);
    assert_eq!(f.current_frame, 32);
    assert_eq!(f.health, 100);
    assert_eq!(
        f.hurtbox,
        BoxShape { offset_x: 0, offset_y: 1_500_000, width: 8_250_000, height: 15_125_000 }
    );
    assert_eq!(
        f.attackbox,
        BoxShape {
            offset_x: 14_500_000,
            offset_y: 5_600_000,
            width: 20_625_000,
            height: 6_875_000
        }
    );
    assert!(f.is_well_formed());
}

#[test]
fn player_two_spawns_right_and_idle() {
    let f = Fighter::new(Player::Two);
    assert_eq!(f.player, Player::Two);
    assert_eq!(f.x, 30_000_000);
    assert_eq!(f.y, -13_420_000);
    assert_eq!(f.ground_y, -13_420_000);
    assert_eq!(f.current_state, State::Idling);
    assert_eq!(f.current_frame, 32);
    assert_eq!(f.health, 100);
    assert_eq!(
        f.hurtbox,
        BoxShape { offset_x: 0, offset_y: 0, width: 6_875_000, height: 15_950_000 }
    );
    assert_eq!(
        f.attackbox,
        BoxShape {
            offset_x: -13_000_000,
            offset_y: 3_200_000,
            width: 19_250_000,
            height: 9_625_000
        }
    );
    assert!(f.is_well_formed());
}

#[test]
fn spawn_tables_match_the_fighters() {
    for player in [Player::One, Player::Two] {
        let f = Fighter::new(player);
        assert_eq!(f.x, spawn_x(player));
        assert_eq!(f.ground_y, spawn_ground_y(player));
        assert_eq!(f.hurtbox, hurtbox_shape(player));
        assert_eq!(f.attackbox, attackbox_shape(player));
        assert!(spawn_ground_y(player) > GROUND_Y);
    }
}

#[test]
fn spawn_takes_any_place_and_boxes() {
    let hurtbox = BoxShape { offset_x: 1, offset_y: 2, width: 3, height: 4 };
    let attackbox = BoxShape { offset_x: -5, offset_y: -6, width: 7, height: 8 };
    let f = Fighter::spawn(Player::Two, i32::MAX, i32::MIN, hurtbox, attackbox);
    assert_eq!(f.x, i32::MAX);
    assert_eq!(f.y, i32::MIN as i64);
    assert_eq!(f.ground_y, i32::MIN);
    assert_eq!(f.hurtbox, hurtbox);
    assert_eq!(f.attackbox, attackbox);
    assert_eq!(f.health, 100);
    assert_eq!(f.current_state, State::Idling);
    assert!(f.is_well_formed());
}

#[test]
fn boxes_are_attached_to_the_fighter() {
    let mut f = Fighter::new(Player::One);
    assert_eq!(
        f.hurtbox_in_arena(),
        Aabb {
            center_x: -30_000_000,
            center_y: -13_570_000,
            width: 8_250_000,
            height: 15_125_000
        }
    );
    assert_eq!(
        f.attackbox_in_arena(),
        Aabb {
            center_x: -15_500_000,
            center_y: -9_470_000,
            width: 20_625_000,
            height: 6_875_000
        }
    );
    f.apply_controls(held(false, true, true, false));
    f.step(100, false);
    assert_eq!(f.x, -25_000_000);
    assert_eq!(f.y, -3_070_000);
    assert_eq!(f.hurtbox_in_arena().center_x, -25_000_000);
    assert_eq!(f.hurtbox_in_arena().center_y, -1_570_000);
    assert_eq!(f.attackbox_in_arena().center_x, -10_500_000);
    assert_eq!(f.attackbox_in_arena().center_y, 2_530_000);
}

#[test]
fn invariant_check_rejects_broken_fighters() {
    let good = Fighter::new(Player::One);
    assert!(good.is_well_formed());
    assert!(!Fighter { health: 101, ..good }.is_well_formed());
    assert!(!Fighter { y: good.y - 1, ..good }.is_well_formed());
    assert!(!Fighter { velocity_y: 5, ..good }.is_well_formed());
    assert!(!Fighter { velocity_y: JUMP_VELOCITY + 1, ..good }.is_well_formed());
    assert!(!Fighter { velocity_y: i64::MIN, ..good }.is_well_formed());
    assert!(!Fighter { y: i64::MAX, ..good }.is_well_formed());
    assert!(!Fighter { velocity_x: 1, ..good }.is_well_formed());
    assert!(!Fighter { previous_state: State::TakingHit, ..good }.is_well_formed());
    assert!(!Fighter { previous_state: State::Dying, ..good }.is_well_formed());
    assert!(!Fighter { current_frame: 10, ..good }.is_well_formed());
    assert!(!Fighter { current_frame: usize::MAX, ..good }.is_well_formed());
}

#[test]
fn invariant_check_accepts_what_play_can_reach() {
    let good = Fighter::new(Player::Two);
    assert!(Fighter { velocity_y: JUMP_VELOCITY, ..good }.is_well_formed());
    assert!(Fighter { velocity_x: -HORIZ_VELOCITY, ..good }.is_well_formed());
    assert!(Fighter { velocity_x: HORIZ_VELOCITY, ..good }.is_well_formed());
    assert!(Fighter { health: 0, current_state: State::Dying, ..good }.is_well_formed());
    assert!(Fighter { y: good.y + 1_920_000, velocity_y: 116_080, ..good }.is_well_formed());
    // At rest in the air, as at the top of a jump.
    assert!(Fighter { y: good.y + 30_000_000, velocity_y: 0, ..good }.is_well_formed());
    // Higher than any jump can carry a fighter that still rises that fast.
    assert!(!Fighter { y: good.y + 30_000_000, velocity_y: 119_999, ..good }.is_well_formed());
    assert!(!Fighter { y: good.y + MAX_HEIGHT + 1, velocity_y: -8_028_037, ..good }.is_well_formed());
    assert!(Fighter { y: good.y + MAX_HEIGHT, velocity_y: -8_028_037, ..good }.is_well_formed());
}

#[test]
fn registered_frames_per_player() {
    assert!(is_registered_frame(Player::One, 0));
    assert!(is_registered_frame(Player::One, 5));
    assert!(!is_registered_frame(Player::One, 6));
    assert!(is_registered_frame(Player::One, 67));
    assert!(!is_registered_frame(Player::One, 56));
    assert!(!is_registered_frame(Player::One, 68));
    assert!(is_registered_frame(Player::Two, 3));
    assert!(!is_registered_frame(Player::Two, 4));
    assert!(is_registered_frame(Player::Two, 22));
    assert!(is_registered_frame(Player::Two, 58));
    assert!(!is_registered_frame(Player::Two, 36));
    assert!(!is_registered_frame(Player::Two, 64));
}
