use fighter::frames::{
    attack_audio_frame, attack_damage, attack_frame, frame_range, next_frame,
    next_player_sprite_frame, IDLE_FRAME_START,
};
use fighter::{FrameRange, Player, State};

const STATES: [State; 7] = [
    State::Attacking,
    State::Dying,
    State::Falling,
    State::Idling,
    State::Jumping,
    State::Running,
    State::TakingHit,
];

#[test]
fn player_index_and_opponent() {
    assert_eq!(Player::One.index(), 0);
    assert_eq!(Player::Two.index(), 1);
    assert_eq!(Player::One.opponent(), Player::Two);
    assert_eq!(Player::Two.opponent(), Player::One);
    assert_eq!(Player::One.opponent().opponent(), Player::One);
}

#[test]
fn default_state_is_idling() {
    assert_eq!(State::default(), State::Idling);
}

#[test]
fn locked_and_free_states() {
    assert!(State::Attacking.is_locked());
    assert!(State::TakingHit.is_locked());
    assert!(!State::Dying.is_locked());
    assert!(!State::Dying.is_free());
    for state in [State::Falling, State::Idling, State::Jumping, State::Running] {
        assert!(state.is_free());
        assert!(!state.is_locked());
    }
}

#[test]
fn frame_ranges_of_player_one() {
    let p = Player::One;
    assert_eq!(frame_range(p, State::Attacking), FrameRange { start: 0, end: 5 });
    assert_eq!(frame_range(p, State::Dying), FrameRange { start: 16, end: 21 });
    assert_eq!(frame_range(p, State::Falling), FrameRange { start: 24, end: 25 });
    assert_eq!(frame_range(p, State::Idling), FrameRange { start: 32, end: 39 });
    assert_eq!(frame_range(p, State::Jumping), FrameRange { start: 40, end: 41 });
    assert_eq!(frame_range(p, State::Running), FrameRange { start: 48, end: 55 });
    assert_eq!(frame_range(p, State::TakingHit), FrameRange { start: 64, end: 67 });
}

#[test]
fn frame_ranges_of_player_two() {
    let p = Player::Two;
    assert_eq!(frame_range(p, State::Attacking), FrameRange { start: 0, end: 3 });
    assert_eq!(frame_range(p, State::Dying), FrameRange { start: 16, end: 22 });
    assert_eq!(frame_range(p, State::Falling), FrameRange { start: 24, end: 25 });
    assert_eq!(frame_range(p, State::Idling), FrameRange { start: 32, end: 35 });
    assert_eq!(frame_range(p, State::Jumping), FrameRange { start: 40, end: 41 });
    assert_eq!(frame_range(p, State::Running), FrameRange { start: 48, end: 55 });
    assert_eq!(frame_range(p, State::TakingHit), FrameRange { start: 56, end: 58 });
}

#[test]
fn attack_tables() {
    assert_eq!(attack_frame(Player::One), 4);
    assert_eq!(attack_frame(Player::Two), 2);
    assert_eq!(attack_audio_frame(Player::One), 3);
    assert_eq!(attack_audio_frame(Player::Two), 3);
    assert_eq!(attack_damage(Player::One), 10);
    assert_eq!(attack_damage(Player::Two), 8);
    assert_eq!(IDLE_FRAME_START, 32);
}

#[test]
fn frame_range_contains_its_ends_only() {
    let range = FrameRange { start: 16, end: 21 };
    assert!(!range.contains(15));
    assert!(range.contains(16));
    assert!(range.contains(21));
    assert!(!range.contains(22));
}

#[test]
fn sprite_frame_outside_range_resets_to_start() {
    assert_eq!(next_player_sprite_frame(3, 32, 39), (32, false));
    assert_eq!(next_player_sprite_frame(40, 32, 39), (32, false));
    assert_eq!(next_player_sprite_frame(usize::MAX, 32, 39), (32, false));
}

#[test]
fn sprite_frame_increments_inside_range() {
    assert_eq!(next_player_sprite_frame(32, 32, 39), (33, false));
    assert_eq!(next_player_sprite_frame(38, 32, 39), (39, false));
}

#[test]
fn sprite_frame_wraps_at_end() {
    assert_eq!(next_player_sprite_frame(39, 32, 39), (32, true));
    assert_eq!(next_player_sprite_frame(7, 7, 7), (7, true));
    assert_eq!(next_player_sprite_frame(usize::MAX, 0, usize::MAX), (0, true));
}

#[test]
fn next_frame_loops_every_state_but_dying() {
    assert_eq!(next_frame(Player::One, State::Attacking, 5), (0, true));
    assert_eq!(next_frame(Player::Two, State::Attacking, 3), (0, true));
    assert_eq!(next_frame(Player::One, State::TakingHit, 67), (64, true));
    assert_eq!(next_frame(Player::Two, State::TakingHit, 58), (56, true));
    assert_eq!(next_frame(Player::Two, State::Idling, 35), (32, true));
    assert_eq!(next_frame(Player::One, State::Running, 55), (48, true));
}

#[test]
fn dying_animation_freezes_on_last_frame() {
    assert_eq!(next_frame(Player::One, State::Dying, 20), (21, false));
    assert_eq!(next_frame(Player::One, State::Dying, 21), (21, false));
    assert_eq!(next_frame(Player::Two, State::Dying, 22), (22, false));
    assert_eq!(next_frame(Player::Two, State::Dying, 64), (16, false));
}

#[test]
fn next_frame_after_state_change_starts_the_animation() {
    assert_eq!(next_frame(Player::One, State::Attacking, 33), (0, false));
    assert_eq!(next_frame(Player::Two, State::TakingHit, 2), (56, false));
}

#[test]
fn next_frame_always_lands_in_the_range_of_the_state() {
    for player in [Player::One, Player::Two] {
        for state in STATES {
            let range = frame_range(player, state);
            for current in 0..80usize {
                let (frame, looped) = next_frame(player, state, current);
                assert!(range.contains(frame));
                if state == State::Dying {
                    assert!(!looped);
                }
            }
        }
    }
}

#[test]
fn frame_ranges_of_one_player_do_not_overlap() {
    for player in [Player::One, Player::Two] {
        for frame in 0..80usize {
            let owners: usize = STATES
                .iter()
                .filter(|state| frame_range(player, **state).contains(frame))
                .count();
            assert!(owners <= 1);
        }
    }
}
