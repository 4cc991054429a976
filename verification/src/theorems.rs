//! What holds of every match: the invariant of the fighters through every
//! stage of a tick, and the laws of the state machine, the sequencer and the
//! collision resolver.

use vstd::prelude::*;
use crate::collision::damaged;
use crate::fighter::{
    lemma_envelope_bounds, lemma_rest_in_envelope, within_jump_envelope, Fighter,
};
use crate::flow::GameState;
use crate::frames::{attack_damage_spec, frame_range_spec, next_frame_spec};
use crate::game::{Game, TickInput};
use crate::input::{lemma_launch_in_envelope, Controls};
use crate::movement::{lemma_envelope_step, lemma_step_stays_in_range};
use crate::player::Player;
use crate::state::State;
use crate::units::{GRAVITY, JUMP_VELOCITY, SCENE_MAX_X, SCENE_MIN_X};

verus! {

/// A well-formed fighter is never below its ground, and on its ground it
/// has no vertical velocity unless a jump is about to lift it.
pub proof fn theorem_ground_contact(f: Fighter)
    requires
        f.wf(),
    ensures
        f.ground_y <= f.y,
        f.grounded() && !f.jump_pending() ==> f.velocity_y == 0,
        f.jump_pending() ==> f.velocity_y == JUMP_VELOCITY,
{
}

/// Input keeps a fighter well formed. It never moves the fighter, never
/// changes its health or its frame, gives no jump to a fighter in the air,
/// and never changes the state of a locked or dying fighter.
pub proof fn theorem_controls_preserve_invariant(f: Fighter, controls: Controls)
    requires
        f.wf(),
    ensures
        f.after_controls(controls).wf(),
        f.after_controls(controls).x == f.x,
        f.after_controls(controls).y == f.y,
        f.after_controls(controls).health == f.health,
        f.after_controls(controls).current_frame == f.current_frame,
        f.after_controls(controls).player == f.player,
        !f.grounded() ==> f.after_controls(controls).velocity_y == f.velocity_y,
        !f.current_state.free() ==> f.after_controls(controls).current_state == f.current_state,
        f.after_controls(controls).current_state != f.current_state ==> {
            &&& f.after_controls(controls).current_state == State::Attacking
            &&& f.after_controls(controls).previous_state == f.current_state
        },
{
    lemma_launch_in_envelope();
}

/// A movement step keeps a fighter well formed. After it a fighter on its
/// ground is at rest vertically, a fighter that was inside the arena still
/// is, and health and frame are what they were.
pub proof fn theorem_step_preserves_invariant(f: Fighter, elapsed_ms: u16, game_over: bool)
    requires
        f.wf(),
    ensures
        f.after_step(elapsed_ms, game_over).wf(),
        f.after_step(elapsed_ms, game_over).ground_y <= f.after_step(elapsed_ms, game_over).y,
        f.after_step(elapsed_ms, game_over).grounded() ==> f.after_step(
            elapsed_ms,
            game_over,
        ).velocity_y == 0,
        SCENE_MIN_X <= f.x <= SCENE_MAX_X ==> SCENE_MIN_X <= f.after_step(elapsed_ms, game_over).x
            <= SCENE_MAX_X,
        f.after_step(elapsed_ms, game_over).x == crate::movement::x_after(
            f.x as int,
            f.velocity_x as int,
            elapsed_ms as int,
        ),
        !f.airborne_after(elapsed_ms) ==> f.after_step(elapsed_ms, game_over).y == f.ground_y,
        f.after_step(elapsed_ms, game_over).health == f.health,
        f.after_step(elapsed_ms, game_over).current_frame == f.current_frame,
        f.after_step(elapsed_ms, game_over).previous_state == f.previous_state,
        f.after_step(elapsed_ms, game_over).player == f.player,
{
    lemma_envelope_bounds(f.y - f.ground_y, f.velocity_y as int);
    lemma_step_stays_in_range(f.velocity_x as int, f.velocity_y as int, elapsed_ms as int);
    let g = f.after_step(elapsed_ms, game_over);
    if f.airborne_after(elapsed_ms) {
        lemma_envelope_step(f.y - f.ground_y, f.velocity_y as int, elapsed_ms as int);
        assert(g.y - g.ground_y == (f.y - f.ground_y) + f.velocity_y * elapsed_ms);
        assert(g.velocity_y == f.velocity_y + GRAVITY * elapsed_ms);
    } else {
        lemma_rest_in_envelope();
        assert(g.y - g.ground_y == 0);
        assert(g.velocity_y == 0);
    }
    assert(within_jump_envelope(g.y - g.ground_y, g.velocity_y as int));
}

/// The boxes of a fighter are attached to it: however a well-formed fighter
/// has moved, both boxes have moved by exactly as much, and they keep their
/// sizes.
pub proof fn theorem_boxes_follow(before: Fighter, after: Fighter)
    requires
        before.wf(),
        after.wf(),
        after.hurtbox == before.hurtbox,
        after.attackbox == before.attackbox,
    ensures
        after.hurtbox_placed().center_x - before.hurtbox_placed().center_x == after.x - before.x,
        after.hurtbox_placed().center_y - before.hurtbox_placed().center_y == after.y - before.y,
        after.attackbox_placed().center_x - before.attackbox_placed().center_x == after.x
            - before.x,
        after.attackbox_placed().center_y - before.attackbox_placed().center_y == after.y
            - before.y,
        after.hurtbox_placed().width == before.hurtbox_placed().width,
        after.hurtbox_placed().height == before.hurtbox_placed().height,
        after.attackbox_placed().width == before.attackbox_placed().width,
        after.attackbox_placed().height == before.attackbox_placed().height,
{
    lemma_envelope_bounds(before.y - before.ground_y, before.velocity_y as int);
    lemma_envelope_bounds(after.y - after.ground_y, after.velocity_y as int);
}

/// While a fighter is in the air its vertical velocity falls with every
/// tick that takes time, by the pull of gravity over the tick.
pub proof fn theorem_gravity_pulls(f: Fighter, elapsed_ms: u16, game_over: bool)
    requires
        f.wf(),
        f.airborne_after(elapsed_ms),
    ensures
        f.after_step(elapsed_ms, game_over).velocity_y == f.velocity_y - 245 * elapsed_ms,
        elapsed_ms > 0 ==> f.after_step(elapsed_ms, game_over).velocity_y < f.velocity_y,
        f.after_step(elapsed_ms, game_over).y == f.y + f.velocity_y * elapsed_ms,
        f.after_step(elapsed_ms, game_over).y > f.ground_y,
{
    lemma_envelope_bounds(f.y - f.ground_y, f.velocity_y as int);
    lemma_step_stays_in_range(f.velocity_x as int, f.velocity_y as int, elapsed_ms as int);
    lemma_envelope_step(f.y - f.ground_y, f.velocity_y as int, elapsed_ms as int);
}

/// A hit keeps a fighter well formed, never raises its health, and leaves
/// everything but its states and its health as it was.
pub proof fn theorem_hit_preserves_invariant(victim: Fighter, attacker: Fighter)
    requires
        victim.wf(),
    ensures
        victim.after_hit(&attacker).wf(),
        victim.after_hit(&attacker).health <= victim.health,
        victim.after_hit(&attacker).x == victim.x,
        victim.after_hit(&attacker).y == victim.y,
        victim.after_hit(&attacker).velocity_x == victim.velocity_x,
        victim.after_hit(&attacker).velocity_y == victim.velocity_y,
        victim.after_hit(&attacker).current_frame == victim.current_frame,
        victim.after_hit(&attacker).player == victim.player,
        !victim.struck_by(&attacker) ==> victim.after_hit(&attacker) == victim,
{
}

/// An animation step keeps a fighter well formed and changes nothing but
/// the frame. After a step with a firing of the timer the frame lies in the
/// animation of the fighter's state.
pub proof fn theorem_animation_preserves_invariant(f: Fighter, timer_fired: bool)
    requires
        f.wf(),
    ensures
        f.after_animation(timer_fired).wf(),
        f.after_animation(timer_fired) == (Fighter {
            current_frame: f.after_animation(timer_fired).current_frame,
            ..f
        }),
        timer_fired ==> frame_range_spec(f.player, f.current_state).holds(
            f.after_animation(timer_fired).current_frame,
        ),
        frame_range_spec(f.player, f.current_state).holds(f.current_frame) ==> frame_range_spec(
            f.player,
            f.current_state,
        ).holds(f.after_animation(timer_fired).current_frame),
{
    if timer_fired {
        let next = next_frame_spec(f.player, f.current_state, f.current_frame).0;
        assert(frame_range_spec(f.player, f.current_state).holds(next));
    }
}

/// An animation step without a firing of the frame timer changes nothing,
/// however often it is taken.
pub proof fn theorem_unfired_animation_is_idle(f: Fighter)
    ensures
        f.after_animation(false) == f,
        f.after_animation(false).after_animation(false) == f,
        f.frame_update(false) is None,
{
}

/// A locked fighter with health left keeps its state through input,
/// movement and animation until its frame is the last of the animation of
/// that state. On that frame movement releases it into a free state.
pub proof fn theorem_lock_holds_until_terminal_frame(
    f: Fighter,
    controls: Controls,
    elapsed_ms: u16,
    game_over: bool,
    timer_fired: bool,
)
    requires
        f.wf(),
        f.current_state.locked(),
        f.health > 0,
    ensures
        f.after_controls(controls).current_state == f.current_state,
        f.after_animation(timer_fired).current_state == f.current_state,
        f.current_frame != f.terminal_frame() ==> f.after_step(elapsed_ms, game_over).current_state
            == f.current_state,
        f.current_frame == f.terminal_frame() ==> f.after_step(
            elapsed_ms,
            game_over,
        ).current_state.free(),
{
}

/// A lock always ends. From any frame of the animation of a locked state
/// the firings of the frame timer lead to the last frame in as many steps
/// as frames are left, without a change of state on the way, and the
/// movement step that finds the fighter there releases it.
pub proof fn theorem_lock_ends(f: Fighter, elapsed_ms: u16, game_over: bool)
    requires
        f.current_state.locked(),
        f.previous_state != State::TakingHit,
        f.previous_state != State::Dying,
        frame_range_spec(f.player, f.current_state).holds(f.current_frame),
    ensures
        ({
            let last = f.after_firings((f.terminal_frame() - f.current_frame) as nat);
            &&& last.current_frame == f.terminal_frame()
            &&& last == (Fighter { current_frame: f.terminal_frame(), ..f })
            &&& !last.after_step(elapsed_ms, game_over).current_state.locked()
        }),
    decreases f.terminal_frame() - f.current_frame,
{
    if f.current_frame < f.terminal_frame() {
        let next = f.after_animation(true);
        assert(next.current_frame == f.current_frame + 1);
        assert(next.terminal_frame() == f.terminal_frame());
        theorem_lock_ends(next, elapsed_ms, game_over);
        assert(f.after_firings((f.terminal_frame() - f.current_frame) as nat)
            == next.after_firings((next.terminal_frame() - next.current_frame) as nat));
    } else {
        assert(f.after_firings(0) == f);
    }
}

/// A fighter whose state has just changed shows a frame of another
/// animation; the next firing of its frame timer starts the animation of
/// its state at the first frame.
pub proof fn theorem_new_state_starts_its_animation(f: Fighter)
    requires
        !frame_range_spec(f.player, f.current_state).holds(f.current_frame),
    ensures
        f.after_animation(true).current_frame == frame_range_spec(f.player, f.current_state).start,
        f.frame_update(true) matches Some(update) && !update.looped,
{
}

/// A fighter without health dies at the next movement step, whatever state
/// it is in, and a dying fighter stays dying through every stage.
pub proof fn theorem_death_overrides(
    f: Fighter,
    attacker: Fighter,
    controls: Controls,
    elapsed_ms: u16,
    game_over: bool,
    timer_fired: bool,
)
    requires
        f.wf(),
    ensures
        f.health == 0 ==> f.after_step(elapsed_ms, game_over).current_state == State::Dying,
        f.current_state == State::Dying ==> {
            &&& f.after_controls(controls) == f
            &&& f.after_step(elapsed_ms, game_over).current_state == State::Dying
            &&& f.after_hit(&attacker) == f
            &&& f.after_animation(timer_fired).current_state == State::Dying
        },
{
}

/// An attack that connects takes exactly the damage of the attacker off the
/// health of the victim, stopping at zero, puts the victim into `TakingHit`
/// and saves the state it was in. The victim cannot be struck again while it
/// is taking the hit: a second round of collisions changes nothing.
pub proof fn theorem_hit_lands_once(victim: Fighter, attacker: Fighter, second: Fighter)
    requires
        victim.struck_by(&attacker),
    ensures
        victim.after_hit(&attacker).health == vstd::math::max(
            0,
            victim.health - attack_damage_spec(attacker.player),
        ),
        attack_damage_spec(attacker.player) == if attacker.player == Player::One {
            10u8
        } else {
            8u8
        },
        victim.after_hit(&attacker).current_state == State::TakingHit,
        victim.after_hit(&attacker).previous_state == victim.current_state,
        !victim.after_hit(&attacker).struck_by(&second),
        victim.after_hit(&attacker).after_hit(&second) == victim.after_hit(&attacker),
{
}

/// Every tick keeps a match well formed: no fighter is ever below its
/// ground, and after a tick in which the fighters move a fighter on its
/// ground is at rest vertically.
pub proof fn theorem_tick_preserves_invariant(game: Game, input: TickInput)
    requires
        game.wf(),
    ensures
        game.after_tick(input).wf(),
        game.after_tick(input).one.ground_y <= game.after_tick(input).one.y,
        game.after_tick(input).two.ground_y <= game.after_tick(input).two.y,
        game.state.simulates() && game.after_tick(input).one.grounded() ==> game.after_tick(
            input,
        ).one.velocity_y == 0,
        game.state.simulates() && game.after_tick(input).two.grounded() ==> game.after_tick(
            input,
        ).two.velocity_y == 0,
{
    match game.state {
        GameState::InGame => {
            let one0 = game.one.after_controls(input.controls_one);
            let two0 = game.two.after_controls(input.controls_two);
            theorem_controls_preserve_invariant(game.one, input.controls_one);
            theorem_controls_preserve_invariant(game.two, input.controls_two);
            theorem_step_preserves_invariant(one0, input.elapsed_ms, false);
            theorem_step_preserves_invariant(two0, input.elapsed_ms, false);
            let one1 = game.one_moved(input);
            let two1 = game.two_moved(input);
            theorem_hit_preserves_invariant(one1, two1);
            theorem_hit_preserves_invariant(two1, one1);
            theorem_animation_preserves_invariant(one1.after_hit(&two1), input.frame_timer_one);
            theorem_animation_preserves_invariant(two1.after_hit(&one1), input.frame_timer_two);
        },
        GameState::GameOver => {
            theorem_step_preserves_invariant(game.one, input.elapsed_ms, true);
            theorem_step_preserves_invariant(game.two, input.elapsed_ms, true);
            theorem_animation_preserves_invariant(
                game.one.after_step(input.elapsed_ms, true),
                input.frame_timer_one,
            );
            theorem_animation_preserves_invariant(
                game.two.after_step(input.elapsed_ms, true),
                input.frame_timer_two,
            );
        },
        _ => {},
    }
}

/// After a tick in which the frame timer of a fighter has fired, the frame
/// of the fighter lies in the animation of the state it is then in.
pub proof fn theorem_frame_in_range_after_tick(game: Game, input: TickInput)
    requires
        game.wf(),
        game.state.simulates(),
    ensures
        input.frame_timer_one ==> frame_range_spec(
            Player::One,
            game.after_tick(input).one.current_state,
        ).holds(game.after_tick(input).one.current_frame),
        input.frame_timer_two ==> frame_range_spec(
            Player::Two,
            game.after_tick(input).two.current_state,
        ).holds(game.after_tick(input).two.current_frame),
{
    theorem_tick_preserves_invariant(game, input);
    if game.state == GameState::InGame {
        theorem_controls_preserve_invariant(game.one, input.controls_one);
        theorem_controls_preserve_invariant(game.two, input.controls_two);
        theorem_step_preserves_invariant(
            game.one.after_controls(input.controls_one),
            input.elapsed_ms,
            false,
        );
        theorem_step_preserves_invariant(
            game.two.after_controls(input.controls_two),
            input.elapsed_ms,
            false,
        );
        let one1 = game.one_moved(input);
        let two1 = game.two_moved(input);
        theorem_hit_preserves_invariant(one1, two1);
        theorem_hit_preserves_invariant(two1, one1);
        theorem_animation_preserves_invariant(one1.after_hit(&two1), input.frame_timer_one);
        theorem_animation_preserves_invariant(two1.after_hit(&one1), input.frame_timer_two);
    } else {
        theorem_step_preserves_invariant(game.one, input.elapsed_ms, true);
        theorem_step_preserves_invariant(game.two, input.elapsed_ms, true);
        theorem_animation_preserves_invariant(
            game.one.after_step(input.elapsed_ms, true),
            input.frame_timer_one,
        );
        theorem_animation_preserves_invariant(
            game.two.after_step(input.elapsed_ms, true),
            input.frame_timer_two,
        );
    }
}

/// A fighter whose frame lies in the animation of its state keeps it there
/// through every tick that leaves its state as it was.
pub proof fn theorem_frame_stays_in_range(game: Game, input: TickInput, player: Player)
    requires
        game.wf(),
        frame_range_spec(player, game.fighter_spec(player).current_state).holds(
            game.fighter_spec(player).current_frame,
        ),
        game.after_tick(input).fighter_spec(player).current_state == game.fighter_spec(
            player,
        ).current_state,
    ensures
        frame_range_spec(player, game.after_tick(input).fighter_spec(player).current_state).holds(
            game.after_tick(input).fighter_spec(player).current_frame,
        ),
{
    if game.state.simulates() {
        let timer = if player == Player::One {
            input.frame_timer_one
        } else {
            input.frame_timer_two
        };
        theorem_frame_in_range_after_tick(game, input);
        if !timer {
            if game.state == GameState::InGame {
                theorem_controls_preserve_invariant(game.one, input.controls_one);
                theorem_controls_preserve_invariant(game.two, input.controls_two);
                theorem_step_preserves_invariant(
                    game.one.after_controls(input.controls_one),
                    input.elapsed_ms,
                    false,
                );
                theorem_step_preserves_invariant(
                    game.two.after_controls(input.controls_two),
                    input.elapsed_ms,
                    false,
                );
            } else {
                theorem_step_preserves_invariant(game.one, input.elapsed_ms, true);
                theorem_step_preserves_invariant(game.two, input.elapsed_ms, true);
            }
        }
    }
}

/// Through a whole tick a locked fighter with health left leaves its state
/// only from the last frame of the animation of that state, or, while it
/// attacks, by being struck.
pub proof fn theorem_lock_survives_tick(game: Game, input: TickInput)
    requires
        game.wf(),
        game.one.current_state.locked(),
        game.one.health > 0,
        game.one.current_frame != game.one.terminal_frame(),
        !(game.state == GameState::InGame && game.one_moved(input).struck_by(
            &game.two_moved(input),
        )),
    ensures
        game.after_tick(input).one.current_state == game.one.current_state,
        game.after_tick(input).one.health == game.one.health,
{
    theorem_controls_preserve_invariant(game.one, input.controls_one);
    let one0 = game.one.after_controls(input.controls_one);
    assert(one0.current_state == game.one.current_state);
    assert(one0.current_frame == game.one.current_frame);
    assert(one0.health == game.one.health);
    assert(one0.terminal_frame() == game.one.terminal_frame());
}

/// The same for player two.
pub proof fn theorem_lock_survives_tick_two(game: Game, input: TickInput)
    requires
        game.wf(),
        game.two.current_state.locked(),
        game.two.health > 0,
        game.two.current_frame != game.two.terminal_frame(),
        !(game.state == GameState::InGame && game.two_moved(input).struck_by(
            &game.one_moved(input),
        )),
    ensures
        game.after_tick(input).two.current_state == game.two.current_state,
        game.after_tick(input).two.health == game.two.health,
{
    theorem_controls_preserve_invariant(game.two, input.controls_two);
    let two0 = game.two.after_controls(input.controls_two);
    assert(two0.current_state == game.two.current_state);
    assert(two0.current_frame == game.two.current_frame);
    assert(two0.health == game.two.health);
    assert(two0.terminal_frame() == game.two.terminal_frame());
}

/// Health never rises, and it falls only in a tick of a running match in
/// which the fighter is struck; it then falls by the damage of the opponent,
/// stopping at zero.
pub proof fn theorem_health_falls_only_by_hits(game: Game, input: TickInput)
    requires
        game.wf(),
    ensures
        game.after_tick(input).one.health <= game.one.health,
        game.after_tick(input).two.health <= game.two.health,
        game.after_tick(input).one.health == if game.state == GameState::InGame
            && game.one_moved(input).struck_by(&game.two_moved(input)) {
            damaged(game.one.health, 8)
        } else {
            game.one.health
        },
        game.after_tick(input).two.health == if game.state == GameState::InGame
            && game.two_moved(input).struck_by(&game.one_moved(input)) {
            damaged(game.two.health, 10)
        } else {
            game.two.health
        },
{
    theorem_controls_preserve_invariant(game.one, input.controls_one);
    theorem_controls_preserve_invariant(game.two, input.controls_two);
    theorem_step_preserves_invariant(
        game.one.after_controls(input.controls_one),
        input.elapsed_ms,
        false,
    );
    theorem_step_preserves_invariant(
        game.two.after_controls(input.controls_two),
        input.elapsed_ms,
        false,
    );
    theorem_step_preserves_invariant(game.one, input.elapsed_ms, true);
    theorem_step_preserves_invariant(game.two, input.elapsed_ms, true);
}

/// A match that is over stays over, and a running match ends exactly when
/// its countdown completes or a fighter is left without health by a hit.
pub proof fn theorem_match_ends(game: Game, input: TickInput)
    requires
        game.wf(),
    ensures
        game.state == GameState::GameOver ==> game.after_tick(input).state == GameState::GameOver,
        game.state == GameState::InGame ==> (game.after_tick(input).state == GameState::GameOver
            <==> {
            ||| input.countdown_complete
            ||| (game.one_moved(input).struck_by(&game.two_moved(input)) && game.one.health <= 8)
            ||| (game.two_moved(input).struck_by(&game.one_moved(input)) && game.two.health <= 10)
        }),
        game.state == GameState::InGame ==> game.after_tick(input).state == GameState::GameOver
            || game.after_tick(input).state == GameState::InGame,
{
    if game.state == GameState::InGame {
        theorem_controls_preserve_invariant(game.one, input.controls_one);
        theorem_controls_preserve_invariant(game.two, input.controls_two);
        theorem_step_preserves_invariant(
            game.one.after_controls(input.controls_one),
            input.elapsed_ms,
            false,
        );
        theorem_step_preserves_invariant(
            game.two.after_controls(input.controls_two),
            input.elapsed_ms,
            false,
        );
        let one = game.one_moved(input);
        let two = game.two_moved(input);
        let events = crate::collision::hit_events(&one, &two);
        let first = one.hit_event(&two);
        let second = two.hit_event(&one);
        if first is Some && first->0.health == 0 {
            assert(events[0] == first->0);
        }
        if second is Some && second->0.health == 0 {
            assert(events[events.len() - 1] == second->0);
        }
    }
}

} // verus!
