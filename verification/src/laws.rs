//! Session-wide laws, stated and proved once: translation invariance of the
//! collision rules, idempotence of the replay reset, monotonic growth of
//! the score, and the clamps on the player's vertical speed.

use vstd::prelude::*;
use crate::components::{ObstacleShape, Position, RectangleShape};
use crate::entities::{obstruction_collision, Flipper, Obstacle};
use crate::motion::{flap_step, gravity_step};
use crate::resources::GameMode;
use crate::store::{lemma_same_flipper_index, EntityId};
use crate::systems::{
    collision_pass, obstacle_collision_class, playing_frame_post, replay_frame_post,
};
use crate::world::{lemma_distinct_ids_bounded, FrameInput, GameWorld};
use crate::{
    FLAP_IMPULSE, GRAVITY_PER_FRAME, TERMINAL_VELOCITY, UPWARD_SPEED_LIMIT,
};

verus! {

/// Shifting the player and the obstacle by one and the same horizontal
/// offset never changes how a collision is classified.
pub proof fn lemma_collision_class_translation_invariant(
    obstacle_shape: ObstacleShape,
    obstacle_position: Position,
    flipper_shape: RectangleShape,
    flipper_position: Position,
    shifted_obstacle_position: Position,
    shifted_flipper_position: Position,
    x_offset: int,
)
    requires
        shifted_obstacle_position.x == obstacle_position.x + x_offset,
        shifted_obstacle_position.y == obstacle_position.y,
        shifted_flipper_position.x == flipper_position.x + x_offset,
        shifted_flipper_position.y == flipper_position.y,
    ensures
        obstacle_collision_class(
            obstacle_shape,
            shifted_obstacle_position,
            flipper_shape,
            shifted_flipper_position,
        ) == obstacle_collision_class(
            obstacle_shape,
            obstacle_position,
            flipper_shape,
            flipper_position,
        ),
{
}

/// The same, for the self-contained entities' collision rule: shifting the
/// player and the obstruction together never changes the verdict.
pub proof fn lemma_obstruction_collision_translation_invariant(
    flipper: Flipper,
    obstruction: Obstacle,
    shifted_flipper: Flipper,
    shifted_obstruction: Obstacle,
    x_offset: int,
)
    requires
        shifted_flipper == (Flipper {
            x_displacement: (flipper.x_displacement + x_offset) as i64,
            ..flipper
        }),
        shifted_flipper.x_displacement == flipper.x_displacement + x_offset,
        shifted_obstruction == (Obstacle {
            x_displacement: (obstruction.x_displacement + x_offset) as i64,
            ..obstruction
        }),
        shifted_obstruction.x_displacement == obstruction.x_displacement + x_offset,
    ensures
        obstruction_collision(shifted_flipper, shifted_obstruction) == obstruction_collision(
            flipper,
            obstruction,
        ),
{
}

/// Resetting the session twice in a row leaves exactly the state one reset
/// leaves: the score at zero, the player at its spawn point, the
/// cleared-obstacles record empty, and the camera at the origin.
pub proof fn lemma_replay_reset_idempotent(
    first: GameWorld,
    second: GameWorld,
    third: GameWorld,
    first_input: FrameInput,
    second_input: FrameInput,
)
    requires
        first.well_formed(),
        first_input.flap_released,
        second_input.flap_released,
        replay_frame_post(first, first_input, second),
        replay_frame_post(second, second_input, third),
    ensures
        third.state == second.state,
        third.camera == second.camera,
        third.cleared_obstacles.obstacles@ == second.cleared_obstacles.obstacles@,
        third.entities.positions@ == second.entities.positions@,
        third.entities.velocities@ == second.entities.velocities@,
        third.entities.scores@ == second.entities.scores@,
        third.entities.rectangle_shapes@ == second.entities.rectangle_shapes@,
        third.entities.obstacle_shapes@ == second.entities.obstacle_shapes@,
        third.entities.colours@ == second.entities.colours@,
        third.entities.flipper_markers@ == second.entities.flipper_markers@,
        third.entities.finish_line_markers@ == second.entities.finish_line_markers@,
        third.delta_time == second.delta_time,
{
    lemma_same_flipper_index(first.entities, second.entities);
    let fi = first.entities.flipper_index();
    assert(third.entities.positions@ =~= second.entities.positions@);
    assert(third.entities.velocities@ =~= second.entities.velocities@);
    assert(third.entities.scores@ =~= second.entities.scores@);
}

/// What one playing frame may do to the score and the cleared-obstacles
/// record: keep the old record as a prefix, and grow the score by exactly
/// the number of newly recorded obstacles.
pub open spec fn frame_score_step(
    score_before: int,
    cleared_before: Seq<EntityId>,
    score_after: int,
    cleared_after: Seq<EntityId>,
) -> bool {
    &&& cleared_before.len() <= cleared_after.len()
    &&& cleared_before == cleared_after.take(cleared_before.len() as int)
    &&& score_after - score_before == cleared_after.len() - cleared_before.len()
}

/// A collision pass never lowers the score, credits exactly one point per
/// obstacle it records, keeps the old record as a prefix, records only
/// rows below the bound, keeps the record duplicate-free, and changes the
/// mode at most to game over.
pub proof fn lemma_collision_pass_properties(
    obstacle_shapes: Seq<Option<ObstacleShape>>,
    positions: Seq<Option<Position>>,
    flipper_shape: RectangleShape,
    flipper_position: Position,
    init_score: int,
    init_cleared: Seq<EntityId>,
    init_mode: GameMode,
    n: int,
    bound: int,
)
    requires
        n <= bound,
    ensures
        ({
            let r = collision_pass(
                obstacle_shapes,
                positions,
                flipper_shape,
                flipper_position,
                init_score,
                init_cleared,
                init_mode,
                n,
            );
            &&& init_score <= r.0
            &&& r.0 - init_score == r.1.len() - init_cleared.len()
            &&& init_cleared.len() <= r.1.len()
            &&& init_cleared == r.1.take(init_cleared.len() as int)
            &&& r.2 == init_mode || r.2 == GameMode::GameOver
            &&& (init_cleared.no_duplicates() && (forall|k: int|
                0 <= k < init_cleared.len() ==> 0 <= #[trigger] init_cleared[k].index < bound))
                ==> (r.1.no_duplicates() && (forall|k: int|
                0 <= k < r.1.len() ==> 0 <= #[trigger] r.1[k].index < bound))
        }),
    decreases n,
{
    if n <= 0 {
        let r = collision_pass(
            obstacle_shapes,
            positions,
            flipper_shape,
            flipper_position,
            init_score,
            init_cleared,
            init_mode,
            n,
        );
        assert(init_cleared =~= r.1.take(init_cleared.len() as int));
    } else {
        lemma_collision_pass_properties(
            obstacle_shapes,
            positions,
            flipper_shape,
            flipper_position,
            init_score,
            init_cleared,
            init_mode,
            n - 1,
            bound,
        );
        let prev = collision_pass(
            obstacle_shapes,
            positions,
            flipper_shape,
            flipper_position,
            init_score,
            init_cleared,
            init_mode,
            n - 1,
        );
        let r = collision_pass(
            obstacle_shapes,
            positions,
            flipper_shape,
            flipper_position,
            init_score,
            init_cleared,
            init_mode,
            n,
        );
        if r.1 != prev.1 {
            let id = EntityId { index: (n - 1) as usize };
            assert(r.1 == prev.1.push(id));
            assert(init_cleared =~= r.1.take(init_cleared.len() as int));
            if prev.1.no_duplicates() && !prev.1.contains(id) {
                assert(r.1.no_duplicates());
            }
        }
    }
}

/// Across one playing frame, the score only grows, and by exactly one per
/// newly cleared obstacle; an obstacle already on the record is never
/// credited again.
pub proof fn lemma_playing_frame_score_monotone(
    pre: GameWorld,
    input: FrameInput,
    post: GameWorld,
)
    requires
        pre.well_formed(),
        playing_frame_post(pre, input, post),
    ensures
        ({
            let fi = pre.entities.flipper_index();
            frame_score_step(
                pre.entities.scores@[fi].unwrap().value as int,
                pre.cleared_obstacles.obstacles@,
                post.entities.scores@[fi].unwrap().value as int,
                post.cleared_obstacles.obstacles@,
            )
        }),
{
    let s = pre.entities;
    let fi = s.flipper_index();
    let flipper_mid = crate::systems::playing_flipper_mid(pre, input);
    let init_score = s.scores@[fi].unwrap().value as int;
    let init_cleared = pre.cleared_obstacles.obstacles@;
    lemma_collision_pass_properties(
        s.obstacle_shapes@,
        s.positions@.update(fi, Some(flipper_mid)),
        s.rectangle_shapes@[fi].unwrap(),
        flipper_mid,
        init_score,
        init_cleared,
        if s.positions@[fi].unwrap().y > crate::WINDOW_HEIGHT {
            GameMode::GameOver
        } else {
            crate::systems::spec_requested_quit_mode(
                pre.state.mode,
                input.escape_released || input.quit_requested,
            )
        },
        s.entity_count(),
        s.entity_count(),
    );
    let result = crate::systems::playing_collision_result(pre, input);
    assert(forall|k: int|
        0 <= k < init_cleared.len() ==> 0 <= #[trigger] init_cleared[k].index
            < s.entity_count());
    lemma_distinct_ids_bounded(result.1, s.entity_count());
    assert(result.0 == result.1.len());
    assert(post.entities.scores@[fi].unwrap().value == result.0 as u32);
}

/// Score monotonicity over any run of playing frames: between any two
/// frames the earlier score is never above the later one, the earlier
/// record is a prefix of the later one, and the score has grown by exactly
/// the number of obstacles recorded in between.
pub proof fn lemma_score_monotone_over_frames(
    scores: Seq<int>,
    clearings: Seq<Seq<EntityId>>,
    earlier: int,
    later: int,
)
    requires
        scores.len() == clearings.len(),
        forall|j: int|
            0 <= j < scores.len() - 1 ==> frame_score_step(
                #[trigger] scores[j],
                clearings[j],
                scores[j + 1],
                clearings[j + 1],
            ),
        0 <= earlier <= later < scores.len(),
    ensures
        scores[earlier] <= scores[later],
        clearings[earlier].len() <= clearings[later].len(),
        clearings[earlier] == clearings[later].take(clearings[earlier].len() as int),
        scores[later] - scores[earlier] == clearings[later].len() - clearings[earlier].len(),
    decreases later - earlier,
{
    if earlier == later {
        assert(clearings[earlier] =~= clearings[later].take(clearings[earlier].len() as int));
    } else {
        lemma_score_monotone_over_frames(scores, clearings, earlier, later - 1);
        assert(frame_score_step(
            scores[later - 1],
            clearings[later - 1],
            scores[later],
            clearings[later],
        ));
        assert(clearings[earlier] =~= clearings[later].take(
            clearings[earlier].len() as int,
        )) by {
            let a = clearings[earlier];
            let b = clearings[later - 1];
            let c = clearings[later];
            assert(a == b.take(a.len() as int));
            assert(b == c.take(b.len() as int));
            assert forall|k: int| 0 <= k < a.len() implies a[k] == c[k] by {
                assert(a[k] == b[k]);
                assert(b[k] == c[k]);
            }
        }
    }
}

/// From any vertical speed gravity itself can produce, one more frame of
/// gravity never drives the speed past the terminal velocity, and the
/// speed never falls. (A speed off the gravity grid can overshoot: from
/// 29, one frame of gravity gives 35.)
pub proof fn lemma_gravity_respects_terminal_velocity(vy: int)
    requires
        vy % (GRAVITY_PER_FRAME as int) == 0,
        vy <= TERMINAL_VELOCITY,
    ensures
        gravity_step(vy) <= TERMINAL_VELOCITY,
        gravity_step(vy) % (GRAVITY_PER_FRAME as int) == 0,
        vy <= gravity_step(vy),
{
    if vy < TERMINAL_VELOCITY {
        assert(vy <= TERMINAL_VELOCITY - GRAVITY_PER_FRAME) by {
            if vy > TERMINAL_VELOCITY - GRAVITY_PER_FRAME {
                assert(vy % (GRAVITY_PER_FRAME as int) != 0);
            }
        }
    }
}

/// The player's vertical speed after any number of gravity frames.
pub open spec fn gravity_after(vy: int, frames: nat) -> int
    decreases frames,
{
    if frames == 0 {
        vy
    } else {
        gravity_step(gravity_after(vy, (frames - 1) as nat))
    }
}

/// Repeated gravity never drives a vertical speed on the gravity grid
/// above the terminal velocity, however many frames pass.
pub proof fn lemma_repeated_gravity_bounded(vy: int, frames: nat)
    requires
        vy % (GRAVITY_PER_FRAME as int) == 0,
        vy <= TERMINAL_VELOCITY,
    ensures
        gravity_after(vy, frames) <= TERMINAL_VELOCITY,
        gravity_after(vy, frames) % (GRAVITY_PER_FRAME as int) == 0,
    decreases frames,
{
    if frames > 0 {
        lemma_repeated_gravity_bounded(vy, (frames - 1) as nat);
        lemma_gravity_respects_terminal_velocity(gravity_after(vy, (frames - 1) as nat));
    }
}

/// From any vertical speed flapping itself can produce, one more flap
/// never drives the speed past the upward limit, and the speed never
/// rises. (A speed off the flap grid can overshoot: from -174, one flap
/// gives -204.)
pub proof fn lemma_flap_respects_upward_limit(vy: int)
    requires
        vy % (-(FLAP_IMPULSE as int)) == 0,
        vy >= UPWARD_SPEED_LIMIT,
    ensures
        flap_step(vy) >= UPWARD_SPEED_LIMIT,
        flap_step(vy) % (-(FLAP_IMPULSE as int)) == 0,
        flap_step(vy) <= vy,
{
    if vy > UPWARD_SPEED_LIMIT {
        assert(-(FLAP_IMPULSE as int) == 30);
        vstd::arithmetic::div_mod::lemma_fundamental_div_mod(vy, 30);
        assert(vy == 30 * (vy / 30));
        assert(vy / 30 >= -5);
        assert(vy >= UPWARD_SPEED_LIMIT - FLAP_IMPULSE);
        vstd::arithmetic::div_mod::lemma_mod_sub_multiples_vanish(vy, 30);
        assert(flap_step(vy) % (-(FLAP_IMPULSE as int)) == 0);
    }
}

/// The player's vertical speed after any number of flap impulses.
pub open spec fn flaps_after(vy: int, flaps: nat) -> int
    decreases flaps,
{
    if flaps == 0 {
        vy
    } else {
        flap_step(flaps_after(vy, (flaps - 1) as nat))
    }
}

/// Repeated flapping never drives a vertical speed on the flap grid below
/// the upward limit, however many impulses land.
pub proof fn lemma_repeated_flaps_bounded(vy: int, flaps: nat)
    requires
        vy % (-(FLAP_IMPULSE as int)) == 0,
        vy >= UPWARD_SPEED_LIMIT,
    ensures
        flaps_after(vy, flaps) >= UPWARD_SPEED_LIMIT,
        flaps_after(vy, flaps) % (-(FLAP_IMPULSE as int)) == 0,
    decreases flaps,
{
    if flaps > 0 {
        lemma_repeated_flaps_bounded(vy, (flaps - 1) as nat);
        lemma_flap_respects_upward_limit(flaps_after(vy, (flaps - 1) as nat));
    }
}

/// Every vertical speed a playing session can reach: on the gravity grid,
/// never above the terminal velocity, and never more than one flap and one
/// frame of gravity below the upward limit.
pub open spec fn reachable_vertical_speed(vy: int) -> bool {
    &&& vy % (GRAVITY_PER_FRAME as int) == 0
    &&& UPWARD_SPEED_LIMIT + FLAP_IMPULSE + GRAVITY_PER_FRAME <= vy <= TERMINAL_VELOCITY
}

/// The reachable-speed envelope holds at spawn and survives gravity.
pub proof fn lemma_reachable_speed_gravity(vy: int)
    requires
        reachable_vertical_speed(vy),
    ensures
        reachable_vertical_speed(gravity_step(vy)),
        reachable_vertical_speed(0),
{
    if vy < TERMINAL_VELOCITY {
        assert(vy <= TERMINAL_VELOCITY - GRAVITY_PER_FRAME) by {
            if vy > TERMINAL_VELOCITY - GRAVITY_PER_FRAME {
                assert(vy % (GRAVITY_PER_FRAME as int) != 0);
            }
        }
    }
}

/// The reachable-speed envelope survives a flap.
pub proof fn lemma_reachable_speed_flap(vy: int)
    requires
        reachable_vertical_speed(vy),
    ensures
        reachable_vertical_speed(flap_step(vy)),
{
}

} // verus!
