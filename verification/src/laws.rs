//! What holds of every game: the invariant is kept by every transition, the
//! chain follows the head, a reversal is ignored, and the chain never
//! shrinks but on restart.

use vstd::prelude::*;
use crate::geometry::{distance, settled_spot, steer, Direction, Point, PICKUP_TOLERANCE, UNIT};
use crate::input::{command_in, command_of, Command, InputEvent, Key};
use crate::model::{Game, FOOD_SCORE};

verus! {

/// A step back and a step forward in the same heading end where they began,
/// and so do a step forward and a step back.
pub proof fn step_round_trip(p: Point, dir: Direction)
    ensures
        p.retreated(dir).advanced(dir) == p,
        p.advanced(dir).retreated(dir) == p,
{
}

/// The pickup check fires exactly when the head is less than the pickup
/// tolerance away from the food on the x axis and on the y axis.
pub proof fn pickup_fires_iff_close_on_both_axes(g: Game, spot: Point)
    ensures
        g.pickup_due() <==> distance(g.head.x, g.food.x) < PICKUP_TOLERANCE && distance(
            g.head.y,
            g.food.y,
        ) < PICKUP_TOLERANCE,
        g.pickup_due() ==> g.picked_up(spot).score == g.score + FOOD_SCORE
            && g.picked_up(spot).food == spot
            && g.picked_up(spot).segments.len() == g.segments.len() + 1,
        !g.pickup_due() ==> g.picked_up(spot) == g,
{
}

/// Segment `i` is never more than `i + 1` steps away from the head, counted
/// along the axes.
pub proof fn chain_stays_within_reach(g: Game, i: int)
    requires
        g.linked(),
        0 <= i < g.segments.len(),
    ensures
        distance(g.segments[i].x, g.head.x) + distance(g.segments[i].y, g.head.y) <= (i + 1)
            * UNIT,
    decreases i,
{
    assert(g.follows(i));
    if i > 0 {
        chain_stays_within_reach(g, i - 1);
    }
}

/// Whether the chain is linked depends on the head, the segments and their
/// headings alone.
pub proof fn same_creature_same_links(g: Game, h: Game)
    requires
        g.linked(),
        h.head == g.head,
        h.segments == g.segments,
        h.directions == g.directions,
    ensures
        h.linked(),
{
    assert forall|i: int| 0 <= i < h.segments.len() implies #[trigger] h.follows(i) by {
        assert(g.follows(i));
    }
}

/// A request to reverse on the spot changes nothing, whatever the heading.
pub proof fn reversal_is_ignored(g: Game)
    requires
        g.inv(),
    ensures
        g.turned(g.heading().opposite()) == g,
        g.heading() == Direction::Right ==> g.commanded(Command::MoveLeft) == g,
        g.heading() == Direction::Left ==> g.commanded(Command::MoveRight) == g,
        g.heading() == Direction::Up ==> g.commanded(Command::MoveDown) == g,
        g.heading() == Direction::Down ==> g.commanded(Command::MoveUp) == g,
{
    let back = g.heading().opposite();
    assert(steer(g.heading(), back) == g.heading());
    assert(g.directions.update(0, g.heading()) =~= g.directions);
}

/// A request for any heading but the reverse of the present one is taken at
/// once, and touches nothing but the heading of the head.
pub proof fn turn_is_taken_at_once(g: Game, wanted: Direction)
    requires
        g.inv(),
        wanted != g.heading().opposite(),
    ensures
        g.turned(wanted).heading() == wanted,
        g.turned(wanted).directions == g.directions.update(0, wanted),
        g.turned(wanted).segments == g.segments,
        g.turned(wanted).head == g.head,
{
}

/// A turn keeps the invariant.
pub proof fn turn_keeps_invariant(g: Game, wanted: Direction)
    requires
        g.inv(),
    ensures
        g.turned(wanted).inv(),
        g.turned(wanted).segments == g.segments,
{
    let t = g.turned(wanted);
    assert forall|i: int| 0 <= i < t.segments.len() implies #[trigger] t.follows(i) by {
        assert(g.follows(i));
    }
}

/// Growth keeps the invariant and lengthens the chain by one; the segments
/// that were there stay where they are.
pub proof fn growth_keeps_invariant(g: Game)
    requires
        g.inv(),
    ensures
        g.grown().inv(),
        g.grown().segments.len() == g.segments.len() + 1,
        g.grown().segments.subrange(0, g.segments.len() as int) == g.segments,
{
    let n = g.segments.len() as int;
    let t = g.grown();
    assert forall|i: int| 0 <= i < t.segments.len() implies #[trigger] t.follows(i) by {
        if i < n {
            assert(g.follows(i));
        } else {
            step_round_trip(g.leader(n), g.directions[n]);
        }
    }
    assert(t.segments.subrange(0, n) =~= g.segments);
}

/// The chain follows the head: after a position update the first segment
/// stands where the head stood, and every other segment where the one before
/// it stood.
pub proof fn chain_follows_head(g: Game)
    requires
        g.inv(),
        !g.dead,
    ensures
        g.moved().head == g.head.advanced(g.heading()),
        g.moved().segments.len() == g.segments.len(),
        g.moved().directions.len() == g.directions.len(),
        forall|i: int|
            0 <= i < g.segments.len() ==> (#[trigger] g.moved().segments[i]) == g.leader(i),
        g.moved().linked(),
{
    let t = g.moved();
    assert forall|i: int| 0 <= i < t.segments.len() implies #[trigger] t.follows(i) by {
        assert(g.follows(i));
        if i > 0 {
            assert(g.follows(i - 1));
        }
    }
    assert forall|i: int| 0 <= i < g.segments.len() implies (#[trigger] g.moved().segments[i])
        == g.leader(i) by {
        assert(g.follows(i));
    }
}

/// The chain's part of the position update keeps the number of segments
/// and the number of headings, so that there is one heading more than there
/// are segments after it as before it.
pub proof fn chain_update_keeps_lengths(g: Game)
    ensures
        g.followed().segments.len() == g.segments.len(),
        g.followed().directions.len() == g.directions.len(),
        g.directions.len() == g.segments.len() + 1 ==> g.followed().directions.len()
            == g.followed().segments.len() + 1,
        g.moved().segments.len() == g.segments.len(),
        g.moved().directions.len() == g.directions.len(),
{
}

/// The position update keeps the invariant and the length of the chain,
/// as long as the head of a living creature has room for its step.
pub proof fn move_keeps_invariant(g: Game)
    requires
        g.inv(),
        g.dead || g.head.can_step(),
    ensures
        g.moved().inv(),
        g.moved().segments.len() == g.segments.len(),
{
    if !g.dead {
        chain_follows_head(g);
    }
}

/// A dead creature does not move; a living one does, wherever it stands.
pub proof fn only_death_stops_the_creature(g: Game)
    requires
        g.inv(),
    ensures
        g.dead ==> g.moved() == g,
        !g.dead ==> g.moved().head == g.head.advanced(g.heading()),
        !g.dead ==> g.moved().head != g.head,
{
}

/// One simulation step keeps the invariant, whichever place in the field the
/// food moves to. In particular there is one heading more than there are
/// segments before the step and after it.
pub proof fn simulation_keeps_invariant(g: Game, spot: Point)
    requires
        g.inv(),
        spot.in_field(),
    ensures
        g.simulated(spot).inv(),
        g.simulated(spot).directions.len() == g.simulated(spot).segments.len() + 1,
{
    let fed = Game { score: g.score + FOOD_SCORE as nat, food: spot, ..g };
    if g.pickup_due() {
        same_creature_same_links(g, fed);
        growth_keeps_invariant(fed);
    }
    let a = g.picked_up(spot);
    let b = a.judged();
    same_creature_same_links(a, b);
    let c = b.scored();
    same_creature_same_links(b, c);
    move_keeps_invariant(c);
}

/// The head of a living creature is never more than one step outside the
/// field after a simulation step, because the death check comes before the
/// position update; and a head that was no further out stays no further
/// out, dead or alive.
pub proof fn head_stays_near_field(g: Game, spot: Point)
    requires
        g.inv(),
    ensures
        !g.simulated(spot).dead ==> g.simulated(spot).head.near_field(),
        g.head.near_field() ==> g.simulated(spot).head.near_field(),
        g.head.near_field() ==> g.updated(spot).head.near_field(),
        g.head.near_field() ==> g.ticked(spot).head.near_field(),
{
}

/// Autoplay keeps the invariant and the chain.
pub proof fn autoplay_keeps_invariant(g: Game)
    requires
        g.inv(),
    ensures
        g.autopiloted().inv(),
        g.autopiloted().segments == g.segments,
{
    match g.autoplay_request() {
        Some(wanted) => {
            turn_keeps_invariant(g, wanted);
        },
        None => {},
    }
}

/// Autoplay consults nothing of the chain but its length: two games that
/// agree on head, food, heading and on which side of the patrol threshold
/// their chains are get the same request.
pub proof fn autoplay_ignores_segment_positions(g: Game, h: Game)
    requires
        g.head == h.head,
        g.food == h.food,
        g.heading() == h.heading(),
        g.segments.len() == h.segments.len(),
    ensures
        g.autoplay_request() == h.autoplay_request(),
{
}

/// Autoplay never turns the creature back on itself.
pub proof fn autoplay_never_reverses(g: Game)
    requires
        g.inv(),
    ensures
        g.autopiloted().heading() != g.heading().opposite(),
{
}

/// One tick keeps the invariant, whichever place in the field the food moves
/// to: there is one heading more than there are segments before the tick and
/// after it.
pub proof fn update_keeps_invariant(g: Game, spot: Point)
    requires
        g.inv(),
        spot.in_field(),
    ensures
        g.updated(spot).inv(),
        g.updated(spot).directions.len() == g.updated(spot).segments.len() + 1,
{
    if !g.running() {
    } else if g.auto {
        autoplay_keeps_invariant(g);
        simulation_keeps_invariant(g.autopiloted(), spot);
    } else {
        simulation_keeps_invariant(g, spot);
    }
}

/// Every command keeps the invariant.
pub proof fn command_keeps_invariant(g: Game, command: Command)
    requires
        g.inv(),
    ensures
        g.commanded(command).inv(),
{
    match command {
        Command::MoveUp => turn_keeps_invariant(g, Direction::Up),
        Command::MoveDown => turn_keeps_invariant(g, Direction::Down),
        Command::MoveLeft => turn_keeps_invariant(g, Direction::Left),
        Command::MoveRight => turn_keeps_invariant(g, Direction::Right),
        _ => same_creature_same_links(g, g.commanded(command)),
    }
}

/// Every key and every event keeps the invariant.
pub proof fn input_keeps_invariant(g: Game, key: Key, event: InputEvent)
    requires
        g.inv(),
    ensures
        g.pressed(key).inv(),
        g.handled(event).inv(),
{
    match command_of(key) {
        Some(command) => command_keeps_invariant(g, command),
        None => {},
    }
    match command_in(event) {
        Some(command) => command_keeps_invariant(g, command),
        None => {},
    }
}

/// A restart keeps the invariant. It clears the chain of a dead game, sets
/// its score to zero and brings it back to life with the highscore that was
/// stored; it leaves a living game as it is.
pub proof fn restart_starts_over(g: Game, stored: nat)
    requires
        g.inv(),
    ensures
        g.restarted(stored).inv(),
        g.dead ==> g.restarted(stored).segments.len() == 0 && g.restarted(stored).score == 0
            && g.restarted(stored).highscore == stored && !g.restarted(stored).dead,
        !g.dead ==> g.restarted(stored) == g,
{
}

/// A dead game stays dead through every tick and every command; only a
/// restart brings it back to life.
pub proof fn only_restart_revives(g: Game, spot: Point, command: Command, stored: nat)
    requires
        g.inv(),
        g.dead,
    ensures
        g.updated(spot).dead,
        g.commanded(command).dead,
        !g.restarted(stored).dead,
{
}

/// The pause key takes a running game to a paused one and a paused one
/// back; a game that is not running stands still through every tick; and no
/// command but the one to pause touches the pause switch, none kills the
/// creature, and the one to quit is taken in every state.
pub proof fn loop_states_change_as_told(g: Game, spot: Point, command: Command)
    requires
        g.inv(),
    ensures
        !g.dead ==> (g.running() <==> !g.commanded(Command::TogglePause).running()),
        !g.running() ==> g.updated(spot) == g,
        command != Command::TogglePause ==> g.commanded(command).paused == g.paused,
        g.commanded(command).dead == g.dead,
        g.commanded(Command::Quit).exit,
        g.updated(spot).paused == g.paused,
        g.updated(spot).exit == g.exit,
{
}

/// The game begins in a state that meets the invariant, and so does every
/// layout with the head and the food in the field.
pub proof fn beginning_meets_invariant(head: Point, heading: Direction, food: Point)
    ensures
        Game::initial().inv(),
        head.in_field() && food.in_field() ==> Game::laid_out(head, heading, food).inv(),
{
}

/// The chain never shrinks in a tick: it grows by one where the food is
/// picked up and keeps its length otherwise.
pub proof fn chain_never_shrinks_in_a_tick(g: Game, spot: Point)
    requires
        g.inv(),
    ensures
        g.simulated(spot).segments.len() == g.segments.len() + if g.pickup_due() {
            1nat
        } else {
            0nat
        },
        g.updated(spot).segments.len() >= g.segments.len(),
        g.ticked(spot).segments.len() >= g.segments.len(),
        !g.running() ==> g.updated(spot).segments.len() == g.segments.len(),
{
    if g.auto {
        autoplay_keeps_invariant(g);
    }
}

/// No input touches the chain: every command, every key and every event
/// leaves the segments as they are.
pub proof fn chain_never_shrinks_on_input(g: Game, command: Command, key: Key, event: InputEvent)
    requires
        g.inv(),
    ensures
        g.commanded(command).segments == g.segments,
        g.pressed(key).segments == g.segments,
        g.handled(event).segments == g.segments,
{
}

/// A key that stands for no command changes nothing, and so does an event
/// that is no press of a key.
pub proof fn other_input_is_ignored(g: Game, key: Key, event: InputEvent)
    ensures
        command_of(key) is None ==> g.pressed(key) == g,
        command_in(event) is None ==> g.handled(event) == g,
        command_of(Key::Other) is None,
        forall|c: char| c != 'q' ==> #[trigger] command_of(Key::Char(c)) is None,
{
}

/// Growth only appends: the pickup check keeps every segment and every
/// heading that was there, in order, and adds at most one of each at the
/// end.
pub proof fn pickup_only_appends(g: Game, spot: Point)
    requires
        g.inv(),
    ensures
        g.picked_up(spot).segments.len() >= g.segments.len(),
        g.picked_up(spot).segments.subrange(0, g.segments.len() as int) == g.segments,
        g.picked_up(spot).directions.subrange(0, g.directions.len() as int) == g.directions,
        g.picked_up(spot).head == g.head,
{
    let t = g.picked_up(spot);
    assert(t.segments.subrange(0, g.segments.len() as int) =~= g.segments);
    assert(t.directions.subrange(0, g.directions.len() as int) =~= g.directions);
}

/// Food that is picked up leaves its place: where the place drawn for it is
/// neither the old place nor the place of the head, the food lies at the
/// place drawn.
pub proof fn fresh_draw_moves_food(g: Game, drawn: Point)
    requires
        g.pickup_due(),
        drawn.spawnable(),
        drawn != g.food,
        drawn != g.head,
    ensures
        g.landing(drawn) == drawn,
        g.picked_up(g.landing(drawn)).food == drawn,
        g.picked_up(g.landing(drawn)).food != g.food,
{
}

/// Wherever the food is drawn, it lands in the part of the field where food
/// may lie and off the head; a place where no food may lie leaves it where
/// it was.
pub proof fn food_lands_off_the_head(g: Game, drawn: Point)
    ensures
        drawn.spawnable() ==> g.landing(drawn).spawnable() && g.landing(drawn) != g.head,
        drawn.spawnable() ==> g.landing(drawn) == settled_spot(g.head, drawn),
        !drawn.spawnable() ==> g.landing(drawn) == g.food,
{
}

/// Setting the score or the highscore keeps the invariant and touches
/// nothing else.
pub proof fn scores_are_free(g: Game, n: nat)
    requires
        g.inv(),
    ensures
        g.with_score(n).inv(),
        g.with_highscore(n).inv(),
{
    same_creature_same_links(g, g.with_score(n));
    same_creature_same_links(g, g.with_highscore(n));
}

/// Once the player has quit, the tick changes nothing any more; until then
/// it is the update of the game, and it keeps the invariant.
pub proof fn quit_ends_the_game(g: Game, spot: Point)
    requires
        g.inv(),
        spot.in_field(),
    ensures
        g.exit ==> g.ticked(spot) == g,
        !g.exit ==> g.ticked(spot) == g.updated(spot),
        g.ticked(spot).inv(),
        g.ticked(spot).directions.len() == g.ticked(spot).segments.len() + 1,
        g.ticked(spot).exit == g.exit,
{
    update_keeps_invariant(g, spot);
}

/// After a tick of a running game the highscore is at least the score, and
/// neither went down.
pub proof fn highscore_tracks_score(g: Game, spot: Point)
    requires
        g.inv(),
        g.running(),
    ensures
        g.updated(spot).highscore >= g.updated(spot).score,
        g.updated(spot).highscore >= g.highscore,
        g.updated(spot).score >= g.score,
{
}

/// Death is final within the simulation: a tick leaves a dead game as it
/// is, and a creature that dies in a tick does not move in it.
pub proof fn death_freezes_the_game(g: Game, spot: Point)
    requires
        g.inv(),
    ensures
        g.dead ==> g.updated(spot) == g,
        g.simulated(spot).dead ==> g.simulated(spot).head == g.head,
        g.simulated(spot).dead <==> g.dead || g.picked_up(spot).out_of_field() || g.picked_up(
            spot,
        ).hits_body(),
{
}

} // verus!
