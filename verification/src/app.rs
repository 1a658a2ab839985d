//! The game itself: its state, the handling of input, and the simulation
//! step that one tick runs.

use vstd::prelude::*;
use crate::autoplay::autorun;
use crate::geometry::{
    food_spot, settled_spot, Direction, Point, Position, COLLISION_TOLERANCE, HALF_HEIGHT,
    HALF_WIDTH, PICKUP_TOLERANCE, UNIT,
};
use crate::input::{
    command_in, command_of, event_command, key_command, Command, InputEvent, Key, Outcome,
};
use crate::laws::{
    chain_stays_within_reach, command_keeps_invariant, growth_keeps_invariant,
    move_keeps_invariant, pickup_only_appends, same_creature_same_links, scores_are_free,
    turn_keeps_invariant,
};
use crate::model::{Game, FOOD_SCORE};
use crate::random::draw_between;

verus! {

/// A game of snake.
///
/// The score and the highscore are open to the caller; the creature and the
/// switches change only through the methods, which keep them well formed.
#[derive(Debug)]
pub struct App {
    pub score: u64,
    pub highscore: u64,
    exit: bool,
    segments: Vec<Position>,
    head: Position,
    fruits: Position,
    on_pause: bool,
    dead: bool,
    auto: bool,
    direction: Vec<Direction>,
}

impl View for App {
    type V = Game;

    closed spec fn view(&self) -> Game {
        Game {
            score: self.score as nat,
            highscore: self.highscore as nat,
            exit: self.exit,
            paused: self.on_pause,
            dead: self.dead,
            auto: self.auto,
            head: self.head@,
            food: self.fruits@,
            segments: self.segments@.map_values(|p: Position| p@),
            directions: self.direction@,
        }
    }
}

/// Whether a position can take a step in any heading without leaving the
/// range of its coordinates.
spec fn can_step(p: Position) -> bool {
    &&& i128::MIN + UNIT <= p.x <= i128::MAX - UNIT
    &&& i128::MIN + UNIT <= p.y <= i128::MAX - UNIT
}

impl App {
    /// Whether the game is well formed: its state meets the invariant.
    pub open spec fn wf(&self) -> bool {
        self@.inv()
    }

    /// A new game: the head one step right of the centre and heading right,
    /// the food at the centre, no segments, nothing scored.
    pub fn new() -> (app: App)
        ensures
            app.wf(),
            app@ == Game::initial(),
    {
        let mut direction: Vec<Direction> = Vec::new();
        direction.push(Direction::Right);
        let app = App {
            score: 0,
            highscore: 0,
            exit: false,
            segments: Vec::new(),
            head: Position { x: UNIT, y: 0 },
            fruits: Position { x: 0, y: 0 },
            on_pause: false,
            dead: false,
            auto: false,
            direction,
        };
        assert(app@.segments =~= Seq::<Point>::empty());
        assert(app@.directions =~= seq![Direction::Right]);
        app
    }

    /// A new game laid out as asked: the head at `head` and heading
    /// `heading`, the food at `food`. `None` where the head or the food
    /// would lie outside the field.
    pub fn with_layout(head: Position, heading: Direction, food: Position) -> (laid: Option<App>)
        ensures
            laid is Some <==> head@.in_field() && food@.in_field(),
            laid matches Some(app) ==> app.wf() && app@ == Game::laid_out(head@, heading, food@),
    {
        if head.out_of_bounds() || food.out_of_bounds() {
            return None;
        }
        let mut direction: Vec<Direction> = Vec::new();
        direction.push(heading);
        let app = App {
            score: 0,
            highscore: 0,
            exit: false,
            segments: Vec::new(),
            head,
            fruits: food,
            on_pause: false,
            dead: false,
            auto: false,
            direction,
        };
        assert(app@.segments =~= Seq::<Point>::empty());
        assert(app@.directions =~= seq![heading]);
        Some(app)
    }

    // ----- reading the state -----
    /// The score.
    pub fn score_value(&self) -> (n: u64)
        ensures
            n == self@.score,
    {
        self.score
    }

    /// The highscore.
    pub fn highscore_value(&self) -> (n: u64)
        ensures
            n == self@.highscore,
    {
        self.highscore
    }

    /// Where the head is.
    pub fn head(&self) -> (p: Position)
        ensures
            p@ == self@.head,
    {
        self.head
    }

    /// Where the food is.
    pub fn food(&self) -> (p: Position)
        ensures
            p@ == self@.food,
    {
        self.fruits
    }

    /// The heading of the head.
    pub fn heading(&self) -> (d: Direction)
        requires
            self.wf(),
        ensures
            d == self@.heading(),
    {
        self.direction[0]
    }

    /// The number of segments behind the head.
    pub fn length(&self) -> (n: usize)
        ensures
            n == self@.segments.len(),
    {
        self.segments.len()
    }

    /// The segments, the one next to the head first.
    pub fn segments(&self) -> (s: &Vec<Position>)
        ensures
            s@.len() == self@.segments.len(),
            forall|i: int| 0 <= i < s@.len() ==> (#[trigger] s@[i])@ == self@.segments[i],
    {
        &self.segments
    }

    /// The headings: that of the head first, then that of each segment.
    pub fn directions(&self) -> (d: &Vec<Direction>)
        ensures
            d@ == self@.directions,
    {
        &self.direction
    }

    /// Whether the game is paused.
    pub fn is_paused(&self) -> (b: bool)
        ensures
            b == self@.paused,
    {
        self.on_pause
    }

    /// Whether the creature is dead.
    pub fn is_dead(&self) -> (b: bool)
        ensures
            b == self@.dead,
    {
        self.dead
    }

    /// Whether autoplay is switched on.
    pub fn is_auto(&self) -> (b: bool)
        ensures
            b == self@.auto,
    {
        self.auto
    }

    /// Whether the player has quit.
    pub fn should_exit(&self) -> (b: bool)
        ensures
            b == self@.exit,
    {
        self.exit
    }

    /// Sets the score and leaves everything else as it is.
    pub fn set_score(&mut self, score: u64)
        requires
            old(self).wf(),
        ensures
            final(self).wf(),
            final(self)@ == old(self)@.with_score(score as nat),
    {
        proof {
            scores_are_free(self@, score as nat);
        }
        self.score = score;
    }

    /// Sets the highscore and leaves everything else as it is.
    pub fn set_highscore(&mut self, highscore: u64)
        requires
            old(self).wf(),
        ensures
            final(self).wf(),
            final(self)@ == old(self)@.with_highscore(highscore as nat),
    {
        proof {
            scores_are_free(self@, highscore as nat);
        }
        self.highscore = highscore;
    }

    // ----- input -----
    fn turn(&mut self, wanted: Direction)
        requires
            old(self).wf(),
        ensures
            final(self).wf(),
            final(self)@ == old(self)@.turned(wanted),
    {
        proof {
            turn_keeps_invariant(self@, wanted);
        }
        if self.direction[0] == wanted.reversed() {
            assert(self@.directions.update(0, self@.heading()) =~= self@.directions);
            return;
        }
        self.direction.set(0, wanted);
    }

    /// Heads right, unless the creature is heading left.
    pub fn right(&mut self)
        requires
            old(self).wf(),
        ensures
            final(self).wf(),
            final(self)@ == old(self)@.turned(Direction::Right),
    {
        self.turn(Direction::Right)
    }

    /// Heads up, unless the creature is heading down.
    pub fn up(&mut self)
        requires
            old(self).wf(),
        ensures
            final(self).wf(),
            final(self)@ == old(self)@.turned(Direction::Up),
    {
        self.turn(Direction::Up)
    }

    /// Heads down, unless the creature is heading up.
    pub fn down(&mut self)
        requires
            old(self).wf(),
        ensures
            final(self).wf(),
            final(self)@ == old(self)@.turned(Direction::Down),
    {
        self.turn(Direction::Down)
    }

    /// Heads left, unless the creature is heading right.
    pub fn left(&mut self)
        requires
            old(self).wf(),
        ensures
            final(self).wf(),
            final(self)@ == old(self)@.turned(Direction::Left),
    {
        self.turn(Direction::Left)
    }

    /// Flips the autoplay switch.
    pub fn auto(&mut self)
        requires
            old(self).wf(),
        ensures
            final(self).wf(),
            final(self)@ == old(self)@.auto_toggled(),
    {
        proof {
            command_keeps_invariant(self@, Command::ToggleAutoplay);
        }
        self.auto = !self.auto;
    }

    /// Flips the pause switch.
    pub fn pause(&mut self)
        requires
            old(self).wf(),
        ensures
            final(self).wf(),
            final(self)@ == old(self)@.pause_toggled(),
    {
        proof {
            command_keeps_invariant(self@, Command::TogglePause);
        }
        self.on_pause = !self.on_pause;
    }

    /// Notes that the player has quit.
    pub fn exit(&mut self)
        requires
            old(self).wf(),
        ensures
            final(self).wf(),
            final(self)@ == old(self)@.quit(),
    {
        proof {
            command_keeps_invariant(self@, Command::Quit);
        }
        self.exit = true;
    }

    /// Adds one segment behind the tail, or behind the head where there is
    /// no segment yet, and gives it the heading of what it follows.
    pub fn append_segment(&mut self)
        requires
            old(self).wf(),
        ensures
            final(self).wf(),
            final(self)@ == old(self)@.grown(),
    {
        let n = self.segments.len();
        let ghost before = self@;
        proof {
            growth_keeps_invariant(before);
            if n > 0 {
                chain_stays_within_reach(before, n - 1);
            }
        }
        let tail = if n == 0 {
            self.head
        } else {
            self.segments[n - 1]
        };
        let heading = self.direction[n];
        assert(tail@ == before.leader(n as int));
        self.segments.push(tail.retreated(heading));
        self.direction.push(heading);
        assert(self@.segments =~= before.grown().segments);
    }

    /// Brings a dead game back to life, with `stored` as its highscore: the
    /// head at the centre and heading right, the food at the centre, no
    /// segments, nothing scored, pause and autoplay switched off. A living
    /// game is left as it is.
    pub fn restart(&mut self, stored: u64)
        requires
            old(self).wf(),
        ensures
            final(self).wf(),
            final(self)@ == old(self)@.restarted(stored as nat),
    {
        if self.dead {
            let mut direction: Vec<Direction> = Vec::new();
            direction.push(Direction::Right);
            self.dead = false;
            self.on_pause = false;
            self.segments = Vec::new();
            self.fruits = Position { x: 0, y: 0 };
            self.score = 0;
            self.highscore = stored;
            self.auto = false;
            self.head = Position { x: 0, y: 0 };
            self.direction = direction;
            assert(self@.segments =~= Seq::<Point>::empty());
            assert(self@.directions =~= seq![Direction::Right]);
        }
    }

    /// The highscore to store when the game restarts: the better of the
    /// highscore and the score.
    pub fn best(&self) -> (best: u64)
        ensures
            best == self@.best(),
    {
        if self.score > self.highscore {
            self.score
        } else {
            self.highscore
        }
    }

    /// Carries out a command of the player. A restart is not carried out
    /// here: where the game is dead, the caller is told to store the best
    /// score and to call `restart` with what it reads back.
    pub fn command(&mut self, command: Command) -> (outcome: Outcome)
        requires
            old(self).wf(),
        ensures
            final(self).wf(),
            final(self)@ == old(self)@.commanded(command),
            outcome == if old(self)@.restart_due(Some(command)) {
                (Outcome::Persist { highscore: old(self)@.best() as u64 })
            } else {
                Outcome::Continue
            },
    {
        match command {
            Command::Quit => self.exit(),
            Command::MoveDown => self.down(),
            Command::MoveUp => self.up(),
            Command::MoveRight => self.right(),
            Command::MoveLeft => self.left(),
            Command::TogglePause => self.pause(),
            Command::Restart => {
                if self.dead {
                    return Outcome::Persist { highscore: self.best() };
                }
            },
            Command::ToggleAutoplay => self.auto(),
        }
        Outcome::Continue
    }

    /// Handles the press of a key: `q` quits, the arrows turn, escape
    /// pauses, enter restarts, tab switches autoplay; any other key is
    /// ignored.
    pub fn handle_key_event(&mut self, key: Key) -> (outcome: Outcome)
        requires
            old(self).wf(),
        ensures
            final(self).wf(),
            final(self)@ == old(self)@.pressed(key),
            outcome == if old(self)@.restart_due(command_of(key)) {
                (Outcome::Persist { highscore: old(self)@.best() as u64 })
            } else {
                Outcome::Continue
            },
    {
        match key_command(key) {
            Some(command) => self.command(command),
            None => Outcome::Continue,
        }
    }

    /// Handles one event of the terminal: the press of a key is handled as
    /// `handle_key_event` says, anything else is ignored.
    pub fn handle_events(&mut self, event: InputEvent) -> (outcome: Outcome)
        requires
            old(self).wf(),
        ensures
            final(self).wf(),
            final(self)@ == old(self)@.handled(event),
            outcome == if old(self)@.restart_due(command_in(event)) {
                (Outcome::Persist { highscore: old(self)@.best() as u64 })
            } else {
                Outcome::Continue
            },
    {
        match event_command(event) {
            Some(command) => self.command(command),
            None => Outcome::Continue,
        }
    }

    // ----- the simulation step -----
    /// Puts the food where `drawn` says, or right beside it where the head
    /// is exactly there. A place where no food may lie is refused, and the
    /// food stays where it is.
    pub fn spawn_food(&mut self, drawn: Position) -> (placed: bool)
        requires
            old(self).wf(),
        ensures
            final(self).wf(),
            placed == drawn@.spawnable(),
            final(self)@ == old(self)@.fed_at(old(self)@.landing(drawn@)),
    {
        if !drawn.can_hold_food() {
            return false;
        }
        let ghost before = self@;
        self.fruits = food_spot(self.head, drawn);
        proof {
            same_creature_same_links(before, self@);
        }
        true
    }

    /// Draws a place for the food at random among those where food may lie.
    fn draw_spot() -> (drawn: Position)
        ensures
            drawn@.spawnable(),
    {
        let x = draw_between(-HALF_WIDTH, HALF_WIDTH);
        let y = draw_between(-HALF_HEIGHT, HALF_HEIGHT);
        Position { x, y }
    }

    /// Moves the food to a place drawn at random among those where food may
    /// lie, never onto the head. Nothing but the food changes. Which place
    /// is drawn is left open: the food lands as `spawn_food` says for some
    /// place where food may lie.
    pub fn update_enemies(&mut self)
        requires
            old(self).wf(),
        ensures
            final(self).wf(),
            final(self)@ == old(self)@.fed_at(final(self)@.food),
            exists|drawn: Point| #[trigger]
                drawn.spawnable() && final(self)@.food == old(self)@.landing(drawn),
            final(self)@.food.spawnable(),
            final(self)@.food != old(self)@.head,
    {
        let drawn = App::draw_spot();
        let placed = self.spawn_food(drawn);
        assert(drawn@.spawnable() && self@.food == old(self)@.landing(drawn@));
    }

    /// The pickup check for a given draw: where the head touches the food,
    /// the score rises by `FOOD_SCORE`, the food moves to where `drawn`
    /// lands and the chain grows by one segment at its end. Otherwise
    /// nothing changes.
    ///
    /// The score must have room for the food that is picked up.
    pub fn collision_check_with(&mut self, drawn: Position) -> (picked: bool)
        requires
            old(self).wf(),
            old(self)@.pickup_due() ==> old(self)@.score + FOOD_SCORE <= u64::MAX,
        ensures
            final(self).wf(),
            picked == old(self)@.pickup_due(),
            final(self)@ == old(self)@.picked_up(old(self)@.landing(drawn@)),
            picked && drawn@.spawnable() && drawn@ != old(self)@.head ==> final(self)@.food
                == drawn@,
            picked && drawn@.spawnable() && drawn@ != old(self)@.head && drawn@ != old(self)@.food
                ==> final(self)@.food != old(self)@.food,
            final(self)@.segments.len() >= old(self)@.segments.len(),
            final(self)@.segments.subrange(0, old(self)@.segments.len() as int)
                == old(self)@.segments,
            final(self)@.directions.subrange(0, old(self)@.directions.len() as int)
                == old(self)@.directions,
    {
        proof {
            pickup_only_appends(self@, self@.landing(drawn@));
        }
        if !self.head.touches(self.fruits, PICKUP_TOLERANCE) {
            return false;
        }
        let ghost before = self@;
        self.score += FOOD_SCORE;
        proof {
            same_creature_same_links(before, self@);
        }
        self.spawn_food(drawn);
        self.append_segment();
        true
    }

    /// The pickup check: where the head touches the food, the score rises
    /// by `FOOD_SCORE`, the food moves to a place drawn at random and the
    /// chain grows by one segment at its end. Otherwise nothing changes.
    /// Which place is drawn is left open: the game changes as
    /// `collision_check_with` says for some place where food may lie.
    ///
    /// The score must have room for the food that is picked up.
    pub fn collision_check(&mut self)
        requires
            old(self).wf(),
            old(self)@.pickup_due() ==> old(self)@.score + FOOD_SCORE <= u64::MAX,
        ensures
            final(self).wf(),
            final(self)@ == old(self)@.picked_up(final(self)@.food),
            exists|drawn: Point| #[trigger]
                drawn.spawnable() && final(self)@ == old(self)@.picked_up(
                    old(self)@.landing(drawn),
                ),
            old(self)@.pickup_due() ==> final(self)@.food.spawnable(),
            old(self)@.pickup_due() ==> final(self)@.food != old(self)@.head,
            final(self)@.segments.len() >= old(self)@.segments.len(),
            final(self)@.segments.subrange(0, old(self)@.segments.len() as int)
                == old(self)@.segments,
            final(self)@.directions.subrange(0, old(self)@.directions.len() as int)
                == old(self)@.directions,
    {
        if self.head.touches(self.fruits, PICKUP_TOLERANCE) {
            let drawn = App::draw_spot();
            self.collision_check_with(drawn);
            assert(drawn@.spawnable() && self@ == old(self)@.picked_up(
                old(self)@.landing(drawn@),
            ));
        } else {
            let ghost centre = Point { x: 0, y: 0 };
            assert(centre.spawnable() && self@ == old(self)@.picked_up(
                old(self)@.landing(centre),
            ));
            assert(self@.segments.subrange(0, self@.segments.len() as int) =~= self@.segments);
            assert(self@.directions.subrange(0, self@.directions.len() as int)
                =~= self@.directions);
        }
    }

    /// The death check: the creature dies where its head has left the field
    /// or touches one of its segments.
    pub fn death_check(&mut self)
        requires
            old(self).wf(),
        ensures
            final(self).wf(),
            final(self)@ == old(self)@.judged(),
    {
        let ghost before = self@;
        proof {
            same_creature_same_links(before, before.judged());
        }
        if self.head.out_of_bounds() {
            self.dead = true;
            return;
        }
        let mut hit = false;
        let mut i: usize = 0;
        while i < self.segments.len() && !hit
            invariant
                i <= self.segments@.len(),
                self@ == old(self)@,
                hit ==> self@.hits_body(),
                !hit ==> forall|j: int|
                    0 <= j < i ==> !(#[trigger] self@.segments[j]).touches(
                        self@.head,
                        COLLISION_TOLERANCE as int,
                    ),
            decreases self.segments@.len() - i + if hit { 0int } else { 1int },
        {
            assert(self@.segments[i as int] == self.segments@[i as int]@);
            if self.segments[i].touches(self.head, COLLISION_TOLERANCE) {
                hit = true;
            } else {
                i += 1;
            }
        }
        if hit {
            self.dead = true;
        }
    }

    /// The highscore update: the highscore rises to the score where the
    /// score is above it.
    pub fn highscore(&mut self)
        requires
            old(self).wf(),
        ensures
            final(self).wf(),
            final(self)@ == old(self)@.scored(),
    {
        proof {
            same_creature_same_links(self@, self@.scored());
        }
        if self.score > self.highscore {
            self.highscore = self.score;
        }
    }

    /// The position update: unless the creature is dead, the head moves one
    /// step in its heading and the chain follows, each segment onto the
    /// place that the one before it just left.
    ///
    /// The head of a living creature must have room for its step.
    pub fn update_position(&mut self)
        requires
            old(self).wf(),
            old(self)@.dead || old(self)@.head.can_step(),
        ensures
            final(self).wf(),
            final(self)@ == old(self)@.moved(),
    {
        if self.dead {
            return;
        }
        let ghost before = self@;
        let n = self.segments.len();
        proof {
            move_keeps_invariant(before);
            assert forall|i: int| 0 <= i < n implies can_step(#[trigger] self.segments@[i]) by {
                chain_stays_within_reach(before, i);
                assert(before.segments[i] == self.segments@[i]@);
                assert((i + 1) * UNIT <= n * 1000);
                assert(before.head.in_range());
            }
        }
        self.head = self.head.advanced(self.direction[0]);
        self.update_segments();
    }

    /// Whether every segment can take a step without leaving the range of
    /// its coordinates.
    spec fn chain_can_step(&self) -> bool {
        forall|i: int| 0 <= i < self.segments@.len() ==> can_step(#[trigger] self.segments@[i])
    }

    /// The chain's part of the position update: every segment moves one
    /// step in its own heading and then takes over the heading that the one
    /// before it, or the head, just moved in.
    fn update_segments(&mut self)
        requires
            old(self)@.directions.len() == old(self)@.segments.len() + 1,
            old(self).chain_can_step(),
        ensures
            final(self)@ == old(self)@.followed(),
            final(self)@.segments.len() == old(self)@.segments.len(),
            final(self)@.directions.len() == old(self)@.directions.len(),
            final(self)@.directions.len() == final(self)@.segments.len() + 1,
    {
        let ghost before = self@;
        let n = self.segments.len();
        let mut passed = self.direction[0];
        let mut i: usize = 0;
        while i < n
            invariant
                i <= n,
                n == before.segments.len(),
                before.directions.len() == n + 1,
                before == old(self)@,
                old(self).chain_can_step(),
                self@.segments.len() == n,
                self@.directions.len() == n + 1,
                passed == before.directions[i as int],
                forall|j: int|
                    0 <= j < i ==> self@.segments[j] == before.followed().segments[j],
                forall|j: int| i <= j < n ==> self.segments@[j] == old(self).segments@[j],
                forall|j: int|
                    0 <= j <= i ==> self@.directions[j] == before.followed().directions[j],
                forall|j: int| i < j <= n ==> self@.directions[j] == before.directions[j],
                self@ == (Game {
                    segments: self@.segments,
                    directions: self@.directions,
                    ..before
                }),
            decreases n - i,
        {
            let own = self.direction[i + 1];
            let segment = self.segments[i];
            assert(can_step(old(self).segments@[i as int]));
            self.segments.set(i, segment.advanced(own));
            self.direction.set(i + 1, passed);
            passed = own;
            i += 1;
        }
        assert(self@.segments =~= before.followed().segments);
        assert(self@.directions =~= before.followed().directions);
    }

    /// One simulation step: pickup check, death check, highscore update,
    /// position update, in this order. The state afterwards is the one the
    /// model gives for the place where the food now lies. Because the death
    /// check comes before the position update, a living head is never more
    /// than one step outside the field afterwards.
    pub fn step(&mut self)
        requires
            old(self).wf(),
            old(self)@.pickup_due() ==> old(self)@.score + FOOD_SCORE <= u64::MAX,
        ensures
            final(self).wf(),
            final(self)@ == old(self)@.simulated(final(self)@.food),
            old(self)@.pickup_due() ==> final(self)@.food.spawnable(),
            old(self)@.pickup_due() ==> final(self)@.food != old(self)@.head,
            !final(self)@.dead ==> final(self)@.head.near_field(),
            old(self)@.head.near_field() ==> final(self)@.head.near_field(),
    {
        self.collision_check();
        self.death_check();
        self.highscore();
        self.update_position();
    }

    /// What one tick does once the input is handled: nothing while the game
    /// is paused or over; else autoplay takes its turn if it is switched on,
    /// and one simulation step follows. The state afterwards is the one the
    /// model gives for the place where the food now lies.
    pub fn update(&mut self)
        requires
            old(self).wf(),
            old(self)@.running() && old(self)@.pickup_due() ==> old(self)@.score + FOOD_SCORE
                <= u64::MAX,
        ensures
            final(self).wf(),
            final(self)@ == old(self)@.updated(final(self)@.food),
            old(self)@.running() && old(self)@.pickup_due() ==> final(self)@.food.spawnable(),
            old(self)@.running() && old(self)@.pickup_due()
                ==> final(self)@.food != old(self)@.head,
            old(self)@.head.near_field() ==> final(self)@.head.near_field(),
    {
        if self.on_pause || self.dead {
            return;
        }
        if self.auto {
            autorun(self);
        }
        self.step();
    }

    /// One tick of the loop once the input is handled. Once the player has
    /// quit, nothing happens and the caller is told to stop; else the game
    /// is updated and the caller is told to go on.
    pub fn tick(&mut self) -> (go_on: bool)
        requires
            old(self).wf(),
            !old(self)@.exit && old(self)@.running() && old(self)@.pickup_due()
                ==> old(self)@.score + FOOD_SCORE <= u64::MAX,
        ensures
            final(self).wf(),
            go_on == !old(self)@.exit,
            final(self)@ == old(self)@.ticked(final(self)@.food),
            go_on && old(self)@.running() && old(self)@.pickup_due()
                ==> final(self)@.food.spawnable(),
            go_on && old(self)@.running() && old(self)@.pickup_due()
                ==> final(self)@.food != old(self)@.head,
            old(self)@.head.near_field() ==> final(self)@.head.near_field(),
    {
        if self.exit {
            return false;
        }
        self.update();
        true
    }
}

} // verus!
