//! The game as mathematics: a state, its invariant, and one spec function
//! for every transition. The contracts of the executable game speak of
//! these.

use vstd::prelude::*;
use crate::geometry::{
    settled_spot, steer, Direction, Point, COLLISION_TOLERANCE, HALF_HEIGHT, HALF_WIDTH,
    PICKUP_TOLERANCE, UNIT,
};
use crate::input::{command_in, command_of, Command, InputEvent, Key};

verus! {

/// What one piece of food is worth.
pub const FOOD_SCORE: u64 = 100;

/// Autoplay chases the food while the chain is no longer than this, and
/// patrols along the walls once it is.
pub const PATROL_THRESHOLD: usize = 50;

/// The whole state of a game.
///
/// `directions[0]` is the heading of the head, and `directions[i + 1]` the
/// heading in which `segments[i]` moves on the next tick; `segments[0]` is
/// the segment next to the head.
pub struct Game {
    pub score: nat,
    pub highscore: nat,
    pub exit: bool,
    pub paused: bool,
    pub dead: bool,
    pub auto: bool,
    pub head: Point,
    pub food: Point,
    pub segments: Seq<Point>,
    pub directions: Seq<Direction>,
}

impl Game {
    /// The state in which every game begins.
    pub open spec fn initial() -> Game {
        Game {
            score: 0,
            highscore: 0,
            exit: false,
            paused: false,
            dead: false,
            auto: false,
            head: Point { x: UNIT as int, y: 0 },
            food: Point { x: 0, y: 0 },
            segments: Seq::empty(),
            directions: seq![Direction::Right],
        }
    }

    /// A fresh game with the head at `head`, heading `heading`, and the food
    /// at `food`.
    pub open spec fn laid_out(head: Point, heading: Direction, food: Point) -> Game {
        Game { head, food, directions: seq![heading], ..Game::initial() }
    }

    /// The heading of the head.
    pub open spec fn heading(self) -> Direction {
        self.directions[0]
    }

    /// What segment `i` follows: the head for the first segment, the segment
    /// before it for every other. With `i` the length of the chain, this is
    /// the tail of the creature.
    pub open spec fn leader(self, i: int) -> Point {
        if i == 0 {
            self.head
        } else {
            self.segments[i - 1]
        }
    }

    /// Whether segment `i` is one step behind what it follows, in the
    /// heading it will move in next.
    pub open spec fn follows(self, i: int) -> bool {
        self.segments[i].advanced(self.directions[i + 1]) == self.leader(i)
    }

    /// Every segment is one step behind what it follows.
    pub open spec fn linked(self) -> bool {
        forall|i: int| 0 <= i < self.segments.len() ==> #[trigger] self.follows(i)
    }

    /// The invariant of the game.
    pub open spec fn inv(self) -> bool {
        &&& self.directions.len() == self.segments.len() + 1
        &&& self.head.in_range()
        &&& self.food.in_field()
        &&& self.linked()
    }

    /// The state with `score` as its score.
    pub open spec fn with_score(self, score: nat) -> Game {
        Game { score, ..self }
    }

    /// The state with `highscore` as its highscore.
    pub open spec fn with_highscore(self, highscore: nat) -> Game {
        Game { highscore, ..self }
    }

    // ----- input -----
    /// The state after a request to head in `wanted`.
    pub open spec fn turned(self, wanted: Direction) -> Game {
        Game { directions: self.directions.update(0, steer(self.heading(), wanted)), ..self }
    }

    /// The state after the pause switch was flipped.
    pub open spec fn pause_toggled(self) -> Game {
        Game { paused: !self.paused, ..self }
    }

    /// The state after the autoplay switch was flipped.
    pub open spec fn auto_toggled(self) -> Game {
        Game { auto: !self.auto, ..self }
    }

    /// The state after the player quit.
    pub open spec fn quit(self) -> Game {
        Game { exit: true, ..self }
    }

    /// The state with one more segment: one step behind the tail, against
    /// the heading the tail moves in, which the new segment takes over.
    pub open spec fn grown(self) -> Game {
        let n = self.segments.len() as int;
        Game {
            segments: self.segments.push(self.leader(n).retreated(self.directions[n])),
            directions: self.directions.push(self.directions[n]),
            ..self
        }
    }

    /// The highscore that a restart stores: the best of the highscore and
    /// the score of the game that ended.
    pub open spec fn best(self) -> nat {
        if self.score > self.highscore {
            self.score
        } else {
            self.highscore
        }
    }

    /// The state after a restart that read `stored` as the highscore: a dead
    /// game starts over, a living one goes on as it is.
    pub open spec fn restarted(self, stored: nat) -> Game {
        if self.dead {
            Game {
                highscore: stored,
                exit: self.exit,
                head: Point { x: 0, y: 0 },
                ..Game::initial()
            }
        } else {
            self
        }
    }

    /// The state after `command`. A restart changes nothing here: it is
    /// carried out by `restarted` once the highscore has been stored.
    pub open spec fn commanded(self, command: Command) -> Game {
        match command {
            Command::MoveUp => self.turned(Direction::Up),
            Command::MoveDown => self.turned(Direction::Down),
            Command::MoveLeft => self.turned(Direction::Left),
            Command::MoveRight => self.turned(Direction::Right),
            Command::TogglePause => self.pause_toggled(),
            Command::Restart => self,
            Command::ToggleAutoplay => self.auto_toggled(),
            Command::Quit => self.quit(),
        }
    }

    /// Whether `command` asks this state to store its best score and restart.
    pub open spec fn restart_due(self, command: Option<Command>) -> bool {
        command == Some(Command::Restart) && self.dead
    }

    /// The state after the key `key` was pressed.
    pub open spec fn pressed(self, key: Key) -> Game {
        match command_of(key) {
            Some(command) => self.commanded(command),
            None => self,
        }
    }

    /// The state after the event `event`.
    pub open spec fn handled(self, event: InputEvent) -> Game {
        match command_in(event) {
            Some(command) => self.commanded(command),
            None => self,
        }
    }

    // ----- the simulation step -----
    /// Whether the head is close enough to the food to pick it up.
    pub open spec fn pickup_due(self) -> bool {
        self.head.touches(self.food, PICKUP_TOLERANCE as int)
    }

    /// The state with the food at `spot`.
    pub open spec fn fed_at(self, spot: Point) -> Game {
        Game { food: spot, ..self }
    }

    /// Where the food lies once `drawn` was drawn for it: where `drawn`
    /// settles beside the head, or where it lay before if no food may lie at
    /// `drawn`.
    pub open spec fn landing(self, drawn: Point) -> Point {
        if drawn.spawnable() {
            settled_spot(self.head, drawn)
        } else {
            self.food
        }
    }

    /// The pickup check: where the head touches the food, the score rises,
    /// the food moves to `spot` and the chain grows by one segment.
    pub open spec fn picked_up(self, spot: Point) -> Game {
        if self.pickup_due() {
            Game { score: self.score + FOOD_SCORE as nat, food: spot, ..self }.grown()
        } else {
            self
        }
    }

    /// Whether the head has left the field.
    pub open spec fn out_of_field(self) -> bool {
        !self.head.in_field()
    }

    /// Whether the head runs into one of the segments.
    pub open spec fn hits_body(self) -> bool {
        exists|i: int|
            0 <= i < self.segments.len() && (#[trigger] self.segments[i]).touches(
                self.head,
                COLLISION_TOLERANCE as int,
            )
    }

    /// The death check: the creature dies outside the field and where it
    /// runs into itself, and stays dead.
    pub open spec fn judged(self) -> Game {
        Game { dead: self.dead || self.out_of_field() || self.hits_body(), ..self }
    }

    /// The highscore update.
    pub open spec fn scored(self) -> Game {
        Game { highscore: self.best(), ..self }
    }

    /// The chain's part of the position update: every segment moves one
    /// step in its own heading, and then takes over the heading that the
    /// one before it, or the head, just moved in.
    pub open spec fn followed(self) -> Game {
        Game {
            segments: Seq::new(
                self.segments.len(),
                |i: int| self.segments[i].advanced(self.directions[i + 1]),
            ),
            directions: Seq::new(
                self.directions.len(),
                |i: int|
                    if i == 0 {
                        self.directions[0]
                    } else {
                        self.directions[i - 1]
                    },
            ),
            ..self
        }
    }

    /// The position update: unless the creature is dead, the head moves one
    /// step in its heading and the chain follows.
    pub open spec fn moved(self) -> Game {
        if self.dead {
            self
        } else {
            Game { head: self.head.advanced(self.directions[0]), ..self }.followed()
        }
    }

    /// One simulation step, with `spot` the place the food moves to if it is
    /// picked up: pickup check, death check, highscore update, position
    /// update.
    pub open spec fn simulated(self, spot: Point) -> Game {
        self.picked_up(spot).judged().scored().moved()
    }

    // ----- autoplay -----
    /// The turn that brings the head closer to the food, first along the x
    /// axis, then along the y axis; `None` once the head is within the
    /// pickup band on both.
    pub open spec fn chase(self) -> Option<Direction> {
        if self.head.x < self.food.x {
            Some(Direction::Right)
        } else if self.head.x > self.food.x + PICKUP_TOLERANCE as int {
            Some(Direction::Left)
        } else if self.head.y < self.food.y {
            Some(Direction::Up)
        } else if self.head.y > self.food.y + PICKUP_TOLERANCE as int {
            Some(Direction::Down)
        } else {
            None
        }
    }

    /// The turn to take in place of `wanted` when `wanted` would reverse the
    /// creature on the spot: up for a horizontal turn, left for a vertical
    /// one.
    pub open spec fn escape(wanted: Direction) -> Direction {
        match wanted {
            Direction::Right => Direction::Up,
            Direction::Left => Direction::Up,
            Direction::Up => Direction::Left,
            Direction::Down => Direction::Left,
        }
    }

    /// The turn that autoplay asks for while it chases the food.
    pub open spec fn chase_request(self) -> Option<Direction> {
        match self.chase() {
            Some(wanted) => if wanted == self.heading().opposite() {
                Some(Game::escape(wanted))
            } else {
                Some(wanted)
            },
            None => None,
        }
    }

    /// The turn that autoplay asks for while it patrols along the walls.
    pub open spec fn patrol_request(self) -> Option<Direction> {
        let w = HALF_WIDTH as int;
        let h = HALF_HEIGHT as int;
        let x = self.head.x;
        let y = self.head.y;
        let heading = self.heading();
        if -w < x < w {
            if y == h - UNIT as int && heading == Direction::Up {
                Some(Direction::Right)
            } else if y == h - UNIT as int && heading == Direction::Right {
                Some(Direction::Down)
            } else if y == -h && heading == Direction::Down {
                Some(Direction::Right)
            } else if y == -h && heading == Direction::Right {
                Some(Direction::Up)
            } else {
                None
            }
        } else if x == w {
            if y < h {
                Some(Direction::Up)
            } else if y == h {
                Some(Direction::Left)
            } else {
                None
            }
        } else if x == -w {
            if y == h {
                Some(Direction::Down)
            } else if y == -h {
                Some(Direction::Right)
            } else {
                None
            }
        } else {
            None
        }
    }

    /// The turn that autoplay asks for, if any.
    pub open spec fn autoplay_request(self) -> Option<Direction> {
        if self.segments.len() > PATROL_THRESHOLD {
            self.patrol_request()
        } else {
            self.chase_request()
        }
    }

    /// The state after autoplay had its turn.
    pub open spec fn autopiloted(self) -> Game {
        match self.autoplay_request() {
            Some(wanted) => self.turned(wanted),
            None => self,
        }
    }

    // ----- the tick -----
    /// Whether the simulation runs: the game is neither paused nor over.
    pub open spec fn running(self) -> bool {
        !self.paused && !self.dead
    }

    /// What one tick does after the input was handled: nothing unless the
    /// game is running; else autoplay takes its turn if it is switched on,
    /// and one simulation step follows.
    pub open spec fn updated(self, spot: Point) -> Game {
        if !self.running() {
            self
        } else if self.auto {
            self.autopiloted().simulated(spot)
        } else {
            self.simulated(spot)
        }
    }

    /// One tick of the loop after the input was handled: once the player
    /// has quit nothing happens any more; else the game is updated.
    pub open spec fn ticked(self, spot: Point) -> Game {
        if self.exit {
            self
        } else {
            self.updated(spot)
        }
    }
}

} // verus!
