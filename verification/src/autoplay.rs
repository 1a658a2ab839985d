//! Autoplay: a fixed policy that steers the creature in place of the
//! player. It chases the food while the chain is short and patrols along
//! the walls once the chain is long; it looks at no segment.

use vstd::prelude::*;
use crate::app::App;
use crate::geometry::{Direction, HALF_HEIGHT, HALF_WIDTH, PICKUP_TOLERANCE, UNIT};
use crate::model::PATROL_THRESHOLD;

verus! {

/// Lets autoplay take its turn: at most one request to turn, which the
/// game takes as it takes one of the player.
pub fn autorun(app: &mut App)
    requires
        old(app).wf(),
    ensures
        final(app).wf(),
        final(app)@ == old(app)@.autopiloted(),
{
    let head = app.head();
    let food = app.food();
    let heading = app.heading();
    if app.length() > PATROL_THRESHOLD {
        if head.x < HALF_WIDTH && head.x > -HALF_WIDTH {
            if head.y == HALF_HEIGHT - UNIT && heading == Direction::Up {
                app.right();
            } else if head.y == HALF_HEIGHT - UNIT && heading == Direction::Right {
                app.down();
            } else if head.y == -HALF_HEIGHT && heading == Direction::Down {
                app.right();
            } else if head.y == -HALF_HEIGHT && heading == Direction::Right {
                app.up();
            }
        } else if head.x == HALF_WIDTH {
            if head.y < HALF_HEIGHT {
                app.up();
            } else if head.y == HALF_HEIGHT {
                app.left();
            }
        } else if head.x == -HALF_WIDTH {
            if head.y == HALF_HEIGHT {
                app.down();
            } else if head.y == -HALF_HEIGHT {
                app.right();
            }
        }
        return ;
    }
    if head.x < food.x {
        if heading == Direction::Left {
            app.up();
            return ;
        }
        app.right();
        return ;
    }
    if head.x > food.x + PICKUP_TOLERANCE {
        if heading == Direction::Right {
            app.up();
            return ;
        }
        app.left();
        return ;
    }
    if head.y < food.y {
        if heading == Direction::Down {
            app.left();
            return ;
        }
        app.up();
        return ;
    }
    if head.y > food.y + PICKUP_TOLERANCE {
        if heading == Direction::Up {
            app.left();
            return ;
        }
        app.down();
        return ;
    }
}

} // verus!
