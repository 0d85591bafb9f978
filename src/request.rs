use vstd::prelude::*;
use crate::game::Direction;

verus! {

/// An inbound client message, as its two text fields.
#[derive(Clone, Debug)]
pub struct PullRequest {
    pub action: String,
    pub direction: String,
}

/// What an inbound message asks for.
#[derive(Clone, Copy, Debug, PartialEq, Eq, Structural)]
pub enum Intent {
    /// Not a pull: dropped without touching the rate limiter or the counters.
    Ignore,
    /// A pull, with its direction where the direction is one of the two known.
    Pull(Option<Direction>),
}

/// The direction that a direction field names, if any.
pub open spec fn direction_named(s: Seq<char>) -> Option<Direction> {
    if s == "left"@ {
        Some(Direction::Left)
    } else if s == "right"@ {
        Some(Direction::Right)
    } else {
        None
    }
}

/// What a message with these fields asks for.
pub open spec fn intent_of(action: Seq<char>, direction: Seq<char>) -> Intent {
    if action == "pull"@ {
        Intent::Pull(direction_named(direction))
    } else {
        Intent::Ignore
    }
}

/// Reads a direction field.
pub fn parse_direction(s: &String) -> (r: Option<Direction>)
    ensures
        r == direction_named(s@),
{
    let left = "left".to_owned();
    let right = "right".to_owned();
    if *s == left {
        Some(Direction::Left)
    } else if *s == right {
        Some(Direction::Right)
    } else {
        None
    }
}

impl PullRequest {
    /// Decides what this message asks for: only the action `pull` has an
    /// effect, and only the directions `left` and `right` move the game.
    pub fn intent(&self) -> (r: Intent)
        ensures
            r == intent_of(self.action@, self.direction@),
    {
        let pull = "pull".to_owned();
        if self.action == pull {
            Intent::Pull(parse_direction(&self.direction))
        } else {
            Intent::Ignore
        }
    }
}

/// Decides what an inbound message asks for; a message that could not be read
/// as a request asks for nothing.
pub fn classify(message: &Option<PullRequest>) -> (r: Intent)
    ensures
        r == match message {
            Some(m) => intent_of(m.action@, m.direction@),
            None => Intent::Ignore,
        },
{
    match message {
        Some(m) => m.intent(),
        None => Intent::Ignore,
    }
}

} // verus!
