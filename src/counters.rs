use vstd::prelude::*;
use crate::game::{Direction, GameState, Tally, pulled};

verus! {

/// The three shared counters as the store holds them: a counter that was never
/// created is absent.
#[derive(Clone, Copy, Debug, PartialEq, Eq, Structural)]
pub struct CounterStore {
    pub position: Option<i64>,
    pub left_pulls: Option<i64>,
    pub right_pulls: Option<i64>,
}

/// A counter after create-if-absent: an existing value is kept, a missing one
/// starts at zero.
pub open spec fn created(c: Option<i64>) -> Option<i64> {
    match c {
        Some(v) => Some(v),
        None => Some(0),
    }
}

/// What an increment reads a counter as: an absent counter counts as zero.
pub open spec fn value_of(c: Option<i64>) -> int {
    match c {
        Some(v) => v as int,
        None => 0,
    }
}

fn create_if_absent(c: Option<i64>) -> (r: Option<i64>)
    ensures
        r == created(c),
{
    match c {
        Some(v) => Some(v),
        None => Some(0),
    }
}

/// Adds `by` to a counter, as the store's atomic increment does; `None` where
/// the sum leaves the range of `i64`.
fn incremented(c: Option<i64>, by: i64) -> (r: Option<i64>)
    ensures
        r is Some <==> i64::MIN <= value_of(c) + by <= i64::MAX,
        r is Some ==> r->0 == value_of(c) + by,
{
    let base: i64 = match c {
        Some(v) => v,
        None => 0,
    };
    base.checked_add(by)
}

impl CounterStore {
    /// The counters with create-if-absent applied to each.
    pub open spec fn initialized(self) -> CounterStore {
        CounterStore {
            position: created(self.position),
            left_pulls: created(self.left_pulls),
            right_pulls: created(self.right_pulls),
        }
    }

    pub open spec fn tally(self) -> Tally {
        Tally {
            position: value_of(self.position),
            left_pulls: value_of(self.left_pulls),
            right_pulls: value_of(self.right_pulls),
        }
    }

    /// A store in which no counter exists yet.
    pub fn empty() -> (r: CounterStore)
        ensures
            r.position is None,
            r.left_pulls is None,
            r.right_pulls is None,
    {
        CounterStore { position: None, left_pulls: None, right_pulls: None }
    }

    /// Creates each missing counter at zero and never overwrites one that exists.
    pub fn initialize(&mut self)
        ensures
            *final(self) == old(self).initialized(),
    {
        self.position = create_if_absent(self.position);
        self.left_pulls = create_if_absent(self.left_pulls);
        self.right_pulls = create_if_absent(self.right_pulls);
    }

    /// Applies one accepted pull: first the direction's counter grows by one,
    /// then the position moves by the direction's step. Returns the new
    /// position, or `None` where an increment overflows; a failed position
    /// increment leaves the counter increment in place, as the store does.
    pub fn apply_pull(&mut self, d: Direction) -> (r: Option<i64>)
        ensures
            r is Some <==> (pulled(old(self).tally(), d).left_pulls <= i64::MAX
                && pulled(old(self).tally(), d).right_pulls <= i64::MAX
                && i64::MIN <= pulled(old(self).tally(), d).position <= i64::MAX),
            r is Some ==> final(self).tally() == pulled(old(self).tally(), d),
            r is Some ==> final(self).position == Some(r->0),
            r is None ==> final(self).position == old(self).position,
    {
        match d {
            Direction::Left => match incremented(self.left_pulls, 1) {
                Some(v) => self.left_pulls = Some(v),
                None => return None,
            },
            Direction::Right => match incremented(self.right_pulls, 1) {
                Some(v) => self.right_pulls = Some(v),
                None => return None,
            },
        }
        match incremented(self.position, d.increment()) {
            Some(p) => {
                self.position = Some(p);
                Some(p)
            },
            None => None,
        }
    }

    /// The snapshot that a read of the three counters gives, with the number of
    /// connected users; `None` where a counter does not exist.
    pub fn snapshot(&self, active_users: usize) -> (r: Option<GameState>)
        ensures
            r is Some <==> (self.position is Some && self.left_pulls is Some
                && self.right_pulls is Some),
            r is Some ==> r->0.tally() == self.tally() && r->0.active_users == active_users,
    {
        match (self.position, self.left_pulls, self.right_pulls) {
            (Some(position), Some(left_pulls), Some(right_pulls)) => Some(
                GameState { position, left_pulls, right_pulls, active_users },
            ),
            _ => None,
        }
    }
}

/// Initialization is idempotent: running it a second time changes nothing, and
/// a counter that already exists is never reset.
pub proof fn lemma_initialize_idempotent(s: CounterStore)
    ensures
        s.initialized().initialized() == s.initialized(),
        s.position is Some ==> s.initialized().position == s.position,
        s.left_pulls is Some ==> s.initialized().left_pulls == s.left_pulls,
        s.right_pulls is Some ==> s.initialized().right_pulls == s.right_pulls,
        s.initialized().tally() == s.tally(),
{
}

} // verus!
