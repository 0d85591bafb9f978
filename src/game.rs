use vstd::prelude::*;

verus! {

/// The side of the rope a pull goes to.
#[derive(Clone, Copy, Debug, PartialEq, Eq, Structural)]
pub enum Direction {
    Left,
    Right,
}

impl Direction {
    /// What one pull in this direction adds to the position.
    pub open spec fn delta(self) -> int {
        match self {
            Direction::Left => -1,
            Direction::Right => 1,
        }
    }

    /// The signed step that a pull in this direction applies to the position.
    pub fn increment(self) -> (r: i64)
        ensures
            r == self.delta(),
    {
        match self {
            Direction::Left => -1,
            Direction::Right => 1,
        }
    }
}

/// A full snapshot of the shared game, as broadcast to every client.
#[derive(Clone, Copy, Debug, PartialEq, Eq, Structural)]
pub struct GameState {
    pub position: i64,
    pub left_pulls: i64,
    pub right_pulls: i64,
    pub active_users: usize,
}

/// The three shared counters as mathematical integers.
pub struct Tally {
    pub position: int,
    pub left_pulls: int,
    pub right_pulls: int,
}

/// The counters after one more accepted pull.
pub open spec fn pulled(t: Tally, d: Direction) -> Tally {
    Tally {
        position: t.position + d.delta(),
        left_pulls: t.left_pulls + if d == Direction::Left { 1int } else { 0int },
        right_pulls: t.right_pulls + if d == Direction::Right { 1int } else { 0int },
    }
}

/// The counters after a sequence of accepted pulls, in the order given.
pub open spec fn pulled_all(t: Tally, pulls: Seq<Direction>) -> Tally
    decreases pulls.len(),
{
    if pulls.len() == 0 {
        t
    } else {
        pulled(pulled_all(t, pulls.drop_last()), pulls.last())
    }
}

/// The sum of the signed steps of a sequence of pulls.
pub open spec fn net_delta(pulls: Seq<Direction>) -> int
    decreases pulls.len(),
{
    if pulls.len() == 0 {
        0
    } else {
        net_delta(pulls.drop_last()) + pulls.last().delta()
    }
}

/// How many pulls of a sequence go in direction `d`.
pub open spec fn count_dir(pulls: Seq<Direction>, d: Direction) -> nat
    decreases pulls.len(),
{
    if pulls.len() == 0 {
        0
    } else {
        count_dir(pulls.drop_last(), d) + if pulls.last() == d { 1nat } else { 0nat }
    }
}

impl GameState {
    pub open spec fn tally(self) -> Tally {
        Tally {
            position: self.position as int,
            left_pulls: self.left_pulls as int,
            right_pulls: self.right_pulls as int,
        }
    }

    /// The state before any pull: every counter at zero.
    pub fn initial(active_users: usize) -> (r: GameState)
        ensures
            r.position == 0,
            r.left_pulls == 0,
            r.right_pulls == 0,
            r.active_users == active_users,
    {
        GameState { position: 0, left_pulls: 0, right_pulls: 0, active_users }
    }

    /// The state after one more accepted pull in direction `d`; `None` where a
    /// counter would leave the range of `i64`.
    pub fn with_pull(&self, d: Direction) -> (r: Option<GameState>)
        ensures
            r is Some <==> (i64::MIN <= pulled(self.tally(), d).position <= i64::MAX
                && pulled(self.tally(), d).left_pulls <= i64::MAX
                && pulled(self.tally(), d).right_pulls <= i64::MAX),
            r is Some ==> r->0.tally() == pulled(self.tally(), d)
                && r->0.active_users == self.active_users,
    {
        let position = match self.position.checked_add(d.increment()) {
            Some(p) => p,
            None => return None,
        };
        match d {
            Direction::Left => match self.left_pulls.checked_add(1) {
                Some(l) => Some(GameState { position, left_pulls: l, ..*self }),
                None => None,
            },
            Direction::Right => match self.right_pulls.checked_add(1) {
                Some(r) => Some(GameState { position, right_pulls: r, ..*self }),
                None => None,
            },
        }
    }
}

/// Pulls commute: two accepted pulls, applied in either order, leave the same
/// counters.
pub proof fn lemma_pulls_commute(t: Tally, a: Direction, b: Direction)
    ensures
        pulled(pulled(t, a), b) == pulled(pulled(t, b), a),
{
}

/// After any sequence of accepted pulls the position has moved by the sum of
/// their signed steps, each side's counter has grown by the pulls on that side,
/// and the two counters together have grown by the number of pulls.
pub proof fn lemma_pulled_all_totals(t: Tally, pulls: Seq<Direction>)
    ensures
        pulled_all(t, pulls).position == t.position + net_delta(pulls),
        pulled_all(t, pulls).left_pulls == t.left_pulls + count_dir(pulls, Direction::Left),
        pulled_all(t, pulls).right_pulls == t.right_pulls + count_dir(pulls, Direction::Right),
        pulled_all(t, pulls).left_pulls + pulled_all(t, pulls).right_pulls == t.left_pulls
            + t.right_pulls + pulls.len(),
        net_delta(pulls) == count_dir(pulls, Direction::Right) as int - count_dir(
            pulls,
            Direction::Left,
        ) as int,
    decreases pulls.len(),
{
    if pulls.len() > 0 {
        lemma_pulled_all_totals(t, pulls.drop_last());
    }
}

/// The final counters do not depend on the order in which accepted pulls were
/// applied: two sequences holding the same pulls, in any interleaving, end in
/// the same state.
pub proof fn lemma_order_independent(t: Tally, pulls: Seq<Direction>, other: Seq<Direction>)
    requires
        pulls.to_multiset() == other.to_multiset(),
    ensures
        pulled_all(t, pulls) == pulled_all(t, other),
{
    lemma_pulled_all_totals(t, pulls);
    lemma_pulled_all_totals(t, other);
    lemma_count_dir_multiset(pulls, Direction::Left);
    lemma_count_dir_multiset(pulls, Direction::Right);
    lemma_count_dir_multiset(other, Direction::Left);
    lemma_count_dir_multiset(other, Direction::Right);
}

proof fn lemma_count_dir_multiset(pulls: Seq<Direction>, d: Direction)
    ensures
        count_dir(pulls, d) == pulls.to_multiset().count(d),
    decreases pulls.len(),
{
    if pulls.len() > 0 {
        lemma_count_dir_multiset(pulls.drop_last(), d);
        pulls.drop_last().to_multiset_ensures();
        assert(pulls =~= pulls.drop_last().push(pulls.last()));
        pulls.to_multiset_ensures();
    } else {
        pulls.to_multiset_ensures();
    }
}

/// Accepted pulls never lower either counter, so their sum never decreases.
pub proof fn lemma_counters_monotone(t: Tally, pulls: Seq<Direction>)
    ensures
        pulled_all(t, pulls).left_pulls >= t.left_pulls,
        pulled_all(t, pulls).right_pulls >= t.right_pulls,
{
    lemma_pulled_all_totals(t, pulls);
}

} // verus!
