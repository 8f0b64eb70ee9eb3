//! The throws, the outcome of a round, and the cyclic dominance order.

use vstd::prelude::*;

verus! {

/// One throw of the game. `Invalid` is a sentinel for unparseable
/// input; it is never a legal play and never reaches the evaluator.
#[derive(Clone, Copy, Debug, PartialEq, Eq, Structural)]
pub enum Throw {
    Rock,
    Paper,
    Scissors,
    Invalid,
}

/// The result of a round, from the perspective of the reference
/// (human) throw.
#[derive(Clone, Copy, Debug, PartialEq, Eq, Structural)]
pub enum GameResult {
    YouWin,
    YouLose,
    Tie,
}

/// A throw may take part in a round only if it is one of the three
/// legal tags.
pub open spec fn is_legal(t: Throw) -> bool {
    t != Throw::Invalid
}

/// The position of a legal throw in the cyclic order: rock, paper,
/// scissors. `Invalid` sits outside the cycle.
pub open spec fn index_of(t: Throw) -> int {
    match t {
        Throw::Rock => 0,
        Throw::Paper => 1,
        Throw::Scissors => 2,
        Throw::Invalid => 3,
    }
}

/// `a` beats `b` exactly when `a` sits one step after `b` in the
/// cycle: rock beats scissors, scissors beats paper, paper beats rock.
pub open spec fn beats(a: Throw, b: Throw) -> bool {
    &&& is_legal(a)
    &&& is_legal(b)
    &&& index_of(a) == (index_of(b) + 1) % 3
}

/// The outcome of a round: equal throws tie, a dominating reference
/// throw wins, anything else loses.
pub open spec fn evaluate_spec(reference: Throw, opponent: Throw) -> GameResult {
    if reference == opponent {
        GameResult::Tie
    } else if beats(reference, opponent) {
        GameResult::YouWin
    } else {
        GameResult::YouLose
    }
}

impl Throw {
    /// The position of a legal throw in the cycle, as a machine integer.
    pub fn index(self) -> (i: u8)
        requires
            is_legal(self),
        ensures
            i as int == index_of(self),
            i < 3,
    {
        match self {
            Throw::Rock => 0,
            Throw::Paper => 1,
            Throw::Scissors => 2,
            Throw::Invalid => {
                proof {
                    assert(false);
                }
                0
            },
        }
    }

    /// The legal throw sitting at a given position of the cycle.
    pub fn from_index(i: u8) -> (t: Throw)
        requires
            i < 3,
        ensures
            is_legal(t),
            index_of(t) == i as int,
    {
        if i == 0 {
            Throw::Rock
        } else if i == 1 {
            Throw::Paper
        } else {
            Throw::Scissors
        }
    }
}

/// Evaluates one round: tie on equal throws, a win exactly when the
/// reference throw dominates the opponent's, a loss exactly when the
/// opponent's dominates the reference.
pub fn evaluate(reference: Throw, opponent: Throw) -> (r: GameResult)
    requires
        is_legal(reference),
        is_legal(opponent),
    ensures
        r == evaluate_spec(reference, opponent),
        r == GameResult::Tie <==> reference == opponent,
        r == GameResult::YouWin <==> beats(reference, opponent),
        r == GameResult::YouLose <==> beats(opponent, reference),
{
    let ia = reference.index();
    let ib = opponent.index();
    if ia == ib {
        GameResult::Tie
    } else if ia == (ib + 1) % 3 {
        GameResult::YouWin
    } else {
        GameResult::YouLose
    }
}

/// The one error of the game: the human's input named no legal throw.
#[derive(Clone, Copy, Debug, PartialEq, Eq, Structural)]
pub enum GameError {
    UnparseableThrow,
}

/// Relies on `rand::rng` and `rand::RngExt::random_range`: the draw
/// lands inside the given range, which here is non-empty.
#[verifier::external_body]
fn random_index() -> (r: u8)
    ensures
        r < 3,
{
    let mut rng = rand::rng();
    rand::RngExt::random_range(&mut rng, 0..3u8)
}

impl Throw {
    /// Validates the human's throw: a legal throw is accepted
    /// unchanged, the invalid sentinel is rejected as the game's one
    /// fatal error.
    pub fn user(self) -> (r: Result<Throw, GameError>)
        ensures
            is_legal(self) ==> r == Ok::<Throw, GameError>(self),
            !is_legal(self) ==> r == Err::<Throw, GameError>(GameError::UnparseableThrow),
    {
        if matches!(self, Throw::Invalid) {
            Err(GameError::UnparseableThrow)
        } else {
            Ok(self)
        }
    }

    /// Draws the opponent's throw at random among the three legal
    /// throws. Of a random draw nothing more than legality is promised.
    pub fn computer() -> (t: Throw)
        ensures
            is_legal(t),
    {
        Throw::from_index(random_index())
    }
}

/// The display name of a throw.
pub open spec fn throw_label(t: Throw) -> Seq<char> {
    match t {
        Throw::Rock => "Rock"@,
        Throw::Paper => "Paper"@,
        Throw::Scissors => "Scissors"@,
        Throw::Invalid => "Invalid Input"@,
    }
}

/// The display text of a round's result.
pub open spec fn result_message(r: GameResult) -> Seq<char> {
    match r {
        GameResult::YouWin => "You win, congrats!"@,
        GameResult::YouLose => "Sorry, you lose"@,
        GameResult::Tie => "It's a tie!"@,
    }
}

impl Throw {
    /// The display name of this throw.
    pub fn label(self) -> (s: &'static str)
        ensures
            s@ == throw_label(self),
    {
        match self {
            Throw::Rock => "Rock",
            Throw::Paper => "Paper",
            Throw::Scissors => "Scissors",
            Throw::Invalid => "Invalid Input",
        }
    }
}

impl GameResult {
    /// The display text of this result.
    pub fn message(self) -> (s: &'static str)
        ensures
            s@ == result_message(self),
    {
        match self {
            GameResult::YouWin => "You win, congrats!",
            GameResult::YouLose => "Sorry, you lose",
            GameResult::Tie => "It's a tie!",
        }
    }
}

impl GameError {
    /// The diagnostic printed for unparseable input.
    pub fn message(self) -> (s: &'static str)
        ensures
            s@ == "I'm not playing with you now."@,
    {
        "I'm not playing with you now."
    }

    /// The process status that reports this error: the one non-zero
    /// exit of the game.
    pub fn exit_code(self) -> (c: i32)
        ensures
            c == 1i32,
    {
        1
    }
}

/// A round ties exactly when the two throws are equal.
pub proof fn lemma_tie_iff_equal(a: Throw, b: Throw)
    requires
        is_legal(a),
        is_legal(b),
    ensures
        evaluate_spec(a, b) == GameResult::Tie <==> a == b,
{
}

/// The dominance relation is a total cyclic order on the three legal
/// throws: each beats exactly one other, loses to exactly one other,
/// and never both ways against the same opponent.
pub proof fn lemma_cyclic_order(a: Throw)
    requires
        is_legal(a),
    ensures
        exists|b: Throw| #[trigger] beats(a, b),
        exists|c: Throw| #[trigger] beats(c, a),
        forall|b1: Throw, b2: Throw| beats(a, b1) && beats(a, b2) ==> b1 == b2,
        forall|c1: Throw, c2: Throw| beats(c1, a) && beats(c2, a) ==> c1 == c2,
        forall|b: Throw| #[trigger] beats(a, b) ==> !beats(b, a),
{
    let prey = match a {
        Throw::Rock => Throw::Scissors,
        Throw::Paper => Throw::Rock,
        Throw::Scissors => Throw::Paper,
        Throw::Invalid => Throw::Invalid,
    };
    let hunter = match a {
        Throw::Rock => Throw::Paper,
        Throw::Paper => Throw::Scissors,
        Throw::Scissors => Throw::Rock,
        Throw::Invalid => Throw::Invalid,
    };
    assert(beats(a, prey));
    assert(beats(hunter, a));
}

/// For distinct legal throws the relation is anti-symmetric: the
/// reference wins exactly when the opponent, with the arguments
/// swapped, loses.
pub proof fn lemma_win_lose_antisymmetric(a: Throw, b: Throw)
    requires
        is_legal(a),
        is_legal(b),
        a != b,
    ensures
        evaluate_spec(a, b) == GameResult::YouWin <==> evaluate_spec(b, a) == GameResult::YouLose,
{
}

} // verus!
