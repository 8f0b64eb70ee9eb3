use rps::game::{evaluate, GameError, GameResult, Throw};
use rps::text::{parse_throw, play_again};

const LEGAL: [Throw; 3] = [Throw::Rock, Throw::Paper, Throw::Scissors];

#[test]
fn tie_iff_equal() {
    for &a in LEGAL.iter() {
        for &b in LEGAL.iter() {
            let r = evaluate(a, b);
            assert_eq!(r == GameResult::Tie, a == b);
        }
    }
}

#[test]
fn cyclic_dominance() {
    assert_eq!(evaluate(Throw::Rock, Throw::Scissors), GameResult::YouWin);
    assert_eq!(evaluate(Throw::Scissors, Throw::Paper), GameResult::YouWin);
    assert_eq!(evaluate(Throw::Paper, Throw::Rock), GameResult::YouWin);
    assert_eq!(evaluate(Throw::Scissors, Throw::Rock), GameResult::YouLose);
    assert_eq!(evaluate(Throw::Paper, Throw::Scissors), GameResult::YouLose);
    assert_eq!(evaluate(Throw::Rock, Throw::Paper), GameResult::YouLose);
}

#[test]
fn win_lose_antisymmetric() {
    for &a in LEGAL.iter() {
        for &b in LEGAL.iter() {
            if a != b {
                let forward = evaluate(a, b);
                let backward = evaluate(b, a);
                assert_eq!(forward == GameResult::YouWin, backward == GameResult::YouLose);
                assert_eq!(forward == GameResult::YouLose, backward == GameResult::YouWin);
            }
        }
    }
}

#[test]
fn parse_is_case_insensitive_and_trims_trailing() {
    assert_eq!(parse_throw("ROCK\n"), Throw::Rock);
    assert_eq!(parse_throw("Rock"), Throw::Rock);
    assert_eq!(parse_throw("rock "), Throw::Rock);
    assert_eq!(parse_throw("rock"), Throw::Rock);
    assert_eq!(parse_throw("PAPER\r\n"), Throw::Paper);
    assert_eq!(parse_throw("PaPeR"), Throw::Paper);
    assert_eq!(parse_throw("paper\t"), Throw::Paper);
    assert_eq!(parse_throw("SCISSORS"), Throw::Scissors);
    assert_eq!(parse_throw("ScIsSoRs \t\n"), Throw::Scissors);
    assert_eq!(parse_throw("scissors\n"), Throw::Scissors);
}

#[test]
fn parse_rejects_everything_else() {
    assert_eq!(parse_throw(""), Throw::Invalid);
    assert_eq!(parse_throw("\n"), Throw::Invalid);
    assert_eq!(parse_throw("banana"), Throw::Invalid);
    assert_eq!(parse_throw("rockk"), Throw::Invalid);
    assert_eq!(parse_throw("roc"), Throw::Invalid);
    assert_eq!(parse_throw(" rock"), Throw::Invalid);
    assert_eq!(parse_throw("rock paper"), Throw::Invalid);
    assert_eq!(parse_throw("lizard"), Throw::Invalid);
    assert_eq!(parse_throw("r0ck"), Throw::Invalid);
}

#[test]
fn computer_draws_only_legal_throws_roughly_evenly() {
    let mut counts = [0usize; 3];
    for _ in 0..3000 {
        let t = Throw::computer();
        assert_ne!(t, Throw::Invalid);
        match t {
            Throw::Rock => counts[0] += 1,
            Throw::Paper => counts[1] += 1,
            Throw::Scissors => counts[2] += 1,
            Throw::Invalid => unreachable!(),
        }
    }
    // Each throw has expectation 1000 of 3000; a count under 600 is a
    // deviation of more than fifteen standard deviations.
    for &c in counts.iter() {
        assert!(c >= 600, "draws are far from uniform: {:?}", counts);
    }
}

#[test]
fn index_and_from_index_agree() {
    assert_eq!(Throw::from_index(0), Throw::Rock);
    assert_eq!(Throw::from_index(1), Throw::Paper);
    assert_eq!(Throw::from_index(2), Throw::Scissors);
    for &t in LEGAL.iter() {
        assert_eq!(Throw::from_index(t.index()), t);
    }
}

#[test]
fn user_accepts_legal_rejects_invalid() {
    for &t in LEGAL.iter() {
        assert_eq!(t.user(), Ok(t));
    }
    assert_eq!(Throw::Invalid.user(), Err(GameError::UnparseableThrow));
}

#[test]
fn labels_and_messages() {
    assert_eq!(Throw::Rock.label(), "Rock");
    assert_eq!(Throw::Paper.label(), "Paper");
    assert_eq!(Throw::Scissors.label(), "Scissors");
    assert_eq!(Throw::Invalid.label(), "Invalid Input");
    assert_eq!(GameResult::YouWin.message(), "You win, congrats!");
    assert_eq!(GameResult::YouLose.message(), "Sorry, you lose");
    assert_eq!(GameResult::Tie.message(), "It's a tie!");
    assert_eq!(GameError::UnparseableThrow.message(), "I'm not playing with you now.");
}

#[test]
fn scenario_single_shot_tie() {
    // Argument "rock", opponent draws rock: both lines show "Rock" and
    // the round ties; the session then ends normally.
    let user = parse_throw("rock");
    let user = user.user().expect("a legal throw is accepted");
    let opponent = Throw::Rock;
    assert_eq!(user.label(), "Rock");
    assert_eq!(opponent.label(), "Rock");
    assert_eq!(evaluate(user, opponent), GameResult::Tie);
    assert_eq!(GameResult::Tie.message(), "It's a tie!");
}

#[test]
fn scenario_single_shot_lose() {
    // Argument "paper", opponent draws scissors: the human loses.
    let user = parse_throw("paper");
    let user = user.user().expect("a legal throw is accepted");
    let opponent = Throw::Scissors;
    assert_eq!(user.label(), "Paper");
    assert_eq!(opponent.label(), "Scissors");
    assert_eq!(evaluate(user, opponent), GameResult::YouLose);
}

#[test]
fn scenario_unparseable_argument() {
    // Argument "banana": the one fatal path, a diagnostic and a
    // non-zero status before any round is played.
    let user = parse_throw("banana");
    let err = user.user().expect_err("an unparseable throw is rejected");
    assert_eq!(err, GameError::UnparseableThrow);
    assert_eq!(err.exit_code(), 1);
    assert_eq!(err.message(), "I'm not playing with you now.");
}

#[test]
fn scenario_interactive_win_then_quit() {
    // Interactive mode: "scissors" against paper wins; an empty reply
    // repeats the loop, any other reply ends the session.
    let user = parse_throw("scissors\n");
    let user = user.user().expect("a legal throw is accepted");
    let opponent = Throw::Paper;
    assert_eq!(evaluate(user, opponent), GameResult::YouWin);
    assert!(play_again("\n"));
    assert!(play_again(""));
    assert!(play_again(" \t\n"));
    assert!(!play_again("q\n"));
    assert!(!play_again("Q"));
    assert!(!play_again("no\n"));
}
