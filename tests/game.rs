use indexmap::IndexMap;
use turdle::board::{Board, BoardState};
use turdle::dictionary::Dictionary;
use turdle::evaluate::{evaluate, feedback_map};
use turdle::letter_pool::LetterPool;
use turdle::model::{global_key_message, KeyInput, KeyModifier, LetterState, Msg};
use turdle::provider::Solution;
use turdle::word_line::{RowStatus, WordLine, WordLineState};

use LetterState::{Contains, Correct, Entered, Incorrect, Unused};

fn chars(s: &str) -> Vec<char> {
    s.chars().collect()
}

fn dictionary() -> Dictionary {
    let answers: Vec<String> = ["crate", "stare", "sheep", "other", "plumb", "witch", "ghost"]
        .iter()
        .map(|s| s.to_string())
        .collect();
    let words: Vec<String> = ["fjord", "epees", "speed"].iter().map(|s| s.to_string()).collect();
    Dictionary::new(&answers, &words)
}

fn solution(answer: &str) -> Solution {
    Solution { wordle_number: None, answer: answer.to_string() }
}

fn type_word(board: &mut Board, word: &str) -> Option<Msg> {
    for ch in word.chars() {
        board.on(KeyInput::Char(ch, KeyModifier::Plain));
    }
    board.on(KeyInput::Enter)
}

#[test]
fn evaluate_guess_equal_to_answer_is_all_correct() {
    for w in ["crate", "sheep", "aaaaa", "abcde"] {
        assert_eq!(evaluate(&chars(w), &chars(w)), vec![Correct; 5]);
    }
}

#[test]
fn evaluate_duplicate_letters_sheep_epees() {
    // Positions 2 and 3 match exactly; the leading 'e' finds no unmatched 'e' left.
    assert_eq!(
        evaluate(&chars("epees"), &chars("sheep")),
        vec![Incorrect, Contains, Correct, Correct, Contains]
    );
}

#[test]
fn evaluate_repeated_letter_marked_at_most_as_often_as_in_answer() {
    assert_eq!(
        evaluate(&chars("eeeee"), &chars("sheep")),
        vec![Incorrect, Incorrect, Correct, Correct, Incorrect]
    );
    assert_eq!(
        evaluate(&chars("aabaa"), &chars("xaxxa")),
        vec![Incorrect, Correct, Incorrect, Incorrect, Correct]
    );
    assert_eq!(
        evaluate(&chars("ssxxx"), &chars("yyyys")),
        vec![Contains, Incorrect, Incorrect, Incorrect, Incorrect]
    );
    let states = evaluate(&chars("speed"), &chars("abide"));
    assert_eq!(states, vec![Incorrect, Incorrect, Contains, Incorrect, Contains]);
}

#[test]
fn feedback_keeps_strongest_state_per_letter() {
    let row = vec![('a', Correct), ('a', Incorrect), ('b', Contains), ('b', Correct), ('c', Incorrect)];
    let m = feedback_map(&row);
    assert_eq!(m.len(), 3);
    assert_eq!(m.get(&'a'), Some(&Correct));
    assert_eq!(m.get(&'b'), Some(&Correct));
    assert_eq!(m.get(&'c'), Some(&Incorrect));
    let row = vec![('e', Contains), ('e', Incorrect)];
    assert_eq!(feedback_map(&row).get(&'e'), Some(&Contains));
}

#[test]
fn letter_pool_starts_unused() {
    let pool = LetterPool::new();
    for c in 'a'..='z' {
        assert_eq!(pool.get(c), Some(Unused));
    }
    assert_eq!(pool.get('A'), None);
}

#[test]
fn letter_pool_merge_never_downgrades() {
    let mut pool = LetterPool::new();
    let mut first = IndexMap::new();
    first.insert('a', Correct);
    first.insert('b', Contains);
    pool.merge(&first);
    assert_eq!(pool.get('a'), Some(Correct));
    let mut second = IndexMap::new();
    second.insert('a', Incorrect);
    second.insert('b', Incorrect);
    second.insert('c', Incorrect);
    pool.merge(&second);
    assert_eq!(pool.get('a'), Some(Correct));
    assert_eq!(pool.get('b'), Some(Contains));
    assert_eq!(pool.get('c'), Some(Incorrect));
    let mut third = IndexMap::new();
    third.insert('b', Correct);
    third.insert('1', Correct);
    pool.merge(&third);
    assert_eq!(pool.get('b'), Some(Correct));
    assert_eq!(pool.get('1'), None);
}

#[test]
fn row_push_and_delete() {
    let mut row = WordLine::new().with_answer("crate");
    row.push_char('C');
    row.push_char('1');
    row.push_char('r');
    assert_eq!(row.get_chars(), vec!['c', 'r']);
    assert_eq!(row.get_letter_states(), vec![Entered, Entered]);
    row.del_char();
    assert_eq!(row.get_chars(), vec!['c']);
    for ch in "ratesx".chars() {
        row.push_char(ch);
    }
    assert_eq!(row.get_chars(), chars("crate"));
    let mut empty = WordLine::new().with_answer("crate");
    empty.del_char();
    assert!(empty.get_chars().is_empty());
}

#[test]
fn row_submit_with_fewer_than_five_letters_changes_nothing() {
    let dict = dictionary();
    let mut row = WordLine::new().with_answer("crate");
    assert!(matches!(row.submit(&dict), WordLineState::Empty));
    for ch in "cra".chars() {
        row.push_char(ch);
    }
    assert!(matches!(row.submit(&dict), WordLineState::InProgress));
    assert_eq!(row.get_chars(), chars("cra"));
    assert_eq!(row.get_letter_states(), vec![Entered; 3]);
    assert_eq!(row.get_status(), RowStatus::Open);
}

#[test]
fn row_submit_unknown_word_is_invalid_and_keeps_letters() {
    let dict = dictionary();
    let mut row = WordLine::new().with_answer("crate");
    for ch in "zzzzz".chars() {
        row.push_char(ch);
    }
    assert!(matches!(row.submit(&dict), WordLineState::Invalid));
    assert_eq!(row.get_chars(), chars("zzzzz"));
    assert_eq!(row.get_letter_states(), vec![Entered; 5]);
    assert_eq!(row.get_status(), RowStatus::Open);
    row.del_char();
    assert_eq!(row.get_chars(), chars("zzzz"));
}

#[test]
fn row_submit_marks_letters_and_reports_feedback() {
    let dict = dictionary();
    let mut row = WordLine::new().with_answer("crate");
    for ch in "stare".chars() {
        row.push_char(ch);
    }
    match row.submit(&dict) {
        WordLineState::Incorrect(m) => {
            assert_eq!(m.get(&'s'), Some(&Incorrect));
            assert_eq!(m.get(&'r'), Some(&Contains));
            assert_eq!(m.get(&'e'), Some(&Correct));
        }
        _ => panic!("expected an incorrect row"),
    }
    assert_eq!(row.get_letter_states(), vec![Incorrect, Contains, Correct, Contains, Correct]);
    assert_eq!(row.get_status(), RowStatus::Incorrect);
    assert!(row.is_revealed(0));
    assert!(!row.is_revealed(1));
    row.advance_reveal();
    assert!(row.is_revealed(1));
    for _ in 0..10 {
        row.advance_reveal();
    }
    assert_eq!(row.revealed(), 5);
}

#[test]
fn board_end_to_end_win_on_second_row() {
    let mut board = Board::new(&solution("crate"), dictionary());
    assert!(matches!(type_word(&mut board, "stare"), Some(Msg::NoOp)));
    assert_eq!(
        board.line_at(0).get_letter_states(),
        vec![Incorrect, Contains, Correct, Contains, Correct]
    );
    assert_eq!(board.active_line(), 1);
    assert_eq!(board.board_state(), BoardState::Playing);
    assert_eq!(board.letter_pool().get('r'), Some(Contains));
    assert_eq!(board.letter_pool().get('s'), Some(Incorrect));
    let msg = type_word(&mut board, "crate");
    assert_eq!(board.line_at(1).get_letter_states(), vec![Correct; 5]);
    assert_eq!(board.board_state(), BoardState::Won);
    assert_eq!(board.active_line(), 1);
    assert_eq!(board.letter_pool().get('r'), Some(Correct));
    match msg {
        Some(Msg::Succeded(g)) => {
            assert_eq!(g.lines_used, 2);
            assert_eq!(g.solution.answer, "crate");
            assert_eq!(g.grid.len(), 2);
            assert_eq!(g.grid[1], vec![Correct; 5]);
        }
        _ => panic!("expected the result grid"),
    }
    // The finished game takes no more input.
    assert!(matches!(type_word(&mut board, "stare"), Some(Msg::NoOp)));
    assert_eq!(board.board_state(), BoardState::Won);
    assert_eq!(board.line_at(2).get_chars(), Vec::<char>::new());
}

#[test]
fn board_six_incorrect_rows_lose() {
    let mut board = Board::new(&solution("crate"), dictionary());
    let guesses = ["stare", "other", "plumb", "witch", "ghost", "fjord"];
    for (i, g) in guesses.iter().enumerate() {
        assert_eq!(board.board_state(), BoardState::Playing);
        type_word(&mut board, g);
        if i < 5 {
            assert_eq!(board.board_state(), BoardState::Playing);
            assert_eq!(board.active_line(), i + 1);
        }
    }
    assert_eq!(board.board_state(), BoardState::Lost);
    assert_eq!(board.active_line(), 5);
    assert!(board.result_grid().is_none());
}

#[test]
fn board_invalid_word_shakes_and_stays() {
    let mut board = Board::new(&solution("crate"), dictionary());
    type_word(&mut board, "zzzzz");
    assert!(board.shaking());
    assert_eq!(board.active_line(), 0);
    assert_eq!(board.line_at(0).get_chars(), chars("zzzzz"));
    let offsets: Vec<i16> = (0..10).map(|_| board.shake_offset(true)).collect();
    assert_eq!(offsets, vec![1, 0, -1, 0, 1, 0, -1, 0, 0, 0]);
    assert!(!board.shaking());
    board.on(KeyInput::Backspace);
    assert_eq!(board.line_at(0).get_chars(), chars("zzzz"));
}

#[test]
fn board_shake_holds_step_until_frame_elapses() {
    let mut board = Board::new(&solution("crate"), dictionary());
    type_word(&mut board, "zzzzz");
    assert_eq!(board.shake_offset(false), 1);
    assert_eq!(board.shake_offset(false), 1);
    assert_eq!(board.shake_offset(true), 1);
    assert_eq!(board.shake_offset(false), 0);
}

#[test]
fn board_ignores_control_chars_and_types_shifted() {
    let mut board = Board::new(&solution("crate"), dictionary());
    board.on(KeyInput::Char('c', KeyModifier::Control));
    board.on(KeyInput::Char('C', KeyModifier::Shift));
    assert_eq!(board.line_at(0).get_chars(), vec!['c']);
}

#[test]
fn board_background_cycles() {
    let mut board = Board::new(&solution("crate"), dictionary());
    board.on(KeyInput::PageDown);
    assert_eq!(board.window_bg(), Some(232));
    board.on(KeyInput::PageUp);
    assert_eq!(board.window_bg(), None);
    board.on(KeyInput::PageUp);
    assert_eq!(board.window_bg(), Some(255));
    board.on(KeyInput::PageDown);
    assert_eq!(board.window_bg(), None);
    board.on(KeyInput::PageDown);
    board.on(KeyInput::PageDown);
    assert_eq!(board.window_bg(), Some(233));
    board.on(KeyInput::Home);
    assert_eq!(board.window_bg(), None);
}

#[test]
fn global_keys_quit() {
    assert!(matches!(global_key_message(KeyInput::Esc), Some(Msg::Quit)));
    assert!(matches!(
        global_key_message(KeyInput::Char('c', KeyModifier::Control)),
        Some(Msg::Quit)
    ));
    assert!(global_key_message(KeyInput::Char('c', KeyModifier::Plain)).is_none());
    assert!(global_key_message(KeyInput::Enter).is_none());
}

#[test]
fn dictionary_accepts_answers_and_words() {
    let dict = dictionary();
    assert!(dict.is_valid_guess(&chars("crate")));
    assert!(dict.is_valid_guess(&chars("fjord")));
    assert!(!dict.is_valid_guess(&chars("zzzzz")));
    assert_eq!(dict.answer_count(), 7);
    assert_eq!(dict.answer_at(1), chars("stare"));
}

#[test]
fn finished_game_ignores_rows_and_pool_input() {
    let mut board = Board::new(&solution("crate"), dictionary());
    type_word(&mut board, "crate");
    assert_eq!(board.board_state(), BoardState::Won);
    board.on(KeyInput::Backspace);
    board.on(KeyInput::Char('x', KeyModifier::Plain));
    board.on(KeyInput::Enter);
    assert_eq!(board.line_at(0).get_chars(), chars("crate"));
    assert_eq!(board.line_at(0).get_letter_states(), vec![Correct; 5]);
    assert_eq!(board.line_at(1).get_chars(), Vec::<char>::new());
    assert_eq!(board.active_line(), 0);
    assert_eq!(board.letter_pool().get('s'), Some(Unused));
}
