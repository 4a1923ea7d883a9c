use crate::provider::Solution;
use vstd::prelude::*;

verus! {

/// What is known about a letter, from weakest to strongest.
#[derive(Debug, Clone, Copy, PartialEq, Eq, Structural)]
pub enum LetterState {
    /// Not typed yet.
    Unused,
    /// Typed into a row that has not been evaluated.
    Entered,
    /// Not in the answer.
    Incorrect,
    /// In the answer, at another position.
    Contains,
    /// In the answer, at this position.
    Correct,
}

/// Rank of a state in the order `Unused < Entered < Incorrect < Contains < Correct`.
pub open spec fn rank(s: LetterState) -> nat {
    match s {
        LetterState::Unused => 0,
        LetterState::Entered => 1,
        LetterState::Incorrect => 2,
        LetterState::Contains => 3,
        LetterState::Correct => 4,
    }
}

/// The stronger of two states; `a` when they are equal.
pub open spec fn stronger(a: LetterState, b: LetterState) -> LetterState {
    if rank(b) > rank(a) { b } else { a }
}

impl LetterState {
    /// Position of the state in the strength order.
    pub fn strength(&self) -> (r: u8)
        ensures
            r == rank(*self),
    {
        match self {
            LetterState::Unused => 0,
            LetterState::Entered => 1,
            LetterState::Incorrect => 2,
            LetterState::Contains => 3,
            LetterState::Correct => 4,
        }
    }

    /// True when `self` is strictly stronger than `other`.
    pub fn is_stronger_than(&self, other: &LetterState) -> (r: bool)
        ensures
            r == (rank(*self) > rank(*other)),
    {
        self.strength() > other.strength()
    }
}

impl Default for LetterState {
    fn default() -> (r: Self)
        ensures
            r == LetterState::Unused,
    {
        LetterState::Unused
    }
}

/// What the game reports to the application after handling an event.
#[derive(Debug, Clone)]
pub enum Msg {
    /// Nothing to report.
    NoOp,
    /// The game was won; the summary of the finished board.
    Succeded(ResultGrid),
    /// The player asked to leave.
    Quit,
}

/// The application's components.
#[derive(Debug, Clone, Copy, PartialEq, Eq, Structural, Hash)]
pub enum Id {
    Board,
    LetterPool,
    GlobalListener,
}

/// The summary of a won game: the solution, the rows used and their markings.
#[derive(Debug, Clone)]
pub struct ResultGrid {
    pub solution: Solution,
    pub lines_used: u8,
    pub grid: Vec<Vec<LetterState>>,
}

/// A modifier held with a key.
#[derive(Debug, Clone, Copy, PartialEq, Eq, Structural)]
pub enum KeyModifier {
    Plain,
    Shift,
    Control,
    Other,
}

/// A key press, as far as the game tells keys apart.
#[derive(Debug, Clone, Copy, PartialEq, Eq, Structural)]
pub enum KeyInput {
    Char(char, KeyModifier),
    Enter,
    Backspace,
    Esc,
    PageDown,
    PageUp,
    Home,
    Other,
}

/// The message that a key press gives regardless of which component has focus:
/// `Esc` and `Ctrl+C` quit.
pub fn global_key_message(key: KeyInput) -> (r: Option<Msg>)
    ensures
        (key == KeyInput::Esc || key == KeyInput::Char('c', KeyModifier::Control)) ==> r
            == Some(Msg::Quit),
        !(key == KeyInput::Esc || key == KeyInput::Char('c', KeyModifier::Control)) ==> r is None,
{
    match key {
        KeyInput::Esc => Some(Msg::Quit),
        KeyInput::Char(c, KeyModifier::Control) => {
            if c == 'c' {
                Some(Msg::Quit)
            } else {
                None
            }
        },
        _ => None,
    }
}

} // verus!
