use crate::dictionary::Dictionary;
use crate::evaluate::{evaluate, feedback_map, feedback_of, marks};
use crate::letter_map::{entries_of, keys_unique, state_of};
use crate::model::LetterState;
use crate::text::{chars_of, is_word, same_chars};
use indexmap::IndexMap;
use vstd::prelude::*;

verus! {

/// The outcome of a row, as `submit` reports it.
pub enum WordLineState {
    /// No letters yet.
    Empty,
    /// Some letters, not submitted or not yet complete.
    InProgress,
    /// Five letters that form no accepted word; the row stays editable.
    Invalid,
    /// An accepted word other than the answer, with the per-letter feedback.
    Incorrect(IndexMap<char, LetterState>),
    /// The answer, with the per-letter feedback.
    Correct(IndexMap<char, LetterState>),
}

/// Whether a row has been resolved by a submission.
#[derive(Debug, Clone, Copy, PartialEq, Eq, Structural)]
pub enum RowStatus {
    Open,
    Incorrect,
    Correct,
}

/// One guess row: the letters typed so far with their states, and the answer.
pub struct WordLine {
    status: RowStatus,
    letters: Vec<(char, LetterState)>,
    answer: Vec<char>,
    cell_width: u16,
    cell_margin: u16,
    bg: Option<u8>,
    animating_reveal: bool,
    revealed: usize,
}

/// The letters of a row without their states.
pub open spec fn chars_in(s: Seq<(char, LetterState)>) -> Seq<char> {
    s.map_values(|p: (char, LetterState)| p.0)
}

/// The states of a row without their letters.
pub open spec fn states_in(s: Seq<(char, LetterState)>) -> Seq<LetterState> {
    s.map_values(|p: (char, LetterState)| p.1)
}

/// Each letter with its marking against `answer`.
pub open spec fn marked_row(w: Seq<char>, answer: Seq<char>) -> Seq<(char, LetterState)> {
    Seq::new(w.len(), |i: int| (w[i], marks(w, answer)[i]))
}

/// `m` holds, for each letter of `row`, the strongest state the row gave it.
pub open spec fn is_feedback(m: IndexMap<char, LetterState>, row: Seq<(char, LetterState)>) -> bool {
    keys_unique(entries_of(m)) && forall|c: char| #[trigger]
        state_of(entries_of(m), c) == feedback_of(row, c)
}

/// `ch` is an ASCII letter.
pub open spec fn is_ascii_letter(ch: char) -> bool {
    ('a' <= ch <= 'z') || ('A' <= ch <= 'Z')
}

/// The lowercase form of an ASCII letter.
pub open spec fn lower_of(ch: char) -> char {
    if 'A' <= ch <= 'Z' {
        ((ch as u32 + 32) as u8) as char
    } else {
        ch
    }
}

fn to_lower(ch: char) -> (r: char)
    requires
        is_ascii_letter(ch),
    ensures
        r == lower_of(ch),
        'a' <= r <= 'z',
{
    if 'A' <= ch && ch <= 'Z' {
        ((ch as u8) + 32) as char
    } else {
        ch
    }
}

impl WordLine {
    /// The letters typed, with their states.
    pub closed spec fn letters(&self) -> Seq<(char, LetterState)> {
        self.letters@
    }

    /// The answer the row is checked against.
    pub closed spec fn answer(&self) -> Seq<char> {
        self.answer@
    }

    pub closed spec fn status(&self) -> RowStatus {
        self.status
    }

    /// Whether the reveal of the row's states has begun.
    pub closed spec fn animating(&self) -> bool {
        self.animating_reveal
    }

    /// How far the reveal has come.
    pub closed spec fn revealed_count(&self) -> nat {
        self.revealed as nat
    }

    /// The width of a letter cell.
    pub closed spec fn width(&self) -> u16 {
        self.cell_width
    }

    /// The margin right of a letter cell.
    pub closed spec fn margin(&self) -> u16 {
        self.cell_margin
    }

    /// The window's background colour, if set.
    pub closed spec fn window_bg(&self) -> Option<u8> {
        self.bg
    }

    /// Equal in everything but the presentation settings.
    pub closed spec fn same_game(&self, o: WordLine) -> bool {
        &&& self.letters@ == o.letters@
        &&& self.answer@ == o.answer@
        &&& self.status == o.status
        &&& self.revealed == o.revealed
        &&& self.animating_reveal == o.animating_reveal
    }

    /// At most five letters; a five-letter answer; a resolved row is full.
    pub open spec fn wf(&self) -> bool {
        &&& self.letters().len() <= 5
        &&& is_word(self.answer())
        &&& self.status() != RowStatus::Open ==> self.letters().len() == 5
        &&& self.revealed_count() <= 5
    }

    /// An empty row with no answer yet.
    pub fn new() -> (r: WordLine)
        ensures
            r.letters().len() == 0,
            r.answer().len() == 0,
            r.status() == RowStatus::Open,
            !r.animating(),
            r.revealed_count() == 0,
    {
        WordLine {
            status: RowStatus::Open,
            letters: Vec::new(),
            answer: Vec::new(),
            cell_width: 0,
            cell_margin: 0,
            bg: None,
            animating_reveal: false,
            revealed: 0,
        }
    }

    /// The row, checked against `answer` from now on.
    pub fn with_answer(self, answer: &str) -> (r: WordLine)
        requires
            is_word(answer@),
            self.letters().len() <= 5,
            self.status() == RowStatus::Open,
            self.revealed_count() == 0,
        ensures
            r.wf(),
            r.answer() == answer@,
            r.letters() == self.letters(),
            r.status() == self.status(),
            r.animating() == self.animating(),
            r.revealed_count() == 0,
    {
        let mut s = self;
        s.answer = chars_of(answer);
        s
    }

    /// Types a letter: an ASCII letter is appended in lowercase, as `Entered`, while
    /// the row holds fewer than five; anything else is ignored.
    pub fn push_char(&mut self, ch: char)
        requires
            old(self).wf(),
        ensures
            final(self).wf(),
            final(self).answer() == old(self).answer(),
            final(self).status() == old(self).status(),
            final(self).animating() == old(self).animating(),
            final(self).revealed_count() == old(self).revealed_count(),
            old(self).letters().len() < 5 && is_ascii_letter(ch) ==> final(self).letters()
                == old(self).letters().push((lower_of(ch), LetterState::Entered)),
            !(old(self).letters().len() < 5 && is_ascii_letter(ch)) ==> final(self).letters()
                == old(self).letters(),
    {
        if self.letters.len() < 5 && (('a' <= ch && ch <= 'z') || ('A' <= ch && ch <= 'Z')) {
            let ch = to_lower(ch);
            self.letters.push((ch, LetterState::Entered));
        }
    }

    /// Removes the last letter, if any, from a row that has not been resolved; a
    /// resolved row keeps its letters.
    pub fn del_char(&mut self)
        requires
            old(self).wf(),
        ensures
            final(self).wf(),
            final(self).answer() == old(self).answer(),
            final(self).status() == old(self).status(),
            final(self).animating() == old(self).animating(),
            final(self).revealed_count() == old(self).revealed_count(),
            old(self).status() == RowStatus::Open && old(self).letters().len() > 0
                ==> final(self).letters() == old(self).letters().drop_last(),
            !(old(self).status() == RowStatus::Open && old(self).letters().len() > 0)
                ==> final(self).letters() == old(self).letters(),
    {
        if self.status == RowStatus::Open && self.letters.len() > 0 {
            self.letters.pop();
        }
    }

    /// The state of each letter, in order.
    pub fn get_letter_states(&self) -> (r: Vec<LetterState>)
        ensures
            r@ == states_in(self.letters()),
    {
        let mut r: Vec<LetterState> = Vec::new();
        let mut i: usize = 0;
        while i < self.letters.len()
            invariant
                i <= self.letters@.len(),
                r@ == states_in(self.letters@).subrange(0, i as int),
            decreases self.letters@.len() - i,
        {
            r.push(self.letters[i].1);
            i = i + 1;
        }
        r
    }

    /// The letters typed, in order.
    pub fn get_chars(&self) -> (r: Vec<char>)
        ensures
            r@ == chars_in(self.letters()),
    {
        let mut r: Vec<char> = Vec::new();
        let mut i: usize = 0;
        while i < self.letters.len()
            invariant
                i <= self.letters@.len(),
                r@ == chars_in(self.letters@).subrange(0, i as int),
            decreases self.letters@.len() - i,
        {
            r.push(self.letters[i].0);
            i = i + 1;
        }
        r
    }

    /// Whether the row has been resolved.
    pub fn get_status(&self) -> (r: RowStatus)
        ensures
            r == self.status(),
    {
        self.status
    }

    /// Checks a complete row.
    ///
    /// With fewer than five letters nothing changes and the row reports `Empty` or
    /// `InProgress`. A row equal to the answer becomes `Correct`; another word that
    /// the dictionary accepts becomes `Incorrect`; in both cases every letter takes
    /// its marking and the reveal begins. Any other word is `Invalid` and leaves
    /// the row as it was.
    pub fn submit(&mut self, dictionary: &Dictionary) -> (r: WordLineState)
        requires
            old(self).wf(),
            old(self).status() == RowStatus::Open,
        ensures
            final(self).wf(),
            final(self).answer() == old(self).answer(),
            old(self).letters().len() < 5 ==> {
                &&& *final(self) == *old(self)
                &&& old(self).letters().len() == 0 ==> r is Empty
                &&& old(self).letters().len() > 0 ==> r is InProgress
            },
            old(self).letters().len() == 5 ==> ({
                let w = chars_in(old(self).letters());
                let marked = marked_row(w, old(self).answer());
                if w == old(self).answer() {
                    &&& r matches WordLineState::Correct(m) && is_feedback(m, marked)
                    &&& final(self).letters() == marked
                    &&& final(self).status() == RowStatus::Correct
                    &&& final(self).animating() && final(self).revealed_count() == 0
                } else if dictionary.accepts(w) {
                    &&& r matches WordLineState::Incorrect(m) && is_feedback(m, marked)
                    &&& final(self).letters() == marked
                    &&& final(self).status() == RowStatus::Incorrect
                    &&& final(self).animating() && final(self).revealed_count() == 0
                } else {
                    &&& r is Invalid
                    &&& *final(self) == *old(self)
                }
            }),
    {
        if self.letters.len() == 5 {
            let word = self.get_chars();
            if same_chars(&word, &self.answer) {
                let res = self.validate_letters();
                self.begin_reveal();
                self.status = RowStatus::Correct;
                WordLineState::Correct(res)
            } else if dictionary.is_valid_guess(&word) {
                let res = self.validate_letters();
                self.begin_reveal();
                self.status = RowStatus::Incorrect;
                WordLineState::Incorrect(res)
            } else {
                WordLineState::Invalid
            }
        } else if self.letters.len() == 0 {
            WordLineState::Empty
        } else {
            WordLineState::InProgress
        }
    }

    /// Marks every letter against the answer and returns the per-letter feedback.
    fn validate_letters(&mut self) -> (r: IndexMap<char, LetterState>)
        requires
            old(self).wf(),
            old(self).letters().len() == 5,
        ensures
            final(self).letters() == marked_row(chars_in(old(self).letters()), old(self).answer()),
            final(self).answer() == old(self).answer(),
            final(self).status == old(self).status,
            final(self).revealed == old(self).revealed,
            final(self).animating_reveal == old(self).animating_reveal,
            is_feedback(r, final(self).letters()),
    {
        let word = self.get_chars();
        let states = evaluate(&word, &self.answer);
        let mut i: usize = 0;
        while i < 5
            invariant
                word@ == chars_in(old(self).letters()),
                states@ == marks(word@, self.answer@),
                self.answer@ == old(self).answer@,
                self.status == old(self).status,
                self.revealed == old(self).revealed,
                self.animating_reveal == old(self).animating_reveal,
                self.letters@.len() == 5,
                word@.len() == 5,
                states@.len() == 5,
                i <= 5,
                forall|k: int| 0 <= k < i ==> #[trigger] self.letters@[k] == (word@[k], states@[k]),
            decreases 5 - i,
        {
            self.letters.set(i, (word[i], states[i]));
            i = i + 1;
        }
        assert(self.letters@ == marked_row(word@, self.answer@));
        feedback_map(&self.letters)
    }

    /// Starts revealing the row's states, from the first letter.
    fn begin_reveal(&mut self)
        ensures
            final(self).letters == old(self).letters,
            final(self).answer == old(self).answer,
            final(self).status == old(self).status,
            final(self).animating_reveal,
            final(self).revealed == 0,
    {
        self.animating_reveal = true;
        self.revealed = 0;
    }

    /// Reveals one more letter, up to all five, once the reveal has begun.
    pub fn advance_reveal(&mut self)
        requires
            old(self).wf(),
        ensures
            final(self).wf(),
            final(self).letters() == old(self).letters(),
            final(self).answer() == old(self).answer(),
            final(self).status() == old(self).status(),
            final(self).animating() == old(self).animating(),
            old(self).animating() && old(self).revealed_count() < 5 ==> final(self).revealed_count()
                == old(self).revealed_count() + 1,
            !(old(self).animating() && old(self).revealed_count() < 5) ==> final(self).revealed_count()
                == old(self).revealed_count(),
    {
        if self.animating_reveal && self.revealed < 5 {
            self.revealed = self.revealed + 1;
        }
    }

    /// Whether the state of letter `i` is shown: the reveal has begun and reached it.
    pub fn is_revealed(&self, i: usize) -> (r: bool)
        ensures
            r == (self.animating() && i <= self.revealed_count()),
    {
        self.animating_reveal && i <= self.revealed
    }

    /// Whether the reveal has begun.
    pub fn is_animating(&self) -> (r: bool)
        ensures
            r == self.animating(),
    {
        self.animating_reveal
    }

    /// How many letters the reveal has passed.
    pub fn revealed(&self) -> (r: usize)
        ensures
            r == self.revealed_count(),
    {
        self.revealed
    }

    pub fn set_width(&mut self, width: u16)
        ensures
            final(self).width() == width,
            final(self).same_game(*old(self)),
    {
        self.cell_width = width;
    }

    pub fn set_margin(&mut self, margin: u16)
        ensures
            final(self).margin() == margin,
            final(self).same_game(*old(self)),
    {
        self.cell_margin = margin;
    }

    pub fn set_window_bg(&mut self, bg: Option<u8>)
        ensures
            final(self).window_bg() == bg,
            final(self).same_game(*old(self)),
    {
        self.bg = bg;
    }
}

impl Default for WordLine {
    fn default() -> (r: WordLine)
        ensures
            r.letters().len() == 0,
            r.answer().len() == 0,
            r.status() == RowStatus::Open,
            !r.animating(),
            r.revealed_count() == 0,
    {
        WordLine::new()
    }
}

} // verus!
