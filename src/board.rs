use crate::dictionary::Dictionary;
use crate::evaluate::feedback_of;
use crate::letter_pool::{merged, LetterPool};
use crate::model::{KeyInput, KeyModifier, LetterState, Msg, ResultGrid};
use crate::provider::Solution;
use crate::text::is_word;
use crate::word_line::{
    chars_in, is_ascii_letter, lower_of, marked_row, states_in, RowStatus, WordLine, WordLineState,
};
use vstd::prelude::*;

verus! {

/// The state of the game.
#[derive(Debug, Clone, Copy, PartialEq, Eq, Structural)]
pub enum BoardState {
    Playing,
    Won,
    Lost,
}

/// Six rows played in turn against one answer, with the letter pool they feed.
pub struct Board {
    state: BoardState,
    lines: Vec<WordLine>,
    active_line: usize,
    bg: Option<u8>,
    letter_pool: LetterPool,
    dictionary: Dictionary,
    solution: Solution,
    shaking: bool,
    anim_frame_index: usize,
}

/// The number of steps of the shake that marks an invalid word.
pub const SHAKE_STEPS: usize = 8;

/// The horizontal offset of the active row at each step of the shake.
pub open spec fn shake_step(i: int) -> int {
    if i == 0 || i == 4 {
        1
    } else if i == 2 || i == 6 {
        -1
    } else {
        0
    }
}

/// The word typed into a row.
pub open spec fn row_word(l: WordLine) -> Seq<char> {
    chars_in(l.letters())
}

/// What submitting an open row makes of it.
pub open spec fn resolution(l: WordLine, d: Dictionary) -> RowStatus {
    if l.letters().len() == 5 && row_word(l) == l.answer() {
        RowStatus::Correct
    } else if l.letters().len() == 5 && d.accepts(row_word(l)) {
        RowStatus::Incorrect
    } else {
        RowStatus::Open
    }
}

/// The active row and game state after the active row was submitted with the
/// given result: a correct row wins and the cursor stays; an incorrect row moves
/// the cursor on, or loses on the last row; an unresolved row changes nothing.
pub open spec fn after_submit(active: int, state: BoardState, res: RowStatus) -> (int, BoardState) {
    match res {
        RowStatus::Correct => (active, BoardState::Won),
        RowStatus::Incorrect => if active < 5 {
            (active + 1, BoardState::Playing)
        } else {
            (active, BoardState::Lost)
        },
        RowStatus::Open => (active, state),
    }
}

/// The active row and game state of a new board after `k` incorrect submissions
/// (submissions stop counting once the game is over).
pub open spec fn after_misses(k: nat) -> (int, BoardState)
    decreases k,
{
    if k == 0 {
        (0, BoardState::Playing)
    } else {
        let prev = after_misses((k - 1) as nat);
        if prev.1 == BoardState::Playing {
            after_submit(prev.0, prev.1, RowStatus::Incorrect)
        } else {
            prev
        }
    }
}

/// Six incorrect submissions lose the game: after each of the first five the game
/// goes on at the next row, and the sixth, on the last row, loses it.
pub proof fn lemma_sixth_miss_loses(k: nat)
    requires
        k <= 6,
    ensures
        k < 6 ==> after_misses(k) == (k as int, BoardState::Playing),
        k == 6 ==> after_misses(k) == (5int, BoardState::Lost),
    decreases k,
{
    if k > 0 {
        lemma_sixth_miss_loses((k - 1) as nat);
    }
}

/// The background after the next-colour hotkey: the greys from 232 to 255 in turn,
/// then none again.
pub open spec fn next_bg(bg: Option<u8>) -> Option<u8> {
    match bg {
        None => Some(232u8),
        Some(i) => if i == 255 {
            None
        } else {
            Some((i + 1) as u8)
        },
    }
}

/// The background after the previous-colour hotkey: the greys from 255 down to
/// 232, then none again.
pub open spec fn prev_bg(bg: Option<u8>) -> Option<u8> {
    match bg {
        None => Some(255u8),
        Some(i) => if i == 232 {
            None
        } else {
            Some((i - 1) as u8)
        },
    }
}

fn shake_value(i: usize) -> (r: i16)
    ensures
        r as int == shake_step(i as int),
{
    if i == 0 || i == 4 {
        1
    } else if i == 2 || i == 6 {
        -1
    } else {
        0
    }
}

/// Typing `ch` into the active row of `o` gave `n`: an ASCII letter is appended in
/// lowercase while the row holds fewer than five; the row keeps its answer, status
/// and reveal; nothing else changes.
pub open spec fn typed(o: Board, n: Board, ch: char) -> bool {
    let before = o.line(o.active());
    let after = n.line(o.active());
    &&& n.state() == o.state()
    &&& n.active() == o.active()
    &&& n.pool() == o.pool()
    &&& n.same_setting(o)
    &&& forall|i: int| 0 <= i < 6 && i != o.active() ==> #[trigger] n.line(i) == o.line(i)
    &&& after.answer() == before.answer()
    &&& after.status() == before.status()
    &&& after.animating() == before.animating()
    &&& after.revealed_count() == before.revealed_count()
    &&& before.letters().len() < 5 && is_ascii_letter(ch) ==> after.letters()
        == before.letters().push((lower_of(ch), LetterState::Entered))
    &&& !(before.letters().len() < 5 && is_ascii_letter(ch)) ==> after.letters() == before.letters()
}

/// Deleting in the active row of `o` gave `n`: the last letter goes, if any; the
/// row keeps its answer, status and reveal; nothing else changes.
pub open spec fn deleted(o: Board, n: Board) -> bool {
    let before = o.line(o.active());
    let after = n.line(o.active());
    &&& n.state() == o.state()
    &&& n.active() == o.active()
    &&& n.pool() == o.pool()
    &&& n.same_setting(o)
    &&& forall|i: int| 0 <= i < 6 && i != o.active() ==> #[trigger] n.line(i) == o.line(i)
    &&& after.answer() == before.answer()
    &&& after.status() == before.status()
    &&& after.animating() == before.animating()
    &&& after.revealed_count() == before.revealed_count()
    &&& before.letters().len() > 0 ==> after.letters() == before.letters().drop_last()
    &&& before.letters().len() == 0 ==> after.letters() == before.letters()
}

/// Submitting the active row of `o` gave `n`: the row is resolved against the
/// dictionary and the answer, a resolved row takes its markings and feeds the
/// pool, the cursor and game state move by `after_submit`, five letters that form
/// no accepted word start the shake, and the other rows stay as they were.
pub open spec fn submitted(o: Board, n: Board) -> bool {
    let a = o.active();
    let before = o.line(a);
    let after = n.line(a);
    let res = resolution(before, o.dict());
    &&& n.same_setting(o)
    &&& forall|i: int| 0 <= i < 6 && i != a ==> #[trigger] n.line(i) == o.line(i)
    &&& (n.active(), n.state()) == after_submit(a, o.state(), res)
    &&& after.status() == res
    &&& after.answer() == before.answer()
    &&& res == RowStatus::Open ==> after == before
    &&& res != RowStatus::Open ==> after.letters() == marked_row(row_word(before), before.answer())
    &&& forall|c: char| #[trigger] n.pool().state(c) == if res != RowStatus::Open {
        merged(o.pool().state(c), feedback_of(after.letters(), c))
    } else {
        o.pool().state(c)
    }
    &&& n.pool().wf()
    &&& n.pool().qwerty() == o.pool().qwerty()
    &&& res == RowStatus::Open && before.letters().len() == 5 ==> n.is_shaking() && n.frame_index()
        == 0
    &&& !(res == RowStatus::Open && before.letters().len() == 5) ==> n.is_shaking()
        == o.is_shaking() && n.frame_index() == o.frame_index()
}

/// The rows, the pool, the cursor and the game state of `n` are those of `o`.
pub open spec fn game_unchanged(o: Board, n: Board) -> bool {
    &&& n.state() == o.state()
    &&& n.active() == o.active()
    &&& n.pool() == o.pool()
    &&& forall|i: int| 0 <= i < 6 ==> #[trigger] n.line(i) == o.line(i)
}

/// A well-formed board has six well-formed rows, all checked against the board's
/// answer; the cursor is on one of them; the rows after the cursor are open, and
/// so is the cursor's row while the game is on; the pool is well formed.
pub proof fn lemma_board_wf(b: Board)
    requires
        b.wf(),
    ensures
        0 <= b.active() <= 5,
        is_word(b.answer()),
        forall|i: int|
            0 <= i < 6 ==> (#[trigger] b.line(i)).wf() && b.line(i).answer() == b.answer(),
        forall|i: int| b.active() < i < 6 ==> (#[trigger] b.line(i)).status() == RowStatus::Open,
        b.state() == BoardState::Playing ==> b.line(b.active()).status() == RowStatus::Open,
        b.pool().wf(),
{
}

/// The window background is unset or one of the greys 232 to 255.
pub open spec fn bg_ok(bg: Option<u8>) -> bool {
    bg matches Some(i) ==> 232 <= i
}

impl Board {
    pub closed spec fn state(&self) -> BoardState {
        self.state
    }

    pub closed spec fn active(&self) -> int {
        self.active_line as int
    }

    pub closed spec fn line(&self, i: int) -> WordLine {
        self.lines@[i]
    }

    pub closed spec fn pool(&self) -> LetterPool {
        self.letter_pool
    }

    pub closed spec fn dict(&self) -> Dictionary {
        self.dictionary
    }

    pub closed spec fn answer(&self) -> Seq<char> {
        self.solution.answer@
    }

    pub closed spec fn background(&self) -> Option<u8> {
        self.bg
    }

    pub closed spec fn is_shaking(&self) -> bool {
        self.shaking
    }

    pub closed spec fn frame_index(&self) -> int {
        self.anim_frame_index as int
    }

    pub closed spec fn puzzle_number(&self) -> Option<u64> {
        self.solution.wordle_number
    }

    /// The dictionary, the solution and the background are those of `o`.
    pub open spec fn same_setting(&self, o: Board) -> bool {
        &&& self.dict() == o.dict()
        &&& self.answer() == o.answer()
        &&& self.puzzle_number() == o.puzzle_number()
        &&& self.background() == o.background()
    }

    pub closed spec fn wf(&self) -> bool {
        &&& self.lines@.len() == 6
        &&& self.active_line <= 5
        &&& forall|i: int|
            0 <= i < 6 ==> (#[trigger] self.lines@[i]).wf() && self.lines@[i].answer()
                == self.solution.answer@
        &&& forall|i: int|
            self.active_line < i < 6 ==> (#[trigger] self.lines@[i]).status() == RowStatus::Open
        &&& self.state == BoardState::Playing ==> self.lines@[self.active_line as int].status()
            == RowStatus::Open
        &&& self.letter_pool.wf()
        &&& is_word(self.solution.answer@)
        &&& bg_ok(self.bg)
        &&& self.anim_frame_index <= SHAKE_STEPS + 1
    }

    /// A new game: six empty rows against the solution's answer, the first active.
    pub fn new(solution: &Solution, dictionary: Dictionary) -> (r: Board)
        requires
            is_word(solution.answer@),
        ensures
            r.wf(),
            r.state() == BoardState::Playing,
            r.active() == 0,
            r.answer() == solution.answer@,
            r.dict() == dictionary,
            forall|i: int|
                0 <= i < 6 ==> {
                    &&& (#[trigger] r.line(i)).letters().len() == 0
                    &&& r.line(i).wf()
                    &&& r.line(i).answer() == solution.answer@
                    &&& r.line(i).status() == RowStatus::Open
                    &&& !r.line(i).animating()
                },
            forall|i: int| 0 <= i < 26 ==> #[trigger] r.pool().entries()[i].1 == LetterState::Unused,
            r.background() is None,
            !r.is_shaking(),
    {
        let mut lines: Vec<WordLine> = Vec::new();
        let mut i: usize = 0;
        while i < 6
            invariant
                i <= 6,
                lines@.len() == i,
                is_word(solution.answer@),
                forall|k: int|
                    0 <= k < i ==> (#[trigger] lines@[k]).wf() && lines@[k].answer() == solution.answer@
                        && lines@[k].status() == RowStatus::Open && lines@[k].letters().len() == 0
                        && !lines@[k].animating(),
            decreases 6 - i,
        {
            lines.push(WordLine::new().with_answer(solution.answer.as_str()));
            i = i + 1;
        }
        Board {
            state: BoardState::Playing,
            lines,
            active_line: 0,
            bg: None,
            letter_pool: LetterPool::new(),
            dictionary,
            solution: Solution {
                wordle_number: solution.wordle_number,
                answer: solution.answer.clone(),
            },
            shaking: false,
            anim_frame_index: 0,
        }
    }

    /// The board, feeding the given letter pool from now on.
    pub fn with_letter_state(self, pool: LetterPool) -> (r: Board)
        requires
            self.wf(),
            pool.wf(),
        ensures
            r.wf(),
            r.pool() == pool,
            r.state() == self.state(),
            r.active() == self.active(),
            forall|i: int| 0 <= i < 6 ==> #[trigger] r.line(i) == self.line(i),
    {
        let mut b = self;
        b.letter_pool = pool;
        b
    }

    /// Types a letter into the active row while the game is on.
    pub fn handle_input_char(&mut self, ch: char)
        requires
            old(self).wf(),
        ensures
            final(self).wf(),
            old(self).state() != BoardState::Playing ==> *final(self) == *old(self),
            old(self).state() == BoardState::Playing ==> typed(*old(self), *final(self), ch),
    {
        if self.state != BoardState::Playing {
            return ;
        }
        let a = self.active_line;
        let mut line = self.lines.remove(a);
        line.push_char(ch);
        self.lines.insert(a, line);
        proof {
            assert forall|i: int| 0 <= i < 6 && i != a implies #[trigger] self.lines@[i] == old(self).lines@[i] by {}
        }
    }

    /// Removes the last letter of the active row while the game is on.
    pub fn handle_input_delete(&mut self)
        requires
            old(self).wf(),
        ensures
            final(self).wf(),
            old(self).state() != BoardState::Playing ==> *final(self) == *old(self),
            old(self).state() == BoardState::Playing ==> deleted(*old(self), *final(self)),
    {
        if self.state != BoardState::Playing {
            return ;
        }
        let a = self.active_line;
        let mut line = self.lines.remove(a);
        line.del_char();
        self.lines.insert(a, line);
        proof {
            assert forall|i: int| 0 <= i < 6 && i != a implies #[trigger] self.lines@[i] == old(self).lines@[i] by {}
        }
    }

    /// Submits the active row of a game that is on; submitting once the game is
    /// won or lost is not allowed.
    ///
    /// A correct row feeds the letter pool and wins. An incorrect row feeds the
    /// pool and moves on to the next row, or loses on the last. Five letters that
    /// form no accepted word start the shake and change nothing else; fewer than
    /// five change nothing.
    pub fn handle_input_submit(&mut self)
        requires
            old(self).wf(),
            old(self).state() == BoardState::Playing,
        ensures
            final(self).wf(),
            submitted(*old(self), *final(self)),
    {
        let a = self.active_line;
        let mut line = self.lines.remove(a);
        let outcome = line.submit(&self.dictionary);
        self.lines.insert(a, line);
        proof {
            assert forall|i: int| 0 <= i < 6 && i != a implies #[trigger] self.lines@[i] == old(self).lines@[i] by {}
            assert(self.lines@[a as int] == line);
        }
        match outcome {
            WordLineState::Correct(res) => {
                self.update_letter_pool(&res);
                self.state = BoardState::Won;
            },
            WordLineState::Incorrect(res) => {
                self.update_letter_pool(&res);
                if self.active_line < 5 {
                    self.active_line = self.active_line + 1;
                } else {
                    self.state = BoardState::Lost;
                }
            },
            WordLineState::Invalid => {
                self.handle_invalid_word();
            },
            _ => {},
        }
    }

    /// Starts the shake of the active row.
    fn handle_invalid_word(&mut self)
        ensures
            final(self).shaking,
            final(self).anim_frame_index == 0,
            final(self).state == old(self).state,
            final(self).lines == old(self).lines,
            final(self).active_line == old(self).active_line,
            final(self).letter_pool == old(self).letter_pool,
            final(self).dictionary == old(self).dictionary,
            final(self).solution == old(self).solution,
            final(self).bg == old(self).bg,
    {
        self.anim_frame_index = 0;
        self.shaking = true;
    }

    /// Takes a resolved row's feedback into the letter pool.
    fn update_letter_pool(&mut self, map: &indexmap::IndexMap<char, LetterState>)
        requires
            old(self).letter_pool.wf(),
            crate::letter_map::keys_unique(crate::letter_map::entries_of(*map)),
        ensures
            final(self).letter_pool.wf(),
            final(self).letter_pool.qwerty() == old(self).letter_pool.qwerty(),
            forall|c: char| #[trigger] final(self).letter_pool.state(c) == merged(
                old(self).letter_pool.state(c),
                crate::letter_map::state_of(crate::letter_map::entries_of(*map), c),
            ),
            final(self).state == old(self).state,
            final(self).lines == old(self).lines,
            final(self).active_line == old(self).active_line,
            final(self).dictionary == old(self).dictionary,
            final(self).solution == old(self).solution,
            final(self).bg == old(self).bg,
            final(self).shaking == old(self).shaking,
            final(self).anim_frame_index == old(self).anim_frame_index,
    {
        self.letter_pool.merge(map);
    }
    /// Steps the background to the next colour.
    pub fn next_bg_colour(&mut self)
        requires
            old(self).wf(),
        ensures
            final(self).wf(),
            final(self).background() == next_bg(old(self).background()),
            final(self).state() == old(self).state(),
            final(self).active() == old(self).active(),
            final(self).pool() == old(self).pool(),
            final(self).dict() == old(self).dict(),
            final(self).answer() == old(self).answer(),
            forall|i: int| 0 <= i < 6 ==> #[trigger] final(self).line(i) == old(self).line(i),
    {
        self.bg = match self.bg {
            None => Some(232),
            Some(idx) => if idx == 255 {
                None
            } else {
                Some(idx + 1)
            },
        };
    }

    /// Steps the background to the previous colour.
    pub fn prev_bg_colour(&mut self)
        requires
            old(self).wf(),
        ensures
            final(self).wf(),
            final(self).background() == prev_bg(old(self).background()),
            final(self).state() == old(self).state(),
            final(self).active() == old(self).active(),
            final(self).pool() == old(self).pool(),
            final(self).dict() == old(self).dict(),
            final(self).answer() == old(self).answer(),
            forall|i: int| 0 <= i < 6 ==> #[trigger] final(self).line(i) == old(self).line(i),
    {
        self.bg = match self.bg {
            None => Some(255),
            Some(idx) => if idx == 232 {
                None
            } else {
                Some(idx - 1)
            },
        };
    }

    /// Clears the background colour.
    pub fn reset_bg_colour(&mut self)
        requires
            old(self).wf(),
        ensures
            final(self).wf(),
            final(self).background() is None,
            final(self).state() == old(self).state(),
            final(self).active() == old(self).active(),
            final(self).pool() == old(self).pool(),
            final(self).dict() == old(self).dict(),
            final(self).answer() == old(self).answer(),
            forall|i: int| 0 <= i < 6 ==> #[trigger] final(self).line(i) == old(self).line(i),
    {
        self.bg = None;
    }

    /// The horizontal offset of the active row for the next frame of the shake.
    ///
    /// While the shake runs, a frame whose time has come moves it one step on and
    /// shows the step it passed; another frame shows the current step. After the
    /// last step the shake ends and the offset is 0.
    pub fn shake_offset(&mut self, frame_elapsed: bool) -> (r: i16)
        requires
            old(self).wf(),
        ensures
            final(self).wf(),
            final(self).state() == old(self).state(),
            final(self).active() == old(self).active(),
            final(self).pool() == old(self).pool(),
            forall|i: int| 0 <= i < 6 ==> #[trigger] final(self).line(i) == old(self).line(i),
            old(self).is_shaking() && old(self).frame_index() <= SHAKE_STEPS ==> {
                &&& final(self).is_shaking()
                &&& frame_elapsed ==> final(self).frame_index() == old(self).frame_index() + 1
                    && r as int == shake_step(old(self).frame_index())
                &&& !frame_elapsed ==> final(self).frame_index() == old(self).frame_index()
                    && r as int == shake_step(old(self).frame_index())
            },
            !(old(self).is_shaking() && old(self).frame_index() <= SHAKE_STEPS) ==> {
                &&& !final(self).is_shaking()
                &&& final(self).frame_index() == 0
                &&& r == 0
            },
    {
        if self.shaking && self.anim_frame_index <= SHAKE_STEPS {
            let idx = self.anim_frame_index;
            if frame_elapsed {
                self.anim_frame_index = idx + 1;
            }
            shake_value(idx)
        } else {
            self.shaking = false;
            self.anim_frame_index = 0;
            0
        }
    }

    /// The summary of a won game; `None` while the game is not won.
    pub fn result_grid(&self) -> (r: Option<ResultGrid>)
        requires
            self.wf(),
        ensures
            self.state() != BoardState::Won ==> r is None,
            self.state() == BoardState::Won ==> (r matches Some(g) && {
                &&& g.lines_used == self.active() + 1
                &&& g.solution.answer@ == self.answer()
                &&& g.grid@.len() == self.active() + 1
                &&& forall|i: int|
                    0 <= i <= self.active() ==> #[trigger] g.grid@[i]@ == states_in(
                        self.line(i).letters(),
                    )
            }),
    {
        if self.state != BoardState::Won {
            return None;
        }
        let mut grid: Vec<Vec<LetterState>> = Vec::new();
        let mut i: usize = 0;
        while i <= self.active_line
            invariant
                self.wf(),
                i <= self.active_line + 1,
                grid@.len() == i,
                forall|k: int| 0 <= k < i ==> #[trigger] grid@[k]@ == states_in(self.lines@[k].letters()),
            decreases self.active_line + 1 - i,
        {
            grid.push(self.lines[i].get_letter_states());
            i = i + 1;
        }
        Some(
            ResultGrid {
                solution: Solution {
                    wordle_number: self.solution.wordle_number,
                    answer: self.solution.answer.clone(),
                },
                lines_used: (self.active_line + 1) as u8,
                grid,
            },
        )
    }

    /// Handles a key press: the background hotkeys, and typing, deleting and
    /// submitting on the active row. Reports the summary when the press wins the game.
    pub fn on(&mut self, key: KeyInput) -> (r: Option<Msg>)
        requires
            old(self).wf(),
        ensures
            final(self).wf(),
            final(self).dict() == old(self).dict(),
            final(self).answer() == old(self).answer(),
            key == KeyInput::PageDown ==> final(self).background() == next_bg(old(self).background()),
            key == KeyInput::PageUp ==> final(self).background() == prev_bg(old(self).background()),
            key == KeyInput::Home ==> final(self).background() is None,
            old(self).state() != BoardState::Playing ==> game_unchanged(*old(self), *final(self)),
            old(self).state() == BoardState::Playing && key == KeyInput::Enter ==> submitted(
                *old(self),
                *final(self),
            ),
            old(self).state() == BoardState::Playing && key == KeyInput::Backspace ==> deleted(
                *old(self),
                *final(self),
            ),
            old(self).state() == BoardState::Playing && key is Char && (key->Char_1
                == KeyModifier::Plain || key->Char_1 == KeyModifier::Shift) ==> typed(
                *old(self),
                *final(self),
                key->Char_0,
            ),
            !(key == KeyInput::Enter || key == KeyInput::Backspace || (key is Char && (key->Char_1
                == KeyModifier::Plain || key->Char_1 == KeyModifier::Shift))) ==> game_unchanged(
                *old(self),
                *final(self),
            ),
            old(self).state() == BoardState::Playing && final(self).state() == BoardState::Won ==> r
                matches Some(Msg::Succeded(_)),
            !(old(self).state() == BoardState::Playing && final(self).state() == BoardState::Won)
                ==> r == Some(Msg::NoOp),
    {
        let was_playing = self.state == BoardState::Playing;
        match key {
            KeyInput::PageDown => self.next_bg_colour(),
            KeyInput::PageUp => self.prev_bg_colour(),
            KeyInput::Home => self.reset_bg_colour(),
            KeyInput::Enter => if was_playing {
                self.handle_input_submit()
            },
            KeyInput::Backspace => self.handle_input_delete(),
            KeyInput::Char(ch, KeyModifier::Plain) => self.handle_input_char(ch),
            KeyInput::Char(ch, KeyModifier::Shift) => self.handle_input_char(ch),
            _ => {},
        }
        if was_playing && self.state == BoardState::Won {
            match self.result_grid() {
                Some(g) => Some(Msg::Succeded(g)),
                None => Some(Msg::NoOp),
            }
        } else {
            Some(Msg::NoOp)
        }
    }

    /// Reveals one more letter of row `i`.
    pub fn advance_reveal(&mut self, i: usize)
        requires
            old(self).wf(),
            i < 6,
        ensures
            final(self).wf(),
            final(self).state() == old(self).state(),
            final(self).active() == old(self).active(),
            final(self).pool() == old(self).pool(),
            final(self).same_setting(*old(self)),
            forall|k: int| 0 <= k < 6 && k != i ==> #[trigger] final(self).line(k) == old(self).line(k),
            final(self).line(i as int).letters() == old(self).line(i as int).letters(),
            final(self).line(i as int).status() == old(self).line(i as int).status(),
            final(self).line(i as int).animating() == old(self).line(i as int).animating(),
            old(self).line(i as int).animating() && old(self).line(i as int).revealed_count() < 5
                ==> final(self).line(i as int).revealed_count() == old(self).line(
                i as int,
            ).revealed_count() + 1,
            !(old(self).line(i as int).animating() && old(self).line(i as int).revealed_count() < 5)
                ==> final(self).line(i as int).revealed_count() == old(self).line(
                i as int,
            ).revealed_count(),
    {
        let mut line = self.lines.remove(i);
        line.advance_reveal();
        self.lines.insert(i, line);
        proof {
            assert forall|k: int| 0 <= k < 6 && k != i implies #[trigger] self.lines@[k] == old(self).lines@[k] by {}
        }
    }

    /// The state of the game.
    pub fn board_state(&self) -> (r: BoardState)
        ensures
            r == self.state(),
    {
        self.state
    }

    /// The index of the active row.
    pub fn active_line(&self) -> (r: usize)
        ensures
            r == self.active(),
    {
        self.active_line
    }

    /// Row `i`.
    pub fn line_at(&self, i: usize) -> (r: &WordLine)
        requires
            self.wf(),
            i < 6,
        ensures
            *r == self.line(i as int),
    {
        &self.lines[i]
    }

    /// The letter pool.
    pub fn letter_pool(&self) -> (r: &LetterPool)
        ensures
            *r == self.pool(),
    {
        &self.letter_pool
    }

    /// The background colour, if set.
    pub fn window_bg(&self) -> (r: Option<u8>)
        ensures
            r == self.background(),
    {
        self.bg
    }

    /// Whether the active row is shaking.
    pub fn shaking(&self) -> (r: bool)
        ensures
            r == self.is_shaking(),
    {
        self.shaking
    }

    /// The solution the game is played against.
    pub fn solution(&self) -> (r: &Solution)
        ensures
            r.answer@ == self.answer(),
    {
        &self.solution
    }
}

} // verus!
