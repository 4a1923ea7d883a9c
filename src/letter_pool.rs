use crate::letter_map::{
    entries_of, has_key, keys_unique, lemma_state_of_absent, lemma_state_of_entry,
    lemma_state_of_push, lemma_state_of_update, map_get, map_get_index, map_insert, map_len,
    map_new, state_of,
};
use crate::model::{rank, stronger, LetterState};
use crate::text::chars_of;
use indexmap::IndexMap;
use vstd::prelude::*;

verus! {

/// The best state known of each of the 26 lowercase letters over the whole game.
pub struct LetterPool {
    pool: IndexMap<char, LetterState>,
    qwerty_mode: bool,
}

/// Entry `i` is the `i`-th lowercase letter, for each of the 26.
pub open spec fn alphabet_keys(s: Seq<(char, LetterState)>) -> bool {
    s.len() == 26 && forall|i: int| 0 <= i < 26 ==> #[trigger] s[i].0 as u32 == 97 + i
}

/// What a merge makes of a letter's state: the stronger of the two, where the
/// letter is in the pool and the feedback has it.
pub open spec fn merged(old: Option<LetterState>, new: Option<LetterState>) -> Option<LetterState> {
    match (old, new) {
        (Some(o), Some(n)) => Some(stronger(o, n)),
        _ => old,
    }
}

proof fn lemma_alphabet_unique(s: Seq<(char, LetterState)>)
    requires
        alphabet_keys(s),
    ensures
        keys_unique(s),
{
    assert forall|i: int, j: int| 0 <= i < s.len() && 0 <= j < s.len() && i != j implies s[i].0
        != s[j].0 by {
        assert(s[i].0 as u32 == 97 + i);
        assert(s[j].0 as u32 == 97 + j);
    }
}

impl LetterPool {
    /// The pool's entries, in alphabetical order.
    pub closed spec fn entries(&self) -> Seq<(char, LetterState)> {
        entries_of(self.pool)
    }

    /// The state of letter `c`; `None` for a character that is not a lowercase letter.
    pub open spec fn state(&self, c: char) -> Option<LetterState> {
        state_of(self.entries(), c)
    }

    pub closed spec fn qwerty(&self) -> bool {
        self.qwerty_mode
    }

    pub open spec fn wf(&self) -> bool {
        alphabet_keys(self.entries())
    }

    /// A pool with every letter `Unused`, in alphabetical display mode.
    pub fn new() -> (r: LetterPool)
        ensures
            r.wf(),
            !r.qwerty(),
            forall|i: int| 0 <= i < 26 ==> #[trigger] r.entries()[i].1 == LetterState::Unused,
    {
        let mut pool = map_new();
        let mut i: u8 = 0;
        while i < 26
            invariant
                i <= 26,
                entries_of(pool).len() == i,
                forall|k: int| 0 <= k < i ==> #[trigger] entries_of(pool)[k].0 as u32 == 97 + k,
                forall|k: int| 0 <= k < i ==> #[trigger] entries_of(pool)[k].1 == LetterState::Unused,
            decreases 26 - i,
        {
            let c = (97 + i) as char;
            let ghost before = entries_of(pool);
            proof {
                if has_key(before, c) {
                    let k = choose|k: int| 0 <= k < before.len() && before[k].0 == c;
                    assert(before[k].0 as u32 == 97 + k);
                }
            }
            map_insert(&mut pool, c, LetterState::Unused);
            i = i + 1;
        }
        LetterPool { pool, qwerty_mode: false }
    }

    /// Takes in a row's feedback. Each letter of the pool that the feedback names
    /// takes the feedback's state, unless the state it has is strictly stronger.
    pub fn merge(&mut self, feedback: &IndexMap<char, LetterState>)
        requires
            old(self).wf(),
            keys_unique(entries_of(*feedback)),
        ensures
            final(self).wf(),
            final(self).qwerty() == old(self).qwerty(),
            forall|c: char| #[trigger] final(self).state(c) == merged(
                old(self).state(c),
                state_of(entries_of(*feedback), c),
            ),
    {
        let ghost fb = entries_of(*feedback);
        let ghost start = entries_of(self.pool);
        let n = map_len(feedback);
        let mut i: usize = 0;
        while i < n
            invariant
                n == fb.len(),
                fb == entries_of(*feedback),
                keys_unique(fb),
                i <= n,
                alphabet_keys(entries_of(self.pool)),
                self.qwerty_mode == old(self).qwerty_mode,
                start == entries_of(old(self).pool),
                forall|c: char| #[trigger] state_of(entries_of(self.pool), c) == merged(
                    state_of(start, c),
                    state_of(fb.take(i as int), c),
                ),
            decreases n - i,
        {
            let (c, st) = match map_get_index(feedback, i) {
                Some(e) => e,
                None => (' ', LetterState::Unused),
            };
            let ghost cur_pool = entries_of(self.pool);
            proof {
                lemma_alphabet_unique(cur_pool);
                assert(fb.take(i + 1) == fb.take(i as int).push((c, st)));
                if has_key(fb.take(i as int), c) {
                    let k = choose|k: int| 0 <= k < fb.take(i as int).len() && fb.take(i as int)[k].0 == c;
                    assert(fb[k].0 == fb[i as int].0);
                }
                lemma_state_of_absent(fb.take(i as int), c);
                assert forall|d: char| #[trigger] state_of(fb.take(i + 1), d) == if d == c {
                    Some(st)
                } else {
                    state_of(fb.take(i as int), d)
                } by {
                    assert(keys_unique(fb.take(i as int)));
                    lemma_state_of_push(fb.take(i as int), c, st, d);
                }
            }
            match map_get(&self.pool, c) {
                Some(cur) => {
                    proof {
                        if !has_key(cur_pool, c) {
                            lemma_state_of_absent(cur_pool, c);
                        }
                    }
                    let ghost j = choose|j: int| 0 <= j < cur_pool.len() && cur_pool[j].0 == c;
                    proof {
                        lemma_state_of_entry(cur_pool, j);
                    }
                    if !cur.is_stronger_than(&st) {
                        map_insert(&mut self.pool, c, st);
                        proof {
                            assert(entries_of(self.pool) == cur_pool.update(j, (cur_pool[j].0, st)));
                            assert forall|d: char| #[trigger] state_of(entries_of(self.pool), d)
                                == merged(state_of(start, d), state_of(fb.take(i + 1), d)) by {
                                lemma_state_of_update(cur_pool, j, st, d);
                            }
                            assert(alphabet_keys(entries_of(self.pool)));
                        }
                    }
                },
                None => {},
            }
            i = i + 1;
        }
        proof {
            assert(fb.take(n as int) == fb);
        }
    }

    /// The state of letter `c`, if it is a lowercase letter.
    pub fn get(&self, c: char) -> (r: Option<LetterState>)
        requires
            self.wf(),
        ensures
            r == self.state(c),
    {
        proof {
            lemma_alphabet_unique(self.entries());
        }
        map_get(&self.pool, c)
    }

    /// The letters of each of the three display rows: the keyboard's rows in QWERTY
    /// mode, else `a` to `m`, `n` to `z` and an empty row.
    pub fn keyboard_rows(&self) -> (r: Vec<Vec<char>>)
        ensures
            r@.len() == 3,
            self.qwerty() ==> r@[0]@ == "qwertyuiop"@ && r@[1]@ == "asdfghjkl"@ && r@[2]@
                == "zxcvbnm"@,
            !self.qwerty() ==> r@[0]@ == "abcdefghijklm"@ && r@[1]@ == "nopqrstuvwxyz"@ && r@[2]@.len()
                == 0,
    {
        let mut r: Vec<Vec<char>> = Vec::new();
        if self.qwerty_mode {
            r.push(chars_of("qwertyuiop"));
            r.push(chars_of("asdfghjkl"));
            r.push(chars_of("zxcvbnm"));
        } else {
            r.push(chars_of("abcdefghijklm"));
            r.push(chars_of("nopqrstuvwxyz"));
            r.push(Vec::new());
        }
        r
    }

    /// The horizontal offset of display row `i`: the third row one left in QWERTY
    /// mode, the second one right in alphabetical mode.
    pub fn row_offset(&self, i: usize) -> (r: i16)
        ensures
            self.qwerty() && i == 2 ==> r == -1,
            !self.qwerty() && i == 1 ==> r == 1,
            !(self.qwerty() && i == 2) && !(!self.qwerty() && i == 1) ==> r == 0,
    {
        if self.qwerty_mode && i == 2 {
            -1
        } else if !self.qwerty_mode && i == 1 {
            1
        } else {
            0
        }
    }

    /// Switches between alphabetical and QWERTY display order.
    pub fn toggle_qwerty_mode(&mut self)
        ensures
            final(self).qwerty() == !old(self).qwerty(),
            final(self).entries() == old(self).entries(),
    {
        self.qwerty_mode = !self.qwerty_mode;
    }
}

/// A letter's state never weakens in a merge: where the pool knows a strictly
/// stronger state than the feedback's, the merge keeps it; otherwise the letter
/// takes the feedback's state.
pub proof fn lemma_merge_never_downgrades(old: Option<LetterState>, new: LetterState)
    ensures
        old matches Some(o) && rank(o) > rank(new) ==> merged(old, Some(new)) == old,
        old matches Some(o) && rank(o) <= rank(new) ==> merged(old, Some(new)) == Some(new),
        old matches Some(o) ==> merged(old, Some(new)) matches Some(m) && rank(m) >= rank(o),
{
}

} // verus!
