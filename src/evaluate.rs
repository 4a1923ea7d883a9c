use crate::letter_map::{
    entries_of, has_key, keys_unique, lemma_state_of_absent, lemma_state_of_entry,
    lemma_state_of_push, lemma_state_of_update, map_get, map_insert, map_new, state_of,
};
use crate::model::{stronger, LetterState};
use indexmap::IndexMap;
use vstd::prelude::*;

verus! {

/// Positions below `n` where the answer holds `c` and the guess does not match it.
pub open spec fn unmatched(e: Seq<char>, a: Seq<char>, c: char, n: int) -> nat
    decreases n,
{
    if n <= 0 {
        0
    } else {
        unmatched(e, a, c, n - 1) + if a[n - 1] == c && e[n - 1] != a[n - 1] {
            1nat
        } else {
            0nat
        }
    }
}

/// Positions below `n` where the guess holds `c` and does not match the answer.
pub open spec fn misplaced(e: Seq<char>, a: Seq<char>, c: char, n: int) -> nat
    decreases n,
{
    if n <= 0 {
        0
    } else {
        misplaced(e, a, c, n - 1) + if e[n - 1] == c && e[n - 1] != a[n - 1] {
            1nat
        } else {
            0nat
        }
    }
}

/// Positions below `n` where guess and answer both hold `c`.
pub open spec fn matched(e: Seq<char>, a: Seq<char>, c: char, n: int) -> nat
    decreases n,
{
    if n <= 0 {
        0
    } else {
        matched(e, a, c, n - 1) + if e[n - 1] == c && a[n - 1] == c {
            1nat
        } else {
            0nat
        }
    }
}

/// Occurrences of `c` among the first `n` characters of `s`.
pub open spec fn occurrences(s: Seq<char>, c: char, n: int) -> nat
    decreases n,
{
    if n <= 0 {
        0
    } else {
        occurrences(s, c, n - 1) + if s[n - 1] == c {
            1nat
        } else {
            0nat
        }
    }
}

/// The marking of position `i` of guess `e` against answer `a`.
///
/// Exact matches are `Correct`. The answer's unmatched occurrences of a letter are
/// then handed out left to right to the guess's misplaced occurrences of it: a
/// misplaced letter is `Contains` while such an occurrence is left, else `Incorrect`.
pub open spec fn mark(e: Seq<char>, a: Seq<char>, i: int) -> LetterState {
    if e[i] == a[i] {
        LetterState::Correct
    } else if misplaced(e, a, e[i], i) < unmatched(e, a, e[i], a.len() as int) {
        LetterState::Contains
    } else {
        LetterState::Incorrect
    }
}

/// The markings of every position of guess `e` against answer `a`.
pub open spec fn marks(e: Seq<char>, a: Seq<char>) -> Seq<LetterState> {
    Seq::new(e.len(), |i: int| mark(e, a, i))
}

/// A marking that says the letter is in the answer.
pub open spec fn is_hit(s: LetterState) -> bool {
    s == LetterState::Correct || s == LetterState::Contains
}

/// Positions below `n` where the guess holds `c` and is marked `Correct` or `Contains`.
pub open spec fn hits(e: Seq<char>, a: Seq<char>, c: char, n: int) -> nat
    decreases n,
{
    if n <= 0 {
        0
    } else {
        hits(e, a, c, n - 1) + if e[n - 1] == c && is_hit(mark(e, a, n - 1)) {
            1nat
        } else {
            0nat
        }
    }
}

/// The strongest state that the first `n` entries give to `c`, if any gives one.
pub open spec fn best_state(s: Seq<(char, LetterState)>, c: char, n: int) -> Option<
    LetterState,
>
    decreases n,
{
    if n <= 0 {
        None
    } else {
        let prev = best_state(s, c, n - 1);
        if s[n - 1].0 == c {
            match prev {
                None => Some(s[n - 1].1),
                Some(p) => Some(stronger(p, s[n - 1].1)),
            }
        } else {
            prev
        }
    }
}

/// The per-letter feedback of a marked row: each letter of the row with the
/// strongest state it received.
pub open spec fn feedback_of(s: Seq<(char, LetterState)>, c: char) -> Option<LetterState> {
    best_state(s, c, s.len() as int)
}

/// A guess equal to the answer is marked `Correct` everywhere.
pub proof fn lemma_exact_guess_all_correct(e: Seq<char>, a: Seq<char>)
    requires
        e == a,
    ensures
        forall|i: int| 0 <= i < e.len() ==> #[trigger] marks(e, a)[i] == LetterState::Correct,
{
}

proof fn lemma_hits_split(e: Seq<char>, a: Seq<char>, c: char, n: int)
    requires
        0 <= n <= e.len(),
        e.len() == a.len(),
    ensures
        hits(e, a, c, n) == matched(e, a, c, n) + if misplaced(e, a, c, n) < unmatched(
            e,
            a,
            c,
            a.len() as int,
        ) {
            misplaced(e, a, c, n)
        } else {
            unmatched(e, a, c, a.len() as int)
        },
    decreases n,
{
    if n > 0 {
        lemma_hits_split(e, a, c, n - 1);
    }
}

proof fn lemma_occurrences_split(e: Seq<char>, a: Seq<char>, c: char, n: int)
    requires
        0 <= n <= e.len(),
        e.len() == a.len(),
    ensures
        occurrences(a, c, n) == matched(e, a, c, n) + unmatched(e, a, c, n),
    decreases n,
{
    if n > 0 {
        lemma_occurrences_split(e, a, c, n - 1);
    }
}

/// A letter is marked `Correct` or `Contains` at most as often as it occurs in the
/// answer, however often the guess repeats it.
pub proof fn lemma_marks_never_overcount(e: Seq<char>, a: Seq<char>, c: char)
    requires
        e.len() == a.len(),
    ensures
        hits(e, a, c, e.len() as int) <= occurrences(a, c, a.len() as int),
{
    lemma_hits_split(e, a, c, e.len() as int);
    lemma_occurrences_split(e, a, c, e.len() as int);
}

fn count_unmatched(e: &Vec<char>, a: &Vec<char>, c: char) -> (r: usize)
    requires
        e@.len() == a@.len(),
    ensures
        r == unmatched(e@, a@, c, a@.len() as int),
{
    let mut r: usize = 0;
    let mut k: usize = 0;
    while k < a.len()
        invariant
            e@.len() == a@.len(),
            k <= a@.len(),
            r == unmatched(e@, a@, c, k as int),
            r <= k,
        decreases a@.len() - k,
    {
        if a[k] == c && e[k] != a[k] {
            r = r + 1;
        }
        k = k + 1;
    }
    r
}

fn count_misplaced(e: &Vec<char>, a: &Vec<char>, c: char, n: usize) -> (r: usize)
    requires
        e@.len() == a@.len(),
        n <= e@.len(),
    ensures
        r == misplaced(e@, a@, c, n as int),
{
    let mut r: usize = 0;
    let mut k: usize = 0;
    while k < n
        invariant
            e@.len() == a@.len(),
            k <= n <= e@.len(),
            r == misplaced(e@, a@, c, k as int),
            r <= k,
        decreases n - k,
    {
        if e[k] == c && e[k] != a[k] {
            r = r + 1;
        }
        k = k + 1;
    }
    r
}

/// Marks each letter of a five-letter guess against a five-letter answer.
///
/// First every exact match is marked `Correct`; then each remaining letter is
/// `Contains` while the answer still has an unmatched occurrence of it, which it
/// uses up, and `Incorrect` otherwise.
pub fn evaluate(entered: &Vec<char>, answer: &Vec<char>) -> (r: Vec<LetterState>)
    requires
        entered@.len() == 5,
        answer@.len() == 5,
    ensures
        r@ == marks(entered@, answer@),
        entered@ == answer@ ==> forall|i: int| 0 <= i < 5 ==> r@[i] == LetterState::Correct,
{
    let mut r: Vec<LetterState> = Vec::new();
    let mut i: usize = 0;
    while i < 5
        invariant
            entered@.len() == 5,
            answer@.len() == 5,
            i <= 5,
            r@.len() == i,
            forall|k: int| 0 <= k < i ==> (r@[k] == LetterState::Correct <==> entered@[k] == answer@[k]),
        decreases 5 - i,
    {
        if entered[i] == answer[i] {
            r.push(LetterState::Correct);
        } else {
            r.push(LetterState::Incorrect);
        }
        i = i + 1;
    }
    let mut i: usize = 0;
    while i < 5
        invariant
            entered@.len() == 5,
            answer@.len() == 5,
            i <= 5,
            r@.len() == 5,
            forall|k: int| 0 <= k < i ==> r@[k] == mark(entered@, answer@, k),
            forall|k: int| i <= k < 5 ==> (r@[k] == LetterState::Correct <==> entered@[k] == answer@[k]),
        decreases 5 - i,
    {
        if entered[i] != answer[i] {
            let c = entered[i];
            let before = count_misplaced(entered, answer, c, i);
            let available = count_unmatched(entered, answer, c);
            if before < available {
                r.set(i, LetterState::Contains);
            } else {
                r.set(i, LetterState::Incorrect);
            }
        }
        i = i + 1;
    }
    assert(r@ == marks(entered@, answer@));
    r
}

/// Folds a marked row into one state per letter, keeping for each letter the
/// strongest state any of its positions received.
pub fn feedback_map(letters: &Vec<(char, LetterState)>) -> (r: IndexMap<char, LetterState>)
    ensures
        keys_unique(entries_of(r)),
        forall|c: char| #[trigger] state_of(entries_of(r), c) == feedback_of(letters@, c),
{
    let mut m = map_new();
    let mut i: usize = 0;
    while i < letters.len()
        invariant
            i <= letters@.len(),
            keys_unique(entries_of(m)),
            forall|c: char| #[trigger] state_of(entries_of(m), c) == best_state(letters@, c, i as int),
        decreases letters@.len() - i,
    {
        let (c, st) = letters[i];
        let ghost before = entries_of(m);
        match map_get(&m, c) {
            None => {
                proof {
                    if has_key(before, c) {
                        let j = choose|j: int| 0 <= j < before.len() && before[j].0 == c;
                        lemma_state_of_entry(before, j);
                    }
                }
                map_insert(&mut m, c, st);
                proof {
                    assert forall|d: char| #[trigger] state_of(entries_of(m), d) == best_state(letters@, d, i + 1) by {
                        lemma_state_of_push(before, c, st, d);
                    }
                }
            },
            Some(cur) => {
                if st.is_stronger_than(&cur) {
                    proof {
                        if !has_key(before, c) {
                            lemma_state_of_absent(before, c);
                        }
                    }
                    let ghost j = choose|j: int| 0 <= j < before.len() && before[j].0 == c;
                    proof {
                        lemma_state_of_entry(before, j);
                    }
                    map_insert(&mut m, c, st);
                    proof {
                        assert(entries_of(m) == before.update(j, (before[j].0, st)));
                        assert forall|d: char| #[trigger] state_of(entries_of(m), d) == best_state(letters@, d, i + 1) by {
                            lemma_state_of_update(before, j, st, d);
                        }
                    }
                }
            },
        }
        i = i + 1;
    }
    m
}

} // verus!
