use crate::text::{chars_of, same_chars};
use vstd::prelude::*;

verus! {

/// The words that may be answers and the further words accepted as guesses.
pub struct Dictionary {
    answers: Vec<Vec<char>>,
    words: Vec<Vec<char>>,
}

/// `w` is one of the words of `list`.
pub open spec fn listed(list: Seq<Vec<char>>, w: Seq<char>) -> bool {
    exists|i: int| 0 <= i < list.len() && #[trigger] list[i]@ == w
}

fn find_word(list: &Vec<Vec<char>>, w: &Vec<char>) -> (r: bool)
    ensures
        r == listed(list@, w@),
{
    let mut i: usize = 0;
    while i < list.len()
        invariant
            i <= list@.len(),
            forall|k: int| 0 <= k < i ==> #[trigger] list@[k]@ != w@,
        decreases list@.len() - i,
    {
        if same_chars(&list[i], w) {
            return true;
        }
        i = i + 1;
    }
    false
}

fn words_of(list: &Vec<String>) -> (r: Vec<Vec<char>>)
    ensures
        r@.len() == list@.len(),
        forall|i: int| 0 <= i < list@.len() ==> #[trigger] r@[i]@ == list@[i]@,
{
    let mut r: Vec<Vec<char>> = Vec::new();
    let mut i: usize = 0;
    while i < list.len()
        invariant
            i <= list@.len(),
            r@.len() == i,
            forall|k: int| 0 <= k < i ==> #[trigger] r@[k]@ == list@[k]@,
        decreases list@.len() - i,
    {
        r.push(chars_of(list[i].as_str()));
        i = i + 1;
    }
    r
}

impl Dictionary {
    /// The possible answers, in order.
    pub closed spec fn answer_list(&self) -> Seq<Seq<char>> {
        self.answers@.map_values(|w: Vec<char>| w@)
    }

    /// `w` is accepted as a guess: it is a possible answer or one of the other words.
    pub closed spec fn accepts(&self, w: Seq<char>) -> bool {
        listed(self.answers@, w) || listed(self.words@, w)
    }

    /// A dictionary of the given possible answers and further accepted words.
    pub fn new(answers: &Vec<String>, words: &Vec<String>) -> (r: Dictionary)
        ensures
            r.answer_list().len() == answers@.len(),
            forall|i: int| 0 <= i < answers@.len() ==> #[trigger] r.answer_list()[i] == answers@[i]@,
            forall|w: Seq<char>|
                #[trigger] r.accepts(w) <==> (exists|i: int|
                    0 <= i < answers@.len() && #[trigger] answers@[i]@ == w) || (exists|i: int|
                    0 <= i < words@.len() && #[trigger] words@[i]@ == w),
    {
        let a = words_of(answers);
        let b = words_of(words);
        let r = Dictionary { answers: a, words: b };
        assert forall|w: Seq<char>|
            #[trigger] r.accepts(w) <==> (exists|i: int|
                0 <= i < answers@.len() && #[trigger] answers@[i]@ == w) || (exists|i: int|
                0 <= i < words@.len() && #[trigger] words@[i]@ == w) by {
            if listed(a@, w) {
                let i = choose|i: int| 0 <= i < a@.len() && #[trigger] a@[i]@ == w;
                assert(answers@[i]@ == w);
            }
            if listed(b@, w) {
                let i = choose|i: int| 0 <= i < b@.len() && #[trigger] b@[i]@ == w;
                assert(words@[i]@ == w);
            }
            if exists|i: int| 0 <= i < answers@.len() && #[trigger] answers@[i]@ == w {
                let i = choose|i: int| 0 <= i < answers@.len() && #[trigger] answers@[i]@ == w;
                assert(a@[i]@ == w);
            }
            if exists|i: int| 0 <= i < words@.len() && #[trigger] words@[i]@ == w {
                let i = choose|i: int| 0 <= i < words@.len() && #[trigger] words@[i]@ == w;
                assert(b@[i]@ == w);
            }
        }
        r
    }

    /// `true` when `word` is a possible answer or one of the other accepted words.
    pub fn is_valid_guess(&self, word: &Vec<char>) -> (r: bool)
        ensures
            r == self.accepts(word@),
    {
        find_word(&self.answers, word) || find_word(&self.words, word)
    }

    /// The number of possible answers.
    pub fn answer_count(&self) -> (r: usize)
        ensures
            r == self.answer_list().len(),
    {
        self.answers.len()
    }

    /// The possible answer at position `i`.
    pub fn answer_at(&self, i: usize) -> (r: Vec<char>)
        requires
            i < self.answer_list().len(),
        ensures
            r@ == self.answer_list()[i as int],
    {
        let w = &self.answers[i];
        let mut r: Vec<char> = Vec::new();
        let mut k: usize = 0;
        while k < w.len()
            invariant
                w == &self.answers@[i as int],
                k <= w@.len(),
                r@ == w@.subrange(0, k as int),
            decreases w@.len() - k,
        {
            r.push(w[k]);
            k = k + 1;
        }
        r
    }
}

} // verus!
