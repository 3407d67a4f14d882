use vstd::arithmetic::div_mod::{lemma_mod_add_multiples_vanish, lemma_small_mod};
use vstd::prelude::*;

verus! {

/// What a question record is, mathematically: its prompt, its choices and
/// the index of the correct choice.
pub struct Record {
    pub question: Seq<char>,
    pub choices: Seq<Seq<char>>,
    pub answer: nat,
}

impl Record {
    /// A record may be played: it has a choice, and its answer names one.
    pub open spec fn valid(self) -> bool {
        &&& self.choices.len() >= 1
        &&& self.answer < self.choices.len()
    }
}

/// The synthetic question shown before a quiz starts.
pub open spec fn menu_record() -> Record {
    Record {
        question: "Welcome to Encard"@,
        choices: seq!["Start"@, "Exit"@],
        answer: 0,
    }
}

/// The choice above `i` in a list of `n` choices, wrapping from the first to
/// the last; with no choices the cursor stays where it is.
pub open spec fn cursor_up(i: nat, n: nat) -> nat {
    if n == 0 {
        i
    } else {
        ((i - 1 + n) % (n as int)) as nat
    }
}

/// The choice below `i` in a list of `n` choices, wrapping from the last to
/// the first; with no choices the cursor stays where it is.
pub open spec fn cursor_down(i: nat, n: nat) -> nat {
    if n == 0 {
        i
    } else {
        ((i + 1) as int % (n as int)) as nat
    }
}

/// A question record bound to a navigation cursor: `index` is the choice
/// currently highlighted, `answer` the correct one.
pub struct Element {
    pub question: String,
    pub choices: Vec<String>,
    pub index: usize,
    pub answer: usize,
}

impl Element {
    /// The record that this element shows, without its cursor.
    pub open spec fn record(&self) -> Record {
        Record {
            question: self.question@,
            choices: self.choices@.map_values(|c: String| c@),
            answer: self.answer as nat,
        }
    }

    /// A valid record with the cursor on one of its choices.
    pub open spec fn wf(&self) -> bool {
        &&& self.record().valid()
        &&& self.index < self.choices@.len()
    }

    /// A record with the cursor on its first choice.
    pub fn new(question: String, choices: Vec<String>, answer: usize) -> (e: Element)
        ensures
            e.question == question,
            e.choices == choices,
            e.answer == answer,
            e.index == 0,
    {
        Element { question, choices, index: 0, answer }
    }

    /// An empty element: no prompt, no choices.
    pub fn default() -> (e: Element)
        ensures
            e.question@ == Seq::<char>::empty(),
            e.choices@.len() == 0,
            e.index == 0,
            e.answer == 0,
    {
        Element { question: String::new(), choices: Vec::new(), index: 0, answer: 0 }
    }

    /// Turns this element into the menu: a welcome prompt with the choices
    /// Start and Exit, the cursor on Start.
    pub fn menu(&mut self)
        ensures
            final(self).record() == menu_record(),
            final(self).index == 0,
            final(self).wf(),
    {
        self.question = String::from_str("Welcome to Encard");
        let mut choices: Vec<String> = Vec::new();
        choices.push(String::from_str("Start"));
        choices.push(String::from_str("Exit"));
        self.choices = choices;
        self.index = 0;
        self.answer = 0;
        assert(self.record().choices =~= menu_record().choices);
    }

    /// Whether the highlighted choice is the correct one.
    pub fn compare(&self) -> (r: bool)
        ensures
            r == (self.index == self.answer),
    {
        self.answer == self.index
    }

    /// The highlighted choice.
    pub fn get(&self) -> (r: usize)
        ensures
            r == self.index,
    {
        self.index
    }

    /// Moves the cursor one choice up, from the first to the last.
    pub fn up(&mut self)
        requires
            old(self).choices@.len() == 0 || old(self).index < old(self).choices@.len(),
        ensures
            final(self).index == cursor_up(old(self).index as nat, old(self).choices@.len()),
            final(self).question == old(self).question,
            final(self).choices == old(self).choices,
            final(self).answer == old(self).answer,
    {
        let n = self.choices.len();
        proof {
            if n > 0 {
                lemma_wrap_once(self.index - 1 + n, n as int);
            }
        }
        if n > 0 {
            if self.index == 0 {
                self.index = n - 1;
            } else {
                self.index = self.index - 1;
            }
        }
    }

    /// Moves the cursor one choice down, from the last to the first.
    pub fn down(&mut self)
        requires
            old(self).choices@.len() == 0 || old(self).index < old(self).choices@.len(),
        ensures
            final(self).index == cursor_down(old(self).index as nat, old(self).choices@.len()),
            final(self).question == old(self).question,
            final(self).choices == old(self).choices,
            final(self).answer == old(self).answer,
    {
        let n = self.choices.len();
        proof {
            if n > 0 {
                lemma_wrap_once(self.index + 1 as int, n as int);
            }
        }
        if n > 0 {
            if self.index + 1 == n {
                self.index = 0;
            } else {
                self.index = self.index + 1;
            }
        }
    }

    /// A copy of this record with the cursor back on the first choice.
    pub fn rebound(&self) -> (e: Element)
        ensures
            e.record() == self.record(),
            e.index == 0,
    {
        let choices = self.choices.clone();
        assert(choices@.map_values(|c: String| c@) =~= self.choices@.map_values(|c: String| c@));
        Element { question: self.question.clone(), choices, index: 0, answer: self.answer }
    }
}

/// A step of one around a list of `n` choices wraps at most once.
proof fn lemma_wrap_once(x: int, n: int)
    requires
        0 < n,
        0 <= x < 2 * n,
    ensures
        x % n == if x < n { x } else { x - n },
{
    if x < n {
        lemma_small_mod(x as nat, n as nat);
    } else {
        lemma_mod_add_multiples_vanish(x - n, n);
        lemma_small_mod((x - n) as nat, n as nat);
    }
}

/// Moving the cursor up and then down, or down and then up, brings it back
/// to where it was, on any list of at least one choice.
pub proof fn lemma_up_down_inverse(i: nat, n: nat)
    requires
        n >= 1,
        i < n,
    ensures
        cursor_down(cursor_up(i, n), n) == i,
        cursor_up(cursor_down(i, n), n) == i,
{
    lemma_wrap_once(i - 1 + n, n as int);
    lemma_wrap_once(i + 1 as int, n as int);
    lemma_wrap_once(cursor_up(i, n) + 1 as int, n as int);
    lemma_wrap_once(cursor_down(i, n) - 1 + n, n as int);
}

} // verus!
