use crate::element::{cursor_down, cursor_up, menu_record, Element, Record};
use crate::store::Elements;
use vstd::prelude::*;

verus! {

/// Where the session stands.
#[derive(Debug, Clone, Copy, PartialEq, Eq, Structural)]
pub enum States {
    /// The menu is shown: Start or Exit.
    Menu,
    /// A question from the store is shown.
    Quiz,
    /// The session is over; the event loop stops.
    Exiting,
}

/// A key press, as the event loop hands it over.
#[derive(Debug, Clone, Copy, PartialEq, Eq, Structural)]
pub enum Input {
    MoveUp,
    MoveDown,
    Confirm,
    Cancel,
    Other,
}

/// What a transition has to tell the player.
#[derive(Debug, Clone, Copy, PartialEq, Eq, Structural)]
pub enum Feedback {
    Nothing,
    /// Start was chosen but the store holds no question.
    NoQuestions,
    /// The submitted choice was the correct one.
    Correct,
    /// The submitted choice was not the correct one.
    Wrong,
}

/// A session, mathematically.
pub struct ScreenView {
    pub record: Record,
    pub index: nat,
    pub score: nat,
    pub time: nat,
    pub state: States,
}

/// One more, unless the counter is already at its top.
pub open spec fn saturating_inc(x: nat) -> nat {
    if x < u32::MAX {
        x + 1
    } else {
        x
    }
}

/// The session and feedback after `input`, where `store` holds the records
/// and `pick` is the position of the record drawn, should one be needed.
pub open spec fn next_screen(s: ScreenView, store: Seq<Record>, input: Input, pick: int) -> (
    ScreenView,
    Feedback,
) {
    match input {
        Input::Cancel => (ScreenView { state: States::Exiting, ..s }, Feedback::Nothing),
        Input::Other => (s, Feedback::Nothing),
        Input::MoveUp => if s.state is Exiting {
            (s, Feedback::Nothing)
        } else {
            (ScreenView { index: cursor_up(s.index, s.record.choices.len()), ..s }, Feedback::Nothing)
        },
        Input::MoveDown => if s.state is Exiting {
            (s, Feedback::Nothing)
        } else {
            (
                ScreenView { index: cursor_down(s.index, s.record.choices.len()), ..s },
                Feedback::Nothing,
            )
        },
        Input::Confirm => match s.state {
            States::Menu => if s.index != 0 {
                (ScreenView { state: States::Exiting, ..s }, Feedback::Nothing)
            } else if store.len() == 0 {
                (s, Feedback::NoQuestions)
            } else {
                (
                    ScreenView {
                        record: store[pick],
                        index: 0,
                        score: 0,
                        time: 0,
                        state: States::Quiz,
                    },
                    Feedback::Nothing,
                )
            },
            States::Quiz => {
                let correct = s.index == s.record.answer;
                (
                    ScreenView {
                        record: if store.len() == 0 {
                            s.record
                        } else {
                            store[pick]
                        },
                        index: 0,
                        score: if correct {
                            saturating_inc(s.score)
                        } else {
                            s.score
                        },
                        time: s.time,
                        state: States::Quiz,
                    },
                    if correct {
                        Feedback::Correct
                    } else {
                        Feedback::Wrong
                    },
                )
            },
            States::Exiting => (s, Feedback::Nothing),
        },
    }
}

/// The quiz session: the bound element with its cursor, the score, the
/// elapsed-time counter and the state.
pub struct Screen {
    pub element: Element,
    pub score: u32,
    pub time: u32,
    pub state: States,
}

impl View for Screen {
    type V = ScreenView;

    open spec fn view(&self) -> ScreenView {
        ScreenView {
            record: self.element.record(),
            index: self.element.index as nat,
            score: self.score as nat,
            time: self.time as nat,
            state: self.state,
        }
    }
}

impl Screen {
    /// The bound element is a valid record with its cursor on a choice.
    pub open spec fn wf(&self) -> bool {
        self.element.wf()
    }

    /// A session in the menu state, bound to `element`, with nothing scored
    /// and no time elapsed.
    pub fn new(element: Element) -> (s: Screen)
        ensures
            s.element == element,
            s.score == 0,
            s.time == 0,
            s.state == States::Menu,
    {
        Screen { element, score: 0, time: 0, state: States::Menu }
    }

    /// Back to the menu: the menu element bound, score and time reset.
    pub fn menu(&mut self)
        ensures
            final(self).wf(),
            final(self)@.record == menu_record(),
            final(self)@.index == 0,
            final(self).score == 0,
            final(self).time == 0,
            final(self).state == States::Menu,
    {
        self.element.menu();
        self.score = 0;
        self.time = 0;
        self.state = States::Menu;
    }

    /// Whether the event loop should stop.
    pub fn is_exiting(&self) -> (b: bool)
        ensures
            b == (self.state is Exiting),
    {
        match self.state {
            States::Exiting => true,
            _ => false,
        }
    }

    /// One unit of elapsed time, while the session runs.
    pub fn tick(&mut self)
        ensures
            final(self).element == old(self).element,
            final(self).score == old(self).score,
            final(self).state == old(self).state,
            final(self).time == if old(self).state is Exiting {
                old(self).time as nat
            } else {
                saturating_inc(old(self).time as nat)
            },
    {
        if !self.is_exiting() {
            self.time = self.time.saturating_add(1);
        }
    }

    /// Binds a fresh copy of record `pick` of the store.
    fn bind(&mut self, store: &Elements, pick: usize)
        requires
            store.wf(),
            pick < store@.len(),
        ensures
            final(self).wf(),
            final(self)@.record == store@[pick as int],
            final(self)@.index == 0,
            final(self).score == old(self).score,
            final(self).time == old(self).time,
            final(self).state == old(self).state,
    {
        match store.get(pick) {
            Some(e) => {
                self.element = e;
            },
            None => {},
        }
    }

    /// The transition for `input`, with `pick` the position of the record to
    /// bind should the transition need one.
    pub fn step(&mut self, store: &Elements, input: Input, pick: usize) -> (fb: Feedback)
        requires
            old(self).wf(),
            store.wf(),
            store@.len() == 0 || pick < store@.len(),
        ensures
            final(self).wf(),
            (final(self)@, fb) == next_screen(old(self)@, store@, input, pick as int),
    {
        match input {
            Input::Cancel => {
                self.state = States::Exiting;
                Feedback::Nothing
            },
            Input::Other => Feedback::Nothing,
            Input::MoveUp => {
                if !self.is_exiting() {
                    self.element.up();
                }
                Feedback::Nothing
            },
            Input::MoveDown => {
                if !self.is_exiting() {
                    self.element.down();
                }
                Feedback::Nothing
            },
            Input::Confirm => match self.state {
                States::Menu => {
                    if self.element.get() != 0 {
                        self.state = States::Exiting;
                        Feedback::Nothing
                    } else if store.is_empty() {
                        Feedback::NoQuestions
                    } else {
                        self.bind(store, pick);
                        self.score = 0;
                        self.time = 0;
                        self.state = States::Quiz;
                        Feedback::Nothing
                    }
                },
                States::Quiz => {
                    let correct = self.element.compare();
                    if correct {
                        self.score = self.score.saturating_add(1);
                    }
                    if store.is_empty() {
                        self.element.index = 0;
                    } else {
                        self.bind(store, pick);
                    }
                    if correct {
                        Feedback::Correct
                    } else {
                        Feedback::Wrong
                    }
                },
                States::Exiting => Feedback::Nothing,
            },
        }
    }

    /// The transition for `input`, drawing the record to bind at random.
    pub fn handle(&mut self, store: &Elements, input: Input) -> (fb: Feedback)
        requires
            old(self).wf(),
            store.wf(),
        ensures
            final(self).wf(),
            exists|pick: int|
                (store@.len() == 0 || 0 <= pick < store@.len()) && (final(self)@, fb)
                    == next_screen(old(self)@, store@, input, pick),
    {
        let pick: usize = match store.load_index() {
            Some(i) => i,
            None => 0,
        };
        self.step(store, input, pick)
    }
}

/// Submitting in a quiz is judged correct exactly when the highlighted
/// choice is the answer, and only then does the score grow; either way the
/// cursor goes back to the first choice.
pub proof fn lemma_submission(s: ScreenView, store: Seq<Record>, pick: int)
    requires
        s.state is Quiz,
    ensures
        (next_screen(s, store, Input::Confirm, pick).1 == Feedback::Correct) == (s.index
            == s.record.answer),
        next_screen(s, store, Input::Confirm, pick).0.score == if s.index == s.record.answer {
            saturating_inc(s.score)
        } else {
            s.score
        },
        next_screen(s, store, Input::Confirm, pick).0.index == 0,
        next_screen(s, store, Input::Confirm, pick).0.state is Quiz,
{
}

/// In the menu, confirming Start (the first choice) while the store holds a
/// record starts a quiz on it, with the score and the time at zero.
pub proof fn lemma_start_with_questions(s: ScreenView, store: Seq<Record>, pick: int)
    requires
        s.state is Menu,
        s.record == menu_record(),
        s.index == 0,
        0 <= pick < store.len(),
    ensures
        next_screen(s, store, Input::Confirm, pick).0.state is Quiz,
        next_screen(s, store, Input::Confirm, pick).0.score == 0,
        next_screen(s, store, Input::Confirm, pick).0.time == 0,
        next_screen(s, store, Input::Confirm, pick).0.record == store[pick],
        next_screen(s, store, Input::Confirm, pick).0.index == 0,
{
}

/// In the menu, confirming Start while the store is empty leaves the state
/// as it was, and says that there are no questions.
pub proof fn lemma_start_without_questions(s: ScreenView, store: Seq<Record>, pick: int)
    requires
        s.state is Menu,
        s.record == menu_record(),
        s.index == 0,
        store.len() == 0,
    ensures
        next_screen(s, store, Input::Confirm, pick).0.state is Menu,
        next_screen(s, store, Input::Confirm, pick).1 == Feedback::NoQuestions,
{
}

/// Confirming Exit (the second choice) in the menu, or cancelling in any
/// state, ends the session.
pub proof fn lemma_exit(s: ScreenView, store: Seq<Record>, pick: int)
    ensures
        s.state is Menu && s.record == menu_record() && s.index == 1 ==> next_screen(
            s,
            store,
            Input::Confirm,
            pick,
        ).0.state is Exiting,
        next_screen(s, store, Input::Cancel, pick).0.state is Exiting,
{
}

} // verus!
