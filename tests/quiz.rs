use encard::{Element, Elements, Feedback, Input, Screen, States, StoreError};

fn two_plus_two() -> Element {
    Element::new("2+2?".to_string(), vec!["3".to_string(), "4".to_string()], 1)
}

fn store_with(records: Vec<Element>) -> Elements {
    let mut store = Elements::new();
    for r in records {
        assert_eq!(store.append(r), Ok(()));
    }
    store
}

fn menu_screen() -> Screen {
    let mut screen = Screen::new(Element::default());
    screen.menu();
    screen
}

#[test]
fn default_element_is_empty() {
    let e = Element::default();
    assert_eq!(e.question, "");
    assert!(e.choices.is_empty());
    assert_eq!(e.get(), 0);
    assert_eq!(e.answer, 0);
}

#[test]
fn menu_element_offers_start_and_exit() {
    let mut e = two_plus_two();
    e.index = 1;
    e.menu();
    assert_eq!(e.question, "Welcome to Encard");
    assert_eq!(e.choices, vec!["Start".to_string(), "Exit".to_string()]);
    assert_eq!(e.get(), 0);
    assert_eq!(e.answer, 0);
}

#[test]
fn compare_follows_cursor() {
    let mut e = two_plus_two();
    assert!(!e.compare());
    e.down();
    assert!(e.compare());
    e.down();
    assert!(!e.compare());
}

#[test]
fn cursor_wraps_both_ways() {
    let mut e = Element::new(
        "pick".to_string(),
        vec!["a".to_string(), "b".to_string(), "c".to_string()],
        0,
    );
    e.up();
    assert_eq!(e.get(), 2);
    e.down();
    assert_eq!(e.get(), 0);
    e.down();
    e.down();
    assert_eq!(e.get(), 2);
    e.down();
    assert_eq!(e.get(), 0);
}

#[test]
fn up_then_down_returns_for_every_index() {
    for n in 1..5usize {
        for i in 0..n {
            let choices: Vec<String> = (0..n).map(|k| k.to_string()).collect();
            let mut e = Element::new("q".to_string(), choices, 0);
            e.index = i;
            e.up();
            e.down();
            assert_eq!(e.get(), i);
            e.down();
            e.up();
            assert_eq!(e.get(), i);
        }
    }
}

#[test]
fn cursor_moves_are_no_ops_without_choices() {
    let mut e = Element::default();
    e.up();
    assert_eq!(e.get(), 0);
    e.down();
    assert_eq!(e.get(), 0);
}

#[test]
fn append_then_get_round_trips() {
    let store = store_with(vec![
        Element::new("first".to_string(), vec!["x".to_string()], 0),
        two_plus_two(),
    ]);
    assert_eq!(store.len(), 2);
    let got = store.get(1).unwrap();
    assert_eq!(got.question, "2+2?");
    assert_eq!(got.choices, vec!["3".to_string(), "4".to_string()]);
    assert_eq!(got.answer, 1);
    assert_eq!(got.index, 0);
    assert!(store.get(2).is_none());
}

#[test]
fn append_resets_cursor_of_retrieved_record() {
    let mut e = two_plus_two();
    e.index = 1;
    let store = store_with(vec![e]);
    assert_eq!(store.get(0).unwrap().index, 0);
}

#[test]
fn append_rejects_record_without_choices() {
    let mut store = Elements::new();
    let e = Element::new("empty".to_string(), Vec::new(), 0);
    assert_eq!(store.append(e), Err(StoreError::InvalidRecord));
    assert!(store.is_empty());
}

#[test]
fn append_rejects_answer_out_of_range() {
    let mut store = store_with(vec![two_plus_two()]);
    let e = Element::new("q".to_string(), vec!["a".to_string(), "b".to_string()], 2);
    assert_eq!(store.append(e), Err(StoreError::InvalidRecord));
    assert_eq!(store.len(), 1);
}

#[test]
fn load_from_empty_store_is_store_empty() {
    let store = Elements::new();
    assert!(matches!(store.load(), Err(StoreError::StoreEmpty)));
    assert_eq!(store.load_index(), None);
}

#[test]
fn load_picks_a_stored_record() {
    let store = store_with(vec![two_plus_two()]);
    for _ in 0..20 {
        let e = store.load().unwrap();
        assert_eq!(e.question, "2+2?");
        assert_eq!(e.answer, 1);
        assert_eq!(e.index, 0);
    }
}

#[test]
fn load_index_stays_in_range() {
    let store = store_with(vec![
        Element::new("a".to_string(), vec!["x".to_string()], 0),
        Element::new("b".to_string(), vec!["y".to_string()], 0),
        Element::new("c".to_string(), vec!["z".to_string()], 0),
    ]);
    for _ in 0..100 {
        assert!(store.load_index().unwrap() < 3);
    }
}

#[test]
fn new_screen_starts_in_menu() {
    let screen = Screen::new(two_plus_two());
    assert_eq!(screen.state, States::Menu);
    assert_eq!(screen.score, 0);
    assert_eq!(screen.time, 0);
    assert_eq!(screen.element.question, "2+2?");
}

#[test]
fn menu_resets_score_and_time() {
    let mut screen = Screen::new(two_plus_two());
    screen.score = 4;
    screen.time = 9;
    screen.state = States::Quiz;
    screen.menu();
    assert_eq!(screen.state, States::Menu);
    assert_eq!(screen.score, 0);
    assert_eq!(screen.time, 0);
    assert_eq!(screen.element.question, "Welcome to Encard");
}

#[test]
fn start_with_questions_enters_quiz() {
    let store = store_with(vec![two_plus_two()]);
    let mut screen = menu_screen();
    screen.tick();
    assert_eq!(screen.step(&store, Input::Confirm, 0), Feedback::Nothing);
    assert_eq!(screen.state, States::Quiz);
    assert_eq!(screen.score, 0);
    assert_eq!(screen.time, 0);
    assert_eq!(screen.element.question, "2+2?");
    assert_eq!(screen.element.index, 0);
}

#[test]
fn start_without_questions_stays_in_menu() {
    let store = Elements::new();
    let mut screen = menu_screen();
    assert_eq!(screen.handle(&store, Input::Confirm), Feedback::NoQuestions);
    assert_eq!(screen.state, States::Menu);
    assert_eq!(screen.element.question, "Welcome to Encard");
}

#[test]
fn exit_from_menu_ends_session() {
    let store = store_with(vec![two_plus_two()]);
    let mut screen = menu_screen();
    screen.handle(&store, Input::MoveDown);
    assert_eq!(screen.element.get(), 1);
    assert_eq!(screen.state, States::Menu);
    screen.handle(&store, Input::Confirm);
    assert_eq!(screen.state, States::Exiting);
    assert!(screen.is_exiting());
}

#[test]
fn cancel_ends_session_from_every_state() {
    let store = store_with(vec![two_plus_two()]);
    let mut menu = menu_screen();
    menu.handle(&store, Input::Cancel);
    assert_eq!(menu.state, States::Exiting);

    let mut quiz = menu_screen();
    quiz.handle(&store, Input::Confirm);
    assert_eq!(quiz.state, States::Quiz);
    quiz.handle(&store, Input::Cancel);
    assert_eq!(quiz.state, States::Exiting);

    quiz.handle(&store, Input::Cancel);
    assert_eq!(quiz.state, States::Exiting);
}

#[test]
fn correct_answer_scores_and_rebinds() {
    let store = store_with(vec![two_plus_two()]);
    let mut screen = menu_screen();
    screen.handle(&store, Input::Confirm);
    screen.handle(&store, Input::MoveDown);
    assert_eq!(screen.element.get(), 1);
    assert_eq!(screen.handle(&store, Input::Confirm), Feedback::Correct);
    assert_eq!(screen.score, 1);
    assert_eq!(screen.state, States::Quiz);
    assert_eq!(screen.element.question, "2+2?");
    assert_eq!(screen.element.get(), 0);
}

#[test]
fn wrong_answer_keeps_score_and_rebinds() {
    let store = store_with(vec![two_plus_two()]);
    let mut screen = menu_screen();
    screen.handle(&store, Input::Confirm);
    assert_eq!(screen.handle(&store, Input::Confirm), Feedback::Wrong);
    assert_eq!(screen.score, 0);
    assert_eq!(screen.state, States::Quiz);
    assert_eq!(screen.element.question, "2+2?");
    assert_eq!(screen.element.get(), 0);
}

#[test]
fn step_binds_the_picked_record() {
    let store = store_with(vec![
        Element::new("a".to_string(), vec!["x".to_string()], 0),
        two_plus_two(),
    ]);
    let mut screen = menu_screen();
    screen.step(&store, Input::Confirm, 1);
    assert_eq!(screen.element.question, "2+2?");
    assert_eq!(screen.step(&store, Input::Confirm, 0), Feedback::Wrong);
    assert_eq!(screen.element.question, "a");
    assert_eq!(screen.step(&store, Input::Confirm, 1), Feedback::Correct);
    assert_eq!(screen.score, 1);
}

#[test]
fn score_saturates_at_its_top() {
    let store = store_with(vec![Element::new("a".to_string(), vec!["x".to_string()], 0)]);
    let mut screen = menu_screen();
    screen.step(&store, Input::Confirm, 0);
    screen.score = u32::MAX;
    assert_eq!(screen.step(&store, Input::Confirm, 0), Feedback::Correct);
    assert_eq!(screen.score, u32::MAX);
}

#[test]
fn navigation_and_other_keys_leave_state_alone() {
    let store = store_with(vec![two_plus_two()]);
    let mut screen = menu_screen();
    screen.handle(&store, Input::MoveUp);
    assert_eq!(screen.element.get(), 1);
    assert_eq!(screen.state, States::Menu);
    screen.handle(&store, Input::Other);
    assert_eq!(screen.element.get(), 1);
    assert_eq!(screen.state, States::Menu);
}

#[test]
fn exiting_ignores_further_input() {
    let store = store_with(vec![two_plus_two()]);
    let mut screen = menu_screen();
    screen.handle(&store, Input::Cancel);
    screen.handle(&store, Input::MoveDown);
    assert_eq!(screen.element.get(), 0);
    assert_eq!(screen.handle(&store, Input::Confirm), Feedback::Nothing);
    assert_eq!(screen.state, States::Exiting);
    screen.tick();
    assert_eq!(screen.time, 0);
}

#[test]
fn tick_counts_time_until_menu() {
    let store = store_with(vec![two_plus_two()]);
    let mut screen = menu_screen();
    screen.handle(&store, Input::Confirm);
    screen.tick();
    screen.tick();
    assert_eq!(screen.time, 2);
    screen.time = u32::MAX;
    screen.tick();
    assert_eq!(screen.time, u32::MAX);
    screen.menu();
    assert_eq!(screen.time, 0);
}
